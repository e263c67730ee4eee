//! JSON values: a plain tree that the protocols read and build, and the way
//! between that tree and JSON text, which is `serde_json`'s.
use vstd::prelude::*;

use crate::text::same_text;

verus! {

/// A JSON value. Where two fields of an object have one name, the later counts.
#[derive(Debug, PartialEq)]
pub enum Json {
    Null,
    Bool(bool),
    Number(serde_json::Number),
    Str(String),
    Array(Vec<Json>),
    Object(Vec<(String, Json)>),
}

/// What a JSON value says: the view of [`Json`].
pub enum JsonTree {
    Null,
    Bool(bool),
    Number(serde_json::Number),
    Str(Seq<char>),
    Array(Seq<JsonTree>),
    Object(Map<Seq<char>, JsonTree>),
}

/// `serde_json::Number`, carried through unread.
#[verifier::external_type_specification]
#[verifier::external_body]
pub struct ExNumber(serde_json::Number);

/// `serde_json::Value`, the form in which `serde_json` reads and writes text.
#[verifier::external_type_specification]
#[verifier::external_body]
pub struct ExValue(serde_json::Value);

/// What a `serde_json::Value` holds.
pub uninterp spec fn value_tree(value: serde_json::Value) -> JsonTree;

/// The number as an unsigned 64-bit integer, where it is one.
pub uninterp spec fn number_u64(number: serde_json::Number) -> Option<u64>;

/// The number that `serde_json` makes of an unsigned 64-bit integer.
pub uninterp spec fn u64_number(n: u64) -> serde_json::Number;

/// What `serde_json` reads in a JSON text: a value, or the message of its error.
pub uninterp spec fn json_parsed(text: Seq<u8>) -> Result<JsonTree, Seq<char>>;

/// The compact JSON text that `serde_json` writes for a value.
pub uninterp spec fn json_text(tree: JsonTree) -> Seq<char>;

/// The outermost layer of a `serde_json::Value`.
pub enum Layer {
    Null,
    Bool(bool),
    Number(serde_json::Number),
    Str(String),
    Array(Vec<serde_json::Value>),
    Object(Vec<(String, serde_json::Value)>),
}

/// What an object with these members holds.
pub open spec fn members_tree(members: Seq<(String, serde_json::Value)>) -> Map<
    Seq<char>,
    JsonTree,
>
    decreases members.len(),
{
    if members.len() == 0 {
        Map::empty()
    } else {
        members_tree(members.drop_last()).insert(members.last().0@, value_tree(members.last().1))
    }
}

/// No two members have one name.
pub open spec fn distinct_names(members: Seq<(String, serde_json::Value)>) -> bool {
    forall|i: int, j: int|
        0 <= i < j < members.len() ==> (#[trigger] members[i]).0@ != (#[trigger] members[j]).0@
}

/// What a layer holds.
pub open spec fn layer_tree(layer: Layer) -> JsonTree {
    match layer {
        Layer::Null => JsonTree::Null,
        Layer::Bool(b) => JsonTree::Bool(b),
        Layer::Number(n) => JsonTree::Number(n),
        Layer::Str(s) => JsonTree::Str(s@),
        Layer::Array(items) => JsonTree::Array(
            items@.map_values(|item: serde_json::Value| value_tree(item)),
        ),
        Layer::Object(members) => JsonTree::Object(members_tree(members@)),
    }
}

/// The name of the field by which `serde_json` marks raw JSON text. Its reader does
/// not make an object of one that begins with this field: it reads the field's text
/// as the value instead.
pub open spec fn raw_value_name() -> Seq<char> {
    "$serde_json::private::RawValue"@
}

/// A value nested at most `limit` deep, with no number but unsigned 64-bit
/// integers, and no field of the name that marks raw JSON text.
pub open spec fn fits(tree: JsonTree, limit: nat) -> bool
    decreases limit,
{
    match tree {
        JsonTree::Number(n) => number_u64(n) is Some,
        JsonTree::Array(items) => limit > 0 && (forall|i: int|
            0 <= i < items.len() ==> fits(#[trigger] items[i], (limit - 1) as nat)),
        JsonTree::Object(fields) => limit > 0 && !fields.dom().contains(raw_value_name()) && (
        forall|name: Seq<char>|
            fields.dom().contains(name) ==> fits(#[trigger] fields[name], (limit - 1) as nat)),
        _ => true,
    }
}

/// The values that `serde_json` reads back from the text that it wrote of them:
/// its reader stops at 128 levels, it does not promise that of a fraction, and it
/// takes one name of a field for a mark of its own.
pub open spec fn storable(tree: JsonTree) -> bool {
    fits(tree, 127)
}

/// What a parse gave: the tree of the value, or the text of the message.
pub open spec fn parse_view(r: Result<serde_json::Value, String>) -> Result<
    JsonTree,
    Seq<char>,
> {
    match r {
        Ok(value) => Ok(value_tree(value)),
        Err(message) => Err(message@),
    }
}

/// The text, in UTF-8, parses to this value.
pub open spec fn spells(text: Seq<char>, tree: JsonTree) -> bool {
    json_parsed(vstd::utf8::encode_utf8(text)) == Ok::<JsonTree, Seq<char>>(tree)
}

/// Takes one layer off: a match on the variants of `serde_json::Value`. What the
/// layer holds is what the value held, and a `serde_json::Map` has each name
/// once.
#[verifier::external_body]
fn peel(value: &serde_json::Value) -> (layer: Layer)
    ensures
        layer_tree(layer) == value_tree(*value),
        layer matches Layer::Object(members) ==> distinct_names(members@),
{
    match value {
        serde_json::Value::Null => Layer::Null,
        serde_json::Value::Bool(b) => Layer::Bool(*b),
        serde_json::Value::Number(n) => Layer::Number(n.clone()),
        serde_json::Value::String(s) => Layer::Str(s.clone()),
        serde_json::Value::Array(items) => Layer::Array(items.clone()),
        serde_json::Value::Object(members) => Layer::Object(members.clone().into_iter().collect()),
    }
}

/// Puts one layer on: the variants of `serde_json::Value`, with
/// `serde_json::Map::from_iter` for an object. What the value holds is what the
/// layer held.
#[verifier::external_body]
fn cover(layer: Layer) -> (value: serde_json::Value)
    requires
        layer matches Layer::Object(members) ==> distinct_names(members@),
    ensures
        value_tree(value) == layer_tree(layer),
{
    match layer {
        Layer::Null => serde_json::Value::Null,
        Layer::Bool(b) => serde_json::Value::Bool(b),
        Layer::Number(n) => serde_json::Value::Number(n),
        Layer::Str(s) => serde_json::Value::String(s),
        Layer::Array(items) => serde_json::Value::Array(items),
        Layer::Object(members) => serde_json::Value::Object(members.into_iter().collect()),
    }
}

/// `serde_json::from_slice`: the value that it reads in the text, or the error's
/// message. What it reads in a given text is not said here.
#[verifier::external_body]
fn read_value(text: &[u8]) -> (r: Result<serde_json::Value, String>)
    ensures
        json_parsed(text@) == parse_view(r),
{
    serde_json::from_slice(text).map_err(|error: serde_json::Error| error.to_string())
}

/// `serde_json::to_string`, which cannot fail on a `Value`: the compact text of
/// the value. It holds no line break, since the writer escapes control
/// characters. `serde_json` reads the value back from it where the value is
/// storable; of other values that is left open.
#[verifier::external_body]
fn write_value(value: &serde_json::Value) -> (r: String)
    ensures
        r@ == json_text(value_tree(*value)),
        !r@.contains('\n'),
        storable(value_tree(*value)) ==> spells(r@, value_tree(*value)),
{
    serde_json::to_string(value).unwrap()
}

/// `serde_json::Number::as_u64`.
#[verifier::external_body]
fn number_as_u64(number: &serde_json::Number) -> (r: Option<u64>)
    ensures
        r == number_u64(*number),
{
    number.as_u64()
}

/// `serde_json::Number::from` on a `u64`: the number is that integer.
#[verifier::external_body]
fn number_from_u64(n: u64) -> (r: serde_json::Number)
    ensures
        r == u64_number(n),
        number_u64(r) == Some(n),
{
    serde_json::Number::from(n)
}

/// `serde_json::Number::clone`: the same number.
#[verifier::external_body]
fn copy_number(number: &serde_json::Number) -> (r: serde_json::Number)
    ensures
        r == *number,
{
    number.clone()
}

impl View for Json {
    type V = JsonTree;

    open spec fn view(&self) -> JsonTree {
        self.tree()
    }
}

pub open spec fn items_tree(items: Seq<Json>) -> Seq<JsonTree>
    decreases items,
{
    Seq::new(
        items.len(),
        |i: int|
            if 0 <= i < items.len() {
                items[i].tree()
            } else {
                JsonTree::Null
            },
    )
}

pub open spec fn fields_tree(fields: Seq<(String, Json)>) -> Map<Seq<char>, JsonTree>
    decreases fields,
{
    if fields.len() == 0 {
        Map::empty()
    } else {
        fields_tree(fields.drop_last()).insert(fields.last().0@, fields.last().1.tree())
    }
}

/// The view of an optional value.
pub open spec fn opt_tree(json: Option<Json>) -> Option<JsonTree> {
    match json {
        Some(json) => Some(json@),
        None => None,
    }
}

impl JsonTree {
    /// The field of that name, where this is an object that has one.
    pub open spec fn field(self, name: Seq<char>) -> Option<JsonTree> {
        match self {
            JsonTree::Object(fields) => if fields.dom().contains(name) {
                Some(fields[name])
            } else {
                None
            },
            _ => None,
        }
    }

    /// The text, where this is a string.
    pub open spec fn text(self) -> Option<Seq<char>> {
        match self {
            JsonTree::Str(s) => Some(s),
            _ => None,
        }
    }

    /// The integer, where this is an unsigned 64-bit one.
    pub open spec fn unsigned(self) -> Option<u64> {
        match self {
            JsonTree::Number(n) => number_u64(n),
            _ => None,
        }
    }

    /// The field of that name, where it is a string.
    pub open spec fn field_text(self, name: Seq<char>) -> Option<Seq<char>> {
        match self.field(name) {
            Some(field) => field.text(),
            None => None,
        }
    }

    /// The field that the field of one name has under another.
    pub open spec fn inner_field(self, outer: Seq<char>, name: Seq<char>) -> Option<JsonTree> {
        match self.field(outer) {
            Some(field) => field.field(name),
            None => None,
        }
    }

    /// This object with one more field, or with that field replaced.
    pub open spec fn with(self, name: Seq<char>, value: JsonTree) -> JsonTree {
        match self {
            JsonTree::Object(fields) => JsonTree::Object(fields.insert(name, value)),
            _ => self,
        }
    }

    /// The object without fields.
    pub open spec fn object() -> JsonTree {
        JsonTree::Object(Map::empty())
    }

    /// A string, or null where there is none.
    pub open spec fn optional(text: Option<Seq<char>>) -> JsonTree {
        match text {
            Some(text) => JsonTree::Str(text),
            None => JsonTree::Null,
        }
    }
}

impl Json {
    pub open spec fn tree(&self) -> JsonTree
        decreases self,
    {
        match self {
            Json::Null => JsonTree::Null,
            Json::Bool(b) => JsonTree::Bool(*b),
            Json::Number(n) => JsonTree::Number(*n),
            Json::Str(s) => JsonTree::Str(s@),
            Json::Array(items) => JsonTree::Array(items_tree(items@)),
            Json::Object(fields) => JsonTree::Object(fields_tree(fields@)),
        }
    }

    /// The object without fields.
    pub fn object() -> (r: Json)
        ensures
            r@ == JsonTree::object(),
    {
        let fields: Vec<(String, Json)> = Vec::new();
        Json::Object(fields)
    }

    /// This object with one more field, or with that field replaced.
    pub fn with(self, name: &str, value: Json) -> (r: Json)
        ensures
            r@ == self@.with(name@, value@),
    {
        match self {
            Json::Object(fields) => {
                let mut fields: Vec<(String, Json)> = fields;
                let ghost before = fields@;
                fields.push((name.to_owned(), value));
                assert(fields@.drop_last() =~= before);
                Json::Object(fields)
            },
            other => other,
        }
    }

    /// A JSON string.
    pub fn text(s: &str) -> (r: Json)
        ensures
            r@ == JsonTree::Str(s@),
    {
        Json::Str(s.to_owned())
    }

    /// A JSON string, or null where there is none.
    pub fn optional(s: Option<&str>) -> (r: Json)
        ensures
            r@ == JsonTree::optional(crate::text::opt_str(s)),
    {
        match s {
            Some(s) => Json::text(s),
            None => Json::Null,
        }
    }

    /// A JSON array.
    pub fn array(items: Vec<Json>) -> (r: Json)
        ensures
            r@ == JsonTree::Array(items@.map_values(|item: Json| item@)),
    {
        assert(items_tree(items@) =~= items@.map_values(|item: Json| item@));
        Json::Array(items)
    }

    /// A JSON number.
    pub fn number(n: u64) -> (r: Json)
        ensures
            r@ == JsonTree::Number(u64_number(n)),
            r@.unsigned() == Some(n),
    {
        Json::Number(number_from_u64(n))
    }

    /// The field of that name, where this is an object that has one.
    pub fn get(&self, name: &str) -> (r: Option<&Json>)
        ensures
            match r {
                Some(field) => self@.field(name@) == Some(field@),
                None => self@.field(name@) is None,
            },
    {
        match self {
            Json::Object(fields) => {
                let mut i: usize = fields.len();
                assert(fields@.take(fields@.len() as int) =~= fields@);
                while i > 0
                    invariant
                        i <= fields@.len(),
                        self@ == JsonTree::Object(fields_tree(fields@)),
                        fields_tree(fields@.take(i as int)).dom().contains(name@) == fields_tree(
                            fields@,
                        ).dom().contains(name@),
                        fields_tree(fields@).dom().contains(name@) ==> fields_tree(
                            fields@.take(i as int),
                        )[name@] == fields_tree(fields@)[name@],
                    decreases i,
                {
                    i = i - 1;
                    assert(fields@.take(i + 1).drop_last() =~= fields@.take(i as int));
                    if same_text(fields[i].0.as_str(), name) {
                        return Some(&fields[i].1);
                    }
                }
                assert(fields@.take(0) =~= Seq::<(String, Json)>::empty());
                None
            },
            _ => None,
        }
    }

    /// The text, where this is a string.
    pub fn as_str(&self) -> (r: Option<&str>)
        ensures
            crate::text::opt_str(r) == self@.text(),
    {
        match self {
            Json::Str(s) => Some(s.as_str()),
            _ => None,
        }
    }

    /// The integer, where this is an unsigned 64-bit one.
    pub fn as_u64(&self) -> (r: Option<u64>)
        ensures
            r == self@.unsigned(),
    {
        match self {
            Json::Number(n) => number_as_u64(n),
            _ => None,
        }
    }

    /// Tells whether this is `true`.
    pub fn is_true(&self) -> (r: bool)
        ensures
            r == (self@ == JsonTree::Bool(true)),
    {
        match self {
            Json::Bool(b) => *b,
            _ => false,
        }
    }

    /// The field of that name, where it is a string.
    pub fn get_str(&self, name: &str) -> (r: Option<&str>)
        ensures
            crate::text::opt_str(r) == self@.field_text(name@),
    {
        match self.get(name) {
            Some(field) => field.as_str(),
            None => None,
        }
    }

    /// Tells whether the field of that name is this string.
    pub fn field_is(&self, name: &str, text: &str) -> (r: bool)
        ensures
            r == (self@.field_text(name@) == Some(text@)),
    {
        match self.get_str(name) {
            Some(found) => same_text(found, text),
            None => false,
        }
    }

    /// The field that the field of one name has under another.
    pub fn get_inner(&self, outer: &str, name: &str) -> (r: Option<&Json>)
        ensures
            match r {
                Some(field) => self@.inner_field(outer@, name@) == Some(field@),
                None => self@.inner_field(outer@, name@) is None,
            },
    {
        match self.get(outer) {
            Some(field) => field.get(name),
            None => None,
        }
    }

    /// Takes the field of that name out; null where there is none.
    pub fn take_field(self, name: &str) -> (r: Json)
        ensures
            r@ == (match self@.field(name@) {
                Some(field) => field,
                None => JsonTree::Null,
            }),
    {
        match self {
            Json::Object(fields) => {
                let mut fields: Vec<(String, Json)> = fields;
                let ghost all = fields@;
                assert(fields@.take(fields@.len() as int) =~= fields@);
                while fields.len() > 0
                    invariant
                        fields_tree(fields@).dom().contains(name@) == fields_tree(
                            all,
                        ).dom().contains(name@),
                        fields_tree(all).dom().contains(name@) ==> fields_tree(fields@)[name@]
                            == fields_tree(all)[name@],
                        self@ == JsonTree::Object(fields_tree(all)),
                    decreases fields@.len(),
                {
                    let ghost before = fields@;
                    let last: Option<(String, Json)> = fields.pop();
                    assert(before.drop_last() =~= fields@);
                    match last {
                        Some(entry) => {
                            if same_text(entry.0.as_str(), name) {
                                return entry.1;
                            }
                        },
                        None => {},
                    }
                }
                Json::Null
            },
            _ => Json::Null,
        }
    }
}

proof fn lemma_member_kept(members: Seq<(String, serde_json::Value)>, i: int)
    requires
        distinct_names(members),
        0 <= i < members.len(),
    ensures
        members_tree(members).dom().contains(members[i].0@),
        members_tree(members)[members[i].0@] == value_tree(members[i].1),
    decreases members.len(),
{
    if i < members.len() - 1 {
        assert(members[i].0@ != members[members.len() - 1].0@);
        assert forall|j: int, k: int|
            0 <= j < k < members.drop_last().len() implies (#[trigger] members.drop_last()[j]).0@
            != (#[trigger] members.drop_last()[k]).0@ by {
            assert(members[j].0@ != members[k].0@);
        }
        lemma_member_kept(members.drop_last(), i);
    }
}

proof fn lemma_members_finite(members: Seq<(String, serde_json::Value)>)
    ensures
        members_tree(members).dom().finite(),
    decreases members.len(),
{
    if members.len() > 0 {
        lemma_members_finite(members.drop_last());
    }
}

proof fn lemma_member_below(
    value: serde_json::Value,
    members: Seq<(String, serde_json::Value)>,
    i: int,
)
    requires
        value_tree(value) == JsonTree::Object(members_tree(members)),
        distinct_names(members),
        0 <= i < members.len(),
    ensures
        decreases_to!(value_tree(value) => value_tree(members[i].1)),
{
    lemma_member_kept(members, i);
    lemma_members_finite(members);
    let tree = value_tree(value);
    assert(decreases_to!(tree => tree->Object_0[members[i].0@]));
}

/// The view of what reading a JSON text gave.
pub open spec fn decoded(r: Result<Json, String>) -> Result<JsonTree, Seq<char>> {
    match r {
        Ok(json) => Ok(json@),
        Err(message) => Err(message@),
    }
}

/// The plain tree of a `serde_json::Value`.
pub fn from_value(value: &serde_json::Value) -> (r: Json)
    ensures
        r@ == value_tree(*value),
    decreases value_tree(*value),
{
    match peel(value) {
        Layer::Null => Json::Null,
        Layer::Bool(b) => Json::Bool(b),
        Layer::Number(n) => Json::Number(n),
        Layer::Str(s) => Json::Str(s),
        Layer::Array(items) => {
            let mut out: Vec<Json> = Vec::new();
            let mut i: usize = 0;
            while i < items.len()
                invariant
                    i <= items@.len(),
                    out@.len() == i,
                    value_tree(*value) == JsonTree::Array(
                        items@.map_values(|item: serde_json::Value| value_tree(item)),
                    ),
                    forall|j: int| 0 <= j < i ==> (#[trigger] out@[j])@ == value_tree(items@[j]),
                decreases items@.len() - i,
            {
                proof {
                    let tree = value_tree(*value);
                    assert(tree->Array_0[i as int] == value_tree(items@[i as int]));
                    assert(decreases_to!(tree => tree->Array_0[i as int]));
                }
                out.push(from_value(&items[i]));
                i = i + 1;
            }
            assert(items_tree(out@) =~= items@.map_values(
                |item: serde_json::Value| value_tree(item),
            ));
            Json::Array(out)
        },
        Layer::Object(members) => {
            let mut out: Vec<(String, Json)> = Vec::new();
            let mut i: usize = 0;
            assert(members@.take(0) =~= Seq::<(String, serde_json::Value)>::empty());
            while i < members.len()
                invariant
                    i <= members@.len(),
                    value_tree(*value) == JsonTree::Object(members_tree(members@)),
                    distinct_names(members@),
                    fields_tree(out@) == members_tree(members@.take(i as int)),
                decreases members@.len() - i,
            {
                let ghost before = out@;
                proof {
                    lemma_member_below(*value, members@, i as int);
                }
                let field: Json = from_value(&members[i].1);
                out.push((members[i].0.clone(), field));
                i = i + 1;
                proof {
                    assert(members@.take(i as int).drop_last() =~= members@.take(i - 1));
                    assert(out@.drop_last() =~= before);
                }
            }
            assert(members@.take(members@.len() as int) =~= members@);
            Json::Object(out)
        },
    }
}

proof fn lemma_fields_from_front(first: (String, Json), rest: Seq<(String, Json)>)
    ensures
        fields_tree(seq![first] + rest) == (if fields_tree(rest).dom().contains(first.0@) {
            fields_tree(rest)
        } else {
            fields_tree(rest).insert(first.0@, first.1@)
        }),
    decreases rest.len(),
{
    let all = seq![first] + rest;
    if rest.len() == 0 {
        assert(all.drop_last() =~= Seq::<(String, Json)>::empty());
        assert(fields_tree(all.drop_last()) =~= Map::<Seq<char>, JsonTree>::empty());
        assert(fields_tree(all) =~= fields_tree(rest).insert(first.0@, first.1@));
    } else {
        lemma_fields_from_front(first, rest.drop_last());
        assert(all.drop_last() =~= seq![first] + rest.drop_last());
        assert(all.last() == rest.last());
        if fields_tree(rest).dom().contains(first.0@) {
            assert(fields_tree(all) =~= fields_tree(rest));
        } else {
            assert(fields_tree(all) =~= fields_tree(rest).insert(first.0@, first.1@));
        }
    }
}

proof fn lemma_member_names(members: Seq<(String, serde_json::Value)>, name: Seq<char>)
    ensures
        members_tree(members).dom().contains(name) <==> (exists|i: int|
            0 <= i < members.len() && (#[trigger] members[i]).0@ == name),
    decreases members.len(),
{
    if members.len() > 0 {
        lemma_member_names(members.drop_last(), name);
        if members_tree(members.drop_last()).dom().contains(name) {
            let i = choose|i: int|
                0 <= i < members.drop_last().len() && (#[trigger] members.drop_last()[i]).0@
                    == name;
            assert(members[i].0@ == name);
        }
        if exists|i: int| 0 <= i < members.len() && (#[trigger] members[i]).0@ == name {
            let i = choose|i: int| 0 <= i < members.len() && (#[trigger] members[i]).0@ == name;
            if i < members.len() - 1 {
                assert(members.drop_last()[i].0@ == name);
            }
        }
    }
}

fn has_member(members: &Vec<(String, serde_json::Value)>, name: &str) -> (r: bool)
    ensures
        r == members_tree(members@).dom().contains(name@),
{
    proof {
        lemma_member_names(members@, name@);
    }
    let mut i: usize = 0;
    while i < members.len()
        invariant
            i <= members@.len(),
            forall|j: int| 0 <= j < i ==> (#[trigger] members@[j]).0@ != name@,
            members_tree(members@).dom().contains(name@) <==> (exists|j: int|
                0 <= j < members@.len() && (#[trigger] members@[j]).0@ == name@),
        decreases members@.len() - i,
    {
        if same_text(members[i].0.as_str(), name) {
            return true;
        }
        i = i + 1;
    }
    false
}

/// The `serde_json::Value` of a plain tree.
fn to_value(json: &Json) -> (r: serde_json::Value)
    ensures
        value_tree(r) == json@,
    decreases json,
{
    match json {
        Json::Null => cover(Layer::Null),
        Json::Bool(b) => cover(Layer::Bool(*b)),
        Json::Number(n) => cover(Layer::Number(copy_number(n))),
        Json::Str(s) => cover(Layer::Str(s.clone())),
        Json::Array(items) => {
            let mut out: Vec<serde_json::Value> = Vec::new();
            let mut i: usize = 0;
            while i < items.len()
                invariant
                    i <= items@.len(),
                    out@.len() == i,
                    *json == Json::Array(*items),
                    forall|j: int| 0 <= j < i ==> value_tree(#[trigger] out@[j]) == items@[j]@,
                decreases items@.len() - i,
            {
                assert(decreases_to!(json => json->Array_0));
                assert(decreases_to!(items => items@));
                assert(decreases_to!(items@ => items@[i as int]));
                out.push(to_value(&items[i]));
                i = i + 1;
            }
            assert(out@.map_values(|item: serde_json::Value| value_tree(item)) =~= items_tree(
                items@,
            ));
            cover(Layer::Array(out))
        },
        Json::Object(fields) => {
            let mut out: Vec<(String, serde_json::Value)> = Vec::new();
            let mut i: usize = fields.len();
            assert(fields@.skip(fields@.len() as int) =~= Seq::<(String, Json)>::empty());
            while i > 0
                invariant
                    i <= fields@.len(),
                    *json == Json::Object(*fields),
                    distinct_names(out@),
                    members_tree(out@) == fields_tree(fields@.skip(i as int)),
                decreases i,
            {
                i = i - 1;
                proof {
                    let rest = fields@.skip(i + 1);
                    assert(fields@.skip(i as int) =~= seq![fields@[i as int]] + rest);
                    lemma_fields_from_front(fields@[i as int], rest);
                }
                if !has_member(&out, fields[i].0.as_str()) {
                    let ghost before = out@;
                    assert(decreases_to!(json => json->Object_0));
                    assert(decreases_to!(fields => fields@));
                    assert(decreases_to!(fields@ => fields@[i as int]));
                    assert(decreases_to!(fields@[i as int] => fields@[i as int].1));
                    let value: serde_json::Value = to_value(&fields[i].1);
                    proof {
                        lemma_member_names(out@, fields@[i as int].0@);
                    }
                    out.push((fields[i].0.clone(), value));
                    assert(out@.drop_last() =~= before);
                }
            }
            assert(fields@.skip(0) =~= fields@);
            cover(Layer::Object(out))
        },
    }
}

/// Reads a JSON text.
pub fn decode(text: &[u8]) -> (r: Result<Json, String>)
    ensures
        decoded(r) == json_parsed(text@),
{
    match read_value(text) {
        Ok(value) => Ok(from_value(&value)),
        Err(message) => Err(message),
    }
}

/// Writes a value as compact JSON text, which is one line. A value that is storable
/// can be read back from it.
pub fn encode(json: &Json) -> (r: String)
    ensures
        r@ == json_text(json@),
        !r@.contains('\n'),
        storable(json@) ==> spells(r@, json@),
{
    write_value(&to_value(json))
}

/// A field that was set is read back, and setting it leaves every other field as it was.
/// An object without fields has none, and neither has a value that is no object.
pub proof fn fields_are_read_back(
    tree: JsonTree,
    name: Seq<char>,
    value: JsonTree,
    other: Seq<char>,
)
    ensures
        tree is Object ==> tree.with(name, value).field(name) == Some(value),
        other != name ==> tree.with(name, value).field(other) == tree.field(other),
        tree.with(name, value) is Object <==> tree is Object,
        JsonTree::object().field(name) is None,
        !(tree is Object) ==> tree.field(name) is None,
{
}

/// What is read of a field is what the field holds: a text where it is a string, and the
/// field of a field by way of the one that holds it.
pub proof fn reading_is_exact(tree: JsonTree, name: Seq<char>, inner: Seq<char>, text: Seq<char>)
    ensures
        tree.field_text(name) == Some(text) <==> tree.field(name) == Some(JsonTree::Str(text)),
        tree.text() == Some(text) <==> tree == JsonTree::Str(text),
        tree.field(name) is None ==> tree.inner_field(name, inner) is None,
        tree.field(name) is Some ==> tree.inner_field(name, inner) == tree.field(name)->0.field(
            inner,
        ),
        tree matches JsonTree::Number(n) ==> tree.unsigned() == number_u64(n),
        !(tree is Number) ==> tree.unsigned() is None,
        JsonTree::optional(Some(text)) == JsonTree::Str(text),
        JsonTree::optional(None) == JsonTree::Null,
{
}

/// Where an object has several fields of one name, the last of them counts; it has a field
/// of a name where any of its fields has that name.
pub proof fn last_field_of_a_name_counts(fields: Vec<(String, Json)>, name: Seq<char>, at: int)
    ensures
        0 <= at < fields@.len() && fields@[at].0@ == name && (forall|i: int|
            at < i < fields@.len() ==> (#[trigger] fields@[i]).0@ != name) ==> Json::Object(
            fields,
        )@.field(name) == Some(fields@[at].1@),
        (forall|i: int| 0 <= i < fields@.len() ==> (#[trigger] fields@[i]).0@ != name)
            ==> Json::Object(fields)@.field(name) is None,
{
    lemma_last_field(fields@, name, at);
}

proof fn lemma_last_field(fields: Seq<(String, Json)>, name: Seq<char>, at: int)
    ensures
        0 <= at < fields.len() && fields[at].0@ == name && (forall|i: int|
            at < i < fields.len() ==> (#[trigger] fields[i]).0@ != name) ==> fields_tree(
            fields,
        ).dom().contains(name) && fields_tree(fields)[name] == fields[at].1@,
        (forall|i: int| 0 <= i < fields.len() ==> (#[trigger] fields[i]).0@ != name)
            ==> !fields_tree(fields).dom().contains(name),
    decreases fields.len(),
{
    if fields.len() > 0 {
        let last = fields.len() - 1;
        let front = fields.drop_last();
        lemma_last_field(front, name, at);
        assert(fields[last] == fields.last());
        assert forall|i: int| 0 <= i < last implies #[trigger] front[i] == fields[i] by {}
    }
}

/// A JSON value says what it holds: the items of an array one by one, and of everything
/// else just that.
pub proof fn values_say_what_they_hold(b: bool, n: serde_json::Number, s: String, items: Vec<Json>)
    ensures
        Json::Null@ == JsonTree::Null,
        Json::Bool(b)@ == JsonTree::Bool(b),
        Json::Number(n)@ == JsonTree::Number(n),
        Json::Str(s)@ == JsonTree::Str(s@),
        Json::Array(items)@ matches JsonTree::Array(trees) && trees.len() == items@.len()
            && forall|i: int| 0 <= i < trees.len() ==> #[trigger] trees[i] == items@[i]@,
{
}

/// What reading a text gave is seen as it is.
pub proof fn reads_are_seen_as_they_are(read: Result<Json, String>, value: Option<Json>)
    ensures
        match read {
            Ok(json) => decoded(read) == Ok::<JsonTree, Seq<char>>(json@),
            Err(message) => decoded(read) == Err::<JsonTree, Seq<char>>(message@),
        },
        match value {
            Some(json) => opt_tree(value) == Some(json@),
            None => opt_tree(value) is None,
        },
{
}

} // verus!
