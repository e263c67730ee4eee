//! Text the protocols are made of: comparison, trimming, splitting, decimal
//! numbers and the Unicode notion of white space.
use vstd::prelude::*;
use vstd::string::StrSliceExecFns;
use vstd::string::StringExecFns;
use vstd::utf8::encode_utf8;

verus! {

/// The code points of the Unicode property `White_Space`.
pub open spec fn white_space(c: char) -> bool {
    ||| 0x9 <= c as u32 <= 0xd
    ||| c as u32 == 0x20
    ||| c as u32 == 0x85
    ||| c as u32 == 0xa0
    ||| c as u32 == 0x1680
    ||| 0x2000 <= c as u32 <= 0x200a
    ||| c as u32 == 0x2028
    ||| c as u32 == 0x2029
    ||| c as u32 == 0x202f
    ||| c as u32 == 0x205f
    ||| c as u32 == 0x3000
}

/// Tells whether `c` has the Unicode property `White_Space`.
pub fn is_white_space(c: char) -> (r: bool)
    ensures
        r == white_space(c),
{
    let code: u32 = c as u32;
    (0x9 <= code && code <= 0xd) || code == 0x20 || code == 0x85 || code == 0xa0 || code == 0x1680
        || (0x2000 <= code && code <= 0x200a) || code == 0x2028 || code == 0x2029 || code == 0x202f
        || code == 0x205f || code == 0x3000
}

/// `s` without the white space at its start.
pub open spec fn trimmed_start(s: Seq<char>) -> Seq<char>
    decreases s.len(),
{
    if s.len() > 0 && white_space(s[0]) {
        trimmed_start(s.drop_first())
    } else {
        s
    }
}

/// `s` without the white space at its end.
pub open spec fn trimmed_end(s: Seq<char>) -> Seq<char>
    decreases s.len(),
{
    if s.len() > 0 && white_space(s.last()) {
        trimmed_end(s.drop_last())
    } else {
        s
    }
}

/// `s` without the white space at either end.
pub open spec fn trimmed(s: Seq<char>) -> Seq<char> {
    trimmed_end(trimmed_start(s))
}

/// The index of the first `x` in `s` at or after `from`, or the length of `s`.
pub open spec fn index_from<T>(s: Seq<T>, x: T, from: int) -> int
    decreases s.len() - from,
{
    if from >= s.len() || from < 0 {
        s.len() as int
    } else if s[from] == x {
        from
    } else {
        index_from(s, x, from + 1)
    }
}

/// What stands before the first `separator` of `s`, and what after it.
pub open spec fn split_pair(s: Seq<char>, separator: char) -> Option<(Seq<char>, Seq<char>)> {
    let at = index_from(s, separator, 0);
    if at < s.len() {
        Some((s.take(at), s.skip(at + 1)))
    } else {
        None
    }
}

/// The length of the word that `s` starts with.
pub open spec fn word_len(s: Seq<char>) -> nat
    decreases s.len(),
{
    if s.len() == 0 || white_space(s[0]) {
        0
    } else {
        1 + word_len(s.drop_first())
    }
}

/// The second of the words of `s`, where white space parts words.
pub open spec fn second_word(s: Seq<char>) -> Option<Seq<char>> {
    let first = trimmed_start(s);
    let rest = trimmed_start(first.skip(word_len(first) as int));
    if rest.len() == 0 {
        None
    } else {
        Some(rest.take(word_len(rest) as int))
    }
}

/// The first line of `s` without its line ending; no line where `s` is empty.
pub open spec fn first_line(s: Seq<char>) -> Option<Seq<char>> {
    let end = index_from(s, '\n', 0);
    if s.len() == 0 {
        None
    } else if 0 < end < s.len() && s[end - 1] == '\r' {
        Some(s.take(end - 1))
    } else {
        Some(s.take(end))
    }
}

pub open spec fn digit(c: char) -> bool {
    '0' <= c <= '9'
}

/// The number that a row of decimal digits denotes.
pub open spec fn digits_value(s: Seq<char>) -> nat
    decreases s.len(),
{
    if s.len() == 0 {
        0
    } else {
        digits_value(s.drop_last()) * 10 + (s.last() as u32 - '0' as u32) as nat
    }
}

pub open spec fn all_digits(s: Seq<char>) -> bool {
    forall|i: int| 0 <= i < s.len() ==> digit(#[trigger] s[i])
}

/// A 16-bit number in decimal: digits, with an optional `+` before them.
pub open spec fn parsed_u16(s: Seq<char>) -> Option<u16> {
    let digits = if s.len() > 0 && s[0] == '+' {
        s.skip(1)
    } else {
        s
    };
    if digits.len() > 0 && all_digits(digits) && digits_value(digits) <= u16::MAX {
        Some(digits_value(digits) as u16)
    } else {
        None
    }
}

/// `n` in decimal, without leading zeros.
pub open spec fn decimal(n: nat) -> Seq<char>
    decreases n,
{
    if n < 10 {
        seq![(48 + n) as char]
    } else {
        decimal(n / 10).push((48 + n % 10) as char)
    }
}

/// `parts` one after the other, with `separator` between neighbours.
pub open spec fn joined(parts: Seq<Seq<char>>, separator: Seq<char>) -> Seq<char>
    decreases parts.len(),
{
    if parts.len() == 0 {
        Seq::empty()
    } else if parts.len() == 1 {
        parts[0]
    } else {
        joined(parts.drop_last(), separator) + separator + parts.last()
    }
}

/// The texts of a vector of strings.
pub open spec fn texts(strings: Seq<String>) -> Seq<Seq<char>> {
    strings.map_values(|s: String| s@)
}

/// The text of an optional string.
pub open spec fn opt_text(s: Option<String>) -> Option<Seq<char>> {
    match s {
        Some(s) => Some(s@),
        None => None,
    }
}

/// The text of an optional string slice.
pub open spec fn opt_str(s: Option<&str>) -> Option<Seq<char>> {
    match s {
        Some(s) => Some(s@),
        None => None,
    }
}

/// The text of an optional string.
pub fn borrowed(text: &Option<String>) -> (r: Option<&str>)
    ensures
        opt_str(r) == opt_text(*text),
{
    match text {
        Some(text) => Some(text.as_str()),
        None => None,
    }
}

/// Tells whether two texts are equal.
pub fn same_text(a: &str, b: &str) -> (r: bool)
    ensures
        r == (a@ == b@),
{
    let x: &[u8] = a.as_bytes();
    let y: &[u8] = b.as_bytes();
    proof {
        vstd::utf8::encode_utf8_decode_utf8(a@);
        vstd::utf8::encode_utf8_decode_utf8(b@);
    }
    same_bytes(x, y)
}

/// Tells whether two byte strings are equal.
pub fn same_bytes(a: &[u8], b: &[u8]) -> (r: bool)
    ensures
        r == (a@ == b@),
{
    if a.len() != b.len() {
        return false;
    }
    let mut i: usize = 0;
    while i < a.len()
        invariant
            i <= a.len(),
            a.len() == b.len(),
            forall|j: int| 0 <= j < i ==> a@[j] == b@[j],
        decreases a.len() - i,
    {
        if a[i] != b[i] {
            return false;
        }
        i = i + 1;
    }
    assert(a@ =~= b@);
    true
}

/// The characters of a text.
pub fn chars_of(s: &str) -> (r: Vec<char>)
    ensures
        r@ == s@,
{
    let mut r: Vec<char> = Vec::new();
    for c in it: s.chars()
        invariant
            it.seq() == s@,
            r@ == s@.take(it.index()),
    {
        r.push(c);
    }
    r
}

pub fn cat2(a: &str, b: &str) -> (r: String)
    ensures
        r@ == a@ + b@,
{
    let mut r: String = a.to_owned();
    r.append(b);
    r
}

pub fn cat3(a: &str, b: &str, c: &str) -> (r: String)
    ensures
        r@ == a@ + b@ + c@,
{
    let mut r: String = cat2(a, b);
    r.append(c);
    r
}

pub fn cat4(a: &str, b: &str, c: &str, d: &str) -> (r: String)
    ensures
        r@ == a@ + b@ + c@ + d@,
{
    let mut r: String = cat3(a, b, c);
    r.append(d);
    r
}

pub fn cat5(a: &str, b: &str, c: &str, d: &str, e: &str) -> (r: String)
    ensures
        r@ == a@ + b@ + c@ + d@ + e@,
{
    let mut r: String = cat4(a, b, c, d);
    r.append(e);
    r
}

proof fn lemma_trimmed_start_at(s: Seq<char>, from: int)
    requires
        0 <= from <= s.len(),
        forall|i: int| 0 <= i < from ==> white_space(#[trigger] s[i]),
        from < s.len() ==> !white_space(s[from]),
    ensures
        trimmed_start(s) == s.skip(from),
    decreases s.len(),
{
    if from > 0 {
        assert(white_space(s[0]));
        assert forall|i: int| 0 <= i < from - 1 implies white_space(#[trigger] s.drop_first()[i]) by {
            assert(white_space(s[i + 1]));
        }
        lemma_trimmed_start_at(s.drop_first(), from - 1);
        assert(s.drop_first().skip(from - 1) =~= s.skip(from));
    } else {
        assert(s.skip(0) =~= s);
    }
}

proof fn lemma_trimmed_end_at(s: Seq<char>, to: int)
    requires
        0 <= to <= s.len(),
        forall|i: int| to <= i < s.len() ==> white_space(#[trigger] s[i]),
        to > 0 ==> !white_space(s[to - 1]),
    ensures
        trimmed_end(s) == s.take(to),
    decreases s.len(),
{
    if to < s.len() {
        assert(white_space(s[s.len() - 1]));
        assert forall|i: int| to <= i < s.len() - 1 implies white_space(#[trigger] s.drop_last()[i]) by {
            assert(white_space(s[i]));
        }
        lemma_trimmed_end_at(s.drop_last(), to);
        assert(s.drop_last().take(to) =~= s.take(to));
    } else {
        assert(s.take(to) =~= s);
    }
}

proof fn lemma_word_len_at(s: Seq<char>, to: int)
    requires
        0 <= to <= s.len(),
        forall|i: int| 0 <= i < to ==> !white_space(#[trigger] s[i]),
        to < s.len() ==> white_space(s[to]),
    ensures
        word_len(s) == to,
    decreases s.len(),
{
    if to > 0 {
        assert(!white_space(s[0]));
        assert forall|i: int| 0 <= i < to - 1 implies !white_space(#[trigger] s.drop_first()[i]) by {
            assert(!white_space(s[i + 1]));
        }
        lemma_word_len_at(s.drop_first(), to - 1);
    }
}

proof fn lemma_index_from_at<T>(s: Seq<T>, x: T, from: int, at: int)
    requires
        0 <= from <= at <= s.len(),
        forall|i: int| from <= i < at ==> #[trigger] s[i] != x,
        at < s.len() ==> s[at] == x,
    ensures
        index_from(s, x, from) == at,
    decreases s.len() - from,
{
    if from < at {
        lemma_index_from_at(s, x, from + 1, at);
    }
}

/// The index of the first character at or after `from` that is not white space.
fn skip_white(chars: &Vec<char>, from: usize) -> (r: usize)
    requires
        from <= chars@.len(),
    ensures
        from <= r <= chars@.len(),
        chars@.skip(r as int) == trimmed_start(chars@.skip(from as int)),
        r < chars@.len() ==> !white_space(chars@[r as int]),
{
    let mut i: usize = from;
    while i < chars.len() && is_white_space(chars[i])
        invariant
            from <= i <= chars@.len(),
            forall|j: int| from <= j < i ==> white_space(#[trigger] chars@[j]),
        decreases chars@.len() - i,
    {
        i = i + 1;
    }
    proof {
        let s = chars@.skip(from as int);
        assert forall|j: int| 0 <= j < i - from implies white_space(#[trigger] s[j]) by {
            assert(white_space(chars@[from + j]));
        }
        lemma_trimmed_start_at(s, i - from);
        assert(s.skip(i - from) =~= chars@.skip(i as int));
    }
    i
}

/// The index of the end of the word that starts at `from`.
fn skip_word(chars: &Vec<char>, from: usize) -> (r: usize)
    requires
        from <= chars@.len(),
    ensures
        from <= r <= chars@.len(),
        r - from == word_len(chars@.skip(from as int)),
{
    let mut i: usize = from;
    while i < chars.len() && !is_white_space(chars[i])
        invariant
            from <= i <= chars@.len(),
            forall|j: int| from <= j < i ==> !white_space(#[trigger] chars@[j]),
        decreases chars@.len() - i,
    {
        i = i + 1;
    }
    proof {
        let s = chars@.skip(from as int);
        assert forall|j: int| 0 <= j < i - from implies !white_space(#[trigger] s[j]) by {
            assert(!white_space(chars@[from + j]));
        }
        lemma_word_len_at(s, i - from);
    }
    i
}

/// `s` without the white space at either end.
pub fn trim(s: &str) -> (r: String)
    ensures
        r@ == trimmed(s@),
{
    let chars: Vec<char> = chars_of(s);
    let from: usize = skip_white(&chars, 0);
    let mut to: usize = chars.len();
    while to > from && is_white_space(chars[to - 1])
        invariant
            from <= to <= chars@.len(),
            forall|j: int| to <= j < chars@.len() ==> white_space(#[trigger] chars@[j]),
        decreases to,
    {
        to = to - 1;
    }
    proof {
        assert(chars@.skip(0) =~= s@);
        let rest = s@.skip(from as int);
        assert forall|j: int| to - from <= j < rest.len() implies white_space(#[trigger] rest[j]) by {
            assert(white_space(chars@[from + j]));
        }
        lemma_trimmed_end_at(rest, to - from);
        assert(rest.take(to - from) =~= s@.subrange(from as int, to as int));
    }
    s.substring_char(from, to).to_owned()
}

/// The index of the first `x` at or after `from`, or the number of characters.
fn find_char(chars: &Vec<char>, x: char, from: usize) -> (r: usize)
    requires
        from <= chars@.len(),
    ensures
        r == index_from(chars@, x, from as int),
        from <= r <= chars@.len(),
{
    let mut i: usize = from;
    while i < chars.len() && chars[i] != x
        invariant
            from <= i <= chars@.len(),
            forall|j: int| from <= j < i ==> #[trigger] chars@[j] != x,
        decreases chars@.len() - i,
    {
        i = i + 1;
    }
    proof {
        lemma_index_from_at(chars@, x, from as int, i as int);
    }
    i
}

/// What stands before the first `separator`, and what after it.
pub fn split_once(s: &str, separator: char) -> (r: Option<(String, String)>)
    ensures
        match r {
            Some(pair) => split_pair(s@, separator) == Some((pair.0@, pair.1@)),
            None => split_pair(s@, separator) is None,
        },
{
    let chars: Vec<char> = chars_of(s);
    let at: usize = find_char(&chars, separator, 0);
    if at == chars.len() {
        return None;
    }
    proof {
        assert(s@.take(at as int) =~= s@.subrange(0, at as int));
        assert(s@.skip(at + 1) =~= s@.subrange(at + 1, s@.len() as int));
    }
    Some((s.substring_char(0, at).to_owned(), s.substring_char(at + 1, chars.len()).to_owned()))
}

/// The second word of a text.
pub fn find_second_word(s: &str) -> (r: Option<String>)
    ensures
        opt_text(r) == second_word(s@),
{
    let chars: Vec<char> = chars_of(s);
    let first: usize = skip_white(&chars, 0);
    let first_end: usize = skip_word(&chars, first);
    let second: usize = skip_white(&chars, first_end);
    let second_end: usize = skip_word(&chars, second);
    proof {
        assert(chars@.skip(0) =~= s@);
        assert(s@.skip(first as int).skip(first_end - first) =~= s@.skip(first_end as int));
        assert(s@.skip(second as int).take(second_end - second) =~= s@.subrange(
            second as int,
            second_end as int,
        ));
    }
    if second == chars.len() {
        None
    } else {
        Some(s.substring_char(second, second_end).to_owned())
    }
}

/// The first line of a text.
pub fn find_first_line(s: &str) -> (r: Option<String>)
    ensures
        opt_text(r) == first_line(s@),
{
    let chars: Vec<char> = chars_of(s);
    if chars.len() == 0 {
        return None;
    }
    let end: usize = find_char(&chars, '\n', 0);
    let stop: usize = if 0 < end && end < chars.len() && chars[end - 1] == '\r' {
        end - 1
    } else {
        end
    };
    assert(s@.take(stop as int) =~= s@.subrange(0, stop as int));
    Some(s.substring_char(0, stop).to_owned())
}

proof fn lemma_digits_value_grows(s: Seq<char>, upto: int)
    requires
        0 <= upto <= s.len(),
    ensures
        digits_value(s.take(upto)) <= digits_value(s),
    decreases s.len(),
{
    if upto < s.len() {
        lemma_digits_value_grows(s.drop_last(), upto);
        assert(s.drop_last().take(upto) =~= s.take(upto));
    } else {
        assert(s.take(upto) =~= s);
    }
}

/// Reads a 16-bit number in decimal.
pub fn parse_u16(s: &str) -> (r: Option<u16>)
    ensures
        r == parsed_u16(s@),
{
    let chars: Vec<char> = chars_of(s);
    let start: usize = if chars.len() > 0 && chars[0] == '+' {
        1
    } else {
        0
    };
    let ghost digits = s@.skip(start as int);
    assert(start == 0 ==> digits =~= s@);
    if start == chars.len() {
        return None;
    }
    let mut value: u32 = 0;
    let mut i: usize = start;
    assert(digits.take(0) =~= Seq::<char>::empty());
    while i < chars.len()
        invariant
            start <= i <= chars@.len(),
            chars@ == s@,
            digits == s@.skip(start as int),
            digits.len() > 0,
            start == (if s@.len() > 0 && s@[0] == '+' { 1int } else { 0int }),
            start == 0 ==> digits == s@,
            forall|j: int| 0 <= j < i - start ==> digit(#[trigger] digits[j]),
            value == digits_value(digits.take(i - start)),
            value <= u16::MAX,
        decreases chars@.len() - i,
    {
        let c: char = chars[i];
        assert(digits[i - start] == c);
        if !('0' <= c && c <= '9') {
            assert(!all_digits(digits));
            return None;
        }
        value = value * 10 + (c as u32 - '0' as u32);
        i = i + 1;
        proof {
            assert(digits.take(i - start).drop_last() =~= digits.take(i - start - 1));
            lemma_digits_value_grows(digits, i - start);
        }
        if value > 65535 {
            return None;
        }
    }
    assert(digits.take(digits.len() as int) =~= digits);
    Some(value as u16)
}

fn digit_text(d: u8) -> (r: &'static str)
    requires
        d < 10,
    ensures
        r@ == seq![(48 + d) as char],
{
    proof {
        reveal_strlit("0");
        reveal_strlit("1");
        reveal_strlit("2");
        reveal_strlit("3");
        reveal_strlit("4");
        reveal_strlit("5");
        reveal_strlit("6");
        reveal_strlit("7");
        reveal_strlit("8");
        reveal_strlit("9");
    }
    let r: &'static str = match d {
        0 => "0",
        1 => "1",
        2 => "2",
        3 => "3",
        4 => "4",
        5 => "5",
        6 => "6",
        7 => "7",
        8 => "8",
        _ => "9",
    };
    assert(r@ =~= seq![(48 + d) as char]);
    r
}

/// `n` in decimal.
pub fn decimal_text(n: u64) -> (r: String)
    ensures
        r@ == decimal(n as nat),
    decreases n,
{
    let last: &'static str = digit_text((n % 10) as u8);
    if n < 10 {
        last.to_owned()
    } else {
        let mut r: String = decimal_text(n / 10);
        r.append(last);
        assert(r@ =~= decimal(n as nat));
        r
    }
}

/// Different numbers have different decimal texts.
pub proof fn decimal_injective(a: nat, b: nat)
    requires
        decimal(a) == decimal(b),
    ensures
        a == b,
    decreases a,
{
    lemma_decimal_len(a);
    lemma_decimal_len(b);
    if a < 10 && b < 10 {
        assert(decimal(a)[0] as int == 48 + a && decimal(b)[0] as int == 48 + b);
    } else if a >= 10 && b >= 10 {
        assert(decimal(a).last() as int == 48 + a % 10 && decimal(b).last() as int == 48 + b % 10);
        assert(decimal(a).drop_last() =~= decimal(a / 10));
        assert(decimal(b).drop_last() =~= decimal(b / 10));
        decimal_injective(a / 10, b / 10);
    } else {
        assert(decimal(a).len() != decimal(b).len());
    }
}

proof fn lemma_decimal_len(n: nat)
    ensures
        decimal(n).len() >= 1,
        n >= 10 ==> decimal(n).len() >= 2,
    decreases n,
{
    if n >= 10 {
        lemma_decimal_len(n / 10);
    }
}

/// `parts` one after the other, with `separator` between neighbours.
pub fn join(parts: &Vec<String>, separator: &str) -> (r: String)
    ensures
        r@ == joined(texts(parts@), separator@),
{
    let mut r: String = String::new();
    let ghost all = texts(parts@);
    let mut i: usize = 0;
    while i < parts.len()
        invariant
            i <= parts@.len(),
            all == texts(parts@),
            r@ == joined(all.take(i as int), separator@),
        decreases parts@.len() - i,
    {
        if i > 0 {
            r.append(separator);
        }
        r.append(parts[i].as_str());
        proof {
            let upto = all.take(i + 1);
            assert(upto.drop_last() =~= all.take(i as int));
            assert(upto.last() == parts@[i as int]@);
            if i == 0 {
                assert(joined(all.take(0), separator@) =~= Seq::<char>::empty());
                assert(r@ =~= joined(upto, separator@));
            }
        }
        i = i + 1;
    }
    assert(all.take(all.len() as int) =~= all);
    r
}

/// The UTF-8 of two texts in a row is the UTF-8 of the one and then of the other.
pub proof fn encode_utf8_adds(a: Seq<char>, b: Seq<char>)
    ensures
        encode_utf8(a + b) == encode_utf8(a) + encode_utf8(b),
    decreases a.len(),
{
    if a.len() == 0 {
        assert(a + b =~= b);
        assert(encode_utf8(a) + encode_utf8(b) =~= encode_utf8(b));
    } else {
        encode_utf8_adds(a.drop_first(), b);
        assert((a + b).drop_first() =~= a.drop_first() + b);
        assert(encode_utf8(a + b) =~= encode_utf8(a) + encode_utf8(b));
    }
}

/// How a text is shown for debugging: in quotes, with escapes.
pub uninterp spec fn str_debug(text: Seq<char>) -> Seq<char>;

/// The `Debug` of `str`.
#[verifier::external_body]
pub(crate) fn debug_text(text: &str) -> (r: String)
    ensures
        r@ == str_debug(text@),
{
    format!("{:?}", text)
}

/// A text is split at the first separator: what stands before it has none, and what stands
/// after it may have more.
pub proof fn split_at_first(before: Seq<char>, separator: char, after: Seq<char>)
    requires
        !before.contains(separator),
    ensures
        split_pair(before + seq![separator] + after, separator) == Some((before, after)),
{
    let s = before + seq![separator] + after;
    assert forall|i: int| 0 <= i < before.len() implies #[trigger] s[i] != separator by {
        assert(s[i] == before[i]);
    }
    lemma_index_from_at(s, separator, 0, before.len() as int);
    assert(s.take(before.len() as int) =~= before);
    assert(s.skip(before.len() as int + 1) =~= after);
}

/// A text without the separator is not split.
pub proof fn no_split_without_separator(s: Seq<char>, separator: char)
    requires
        !s.contains(separator),
    ensures
        split_pair(s, separator) is None,
{
    assert forall|i: int| 0 <= i < s.len() implies #[trigger] s[i] != separator by {}
    lemma_index_from_at(s, separator, 0, s.len() as int);
}

/// Trimming takes away as much white space as there is at either end, and nothing else.
pub proof fn trimming_takes_white_space_off_the_ends(
    before: Seq<char>,
    kept: Seq<char>,
    after: Seq<char>,
)
    requires
        forall|i: int| 0 <= i < before.len() ==> white_space(#[trigger] before[i]),
        forall|i: int| 0 <= i < after.len() ==> white_space(#[trigger] after[i]),
        kept.len() > 0 ==> !white_space(kept[0]) && !white_space(kept.last()),
    ensures
        trimmed(before + kept + after) == kept,
{
    let s = before + kept + after;
    if kept.len() > 0 {
        let n = before.len() as int;
        assert forall|i: int| 0 <= i < n implies white_space(#[trigger] s[i]) by {
            assert(s[i] == before[i]);
        }
        assert(s[n] == kept[0]);
        lemma_trimmed_start_at(s, n);
        let rest = s.skip(n);
        assert(rest =~= kept + after);
        let m = kept.len() as int;
        assert forall|i: int| m <= i < rest.len() implies white_space(#[trigger] rest[i]) by {
            assert(rest[i] == after[i - m]);
        }
        assert(rest[m - 1] == kept.last());
        lemma_trimmed_end_at(rest, m);
        assert(rest.take(m) =~= kept);
    } else {
        assert forall|i: int| 0 <= i < s.len() implies white_space(#[trigger] s[i]) by {
            if i < before.len() {
                assert(s[i] == before[i]);
            } else {
                assert(s[i] == after[i - before.len()]);
            }
        }
        lemma_trimmed_start_at(s, s.len() as int);
        assert(s.skip(s.len() as int) =~= Seq::<char>::empty());
        assert(kept =~= Seq::<char>::empty());
    }
}

/// Every character of white space, by its code point.
pub proof fn white_space_is_the_unicode_property(c: char)
    ensures
        white_space(c) <==> seq![
            0x9u32,
            0xa,
            0xb,
            0xc,
            0xd,
            0x20,
            0x85,
            0xa0,
            0x1680,
            0x2000,
            0x2001,
            0x2002,
            0x2003,
            0x2004,
            0x2005,
            0x2006,
            0x2007,
            0x2008,
            0x2009,
            0x200a,
            0x2028,
            0x2029,
            0x202f,
            0x205f,
            0x3000,
        ].contains(c as u32),
{
    let all = seq![
        0x9u32,
        0xa,
        0xb,
        0xc,
        0xd,
        0x20,
        0x85,
        0xa0,
        0x1680,
        0x2000,
        0x2001,
        0x2002,
        0x2003,
        0x2004,
        0x2005,
        0x2006,
        0x2007,
        0x2008,
        0x2009,
        0x200a,
        0x2028,
        0x2029,
        0x202f,
        0x205f,
        0x3000,
    ];
    let n = c as u32;
    if white_space(c) {
        let i: int = if n <= 0xd {
            n - 0x9
        } else if n == 0x20 {
            5
        } else if n == 0x85 {
            6
        } else if n == 0xa0 {
            7
        } else if n == 0x1680 {
            8
        } else if n <= 0x200a {
            9 + n - 0x2000
        } else if n == 0x2028 {
            20
        } else if n == 0x2029 {
            21
        } else if n == 0x202f {
            22
        } else if n == 0x205f {
            23
        } else {
            24
        };
        assert(all[i] == n);
    }
    if all.contains(n) {
        let i = choose|i: int| 0 <= i < all.len() && all[i] == n;
        assert(all[i] == n);
    }
}

/// Parts are joined by the separator: nothing of none, a single part alone, and more parts
/// as the first, the separator, and the rest joined.
pub proof fn joined_from_the_front(parts: Seq<Seq<char>>, separator: Seq<char>)
    ensures
        parts.len() == 0 ==> joined(parts, separator).len() == 0,
        parts.len() == 1 ==> joined(parts, separator) == parts[0],
        parts.len() > 1 ==> joined(parts, separator) == parts[0] + separator + joined(
            parts.drop_first(),
            separator,
        ),
    decreases parts.len(),
{
    if parts.len() == 2 {
        assert(parts.drop_last()[0] == parts[0]);
        assert(parts.drop_first()[0] == parts[1]);
    } else if parts.len() > 2 {
        joined_from_the_front(parts.drop_last(), separator);
        assert(parts.drop_last().drop_first() =~= parts.drop_first().drop_last());
        assert(parts.drop_first().last() == parts.last());
        assert(joined(parts, separator) =~= parts[0] + separator + joined(
            parts.drop_first(),
            separator,
        ));
    }
}

proof fn lemma_decimal_is_digits(n: nat)
    ensures
        decimal(n).len() > 0,
        all_digits(decimal(n)),
        digits_value(decimal(n)) == n,
    decreases n,
{
    let text = decimal(n);
    if n < 10 {
        assert(text.drop_last() =~= Seq::<char>::empty());
        assert(digits_value(text.drop_last()) == 0);
        assert(text.last() as u32 == 48 + n);
    } else {
        lemma_decimal_is_digits(n / 10);
        assert(text.drop_last() =~= decimal(n / 10));
        assert(text.last() as u32 == 48 + n % 10);
        assert(digits_value(text.drop_last()) == n / 10);
        assert forall|i: int| 0 <= i < text.len() implies digit(#[trigger] text[i]) by {
            if i < text.len() - 1 {
                assert(text[i] == decimal(n / 10)[i]);
            }
        }
    }
}

/// A number of 16 bits is read back from its decimal text, with or without a plus sign
/// before it; one that is larger is not read at all.
pub proof fn decimal_is_read_back(n: nat)
    ensures
        n <= u16::MAX ==> parsed_u16(decimal(n)) == Some(n as u16),
        n <= u16::MAX ==> parsed_u16(seq!['+'] + decimal(n)) == Some(n as u16),
        n > u16::MAX ==> parsed_u16(decimal(n)) is None,
{
    lemma_decimal_is_digits(n);
    assert(digit(decimal(n)[0]));
    assert((seq!['+'] + decimal(n)).skip(1) =~= decimal(n));
}

/// What holds anything but digits, but for one plus sign at its start, is no number, and
/// neither is what holds no digit.
pub proof fn only_digits_are_a_number(s: Seq<char>, i: int)
    ensures
        s.len() == 0 ==> parsed_u16(s) is None,
        0 <= i < s.len() && !('0' <= s[i] <= '9') && !(i == 0 && s[0] == '+') ==> parsed_u16(s)
            is None,
        s.len() == 1 && s[0] == '+' ==> parsed_u16(s) is None,
{
    if 0 <= i < s.len() && !('0' <= s[i] <= '9') && !(i == 0 && s[0] == '+') {
        if s[0] == '+' {
            assert(s.skip(1)[i - 1] == s[i]);
            assert(!digit(s.skip(1)[i - 1]));
        } else {
            assert(!digit(s[i]));
        }
    }
}

/// The second word of a text stands between white space, after the first word.
pub proof fn second_word_stands_alone(
    lead: Seq<char>,
    first: Seq<char>,
    gap: Seq<char>,
    second: Seq<char>,
    rest: Seq<char>,
)
    requires
        forall|i: int| 0 <= i < lead.len() ==> white_space(#[trigger] lead[i]),
        first.len() > 0,
        forall|i: int| 0 <= i < first.len() ==> !white_space(#[trigger] first[i]),
        gap.len() > 0,
        forall|i: int| 0 <= i < gap.len() ==> white_space(#[trigger] gap[i]),
        forall|i: int| 0 <= i < second.len() ==> !white_space(#[trigger] second[i]),
        rest.len() > 0 ==> white_space(rest[0]),
        second.len() == 0 ==> rest.len() == 0,
    ensures
        second_word(lead + first + gap + second + rest) == if second.len() > 0 {
            Some(second)
        } else {
            None
        },
{
    let s = lead + first + gap + second + rest;
    let a = first + gap + second + rest;
    assert forall|i: int| 0 <= i < lead.len() implies white_space(#[trigger] s[i]) by {
        assert(s[i] == lead[i]);
    }
    assert(s[lead.len() as int] == first[0]);
    lemma_trimmed_start_at(s, lead.len() as int);
    assert(s.skip(lead.len() as int) =~= a);
    assert forall|i: int| 0 <= i < first.len() implies !white_space(#[trigger] a[i]) by {
        assert(a[i] == first[i]);
    }
    assert(a[first.len() as int] == gap[0]);
    lemma_word_len_at(a, first.len() as int);
    let b = gap + second + rest;
    assert(a.skip(first.len() as int) =~= b);
    assert forall|i: int| 0 <= i < gap.len() implies white_space(#[trigger] b[i]) by {
        assert(b[i] == gap[i]);
    }
    if second.len() > 0 {
        assert(b[gap.len() as int] == second[0]);
    }
    lemma_trimmed_start_at(b, gap.len() as int);
    let c = second + rest;
    assert(b.skip(gap.len() as int) =~= c);
    assert forall|i: int| 0 <= i < second.len() implies !white_space(#[trigger] c[i]) by {
        assert(c[i] == second[i]);
    }
    if rest.len() > 0 {
        assert(c[second.len() as int] == rest[0]);
    }
    lemma_word_len_at(c, second.len() as int);
    assert(c.take(second.len() as int) =~= second);
}

/// The first line ends before the first line feed, and a carriage return right before that
/// is not part of it; a text without a line feed is one line.
pub proof fn first_line_ends_at_the_line_feed(line: Seq<char>, rest: Seq<char>)
    requires
        !line.contains('\n'),
    ensures
        line.len() == 0 || line.last() != '\r' ==> first_line(line + seq!['\n'] + rest) == Some(
            line,
        ),
        first_line(line + seq!['\r', '\n'] + rest) == Some(line),
        line.len() > 0 ==> first_line(line) == Some(line),
        first_line(Seq::empty()) is None,
{
    let a = line + seq!['\n'] + rest;
    let n = line.len() as int;
    assert forall|i: int| 0 <= i < n implies #[trigger] a[i] != '\n' by {
        assert(a[i] == line[i]);
    }
    lemma_index_from_at(a, '\n', 0, n);
    assert(a.take(n) =~= line);
    if n > 0 {
        assert(a[n - 1] == line.last());
    }
    let b = line + seq!['\r', '\n'] + rest;
    assert forall|i: int| 0 <= i < n + 1 implies #[trigger] b[i] != '\n' by {
        if i < n {
            assert(b[i] == line[i]);
        }
    }
    assert(b[n] == '\r' && b[n + 1] == '\n');
    lemma_index_from_at(b, '\n', 0, n + 1);
    assert(b.take(n) =~= line);
    assert forall|i: int| 0 <= i < n implies #[trigger] line[i] != '\n' by {}
    lemma_index_from_at(line, '\n', 0, n);
    assert(line.take(n) =~= line);
}

/// The decimal text of a number is digits alone, at least one.
pub proof fn decimal_has_no_white_space(n: nat)
    ensures
        decimal(n).len() > 0,
        forall|i: int| 0 <= i < decimal(n).len() ==> '0' <= #[trigger] decimal(n)[i] <= '9',
        forall|i: int| 0 <= i < decimal(n).len() ==> !white_space(#[trigger] decimal(n)[i]),
{
    lemma_decimal_is_digits(n);
    assert forall|i: int| 0 <= i < decimal(n).len() implies '0' <= #[trigger] decimal(n)[i]
        <= '9' by {
        assert(digit(decimal(n)[i]));
    }
}

/// One more digit makes a number ten times as large, and adds its own value; a number that
/// grows beyond 16 bits is none.
pub proof fn digits_count_in_tens(s: Seq<char>, n: u16, d: char)
    requires
        parsed_u16(s) == Some(n),
        '0' <= d <= '9',
    ensures
        ({
            let more = n as int * 10 + (d as int - 48);
            parsed_u16(s.push(d)) == if more <= 65535 {
                Some(more as u16)
            } else {
                None
            }
        }),
{
    let digits = if s.len() > 0 && s[0] == '+' {
        s.skip(1)
    } else {
        s
    };
    let more = digits.push(d);
    assert(s.push(d)[0] == s[0]);
    assert(s[0] == '+' ==> s.push(d).skip(1) =~= more);
    assert(more.drop_last() =~= digits);
    assert forall|i: int| 0 <= i < more.len() implies digit(#[trigger] more[i]) by {
        if i < digits.len() {
            assert(digit(digits[i]));
        }
    }
    assert(all_digits(more));
    assert(digits_value(more) == digits_value(digits) * 10 + (d as u32 - '0' as u32) as nat);
}

/// The decimal text of a number is its digits, the highest first, and none of them is a
/// leading zero: of a number of several digits it is that of its tenth, and then its last
/// digit.
pub proof fn decimal_has_no_leading_zero(n: nat)
    ensures
        n > 0 ==> decimal(n)[0] != '0',
        n < 10 ==> decimal(n).len() == 1 && decimal(n)[0] as int == 48 + n,
        n >= 10 ==> decimal(n) == decimal(n / 10).push(decimal(n % 10)[0]),
    decreases n,
{
    if n >= 10 {
        decimal_has_no_leading_zero(n / 10);
        lemma_decimal_len(n / 10);
        assert(decimal(n)[0] == decimal(n / 10)[0]);
        assert(decimal(n) =~= decimal(n / 10).push(decimal(n % 10)[0]));
    }
}

/// A string is compared by its text; an optional one by whether it is there, and its text.
pub proof fn strings_are_their_texts(s: String, t: &str, all: Vec<String>)
    ensures
        opt_text(Some(s)) == Some(s@),
        opt_text(None) is None,
        opt_str(Some(t)) == Some(t@),
        opt_str(None) is None,
        texts(all@).len() == all@.len(),
        forall|i: int| 0 <= i < all@.len() ==> #[trigger] texts(all@)[i] == all@[i]@,
{
}

} // verus!
