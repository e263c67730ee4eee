//! Identifiers: event ids, UUIDs, digests, and the hexadecimal text of each.
use sha2::Digest;
use vstd::arithmetic::power::pow;
use vstd::prelude::*;

verus! {

/// The lower-case hexadecimal digit of a number below 16.
pub open spec fn hex_digit(n: int) -> char {
    if n < 10 {
        (48 + n) as char
    } else {
        (87 + n) as char
    }
}

/// The number that a hexadecimal digit of either case stands for.
pub open spec fn hex_value(c: char) -> Option<int> {
    if '0' <= c <= '9' {
        Some(c as int - 48)
    } else if 'a' <= c <= 'f' {
        Some(c as int - 87)
    } else if 'A' <= c <= 'F' {
        Some(c as int - 55)
    } else {
        None
    }
}

/// Two lower-case hexadecimal digits for each byte, the high half first.
pub open spec fn hex_text(bytes: Seq<u8>) -> Seq<char> {
    Seq::new(
        2 * bytes.len(),
        |i: int|
            hex_digit(
                if i % 2 == 0 {
                    bytes[i / 2] as int / 16
                } else {
                    bytes[i / 2] as int % 16
                },
            ),
    )
}

/// The text is `2 * len` hexadecimal digits.
pub open spec fn hex_of_len(s: Seq<char>, len: nat) -> bool {
    &&& s.len() == 2 * len
    &&& forall|i: int| 0 <= i < s.len() ==> hex_value(#[trigger] s[i]) is Some
}

/// The bytes that hexadecimal digits spell.
pub open spec fn hex_bytes(s: Seq<char>) -> Seq<u8> {
    Seq::new(
        s.len() / 2,
        |i: int| (hex_value(s[2 * i])->0 * 16 + hex_value(s[2 * i + 1])->0) as u8,
    )
}

/// The digits of a 128-bit number in base 16, the highest first.
pub open spec fn nibble(x: u128, i: int) -> int {
    (x as int / pow(16, (31 - i) as nat)) % 16
}

/// A UUID as 32 hexadecimal digits.
pub open spec fn simple_uuid(x: u128) -> Seq<char> {
    Seq::new(32, |i: int| hex_digit(nibble(x, i)))
}

/// A UUID in groups of 8, 4, 4, 4 and 12 hexadecimal digits.
pub open spec fn hyphenated_uuid(x: u128) -> Seq<char> {
    let s = simple_uuid(x);
    s.subrange(0, 8) + seq!['-'] + s.subrange(8, 12) + seq!['-'] + s.subrange(12, 16) + seq!['-']
        + s.subrange(16, 20) + seq!['-'] + s.subrange(20, 32)
}

/// The SHA-256 digest of a byte string.
pub uninterp spec fn sha256(data: Seq<u8>) -> Seq<u8>;

/// `sha2::Sha256::digest`: the digest, which is 32 bytes.
#[verifier::external_body]
pub(crate) fn sha256_digest(data: &[u8]) -> (r: Vec<u8>)
    ensures
        r@ == sha256(data@),
        r@.len() == 32,
{
    sha2::Sha256::digest(data).to_vec()
}

/// `hex::encode`: two lower-case digits for each byte.
#[verifier::external_body]
pub(crate) fn hex_encode(bytes: &[u8]) -> (r: String)
    ensures
        r@ == hex_text(bytes@),
{
    hex::encode(bytes)
}

/// `nostr::EventId::to_hex`: the id's 32 bytes in lower-case hexadecimal.
#[verifier::external_body]
pub(crate) fn event_id_hex(id: [u8; 32]) -> (r: String)
    ensures
        r@ == hex_text(id@),
{
    nostr::EventId::from_byte_array(id).to_hex()
}

/// `nostr::EventId::from_hex`: the 32 bytes that 64 hexadecimal digits of either
/// case spell; an error on any other text.
#[verifier::external_body]
pub(crate) fn event_id_from_hex(text: &str) -> (r: Option<[u8; 32]>)
    ensures
        r is Some <==> hex_of_len(text@, 32),
        r matches Some(id) ==> id@ == hex_bytes(text@),
{
    nostr::EventId::from_hex(text).ok().map(|id: nostr::EventId| id.to_bytes())
}

/// `nostr::PublicKey::from_hex`: the 32 bytes that 64 hexadecimal digits of either
/// case spell; an error on any other text. Whether the bytes are a point of the
/// curve is not looked at.
#[verifier::external_body]
pub(crate) fn public_key_from_hex(text: &str) -> (r: Option<[u8; 32]>)
    ensures
        r is Some <==> hex_of_len(text@, 32),
        r matches Some(key) ==> key@ == hex_bytes(text@),
{
    nostr::PublicKey::from_hex(text).ok().map(|key: nostr::PublicKey| key.to_bytes())
}

/// `uuid::Uuid::new_v4`: a random UUID of version 4. It panics only where the system
/// has no random bytes to give.
#[verifier::external_body]
pub(crate) fn random_uuid() -> (r: u128)
    ensures
        nibble(r, 12) == 4,
        8 <= nibble(r, 16) < 12,
{
    uuid::Uuid::new_v4().as_u128()
}

/// The UUID that a text spells, in one of the forms that `uuid` reads.
pub uninterp spec fn uuid_parsed(text: Seq<char>) -> Option<u128>;

/// `uuid::Uuid::parse_str`.
#[verifier::external_body]
pub(crate) fn parse_uuid(text: &str) -> (r: Option<u128>)
    ensures
        r == uuid_parsed(text@),
{
    uuid::Uuid::parse_str(text).ok().map(|id: uuid::Uuid| id.as_u128())
}

/// The `Display` of `uuid::Uuid`: lower-case, with hyphens, a form that
/// `uuid::Uuid::parse_str` reads.
#[verifier::external_body]
pub(crate) fn uuid_text(x: u128) -> (r: String)
    ensures
        r@ == hyphenated_uuid(x),
        uuid_parsed(r@) == Some(x),
{
    uuid::Uuid::from_u128(x).to_string()
}

/// `uuid::Uuid::simple`: lower-case, without hyphens.
#[verifier::external_body]
pub(crate) fn uuid_digits(x: u128) -> (r: String)
    ensures
        r@ == simple_uuid(x),
{
    uuid::Uuid::from_u128(x).simple().to_string()
}

/// A hexadecimal text is made of hexadecimal digits, and spells the bytes that
/// it was made from.
pub proof fn hex_text_round_trip(bytes: Seq<u8>)
    ensures
        hex_of_len(hex_text(bytes), bytes.len()),
        hex_bytes(hex_text(bytes)) == bytes,
{
    let s = hex_text(bytes);
    assert forall|i: int| 0 <= i < s.len() implies hex_value(#[trigger] s[i]) is Some by {
        assert(0 <= i / 2 < bytes.len());
    }
    assert forall|i: int| 0 <= i < bytes.len() implies hex_bytes(s)[i] == #[trigger] bytes[i] by {
        assert((2 * i) / 2 == i && (2 * i) % 2 == 0 && (2 * i + 1) / 2 == i && (2 * i + 1) % 2 == 1);
        assert(hex_value(s[2 * i]) == Some(bytes[i] as int / 16));
        assert(hex_value(s[2 * i + 1]) == Some(bytes[i] as int % 16));
    }
    assert(hex_bytes(s) =~= bytes);
}

/// Two byte strings with one hexadecimal text are equal.
pub proof fn hex_text_injective(a: Seq<u8>, b: Seq<u8>)
    requires
        hex_text(a) == hex_text(b),
    ensures
        a == b,
{
    hex_text_round_trip(a);
    hex_text_round_trip(b);
}

} // verus!
