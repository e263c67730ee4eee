//! Lines of JSON: how a value goes onto a byte stream and comes off it again.
use vstd::prelude::*;
use vstd::utf8::encode_utf8;

use crate::json::encode;
use crate::json::json_parsed;
use crate::json::json_text;
use crate::json::storable;
use crate::json::Json;
use crate::json::JsonTree;

verus! {

/// The byte that ends a line.
pub const LINE_FEED: u8 = 10;

/// A line of JSON: the compact text of the value, and a line feed.
pub open spec fn json_line(tree: JsonTree) -> Seq<u8> {
    encode_utf8(json_text(tree)).push(LINE_FEED)
}

/// The line of JSON that carries a value. Whoever reads it, with room enough for
/// it, gets that one line, and in it the value again, where the value is storable.
pub fn frame_line(frame: &Json) -> (r: Vec<u8>)
    ensures
        r@ == json_line(frame@),
        !encode_utf8(json_text(frame@)).contains(LINE_FEED),
        forall|limit: nat|
            #![trigger read_bytes(r@, limit)]
            limit >= encode_utf8(json_text(frame@)).len() ==> read_bytes(r@, limit) == Line::Whole(
                encode_utf8(json_text(frame@)),
                r@.len(),
            ),
        storable(frame@) ==> json_parsed(encode_utf8(json_text(frame@))) == Ok::<
            JsonTree,
            Seq<char>,
        >(frame@),
{
    let text: String = encode(frame);
    proof {
        let bytes = encode_utf8(text@);
        if bytes.contains(LINE_FEED) {
            lemma_line_feed_is_a_character(text@);
        }
        assert forall|limit: nat|
            #![trigger read_bytes(bytes.push(LINE_FEED), limit)]
            limit >= bytes.len() implies read_bytes(bytes.push(LINE_FEED), limit) == Line::Whole(
            bytes,
            bytes.len() + 1,
        ) by {
            line_is_read_back(bytes, Seq::empty(), limit);
            assert(bytes.push(LINE_FEED) + Seq::<u8>::empty() =~= bytes.push(LINE_FEED));
        }
    }
    let mut r: Vec<u8> = vstd::slice::slice_to_vec(text.as_str().as_bytes());
    r.push(LINE_FEED);
    r
}

/// What one more byte made of a line.
#[derive(Debug, PartialEq, Eq, Clone, Copy, Structural)]
pub enum Fed {
    More,
    Whole,
    TooLarge,
}

/// Adds a byte to a line of at most `limit` bytes.
pub fn feed(line: &mut Vec<u8>, limit: usize, byte: u8) -> (r: Fed)
    ensures
        r == feed_result(old(line)@, limit as nat, byte),
        final(line)@ == (if r == Fed::More {
            old(line)@.push(byte)
        } else {
            old(line)@
        }),
{
    if byte == LINE_FEED {
        Fed::Whole
    } else if line.len() == limit {
        Fed::TooLarge
    } else {
        line.push(byte);
        Fed::More
    }
}

pub open spec fn feed_result(line: Seq<u8>, limit: nat, byte: u8) -> Fed {
    if byte == LINE_FEED {
        Fed::Whole
    } else if line.len() == limit {
        Fed::TooLarge
    } else {
        Fed::More
    }
}

/// What comes of feeding bytes one by one.
pub enum Line {
    /// No line feed yet; this is what the line has so far.
    Partial(Seq<u8>),
    /// The line, and how many bytes it took.
    Whole(Seq<u8>, nat),
    TooLarge,
}

/// What reading bytes, one by one, makes of a line of at most `limit` bytes.
pub open spec fn read_bytes(bytes: Seq<u8>, limit: nat) -> Line
    decreases bytes.len(),
{
    if bytes.len() == 0 {
        Line::Partial(Seq::empty())
    } else {
        match read_bytes(bytes.drop_last(), limit) {
            Line::Partial(line) => match feed_result(line, limit, bytes.last()) {
                Fed::More => Line::Partial(line.push(bytes.last())),
                Fed::Whole => Line::Whole(line, bytes.len()),
                Fed::TooLarge => Line::TooLarge,
            },
            done => done,
        }
    }
}

/// Bytes without a line feed, no more than the limit, are a line in the making.
proof fn lemma_partial_line(line: Seq<u8>, limit: nat)
    requires
        !line.contains(LINE_FEED),
        line.len() <= limit,
    ensures
        read_bytes(line, limit) == Line::Partial(line),
    decreases line.len(),
{
    if line.len() == 0 {
        assert(line =~= Seq::empty());
    } else {
        let shorter = line.drop_last();
        assert(!shorter.contains(LINE_FEED)) by {
            if shorter.contains(LINE_FEED) {
                let i = choose|i: int| 0 <= i < shorter.len() && shorter[i] == LINE_FEED;
                assert(line[i] == LINE_FEED);
            }
        }
        lemma_partial_line(shorter, limit);
        assert(line[line.len() - 1] != LINE_FEED);
        assert(shorter.push(line.last()) =~= line);
    }
}

/// A line that fits is read back as it was written, and nothing that follows its
/// line feed is taken.
pub proof fn line_is_read_back(line: Seq<u8>, rest: Seq<u8>, limit: nat)
    requires
        !line.contains(LINE_FEED),
        line.len() <= limit,
    ensures
        read_bytes(line.push(LINE_FEED) + rest, limit) == Line::Whole(line, line.len() + 1),
    decreases rest.len(),
{
    let all = line.push(LINE_FEED) + rest;
    if rest.len() == 0 {
        lemma_partial_line(line, limit);
        assert(all.drop_last() =~= line);
    } else {
        line_is_read_back(line, rest.drop_last(), limit);
        assert(all.drop_last() =~= line.push(LINE_FEED) + rest.drop_last());
    }
}

/// A line that does not fit is refused, whatever comes after its first bytes.
pub proof fn long_line_is_refused(start: Seq<u8>, rest: Seq<u8>, limit: nat)
    requires
        !start.contains(LINE_FEED),
        start.len() == limit + 1,
    ensures
        read_bytes(start + rest, limit) == Line::TooLarge,
    decreases rest.len(),
{
    let all = start + rest;
    if rest.len() == 0 {
        let shorter = start.drop_last();
        assert(!shorter.contains(LINE_FEED)) by {
            if shorter.contains(LINE_FEED) {
                let i = choose|i: int| 0 <= i < shorter.len() && shorter[i] == LINE_FEED;
                assert(start[i] == LINE_FEED);
            }
        }
        lemma_partial_line(shorter, limit);
        assert(start[start.len() - 1] != LINE_FEED);
        assert(all.drop_last() =~= shorter);
        assert(all.last() == start.last());
    } else {
        long_line_is_refused(start, rest.drop_last(), limit);
        assert(all.drop_last() =~= start + rest.drop_last());
    }
}

proof fn lemma_scalar_line_feed(scalar: u32)
    requires
        vstd::utf8::is_scalar(scalar),
        vstd::utf8::encode_scalar(scalar).contains(LINE_FEED),
    ensures
        scalar == 10,
{
    assert((scalar & 0x7F) as u8 == 10u8 ==> scalar <= 0x7F ==> scalar == 10u32) by (bit_vector);
    assert(0x80 | (scalar & 0x3F) as u8 >= 0x80u8) by (bit_vector);
    assert(0x80 | ((scalar >> 6) & 0x3F) as u8 >= 0x80u8) by (bit_vector);
    assert(0x80 | ((scalar >> 12) & 0x3F) as u8 >= 0x80u8) by (bit_vector);
    assert(0xC0 | ((scalar >> 6) & 0x1F) as u8 >= 0x80u8) by (bit_vector);
    assert(0xE0 | ((scalar >> 12) & 0x0F) as u8 >= 0x80u8) by (bit_vector);
    assert(0xF0 | ((scalar >> 18) & 0x7) as u8 >= 0x80u8) by (bit_vector);
}

/// Where the UTF-8 of a text holds a line feed byte, the text holds the character.
proof fn lemma_line_feed_is_a_character(chars: Seq<char>)
    requires
        encode_utf8(chars).contains(LINE_FEED),
    ensures
        chars.contains('\n'),
    decreases chars.len(),
{
    if chars.len() > 0 {
        let head = vstd::utf8::encode_scalar(chars[0] as u32);
        let rest = encode_utf8(chars.drop_first());
        let all = encode_utf8(chars);
        assert(all =~= head + rest);
        let i = choose|i: int| 0 <= i < all.len() && all[i] == LINE_FEED;
        vstd::utf8::char_is_scalar(chars[0]);
        if i < head.len() {
            assert(head[i] == LINE_FEED);
            lemma_scalar_line_feed(chars[0] as u32);
            vstd::utf8::char_u32_cast(chars[0], 10);
            vstd::utf8::char_u32_cast('\n', 10);
            assert(chars[0] == '\n');
        } else {
            assert(rest[i - head.len()] == LINE_FEED);
            lemma_line_feed_is_a_character(chars.drop_first());
            let k = choose|k: int|
                0 <= k < chars.drop_first().len() && chars.drop_first()[k] == '\n';
            assert(chars[k + 1] == '\n');
        }
    }
}

/// A line of JSON is the text of the value in UTF-8, and then a line feed, which ends it.
pub proof fn json_lines_end_with_a_line_feed(tree: JsonTree)
    ensures
        json_line(tree) == encode_utf8(json_text(tree)) + seq![10u8],
{
    assert(json_line(tree) =~= encode_utf8(json_text(tree)) + seq![10u8]);
}

} // verus!
