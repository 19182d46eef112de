//! From byte offsets to editor positions.
//!
//! The indexing engine addresses text by byte offsets into its UTF-8
//! encoding. The editor addresses it by line and column, the column counted
//! in UTF-16 code units. The model below says what the position of an offset
//! is in terms of the characters in front of it; [`range_to_lsp_range`]
//! computes it by walking the bytes.

use crate::lsp::{Position, Range};
use vstd::prelude::*;
use vstd::utf8::*;

verus! {

/// The number of line feeds in `text`.
pub open spec fn line_count(text: Seq<char>) -> nat
    decreases text.len(),
{
    if text.len() == 0 {
        0
    } else if text.last() == '\n' {
        line_count(text.drop_last()) + 1
    } else {
        line_count(text.drop_last())
    }
}

/// The number of UTF-16 code units that encode `c`.
pub open spec fn utf16_len(c: char) -> nat {
    if (c as u32) < 0x10000 {
        1
    } else {
        2
    }
}

/// The width, in UTF-16 code units, of what follows the last line feed of
/// `text` (of all of `text`, if it has none).
pub open spec fn column_width(text: Seq<char>) -> nat
    decreases text.len(),
{
    if text.len() == 0 || text.last() == '\n' {
        0
    } else {
        column_width(text.drop_last()) + utf16_len(text.last())
    }
}

/// Whether byte `offset` of the UTF-8 encoding of `text` is a place between
/// two characters, the very start and the very end included.
pub open spec fn is_offset(text: Seq<char>, offset: int) -> bool {
    is_char_boundary(encode_utf8(text), offset)
}

/// The characters of `text` in front of byte `offset` of its UTF-8 encoding.
pub open spec fn text_before(text: Seq<char>, offset: int) -> Seq<char>
    recommends
        is_offset(text, offset),
{
    decode_utf8(encode_utf8(text).subrange(0, offset))
}

/// The zero-based line of byte `offset`: the number of line feeds in front of
/// it.
pub open spec fn line_at(text: Seq<char>, offset: int) -> nat
    recommends
        is_offset(text, offset),
{
    line_count(text_before(text, offset))
}

/// The zero-based column of byte `offset`: the width of what stands between
/// the preceding line feed, or the start of the text, and the offset.
pub open spec fn column_at(text: Seq<char>, offset: int) -> nat
    recommends
        is_offset(text, offset),
{
    column_width(text_before(text, offset))
}

/// The editor position of byte `offset`.
pub open spec fn position_at(text: Seq<char>, offset: int) -> Position
    recommends
        is_offset(text, offset),
        offset <= u32::MAX,
{
    Position { line: line_at(text, offset) as u32, character: column_at(text, offset) as u32 }
}

/// The editor range of the bytes from `start` up to `end`.
pub open spec fn lsp_range(text: Seq<char>, start: int, end: int) -> Range
    recommends
        is_offset(text, start),
        is_offset(text, end),
        start <= end <= u32::MAX,
{
    Range { start: position_at(text, start), end: position_at(text, end) }
}

/// The editor range of the bytes `range` of `s`.
///
/// Each end is mapped on its own: its line is the number of line feeds in
/// front of it, its column the width, in UTF-16 code units, of what stands
/// between the preceding line feed (or the start of `s`) and it. Both ends
/// must lie between two characters of `s`, in order, and within what a
/// position can count.
pub fn range_to_lsp_range(range: &std::ops::Range<usize>, s: &str) -> (r: Range)
    requires
        is_offset(s@, range.start as int),
        is_offset(s@, range.end as int),
        range.start <= range.end <= u32::MAX,
    ensures
        r.start.line == line_at(s@, range.start as int),
        r.start.character == column_at(s@, range.start as int),
        r.end.line == line_at(s@, range.end as int),
        r.end.character == column_at(s@, range.end as int),
        r == lsp_range(s@, range.start as int, range.end as int),
{
    proof {
        lemma_position_at_start(s@);
    }
    let origin = Position { line: 0, character: 0 };
    let start = advance(s, 0, range.start, origin);
    let end = advance(s, range.start, range.end, start);
    Range { start, end }
}

/// Walks `s` from byte `from` to byte `to`, one character at a time, and
/// carries the position along.
fn advance(s: &str, from: usize, to: usize, at: Position) -> (reached: Position)
    requires
        is_offset(s@, from as int),
        is_offset(s@, to as int),
        from <= to <= u32::MAX,
        at.line == line_at(s@, from as int),
        at.character == column_at(s@, from as int),
        at.line <= from,
        at.character <= from,
    ensures
        reached.line == line_at(s@, to as int),
        reached.character == column_at(s@, to as int),
        reached.line <= to,
        reached.character <= to,
{
    let bytes = s.as_bytes();
    proof {
        encode_utf8_valid_utf8(s@);
    }
    let mut i: usize = from;
    let mut line: u32 = at.line;
    let mut character: u32 = at.character;
    while i < to
        invariant
            bytes@ == encode_utf8(s@),
            valid_utf8(bytes@),
            from <= i <= to <= u32::MAX,
            is_char_boundary(bytes@, i as int),
            is_char_boundary(bytes@, to as int),
            line == line_count(decode_utf8(bytes@.subrange(0, i as int))),
            character == column_width(decode_utf8(bytes@.subrange(0, i as int))),
            line <= i,
            character <= i,
        decreases to - i,
    {
        proof {
            let tail = bytes@.subrange(i as int, bytes@.len() as int);
            lemma_next_offset(bytes@, i as int);
            lemma_first_scalar(tail);
            lemma_push_char(
                decode_utf8(bytes@.subrange(0, i as int)),
                decode_first_scalar(tail) as char,
            );
            assert(tail[0] == bytes@[i as int]);
        }
        let first: u8 = bytes[i];
        let width: usize = if first < 0x80 {
            1
        } else if first < 0xe0 {
            2
        } else if first < 0xf0 {
            3
        } else {
            4
        };
        if first == 0x0a {
            line = line + 1;
            character = 0;
        } else if first < 0xf0 {
            character = character + 1;
        } else {
            character = character + 2;
        }
        i = i + width;
    }
    Position { line, character }
}

/// The very start of any text is line 0, column 0.
pub proof fn lemma_position_at_start(text: Seq<char>)
    ensures
        is_offset(text, 0),
        line_at(text, 0) == 0,
        column_at(text, 0) == 0,
        position_at(text, 0) == (Position { line: 0, character: 0 }),
{
    encode_utf8_valid_utf8(text);
    assert(encode_utf8(text).subrange(0, 0) =~= Seq::<u8>::empty());
    assert(decode_utf8(Seq::<u8>::empty()) =~= Seq::<char>::empty());
}

/// The end of a text is as many lines down as the text has line feeds: the
/// range of the whole text ends on the line that counts them all.
pub proof fn lemma_position_at_end(text: Seq<char>)
    ensures
        is_offset(text, encode_utf8(text).len() as int),
        text_before(text, encode_utf8(text).len() as int) == text,
        line_at(text, encode_utf8(text).len() as int) == line_count(text),
        column_at(text, encode_utf8(text).len() as int) == column_width(text),
{
    let bytes = encode_utf8(text);
    encode_utf8_valid_utf8(text);
    is_char_boundary_start_end_of_seq(bytes);
    assert(bytes.subrange(0, bytes.len() as int) =~= bytes);
    encode_utf8_decode_utf8(text);
}

/// The text in front of an offset is a prefix of the text: its encoding is
/// the bytes in front of the offset.
pub proof fn lemma_text_before_is_a_prefix(text: Seq<char>, offset: int)
    requires
        is_offset(text, offset),
    ensures
        text_before(text, offset).is_prefix_of(text),
        encode_utf8(text_before(text, offset)) == encode_utf8(text).subrange(0, offset),
{
    let bytes = encode_utf8(text);
    encode_utf8_valid_utf8(text);
    encode_utf8_decode_utf8(text);
    valid_utf8_split(bytes, offset);
    decode_utf8_split(bytes, offset);
    decode_utf8_encode_utf8(bytes.subrange(0, offset));
    let front = decode_utf8(bytes.subrange(0, offset));
    let back = decode_utf8(bytes.subrange(offset, bytes.len() as int));
    assert(text =~= front + back);
    assert(front =~= text.subrange(0, front.len() as int));
}

/// A text has at least as many line feeds as any of its prefixes.
pub proof fn lemma_line_count_of_prefix(prefix: Seq<char>, text: Seq<char>)
    requires
        prefix.is_prefix_of(text),
    ensures
        line_count(prefix) <= line_count(text),
    decreases text.len(),
{
    if prefix.len() == text.len() {
        assert(prefix =~= text);
    } else {
        assert(prefix =~= text.drop_last().subrange(0, prefix.len() as int));
        lemma_line_count_of_prefix(prefix, text.drop_last());
    }
}

/// Whatever the size of the text: the line of an offset is the number of
/// line feeds among the characters in front of it, those characters are a
/// prefix of the text, and no offset lies further down than the end.
pub proof fn lemma_line_counts_line_feeds(text: Seq<char>, offset: int)
    requires
        is_offset(text, offset),
    ensures
        line_at(text, offset) == line_count(text_before(text, offset)),
        text_before(text, offset).is_prefix_of(text),
        line_at(text, offset) <= line_count(text),
        line_at(text, encode_utf8(text).len() as int) == line_count(text),
{
    lemma_text_before_is_a_prefix(text, offset);
    lemma_line_count_of_prefix(text_before(text, offset), text);
    lemma_position_at_end(text);
}

/// A text has at most as many line feeds as characters, and at most as many
/// characters as its UTF-8 encoding has bytes.
pub proof fn lemma_line_count_bound(text: Seq<char>)
    ensures
        line_count(text) <= text.len() <= encode_utf8(text).len(),
    decreases text.len(),
{
    if text.len() > 0 {
        lemma_line_count_bound(text.drop_last());
        lemma_line_count_bound(text.drop_first());
        assert(encode_scalar(text[0] as u32).len() >= 1);
    }
}

/// The range of a whole text starts at line 0, column 0 and ends on the line
/// that counts all its line feeds.
pub proof fn lemma_range_of_whole_text(text: Seq<char>)
    requires
        encode_utf8(text).len() <= u32::MAX,
    ensures
        lsp_range(text, 0, encode_utf8(text).len() as int).start == (Position {
            line: 0,
            character: 0,
        }),
        lsp_range(text, 0, encode_utf8(text).len() as int).end.line == line_count(text),
{
    lemma_position_at_start(text);
    lemma_position_at_end(text);
    lemma_line_count_bound(text);
}

/// Appending one character adds a line when it is a line feed, and widens the
/// column by its code units when it is not.
pub proof fn lemma_push_char(text: Seq<char>, c: char)
    ensures
        line_count(text.push(c)) == line_count(text) + (if c == '\n' {
            1nat
        } else {
            0nat
        }),
        column_width(text.push(c)) == (if c == '\n' {
            0nat
        } else {
            column_width(text) + utf16_len(c)
        }),
{
    assert(text.push(c).drop_last() =~= text);
}

/// A one-byte character is its byte.
proof fn lemma_codepoint_width_1(b1: u8)
    by (bit_vector)
    requires
        b1 <= 0x7f,
    ensures
        (b1 & 0x7F) as u32 == b1 as u32,
{
}

/// A two-byte character lies below U+0800.
proof fn lemma_codepoint_width_2(b1: u8, b2: u8)
    by (bit_vector)
    ensures
        (((b1 & 0x1F) as u32) << 6) | ((b2 & 0x3f) as u32) <= 0x7ff,
{
}

/// A three-byte character lies below U+10000.
proof fn lemma_codepoint_width_3(b1: u8, b2: u8, b3: u8)
    by (bit_vector)
    ensures
        (((b1 & 0x0F) as u32) << 12) | (((b2 & 0x3f) as u32) << 6) | ((b3 & 0x3f) as u32)
            <= 0xffff,
{
}

/// What the first byte of a well-formed character tells about it: how many
/// bytes it takes, whether it is a line feed, and how many UTF-16 code units
/// it takes.
proof fn lemma_first_scalar(bytes: Seq<u8>)
    requires
        valid_first_scalar(bytes),
    ensures
        length_of_first_scalar(bytes) == (if bytes[0] < 0x80 {
            1int
        } else if bytes[0] < 0xe0 {
            2int
        } else if bytes[0] < 0xf0 {
            3int
        } else {
            4int
        }),
        length_of_first_scalar(bytes) <= bytes.len(),
        forall|j: int| 0 < j < length_of_first_scalar(bytes) ==> is_continuation_byte(bytes[j]),
        !is_continuation_byte(bytes[0]),
        (decode_first_scalar(bytes) as char == '\n') <==> bytes[0] == 0x0a,
        utf16_len(decode_first_scalar(bytes) as char) == (if bytes[0] < 0xf0 {
            1nat
        } else {
            2nat
        }),
{
    let cp = decode_first_scalar(bytes);
    if is_leading_byte_width_1(bytes[0]) {
        lemma_codepoint_width_1(bytes[0]);
    } else if is_leading_byte_width_2(bytes[0]) {
        lemma_codepoint_width_2(bytes[0], bytes[1]);
    } else if is_leading_byte_width_3(bytes[0]) {
        lemma_codepoint_width_3(bytes[0], bytes[1], bytes[2]);
    } else {
    }
    assert((cp as char) as u32 == cp);
}

/// One character further: from a place between two characters that is not
/// the end, the next such place lies behind the character that starts there,
/// no such place lies in between, and the text in front of it is the text in
/// front of the first place with that character appended.
proof fn lemma_next_offset(bytes: Seq<u8>, i: int)
    requires
        valid_utf8(bytes),
        is_char_boundary(bytes, i),
        0 <= i < bytes.len(),
    ensures
        ({
            let tail = bytes.subrange(i, bytes.len() as int);
            let w: int = length_of_first_scalar(tail);
            &&& valid_first_scalar(tail)
            &&& 1 <= w <= 4
            &&& i + w <= bytes.len()
            &&& is_char_boundary(bytes, i + w)
            &&& forall|j: int| i < j < i + w ==> !is_char_boundary(bytes, j)
            &&& decode_utf8(bytes.subrange(0, i + w)) == decode_utf8(bytes.subrange(0, i)).push(
                decode_first_scalar(tail) as char,
            )
        }),
{
    let n: int = bytes.len() as int;
    let tail = bytes.subrange(i, n);
    valid_utf8_split(bytes, i);
    assert(valid_first_scalar(tail));
    let w: int = length_of_first_scalar(tail);
    let rest = pop_first_scalar(tail);
    lemma_first_scalar(tail);
    if i + w == n {
        is_char_boundary_start_end_of_seq(bytes);
    } else {
        assert(valid_utf8(rest));
        assert(valid_first_scalar(rest));
        lemma_first_scalar(rest);
        assert(rest[0] == bytes[i + w]);
        is_char_boundary_iff_not_is_continuation_byte(bytes, i + w);
    }
    assert forall|j: int| i < j < i + w implies !is_char_boundary(bytes, j) by {
        assert(bytes[j] == tail[j - i]);
        is_char_boundary_iff_not_is_continuation_byte(bytes, j);
    }
    let front = bytes.subrange(0, i + w);
    valid_utf8_split(bytes, i + w);
    assert(front[i] == tail[0]);
    is_char_boundary_iff_not_is_continuation_byte(front, i);
    decode_utf8_split(front, i);
    valid_utf8_split(front, i);
    assert(front.subrange(0, i) =~= bytes.subrange(0, i));
    let one = front.subrange(i, front.len() as int);
    assert(one =~= tail.subrange(0, w));
    assert(valid_first_scalar(one));
    assert(pop_first_scalar(one) =~= Seq::<u8>::empty());
    assert(decode_utf8(pop_first_scalar(one)) =~= Seq::<char>::empty());
    assert(decode_utf8(one) =~= seq![decode_first_scalar(tail) as char]);
}

} // verus!
