use mdzk_language_server::lsp::{Position, Range};
use mdzk_language_server::utils::range_to_lsp_range;

fn at(line: u32, character: u32) -> Position {
    Position { line, character }
}

#[test]
fn start_of_text_is_line_zero_column_zero() {
    let range = range_to_lsp_range(&(0..0), "first\nsecond\n");
    assert_eq!(range, Range { start: at(0, 0), end: at(0, 0) });
}

#[test]
fn start_of_empty_text_is_line_zero_column_zero() {
    let range = range_to_lsp_range(&(0..0), "");
    assert_eq!(range, Range { start: at(0, 0), end: at(0, 0) });
}

#[test]
fn line_is_the_number_of_line_feeds_in_front() {
    let text = "one\ntwo\nthree";
    // On the first line the count is zero, not one.
    assert_eq!(range_to_lsp_range(&(1..2), text), Range { start: at(0, 1), end: at(0, 2) });
    // Directly behind a line feed the next line has begun.
    assert_eq!(range_to_lsp_range(&(3..4), text), Range { start: at(0, 3), end: at(1, 0) });
    assert_eq!(range_to_lsp_range(&(5..10), text), Range { start: at(1, 1), end: at(2, 2) });
}

#[test]
fn whole_text_ends_on_the_line_that_counts_every_line_feed() {
    let text = "a\nbc\n\ndef";
    let range = range_to_lsp_range(&(0..text.len()), text);
    assert_eq!(range.start, at(0, 0));
    assert_eq!(range.end.line, text.matches('\n').count() as u32);
    assert_eq!(range.end, at(3, 3));
}

#[test]
fn text_that_ends_in_a_line_feed_ends_in_column_zero() {
    let text = "a\nb\n";
    assert_eq!(range_to_lsp_range(&(0..text.len()), text).end, at(2, 0));
}

#[test]
fn empty_range_in_the_middle_has_equal_ends() {
    let range = range_to_lsp_range(&(6..6), "alpha\nbeta");
    assert_eq!(range, Range { start: at(1, 0), end: at(1, 0) });
}

#[test]
fn range_may_touch_the_end_of_the_document() {
    let text = "alpha\nbeta";
    let range = range_to_lsp_range(&(8..text.len()), text);
    assert_eq!(range, Range { start: at(1, 2), end: at(1, 4) });
}

#[test]
fn carriage_return_counts_as_a_column() {
    let text = "a\r\nb";
    assert_eq!(range_to_lsp_range(&(2..4), text), Range { start: at(0, 2), end: at(1, 1) });
}

#[test]
fn column_counts_utf16_code_units() {
    // 'é' takes two bytes and one code unit, '€' three bytes and one code
    // unit, '😀' four bytes and two code units.
    let text = "é€😀x";
    assert_eq!(text.len(), 10);
    assert_eq!(range_to_lsp_range(&(0..2), text).end, at(0, 1));
    assert_eq!(range_to_lsp_range(&(2..5), text), Range { start: at(0, 1), end: at(0, 2) });
    assert_eq!(range_to_lsp_range(&(5..9), text), Range { start: at(0, 2), end: at(0, 4) });
    assert_eq!(range_to_lsp_range(&(9..10), text), Range { start: at(0, 4), end: at(0, 5) });
}

#[test]
fn column_agrees_with_the_utf16_length_of_the_line_so_far() {
    let text = "první řádek\nドキュメント 😀 [[odkaz]]\nkonec";
    let mut offsets: Vec<usize> = text.char_indices().map(|(i, _)| i).collect();
    offsets.push(text.len());
    for &offset in &offsets {
        let before = &text[..offset];
        let line = before.matches('\n').count() as u32;
        let line_start = before.rfind('\n').map(|i| i + 1).unwrap_or(0);
        let character = before[line_start..].encode_utf16().count() as u32;
        let range = range_to_lsp_range(&(offset..offset), text);
        assert_eq!(range.start, at(line, character));
        assert_eq!(range.end, at(line, character));
    }
}

#[test]
fn multi_byte_characters_on_earlier_lines_do_not_shift_the_column() {
    let text = "😀😀\nab";
    assert_eq!(range_to_lsp_range(&(9..11), text), Range { start: at(1, 0), end: at(1, 2) });
}

#[test]
fn link_in_a_sentence_is_mapped_to_its_columns() {
    let text = "See [[Missing Note]] here";
    let start = text.find("[[").unwrap();
    let end = text.find("]]").unwrap() + 2;
    assert_eq!((start, end), (4, 20));
    assert_eq!(range_to_lsp_range(&(start..end), text), Range { start: at(0, 4), end: at(0, 20) });
}
