use egui_material::buffer::{
    decrease_indentation, delete_char_range, delete_next_char, delete_next_word,
    delete_paragraph_after_cursor, delete_paragraph_before_cursor, delete_previous_char,
    delete_previous_word, delete_selected, find_line_end, find_line_start,
    find_next_word_boundary, find_prev_word_boundary, insert_text_at, slice_chars,
};

fn chars(s: &str) -> Vec<char> {
    s.chars().collect()
}

fn string(v: &Vec<char>) -> String {
    v.iter().collect()
}

#[test]
fn delete_range_removes_middle() {
    let mut text = chars("hello world");
    delete_char_range(&mut text, 5, 11);
    assert_eq!(string(&text), "hello");
}

#[test]
fn insert_at_caret_moves_caret() {
    let mut text = chars("held");
    let c = insert_text_at(&mut text, 2, &chars("llo wor"), usize::MAX);
    assert_eq!(string(&text), "hello world");
    assert_eq!(c, 9);
}

#[test]
fn insert_past_limit_truncates_to_limit() {
    let mut text = chars("12345678");
    let c = insert_text_at(&mut text, 8, &chars("abcdef"), 10);
    assert_eq!(string(&text), "12345678ab");
    assert_eq!(text.len(), 10);
    assert_eq!(c, 10);
}

#[test]
fn insert_into_full_buffer_adds_nothing() {
    let mut text = chars("12345");
    let c = insert_text_at(&mut text, 3, &chars("xyz"), 5);
    assert_eq!(string(&text), "12345");
    assert_eq!(c, 3);
}

#[test]
fn delete_selected_collapses_to_start() {
    let mut text = chars("abcdef");
    let c = delete_selected(&mut text, 2, 4);
    assert_eq!(string(&text), "abef");
    assert_eq!(c, 2);
}

#[test]
fn delete_previous_char_at_start_is_noop() {
    let mut text = chars("abc");
    let c = delete_previous_char(&mut text, 0);
    assert_eq!(string(&text), "abc");
    assert_eq!(c, 0);
}

#[test]
fn delete_next_char_at_end_is_noop() {
    let mut text = chars("abc");
    let c = delete_next_char(&mut text, 3);
    assert_eq!(string(&text), "abc");
    assert_eq!(c, 3);
}

#[test]
fn word_boundaries_skip_separators_then_word() {
    let text = chars("foo  bar");
    assert_eq!(find_prev_word_boundary(&text, 8), 5);
    assert_eq!(find_prev_word_boundary(&text, 5), 0);
    assert_eq!(find_next_word_boundary(&text, 0), 3);
    assert_eq!(find_next_word_boundary(&text, 3), 8);
}

#[test]
fn underscore_counts_as_word_character() {
    let text = chars("a_b c");
    assert_eq!(find_prev_word_boundary(&text, 3), 0);
    assert_eq!(find_next_word_boundary(&text, 0), 3);
}

#[test]
fn delete_previous_word_removes_word_and_separators() {
    let mut text = chars("foo bar ");
    let c = delete_previous_word(&mut text, 8);
    assert_eq!(string(&text), "foo ");
    assert_eq!(c, 4);
}

#[test]
fn delete_next_word_removes_forward() {
    let mut text = chars("foo bar");
    let c = delete_next_word(&mut text, 3);
    assert_eq!(string(&text), "foo");
    assert_eq!(c, 3);
}

#[test]
fn line_bounds_follow_newlines() {
    let text = chars("ab\ncd\nef");
    assert_eq!(find_line_start(&text, 4), 3);
    assert_eq!(find_line_end(&text, 4), 5);
    assert_eq!(find_line_start(&text, 1), 0);
    assert_eq!(find_line_end(&text, 7), 8);
}

#[test]
fn paragraph_delete_back_removes_to_line_start() {
    let mut text = chars("ab\ncdef");
    let c = delete_paragraph_before_cursor(&mut text, 5, 5);
    assert_eq!(string(&text), "ab\nef");
    assert_eq!(c, 3);
}

#[test]
fn paragraph_delete_back_at_line_start_removes_one_char() {
    let mut text = chars("ab\ncd");
    let c = delete_paragraph_before_cursor(&mut text, 3, 3);
    assert_eq!(string(&text), "abcd");
    assert_eq!(c, 2);
}

#[test]
fn paragraph_delete_forward_removes_to_line_end() {
    let mut text = chars("abcd\nef");
    let c = delete_paragraph_after_cursor(&mut text, 2, 2);
    assert_eq!(string(&text), "ab\nef");
    assert_eq!(c, 2);
}

#[test]
fn decrease_indentation_removes_tab() {
    let mut text = chars("\tabc");
    let c = decrease_indentation(&mut text, 3);
    assert_eq!(string(&text), "abc");
    assert_eq!(c, 2);
}

#[test]
fn decrease_indentation_removes_four_spaces() {
    let mut text = chars("    abc");
    let c = decrease_indentation(&mut text, 6);
    assert_eq!(string(&text), "abc");
    assert_eq!(c, 2);
}

#[test]
fn decrease_indentation_without_indent_is_noop() {
    let mut text = chars("abc");
    let c = decrease_indentation(&mut text, 2);
    assert_eq!(string(&text), "abc");
    assert_eq!(c, 2);
}

#[test]
fn slice_chars_copies_range() {
    let text = chars("hello");
    let s = slice_chars(&text, 1, 4);
    assert_eq!(string(&s), "ell");
}
