use receipt_tui::input::{InputBoxState, InputCallbackId};

fn input_with(value: &str, cursor: usize) -> InputBoxState {
    InputBoxState {
        prompt: String::from("Prompt:"),
        value: String::from(value),
        cursor,
        callback_id: InputCallbackId::EditTargetMonth,
    }
}

#[test]
fn typing_inserts_at_the_cursor() {
    let mut b = input_with("", 0);
    b.insert_char('a');
    b.insert_char('c');
    assert_eq!((b.value.as_str(), b.cursor), ("ac", 2));
    b.move_left();
    b.insert_char('b');
    assert_eq!((b.value.as_str(), b.cursor), ("abc", 2));
    b.move_home();
    b.insert_char('山');
    assert_eq!((b.value.as_str(), b.cursor), ("山abc", 1));
    b.move_end();
    b.insert_char('!');
    assert_eq!((b.value.as_str(), b.cursor), ("山abc!", 5));
    assert_eq!(b.prompt, "Prompt:");
    assert_eq!(b.callback_id, InputCallbackId::EditTargetMonth);
}

#[test]
fn backspace_deletes_in_front_of_the_cursor() {
    let mut b = input_with("a山c", 2);
    b.backspace();
    assert_eq!((b.value.as_str(), b.cursor), ("ac", 1));
    b.backspace();
    assert_eq!((b.value.as_str(), b.cursor), ("c", 0));
    b.backspace();
    assert_eq!((b.value.as_str(), b.cursor), ("c", 0));
}

#[test]
fn backspace_beyond_the_text_only_moves_the_cursor() {
    let mut b = input_with("ab", 5);
    b.backspace();
    assert_eq!((b.value.as_str(), b.cursor), ("ab", 4));
    let mut b = input_with("ab", 3);
    b.backspace();
    assert_eq!((b.value.as_str(), b.cursor), ("ab", 2));
    b.backspace();
    assert_eq!((b.value.as_str(), b.cursor), ("a", 1));
}

#[test]
fn delete_removes_at_the_cursor() {
    let mut b = input_with("a山c", 1);
    b.delete();
    assert_eq!((b.value.as_str(), b.cursor), ("ac", 1));
    b.delete();
    assert_eq!((b.value.as_str(), b.cursor), ("a", 1));
    b.delete();
    assert_eq!((b.value.as_str(), b.cursor), ("a", 1));
    let mut far = input_with("ab", 9);
    far.delete();
    assert_eq!((far.value.as_str(), far.cursor), ("ab", 9));
}

#[test]
fn the_cursor_stays_within_the_text() {
    let mut b = input_with("ab", 0);
    b.move_left();
    assert_eq!(b.cursor, 0);
    b.move_right();
    b.move_right();
    assert_eq!(b.cursor, 2);
    b.move_right();
    assert_eq!(b.cursor, 2);
    b.move_home();
    assert_eq!(b.cursor, 0);
    b.move_end();
    assert_eq!(b.cursor, 2);
    let mut wide = input_with("山田", 0);
    wide.move_end();
    assert_eq!(wide.cursor, 2);
    assert_eq!(b.value, "ab");
}

#[test]
fn clearing_empties_the_line() {
    let mut b = input_with("abc", 2);
    b.clear_line();
    assert_eq!((b.value.as_str(), b.cursor), ("", 0));
    assert_eq!(b.prompt, "Prompt:");
}

#[test]
fn typing_then_backspace_changes_nothing() {
    for cursor in 0..=3 {
        let mut b = input_with("abc", cursor);
        b.insert_char('x');
        b.backspace();
        assert_eq!(b, input_with("abc", cursor));
    }
}

#[test]
fn the_mark_stands_at_the_cursor() {
    assert_eq!(input_with("", 0).visible_with_cursor(10), "|");
    assert_eq!(input_with("abc", 0).visible_with_cursor(10), "|abc");
    assert_eq!(input_with("abc", 1).visible_with_cursor(10), "a|bc");
    assert_eq!(input_with("abc", 3).visible_with_cursor(10), "abc|");
    assert_eq!(input_with("山田太郎", 2).visible_with_cursor(10), "山田|太郎");
}

#[test]
fn a_long_text_scrolls_with_the_cursor() {
    // Ten wide: the cursor may go to place 8 before the text scrolls.
    let text = "0123456789abcdefghij";
    assert_eq!(input_with(text, 0).visible_with_cursor(10), "|0123456789");
    assert_eq!(input_with(text, 8).visible_with_cursor(10), "01234567|89");
    assert_eq!(input_with(text, 9).visible_with_cursor(10), "12345678|9a");
    assert_eq!(input_with(text, 15).visible_with_cursor(10), "789abcde|fg");
    assert_eq!(input_with(text, 20).visible_with_cursor(10), "cdefghij|");
}

#[test]
fn narrow_fields_and_stray_cursors_still_show_a_mark() {
    assert_eq!(input_with("abc", 0).visible_with_cursor(0), "|");
    assert_eq!(input_with("abc", 0).visible_with_cursor(1), "|a");
    assert_eq!(input_with("abc", 2).visible_with_cursor(2), "|c");
    assert_eq!(input_with("abc", 3).visible_with_cursor(2), "|");
    // A cursor beyond the text: the mark goes to the end of what shows.
    assert_eq!(input_with("abc", 7).visible_with_cursor(10), "abc|");
    assert_eq!(input_with("abc", 12).visible_with_cursor(10), "|");
}
