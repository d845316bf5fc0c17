use ubersetzer::keys::{auto_insert_strokes, release_strokes, select_word_strokes, Key, KeyStroke};

#[test]
fn word_is_selected_with_six_keystrokes() {
    assert_eq!(
        select_word_strokes(),
        vec![
            KeyStroke::Down(Key::Control),
            KeyStroke::Click(Key::RightArrow),
            KeyStroke::Down(Key::Shift),
            KeyStroke::Click(Key::LeftArrow),
            KeyStroke::Up(Key::Control),
            KeyStroke::Up(Key::Shift),
        ]
    );
}

#[test]
fn translation_is_written_in_brackets_behind_the_word() {
    assert_eq!(
        auto_insert_strokes("house"),
        vec![KeyStroke::Click(Key::RightArrow), KeyStroke::Sequence("(house)".to_string())]
    );
}

#[test]
fn empty_translation_is_written_as_empty_brackets() {
    assert_eq!(
        auto_insert_strokes(""),
        vec![KeyStroke::Click(Key::RightArrow), KeyStroke::Sequence("()".to_string())]
    );
}

#[test]
fn translation_beyond_ascii_is_written_as_it_is() {
    assert_eq!(
        auto_insert_strokes("l\u{e9}g\u{e8}re (x)"),
        vec![
            KeyStroke::Click(Key::RightArrow),
            KeyStroke::Sequence("(l\u{e9}g\u{e8}re (x))".to_string()),
        ]
    );
}

#[test]
fn both_modifiers_are_let_go_at_the_end() {
    assert_eq!(release_strokes(), vec![KeyStroke::Up(Key::Control), KeyStroke::Up(Key::Shift)]);
}

#[test]
fn selection_holds_nothing_when_it_is_done() {
    let mut held: Vec<Key> = Vec::new();
    for stroke in select_word_strokes() {
        match stroke {
            KeyStroke::Down(key) => held.push(key),
            KeyStroke::Up(key) => held.retain(|k| *k != key),
            _ => {}
        }
    }
    assert!(held.is_empty());
}
