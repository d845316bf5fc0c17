//! The keystrokes that the translator has the desktop type: to select the
//! word at the cursor, and to write a translation behind it.

use vstd::prelude::*;
use vstd::string::*;

verus! {

/// A key that the translator presses.
#[derive(Debug, Clone, Copy, PartialEq, Eq, Structural)]
pub enum Key {
    Control,
    Shift,
    RightArrow,
    LeftArrow,
}

/// One thing to do at the keyboard.
#[derive(Debug, PartialEq, Eq)]
pub enum KeyStroke {
    /// Press the key and hold it.
    Down(Key),
    /// Let the key go.
    Up(Key),
    /// Press the key and let it go.
    Click(Key),
    /// Type the text, character by character.
    Sequence(String),
}

/// The mathematical value of a [`KeyStroke`].
pub enum StrokeView {
    Down(Key),
    Up(Key),
    Click(Key),
    Sequence(Seq<char>),
}

impl View for KeyStroke {
    type V = StrokeView;

    open spec fn view(&self) -> StrokeView {
        match self {
            KeyStroke::Down(key) => StrokeView::Down(*key),
            KeyStroke::Up(key) => StrokeView::Up(*key),
            KeyStroke::Click(key) => StrokeView::Click(*key),
            KeyStroke::Sequence(text) => StrokeView::Sequence(text@),
        }
    }
}

/// The values of a list of keystrokes.
pub open spec fn strokes_view(strokes: Seq<KeyStroke>) -> Seq<StrokeView> {
    Seq::new(strokes.len(), |i: int| strokes[i]@)
}

/// The keystrokes that select the word to the right of the cursor: with
/// Control held, one step right; with Shift held as well, one step left.
pub open spec fn word_selection() -> Seq<StrokeView> {
    seq![
        StrokeView::Down(Key::Control),
        StrokeView::Click(Key::RightArrow),
        StrokeView::Down(Key::Shift),
        StrokeView::Click(Key::LeftArrow),
        StrokeView::Up(Key::Control),
        StrokeView::Up(Key::Shift),
    ]
}

/// The text that is written behind a word: its translation in brackets.
pub open spec fn bracketed(translation: Seq<char>) -> Seq<char> {
    seq!['('] + translation + seq![')']
}

/// The keystrokes that write a translation behind the selected word: one step
/// right, which leaves the selection, then the translation in brackets.
pub open spec fn insertion_of(translation: Seq<char>) -> Seq<StrokeView> {
    seq![StrokeView::Click(Key::RightArrow), StrokeView::Sequence(bracketed(translation))]
}

/// The keystrokes that let both modifiers go.
pub open spec fn modifier_release() -> Seq<StrokeView> {
    seq![StrokeView::Up(Key::Control), StrokeView::Up(Key::Shift)]
}

/// The modifiers that are held once `strokes` have been typed, where `held`
/// were held before.
pub open spec fn held_after(strokes: Seq<StrokeView>, held: Set<Key>) -> Set<Key>
    decreases strokes.len(),
{
    if strokes.len() == 0 {
        held
    } else {
        let rest = strokes.drop_last();
        match strokes.last() {
            StrokeView::Down(key) => held_after(rest, held).insert(key),
            StrokeView::Up(key) => held_after(rest, held).remove(key),
            _ => held_after(rest, held),
        }
    }
}

/// The keystrokes that select the word to the right of the cursor.
pub fn select_word_strokes() -> (strokes: Vec<KeyStroke>)
    ensures
        strokes_view(strokes@) == word_selection(),
{
    let mut strokes: Vec<KeyStroke> = Vec::new();
    strokes.push(KeyStroke::Down(Key::Control));
    strokes.push(KeyStroke::Click(Key::RightArrow));
    strokes.push(KeyStroke::Down(Key::Shift));
    strokes.push(KeyStroke::Click(Key::LeftArrow));
    strokes.push(KeyStroke::Up(Key::Control));
    strokes.push(KeyStroke::Up(Key::Shift));
    assert(strokes_view(strokes@) =~= word_selection());
    strokes
}

/// The keystrokes that write a translation, in brackets, behind the selected
/// word.
pub fn auto_insert_strokes(translation: &str) -> (strokes: Vec<KeyStroke>)
    ensures
        strokes_view(strokes@) == insertion_of(translation@),
{
    let mut text = String::from_str("(");
    text.append(translation);
    text.append(")");
    proof {
        reveal_strlit("(");
        reveal_strlit(")");
        assert("("@ =~= seq!['(']);
        assert(")"@ =~= seq![')']);
    }
    let mut strokes: Vec<KeyStroke> = Vec::new();
    strokes.push(KeyStroke::Click(Key::RightArrow));
    strokes.push(KeyStroke::Sequence(text));
    assert(strokes_view(strokes@) =~= insertion_of(translation@));
    strokes
}

/// The keystrokes that let both modifiers go, for when the translator leaves.
pub fn release_strokes() -> (strokes: Vec<KeyStroke>)
    ensures
        strokes_view(strokes@) == modifier_release(),
{
    let mut strokes: Vec<KeyStroke> = Vec::new();
    strokes.push(KeyStroke::Up(Key::Control));
    strokes.push(KeyStroke::Up(Key::Shift));
    assert(strokes_view(strokes@) =~= modifier_release());
    strokes
}

/// Wherever the selection of a word is broken off, letting both modifiers go
/// leaves no key held.
pub proof fn lemma_release_frees_modifiers(typed: int)
    requires
        0 <= typed <= word_selection().len(),
    ensures
        held_after(word_selection().take(typed) + modifier_release(), Set::empty())
            == Set::<Key>::empty(),
{
    let script = word_selection().take(typed) + modifier_release();
    let none = Set::<Key>::empty();
    let before = script.take(script.len() - 2);
    let after_control = script.take(script.len() - 1);
    assert(after_control.drop_last() =~= before);
    assert(script.drop_last() =~= after_control);
    assert(after_control.last() == StrokeView::Up(Key::Control));
    assert(script.last() == StrokeView::Up(Key::Shift));
    lemma_held_within(before, before.len() as int);
    assert(before.take(before.len() as int) =~= before);
    assert(held_after(after_control, none) == held_after(before, none).remove(Key::Control));
    assert(held_after(script, none) == held_after(after_control, none).remove(Key::Shift));
    assert(held_after(script, none) =~= none);
}

/// The translator holds no key but Control and Shift.
proof fn lemma_held_within(strokes: Seq<StrokeView>, n: int)
    requires
        0 <= n <= strokes.len(),
        forall|i: int|
            0 <= i < strokes.len() ==> ((#[trigger] strokes[i]) matches StrokeView::Down(key)
                ==> key == Key::Control || key == Key::Shift),
    ensures
        held_after(strokes.take(n), Set::empty()).subset_of(set![Key::Control, Key::Shift]),
    decreases n,
{
    if n > 0 {
        lemma_held_within(strokes, n - 1);
        assert(strokes.take(n).drop_last() =~= strokes.take(n - 1));
        assert(strokes.take(n).last() == strokes[n - 1]);
    }
}

} // verus!
