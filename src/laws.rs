//! Properties of the editor that relate several events.
use vstd::prelude::*;
use crate::editor::{
    char_step, code_of, lemma_char_of_code, step, step_all, EditorModel, Event,
    BACKSPACE, TAB,
};

verus! {

/// The character messages that typing `cs` sends, one per character.
pub open spec fn typed(cs: Seq<char>) -> Seq<Event> {
    cs.map_values(|c: char| Event::Char(code_of(c)))
}

/// `n` presses of the left mouse button.
pub open spec fn left_clicks(n: nat) -> Seq<Event> {
    Seq::new(n, |i: int| Event::LeftButtonDown)
}

/// Typing characters, none of them a backspace or a tab, appends exactly
/// those characters to the buffer, in order, and leaves the counter alone.
pub proof fn lemma_typing_appends(m: EditorModel, cs: Seq<char>)
    requires
        forall|i: int| 0 <= i < cs.len() ==> cs[i] != '\u{8}' && cs[i] != '\t',
    ensures
        step_all(m, typed(cs)).text == m.text + cs,
        step_all(m, typed(cs)).clicks == m.clicks,
    decreases cs.len(),
{
    if cs.len() == 0 {
        assert(typed(cs) =~= Seq::<Event>::empty());
        assert(m.text + cs =~= m.text);
    } else {
        let init = cs.drop_last();
        let c = cs.last();
        assert(typed(cs).drop_last() =~= typed(init));
        lemma_typing_appends(m, init);
        let before = step_all(m, typed(init));
        lemma_char_of_code(c);
        assert(code_of(c) != BACKSPACE && code_of(c) != TAB);
        assert(step(before, typed(cs).last()) == char_step(before, code_of(c)));
        assert(char_step(before, code_of(c)).text == before.text.push(c));
        assert(m.text + cs =~= (m.text + init).push(c));
    }
}

/// A backspace removes exactly the last character of a non-empty buffer and
/// leaves an empty buffer empty.
pub proof fn lemma_backspace(m: EditorModel)
    ensures
        m.text.len() > 0 ==> step(m, Event::Char(BACKSPACE)).text == m.text.take(
            m.text.len() - 1,
        ),
        m.text.len() == 0 ==> step(m, Event::Char(BACKSPACE)).text.len() == 0,
{
}

/// A tab appends exactly four spaces, whatever the buffer holds.
pub proof fn lemma_tab(m: EditorModel)
    ensures
        step(m, Event::Char(TAB)).text == m.text + seq![' ', ' ', ' ', ' '],
{
}

/// After `n` left clicks the counter has grown by `n`, modulo 256, and the
/// buffer is unchanged.
pub proof fn lemma_click_count(m: EditorModel, n: nat)
    ensures
        step_all(m, left_clicks(n)).clicks == (m.clicks + n) % 256,
        step_all(m, left_clicks(n)).text == m.text,
    decreases n,
{
    if n > 0 {
        assert(left_clicks(n).drop_last() =~= left_clicks((n - 1) as nat));
        lemma_click_count(m, (n - 1) as nat);
    }
}

} // verus!
