//! What a repaint draws: the buffer followed by a caret mark, in a font
//! whose pixel height follows the display scale.
use vstd::prelude::*;
use crate::editor::Editor;
use crate::wide::{encode_chars, push_utf16, utf16, utf16_of_char};

verus! {

/// The family of the font the buffer is drawn in.
pub const FONT_FAMILY: &'static str = "Comic Sans MS";

/// The mark drawn after the text, standing in for a caret.
pub const CARET: char = '|';

/// What the paint handler draws: the code units of one line of text,
/// aligned to the top left of the client area, in a font of the given
/// pixel height.
pub struct PaintPlan {
    pub font_height: i32,
    pub text: Vec<u16>,
}

/// The line that a buffer is drawn as: its characters, then the caret.
pub open spec fn caret_line(text: Seq<char>) -> Seq<u16> {
    utf16(text.push(CARET))
}

/// The font height for a display of `dpi` dots per inch: a quarter inch,
/// rounded down.
pub fn font_height(dpi: u32) -> (h: i32)
    ensures
        h as int == dpi as int / 4,
{
    (dpi / 4) as i32
}

/// With an empty buffer the line drawn is the caret alone.
pub proof fn lemma_empty_buffer_draws_caret(text: Seq<char>)
    requires
        text.len() == 0,
    ensures
        caret_line(text) == seq![0x7Cu16],
{
    assert(text.push(CARET).drop_last() =~= Seq::<char>::empty());
    assert(utf16(Seq::<char>::empty()) =~= Seq::<u16>::empty());
    assert(CARET as u32 == 0x7C);
    assert(caret_line(text) =~= seq![0x7Cu16]);
}

impl Editor {
    /// What a repaint of this state draws on a display of `dpi` dots per inch.
    pub fn paint_plan(&self, dpi: u32) -> (r: PaintPlan)
        ensures
            r.font_height as int == dpi as int / 4,
            r.text@ == caret_line(self@.text),
    {
        let mut text = encode_chars(self.chars().as_slice());
        push_utf16(&mut text, CARET);
        assert(self@.text.push(CARET).drop_last() =~= self@.text);
        PaintPlan { font_height: font_height(dpi), text }
    }
}

} // verus!
