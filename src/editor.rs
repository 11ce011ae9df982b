use vstd::prelude::*;

verus! {

/// Character code that removes the last character of the buffer.
pub const BACKSPACE: u32 = 8;

/// Character code that inserts four spaces.
pub const TAB: u32 = 9;

/// An input or system notification, as the window receives it.
#[derive(Clone, Copy, Debug)]
pub enum Event {
    /// The window is being destroyed or asked to quit.
    Close,
    /// The display scale of the window changed.
    DpiChanged,
    /// The left mouse button went down inside the window.
    LeftButtonDown,
    /// A character message carrying one UTF-16 code unit or a full code point.
    Char(u32),
    /// The client area must be redrawn.
    Paint,
    /// The system asks for the window's size limits.
    GetMinMaxInfo,
    /// Any other message; left to the system's default handling.
    Other,
}

/// What the window procedure must do after the editor has handled an event.
#[derive(Debug, PartialEq, Eq, Structural)]
pub enum Reply {
    /// Post a quit message with exit code 0 and report the event handled.
    Quit,
    /// Report the event handled; nothing else to do.
    Handled,
    /// The state changed: invalidate the client area and report it handled.
    Redraw,
    /// Draw the paint plan of the current state.
    Paint,
    /// Report this minimum trackable size, in pixels.
    MinTrackSize { width: i32, height: i32 },
    /// Pass the event on to the system's default window procedure.
    Default,
}

/// Smallest size the window can be dragged to.
pub const MIN_TRACK_WIDTH: i32 = 500;

pub const MIN_TRACK_HEIGHT: i32 = 300;

/// The abstract state of an editor.
pub ghost struct EditorModel {
    /// Left clicks seen so far, modulo 256.
    pub clicks: u8,
    /// The characters typed so far.
    pub text: Seq<char>,
    /// A high surrogate waiting for the low surrogate that completes it.
    pub pending: Option<u16>,
}

impl EditorModel {
    /// A held code unit is always a high surrogate.
    pub open spec fn wf(self) -> bool {
        self.pending matches Some(h) ==> is_high_surrogate(h as u32)
    }
}

/// The editor state owned by the window: a click counter and a text buffer.
///
/// Character messages are decoded as follows. A code that is a Unicode
/// scalar value is appended as that character, except backspace and tab.
/// A high surrogate is held back; when the next code is a low surrogate the
/// two are combined into one character. A held surrogate that is not
/// followed by a low surrogate is dropped, as is a lone low surrogate or a
/// code above the Unicode range.
pub struct Editor {
    clicks: u8,
    text: Vec<char>,
    pending: Option<u16>,
}

pub open spec fn is_high_surrogate(code: u32) -> bool {
    0xD800 <= code && code <= 0xDBFF
}

pub open spec fn is_low_surrogate(code: u32) -> bool {
    0xDC00 <= code && code <= 0xDFFF
}

/// A code is a Unicode scalar value: in range and not a surrogate.
pub open spec fn is_scalar(code: u32) -> bool {
    code < 0xD800 || (0xE000 <= code && code <= 0x10FFFF)
}

/// The code point that a surrogate pair stands for.
pub open spec fn combine_surrogates(high: u16, low: u32) -> u32 {
    (0x10000 + (high - 0xD800) * 0x400 + (low - 0xDC00)) as u32
}

/// The scalar value of a character.
pub open spec fn code_of(c: char) -> u32 {
    c as u32
}

/// The character whose scalar value is `code`.
pub open spec fn char_of(code: u32) -> char {
    choose|c: char| #[trigger] code_of(c) == code
}

/// Reading back the character of a character's own scalar value.
pub proof fn lemma_char_of_code(c: char)
    ensures
        char_of(code_of(c)) == c,
{
    let d = char_of(code_of(c));
    assert(code_of(d) == code_of(c));
}

pub open spec fn four_spaces() -> Seq<char> {
    seq![' ', ' ', ' ', ' ']
}

/// The buffer after one decoded code, with no surrogate held.
pub open spec fn apply_code(text: Seq<char>, code: u32) -> Seq<char> {
    if code == BACKSPACE {
        if text.len() > 0 {
            text.drop_last()
        } else {
            text
        }
    } else if code == TAB {
        text + four_spaces()
    } else if is_scalar(code) {
        text.push(char_of(code))
    } else {
        text
    }
}

/// The state after one character message.
pub open spec fn char_step(m: EditorModel, code: u32) -> EditorModel {
    if m.pending is Some && is_low_surrogate(code) {
        EditorModel {
            text: m.text.push(char_of(combine_surrogates(m.pending->0, code))),
            pending: None,
            ..m
        }
    } else if is_high_surrogate(code) {
        EditorModel { pending: Some(code as u16), ..m }
    } else {
        EditorModel { text: apply_code(m.text, code), pending: None, ..m }
    }
}

/// The state after one event.
pub open spec fn step(m: EditorModel, e: Event) -> EditorModel {
    match e {
        Event::LeftButtonDown => EditorModel { clicks: ((m.clicks + 1) % 256) as u8, ..m },
        Event::Char(code) => char_step(m, code),
        _ => m,
    }
}

/// The state after a sequence of events, handled in order.
pub open spec fn step_all(m: EditorModel, events: Seq<Event>) -> EditorModel
    decreases events.len(),
{
    if events.len() == 0 {
        m
    } else {
        step(step_all(m, events.drop_last()), events.last())
    }
}

/// What the window procedure does for an event.
pub open spec fn reply_for(e: Event) -> Reply {
    match e {
        Event::Close => Reply::Quit,
        Event::DpiChanged => Reply::Handled,
        Event::LeftButtonDown => Reply::Redraw,
        Event::Char(_) => Reply::Redraw,
        Event::Paint => Reply::Paint,
        Event::GetMinMaxInfo => Reply::MinTrackSize {
            width: MIN_TRACK_WIDTH,
            height: MIN_TRACK_HEIGHT,
        },
        Event::Other => Reply::Default,
    }
}

/// Relies on char::from_u32: `Some` exactly for Unicode scalar values, with
/// that value.
#[verifier::external_body]
fn scalar_from_code(code: u32) -> (r: Option<char>)
    ensures
        r is Some <==> is_scalar(code),
        r matches Some(c) ==> c as u32 == code,
{
    char::from_u32(code)
}

impl View for Editor {
    type V = EditorModel;

    closed spec fn view(&self) -> EditorModel {
        EditorModel { clicks: self.clicks, text: self.text@, pending: self.pending }
    }
}

impl Editor {
    /// An editor with no clicks and an empty buffer.
    pub fn new() -> (r: Self)
        ensures
            r@ == (EditorModel { clicks: 0, text: Seq::empty(), pending: None }),
            r@.wf(),
    {
        Editor { clicks: 0, text: Vec::new(), pending: None }
    }

    /// The number of left clicks seen, modulo 256.
    pub fn clicks(&self) -> (r: u8)
        ensures
            r == self@.clicks,
    {
        self.clicks
    }

    /// The characters of the buffer.
    pub fn chars(&self) -> (r: &Vec<char>)
        ensures
            r@ == self@.text,
    {
        &self.text
    }

    fn append_code(&mut self, code: u32)
        ensures
            final(self)@ == (EditorModel { text: apply_code(old(self)@.text, code), ..old(self)@ }),
    {
        if code == BACKSPACE {
            self.text.pop();
            assert(self.text@ =~= apply_code(old(self)@.text, code));
        } else if code == TAB {
            let mut i: usize = 0;
            while i < 4
                invariant
                    i <= 4,
                    self@ == (EditorModel { text: old(self)@.text + four_spaces().take(i as int), ..old(self)@ }),
                decreases 4 - i,
            {
                self.text.push(' ');
                i += 1;
                assert(four_spaces().take(i as int) =~= four_spaces().take(i - 1).push(' '));
                assert(old(self)@.text + four_spaces().take(i as int) =~= (old(self)@.text
                    + four_spaces().take(i - 1)).push(' '));
            }
            assert(four_spaces().take(4) =~= four_spaces());
        } else {
            match scalar_from_code(code) {
                Some(c) => {
                    self.text.push(c);
                    proof { lemma_char_of_code(c); }
                },
                None => {},
            }
        }
    }

    fn handle_char(&mut self, code: u32)
        requires
            old(self)@.wf(),
        ensures
            final(self)@ == char_step(old(self)@, code),
    {
        match self.pending {
            Some(high) if 0xDC00 <= code && code <= 0xDFFF => {
                let full: u32 = 0x10000 + (high as u32 - 0xD800) * 0x400 + (code - 0xDC00);
                let c = scalar_from_code(full);
                assert(c is Some);
                let c = c.unwrap();
                self.text.push(c);
                self.pending = None;
                proof { lemma_char_of_code(c); }
            },
            _ => {
                if 0xD800 <= code && code <= 0xDBFF {
                    self.pending = Some(code as u16);
                } else {
                    self.pending = None;
                    self.append_code(code);
                }
            },
        }
    }

    /// Handles one event: updates the state and says what the window must do.
    pub fn handle(&mut self, e: Event) -> (r: Reply)
        requires
            old(self)@.wf(),
        ensures
            final(self)@.wf(),
            final(self)@ == step(old(self)@, e),
            r == reply_for(e),
    {
        match e {
            Event::Close => Reply::Quit,
            Event::DpiChanged => Reply::Handled,
            Event::LeftButtonDown => {
                self.clicks = self.clicks.wrapping_add(1);
                Reply::Redraw
            },
            Event::Char(code) => {
                self.handle_char(code);
                Reply::Redraw
            },
            Event::Paint => Reply::Paint,
            Event::GetMinMaxInfo => Reply::MinTrackSize {
                width: MIN_TRACK_WIDTH,
                height: MIN_TRACK_HEIGHT,
            },
            Event::Other => Reply::Default,
        }
    }
}

} // verus!
