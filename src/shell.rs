//! The window's fixed parameters and the decisions of its message loop.
use vstd::prelude::*;

verus! {

/// Name under which the window class is registered.
pub const CLASS_NAME: &'static str = "class-name";

/// Title of the window.
pub const WINDOW_TITLE: &'static str = "The window";

/// Initial size of the window, in pixels.
pub const WINDOW_WIDTH: i32 = 500;

pub const WINDOW_HEIGHT: i32 = 300;

/// How many of the first dispatched messages are followed by a forced
/// repaint, since the platform may not deliver the first paint by itself.
pub const FORCED_REPAINTS: u8 = 2;

/// What the loop does with the result of one blocking message retrieval.
#[derive(Debug, PartialEq, Eq, Structural)]
pub enum LoopStep {
    /// Stop and end the process with this code: 0 on quit, negative on error.
    Exit(i32),
    /// Translate and dispatch the message; then, if asked, invalidate the
    /// whole window.
    Dispatch { force_repaint: bool },
}

/// The state of the message loop: how many forced repaints are left.
pub struct MessagePump {
    repaints_left: u8,
}

impl MessagePump {
    /// The number of forced repaints still to come.
    pub closed spec fn repaints_left(&self) -> u8 {
        self.repaints_left
    }

    /// A loop that has not yet retrieved any message.
    pub fn new() -> (r: Self)
        ensures
            r.repaints_left() == FORCED_REPAINTS,
    {
        MessagePump { repaints_left: FORCED_REPAINTS }
    }

    /// Decides what to do with a retrieval result: a result that is not
    /// positive ends the loop with that code; any other is a message to
    /// dispatch, followed by a forced repaint while some are left.
    pub fn next(&mut self, result: i32) -> (r: LoopStep)
        ensures
            result <= 0 ==> r == LoopStep::Exit(result) && final(self).repaints_left()
                == old(self).repaints_left(),
            result > 0 ==> r == (LoopStep::Dispatch { force_repaint: old(self).repaints_left() > 0 }),
            result > 0 && old(self).repaints_left() > 0 ==> final(self).repaints_left()
                == old(self).repaints_left() - 1,
            result > 0 && old(self).repaints_left() == 0 ==> final(self).repaints_left() == 0,
    {
        if result <= 0 {
            return LoopStep::Exit(result);
        }
        let force_repaint = self.repaints_left > 0;
        if force_repaint {
            self.repaints_left = self.repaints_left - 1;
        }
        LoopStep::Dispatch { force_repaint }
    }
}

} // verus!
