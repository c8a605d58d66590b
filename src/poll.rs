//! The poll drivers' decisions. The surrounding program performs each
//! platform step that a decision names and hands the result back.
use vstd::prelude::*;
use crate::constants::{WM_CLOSE, WM_CREATE, WM_DESTROY, WM_ERASEBKGND, WM_PAINT, WM_SIZE};
use crate::event::{resize_event, Event};
use crate::geometry::{Point, MSG};
use crate::window::{direct_event, needs_dispatch, ProcAction};

verus! {

/// The next step of a non-blocking poll.
#[derive(Debug, Clone, Copy, PartialEq, Eq, Structural)]
pub enum PollAction {
    /// Retrieve and remove at most one pending message, without blocking.
    Peek,
    /// Translate and dispatch the retrieved message.
    Dispatch,
    /// The poll is over, with this result.
    Finish(Option<Event>),
}

/// What a blocking retrieval's result calls for.
#[derive(Debug, Clone, Copy, PartialEq, Eq, Structural)]
pub enum BlockingStep {
    /// The retrieval failed: abort with the platform's error code.
    Fail,
    /// The quit signal reached the thread: yield `Quit`.
    Quit,
    /// Translate and dispatch the message once, and yield no event.
    Dispatch,
}

/// State of the single-window message pump that has no event queue: the
/// one message buffer and the quit flag that its callback raises.
pub struct Pump {
    pub msg: MSG,
    pub quit: bool,
}

impl Pump {
    pub fn new() -> (r: Pump)
        ensures
            r.msg == (MSG {
                hwnd: 0,
                message: 0,
                w_param: 0,
                l_param: 0,
                time: 0,
                pt: Point { x: 0, y: 0 },
            }),
            !r.quit,
    {
        Pump {
            msg: MSG { hwnd: 0, message: 0, w_param: 0, l_param: 0, time: 0, pt: Point { x: 0, y: 0 } },
            quit: false,
        }
    }

    /// The pump's window callback: close and destroy raise the quit flag,
    /// creation asks for dark mode, background erasure is claimed, painting
    /// validates, and everything else goes to default handling.
    pub fn test_proc(&mut self, msg: u32) -> (r: ProcAction)
        ensures
            final(self).msg == old(self).msg,
            final(self).quit == (old(self).quit || msg == WM_DESTROY || msg == WM_CLOSE),
            r == (if msg == WM_DESTROY || msg == WM_CLOSE {
                ProcAction::Return(0)
            } else if msg == WM_CREATE {
                ProcAction::SetDarkMode
            } else if msg == WM_ERASEBKGND {
                ProcAction::Return(1)
            } else if msg == WM_PAINT {
                ProcAction::ValidateRect
            } else {
                ProcAction::Default
            }),
    {
        if msg == WM_DESTROY || msg == WM_CLOSE {
            self.quit = true;
            ProcAction::Return(0)
        } else if msg == WM_CREATE {
            ProcAction::SetDarkMode
        } else if msg == WM_ERASEBKGND {
            ProcAction::Return(1)
        } else if msg == WM_PAINT {
            ProcAction::ValidateRect
        } else {
            ProcAction::Default
        }
    }
}

/// First step of the pump's non-blocking poll: a raised quit flag finishes
/// it with `Quit` before the platform is touched; otherwise peek.
pub fn event(pump: &Pump) -> (r: PollAction)
    ensures
        pump.quit ==> r == PollAction::Finish(Some(Event::Quit)),
        !pump.quit ==> r == PollAction::Peek,
{
    if pump.quit {
        PollAction::Finish(Some(Event::Quit))
    } else {
        PollAction::Peek
    }
}

/// Second step, once the retrieval has filled `pump.msg` and returned
/// `peek_result`: no message yields nothing, a size change yields `Resize`
/// at once, anything else is dispatched and then yields nothing.
pub fn event_peeked(pump: &Pump, peek_result: i32) -> (r: PollAction)
    ensures
        needs_dispatch(peek_result, pump.msg) ==> r == PollAction::Dispatch,
        !needs_dispatch(peek_result, pump.msg) ==> r == PollAction::Finish(
            direct_event(peek_result, pump.msg),
        ),
{
    if peek_result == 0 {
        PollAction::Finish(None)
    } else if pump.msg.message == WM_SIZE {
        PollAction::Finish(Some(resize_event(pump.msg.l_param)))
    } else {
        PollAction::Dispatch
    }
}

/// Interprets the result of a blocking retrieval: -1 is a failure, 0 the
/// quit signal, anything else a message to dispatch.
pub fn event_blocking(get_result: i32) -> (r: BlockingStep)
    ensures
        get_result == -1 ==> r == BlockingStep::Fail,
        get_result == 0 ==> r == BlockingStep::Quit,
        get_result != -1 && get_result != 0 ==> r == BlockingStep::Dispatch,
{
    if get_result == -1 {
        BlockingStep::Fail
    } else if get_result == 0 {
        BlockingStep::Quit
    } else {
        BlockingStep::Dispatch
    }
}

} // verus!
