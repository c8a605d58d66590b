//! A small windowing shim: the event-bridging core of a native top-level
//! window, verified. Platform calls are made by the surrounding program; the
//! library decides what each notification and each retrieval result means.
use vstd::prelude::*;

pub mod constants;
pub mod event;
pub mod geometry;
pub mod poll;
pub mod queue;
pub mod window;

pub use constants::{
    GWLP_USERDATA, PM_REMOVE, WM_CLOSE, WM_CREATE, WM_DESTROY, WM_ERASEBKGND, WM_GETDPISCALEDSIZE,
    WM_PAINT, WM_SIZE,
};
pub use event::{high_word, low_word, resize_event, Event};
pub use geometry::{abs_spec, Point, Rect, WindowInfo, MSG};

pub use poll::{event, event_blocking, event_peeked, BlockingStep, PollAction, Pump};
pub use queue::{lemma_fifo, lemma_pop_empty, pop_model, pop_n, push_all, push_model, EventQueue};
pub use window::{
    direct_event, event_model, lemma_close_then_poll, lemma_three_registrations, needs_dispatch,
    proc_model, wnd_proc, ProcAction, Registry, Window,
};

verus! {

} // verus!
