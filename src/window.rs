//! Windows, the registry that lets a native callback find the window that
//! owns a handle, and the callback adapter itself.
use vstd::prelude::*;
use crate::constants::{WM_CLOSE, WM_CREATE, WM_DESTROY, WM_GETDPISCALEDSIZE, WM_SIZE};
use crate::event::{resize_event, Event};
use crate::geometry::MSG;
use crate::poll::PollAction;
use crate::queue::{pop_model, pop_n, push_model, EventQueue};

verus! {

/// What the native callback must do once the library has handled a
/// notification.
#[derive(Debug, Clone, Copy, PartialEq, Eq, Structural)]
pub enum ProcAction {
    /// Return this value to the platform.
    Return(isize),
    /// Make the best-effort cosmetic dark-mode call, then return 0.
    SetDarkMode,
    /// Validate the whole client area, then return 0.
    ValidateRect,
    /// Return what the platform's default handling returns.
    Default,
}

/// A top-level window: its native handle, the last known pointer position
/// and the queue of events not yet polled.
pub struct Window {
    pub hwnd: isize,
    pub screen_mouse_pos: (i32, i32),
    pub queue: EventQueue,
}

/// One non-blocking poll of a window: the directly observed event, if any,
/// joins the queue, then the oldest event leaves it.
pub open spec fn event_model(items: Seq<Event>, direct: Option<Event>) -> (Option<Event>, Seq<Event>) {
    match direct {
        Some(e) => pop_model(push_model(items, e)),
        None => pop_model(items),
    }
}

/// The event a retrieved message yields directly, without the queue: a
/// size change, when a message was retrieved at all.
pub open spec fn direct_event(peek_result: i32, msg: MSG) -> Option<Event> {
    if peek_result != 0 && msg.message == WM_SIZE {
        Some(Event::Resize(crate::event::low_word(msg.l_param as u32), crate::event::high_word(msg.l_param as u32)))
    } else {
        None
    }
}

/// Whether a retrieved message must go through translate and dispatch.
pub open spec fn needs_dispatch(peek_result: i32, msg: MSG) -> bool {
    peek_result != 0 && msg.message != WM_SIZE
}

impl Window {
    /// A window for a freshly created handle, with an empty queue.
    pub fn new(hwnd: isize) -> (r: Window)
        ensures
            r.hwnd == hwnd,
            r.screen_mouse_pos == (0i32, 0i32),
            r.queue@ == Seq::<Event>::empty(),
    {
        Window { hwnd, screen_mouse_pos: (0, 0), queue: EventQueue::new() }
    }

    /// Joins a directly observed event to the queue, then pops the oldest.
    pub fn event(&mut self, direct: Option<Event>) -> (r: Option<Event>)
        ensures
            (r, final(self).queue@) == event_model(old(self).queue@, direct),
            final(self).hwnd == old(self).hwnd,
            final(self).screen_mouse_pos == old(self).screen_mouse_pos,
    {
        match direct {
            Some(e) => self.queue.push(e),
            None => {},
        }
        self.queue.pop()
    }

    /// The step of a non-blocking poll after one message retrieval, with its
    /// result and the buffer it filled: a size change or no message finishes
    /// the poll through the queue; any other message must be dispatched
    /// first, after which `event(None)` finishes it.
    pub fn event_peeked(&mut self, peek_result: i32, msg: &MSG) -> (r: PollAction)
        ensures
            needs_dispatch(peek_result, *msg) ==> r == PollAction::Dispatch && *final(self)
                == *old(self),
            !needs_dispatch(peek_result, *msg) ==> r == PollAction::Finish(
                event_model(old(self).queue@, direct_event(peek_result, *msg)).0,
            ) && final(self).queue@ == event_model(
                old(self).queue@,
                direct_event(peek_result, *msg),
            ).1 && final(self).hwnd == old(self).hwnd && final(self).screen_mouse_pos == old(
                self,
            ).screen_mouse_pos,
    {
        if peek_result == 0 {
            PollAction::Finish(self.event(None))
        } else if msg.message == WM_SIZE {
            let e = resize_event(msg.l_param);
            PollAction::Finish(self.event(Some(e)))
        } else {
            PollAction::Dispatch
        }
    }
}

/// The windows of a process, each in a slot that never moves, and the count
/// of windows ever created. A window's per-window user-data slot holds its
/// position here plus one, so that zero means "not yet registered".
pub struct Registry {
    pub windows: Vec<Window>,
    pub count: u64,
}

impl Registry {
    /// The queue contents of each window.
    pub open spec fn queues(&self) -> Seq<Seq<Event>> {
        Seq::new(self.windows@.len(), |i: int| self.windows@[i].queue@)
    }

    /// The window a callback addresses, given the handle it received and
    /// the value read from that handle's user-data slot.
    pub open spec fn lookup(&self, hwnd: isize, user_data: isize) -> Option<int> {
        if 1 <= user_data <= self.windows@.len() && self.windows@[user_data - 1].hwnd == hwnd {
            Some(user_data - 1)
        } else {
            None
        }
    }

    /// How `new` relates to `old` after registering `hwnd` under `user_data`.
    pub open spec fn registered(old: Registry, new: Registry, hwnd: isize, user_data: isize) -> bool {
        &&& new.count == old.count + 1
        &&& new.windows@.len() == old.windows@.len() + 1
        &&& new.windows@.drop_last() == old.windows@
        &&& new.windows@.last().hwnd == hwnd
        &&& new.windows@.last().screen_mouse_pos == (0i32, 0i32)
        &&& new.windows@.last().queue@ == Seq::<Event>::empty()
        &&& user_data == new.windows@.len()
        &&& new.lookup(hwnd, user_data) == Some(old.windows@.len() as int)
    }

    pub fn new() -> (r: Registry)
        ensures
            r.windows@.len() == 0,
            r.count == 0,
    {
        Registry { windows: Vec::new(), count: 0 }
    }

    /// Registers the window of a freshly created handle and counts it. The
    /// result is the value to store in the handle's user-data slot.
    pub fn register(&mut self, hwnd: isize) -> (user_data: isize)
        requires
            old(self).count < u64::MAX,
            old(self).windows@.len() < isize::MAX,
        ensures
            Registry::registered(*old(self), *final(self), hwnd, user_data),
    {
        self.windows.push(Window::new(hwnd));
        self.count = self.count + 1;
        assert(self.windows@.drop_last() =~= old(self).windows@);
        self.windows.len() as isize
    }

    /// Finds the window a callback addresses, without trusting `user_data`.
    pub fn find(&self, hwnd: isize, user_data: isize) -> (r: Option<usize>)
        ensures
            match self.lookup(hwnd, user_data) {
                Some(i) => r == Some(i as usize),
                None => r is None,
            },
    {
        if 1 <= user_data && user_data as usize <= self.windows.len() {
            let i: usize = (user_data - 1) as usize;
            if self.windows[i].hwnd == hwnd {
                return Some(i);
            }
        }
        None
    }
}

/// The callback adapter's decision for one notification: the action and the
/// queue contents afterwards. Creation never depends on the registry.
pub open spec fn proc_model(queues: Seq<Seq<Event>>, found: Option<int>, msg: u32, wparam: usize) -> (ProcAction, Seq<Seq<Event>>) {
    if msg == WM_CREATE {
        (ProcAction::SetDarkMode, queues)
    } else {
        match found {
            None => (ProcAction::Default, queues),
            Some(i) => if msg == WM_DESTROY || msg == WM_CLOSE {
                (ProcAction::Return(0), queues.update(i, push_model(queues[i], Event::Quit)))
            } else if msg == WM_GETDPISCALEDSIZE {
                (ProcAction::Return(1), queues.update(i, push_model(queues[i], Event::Dpi(wparam))))
            } else {
                (ProcAction::Default, queues)
            },
        }
    }
}

/// The native callback's logic: `hwnd` and `user_data` identify the window
/// (see `Registry::lookup`); close and destroy queue `Quit`, the DPI-scaled
/// size query queues the proposed DPI; everything else on an unregistered
/// handle, and every other notification, goes to default handling.
pub fn wnd_proc(registry: &mut Registry, hwnd: isize, user_data: isize, msg: u32, wparam: usize) -> (r: ProcAction)
    ensures
        (r, final(registry).queues()) == proc_model(
            old(registry).queues(),
            old(registry).lookup(hwnd, user_data),
            msg,
            wparam,
        ),
        final(registry).count == old(registry).count,
        final(registry).windows@.len() == old(registry).windows@.len(),
        forall|j: int|
            0 <= j < old(registry).windows@.len() ==> #[trigger] final(registry).windows@[j].hwnd
                == old(registry).windows@[j].hwnd && final(registry).windows@[j].screen_mouse_pos
                == old(registry).windows@[j].screen_mouse_pos,
        msg != WM_CREATE && old(registry).lookup(hwnd, user_data) is None ==> r
            == ProcAction::Default && *final(registry) == *old(registry),
{
    if msg == WM_CREATE {
        return ProcAction::SetDarkMode;
    }
    let found = registry.find(hwnd, user_data);
    match found {
        None => ProcAction::Default,
        Some(i) => {
            let ghost q0 = registry.queues();
            if msg == WM_DESTROY || msg == WM_CLOSE {
                registry.windows[i].queue.push(Event::Quit);
                assert(registry.queues() =~= q0.update(i as int, push_model(q0[i as int], Event::Quit)));
                ProcAction::Return(0)
            } else if msg == WM_GETDPISCALEDSIZE {
                registry.windows[i].queue.push(Event::Dpi(wparam));
                assert(registry.queues() =~= q0.update(i as int, push_model(q0[i as int], Event::Dpi(wparam))));
                ProcAction::Return(1)
            } else {
                ProcAction::Default
            }
        },
    }
}

} // verus!

verus! {

/// After a close notification reaches the adapter for a registered window,
/// polling with no new messages returns the events queued before it, then
/// `Quit`, then nothing; and if nothing was queued before, the very next
/// poll yields `Quit` whatever message it retrieves.
pub proof fn lemma_close_then_poll(queues: Seq<Seq<Event>>, i: int, wparam: usize)
    requires
        0 <= i < queues.len(),
    ensures
        ({
            let (a, after) = proc_model(queues, Some(i), WM_CLOSE, wparam);
            let k = queues[i].len();
            &&& a == ProcAction::Return(0)
            &&& pop_n(after[i], k + 2) == Seq::new(k, |j: int| Some(queues[i][j])) + seq![
                Some(Event::Quit),
                None::<Event>,
            ]
            &&& k == 0 ==> forall|d: Option<Event>| #[trigger]
                event_model(after[i], d).0 == Some(Event::Quit)
        }),
{
    let (a, after) = proc_model(queues, Some(i), WM_CLOSE, wparam);
    let s = after[i];
    let k = queues[i].len();
    assert(s == queues[i].push(Event::Quit));
    lemma_pop_n_push(queues[i], Event::Quit);
    assert forall|d: Option<Event>| k == 0 implies #[trigger] event_model(s, d).0 == Some(
        Event::Quit,
    ) by {
        assert(s[0] == Event::Quit);
        match d {
            Some(e) => assert(push_model(s, e)[0] == Event::Quit),
            None => {},
        }
    }
}

proof fn lemma_pop_n_push(items: Seq<Event>, e: Event)
    ensures
        pop_n(items.push(e), items.len() + 2) == Seq::new(items.len(), |j: int| Some(items[j]))
            + seq![Some(e), None::<Event>],
    decreases items.len(),
{
    let s = items.push(e);
    if items.len() == 0 {
        assert(s.drop_first() =~= Seq::<Event>::empty());
        assert(pop_n(s.drop_first(), 1) == seq![None::<Event>] + pop_n(Seq::<Event>::empty(), 0));
        assert(pop_n(s, 2) =~= seq![Some(e), None::<Event>]);
        assert(Seq::new(0, |j: int| Some(items[j])) + seq![Some(e), None::<Event>] =~= seq![Some(e), None::<Event>]);
    } else {
        let rest = items.drop_first();
        assert(s.drop_first() =~= rest.push(e));
        lemma_pop_n_push(rest, e);
        assert(pop_n(s, items.len() + 2) =~= Seq::new(items.len(), |j: int| Some(items[j]))
            + seq![Some(e), None::<Event>]);
    }
}

/// Every registration counts exactly one window: three in a row raise the
/// live-window counter by exactly three.
pub proof fn lemma_three_registrations(
    r0: Registry,
    r1: Registry,
    r2: Registry,
    r3: Registry,
    h1: isize,
    h2: isize,
    h3: isize,
    u1: isize,
    u2: isize,
    u3: isize,
)
    requires
        Registry::registered(r0, r1, h1, u1),
        Registry::registered(r1, r2, h2, u2),
        Registry::registered(r2, r3, h3, u3),
    ensures
        r3.count == r0.count + 3,
        r3.windows@.len() == r0.windows@.len() + 3,
{
}

} // verus!
