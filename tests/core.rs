use winshim::{
    event, event_blocking, event_peeked, resize_event, wnd_proc, BlockingStep, Event, EventQueue,
    PollAction, Point, ProcAction, Pump, Rect, Registry, Window, MSG, WM_CLOSE, WM_CREATE,
    WM_DESTROY, WM_ERASEBKGND, WM_GETDPISCALEDSIZE, WM_PAINT, WM_SIZE,
};

fn message(code: u32, l_param: isize) -> MSG {
    MSG {
        hwnd: 7,
        message: code,
        w_param: 0,
        l_param,
        time: 0,
        pt: Point { x: 0, y: 0 },
    }
}

#[test]
fn queue_pops_in_push_order() {
    let mut q = EventQueue::new();
    q.push(Event::Resize(1, 2));
    q.push(Event::Dpi(120));
    q.push(Event::Quit);
    assert!(!q.is_empty());
    assert_eq!(q.pop(), Some(Event::Resize(1, 2)));
    assert_eq!(q.pop(), Some(Event::Dpi(120)));
    assert_eq!(q.pop(), Some(Event::Quit));
    assert_eq!(q.pop(), None);
}

#[test]
fn queue_pop_on_empty_yields_none() {
    let mut q = EventQueue::new();
    assert!(q.is_empty());
    assert_eq!(q.pop(), None);
    assert_eq!(q.pop(), None);
    assert!(q.is_empty());
}

#[test]
fn resize_payload_is_split_into_words() {
    assert_eq!(resize_event(0x02580190), Event::Resize(400, 600));
    assert_eq!(resize_event(0), Event::Resize(0, 0));
    assert_eq!(resize_event(-1), Event::Resize(0xffff, 0xffff));
    assert_eq!(resize_event(0x7_0258_0190), Event::Resize(400, 600));
}

#[test]
fn pump_yields_resize_from_size_message() {
    let mut pump = Pump::new();
    assert_eq!(event(&pump), PollAction::Peek);
    pump.msg = message(WM_SIZE, 0x02580190);
    assert_eq!(event_peeked(&pump, 1), PollAction::Finish(Some(Event::Resize(400, 600))));
}

#[test]
fn window_poll_yields_resize_from_size_message() {
    let mut w = Window::new(7);
    let msg = message(WM_SIZE, 0x02580190);
    assert_eq!(w.event_peeked(1, &msg), PollAction::Finish(Some(Event::Resize(400, 600))));
    assert!(w.queue.is_empty());
}

#[test]
fn pump_without_message_or_with_other_message() {
    let mut pump = Pump::new();
    pump.msg = message(WM_SIZE, 0x02580190);
    assert_eq!(event_peeked(&pump, 0), PollAction::Finish(None));
    pump.msg = message(WM_PAINT, 0);
    assert_eq!(event_peeked(&pump, 1), PollAction::Dispatch);
}

#[test]
fn pump_callback_and_quit_flag() {
    let mut pump = Pump::new();
    assert_eq!(pump.test_proc(WM_CREATE), ProcAction::SetDarkMode);
    assert_eq!(pump.test_proc(WM_ERASEBKGND), ProcAction::Return(1));
    assert_eq!(pump.test_proc(WM_PAINT), ProcAction::ValidateRect);
    assert_eq!(pump.test_proc(WM_SIZE), ProcAction::Default);
    assert!(!pump.quit);
    assert_eq!(event(&pump), PollAction::Peek);
    assert_eq!(pump.test_proc(WM_CLOSE), ProcAction::Return(0));
    assert!(pump.quit);
    assert_eq!(event(&pump), PollAction::Finish(Some(Event::Quit)));
    let mut other = Pump::new();
    assert_eq!(other.test_proc(WM_DESTROY), ProcAction::Return(0));
    assert!(other.quit);
}

#[test]
fn close_then_poll_yields_quit_then_nothing() {
    let mut reg = Registry::new();
    let slot = reg.register(42);
    assert_eq!(wnd_proc(&mut reg, 42, slot, WM_CLOSE, 0), ProcAction::Return(0));
    let w = &mut reg.windows[0];
    let none = message(0, 0);
    assert_eq!(w.event_peeked(0, &none), PollAction::Finish(Some(Event::Quit)));
    assert_eq!(w.event_peeked(0, &none), PollAction::Finish(None));
}

#[test]
fn quit_comes_before_a_resize_seen_in_the_same_poll() {
    let mut reg = Registry::new();
    let slot = reg.register(42);
    assert_eq!(wnd_proc(&mut reg, 42, slot, WM_DESTROY, 0), ProcAction::Return(0));
    let w = &mut reg.windows[0];
    let size = message(WM_SIZE, 0x00200010);
    assert_eq!(w.event_peeked(1, &size), PollAction::Finish(Some(Event::Quit)));
    assert_eq!(w.event(None), Some(Event::Resize(16, 32)));
    assert_eq!(w.event(None), None);
}

#[test]
fn dispatch_path_then_queue_pop() {
    let mut reg = Registry::new();
    let slot = reg.register(5);
    let paint = message(WM_PAINT, 0);
    assert_eq!(reg.windows[0].event_peeked(1, &paint), PollAction::Dispatch);
    assert_eq!(wnd_proc(&mut reg, 5, slot, WM_GETDPISCALEDSIZE, 144), ProcAction::Return(1));
    assert_eq!(reg.windows[0].event(None), Some(Event::Dpi(144)));
}

#[test]
fn empty_slot_goes_to_default_handling() {
    let mut reg = Registry::new();
    let slot = reg.register(9);
    for code in [WM_CLOSE, WM_DESTROY, WM_GETDPISCALEDSIZE, WM_PAINT, WM_SIZE] {
        assert_eq!(wnd_proc(&mut reg, 9, 0, code, 96), ProcAction::Default);
        assert_eq!(wnd_proc(&mut reg, 9, -3, code, 96), ProcAction::Default);
        assert_eq!(wnd_proc(&mut reg, 9, slot + 1, code, 96), ProcAction::Default);
        assert_eq!(wnd_proc(&mut reg, 10, slot, code, 96), ProcAction::Default);
    }
    assert!(reg.windows[0].queue.is_empty());
    assert_eq!(wnd_proc(&mut reg, 9, 0, WM_CREATE, 0), ProcAction::SetDarkMode);
    assert_eq!(wnd_proc(&mut reg, 9, slot, WM_PAINT, 0), ProcAction::Default);
    assert!(reg.windows[0].queue.is_empty());
}

#[test]
fn blocking_results() {
    assert_eq!(event_blocking(0), BlockingStep::Quit);
    assert_eq!(event_blocking(-1), BlockingStep::Fail);
    assert_eq!(event_blocking(1), BlockingStep::Dispatch);
    assert_eq!(event_blocking(-2), BlockingStep::Dispatch);
    assert_eq!(event_blocking(i32::MAX), BlockingStep::Dispatch);
}

#[test]
fn three_windows_count_three() {
    let mut reg = Registry::new();
    assert_eq!(reg.register(11), 1);
    assert_eq!(reg.register(12), 2);
    assert_eq!(reg.register(13), 3);
    assert_eq!(reg.count, 3);
    assert_eq!(reg.windows.len(), 3);
    assert_eq!(reg.find(12, 2), Some(1));
    assert_eq!(reg.find(12, 3), None);
}

#[test]
fn window_event_joins_direct_event_behind_queued_ones() {
    let mut w = Window::new(3);
    assert_eq!(w.hwnd, 3);
    assert_eq!(w.screen_mouse_pos, (0, 0));
    assert_eq!(w.event(Some(Event::Resize(5, 6))), Some(Event::Resize(5, 6)));
    w.queue.push(Event::Dpi(96));
    assert_eq!(w.event(Some(Event::Quit)), Some(Event::Dpi(96)));
    assert_eq!(w.event(None), Some(Event::Quit));
    assert_eq!(w.event(None), None);
}

#[test]
fn rect_width_and_height_from_edges() {
    let r = Rect { left: -8, top: -31, right: 1288, bottom: 991 };
    assert_eq!(r.width(), 1296);
    assert_eq!(r.height(), 1022);
    let z = Rect { left: 0, top: 0, right: 800, bottom: 600 };
    assert_eq!(z.width(), 800);
    assert_eq!(z.height(), 600);
}
