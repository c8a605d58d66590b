//! The per-window event queue: crossbeam's unbounded segmented queue, seen
//! through the sequence of events it holds.
use vstd::prelude::*;
use crossbeam_queue::SegQueue;
use crate::event::Event;

verus! {

#[verifier::external_type_specification]
#[verifier::external_body]
#[verifier::reject_recursive_types(T)]
pub struct ExSegQueue<T>(crossbeam_queue::SegQueue<T>);

/// The events a queue holds, oldest first.
pub uninterp spec fn seg_queue_items(q: SegQueue<Event>) -> Seq<Event>;

/// Relies on `SegQueue::new`: a new queue holds nothing.
#[verifier::external_body]
fn seg_queue_new() -> (r: SegQueue<Event>)
    ensures
        seg_queue_items(r) == Seq::<Event>::empty(),
{
    SegQueue::new()
}

/// Relies on `SegQueue::push`: with no other access to the queue, the value
/// is appended at the tail.
#[verifier::external_body]
fn seg_queue_push(q: &mut SegQueue<Event>, e: Event)
    ensures
        seg_queue_items(*final(q)) == seg_queue_items(*old(q)).push(e),
{
    q.push(e)
}

/// Relies on `SegQueue::pop`: with no other access to the queue, it removes
/// and returns the head, or returns `None` and leaves an empty queue as it is.
#[verifier::external_body]
fn seg_queue_pop(q: &mut SegQueue<Event>) -> (r: Option<Event>)
    ensures
        seg_queue_items(*old(q)).len() == 0 ==> r is None && seg_queue_items(*final(q))
            == seg_queue_items(*old(q)),
        seg_queue_items(*old(q)).len() > 0 ==> r == Some(seg_queue_items(*old(q))[0])
            && seg_queue_items(*final(q)) == seg_queue_items(*old(q)).drop_first(),
{
    q.pop()
}

/// The contents after a push.
pub open spec fn push_model(items: Seq<Event>, e: Event) -> Seq<Event> {
    items.push(e)
}

/// What a pop returns, and the contents after it.
pub open spec fn pop_model(items: Seq<Event>) -> (Option<Event>, Seq<Event>) {
    if items.len() == 0 {
        (None, items)
    } else {
        (Some(items[0]), items.drop_first())
    }
}

/// Contents after pushing each event of `s` in turn.
pub open spec fn push_all(items: Seq<Event>, s: Seq<Event>) -> Seq<Event>
    decreases s.len(),
{
    if s.len() == 0 {
        items
    } else {
        push_model(push_all(items, s.drop_last()), s.last())
    }
}

/// The values returned by `n` successive pops, in the order they came out.
pub open spec fn pop_n(items: Seq<Event>, n: nat) -> Seq<Option<Event>>
    decreases n,
{
    if n == 0 {
        Seq::empty()
    } else {
        let (r, rest) = pop_model(items);
        seq![r] + pop_n(rest, (n - 1) as nat)
    }
}

/// An unbounded first-in first-out queue of events.
pub struct EventQueue {
    inner: SegQueue<Event>,
}

impl View for EventQueue {
    type V = Seq<Event>;

    closed spec fn view(&self) -> Seq<Event> {
        seg_queue_items(self.inner)
    }
}

impl EventQueue {
    pub fn new() -> (r: EventQueue)
        ensures
            r@ == Seq::<Event>::empty(),
    {
        EventQueue { inner: seg_queue_new() }
    }

    /// Appends an event; always succeeds.
    pub fn push(&mut self, e: Event)
        ensures
            final(self)@ == push_model(old(self)@, e),
    {
        seg_queue_push(&mut self.inner, e)
    }

    /// Removes and returns the oldest event, or `None` when empty.
    pub fn pop(&mut self) -> (r: Option<Event>)
        ensures
            (r, final(self)@) == pop_model(old(self)@),
    {
        seg_queue_pop(&mut self.inner)
    }

    pub fn is_empty(&self) -> (r: bool)
        ensures
            r == (self@.len() == 0),
    {
        seg_queue_is_empty(&self.inner)
    }
}

/// Relies on `SegQueue::is_empty`: with no other access, it tells whether
/// the queue holds no element.
#[verifier::external_body]
fn seg_queue_is_empty(q: &SegQueue<Event>) -> (r: bool)
    ensures
        r == (seg_queue_items(*q).len() == 0),
{
    q.is_empty()
}

proof fn lemma_push_all_append(items: Seq<Event>, s: Seq<Event>)
    ensures
        push_all(items, s) == items + s,
    decreases s.len(),
{
    if s.len() == 0 {
        assert(items + s =~= items);
    } else {
        lemma_push_all_append(items, s.drop_last());
        assert(items + s.drop_last() + seq![s.last()] =~= items + s);
    }
}

proof fn lemma_pop_n_prefix(s: Seq<Event>, n: nat)
    requires
        n <= s.len(),
    ensures
        pop_n(s, n) == Seq::new(n, |i: int| Some(s[i])),
    decreases n,
{
    if n > 0 {
        lemma_pop_n_prefix(s.drop_first(), (n - 1) as nat);
        assert(pop_n(s, n) =~= Seq::new(n, |i: int| Some(s[i])));
    } else {
        assert(pop_n(s, n) =~= Seq::new(n, |i: int| Some(s[i])));
    }
}

/// First in, first out: pushing any sequence of events onto an empty queue
/// and then popping as many times returns exactly those events, in order.
pub proof fn lemma_fifo(s: Seq<Event>)
    ensures
        pop_n(push_all(Seq::empty(), s), s.len()) == Seq::new(s.len(), |i: int| Some(s[i])),
{
    lemma_push_all_append(Seq::empty(), s);
    assert(Seq::<Event>::empty() + s =~= s);
    lemma_pop_n_prefix(s, s.len());
}

/// Popping an empty queue yields nothing and leaves it empty.
pub proof fn lemma_pop_empty(items: Seq<Event>)
    requires
        items.len() == 0,
    ensures
        pop_model(items) == (None::<Event>, Seq::<Event>::empty()),
{
    assert(items =~= Seq::<Event>::empty());
}

} // verus!
