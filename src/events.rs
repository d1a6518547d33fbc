use vstd::prelude::*;
use crate::keyboard::WaylandKeyState;
use crate::pointer::MouseButton;

verus! {

/// One normalized event produced by a listener callback. Pointer
/// coordinates are 24.8 fixed-point values; scroll deltas are -1, 0 or 1.
#[derive(Clone, Debug)]
pub enum WaylandEvent {
    KeyboardLeave,
    KeyboardKey { key: u32, state: WaylandKeyState },
    PointerMotion(i32, i32),
    PointerButton(MouseButton, bool),
    PointerAxis(i32, i32),
    FilesDropped(String),
}

/// Events waiting for the next drain, oldest first.
pub struct EventQueue {
    pub events: Vec<WaylandEvent>,
}

/// `count` repeat events for `key`.
pub open spec fn repeats_of(key: u32, count: nat) -> Seq<WaylandEvent> {
    Seq::new(count, |i: int| WaylandEvent::KeyboardKey { key, state: WaylandKeyState::Repeat })
}

/// The queue contents after pushing each of `es` in turn onto `q`.
pub open spec fn push_all(q: Seq<WaylandEvent>, es: Seq<WaylandEvent>) -> Seq<WaylandEvent>
    decreases es.len(),
{
    if es.len() == 0 {
        q
    } else {
        push_all(q, es.drop_last()).push(es.last())
    }
}

/// Events pushed one by one, by any callbacks, come out of the queue in the
/// order they were pushed, after those already queued: no reordering.
pub proof fn lemma_queue_fifo(q: Seq<WaylandEvent>, es: Seq<WaylandEvent>)
    ensures
        push_all(q, es) == q + es,
    decreases es.len(),
{
    if es.len() > 0 {
        lemma_queue_fifo(q, es.drop_last());
        assert(q + es =~= (q + es.drop_last()).push(es.last()));
    } else {
        assert(q + es =~= q);
    }
}

impl View for EventQueue {
    type V = Seq<WaylandEvent>;

    open spec fn view(&self) -> Seq<WaylandEvent> {
        self.events@
    }
}

impl EventQueue {
    pub fn new() -> (r: EventQueue)
        ensures
            r@ == Seq::<WaylandEvent>::empty(),
    {
        EventQueue { events: Vec::new() }
    }

    pub fn len(&self) -> (r: usize)
        ensures
            r == self@.len(),
    {
        self.events.len()
    }

    /// Appends one event behind those already queued.
    pub fn push(&mut self, e: WaylandEvent)
        ensures
            final(self)@ == old(self)@.push(e),
    {
        self.events.push(e);
    }

    /// Appends `count` repeat events for the repeating key, or nothing when
    /// no key repeats (a timer expiry that raced a release).
    pub fn push_repeats(&mut self, repeated_key: Option<u32>, count: u64)
        ensures
            repeated_key matches Some(k) ==> final(self)@ == old(self)@ + repeats_of(k, count as nat),
            repeated_key is None ==> final(self)@ == old(self)@,
    {
        if let Some(key) = repeated_key {
            let mut i: u64 = 0;
            while i < count
                invariant
                    i <= count,
                    self@ == old(self)@ + repeats_of(key, i as nat),
                decreases count - i,
            {
                self.events.push(WaylandEvent::KeyboardKey { key, state: WaylandKeyState::Repeat });
                assert(repeats_of(key, (i + 1) as nat) =~= repeats_of(key, i as nat).push(
                    WaylandEvent::KeyboardKey { key, state: WaylandKeyState::Repeat },
                ));
                i = i + 1;
            }
        }
    }

    /// Takes every queued event out, in the order they were pushed.
    pub fn drain(&mut self) -> (r: Vec<WaylandEvent>)
        ensures
            r@ == old(self)@,
            final(self)@ == Seq::<WaylandEvent>::empty(),
    {
        let mut out: Vec<WaylandEvent> = Vec::new();
        std::mem::swap(&mut out, &mut self.events);
        out
    }
}

} // verus!
