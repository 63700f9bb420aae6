//! The discrete-event scheduler: a min-priority queue keyed on
//! `(time, priority)`.
//!
//! Events are drained in ascending time; equal-time events in ascending
//! priority, and among fully equal keys the one pushed first leaves first.
//! This fixed order is the sole timekeeping mechanism of an encounter and is
//! what makes a seeded playout reproducible.

use vstd::prelude::*;

verus! {

/// What a scheduled event does when it fires.
#[derive(Clone, Copy, PartialEq, Eq, Structural, Debug)]
pub enum Action {
    HunterAttack,
    EnemyAttack,
    EnemySpecial,
    Regen,
}

/// One scheduled action.  `time` is in micro-seconds; lower `priority` fires
/// first among equal times.
#[derive(Clone, Copy, PartialEq, Eq, Structural, Debug)]
pub struct Event {
    pub time: u64,
    pub priority: u8,
    pub action: Action,
}

/// The queue key order: ascending time, then ascending priority.
pub open spec fn key_le(a: Event, b: Event) -> bool {
    a.time < b.time || (a.time == b.time && a.priority <= b.priority)
}

/// `i` indexes the event that `pop` must return: minimal under `key_le`, and
/// the earliest-pushed among the minimal ones.
pub open spec fn is_first_min(s: Seq<Event>, i: int) -> bool {
    &&& 0 <= i < s.len()
    &&& forall|j: int| 0 <= j < s.len() ==> key_le(s[i], #[trigger] s[j])
    &&& forall|j: int| 0 <= j < i ==> !key_le(#[trigger] s[j], s[i])
}

/// A time-ordered queue of future actions for one encounter.
pub struct EventQueue {
    events: Vec<Event>,
}

impl View for EventQueue {
    type V = Seq<Event>;

    closed spec fn view(&self) -> Seq<Event> {
        self.events@
    }
}

impl EventQueue {
    pub fn new() -> (q: EventQueue)
        ensures
            q@ =~= Seq::<Event>::empty(),
    {
        EventQueue { events: Vec::new() }
    }

    pub fn clear(&mut self)
        ensures
            final(self)@ =~= Seq::<Event>::empty(),
    {
        self.events.clear();
    }

    pub fn len(&self) -> (n: usize)
        ensures
            n == self@.len(),
    {
        self.events.len()
    }

    pub fn push(&mut self, e: Event)
        requires
            old(self)@.len() < usize::MAX,
        ensures
            final(self)@ == old(self)@.push(e),
    {
        self.events.push(e);
    }

    /// Remove and return the next event: `None` exactly when the queue is
    /// empty, otherwise the first minimal event under `(time, priority)`.
    pub fn pop(&mut self) -> (r: Option<Event>)
        ensures
            old(self)@.len() == 0 ==> r is None && final(self)@ == old(self)@,
            old(self)@.len() > 0 ==> (exists|i: int|
                {
                    &&& is_first_min(old(self)@, i)
                    &&& r == Some(old(self)@[i])
                    &&& final(self)@ == old(self)@.remove(i)
                }),
    {
        if self.events.len() == 0 {
            return None;
        }
        let ghost s = self.events@;
        let mut best: usize = 0;
        let mut k: usize = 1;
        while k < self.events.len()
            invariant
                self@ == s,
                s.len() > 0,
                0 <= best < k <= s.len(),
                forall|j: int| 0 <= j < k ==> key_le(s[best as int], #[trigger] s[j]),
                forall|j: int| 0 <= j < best ==> !key_le(#[trigger] s[j], s[best as int]),
            decreases s.len() - k,
        {
            let cand = self.events[k];
            let cur = self.events[best];
            if cand.time < cur.time || (cand.time == cur.time && cand.priority < cur.priority) {
                best = k;
            }
            k = k + 1;
        }
        assert(is_first_min(s, best as int));
        let e = self.events.remove(best);
        Some(e)
    }
}

} // verus!
