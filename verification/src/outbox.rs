//! The outbound queue of one connection.
//!
//! Frames wait here until the connection's writer takes them. The queue is
//! bounded: a connection that does not keep up loses its oldest frames, and
//! never holds back the session.

use vstd::prelude::*;
use std::collections::VecDeque;

verus! {

/// The number of frames that a queue holds at most.
pub const OUTBOX_CAPACITY: usize = 256;

/// The queue after `frame` has been added: at the end, with the oldest frame
/// dropped where the queue was full.
pub open spec fn pushed(queue: Seq<Seq<char>>, frame: Seq<char>) -> Seq<Seq<char>> {
    if queue.len() < OUTBOX_CAPACITY {
        queue.push(frame)
    } else {
        queue.skip(queue.len() - OUTBOX_CAPACITY + 1).push(frame)
    }
}

/// The texts of a run of frames.
pub open spec fn texts(frames: Seq<String>) -> Seq<Seq<char>> {
    Seq::new(frames.len(), |i: int| frames[i]@)
}

/// A bounded queue of encoded frames, oldest first.
#[derive(Clone, Debug, PartialEq, Eq)]
pub struct Outbox {
    frames: VecDeque<String>,
}

impl View for Outbox {
    type V = Seq<Seq<char>>;

    closed spec fn view(&self) -> Seq<Seq<char>> {
        texts(self.frames@)
    }
}

impl Outbox {
    /// The queue holds no more than its capacity.
    pub closed spec fn wf(&self) -> bool {
        self.frames@.len() <= OUTBOX_CAPACITY
    }

    /// What `wf` means for the view.
    pub proof fn lemma_bounded(&self)
        requires
            self.wf(),
        ensures
            self@.len() <= OUTBOX_CAPACITY,
    {
    }

    /// An empty queue.
    pub fn new() -> (outbox: Outbox)
        ensures
            outbox.wf(),
            outbox@ == Seq::<Seq<char>>::empty(),
    {
        Outbox { frames: VecDeque::new() }
    }

    /// The number of frames waiting.
    pub fn len(&self) -> (n: usize)
        ensures
            n == self@.len(),
    {
        self.frames.len()
    }

    /// Adds a frame at the end. A full queue drops its oldest frame first.
    pub fn push(&mut self, frame: String)
        requires
            old(self).wf(),
        ensures
            final(self).wf(),
            final(self)@ == pushed(old(self)@, frame@),
    {
        if self.frames.len() >= OUTBOX_CAPACITY {
            self.frames.pop_front();
        }
        self.frames.push_back(frame);
    }

    /// Takes every waiting frame out, oldest first.
    pub fn drain(&mut self) -> (frames: Vec<String>)
        requires
            old(self).wf(),
        ensures
            final(self).wf(),
            final(self)@ == Seq::<Seq<char>>::empty(),
            texts(frames@) == old(self)@,
    {
        let mut frames: Vec<String> = Vec::new();
        while self.frames.len() > 0
            invariant
                self.wf(),
                texts(frames@) + self@ == old(self)@,
            decreases self.frames.len(),
        {
            let frame = self.frames.pop_front().unwrap();
            frames.push(frame);
        }
        frames
    }
}

/// A queue never grows beyond its capacity, and the newest frame is always
/// the last one in it.
pub proof fn law_push_is_bounded(queue: Seq<Seq<char>>, frame: Seq<char>)
    requires
        queue.len() <= OUTBOX_CAPACITY,
    ensures
        pushed(queue, frame).len() <= OUTBOX_CAPACITY,
        pushed(queue, frame).len() == if queue.len() < OUTBOX_CAPACITY {
            queue.len() + 1
        } else {
            queue.len()
        },
        pushed(queue, frame).last() == frame,
        queue.len() < OUTBOX_CAPACITY ==> pushed(queue, frame).drop_last() == queue,
        queue.len() == OUTBOX_CAPACITY ==> pushed(queue, frame).drop_last() == queue.drop_first(),
{
}

} // verus!
