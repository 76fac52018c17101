//! Pairing of microphone and speaker blocks into frames.
//!
//! Each side has a bounded queue. A frame takes the oldest block of each
//! side; where one side has nothing queued, silence of the other side's
//! length stands in for it.

use std::collections::VecDeque;
use vstd::prelude::*;
use crate::audio::block::{silence, silence_of};

verus! {

/// Most blocks one side may hold; a push beyond it drops the oldest.
pub const QUEUE_CAPACITY: usize = 10;

/// The contents of a queue of blocks.
pub open spec fn blocks_view<T>(q: Seq<Vec<T>>) -> Seq<Seq<T>> {
    q.map_values(|b: Vec<T>| b@)
}

/// A queue after `block` has been pushed: the oldest block leaves when the
/// queue would otherwise exceed its capacity.
pub open spec fn pushed<T>(q: Seq<Seq<T>>, block: Seq<T>) -> Seq<Seq<T>> {
    if q.len() + 1 > QUEUE_CAPACITY {
        q.push(block).drop_first()
    } else {
        q.push(block)
    }
}

/// The frame that two queues yield, if any.
pub open spec fn front_pair<T>(mic: Seq<Seq<T>>, spk: Seq<Seq<T>>, zero: T) -> Option<
    (Seq<T>, Seq<T>),
> {
    if mic.len() == 0 && spk.len() == 0 {
        None
    } else if mic.len() == 0 {
        Some((silence_of(spk[0].len(), zero), spk[0]))
    } else if spk.len() == 0 {
        Some((mic[0], silence_of(mic[0].len(), zero)))
    } else {
        Some((mic[0], spk[0]))
    }
}

/// A queue without its oldest block, if it has one.
pub open spec fn rest<T>(q: Seq<Seq<T>>) -> Seq<Seq<T>> {
    if q.len() == 0 {
        q
    } else {
        q.drop_first()
    }
}

/// Pushes onto one side's queue, dropping the oldest block on overflow.
/// Returns whether a block was dropped.
fn push_bounded<T>(queue: &mut VecDeque<Vec<T>>, data: Vec<T>) -> (dropped: bool)
    requires
        old(queue)@.len() <= QUEUE_CAPACITY,
    ensures
        blocks_view(final(queue)@) == pushed(blocks_view(old(queue)@), data@),
        final(queue)@.len() <= QUEUE_CAPACITY,
        dropped == (old(queue)@.len() + 1 > QUEUE_CAPACITY),
{
    let ghost before = blocks_view(queue@);
    queue.push_back(data);
    assert(blocks_view(queue@) =~= before.push(data@));
    if queue.len() > QUEUE_CAPACITY {
        queue.pop_front();
        assert(blocks_view(queue@) =~= before.push(data@).drop_first());
        true
    } else {
        false
    }
}

/// Takes the oldest block of a queue that is not empty.
fn pop_block<T>(queue: &mut VecDeque<Vec<T>>) -> (block: Vec<T>)
    requires
        old(queue)@.len() > 0,
    ensures
        block@ == blocks_view(old(queue)@)[0],
        blocks_view(final(queue)@) == blocks_view(old(queue)@).drop_first(),
        final(queue)@.len() == old(queue)@.len() - 1,
{
    let ghost before = blocks_view(queue@);
    let block = match queue.pop_front() {
        Some(b) => b,
        None => Vec::new(),
    };
    assert(blocks_view(queue@) =~= before.drop_first());
    block
}

/// The two bounded queues.
pub struct Joiner<T> {
    mic: VecDeque<Vec<T>>,
    spk: VecDeque<Vec<T>>,
}

impl<T> Joiner<T> {
    /// The queued microphone blocks, oldest first.
    pub closed spec fn mic(self) -> Seq<Seq<T>> {
        blocks_view(self.mic@)
    }

    /// The queued speaker blocks, oldest first.
    pub closed spec fn spk(self) -> Seq<Seq<T>> {
        blocks_view(self.spk@)
    }

    /// Neither side holds more than its capacity.
    pub open spec fn wf(self) -> bool {
        self.mic().len() <= QUEUE_CAPACITY && self.spk().len() <= QUEUE_CAPACITY
    }
}

impl<T: Copy> Joiner<T> {
    /// A joiner with nothing queued.
    pub fn new() -> (out: Self)
        ensures
            out.wf(),
            out.mic() == Seq::<Seq<T>>::empty(),
            out.spk() == Seq::<Seq<T>>::empty(),
    {
        let out = Joiner { mic: VecDeque::new(), spk: VecDeque::new() };
        assert(out.mic() =~= Seq::<Seq<T>>::empty());
        assert(out.spk() =~= Seq::<Seq<T>>::empty());
        out
    }

    /// Number of microphone blocks queued.
    pub fn mic_len(&self) -> (n: usize)
        ensures
            n == self.mic().len(),
    {
        self.mic.len()
    }

    /// Number of speaker blocks queued.
    pub fn spk_len(&self) -> (n: usize)
        ensures
            n == self.spk().len(),
    {
        self.spk.len()
    }

    /// Queues a microphone block. Returns whether the oldest one was dropped
    /// to make room.
    pub fn push_mic(&mut self, data: Vec<T>) -> (dropped: bool)
        requires
            old(self).wf(),
        ensures
            final(self).wf(),
            final(self).mic() == pushed(old(self).mic(), data@),
            final(self).spk() == old(self).spk(),
            dropped == (old(self).mic().len() + 1 > QUEUE_CAPACITY),
    {
        push_bounded(&mut self.mic, data)
    }

    /// Queues a speaker block. Returns whether the oldest one was dropped to
    /// make room.
    pub fn push_spk(&mut self, data: Vec<T>) -> (dropped: bool)
        requires
            old(self).wf(),
        ensures
            final(self).wf(),
            final(self).spk() == pushed(old(self).spk(), data@),
            final(self).mic() == old(self).mic(),
            dropped == (old(self).spk().len() + 1 > QUEUE_CAPACITY),
    {
        push_bounded(&mut self.spk, data)
    }

    /// Takes the next frame: the oldest block of each side, with silence of
    /// equal length for a side that has nothing queued; nothing when both
    /// sides are empty.
    pub fn pop_pair(&mut self, zero: T) -> (pair: Option<(Vec<T>, Vec<T>)>)
        requires
            old(self).wf(),
        ensures
            final(self).wf(),
            match pair {
                Some((m, s)) => front_pair(old(self).mic(), old(self).spk(), zero) == Some(
                    (m@, s@),
                ),
                None => front_pair(old(self).mic(), old(self).spk(), zero) is None,
            },
            final(self).mic() == rest(old(self).mic()),
            final(self).spk() == rest(old(self).spk()),
    {
        let mic_empty = self.mic.len() == 0;
        let spk_empty = self.spk.len() == 0;
        if mic_empty && spk_empty {
            None
        } else if mic_empty {
            let spk = pop_block(&mut self.spk);
            let mic = silence(spk.len(), zero);
            Some((mic, spk))
        } else if spk_empty {
            let mic = pop_block(&mut self.mic);
            let spk = silence(mic.len(), zero);
            Some((mic, spk))
        } else {
            let mic = pop_block(&mut self.mic);
            let spk = pop_block(&mut self.spk);
            Some((mic, spk))
        }
    }
}

/// A frame has as many samples on one side as on the other, unless both
/// sides had a block queued and the two differ in length.
pub proof fn law_frames_are_paired<T>(mic: Seq<Seq<T>>, spk: Seq<Seq<T>>, zero: T)
    requires
        mic.len() > 0 && spk.len() > 0 ==> mic[0].len() == spk[0].len(),
    ensures
        match front_pair(mic, spk, zero) {
            Some((m, s)) => m.len() == s.len(),
            None => mic.len() == 0 && spk.len() == 0,
        },
{
}

/// Neither queue ever holds more than its capacity.
pub proof fn law_queue_bounded<T>(q: Seq<Seq<T>>, block: Seq<T>)
    requires
        q.len() <= QUEUE_CAPACITY,
    ensures
        pushed(q, block).len() <= QUEUE_CAPACITY,
        pushed(q, block).last() == block,
{
}

} // verus!
