//! The mixed tap's hand-over from the audio callback to the stream.
//!
//! The callback pushes each buffer into a ring and wakes the stream. A
//! buffer of which nothing fits is a drop; too many drops in a row end the
//! stream.

use vstd::prelude::*;

verus! {

/// Samples the ring holds.
pub const RING_CAPACITY: usize = 1024 * 128;

/// Drops in a row that the stream lives through.
pub const MAX_CONSECUTIVE_DROPS: u32 = 10;

/// What callback and stream share.
#[derive(Clone, Copy, Debug, PartialEq, Eq)]
pub struct TapState {
    pub consecutive_drops: u32,
    pub should_terminate: bool,
    pub has_data: bool,
    pub waker_set: bool,
}

/// Whether a push is a drop: there were samples, and none went in.
pub open spec fn is_drop(pushed: usize, len: usize) -> bool {
    len > 0 && pushed == 0
}

/// The state after the callback has pushed `pushed` of `len` samples.
pub open spec fn after_push(st: TapState, pushed: usize, len: usize) -> TapState {
    if is_drop(pushed, len) {
        let drops = if st.consecutive_drops == u32::MAX {
            0u32
        } else {
            (st.consecutive_drops + 1) as u32
        };
        TapState {
            consecutive_drops: drops,
            should_terminate: st.should_terminate || drops > MAX_CONSECUTIVE_DROPS,
            ..st
        }
    } else if pushed > 0 && !st.has_data {
        TapState { consecutive_drops: 0, has_data: true, waker_set: false, ..st }
    } else {
        TapState { consecutive_drops: 0, ..st }
    }
}

/// Whether the callback wakes the stream after the push: something went in,
/// the stream has not been told of data yet, and it left a waker.
pub open spec fn wakes(st: TapState, pushed: usize, len: usize) -> bool {
    !is_drop(pushed, len) && pushed > 0 && !st.has_data && st.waker_set
}

/// Takes note of a push of `pushed` out of `len` samples. Returns whether
/// the stream is to be woken.
pub fn record_push(st: &mut TapState, pushed: usize, len: usize) -> (wake: bool)
    ensures
        *final(st) == after_push(*old(st), pushed, len),
        wake == wakes(*old(st), pushed, len),
{
    if len > 0 && pushed == 0 {
        let drops = if st.consecutive_drops == u32::MAX {
            0
        } else {
            st.consecutive_drops + 1
        };
        st.consecutive_drops = drops;
        if drops > MAX_CONSECUTIVE_DROPS {
            st.should_terminate = true;
        }
        return false;
    }
    st.consecutive_drops = 0;
    if pushed > 0 && !st.has_data {
        let wake = st.waker_set;
        st.has_data = true;
        st.waker_set = false;
        wake
    } else {
        false
    }
}

/// The writing end of a ring: a `ringbuf::HeapProd`. What it holds is not
/// modelled, since the reader takes samples out at any time.
#[verifier::external_body]
#[verifier::reject_recursive_types(T)]
struct RingWriter<T> {
    ring: ringbuf::HeapProd<T>,
}

/// The reading end of a ring: a `ringbuf::HeapCons`. What it holds is not
/// modelled, since the writer puts samples in at any time.
#[verifier::external_body]
#[verifier::reject_recursive_types(T)]
struct RingReader<T> {
    ring: ringbuf::HeapCons<T>,
}

/// `ringbuf::HeapRb::new` and `ringbuf::traits::Split::split`: a ring for
/// `capacity` samples and its two ends. Nothing is claimed of them.
#[verifier::external_body]
fn split_ring<T>(capacity: usize) -> (ends: (RingWriter<T>, RingReader<T>))
    requires
        0 < capacity <= usize::MAX / 2,
{
    let (producer, consumer) = ringbuf::traits::Split::split(ringbuf::HeapRb::<T>::new(capacity));
    (RingWriter { ring: producer }, RingReader { ring: consumer })
}

/// `ringbuf::traits::Producer::push_slice`: copies as many of `data` into
/// the ring as fit and returns their number, which is at most the number
/// offered. How many fit depends on how far the reader has come.
#[verifier::external_body]
fn push_slice<T: Copy>(writer: &mut RingWriter<T>, data: &[T]) -> (pushed: usize)
    ensures
        pushed <= data@.len(),
{
    ringbuf::traits::Producer::push_slice(&mut writer.ring, data)
}

/// `ringbuf::traits::Consumer::try_pop`: takes the oldest sample out of the
/// ring, if there is one. Whether there is one depends on how far the writer
/// has come.
#[verifier::external_body]
fn try_pop<T>(reader: &mut RingReader<T>) -> (sample: Option<T>) {
    ringbuf::traits::Consumer::try_pop(&mut reader.ring)
}

/// The writing end of the tap's ring, which the audio callback holds.
#[verifier::reject_recursive_types(T)]
pub struct TapProducer<T> {
    ring: RingWriter<T>,
    capacity: usize,
}

/// The reading end of the tap's ring, which the stream holds.
#[verifier::reject_recursive_types(T)]
pub struct TapConsumer<T> {
    ring: RingReader<T>,
    capacity: usize,
}

impl<T> TapProducer<T> {
    /// The number of samples the ring was made for.
    pub closed spec fn made_for(self) -> usize {
        self.capacity
    }

    /// The number of samples the ring was made for.
    pub fn capacity(&self) -> (n: usize)
        ensures
            n == self.made_for(),
    {
        self.capacity
    }
}

impl<T> TapConsumer<T> {
    /// The number of samples the ring was made for.
    pub closed spec fn made_for(self) -> usize {
        self.capacity
    }

    /// The number of samples the ring was made for.
    pub fn capacity(&self) -> (n: usize)
        ensures
            n == self.made_for(),
    {
        self.capacity
    }
}

/// The two ends of a new ring that is made for [`RING_CAPACITY`] samples.
pub fn tap_ring<T>() -> (ends: (TapProducer<T>, TapConsumer<T>))
    ensures
        ends.0.made_for() == RING_CAPACITY,
        ends.1.made_for() == RING_CAPACITY,
{
    let (writer, reader) = split_ring(RING_CAPACITY);
    (
        TapProducer { ring: writer, capacity: RING_CAPACITY },
        TapConsumer { ring: reader, capacity: RING_CAPACITY },
    )
}

impl<T: Copy> TapProducer<T> {
    /// Pushes a buffer of the audio callback into the ring and takes note of
    /// how much went in. Returns whether the stream is to be woken.
    pub fn push(&mut self, st: &mut TapState, data: &[T]) -> (wake: bool)
        ensures
            final(self).made_for() == old(self).made_for(),
            exists|pushed: usize|
                pushed <= data@.len() && *final(st) == #[trigger] after_push(
                    *old(st),
                    pushed,
                    data@.len() as usize,
                ) && wake == wakes(*old(st), pushed, data@.len() as usize),
    {
        let pushed = push_slice(&mut self.ring, data);
        let wake = record_push(st, pushed, data.len());
        assert(*st == after_push(*old(st), pushed, data@.len() as usize));
        wake
    }
}

impl<T: Copy> TapConsumer<T> {
    /// Polls the stream: a sample from the ring if it has one; otherwise the
    /// end of the stream if it is to end and the ring is still empty when
    /// asked again; otherwise the stream waits.
    pub fn poll(&mut self, st: &mut TapState) -> (out: TapPoll<T>)
        ensures
            final(self).made_for() == old(self).made_for(),
            exists|first: Option<T>, second: Option<T>|
                (out, *final(st)) == #[trigger] polled(*old(st), first, second),
    {
        let first = try_pop(&mut self.ring);
        let second = if first.is_none() && st.should_terminate {
            try_pop(&mut self.ring)
        } else {
            None
        };
        let out = poll_next(st, first, second);
        assert((out, *st) == polled(*old(st), first, second));
        out
    }
}

/// What a poll comes to and leaves behind, `first` being what the ring gave
/// and `second` what it gave when asked again: a sample if the ring had
/// one; otherwise, once the stream is to end, the sample that came in the
/// meantime or the end; otherwise the stream leaves its waker and waits.
pub open spec fn polled<T>(st: TapState, first: Option<T>, second: Option<T>) -> (
    TapPoll<T>,
    TapState,
) {
    match first {
        Some(sample) => (TapPoll::Ready(sample), st),
        None => if st.should_terminate {
            match second {
                Some(sample) => (TapPoll::Ready(sample), st),
                None => (TapPoll::Ended, st),
            }
        } else {
            (TapPoll::Pending, TapState { has_data: false, waker_set: true, ..st })
        },
    }
}

/// What a poll of the stream comes to.
#[derive(Clone, Copy, Debug, PartialEq, Eq)]
pub enum TapPoll<T> {
    /// A sample is ready.
    Ready(T),
    /// The stream has ended.
    Ended,
    /// Nothing yet: the stream has left its waker and waits.
    Pending,
}

/// Decides a poll of the stream. `first` is what the ring gave; `second` is
/// what it gave when asked again, which matters only once the stream is to
/// end.
pub fn poll_next<T: Copy>(st: &mut TapState, first: Option<T>, second: Option<T>) -> (out: TapPoll<
    T,
>)
    ensures
        (out, *final(st)) == polled(*old(st), first, second),
{
    match first {
        Some(sample) => TapPoll::Ready(sample),
        None => {
            if st.should_terminate {
                match second {
                    Some(sample) => TapPoll::Ready(sample),
                    None => TapPoll::Ended,
                }
            } else {
                st.has_data = false;
                st.waker_set = true;
                TapPoll::Pending
            }
        },
    }
}

/// The drop count grows only by drops, and any push that is not a drop
/// takes it back to zero.
pub proof fn law_drop_counter(st: TapState, pushed: usize, len: usize)
    ensures
        !is_drop(pushed, len) ==> after_push(st, pushed, len).consecutive_drops == 0,
        !is_drop(pushed, len) ==> after_push(st, pushed, len).should_terminate
            == st.should_terminate,
        is_drop(pushed, len) && st.consecutive_drops < MAX_CONSECUTIVE_DROPS ==> after_push(
            st,
            pushed,
            len,
        ).should_terminate == st.should_terminate,
        is_drop(pushed, len) && MAX_CONSECUTIVE_DROPS <= st.consecutive_drops < u32::MAX
            ==> after_push(st, pushed, len).should_terminate,
{
}

} // verus!
