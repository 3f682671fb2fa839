use ringbuf::{HeapConsumer, HeapProducer, HeapRb};
use vstd::prelude::*;

use crate::audio::{fill_silence, ring_action, RingAction, SAMPLE_RING_CAPACITY};

verus! {

/// The ringbuf producer that a `SampleSink` drives.
#[verifier::external_body]
#[verifier::reject_recursive_types(T)]
struct RingProducer<T> {
    producer: HeapProducer<T>,
}

/// The decode path's half of the sample ring buffer (single producer).
///
/// `room` is a lower bound on the free places of the ring: a reading of
/// `free_len` sets it, each push lowers it by what went in, and only this
/// producer ever takes free places (the consumer only frees them). `pushed`
/// is every sample appended to the ring so far, in order.
#[verifier::reject_recursive_types(T)]
pub struct SampleSink<T> {
    inner: RingProducer<T>,
    room: Ghost<nat>,
    capacity: Ghost<nat>,
    pushed: Ghost<Seq<T>>,
}

impl<T> SampleSink<T> {
    /// Every sample appended to the ring buffer so far, in order.
    pub closed spec fn pushed(&self) -> Seq<T> {
        self.pushed@
    }

    /// A lower bound on the free places of the ring buffer.
    pub closed spec fn room(&self) -> nat {
        self.room@
    }

    /// The number of samples the ring buffer holds at most.
    pub closed spec fn capacity(&self) -> nat {
        self.capacity@
    }
}

/// The output device's half of the sample ring buffer (single consumer). It
/// never takes a lock, so the device's real-time thread never blocks on it.
#[verifier::external_body]
#[verifier::reject_recursive_types(T)]
pub struct SampleSource<T> {
    consumer: HeapConsumer<T>,
}

/// Relies on `ringbuf::HeapRb::new` and `SharedRb::split`: an empty ring
/// buffer of `capacity` samples split into its two halves, so all `capacity`
/// places are free; `new` panics on a zero capacity.
#[verifier::external_body]
fn split_ring<T>(capacity: usize) -> (r: (SampleSink<T>, SampleSource<T>))
    requires
        capacity > 0,
    ensures
        r.0.capacity() == capacity,
        r.0.room() == capacity,
        r.0.pushed() == Seq::<T>::empty(),
{
    let (producer, consumer) = HeapRb::new(capacity).split();
    (
        SampleSink {
            inner: RingProducer { producer },
            room: Ghost(capacity as nat),
            capacity: Ghost(capacity as nat),
            pushed: Ghost(Seq::empty()),
        },
        SampleSource { consumer },
    )
}

/// A fresh, empty sample ring buffer of `SAMPLE_RING_CAPACITY` samples.
pub fn sample_ring<T>() -> (r: (SampleSink<T>, SampleSource<T>))
    ensures
        r.0.capacity() == SAMPLE_RING_CAPACITY,
        r.0.room() == SAMPLE_RING_CAPACITY,
        r.0.pushed() == Seq::<T>::empty(),
{
    split_ring(SAMPLE_RING_CAPACITY)
}

impl<T: Copy> SampleSink<T> {
    /// Relies on `ringbuf::Producer::free_len`: the number of free places in
    /// the ring buffer now; the consumer may free more afterwards, and only
    /// this producer takes them, so it bounds the free places from below
    /// until the next push, and is never below an earlier such bound.
    #[verifier::external_body]
    fn free_len(&mut self) -> (r: usize)
        ensures
            r >= old(self).room(),
            final(self).room() == r,
            final(self).capacity() == old(self).capacity(),
            final(self).pushed() == old(self).pushed(),
    {
        self.inner.producer.free_len()
    }

    /// Relies on `ringbuf::Producer::push_slice`: appends a prefix of
    /// `samples` to the ring buffer, in order, and returns its length; the
    /// prefix is the whole of `samples` when that many places are free.
    #[verifier::external_body]
    fn push_slice(&mut self, samples: &[T]) -> (r: usize)
        ensures
            r <= samples@.len(),
            samples@.len() <= old(self).room() ==> r == samples@.len(),
            final(self).room() == (if r <= old(self).room() {
                (old(self).room() - r) as nat
            } else {
                0
            }),
            final(self).capacity() == old(self).capacity(),
            final(self).pushed() == old(self).pushed() + samples@.subrange(0, r as int),
    {
        self.inner.producer.push_slice(samples)
    }

    /// Pushes all of `samples` if the ring buffer has room for them, and
    /// nothing otherwise: then the caller waits `RING_POLL_MILLIS` and tries
    /// again, so that no sample is dropped. It waits only while the ring
    /// lacks room. Returns what was done and how many samples went in.
    pub fn try_push_all(&mut self, samples: &[T]) -> (r: (RingAction, usize))
        ensures
            samples@.len() <= old(self).room() ==> r.0 == RingAction::Push,
            r.0 == RingAction::Push ==> {
                &&& r.1 == samples@.len()
                &&& final(self).pushed() == old(self).pushed() + samples@
            },
            r.0 == RingAction::Wait ==> {
                &&& r.1 == 0
                &&& final(self).room() < samples@.len()
                &&& final(self).pushed() == old(self).pushed()
            },
            final(self).capacity() == old(self).capacity(),
    {
        let free = self.free_len();
        match ring_action(free, samples.len()) {
            RingAction::Wait => (RingAction::Wait, 0),
            RingAction::Push => {
                let pushed = self.push_slice(samples);
                assert(samples@.subrange(0, pushed as int) =~= samples@);
                (RingAction::Push, pushed)
            },
        }
    }
}

impl<T: Copy> SampleSource<T> {
    /// Relies on `ringbuf::Consumer::pop_slice`: removes at most `data.len()`
    /// samples from the ring buffer, writes them to the front of `data` and
    /// returns their count; the rest of `data` is left as it was.
    #[verifier::external_body]
    fn pop_slice(&mut self, data: &mut [T]) -> (r: usize)
        ensures
            r <= old(data)@.len(),
            final(data)@.len() == old(data)@.len(),
            forall|i: int| r <= i < old(data)@.len() ==> final(data)@[i] == old(data)@[i],
    {
        self.consumer.pop_slice(data)
    }

    /// Fills an output buffer of the device: first with the samples that the
    /// ring buffer holds, then with `equilibrium` (silence) for any shortfall.
    /// It never waits. Returns how many samples came from the ring buffer.
    pub fn fill_output(&mut self, data: &mut [T], equilibrium: T) -> (r: usize)
        ensures
            r <= old(data)@.len(),
            final(data)@.len() == old(data)@.len(),
            forall|i: int| r <= i < old(data)@.len() ==> final(data)@[i] == equilibrium,
    {
        let filled = self.pop_slice(data);
        fill_silence(data, filled, equilibrium);
        filled
    }
}

} // verus!
