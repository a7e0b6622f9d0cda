//! The bounded sample queue between acquisition and analysis.
//!
//! Samples travel as the bit patterns of single-precision numbers. The queue
//! is lossy: what does not fit is dropped, and a read returns what is there.
//! Before it is split the queue has one owner, so its contents are a plain
//! sequence and both operations are stated exactly. After the split the two
//! halves run on different threads, and a half promises only what holds
//! whatever the other half does meanwhile. That is still a good deal: the
//! reader only ever frees slots, so room that the writer has seen stays; and
//! the writer only ever appends, so samples that the reader has seen stay,
//! and are the first to be read.

use ringbuf::traits::{Consumer, Observer, Producer, Split};
use ringbuf::{HeapCons, HeapProd, HeapRb};
use vstd::prelude::*;

verus! {

/// Largest capacity a ring buffer can be asked for.
pub const MAX_CAPACITY: usize = 0x0fff_ffff;

/// A ring buffer that has not been split: a `ringbuf::HeapRb<u32>`, whose
/// storage, read index and write index have one owner.
#[verifier::external_body]
pub struct SampleRing {
    rb: HeapRb<u32>,
}

/// The writing half of a split ring, a `ringbuf::HeapProd<u32>`.
#[verifier::external_body]
pub struct SampleProducer {
    half: HeapProd<u32>,
}

/// The reading half of a split ring, a `ringbuf::HeapCons<u32>`.
#[verifier::external_body]
pub struct SampleConsumer {
    half: HeapCons<u32>,
}

/// The samples that a ring holds, oldest first.
pub uninterp spec fn ring_contents(ring: SampleRing) -> Seq<u32>;

/// The number of samples that a ring was made to hold.
pub uninterp spec fn ring_capacity(ring: SampleRing) -> nat;

/// The capacity of the ring that a producer writes to.
pub uninterp spec fn producer_capacity(producer: SampleProducer) -> nat;

/// The free slots that a producer knows of: those it saw when it last
/// looked at the ring, less what it has written since. The ring has at least
/// as many.
pub uninterp spec fn producer_vacancy(producer: SampleProducer) -> nat;

/// The capacity of the ring that a consumer reads from.
pub uninterp spec fn consumer_capacity(consumer: SampleConsumer) -> nat;

/// The samples that a consumer knows to be queued, oldest first: those it
/// saw when it last looked at the ring, less what it has read since. The
/// ring holds them at its front, and behind them what was written since.
pub uninterp spec fn consumer_known(consumer: SampleConsumer) -> Seq<u32>;

/// How many of `offered` samples fit into a queue of `capacity` slots that
/// already holds `held`.
pub open spec fn accepted(offered: nat, held: nat, capacity: nat) -> nat {
    if held >= capacity {
        0
    } else if offered <= capacity - held {
        offered
    } else {
        (capacity - held) as nat
    }
}

/// How many samples a read into `wanted` slots takes from a queue that
/// holds `held`.
pub open spec fn delivered(wanted: nat, held: nat) -> nat {
    if wanted <= held {
        wanted
    } else {
        held
    }
}

/// The queue after `samples` were offered to it.
pub open spec fn pushed(contents: Seq<u32>, capacity: nat, samples: Seq<u32>) -> Seq<u32> {
    contents + samples.subrange(0, accepted(samples.len(), contents.len(), capacity) as int)
}

/// What a read into `wanted` slots takes out of the queue.
pub open spec fn popped(contents: Seq<u32>, wanted: nat) -> Seq<u32> {
    contents.subrange(0, delivered(wanted, contents.len()) as int)
}

/// What a read into `wanted` slots leaves in the queue.
pub open spec fn remaining(contents: Seq<u32>, wanted: nat) -> Seq<u32> {
    contents.subrange(delivered(wanted, contents.len()) as int, contents.len() as int)
}

/// `HeapRb::new`: an empty ring with exactly `capacity` slots. The call
/// panics on a capacity of zero, which `requires` leaves out.
#[verifier::external_body]
fn ring_new(capacity: usize) -> (ring: SampleRing)
    requires
        0 < capacity <= MAX_CAPACITY,
    ensures
        ring_contents(ring) == Seq::<u32>::empty(),
        ring_capacity(ring) == capacity,
{
    SampleRing { rb: HeapRb::<u32>::new(capacity) }
}

/// `Producer::push_slice` on the unsplit ring: the longest prefix of `elems`
/// that fits is appended, and its length returned.
#[verifier::external_body]
fn ring_push_slice(ring: &mut SampleRing, elems: &[u32]) -> (n: usize)
    requires
        ring_contents(*old(ring)).len() <= ring_capacity(*old(ring)),
    ensures
        n == accepted(elems@.len(), ring_contents(*old(ring)).len(), ring_capacity(*old(ring))),
        ring_contents(*final(ring)) == ring_contents(*old(ring)) + elems@.subrange(0, n as int),
        ring_capacity(*final(ring)) == ring_capacity(*old(ring)),
{
    ring.rb.push_slice(elems)
}

/// `Consumer::pop_slice` on the unsplit ring: the oldest samples, as many as
/// `buffer` has slots for, move to the front of `buffer`; the rest of
/// `buffer` is not written.
#[verifier::external_body]
fn ring_pop_slice(ring: &mut SampleRing, buffer: &mut Vec<u32>) -> (n: usize)
    requires
        ring_contents(*old(ring)).len() <= ring_capacity(*old(ring)),
    ensures
        n == delivered(old(buffer)@.len(), ring_contents(*old(ring)).len()),
        final(buffer)@ == ring_contents(*old(ring)).subrange(0, n as int) + old(buffer)@.subrange(
            n as int,
            old(buffer)@.len() as int,
        ),
        ring_contents(*final(ring)) == ring_contents(*old(ring)).subrange(
            n as int,
            ring_contents(*old(ring)).len() as int,
        ),
        ring_capacity(*final(ring)) == ring_capacity(*old(ring)),
{
    ring.rb.pop_slice(buffer.as_mut_slice())
}

/// `Split::split`: the two halves of the ring, each on a ring of the
/// capacity that the whole had. The writing half starts out knowing the
/// slots that are free, the reading half the samples that are queued.
#[verifier::external_body]
fn ring_split(ring: SampleRing) -> (halves: (SampleProducer, SampleConsumer))
    requires
        ring_contents(ring).len() <= ring_capacity(ring),
    ensures
        producer_capacity(halves.0) == ring_capacity(ring),
        consumer_capacity(halves.1) == ring_capacity(ring),
        producer_vacancy(halves.0) + ring_contents(ring).len() == ring_capacity(ring),
        consumer_known(halves.1) == ring_contents(ring),
{
    let (producer, consumer) = ring.rb.split();
    (SampleProducer { half: producer }, SampleConsumer { half: consumer })
}

/// `Producer::push_slice` on the writing half: it looks at the ring, writes
/// the longest prefix of `elems` that the free slots take, and returns its
/// length. The ring has at least the free slots that the half knew of, so
/// a slice no longer than those is written whole.
#[verifier::external_body]
fn producer_push_slice(producer: &mut SampleProducer, elems: &[u32]) -> (n: usize)
    ensures
        n <= elems@.len(),
        n <= producer_capacity(*old(producer)),
        elems@.len() <= producer_vacancy(*old(producer)) ==> n == elems@.len(),
        producer_vacancy(*final(producer)) + n >= producer_vacancy(*old(producer)),
        producer_capacity(*final(producer)) == producer_capacity(*old(producer)),
{
    producer.half.push_slice(elems)
}

/// `Observer::vacant_len` on the writing half: it looks at the ring and
/// returns the number of free slots, which the half knows of from then on.
/// They are never more than the ring has slots, nor fewer than the half
/// knew of before.
#[verifier::external_body]
fn producer_vacant_len(producer: &mut SampleProducer) -> (n: usize)
    ensures
        n == producer_vacancy(*final(producer)),
        n <= producer_capacity(*old(producer)),
        n >= producer_vacancy(*old(producer)),
        producer_capacity(*final(producer)) == producer_capacity(*old(producer)),
{
    producer.half.vacant_len()
}

/// `Consumer::pop_slice` on the reading half: it looks at the ring, moves
/// its oldest samples, as many as `buffer` has slots for, to the front of
/// `buffer`, and returns their number; the rest of `buffer` is not written.
/// The ring holds at least the samples that the half knew of, and holds them
/// first: they are what arrives, in their order, before anything written
/// since. Of those the half knew of, the ones not read are known still,
/// followed by what it saw this time.
#[verifier::external_body]
fn consumer_pop_slice(consumer: &mut SampleConsumer, buffer: &mut Vec<u32>) -> (n: usize)
    ensures
        n <= old(buffer)@.len(),
        n <= consumer_capacity(*old(consumer)),
        n >= delivered(old(buffer)@.len(), consumer_known(*old(consumer)).len()),
        final(buffer)@.len() == old(buffer)@.len(),
        final(buffer)@.subrange(
            0,
            delivered(n as nat, consumer_known(*old(consumer)).len()) as int,
        ) == consumer_known(*old(consumer)).subrange(
            0,
            delivered(n as nat, consumer_known(*old(consumer)).len()) as int,
        ),
        final(buffer)@.subrange(n as int, old(buffer)@.len() as int) == old(buffer)@.subrange(
            n as int,
            old(buffer)@.len() as int,
        ),
        consumer_known(*final(consumer)).len() + n >= consumer_known(*old(consumer)).len(),
        consumer_known(*final(consumer)).subrange(
            0,
            consumer_known(*old(consumer)).len() - delivered(
                n as nat,
                consumer_known(*old(consumer)).len(),
            ),
        ) == consumer_known(*old(consumer)).subrange(
            delivered(n as nat, consumer_known(*old(consumer)).len()) as int,
            consumer_known(*old(consumer)).len() as int,
        ),
        consumer_capacity(*final(consumer)) == consumer_capacity(*old(consumer)),
{
    consumer.half.pop_slice(buffer.as_mut_slice())
}

impl SampleProducer {
    /// The capacity of the ring behind this half.
    pub closed spec fn capacity(&self) -> nat {
        producer_capacity(*self)
    }

    /// The free slots that this half knows of. The reader may have freed
    /// more since.
    pub closed spec fn vacancy(&self) -> nat {
        producer_vacancy(*self)
    }

    /// Writes as many of `samples` as the ring has room for, oldest first,
    /// and returns how many were written. Never blocks. What the half knows
    /// to be free is free: a slice no longer than that is written whole.
    pub fn push_slice(&mut self, samples: &[u32]) -> (written: usize)
        ensures
            written <= samples@.len(),
            written <= old(self).capacity(),
            samples@.len() <= old(self).vacancy() ==> written == samples@.len(),
            final(self).vacancy() + written >= old(self).vacancy(),
            final(self).capacity() == old(self).capacity(),
    {
        producer_push_slice(self, samples)
    }

    /// The free slots of the ring at the time of the call.
    pub fn vacant_len(&mut self) -> (vacant: usize)
        ensures
            vacant == final(self).vacancy(),
            vacant <= old(self).capacity(),
            vacant >= old(self).vacancy(),
            final(self).capacity() == old(self).capacity(),
    {
        producer_vacant_len(self)
    }
}

impl SampleConsumer {
    /// The capacity of the ring behind this half.
    pub closed spec fn capacity(&self) -> nat {
        consumer_capacity(*self)
    }

    /// The samples that this half knows to be queued, oldest first. The
    /// writer may have added more since.
    pub closed spec fn known(&self) -> Seq<u32> {
        consumer_known(*self)
    }

    /// Moves the oldest samples of the ring into the front of `buffer`, as
    /// many as it has slots for, and returns how many were moved; slots
    /// behind them keep what they held. Never blocks. What the half knows to
    /// be queued is there: it arrives first and in its order, so a buffer no
    /// longer than that is filled whole, and with exactly those samples.
    /// What the half knew of and did not read, it knows still.
    pub fn pop_slice(&mut self, buffer: &mut Vec<u32>) -> (read: usize)
        ensures
            read <= old(buffer)@.len(),
            read <= old(self).capacity(),
            read >= delivered(old(buffer)@.len(), old(self).known().len()),
            final(buffer)@.len() == old(buffer)@.len(),
            forall|i: int|
                0 <= i < read && i < old(self).known().len() ==> final(buffer)@[i] == old(
                    self,
                ).known()[i],
            forall|i: int| read <= i < old(buffer)@.len() ==> final(buffer)@[i] == old(buffer)@[i],
            final(self).known().len() + read >= old(self).known().len(),
            forall|i: int|
                read <= i < old(self).known().len() ==> final(self).known()[i - read] == old(
                    self,
                ).known()[i],
            final(self).capacity() == old(self).capacity(),
    {
        let ghost before = buffer@;
        let ghost known = self.known();
        let read = consumer_pop_slice(self, buffer);
        proof {
            let len = before.len() as int;
            let front = delivered(read as nat, known.len()) as int;
            assert forall|i: int| read <= i < len implies buffer@[i] == before[i] by {
                assert(buffer@.subrange(read as int, len)[i - read] == before.subrange(
                    read as int,
                    len,
                )[i - read]);
            }
            assert forall|i: int| 0 <= i < read && i < known.len() implies buffer@[i]
                == known[i] by {
                assert(buffer@.subrange(0, front)[i] == known.subrange(0, front)[i]);
            }
            assert forall|i: int| read <= i < known.len() implies self.known()[i - read]
                == known[i] by {
                assert(front == read);
                assert(self.known().subrange(0, known.len() - front)[i - read] == known.subrange(
                    front,
                    known.len() as int,
                )[i - read]);
            }
        }
        read
    }
}

/// The ring buffer of one session, before its halves part.
pub struct AudioRingBuffer {
    ring: SampleRing,
}

impl AudioRingBuffer {
    /// The queued samples, oldest first.
    pub closed spec fn view(&self) -> Seq<u32> {
        ring_contents(self.ring)
    }

    /// The number of samples the queue can hold.
    pub closed spec fn capacity(&self) -> nat {
        ring_capacity(self.ring)
    }

    /// The queue never holds more than it was made for.
    pub closed spec fn wf(&self) -> bool {
        self@.len() <= self.capacity()
    }

    /// An empty queue of the given capacity.
    pub fn new(capacity: usize) -> (buf: Self)
        requires
            0 < capacity <= MAX_CAPACITY,
        ensures
            buf.wf(),
            buf@ == Seq::<u32>::empty(),
            buf.capacity() == capacity,
    {
        AudioRingBuffer { ring: ring_new(capacity) }
    }

    /// Appends the longest prefix of `samples` that fits and returns its
    /// length. What does not fit is dropped.
    pub fn push(&mut self, samples: &[u32]) -> (written: usize)
        requires
            old(self).wf(),
        ensures
            final(self).wf(),
            written == accepted(samples@.len(), old(self)@.len(), old(self).capacity()),
            final(self)@ == pushed(old(self)@, old(self).capacity(), samples@),
            final(self).capacity() == old(self).capacity(),
    {
        ring_push_slice(&mut self.ring, samples)
    }

    /// Moves the oldest samples into the front of `buffer`, as many as it has
    /// slots for, and returns how many were moved.
    pub fn pop(&mut self, buffer: &mut Vec<u32>) -> (read: usize)
        requires
            old(self).wf(),
        ensures
            final(self).wf(),
            read == delivered(old(buffer)@.len(), old(self)@.len()),
            final(buffer)@ == popped(old(self)@, old(buffer)@.len()) + old(buffer)@.subrange(
                read as int,
                old(buffer)@.len() as int,
            ),
            final(self)@ == remaining(old(self)@, old(buffer)@.len()),
            final(self).capacity() == old(self).capacity(),
    {
        ring_pop_slice(&mut self.ring, buffer)
    }

    /// Parts the queue into its writing and its reading half.
    pub fn split(self) -> (halves: (SampleProducer, SampleConsumer))
        requires
            self.wf(),
        ensures
            halves.0.capacity() == self.capacity(),
            halves.1.capacity() == self.capacity(),
            halves.0.vacancy() == self.capacity() - self@.len(),
            halves.1.known() == self@,
    {
        ring_split(self.ring)
    }
}

/// What is written to an empty queue and fits comes back from the next read
/// unchanged and in order, and the queue is empty again.
pub proof fn lemma_round_trip(capacity: nat, samples: Seq<u32>)
    requires
        samples.len() <= capacity,
    ensures
        accepted(samples.len(), 0, capacity) == samples.len(),
        pushed(Seq::<u32>::empty(), capacity, samples) == samples,
        popped(pushed(Seq::<u32>::empty(), capacity, samples), samples.len()) == samples,
        remaining(pushed(Seq::<u32>::empty(), capacity, samples), samples.len()) == Seq::<
            u32,
        >::empty(),
{
    assert(pushed(Seq::<u32>::empty(), capacity, samples) =~= samples);
    assert(popped(samples, samples.len()) =~= samples);
    assert(remaining(samples, samples.len()) =~= Seq::<u32>::empty());
}

/// The queue is first in, first out: what a read takes is the front of what
/// was held before the write followed by what the write added, and what
/// the write added is a prefix of what was offered.
pub proof fn lemma_first_in_first_out(
    contents: Seq<u32>,
    capacity: nat,
    samples: Seq<u32>,
    wanted: nat,
)
    requires
        contents.len() <= capacity,
    ensures
        popped(pushed(contents, capacity, samples), wanted) + remaining(
            pushed(contents, capacity, samples),
            wanted,
        ) == pushed(contents, capacity, samples),
        wanted <= contents.len() ==> popped(pushed(contents, capacity, samples), wanted)
            == popped(contents, wanted),
        contents.len() + samples.len() <= capacity ==> pushed(contents, capacity, samples)
            == contents + samples,
{
    let queue = pushed(contents, capacity, samples);
    assert(popped(queue, wanted) + remaining(queue, wanted) =~= queue);
    if wanted <= contents.len() {
        assert(popped(queue, wanted) =~= popped(contents, wanted));
    }
    if contents.len() + samples.len() <= capacity {
        assert(queue =~= contents + samples);
    }
}

/// A write never blocks on a full queue and never takes more than the
/// queue was made for: however much is offered, the count written is the
/// smaller of what is offered and what is free, so at most the capacity;
/// what is held stays in front, and the queue stays within its capacity.
pub proof fn lemma_write_is_bounded(contents: Seq<u32>, capacity: nat, samples: Seq<u32>)
    requires
        contents.len() <= capacity,
    ensures
        accepted(samples.len(), contents.len(), capacity) <= capacity,
        accepted(samples.len(), contents.len(), capacity) <= samples.len(),
        accepted(samples.len(), contents.len(), capacity) == if samples.len() <= capacity
            - contents.len() {
            samples.len()
        } else {
            (capacity - contents.len()) as nat
        },
        pushed(contents, capacity, samples).len() <= capacity,
        pushed(contents, capacity, samples).subrange(0, contents.len() as int) == contents,
        samples.len() > capacity ==> pushed(contents, capacity, samples).len() == capacity,
{
    assert(pushed(contents, capacity, samples).subrange(0, contents.len() as int) =~= contents);
}

} // verus!
