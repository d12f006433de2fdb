use ringbuf::HeapRb;
use ringbuf::Rb;
use vstd::prelude::*;

verus! {

/// A ringbuf heap ring buffer of bytes, opaque to the proofs: what it holds is known only
/// through `ring_bytes` and `ring_capacity`.
#[verifier::external_body]
pub struct ByteRing {
    rb: HeapRb<u8>,
}

/// The bytes a ring buffer holds, oldest first.
pub uninterp spec fn ring_bytes(rb: ByteRing) -> Seq<u8>;

/// The number of bytes a ring buffer was made to hold.
pub uninterp spec fn ring_capacity(rb: ByteRing) -> nat;

/// Relies on ringbuf's `HeapRb::new`: an empty buffer of the given capacity (it panics on
/// zero).
#[verifier::external_body]
fn rb_new(capacity: usize) -> (r: ByteRing)
    requires
        capacity > 0,
    ensures
        ring_bytes(r) == Seq::<u8>::empty(),
        ring_capacity(r) == capacity,
{
    ByteRing { rb: HeapRb::new(capacity) }
}

/// Relies on ringbuf's `Rb::len`: the number of bytes held.
#[verifier::external_body]
fn rb_len(rb: &ByteRing) -> (r: usize)
    ensures
        r == ring_bytes(*rb).len(),
{
    rb.rb.len()
}

/// Relies on ringbuf's `Rb::capacity`: the fixed number of bytes it holds when full.
#[verifier::external_body]
fn rb_capacity(rb: &ByteRing) -> (r: usize)
    ensures
        r == ring_capacity(*rb),
{
    rb.rb.capacity()
}

/// Relies on ringbuf's `Rb::free_len`: the capacity left.
#[verifier::external_body]
fn rb_free_len(rb: &ByteRing) -> (r: usize)
    ensures
        r == ring_capacity(*rb) - ring_bytes(*rb).len(),
{
    rb.rb.free_len()
}

/// Relies on ringbuf's `Rb::push_slice`: appends all of `elems`, which must fit (it panics
/// otherwise).
#[verifier::external_body]
fn rb_push_slice(rb: &mut ByteRing, elems: &[u8])
    requires
        elems@.len() + ring_bytes(*old(rb)).len() <= ring_capacity(*old(rb)),
    ensures
        ring_bytes(*final(rb)) == ring_bytes(*old(rb)) + elems@,
        ring_capacity(*final(rb)) == ring_capacity(*old(rb)),
{
    rb.rb.push_slice(elems)
}

/// Relies on ringbuf's `Rb::pop_slice`: removes the `n` oldest bytes, which must be
/// there (it panics otherwise), and returns them in order.
#[verifier::external_body]
fn rb_pop(rb: &mut ByteRing, n: usize) -> (r: Vec<u8>)
    requires
        n <= ring_bytes(*old(rb)).len(),
    ensures
        r@ == ring_bytes(*old(rb)).take(n as int),
        ring_bytes(*final(rb)) == ring_bytes(*old(rb)).skip(n as int),
        ring_capacity(*final(rb)) == ring_capacity(*old(rb)),
{
    let mut out = vec![0u8; n];
    rb.rb.pop_slice(&mut out);
    out
}

/// What one device period of `period` bytes receives from a buffer holding `held`: the
/// oldest held bytes, then the silence value for whatever is missing.
pub open spec fn period_output(held: Seq<u8>, period: nat, silence: u8) -> Seq<u8> {
    if held.len() >= period {
        held.take(period as int)
    } else {
        held + Seq::new((period - held.len()) as nat, |i: int| silence)
    }
}

/// What a buffer holding `held` keeps after one device period of `period` bytes.
pub open spec fn period_rest(held: Seq<u8>, period: nat) -> Seq<u8> {
    if held.len() >= period {
        held.skip(period as int)
    } else {
        Seq::empty()
    }
}

/// The bounded sample buffer between the audio decode task and the device callback.
/// Samples travel as raw bytes in the device's sample format.
pub struct SampleRing {
    rb: ByteRing,
}

impl SampleRing {
    pub closed spec fn held(&self) -> Seq<u8> {
        ring_bytes(self.rb)
    }

    pub closed spec fn cap(&self) -> nat {
        ring_capacity(self.rb)
    }

    pub open spec fn wf(&self) -> bool {
        0 < self.cap() && self.held().len() <= self.cap()
    }

    /// An empty buffer that holds up to `capacity` bytes.
    pub fn new(capacity: usize) -> (r: SampleRing)
        requires
            capacity > 0,
        ensures
            r.wf(),
            r.held() == Seq::<u8>::empty(),
            r.cap() == capacity,
    {
        SampleRing { rb: rb_new(capacity) }
    }

    pub fn len(&self) -> (r: usize)
        ensures
            r == self.held().len(),
    {
        rb_len(&self.rb)
    }

    pub fn capacity(&self) -> (r: usize)
        ensures
            r == self.cap(),
    {
        rb_capacity(&self.rb)
    }

    pub fn free_len(&self) -> (r: usize)
        requires
            self.wf(),
        ensures
            r == self.cap() - self.held().len(),
    {
        rb_free_len(&self.rb)
    }

    /// Buffers a whole decoded frame if it fits in the free space, and reports whether it
    /// did. A frame that does not fit leaves the buffer untouched: the decode task waits
    /// and offers it again.
    pub fn push_frame(&mut self, frame: &[u8]) -> (r: bool)
        requires
            old(self).wf(),
        ensures
            final(self).wf(),
            final(self).cap() == old(self).cap(),
            r == (frame@.len() <= old(self).cap() - old(self).held().len()),
            r ==> final(self).held() == old(self).held() + frame@,
            !r ==> final(self).held() == old(self).held(),
    {
        let free = rb_free_len(&self.rb);
        if frame.len() <= free {
            rb_push_slice(&mut self.rb, frame);
            true
        } else {
            false
        }
    }

    /// Serves one device period of `period` bytes: the oldest buffered bytes, padded with
    /// `silence` when the buffer runs short. It never waits.
    pub fn fill_period(&mut self, period: usize, silence: u8) -> (r: Vec<u8>)
        requires
            old(self).wf(),
        ensures
            final(self).wf(),
            final(self).cap() == old(self).cap(),
            r@ == period_output(old(self).held(), period as nat, silence),
            final(self).held() == period_rest(old(self).held(), period as nat),
    {
        let held = rb_len(&self.rb);
        let take: usize = if held < period {
            held
        } else {
            period
        };
        let mut out = rb_pop(&mut self.rb, take);
        let ghost popped = out@;
        while out.len() < period
            invariant
                take <= period,
                out@.len() >= take,
                out@.len() <= period,
                out@.subrange(0, take as int) == popped,
                forall|i: int| take <= i < out@.len() ==> out@[i] == silence,
            decreases period - out.len(),
        {
            out.push(silence);
        }
        proof {
            let held_seq = old(self).held();
            assert forall|i: int| 0 <= i < take implies out@[i] == popped[i] by {
                assert(out@.subrange(0, take as int)[i] == out@[i]);
            }
            if held_seq.len() >= period {
                assert(out@ =~= held_seq.take(period as int));
                assert(held_seq.skip(period as int) =~= self.held());
            } else {
                let expected = held_seq + Seq::new(
                    (period - held_seq.len()) as nat,
                    |i: int| silence,
                );
                assert(take == held_seq.len());
                assert forall|i: int| 0 <= i < out@.len() implies out@[i] == expected[i] by {
                    if i < take {
                        assert(popped[i] == held_seq[i]);
                    }
                }
                assert(out@ =~= expected);
                assert(self.held() =~= Seq::<u8>::empty());
            }
        }
        out
    }
}

/// When nothing was buffered for a whole device period, the period is entirely silence and
/// the buffer is still empty and usable afterwards.
pub proof fn lemma_underrun_is_silence(period: nat, silence: u8)
    ensures
        period_output(Seq::empty(), period, silence).len() == period,
        forall|i: int|
            0 <= i < period ==> #[trigger] period_output(Seq::empty(), period, silence)[i]
                == silence,
        period_rest(Seq::empty(), period) == Seq::<u8>::empty(),
{
    if period == 0 {
        assert(period_output(Seq::empty(), period, silence) =~= Seq::<u8>::empty());
    }
}

/// An underrun does not stall the stream: after any number of silent periods the buffer
/// is still empty, and bytes buffered afterwards come out, in order, in the next period
/// long enough to hold them.
pub proof fn lemma_stream_resumes_after_underrun(period: nat, silence: u8, later: Seq<u8>)
    requires
        later.len() <= period,
    ensures
        period_rest(Seq::empty(), period) == Seq::<u8>::empty(),
        period_output(period_rest(Seq::empty(), period) + later, period, silence).take(
            later.len() as int,
        ) == later,
{
    let held = Seq::<u8>::empty() + later;
    assert(held =~= later);
    assert(period_output(held, period, silence).take(later.len() as int) =~= later);
}

/// Bytes that one frame of `samples` samples per channel occupies, or `None` when that
/// size does not fit in memory sizes.
pub fn frame_byte_len(samples: usize, channels: u16, sample_size: usize) -> (r: Option<usize>)
    ensures
        match r {
            Some(n) => n == samples * channels * sample_size,
            None => samples * channels * sample_size > usize::MAX,
        },
{
    let per_sample = samples.checked_mul(channels as usize);
    match per_sample {
        None => {
            proof {
                assert(samples * channels * sample_size > usize::MAX || sample_size == 0)
                    by (nonlinear_arith)
                    requires
                        samples * channels > usize::MAX,
                ;
            }
            if sample_size == 0 {
                assert(samples * channels * sample_size == 0) by (nonlinear_arith)
                    requires
                        sample_size == 0,
                ;
                return Some(0);
            }
            None
        },
        Some(n) => n.checked_mul(sample_size),
    }
}

} // verus!
