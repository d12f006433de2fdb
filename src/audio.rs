use crate::ring::{frame_byte_len, SampleRing};
use vstd::prelude::*;

verus! {

/// Samples the audio ring buffer holds, whatever the sample format.
pub const RING_SAMPLES: usize = 4096;

/// The device sample formats the audio pipeline can feed.
#[derive(Clone, Copy, Debug, PartialEq, Eq, Structural)]
pub enum SampleKind {
    /// Unsigned 8-bit samples; silence is the midpoint 128.
    U8,
    /// 32-bit float samples; silence is 0.0, whose bytes are all zero.
    F32,
}

pub open spec fn sample_size_spec(kind: SampleKind) -> nat {
    match kind {
        SampleKind::U8 => 1,
        SampleKind::F32 => 4,
    }
}

/// Bytes per sample.
pub fn sample_size(kind: SampleKind) -> (r: usize)
    ensures
        r == sample_size_spec(kind),
{
    match kind {
        SampleKind::U8 => 1,
        SampleKind::F32 => 4,
    }
}

/// The byte that fills an underrun: every byte of an equilibrium sample has this value.
pub fn silence_byte(kind: SampleKind) -> (r: u8)
    ensures
        r == (match kind {
            SampleKind::U8 => 128u8,
            SampleKind::F32 => 0u8,
        }),
{
    match kind {
        SampleKind::U8 => 128,
        SampleKind::F32 => 0,
    }
}

/// The ring buffer for a device of the given sample format, empty, sized in bytes for
/// `RING_SAMPLES` samples.
pub fn ring_for(kind: SampleKind) -> (r: SampleRing)
    ensures
        r.wf(),
        r.held() == Seq::<u8>::empty(),
        r.cap() == RING_SAMPLES * sample_size_spec(kind),
{
    SampleRing::new(RING_SAMPLES * sample_size(kind))
}

/// Channel layouts the resampler can target.
#[derive(Clone, Copy, Debug, PartialEq, Eq, Structural)]
pub enum ChannelLayoutKind {
    Mono,
    Stereo,
}

/// The resampler's output layout for a device with `channels` channels: mono for one,
/// stereo for two, and none for any other count, which cannot be played.
pub fn output_channel_layout(channels: u16) -> (r: Option<ChannelLayoutKind>)
    ensures
        r == (if channels == 1 {
            Some(ChannelLayoutKind::Mono)
        } else if channels == 2 {
            Some(ChannelLayoutKind::Stereo)
        } else {
            None::<ChannelLayoutKind>
        }),
{
    if channels == 1 {
        Some(ChannelLayoutKind::Mono)
    } else if channels == 2 {
        Some(ChannelLayoutKind::Stereo)
    } else {
        None
    }
}

/// What became of one resampled frame offered to the ring buffer.
#[derive(Clone, Copy, Debug, PartialEq, Eq, Structural)]
pub enum ForwardOutcome {
    /// Its samples are buffered, after everything buffered before.
    Pushed,
    /// Not enough free space yet: wait a short interval and offer it again.
    Wait,
    /// It is larger than the whole buffer and can never be buffered.
    TooLarge,
    /// Its data is shorter than its sample count says, or that count overflows.
    Malformed,
}

/// Offers one resampled frame, `samples` samples per channel over `channels` channels in
/// packed `kind` format, whose bytes start `data`. Only the bytes the sample count covers
/// are buffered; padding past them is ignored.
pub fn forward_frame(
    ring: &mut SampleRing,
    data: &[u8],
    samples: usize,
    channels: u16,
    kind: SampleKind,
) -> (r: ForwardOutcome)
    requires
        old(ring).wf(),
    ensures
        final(ring).wf(),
        final(ring).cap() == old(ring).cap(),
        ({
            let n = samples * channels * sample_size_spec(kind);
            if n > data@.len() {
                r == ForwardOutcome::Malformed && final(ring).held() == old(ring).held()
            } else if n > old(ring).cap() {
                r == ForwardOutcome::TooLarge && final(ring).held() == old(ring).held()
            } else if n > old(ring).cap() - old(ring).held().len() {
                r == ForwardOutcome::Wait && final(ring).held() == old(ring).held()
            } else {
                r == ForwardOutcome::Pushed && final(ring).held() == old(ring).held() + data@.take(
                    n as int,
                )
            }
        }),
{
    let data_len = data.len();
    let n = match frame_byte_len(samples, channels, sample_size(kind)) {
        None => {
            return ForwardOutcome::Malformed;
        },
        Some(n) => n,
    };
    if n > data_len {
        return ForwardOutcome::Malformed;
    }
    let cap = ring.capacity();
    if n > cap {
        return ForwardOutcome::TooLarge;
    }
    let mut frame: Vec<u8> = Vec::with_capacity(n);
    let mut i: usize = 0;
    while i < n
        invariant
            n <= data@.len(),
            i <= n,
            frame@ == data@.take(i as int),
        decreases n - i,
    {
        frame.push(data[i]);
        i = i + 1;
        assert(frame@ =~= data@.take(i as int));
    }
    if ring.push_frame(frame.as_slice()) {
        ForwardOutcome::Pushed
    } else {
        ForwardOutcome::Wait
    }
}

} // verus!
