//! Paced playback of a decoded file.
//!
//! Decoding is the caller's business. What is decided here is how the mono
//! samples that come out of the decoder are cut into chunks of one frame
//! each, and when a chunk may enter the ring buffer: never while the session
//! is cancelled, and never while the ring has less room than the chunk
//! needs. So no sample of a track is lost on the way into the ring, the
//! last and partial chunk included.

use crate::audio::ring_buffer::SampleProducer;
use vstd::prelude::*;

verus! {

/// The sample rate assumed for a track that declares none.
pub const DEFAULT_SAMPLE_RATE: u32 = 44100;

/// How long to sleep, in milliseconds, before looking at the pause flag again.
pub const PAUSE_POLL_MILLIS: u64 = 50;

/// How long to sleep, in milliseconds, when the ring had no room for a chunk.
pub const BACKOFF_MILLIS: u64 = 5;

/// What the decode thread does next.
#[derive(Debug, Clone, Copy, PartialEq, Eq, Structural)]
pub enum PlaybackStep {
    /// The session was cancelled: leave the loop.
    Stop,
    /// Playback is paused: sleep `PAUSE_POLL_MILLIS` and ask again.
    WaitPaused,
    /// Read and decode the next packet.
    Decode,
}

/// What reading and decoding the next packet came to.
#[derive(Debug, Clone, Copy, PartialEq, Eq, Structural)]
pub enum PacketEvent {
    /// The stream has no more packets, or cannot be read on.
    EndOfStream,
    /// The packet belongs to another track.
    OtherTrack,
    /// The packet could not be decoded.
    Malformed,
    /// The packet was decoded.
    Decoded,
}

/// What the decode thread does with a packet.
#[derive(Debug, Clone, Copy, PartialEq, Eq, Structural)]
pub enum PacketStep {
    /// Leave the loop and hand over what is still pending.
    Finish,
    /// Go on with the next packet.
    Skip,
    /// Mix the packet down and enter it into the pending samples.
    Enqueue,
}

/// What the decode thread does with a packet: the end of the stream ends
/// playback, and a packet that is not for this track or cannot be decoded is
/// passed over.
pub open spec fn packet_step(event: PacketEvent) -> PacketStep {
    match event {
        PacketEvent::EndOfStream => PacketStep::Finish,
        PacketEvent::OtherTrack => PacketStep::Skip,
        PacketEvent::Malformed => PacketStep::Skip,
        PacketEvent::Decoded => PacketStep::Enqueue,
    }
}

/// What became of the attempt to emit one chunk.
#[derive(Debug, Clone, Copy, PartialEq, Eq, Structural)]
pub enum PaceStep {
    /// Nothing is there to emit: less than one chunk is pending while
    /// packets come in, nothing at all after the last.
    NeedInput,
    /// The session was cancelled: end the thread.
    Cancelled,
    /// The ring has less room than the chunk needs: sleep `BACKOFF_MILLIS`
    /// and retry.
    Backoff,
    /// The chunk was handed to the ring, whole: sleep out the rest of the
    /// interval.
    Pushed,
}

/// The step of the outer loop, from the two flags.
pub open spec fn playback_step(running: bool, paused: bool) -> PlaybackStep {
    if !running {
        PlaybackStep::Stop
    } else if paused {
        PlaybackStep::WaitPaused
    } else {
        PlaybackStep::Decode
    }
}

/// The step of the pacing loop, from what is pending and what the ring has
/// free.
pub open spec fn pace_step(pending: nat, chunk: nat, running: bool, vacant: nat) -> PaceStep {
    if pending < chunk {
        PaceStep::NeedInput
    } else if !running {
        PaceStep::Cancelled
    } else if vacant < chunk {
        PaceStep::Backoff
    } else {
        PaceStep::Pushed
    }
}

/// Samples per chunk: the sample rate over the frame rate, a frame rate of 0
/// counting as 1.
pub open spec fn chunk_len(sample_rate: u32, target_fps: u32) -> nat {
    if target_fps == 0 {
        sample_rate as nat
    } else {
        (sample_rate / target_fps) as nat
    }
}

/// Microseconds per chunk: a million over the frame rate, a frame rate of 0
/// counting as 1.
pub open spec fn pace_micros(target_fps: u32) -> nat {
    if target_fps == 0 {
        1_000_000
    } else {
        (1_000_000int / target_fps as int) as nat
    }
}

/// The pacing state of one playback: the chunk size, the interval between
/// chunks, and the mono samples decoded but not yet emitted.
pub struct FilePlayer {
    samples_per_frame: usize,
    pace_interval_micros: u64,
    pending_mono: Vec<u32>,
}

impl FilePlayer {
    pub closed spec fn samples_per_frame(&self) -> nat {
        self.samples_per_frame as nat
    }

    pub closed spec fn pace_interval_micros(&self) -> nat {
        self.pace_interval_micros as nat
    }

    /// The samples decoded and not yet emitted, oldest first.
    pub closed spec fn pending(&self) -> Seq<u32> {
        self.pending_mono@
    }

    /// Pacing for a track of the given rate, with nothing pending.
    pub fn new(sample_rate: u32, target_fps: u32) -> (player: Self)
        ensures
            player.samples_per_frame() == chunk_len(sample_rate, target_fps),
            player.pace_interval_micros() == pace_micros(target_fps),
            player.pending() == Seq::<u32>::empty(),
    {
        if target_fps == 0 {
            FilePlayer {
                samples_per_frame: sample_rate as usize,
                pace_interval_micros: 1_000_000,
                pending_mono: Vec::new(),
            }
        } else {
            FilePlayer {
                samples_per_frame: (sample_rate / target_fps) as usize,
                pace_interval_micros: 1_000_000u64 / (target_fps as u64),
                pending_mono: Vec::new(),
            }
        }
    }

    /// The chunk size in samples.
    pub fn chunk_size(&self) -> (n: usize)
        ensures
            n == self.samples_per_frame(),
    {
        self.samples_per_frame
    }

    /// The interval between two chunks, in microseconds.
    pub fn pace_interval(&self) -> (micros: u64)
        ensures
            micros == self.pace_interval_micros(),
    {
        self.pace_interval_micros
    }

    /// The number of samples pending.
    pub fn pending_len(&self) -> (n: usize)
        ensures
            n == self.pending().len(),
    {
        self.pending_mono.len()
    }

    /// What the decode thread does next, asked at the top of its loop.
    pub fn next_step(running: bool, paused: bool) -> (step: PlaybackStep)
        ensures
            step == playback_step(running, paused),
    {
        if !running {
            PlaybackStep::Stop
        } else if paused {
            PlaybackStep::WaitPaused
        } else {
            PlaybackStep::Decode
        }
    }

    /// What the decode thread does with a packet.
    pub fn on_packet(event: PacketEvent) -> (step: PacketStep)
        ensures
            step == packet_step(event),
    {
        match event {
            PacketEvent::EndOfStream => PacketStep::Finish,
            PacketEvent::OtherTrack => PacketStep::Skip,
            PacketEvent::Malformed => PacketStep::Skip,
            PacketEvent::Decoded => PacketStep::Enqueue,
        }
    }

    /// Appends freshly decoded mono samples to what is pending.
    pub fn enqueue(&mut self, mono: &[u32])
        ensures
            final(self).pending() == old(self).pending() + mono@,
            final(self).samples_per_frame() == old(self).samples_per_frame(),
            final(self).pace_interval_micros() == old(self).pace_interval_micros(),
    {
        self.pending_mono.extend_from_slice(mono);
    }

    /// One turn of the pacing loop, given the free room that the ring
    /// reported. On `Pushed` the oldest chunk leaves the pending samples and
    /// is returned; on any other step nothing changes and nothing is
    /// returned.
    pub fn next_chunk(&mut self, running: bool, vacant: usize) -> (turn: (PaceStep, Vec<u32>))
        ensures
            turn.0 == pace_step(
                old(self).pending().len(),
                old(self).samples_per_frame(),
                running,
                vacant as nat,
            ),
            turn.0 == PaceStep::Pushed ==> turn.1@ == old(self).pending().subrange(
                0,
                old(self).samples_per_frame() as int,
            ) && final(self).pending() == old(self).pending().subrange(
                old(self).samples_per_frame() as int,
                old(self).pending().len() as int,
            ),
            turn.0 != PaceStep::Pushed ==> turn.1@ == Seq::<u32>::empty() && final(self).pending()
                == old(self).pending(),
            final(self).samples_per_frame() == old(self).samples_per_frame(),
            final(self).pace_interval_micros() == old(self).pace_interval_micros(),
    {
        if self.pending_mono.len() < self.samples_per_frame {
            (PaceStep::NeedInput, Vec::new())
        } else if !running {
            (PaceStep::Cancelled, Vec::new())
        } else if vacant < self.samples_per_frame {
            (PaceStep::Backoff, Vec::new())
        } else {
            let mut chunk = self.pending_mono.split_off(self.samples_per_frame);
            std::mem::swap(&mut chunk, &mut self.pending_mono);
            (PaceStep::Pushed, chunk)
        }
    }

    /// One turn of the pacing loop against the ring itself: asks the ring
    /// for its free room, and hands it the oldest chunk if that room
    /// suffices. Whether it does is the ring's to say, but room that the
    /// writing half knew of is still there; everything else is fixed by the
    /// arguments. Returns the step and the number of samples that the ring
    /// took: a chunk that is handed over is taken whole, so paced playback
    /// loses no sample.
    pub fn pace(&mut self, producer: &mut SampleProducer, running: bool) -> (turn: (
        PaceStep,
        usize,
    ))
        ensures
            old(self).pending().len() < old(self).samples_per_frame() <==> turn.0
                == PaceStep::NeedInput,
            old(self).pending().len() >= old(self).samples_per_frame() && !running <==> turn.0
                == PaceStep::Cancelled,
            turn.0 == PaceStep::Pushed ==> turn.1 == old(self).samples_per_frame()
                && final(self).pending() == old(self).pending().subrange(
                old(self).samples_per_frame() as int,
                old(self).pending().len() as int,
            ),
            turn.0 != PaceStep::Pushed ==> turn.1 == 0 && final(self).pending() == old(
                self,
            ).pending(),
            turn.0 == PaceStep::Backoff ==> old(producer).vacancy() < old(
                self,
            ).samples_per_frame(),
            final(self).samples_per_frame() == old(self).samples_per_frame(),
            final(self).pace_interval_micros() == old(self).pace_interval_micros(),
            final(producer).capacity() == old(producer).capacity(),
            final(producer).vacancy() + turn.1 >= old(producer).vacancy(),
    {
        let vacant = producer.vacant_len();
        let (step, chunk) = self.next_chunk(running, vacant);
        if step == PaceStep::Pushed {
            let written = producer.push_slice(chunk.as_slice());
            (step, written)
        } else {
            (step, 0)
        }
    }

    /// One turn after the last packet: hands the ring what is still
    /// pending, the last and partial chunk, once the ring has room for all
    /// of it. Like a paced chunk it is never cut: while the ring has less
    /// room, nothing is written and the turn is to be repeated after
    /// `BACKOFF_MILLIS`. `NeedInput` says that nothing is pending.
    pub fn flush(&mut self, producer: &mut SampleProducer, running: bool) -> (turn: (
        PaceStep,
        usize,
    ))
        ensures
            old(self).pending().len() == 0 <==> turn.0 == PaceStep::NeedInput,
            old(self).pending().len() > 0 && !running <==> turn.0 == PaceStep::Cancelled,
            turn.0 == PaceStep::Pushed ==> turn.1 == old(self).pending().len()
                && final(self).pending() == Seq::<u32>::empty(),
            turn.0 != PaceStep::Pushed ==> turn.1 == 0 && final(self).pending() == old(
                self,
            ).pending(),
            turn.0 == PaceStep::Backoff ==> old(producer).vacancy() < old(self).pending().len(),
            final(self).samples_per_frame() == old(self).samples_per_frame(),
            final(self).pace_interval_micros() == old(self).pace_interval_micros(),
            final(producer).capacity() == old(producer).capacity(),
            final(producer).vacancy() + turn.1 >= old(producer).vacancy(),
    {
        if self.pending_mono.is_empty() {
            return (PaceStep::NeedInput, 0);
        }
        if !running {
            return (PaceStep::Cancelled, 0);
        }
        let vacant = producer.vacant_len();
        if vacant < self.pending_mono.len() {
            return (PaceStep::Backoff, 0);
        }
        let mut tail: Vec<u32> = Vec::new();
        std::mem::swap(&mut tail, &mut self.pending_mono);
        let written = producer.push_slice(tail.as_slice());
        (PaceStep::Pushed, written)
    }
}

} // verus!
