//! The coordinator of a session: its lifecycle and the analysis loop.
//!
//! Threads, the hardware stream and the sink belong to the caller. What
//! stands here is what the coordinator decides: what a start tears down and
//! sets up, what a stop releases, and what the analysis loop does with the
//! samples that one read of the ring buffer gave it.

use crate::audio::analysis::AnalysisResult;
use crate::audio::ring_buffer::{delivered, AudioRingBuffer, SampleConsumer, SampleProducer};
use crate::audio::types::{AudioConfig, AudioFrame};
use vstd::prelude::*;
use vstd::string::*;

verus! {

/// How many reads in a row may come up short before the source is given
/// up: about three seconds at sixty frames a second.
pub const STALL_LIMIT: u32 = 180;

/// How many windows the ring buffer of a session holds.
pub const RING_WINDOWS: usize = 4;

/// Where a session stands.
#[derive(Debug, Clone, Copy, PartialEq, Eq, Structural)]
pub enum SessionState {
    /// No session was ever started.
    Idle,
    /// A session is running.
    Running,
    /// The last session was stopped, or failed to start.
    Stopped,
}

/// Where the samples of a session come from.
#[derive(Debug, Clone, Copy, PartialEq, Eq, Structural)]
pub enum SourceKind {
    /// The callback of a hardware input stream.
    Live,
    /// The decode thread of a file.
    File,
}

/// What the caller has to release, in this order: the hardware stream, then
/// the source thread, then the analysis thread.
#[derive(Debug, Clone, Copy, PartialEq, Eq, Structural)]
pub struct Teardown {
    pub drop_stream: bool,
    pub join_source: bool,
    pub join_analysis: bool,
}

/// What the analysis loop does after a read of the ring buffer.
#[derive(Debug, Clone, Copy, PartialEq, Eq, Structural)]
pub enum LoopStep {
    /// A full window was read: analyse it and deliver the frame.
    Analyze,
    /// The read came up short: wait for the next turn.
    Wait,
    /// The read came up short once too often: deliver the sentinel frame
    /// and end the loop.
    SourceLost,
}

/// The coordinator's record of the session: the two flags that the workers
/// watch, and which handles it holds.
#[derive(Debug, Clone, Copy, PartialEq, Eq, Structural)]
pub struct AudioState {
    pub running: bool,
    pub paused: bool,
    pub stream: bool,
    pub file_handle: bool,
    pub analysis_handle: bool,
    pub started: bool,
}

/// Everything a start hands to the caller.
pub struct Startup {
    /// The configuration with every field in its range.
    pub config: AudioConfig,
    /// What is left of the session before, to be released first.
    pub teardown: Teardown,
    /// The writing half of the fresh ring buffer, for the source.
    pub producer: SampleProducer,
    /// The reading half of the fresh ring buffer, for the analysis loop.
    pub consumer: SampleConsumer,
    /// The time one turn of the analysis loop may take, in microseconds.
    pub frame_interval_micros: u64,
    /// The record as it was before the start, for a start that fails.
    pub before: AudioState,
}

/// The record of a session that holds nothing and watches nothing.
pub open spec fn at_rest(started: bool) -> AudioState {
    AudioState {
        running: false,
        paused: false,
        stream: false,
        file_handle: false,
        analysis_handle: false,
        started,
    }
}

/// What a stop has to release of a session.
pub open spec fn teardown_of(state: AudioState) -> Teardown {
    Teardown {
        drop_stream: state.stream,
        join_source: state.file_handle,
        join_analysis: state.analysis_handle,
    }
}

/// Whether the record is that of a session that is not running and holds
/// no handle.
pub open spec fn holds_nothing(state: AudioState) -> bool {
    !state.running && !state.stream && !state.file_handle && !state.analysis_handle
}

/// The record after its session was ended: not running, no handle held,
/// the pause flag and the memory of an earlier start as they were.
pub open spec fn halted(state: AudioState) -> AudioState {
    AudioState { paused: state.paused, ..at_rest(state.started) }
}

/// The record after a stop: a session that is not running and holds nothing
/// is left as it is; any other is ended, and its pause flag cleared.
pub open spec fn stopped(state: AudioState) -> AudioState {
    if holds_nothing(state) {
        state
    } else {
        at_rest(state.started)
    }
}

/// The record after a start, before any handle is held.
pub open spec fn begun() -> AudioState {
    AudioState { running: true, ..at_rest(true) }
}

/// A stop changes nothing of a session that is not running and holds
/// nothing, whatever its pause flag, and asks for nothing to be released:
/// stopping is harmless before any start, and idempotent.
pub proof fn lemma_stop_settles(state: AudioState)
    ensures
        holds_nothing(state) ==> stopped(state) == state && teardown_of(state) == (Teardown {
            drop_stream: false,
            join_source: false,
            join_analysis: false,
        }),
        holds_nothing(stopped(state)),
        stopped(stopped(state)) == stopped(state),
        stopped(state).phase() != SessionState::Running,
        stopped(at_rest(false)).phase() == SessionState::Idle,
{
}

/// A start that fails mutates nothing: the record goes back to what it was
/// before the start, less the session that the start had to end. Of a
/// session that was not running and held nothing, this is the record as it
/// was, pause flag included.
pub proof fn lemma_failed_start_restores(before: AudioState)
    ensures
        halted(before).paused == before.paused,
        halted(before).started == before.started,
        halted(before).phase() == stopped(before).phase(),
        holds_nothing(halted(before)),
        holds_nothing(before) ==> halted(before) == before,
{
}

/// The microseconds in one frame at the given rate.
pub open spec fn frame_micros(target_fps: u32) -> nat {
    (1_000_000int / target_fps as int) as nat
}

/// The step of the analysis loop after a read that gave `available` samples,
/// with `stalls` short reads before it.
pub open spec fn loop_step(fft_size: nat, stalls: nat, available: nat) -> LoopStep {
    if available >= fft_size {
        LoopStep::Analyze
    } else if stalls + 1 >= STALL_LIMIT {
        LoopStep::SourceLost
    } else {
        LoopStep::Wait
    }
}

/// Whether the analysis loop ends after a turn: it does once the source is
/// given up, and once the sink has refused a frame.
pub open spec fn loop_ends(step: LoopStep, delivered: bool) -> bool {
    match step {
        LoopStep::Analyze => !delivered,
        LoopStep::Wait => false,
        LoopStep::SourceLost => true,
    }
}

/// The count of short reads in a row after one more read.
pub open spec fn stalls_after(fft_size: nat, stalls: nat, available: nat) -> nat {
    if available >= fft_size {
        0
    } else if stalls + 1 >= STALL_LIMIT {
        STALL_LIMIT as nat
    } else {
        stalls + 1
    }
}

impl AudioState {
    /// The record before any session.
    pub fn new() -> (state: Self)
        ensures
            state == at_rest(false),
            state.phase() == SessionState::Idle,
    {
        AudioState {
            running: false,
            paused: false,
            stream: false,
            file_handle: false,
            analysis_handle: false,
            started: false,
        }
    }

    /// Where the session stands.
    pub open spec fn phase(&self) -> SessionState {
        if self.running {
            SessionState::Running
        } else if self.started {
            SessionState::Stopped
        } else {
            SessionState::Idle
        }
    }

    /// Where the session stands.
    pub fn state(&self) -> (phase: SessionState)
        ensures
            phase == self.phase(),
    {
        if self.running {
            SessionState::Running
        } else if self.started {
            SessionState::Stopped
        } else {
            SessionState::Idle
        }
    }

    /// Ends the session, if there is one: clears the cancellation flag and
    /// gives up every handle. The pause flag stays.
    pub fn stop_existing(&mut self) -> (teardown: Teardown)
        ensures
            teardown == teardown_of(*old(self)),
            *final(self) == halted(*old(self)),
    {
        let teardown = Teardown {
            drop_stream: self.stream,
            join_source: self.file_handle,
            join_analysis: self.analysis_handle,
        };
        self.running = false;
        self.stream = false;
        self.file_handle = false;
        self.analysis_handle = false;
        teardown
    }

    /// Stops the session and clears its pause flag. A session that is not
    /// running and holds nothing is left as it is, pause flag included, and
    /// nothing is asked for.
    pub fn stop_audio(&mut self) -> (teardown: Teardown)
        ensures
            teardown == teardown_of(*old(self)),
            *final(self) == stopped(*old(self)),
            holds_nothing(*old(self)) ==> *final(self) == *old(self),
    {
        let idle = !self.running && !self.stream && !self.file_handle && !self.analysis_handle;
        let teardown = self.stop_existing();
        if !idle {
            self.paused = false;
        }
        teardown
    }

    /// Flips the pause flag and returns its new value.
    pub fn toggle_pause(&mut self) -> (paused: bool)
        ensures
            paused == !old(self).paused,
            *final(self) == (AudioState { paused, ..*old(self) }),
    {
        self.paused = !self.paused;
        self.paused
    }

    /// Starts a session: validates the configuration, ends the session
    /// before, makes a ring buffer of `RING_WINDOWS` windows and parts it,
    /// and sets the flags for the workers. No handle is held yet. The
    /// record as it was goes along, for `start_failed`.
    pub fn start(&mut self, config: AudioConfig) -> (startup: Startup)
        ensures
            startup.config == config.validation(),
            startup.teardown == teardown_of(*old(self)),
            startup.before == *old(self),
            startup.producer.capacity() == RING_WINDOWS * startup.config.fft_size,
            startup.producer.vacancy() == RING_WINDOWS * startup.config.fft_size,
            startup.consumer.capacity() == RING_WINDOWS * startup.config.fft_size,
            startup.consumer.known() == Seq::<u32>::empty(),
            startup.frame_interval_micros == frame_micros(startup.config.target_fps),
            *final(self) == begun(),
    {
        let before = *self;
        let config = config.validated();
        let teardown = self.stop_existing();
        proof {
            crate::audio::types::lemma_fft_sizes(config.fft_size);
        }
        let ring = AudioRingBuffer::new(config.fft_size * RING_WINDOWS);
        let (producer, consumer) = ring.split();
        self.running = true;
        self.paused = false;
        self.started = true;
        let frame_interval_micros = frame_interval_micros(config.target_fps);
        Startup { config, teardown, producer, consumer, frame_interval_micros, before }
    }

    /// Records that the source of the given kind is up.
    pub fn source_started(&mut self, source: SourceKind)
        ensures
            *final(self) == match source {
                SourceKind::Live => AudioState { stream: true, ..*old(self) },
                SourceKind::File => AudioState { file_handle: true, ..*old(self) },
            },
    {
        match source {
            SourceKind::Live => {
                self.stream = true;
            },
            SourceKind::File => {
                self.file_handle = true;
            },
        }
    }

    /// Records that the analysis loop is up.
    pub fn analysis_started(&mut self)
        ensures
            *final(self) == (AudioState { analysis_handle: true, ..*old(self) }),
    {
        self.analysis_handle = true;
    }

    /// Records that the source could not be brought up. `before` is the
    /// record as it was before the start. No session is left running, and
    /// the pause flag and the memory of an earlier start are as they were
    /// then: a failed start leaves no trace but the end of the session
    /// before.
    pub fn start_failed(&mut self, before: AudioState) -> (teardown: Teardown)
        ensures
            teardown == teardown_of(*old(self)),
            *final(self) == halted(before),
            holds_nothing(before) ==> *final(self) == before,
    {
        let teardown = self.stop_existing();
        self.paused = before.paused;
        self.started = before.started;
        teardown
    }
}

impl Default for AudioState {
    fn default() -> (state: Self)
        ensures
            state == at_rest(false),
    {
        AudioState::new()
    }
}

/// The time one turn of the analysis loop may take, in microseconds.
pub fn frame_interval_micros(target_fps: u32) -> (micros: u64)
    requires
        target_fps > 0,
    ensures
        micros == frame_micros(target_fps),
{
    1_000_000u64 / (target_fps as u64)
}

/// How long a turn that took `elapsed_micros` still has to sleep to fill its
/// interval, if at all.
pub fn remaining_micros(elapsed_micros: u64, interval_micros: u64) -> (rest: Option<u64>)
    ensures
        elapsed_micros < interval_micros ==> rest == Some(
            (interval_micros - elapsed_micros) as u64,
        ),
        elapsed_micros >= interval_micros ==> rest.is_none(),
{
    if elapsed_micros < interval_micros {
        Some(interval_micros - elapsed_micros)
    } else {
        None
    }
}

/// The analysis loop's count of reads that came up short. The loop does
/// not look at the pause flag: while a paused file source feeds nothing,
/// its reads come up short and are counted like any others, and a pause
/// that outlasts `STALL_LIMIT` turns ends the loop with the sentinel frame.
pub struct AnalysisLoop {
    fft_size: usize,
    stall_count: u32,
}

impl AnalysisLoop {
    /// The number of samples in one window.
    pub closed spec fn fft_size(&self) -> nat {
        self.fft_size as nat
    }

    /// The number of short reads since the last full one.
    pub closed spec fn stalls(&self) -> nat {
        self.stall_count as nat
    }

    /// The count never passes the limit.
    pub closed spec fn wf(&self) -> bool {
        self.stall_count <= STALL_LIMIT
    }

    /// A loop for windows of `fft_size` samples, with no short read so far.
    pub fn new(fft_size: usize) -> (analysis: Self)
        ensures
            analysis.wf(),
            analysis.fft_size() == fft_size,
            analysis.stalls() == 0,
    {
        AnalysisLoop { fft_size, stall_count: 0 }
    }

    /// What to do after a read that gave `available` samples.
    pub fn on_read(&mut self, available: usize) -> (step: LoopStep)
        requires
            old(self).wf(),
        ensures
            final(self).wf(),
            step == loop_step(old(self).fft_size(), old(self).stalls(), available as nat),
            final(self).stalls() == stalls_after(
                old(self).fft_size(),
                old(self).stalls(),
                available as nat,
            ),
            final(self).fft_size() == old(self).fft_size(),
    {
        if available >= self.fft_size {
            self.stall_count = 0;
            LoopStep::Analyze
        } else if self.stall_count + 1 >= STALL_LIMIT {
            self.stall_count = STALL_LIMIT;
            LoopStep::SourceLost
        } else {
            self.stall_count = self.stall_count + 1;
            LoopStep::Wait
        }
    }

    /// Whether the loop ends after a turn with the given step. `delivered`
    /// says whether the sink took the frame of this turn, and counts only
    /// where a frame was due.
    pub fn is_over(step: LoopStep, delivered: bool) -> (over: bool)
        ensures
            over == loop_ends(step, delivered),
    {
        match step {
            LoopStep::Analyze => !delivered,
            LoopStep::Wait => false,
            LoopStep::SourceLost => true,
        }
    }

    /// One read of the ring buffer into `buffer`, and what to do after it.
    /// How much the ring gave is the ring's to say, and is returned beside
    /// the step that follows from it. What the reading half knew to be
    /// queued arrives first and in its order, so a window that it knew of
    /// is read whole and analysed.
    pub fn poll(&mut self, consumer: &mut SampleConsumer, buffer: &mut Vec<u32>) -> (turn: (
        LoopStep,
        usize,
    ))
        requires
            old(self).wf(),
        ensures
            final(self).wf(),
            turn.1 <= old(buffer)@.len(),
            final(buffer)@.len() == old(buffer)@.len(),
            turn.0 == loop_step(old(self).fft_size(), old(self).stalls(), turn.1 as nat),
            final(self).stalls() == stalls_after(
                old(self).fft_size(),
                old(self).stalls(),
                turn.1 as nat,
            ),
            final(self).fft_size() == old(self).fft_size(),
            final(consumer).capacity() == old(consumer).capacity(),
            turn.1 >= delivered(old(buffer)@.len(), old(consumer).known().len()),
            old(buffer)@.len() >= old(self).fft_size() && old(consumer).known().len() >= old(
                self,
            ).fft_size() ==> turn.0 == LoopStep::Analyze,
            forall|i: int|
                0 <= i < turn.1 && i < old(consumer).known().len() ==> final(buffer)@[i] == old(
                    consumer,
                ).known()[i],
            forall|i: int|
                turn.1 <= i < old(buffer)@.len() ==> final(buffer)@[i] == old(buffer)@[i],
            final(consumer).known().len() + turn.1 >= old(consumer).known().len(),
            forall|i: int|
                turn.1 <= i < old(consumer).known().len() ==> final(consumer).known()[i
                    - turn.1] == old(consumer).known()[i],
    {
        let available = consumer.pop_slice(buffer);
        let step = self.on_read(available);
        (step, available)
    }
}

/// The frame for the sink, from what the analyzer and the beat detector
/// found in one window.
pub fn assemble_frame(result: AnalysisResult, beat: bool, bpm: u32, timestamp: u64) -> (frame:
    AudioFrame)
    ensures
        frame.spectrum == result.spectrum,
        frame.waveform == result.waveform,
        frame.rms == result.rms,
        frame.centroid == result.centroid,
        frame.flux == result.flux,
        frame.zcr == result.zcr,
        frame.beat == beat,
        frame.bpm == bpm,
        frame.timestamp == timestamp,
{
    AudioFrame {
        spectrum: result.spectrum,
        waveform: result.waveform,
        rms: result.rms,
        centroid: result.centroid,
        flux: result.flux,
        zcr: result.zcr,
        beat,
        bpm,
        timestamp,
    }
}

/// The name and version of the application.
pub fn get_app_info() -> (info: String)
    ensures
        info@ == "SynthWave v0.1.0"@,
{
    String::from_str("SynthWave v0.1.0")
}

} // verus!
