//! The discrete half of the beat detector.
//!
//! The caller measures: the bass energy of a frame, the adaptive threshold
//! over the recent energies, the tempo that the recent beats suggest. This
//! module keeps the two bounded histories and the refractory counter, and
//! decides from the measurements whether a frame is a beat and whether a
//! tempo estimate is taken over.

use crate::audio::types::{sensitivity_ok, valid_sensitivity, validate_sensitivity};
use crate::encoding::{le, less, less_eq, lt, THOUSANDTH, ZERO};
use std::collections::VecDeque;
use vstd::prelude::*;

verus! {

/// How many bass energies are remembered: about a second of frames.
pub const HISTORY_SIZE: usize = 60;

/// How many energies must be there before any frame can be a beat.
pub const MIN_HISTORY: usize = 10;

/// How many frames a beat silences the detector for, itself included.
pub const COOLDOWN_FRAMES: usize = 6;

/// How many beat timestamps are remembered.
pub const BPM_HISTORY: usize = 20;

/// How many beat timestamps a tempo estimate needs.
pub const MIN_BEATS: usize = 3;

/// The encoding of 60, the slowest tempo taken for plausible.
pub const MIN_BPM: u32 = 0x4270_0000;

/// The encoding of 200, the fastest tempo taken for plausible.
pub const MAX_BPM: u32 = 0x4348_0000;

/// The state of a detector as contracts see it.
#[verifier::ext_equal]
pub struct BeatState {
    /// The recent bass energies, oldest first.
    pub energies: Seq<u32>,
    /// Frames to go until a beat can be declared again.
    pub cooldown: nat,
    /// The recent beat timestamps, oldest first.
    pub beats: Seq<u64>,
    pub sensitivity: u32,
    /// The smoothed tempo; zero while there is none.
    pub bpm: u32,
}

/// The number of bins in the bass band of a spectrum of `len` bins: the lowest eighth,
/// and at least one.
pub open spec fn bass_bins(len: nat) -> nat {
    if len / 8 >= 1 {
        len / 8
    } else {
        1
    }
}

/// The energy history after one more energy: the oldest makes room once
/// `HISTORY_SIZE` are held.
pub open spec fn recorded(energies: Seq<u32>, energy: u32) -> Seq<u32> {
    if energies.len() >= HISTORY_SIZE {
        energies.subrange(1, energies.len() as int).push(energy)
    } else {
        energies.push(energy)
    }
}

/// The refractory counter one frame later.
pub open spec fn cooled(cooldown: nat) -> nat {
    if cooldown > 0 {
        (cooldown - 1) as nat
    } else {
        0
    }
}

/// Whether a frame is a beat: at least `MIN_HISTORY` energies are held, the
/// frame's bass energy exceeds the threshold, the refractory counter has run
/// out with this frame, and the threshold itself exceeds a thousandth.
pub open spec fn is_beat(state: BeatState, energy: u32, threshold: u32) -> bool {
    &&& state.energies.len() >= MIN_HISTORY
    &&& lt(threshold, energy)
    &&& cooled(state.cooldown) == 0
    &&& lt(THOUSANDTH, threshold)
}

/// The beat timestamps after one more beat: only the `BPM_HISTORY` most
/// recent are kept.
pub open spec fn stamped(beats: Seq<u64>, timestamp: u64) -> Seq<u64> {
    if beats.len() + 1 > BPM_HISTORY {
        beats.subrange(1, beats.len() as int).push(timestamp)
    } else {
        beats.push(timestamp)
    }
}

/// The state after a frame with the given measurements. While fewer than
/// `MIN_HISTORY` energies are held, a frame changes nothing.
pub open spec fn detected(state: BeatState, energy: u32, threshold: u32, timestamp: u64)
    -> BeatState {
    if state.energies.len() < MIN_HISTORY {
        state
    } else if is_beat(state, energy, threshold) {
        let beats = stamped(state.beats, timestamp);
        BeatState {
            energies: state.energies,
            cooldown: COOLDOWN_FRAMES as nat,
            beats,
            sensitivity: state.sensitivity,
            bpm: if beats.len() < MIN_BEATS {
                ZERO
            } else {
                state.bpm
            },
        }
    } else {
        BeatState {
            energies: state.energies,
            cooldown: cooled(state.cooldown),
            beats: state.beats,
            sensitivity: state.sensitivity,
            bpm: state.bpm,
        }
    }
}

/// Whether a tempo is plausible: between 60 and 200 beats a minute.
pub open spec fn plausible(bpm: u32) -> bool {
    le(MIN_BPM, bpm) && le(bpm, MAX_BPM)
}

/// The tempo after an estimate: an implausible estimate changes nothing; a
/// first plausible one is taken as it is; a later one enters through
/// `blended`, the caller's mix of the current tempo and the estimate, which
/// is taken only if it is plausible itself.
pub open spec fn updated_bpm(current: u32, estimate: u32, blended: u32) -> u32 {
    if !plausible(estimate) {
        current
    } else if lt(ZERO, current) {
        if plausible(blended) {
            blended
        } else {
            current
        }
    } else {
        estimate
    }
}

/// The state after the bass energy of a frame was entered.
pub open spec fn observed(state: BeatState, energy: u32) -> BeatState {
    BeatState {
        energies: recorded(state.energies, energy),
        cooldown: state.cooldown,
        beats: state.beats,
        sensitivity: state.sensitivity,
        bpm: state.bpm,
    }
}

/// Whether every energy held is at least zero.
pub open spec fn all_non_negative(energies: Seq<u32>) -> bool {
    forall|i: int| 0 <= i < energies.len() ==> le(ZERO, #[trigger] energies[i])
}

pub struct BeatDetector {
    energy_history: VecDeque<u32>,
    cooldown_counter: usize,
    beat_timestamps: VecDeque<u64>,
    sensitivity: u32,
    current_bpm: u32,
}

impl View for BeatDetector {
    type V = BeatState;

    closed spec fn view(&self) -> BeatState {
        BeatState {
            energies: self.energy_history@,
            cooldown: self.cooldown_counter as nat,
            beats: self.beat_timestamps@,
            sensitivity: self.sensitivity,
            bpm: self.current_bpm,
        }
    }
}

impl BeatDetector {
    /// Neither history outgrows its bound, the counter never exceeds a
    /// full refractory period, and the tempo is zero or plausible.
    pub open spec fn wf(&self) -> bool {
        &&& self@.energies.len() <= HISTORY_SIZE
        &&& self@.beats.len() <= BPM_HISTORY
        &&& self@.cooldown <= COOLDOWN_FRAMES
        &&& (self@.bpm == ZERO || plausible(self@.bpm))
    }

    /// A detector that has seen nothing.
    pub fn new(sensitivity: u32) -> (detector: Self)
        ensures
            detector.wf(),
            detector@.energies == Seq::<u32>::empty(),
            detector@.cooldown == 0,
            detector@.beats == Seq::<u64>::empty(),
            detector@.sensitivity == sensitivity,
            detector@.bpm == ZERO,
    {
        BeatDetector {
            energy_history: VecDeque::new(),
            cooldown_counter: 0,
            beat_timestamps: VecDeque::new(),
            sensitivity,
            current_bpm: ZERO,
        }
    }

    /// Sets the sensitivity, moved into `[0.5, 2]`; a pattern that is not
    /// a number counts as 1.
    pub fn set_sensitivity(&mut self, sensitivity: u32)
        ensures
            final(self)@.sensitivity == valid_sensitivity(sensitivity),
            sensitivity_ok(final(self)@.sensitivity),
            old(self).wf() ==> final(self).wf(),
            final(self)@.energies == old(self)@.energies,
            final(self)@.cooldown == old(self)@.cooldown,
            final(self)@.beats == old(self)@.beats,
            final(self)@.bpm == old(self)@.bpm,
    {
        self.sensitivity = validate_sensitivity(sensitivity);
    }

    pub fn sensitivity(&self) -> (sensitivity: u32)
        ensures
            sensitivity == self@.sensitivity,
    {
        self.sensitivity
    }

    /// The smoothed tempo; zero while there is none.
    pub fn current_bpm(&self) -> (bpm: u32)
        ensures
            bpm == self@.bpm,
    {
        self.current_bpm
    }

    /// The number of bins in the bass band of a spectrum of `len` bins.
    pub fn bass_end(len: usize) -> (bins: usize)
        ensures
            bins == bass_bins(len as nat),
    {
        if len / 8 >= 1 {
            len / 8
        } else {
            1
        }
    }

    /// The recent bass energies, oldest first.
    pub fn energies(&self) -> (energies: Vec<u32>)
        ensures
            energies@ == self@.energies,
    {
        let mut energies: Vec<u32> = Vec::new();
        let mut i: usize = 0;
        while i < self.energy_history.len()
            invariant
                i <= self.energy_history@.len(),
                energies@ == self.energy_history@.subrange(0, i as int),
            decreases self.energy_history@.len() - i,
        {
            energies.push(self.energy_history[i]);
            i += 1;
            assert(energies@ =~= self.energy_history@.subrange(0, i as int));
        }
        assert(energies@ =~= self.energy_history@);
        energies
    }

    /// The recent beat timestamps, oldest first.
    pub fn beats(&self) -> (beats: Vec<u64>)
        ensures
            beats@ == self@.beats,
    {
        let mut beats: Vec<u64> = Vec::new();
        let mut i: usize = 0;
        while i < self.beat_timestamps.len()
            invariant
                i <= self.beat_timestamps@.len(),
                beats@ == self.beat_timestamps@.subrange(0, i as int),
            decreases self.beat_timestamps@.len() - i,
        {
            beats.push(self.beat_timestamps[i]);
            i += 1;
            assert(beats@ =~= self.beat_timestamps@.subrange(0, i as int));
        }
        assert(beats@ =~= self.beat_timestamps@);
        beats
    }

    /// Enters the bass energy of a frame into the history and says whether
    /// the history now suffices for a threshold.
    pub fn record_energy(&mut self, energy: u32) -> (ready: bool)
        requires
            old(self).wf(),
        ensures
            final(self).wf(),
            final(self)@.energies == recorded(old(self)@.energies, energy),
            ready == (final(self)@.energies.len() >= MIN_HISTORY),
            all_non_negative(old(self)@.energies) && le(ZERO, energy) ==> all_non_negative(
                final(self)@.energies,
            ),
            final(self)@.cooldown == old(self)@.cooldown,
            final(self)@.beats == old(self)@.beats,
            final(self)@.sensitivity == old(self)@.sensitivity,
            final(self)@.bpm == old(self)@.bpm,
    {
        proof {
            if all_non_negative(self@.energies) && le(ZERO, energy) {
                lemma_energies_stay_non_negative(self@.energies, energy);
            }
        }
        if self.energy_history.len() >= HISTORY_SIZE {
            let _ = self.energy_history.pop_front();
        }
        self.energy_history.push_back(energy);
        self.energy_history.len() >= MIN_HISTORY
    }

    /// Decides whether the frame with the given bass energy is a beat,
    /// against the given threshold. No frame is a beat while fewer than
    /// `MIN_HISTORY` energies are held, and such a frame changes nothing. A
    /// beat starts a refractory period and enters its timestamp into the
    /// beat history; with fewer than `MIN_BEATS` timestamps there the tempo
    /// falls back to zero.
    pub fn detect(&mut self, energy: u32, threshold: u32, timestamp: u64) -> (beat: bool)
        requires
            old(self).wf(),
        ensures
            final(self).wf(),
            beat == is_beat(old(self)@, energy, threshold),
            final(self)@ == detected(old(self)@, energy, threshold, timestamp),
    {
        if self.energy_history.len() < MIN_HISTORY {
            return false;
        }
        if self.cooldown_counter > 0 {
            self.cooldown_counter -= 1;
        }
        let beat = less(threshold, energy) && self.cooldown_counter == 0 && less(
            THOUSANDTH,
            threshold,
        );
        if beat {
            self.cooldown_counter = COOLDOWN_FRAMES;
            self.beat_timestamps.push_back(timestamp);
            if self.beat_timestamps.len() > BPM_HISTORY {
                let _ = self.beat_timestamps.pop_front();
            }
            if self.beat_timestamps.len() < MIN_BEATS {
                self.current_bpm = ZERO;
            }
        }
        proof {
            let after = detected(old(self)@, energy, threshold, timestamp);
            assert(self@.beats =~= after.beats);
            assert(self@ =~= after);
        }
        beat
    }

    /// Whether the beat history suffices for a tempo estimate.
    pub fn tempo_ready(&self) -> (ready: bool)
        ensures
            ready == (self@.beats.len() >= MIN_BEATS),
    {
        self.beat_timestamps.len() >= MIN_BEATS
    }

    /// Takes a tempo estimate into account. `blended` is the caller's mix of
    /// the current tempo and the estimate; it is used only where a tempo was
    /// there before, and only if it is plausible itself.
    pub fn update_bpm(&mut self, estimate: u32, blended: u32)
        requires
            old(self).wf(),
        ensures
            final(self).wf(),
            final(self)@.bpm == updated_bpm(old(self)@.bpm, estimate, blended),
            final(self)@.energies == old(self)@.energies,
            final(self)@.cooldown == old(self)@.cooldown,
            final(self)@.beats == old(self)@.beats,
            final(self)@.sensitivity == old(self)@.sensitivity,
    {
        if !(less_eq(MIN_BPM, estimate) && less_eq(estimate, MAX_BPM)) {
            return;
        }
        if less(ZERO, self.current_bpm) {
            if less_eq(MIN_BPM, blended) && less_eq(blended, MAX_BPM) {
                self.current_bpm = blended;
            }
        } else {
            self.current_bpm = estimate;
        }
    }
}

/// The measurements of one frame.
pub struct Measurement {
    pub energy: u32,
    pub threshold: u32,
    pub timestamp: u64,
}

/// The state after one frame: its energy is entered, then it is decided.
pub open spec fn framed(state: BeatState, frame: Measurement) -> BeatState {
    detected(observed(state, frame.energy), frame.energy, frame.threshold, frame.timestamp)
}

/// The state after a run of frames.
pub open spec fn after(state: BeatState, frames: Seq<Measurement>) -> BeatState
    decreases frames.len(),
{
    if frames.len() == 0 {
        state
    } else {
        framed(after(state, frames.drop_last()), frames.last())
    }
}

/// Whether frame `i` of a run is a beat.
pub open spec fn beat_at(state: BeatState, frames: Seq<Measurement>, i: int) -> bool {
    is_beat(
        observed(after(state, frames.take(i)), frames[i].energy),
        frames[i].energy,
        frames[i].threshold,
    )
}

/// A frame whose bass energy does not exceed a thousandth is no beat,
/// whatever the threshold and whatever came before. Silence, whose energy
/// is zero, therefore never yields a beat.
pub proof fn lemma_quiet_frame_is_no_beat(state: BeatState, energy: u32, threshold: u32)
    requires
        !lt(THOUSANDTH, energy),
    ensures
        !is_beat(state, energy, threshold),
{
}

/// As long as every energy entered is at least zero, every energy held is.
pub proof fn lemma_energies_stay_non_negative(energies: Seq<u32>, energy: u32)
    requires
        all_non_negative(energies),
        le(ZERO, energy),
    ensures
        all_non_negative(recorded(energies, energy)),
{
    let next = recorded(energies, energy);
    assert forall|i: int| 0 <= i < next.len() implies le(ZERO, #[trigger] next[i]) by {
        if energies.len() >= HISTORY_SIZE {
            if i < next.len() - 1 {
                assert(next[i] == energies[i + 1]);
            }
        } else {
            if i < next.len() - 1 {
                assert(next[i] == energies[i]);
            }
        }
    }
}

/// The history of a detector that started out blank holds one energy per
/// frame, up to its bound.
proof fn lemma_history_fills(state: BeatState, frames: Seq<Measurement>, k: int)
    requires
        state.energies.len() == 0,
        0 <= k <= frames.len(),
        k <= HISTORY_SIZE,
    ensures
        after(state, frames.take(k)).energies.len() == k,
    decreases k,
{
    let upto = frames.take(k);
    if k > 0 {
        assert(upto.drop_last() =~= frames.take(k - 1));
        lemma_history_fills(state, frames, k - 1);
    }
}

/// None of the first `MIN_HISTORY - 1` frames of a blank detector is a
/// beat, whatever was measured.
pub proof fn lemma_no_beat_before_history(state: BeatState, frames: Seq<Measurement>, i: int)
    requires
        state.energies.len() == 0,
        0 <= i < frames.len(),
        i + 1 < MIN_HISTORY,
    ensures
        !beat_at(state, frames, i),
{
    lemma_history_fills(state, frames, i);
}

/// The counter after frame `i + k` of a run whose frame `i` was a beat, as
/// long as the refractory period lasts.
proof fn lemma_cooldown_runs_down(state: BeatState, frames: Seq<Measurement>, i: int, k: int)
    requires
        0 <= i,
        0 <= k < COOLDOWN_FRAMES,
        i + k < frames.len(),
        beat_at(state, frames, i),
    ensures
        after(state, frames.take(i + k + 1)).cooldown == COOLDOWN_FRAMES - k,
        after(state, frames.take(i + k + 1)).energies.len() >= MIN_HISTORY,
        k > 0 ==> !beat_at(state, frames, i + k),
    decreases k,
{
    let upto = frames.take(i + k + 1);
    assert(upto.drop_last() =~= frames.take(i + k));
    assert(upto.last() == frames[i + k]);
    if k > 0 {
        lemma_cooldown_runs_down(state, frames, i, k - 1);
    }
}

/// Within a refractory period there is at most one beat: of two frames
/// fewer than `COOLDOWN_FRAMES` apart, not both are beats.
pub proof fn lemma_beats_keep_their_distance(
    state: BeatState,
    frames: Seq<Measurement>,
    i: int,
    j: int,
)
    requires
        0 <= i < j < frames.len(),
        j - i < COOLDOWN_FRAMES,
    ensures
        !(beat_at(state, frames, i) && beat_at(state, frames, j)),
{
    if beat_at(state, frames, i) {
        lemma_cooldown_runs_down(state, frames, i, j - i);
    }
}

/// The tempo is zero or plausible, and an update keeps it so.
pub proof fn lemma_tempo_stays_plausible(current: u32, estimate: u32, blended: u32)
    requires
        current == ZERO || plausible(current),
    ensures
        updated_bpm(current, estimate, blended) == ZERO || plausible(
            updated_bpm(current, estimate, blended),
        ),
{
}

} // verus!
