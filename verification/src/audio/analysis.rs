//! The bookkeeping of the spectral analyzer.
//!
//! The transform and the arithmetic on magnitudes are done by the caller, on
//! numbers. Here stand the parts of an analysis that are decided on bit
//! patterns alone: whether there is a full window to analyse and which
//! samples it holds, by which peak a spectrum is scaled, which samples make
//! up the waveform for display, how often the signal changes sign, and
//! which spectrum the next frame is compared with.

use crate::encoding::{le, less, less_eq, lt, nan, rank, ZERO};
use vstd::prelude::*;

verus! {

/// The largest number of points in a waveform for display.
pub const WAVEFORM_POINTS: usize = 1024;

/// The encoding of 1e-10: a spectrum whose magnitudes sum to less has no
/// centroid to speak of.
pub const FAINT: u32 = 0x2edb_e6ff;

/// What one window yields. Every number is a single-precision bit pattern.
#[derive(Debug, Clone)]
pub struct AnalysisResult {
    /// Magnitudes of the positive-frequency bins, scaled by their peak.
    pub spectrum: Vec<u32>,
    /// The window's samples, thinned out to at most `WAVEFORM_POINTS`.
    pub waveform: Vec<u32>,
    pub rms: u32,
    pub centroid: u32,
    pub flux: u32,
    pub zcr: u32,
}

/// Whether the encoded number is at least zero. Both zeros are; no pattern
/// that is not a number is.
pub open spec fn non_negative(bits: u32) -> bool {
    le(ZERO, bits)
}

/// Whether the signal changes sign between sample `i` and the next.
pub open spec fn crosses(samples: Seq<u32>, i: int) -> bool {
    non_negative(samples[i]) != non_negative(samples[i + 1])
}

/// The number of sign changes among the first `pairs` adjacent pairs.
pub open spec fn crossings(samples: Seq<u32>, pairs: nat) -> nat
    decreases pairs,
{
    if pairs == 0 {
        0
    } else {
        crossings(samples, (pairs - 1) as nat) + if crosses(samples, pairs - 1) {
            1nat
        } else {
            0nat
        }
    }
}

/// Whether `peak` is the peak of a spectrum: the largest of its magnitudes,
/// or zero if none of them exceeds zero. Patterns that are not numbers are
/// passed over.
pub open spec fn is_peak(spectrum: Seq<u32>, peak: u32) -> bool {
    &&& !nan(peak)
    &&& forall|i: int| 0 <= i < spectrum.len() ==> !lt(peak, #[trigger] spectrum[i])
    &&& if rank(peak) > 0 {
        exists|i: int| 0 <= i < spectrum.len() && #[trigger] spectrum[i] == peak
    } else {
        peak == ZERO
    }
}

/// Whether a spectrum whose magnitudes sum to `total` has a centroid: the
/// sum is not below `FAINT`. Without one the centroid counts as zero.
pub open spec fn centroid_defined(total: u32) -> bool {
    !lt(total, FAINT)
}

/// The number of adjacent pairs in a signal of `len` samples.
pub open spec fn pair_count(len: nat) -> nat {
    if len < 2 {
        0
    } else {
        (len - 1) as nat
    }
}

/// A signal thinned out to at most `points` samples: a signal that short is
/// kept whole; of a longer one, point `i` is the sample at `i * len / points`,
/// rounded down.
pub open spec fn downsampled(samples: Seq<u32>, points: nat) -> Seq<u32> {
    if samples.len() <= points {
        samples
    } else {
        Seq::new(points, |i: int| samples[i * samples.len() / points as int])
    }
}

/// A spectrum of zeros has a peak of zero.
pub proof fn lemma_silent_spectrum_has_no_peak(spectrum: Seq<u32>, peak: u32)
    requires
        forall|i: int| 0 <= i < spectrum.len() ==> spectrum[i] == ZERO,
        is_peak(spectrum, peak),
    ensures
        peak == ZERO,
{
}

/// A thinned-out signal never has more points than asked for, nor more than
/// the signal has samples, and each of its points is a sample of the signal.
pub proof fn lemma_downsampled_is_bounded(samples: Seq<u32>, points: nat)
    ensures
        downsampled(samples, points).len() <= points,
        downsampled(samples, points).len() <= samples.len(),
        forall|i: int|
            0 <= i < downsampled(samples, points).len() ==> samples.contains(
                #[trigger] downsampled(samples, points)[i],
            ),
{
    let thin = downsampled(samples, points);
    assert forall|i: int| 0 <= i < thin.len() implies samples.contains(#[trigger] thin[i]) by {
        if samples.len() <= points {
            assert(thin[i] == samples[i]);
        } else {
            lemma_stride_in_range(i, samples.len() as int, points as int);
            assert(thin[i] == samples[i * samples.len() / points as int]);
        }
    }
}

/// The sample picked for point `i` lies within the signal.
proof fn lemma_stride_in_range(i: int, len: int, points: int)
    requires
        0 <= i < points,
        0 < len,
    ensures
        0 <= i * len / points < len,
{
    assert(0 <= i * len) by (nonlinear_arith)
        requires
            0 <= i,
            0 < len,
    ;
    assert(i * len < points * len) by (nonlinear_arith)
        requires
            0 <= i < points,
            0 < len,
    ;
    assert(i * len / points < len) by (nonlinear_arith)
        requires
            0 <= i * len < points * len,
            0 < points,
    ;
    assert(0 <= i * len / points) by (nonlinear_arith)
        requires
            0 <= i * len,
            0 < points,
    ;
}

/// The window size, the window function, and the spectrum of the frame
/// before.
pub struct AudioAnalyzer {
    fft_size: usize,
    window: Vec<u32>,
    prev_spectrum: Vec<u32>,
}

impl AudioAnalyzer {
    /// The number of samples in one window.
    pub closed spec fn fft_size(&self) -> nat {
        self.fft_size as nat
    }

    /// The window function, one factor per sample.
    pub closed spec fn window(&self) -> Seq<u32> {
        self.window@
    }

    /// The spectrum that the next one is compared with.
    pub closed spec fn previous(&self) -> Seq<u32> {
        self.prev_spectrum@
    }

    /// The window function covers one window, and a spectrum has half as
    /// many bins.
    pub closed spec fn wf(&self) -> bool {
        &&& self.window@.len() == self.fft_size
        &&& self.prev_spectrum@.len() == self.fft_size / 2
    }

    /// An analyzer for windows of `fft_size` samples that has seen no frame
    /// yet: the spectrum before the first is all zero.
    pub fn new(fft_size: usize, window: Vec<u32>) -> (analyzer: Self)
        requires
            window@.len() == fft_size,
        ensures
            analyzer.wf(),
            analyzer.fft_size() == fft_size,
            analyzer.window() == window@,
            analyzer.previous() == Seq::new((fft_size / 2) as nat, |i: int| ZERO),
    {
        let spectrum_len = fft_size / 2;
        let mut prev_spectrum: Vec<u32> = Vec::new();
        while prev_spectrum.len() < spectrum_len
            invariant
                prev_spectrum@.len() <= spectrum_len,
                forall|i: int| 0 <= i < prev_spectrum@.len() ==> prev_spectrum@[i] == ZERO,
            decreases spectrum_len - prev_spectrum@.len(),
        {
            prev_spectrum.push(ZERO);
        }
        assert(prev_spectrum@ =~= Seq::new(spectrum_len as nat, |i: int| ZERO));
        AudioAnalyzer { fft_size, window, prev_spectrum }
    }

    /// The number of samples in one window.
    pub fn window_len(&self) -> (n: usize)
        ensures
            n == self.fft_size(),
    {
        self.fft_size
    }

    /// The number of bins in a spectrum.
    pub fn spectrum_len(&self) -> (n: usize)
        ensures
            n == self.fft_size() / 2,
    {
        self.fft_size / 2
    }

    /// The window function.
    pub fn window_function(&self) -> (window: &Vec<u32>)
        ensures
            window@ == self.window(),
    {
        &self.window
    }

    /// The spectrum of the frame before.
    pub fn previous_spectrum(&self) -> (spectrum: &Vec<u32>)
        ensures
            spectrum@ == self.previous(),
    {
        &self.prev_spectrum
    }

    /// The samples to transform: the first `fft_size` of `samples`, or
    /// nothing while there are fewer.
    pub fn take_window(&self, samples: &[u32]) -> (taken: Option<Vec<u32>>)
        ensures
            samples@.len() < self.fft_size() <==> taken.is_none(),
            taken matches Some(head) ==> head@ == samples@.subrange(0, self.fft_size() as int),
    {
        if samples.len() < self.fft_size {
            return None;
        }
        let mut head: Vec<u32> = Vec::new();
        let mut i: usize = 0;
        while i < self.fft_size
            invariant
                i <= self.fft_size <= samples@.len(),
                head@ == samples@.subrange(0, i as int),
            decreases self.fft_size - i,
        {
            head.push(samples[i]);
            i += 1;
            assert(head@ =~= samples@.subrange(0, i as int));
        }
        Some(head)
    }

    /// Makes `spectrum` the one that the next frame is compared with.
    pub fn remember(&mut self, spectrum: &Vec<u32>)
        requires
            old(self).wf(),
            spectrum@.len() == old(self).fft_size() / 2,
        ensures
            final(self).wf(),
            final(self).previous() == spectrum@,
            final(self).fft_size() == old(self).fft_size(),
            final(self).window() == old(self).window(),
    {
        self.prev_spectrum = spectrum.clone();
    }

    /// The peak magnitude of a spectrum, by which it is scaled into
    /// `[0, 1]`. A peak of zero means silence, and no scaling.
    pub fn peak(spectrum: &[u32]) -> (peak: u32)
        ensures
            is_peak(spectrum@, peak),
    {
        let mut peak: u32 = ZERO;
        let mut i: usize = 0;
        while i < spectrum.len()
            invariant
                i <= spectrum@.len(),
                is_peak(spectrum@.subrange(0, i as int), peak),
            decreases spectrum@.len() - i,
        {
            let ghost seen = spectrum@.subrange(0, i as int);
            let ghost next = spectrum@.subrange(0, i + 1);
            let ghost before = peak;
            if less(peak, spectrum[i]) {
                peak = spectrum[i];
            }
            proof {
                assert forall|k: int| 0 <= k < next.len() implies !lt(peak, #[trigger] next[k]) by {
                    if k < i {
                        assert(next[k] == seen[k]);
                        assert(!lt(before, seen[k]));
                    }
                }
                if rank(peak) > 0 {
                    if peak == before {
                        let w = choose|w: int| 0 <= w < seen.len() && #[trigger] seen[w] == before;
                        assert(next[w] == peak);
                    } else {
                        assert(next[i as int] == peak);
                    }
                }
            }
            i += 1;
        }
        assert(spectrum@.subrange(0, i as int) =~= spectrum@);
        peak
    }

    /// The magnitude to divide a spectrum by so that it lies in `[0, 1]`:
    /// its peak, if that exceeds zero. A spectrum whose peak is zero is
    /// silence and is left as it is.
    pub fn scale_of(spectrum: &[u32]) -> (scale: Option<u32>)
        ensures
            scale matches Some(peak) ==> is_peak(spectrum@, peak) && lt(ZERO, peak),
            scale.is_none() <==> is_peak(spectrum@, ZERO),
    {
        let peak = Self::peak(spectrum);
        if less(ZERO, peak) {
            proof {
                let at = choose|i: int| 0 <= i < spectrum@.len() && #[trigger] spectrum@[i] == peak;
                assert(lt(ZERO, spectrum@[at]));
            }
            Some(peak)
        } else {
            None
        }
    }

    /// Whether a spectrum whose magnitudes sum to `total` has a centroid.
    /// Where it has none, the centroid is zero.
    pub fn has_centroid(total: u32) -> (defined: bool)
        ensures
            defined == centroid_defined(total),
    {
        !less(total, FAINT)
    }

    /// The signal thinned out to at most `target_len` samples, for display.
    pub fn downsample(samples: &[u32], target_len: usize) -> (waveform: Vec<u32>)
        ensures
            waveform@ == downsampled(samples@, target_len as nat),
    {
        let len = samples.len();
        let mut waveform: Vec<u32> = Vec::new();
        if len <= target_len {
            let mut i: usize = 0;
            while i < len
                invariant
                    i <= len,
                    len == samples@.len(),
                    waveform@ == samples@.subrange(0, i as int),
                decreases len - i,
            {
                waveform.push(samples[i]);
                i += 1;
                assert(waveform@ =~= samples@.subrange(0, i as int));
            }
            assert(waveform@ =~= samples@);
            return waveform;
        }
        let mut i: usize = 0;
        while i < target_len
            invariant
                i <= target_len < len,
                len == samples@.len(),
                waveform@.len() == i,
                forall|k: int|
                    0 <= k < i ==> waveform@[k] == samples@[k * len as int / target_len as int],
            decreases target_len - i,
        {
            proof {
                lemma_stride_in_range(i as int, len as int, target_len as int);
                assert(i * len < target_len * len) by (nonlinear_arith)
                    requires
                        0 <= i < target_len,
                        0 < len,
                ;
                assert(target_len * len <= usize::MAX * usize::MAX) by (nonlinear_arith)
                    requires
                        0 <= target_len <= usize::MAX,
                        0 <= len <= usize::MAX,
                ;
                assert(usize::MAX * usize::MAX <= u128::MAX) by (nonlinear_arith)
                    requires
                        usize::MAX <= u64::MAX,
                ;
            }
            let wide: u128 = (i as u128) * (len as u128) / (target_len as u128);
            let idx: usize = wide as usize;
            waveform.push(samples[idx]);
            i += 1;
        }
        assert(waveform@ =~= downsampled(samples@, target_len as nat));
        waveform
    }

    /// Closes the analysis of a window: thins the raw samples out for
    /// display, puts the measurements together, and remembers the spectrum
    /// for the next frame.
    pub fn complete(
        &mut self,
        samples: &[u32],
        spectrum: Vec<u32>,
        rms: u32,
        centroid: u32,
        flux: u32,
        zcr: u32,
    ) -> (result: AnalysisResult)
        requires
            old(self).wf(),
            spectrum@.len() == old(self).fft_size() / 2,
        ensures
            final(self).wf(),
            final(self).previous() == spectrum@,
            final(self).fft_size() == old(self).fft_size(),
            final(self).window() == old(self).window(),
            result.spectrum@ == spectrum@,
            result.waveform@ == downsampled(samples@, WAVEFORM_POINTS as nat),
            result.waveform@.len() <= WAVEFORM_POINTS,
            result.rms == rms,
            result.centroid == centroid,
            result.flux == flux,
            result.zcr == zcr,
    {
        proof {
            lemma_downsampled_is_bounded(samples@, WAVEFORM_POINTS as nat);
        }
        let waveform = Self::downsample(samples, WAVEFORM_POINTS);
        self.remember(&spectrum);
        AnalysisResult { spectrum, waveform, rms, centroid, flux, zcr }
    }

    /// The number of sign changes between adjacent samples, and the number
    /// of adjacent pairs. Their quotient is the zero-crossing rate; a signal
    /// of fewer than two samples has no pair and a rate of zero.
    pub fn zero_crossings(samples: &[u32]) -> (counts: (usize, usize))
        ensures
            counts.1 == pair_count(samples@.len()),
            counts.0 == crossings(samples@, counts.1 as nat),
            counts.0 <= counts.1,
    {
        if samples.len() < 2 {
            return (0, 0);
        }
        let pairs = samples.len() - 1;
        let mut count: usize = 0;
        let mut i: usize = 0;
        while i < pairs
            invariant
                i <= pairs,
                pairs == samples@.len() - 1,
                count == crossings(samples@, i as nat),
                count <= i,
            decreases pairs - i,
        {
            if less_eq(ZERO, samples[i]) != less_eq(ZERO, samples[i + 1]) {
                count += 1;
            }
            i += 1;
        }
        (count, pairs)
    }
}

} // verus!
