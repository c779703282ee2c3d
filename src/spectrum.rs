//! Selection of the spectrum bins worth displaying.
//!
//! A transform of `window_len` real samples is symmetric, so only its first
//! half is kept. Bin `i` stands for the frequency `i * sample_rate / window_len`
//! Hz, and only bins strictly between 20 Hz and 20 kHz are audible.
use vstd::prelude::*;

verus! {

/// Lowest frequency shown, in Hz (exclusive).
pub const MIN_AUDIBLE_HZ: u64 = 20;

/// Highest frequency shown, in Hz (exclusive).
pub const MAX_AUDIBLE_HZ: u64 = 20000;

/// The frequency of bin `bin`, `bin * sample_rate / window_len`, lies strictly
/// between 20 Hz and 20 kHz. Stated without division:
/// `20 < bin * sample_rate / window_len < 20000`.
pub open spec fn audible(bin: nat, sample_rate: nat, window_len: nat) -> bool {
    &&& MIN_AUDIBLE_HZ * window_len < bin * sample_rate
    &&& bin * sample_rate < MAX_AUDIBLE_HZ * window_len
}

/// `bins` are the audible bins of the first half of `transform`, each once,
/// in order of increasing index, each with its amplitude.
pub open spec fn is_analysis_of<T>(
    bins: Seq<SpectrumBin<T>>,
    transform: Seq<T>,
    sample_rate: nat,
    window_len: nat,
) -> bool {
    &&& forall|k: int|
        0 <= k < bins.len() ==> {
            &&& (#[trigger] bins[k]).bin < window_len / 2
            &&& audible(bins[k].bin as nat, sample_rate, window_len)
            &&& bins[k].amplitude == transform[bins[k].bin as int]
        }
    &&& forall|a: int, b: int| 0 <= a < b < bins.len() ==> bins[a].bin < bins[b].bin
    &&& forall|i: nat|
        i < window_len / 2 && audible(i, sample_rate, window_len) ==> exists|k: int|
            0 <= k < bins.len() && #[trigger] bins[k].bin == i
}

/// One retained bin of a transform: its complex amplitude and its index, from
/// which the frequency `bin * sample_rate / window_len` follows.
pub struct SpectrumBin<T> {
    pub amplitude: T,
    pub bin: usize,
}

/// The first half of a transform's output; the second half mirrors it.
pub fn half_spectrum<T: Copy>(transform: &Vec<T>) -> (r: Vec<T>)
    ensures
        r@.len() == transform@.len() / 2,
        r@ == transform@.subrange(0, (transform@.len() / 2) as int),
{
    let half = transform.len() / 2;
    let mut r: Vec<T> = Vec::with_capacity(half);
    let mut i: usize = 0;
    while i < half
        invariant
            half == transform@.len() / 2,
            0 <= i <= half,
            r@ == transform@.subrange(0, i as int),
        decreases half - i,
    {
        let x: T = transform[i];
        r.push(x);
        i = i + 1;
    }
    r
}

/// Whether bin `bin` of a transform over `window_len` samples at `sample_rate`
/// Hz is audible.
pub fn is_audible(bin: usize, sample_rate: u32, window_len: usize) -> (r: bool)
    ensures
        r == audible(bin as nat, sample_rate as nat, window_len as nat),
{
    proof {
        assert(bin as int * sample_rate as int <= 0xffff_ffff_ffff_ffffint * 0xffff_ffffint)
            by (nonlinear_arith)
            requires
                0 <= bin as int <= 0xffff_ffff_ffff_ffffint,
                0 <= sample_rate as int <= 0xffff_ffffint,
        ;
        assert(window_len as int <= 0xffff_ffff_ffff_ffffint);
        assert(MIN_AUDIBLE_HZ as int * window_len as int <= 20 * 0xffff_ffff_ffff_ffffint);
        assert(MAX_AUDIBLE_HZ as int * window_len as int <= 20000 * 0xffff_ffff_ffff_ffffint);
    }
    let f = (bin as u128) * (sample_rate as u128);
    let lo = (MIN_AUDIBLE_HZ as u128) * (window_len as u128);
    let hi = (MAX_AUDIBLE_HZ as u128) * (window_len as u128);
    lo < f && f < hi
}

/// Turns the output of a transform over one analysis window into the batch
/// of spectrum bins handed to the display.
pub struct SpectralAnalyzer {
    sample_rate: u32,
    window_len: usize,
}

impl SpectralAnalyzer {
    pub closed spec fn spec_sample_rate(&self) -> nat {
        self.sample_rate as nat
    }

    pub closed spec fn spec_window_len(&self) -> nat {
        self.window_len as nat
    }

    pub fn new(sample_rate: u32, window_len: usize) -> (r: Self)
        ensures
            r.spec_sample_rate() == sample_rate,
            r.spec_window_len() == window_len,
    {
        SpectralAnalyzer { sample_rate, window_len }
    }

    pub fn sample_rate(&self) -> (r: u32)
        ensures
            r == self.spec_sample_rate(),
    {
        self.sample_rate
    }

    pub fn window_len(&self) -> (r: usize)
        ensures
            r == self.spec_window_len(),
    {
        self.window_len
    }

    /// Keeps the audible bins of the first half of `transform`, in order of
    /// increasing bin index and so of increasing frequency.
    pub fn analyze<T: Copy>(&self, transform: &Vec<T>) -> (r: Vec<SpectrumBin<T>>)
        requires
            transform@.len() == self.spec_window_len(),
        ensures
            is_analysis_of(r@, transform@, self.spec_sample_rate(), self.spec_window_len()),
    {
        let half = half_spectrum(transform);
        let mut r: Vec<SpectrumBin<T>> = Vec::new();
        let mut i: usize = 0;
        while i < half.len()
            invariant
                half@ == transform@.subrange(0, (transform@.len() / 2) as int),
                transform@.len() == self.spec_window_len(),
                0 <= i <= half@.len(),
                forall|k: int|
                    0 <= k < r@.len() ==> {
                        &&& (#[trigger] r@[k]).bin < i
                        &&& audible(r@[k].bin as nat, self.spec_sample_rate(), self.spec_window_len())
                        &&& r@[k].amplitude == transform@[r@[k].bin as int]
                    },
                forall|a: int, b: int| 0 <= a < b < r@.len() ==> r@[a].bin < r@[b].bin,
                forall|j: nat|
                    j < i && audible(j, self.spec_sample_rate(), self.spec_window_len())
                        ==> exists|k: int| 0 <= k < r@.len() && #[trigger] r@[k].bin == j,
            decreases half@.len() - i,
        {
            if is_audible(i, self.sample_rate, self.window_len) {
                let bin = SpectrumBin { amplitude: half[i], bin: i };
                let ghost prev = r@;
                r.push(bin);
                proof {
                    let last = r@.len() - 1;
                    assert(r@ == prev.push(bin));
                    assert(r@[last].bin == i);
                    assert forall|j: nat|
                        j < i + 1 && audible(j, self.spec_sample_rate(), self.spec_window_len())
                        implies exists|k: int| 0 <= k < r@.len() && #[trigger] r@[k].bin == j by {
                        if j == i {
                            assert(r@[last].bin == j);
                        } else {
                            let k0 = choose|k: int| 0 <= k < prev.len() && #[trigger] prev[k].bin == j;
                            assert(r@[k0] == prev[k0]);
                        }
                    }
                }
            }
            i = i + 1;
        }
        r
    }
}

/// Frequencies of the analyzed bins rise strictly and stay audible: for an
/// analysis of any window, each bin's frequency `bin * sample_rate /
/// window_len` lies strictly between 20 Hz and 20 kHz, and a later bin has a
/// strictly higher frequency than an earlier one.
pub proof fn lemma_analyzed_frequencies_increase<T>(
    bins: Seq<SpectrumBin<T>>,
    transform: Seq<T>,
    sample_rate: nat,
    window_len: nat,
    a: int,
    b: int,
)
    requires
        sample_rate > 0,
        is_analysis_of(bins, transform, sample_rate, window_len),
        0 <= a < b < bins.len(),
    ensures
        MIN_AUDIBLE_HZ * window_len < bins[a].bin * sample_rate < MAX_AUDIBLE_HZ * window_len,
        MIN_AUDIBLE_HZ * window_len < bins[b].bin * sample_rate < MAX_AUDIBLE_HZ * window_len,
        bins[a].bin * sample_rate < bins[b].bin * sample_rate,
{
    let fa = bins[a].bin as nat;
    let fb = bins[b].bin as nat;
    assert(bins[a].bin < bins[b].bin);
    assert(fa * sample_rate < fb * sample_rate) by (nonlinear_arith)
        requires
            fa < fb,
            sample_rate > 0,
    ;
    assert(audible(bins[a].bin as nat, sample_rate, window_len));
    assert(audible(bins[b].bin as nat, sample_rate, window_len));
}

} // verus!
