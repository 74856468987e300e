//! Spectral banding for visual feedback: the window of recent samples
//! that feeds the transform, and the grouping of transform bins into
//! logarithmic bands, each holding the peak level of its bins.

use vstd::prelude::*;

verus! {

/// Samples per transform window.
pub const FFT_SIZE: usize = 2048;

/// Bins of positive frequency per window.
pub const NUM_BINS: usize = 1024;

/// Bands per spectrum frame.
pub const NUM_BANDS: usize = 20;

/// The most recent samples, at most `FFT_SIZE` of them, oldest first.
pub struct AnalysisWindow<T> {
    samples: Vec<T>,
}

impl<T> View for AnalysisWindow<T> {
    type V = Seq<T>;

    closed spec fn view(&self) -> Seq<T> {
        self.samples@
    }
}

impl<T: Copy> AnalysisWindow<T> {
    pub open spec fn wf(&self) -> bool {
        self@.len() <= FFT_SIZE
    }

    /// An empty window.
    pub fn new() -> (r: Self)
        ensures
            r.wf(),
            r@.len() == 0,
    {
        AnalysisWindow { samples: Vec::new() }
    }

    /// Appends a sample, dropping the oldest once the window would hold
    /// more than `FFT_SIZE`.
    pub fn push(&mut self, x: T)
        requires
            old(self).wf(),
        ensures
            final(self).wf(),
            final(self)@ == if old(self)@.len() < FFT_SIZE {
                old(self)@.push(x)
            } else {
                old(self)@.push(x).drop_first()
            },
    {
        self.samples.push(x);
        if self.samples.len() > FFT_SIZE {
            self.samples.remove(0);
            assert(self.samples@ =~= old(self)@.push(x).drop_first());
        }
    }

    /// Whether a whole window has been gathered.
    pub fn is_full(&self) -> (r: bool)
        requires
            self.wf(),
        ensures
            r == (self@.len() == FFT_SIZE),
    {
        self.samples.len() == FFT_SIZE
    }

    /// The samples held, oldest first.
    pub fn as_slice(&self) -> (r: &[T])
        ensures
            r@ == self@,
    {
        self.samples.as_slice()
    }
}

/// The first bin of band `b`; `band_start(NUM_BANDS)` is one past the
/// last bin. Bin `i` belongs to band `floor(4 * ln((i + 1) / 1024) + 20)`,
/// clamped to `0 ..= 19`: these are the smallest bins at which that
/// value reaches each band.
pub open spec fn band_start(b: int) -> int {
    if b <= 0 {
        0
    } else if b == 1 {
        8
    } else if b == 2 {
        11
    } else if b == 3 {
        14
    } else if b == 4 {
        18
    } else if b == 5 {
        24
    } else if b == 6 {
        30
    } else if b == 7 {
        39
    } else if b == 8 {
        50
    } else if b == 9 {
        65
    } else if b == 10 {
        84
    } else if b == 11 {
        107
    } else if b == 12 {
        138
    } else if b == 13 {
        177
    } else if b == 14 {
        228
    } else if b == 15 {
        293
    } else if b == 16 {
        376
    } else if b == 17 {
        483
    } else if b == 18 {
        621
    } else if b == 19 {
        797
    } else {
        NUM_BINS as int
    }
}

/// Bin `i` lies in band `b`.
pub open spec fn in_band(i: int, b: int) -> bool {
    0 <= b < NUM_BANDS && band_start(b) <= i < band_start(b + 1)
}

/// The largest level in `s`, or 0 when it is empty.
pub open spec fn peak(s: Seq<u32>) -> u32
    decreases s.len(),
{
    if s.len() == 0 {
        0
    } else {
        let rest = peak(s.drop_last());
        if s.last() > rest {
            s.last()
        } else {
            rest
        }
    }
}

/// The peak level among the bins of band `b`.
pub open spec fn band_peak(levels: Seq<u32>, b: int) -> u32 {
    peak(levels.subrange(band_start(b), band_start(b + 1)))
}

fn band_start_of(b: usize) -> (r: usize)
    requires
        b <= NUM_BANDS,
    ensures
        r == band_start(b as int),
{
    match b {
        0 => 0,
        1 => 8,
        2 => 11,
        3 => 14,
        4 => 18,
        5 => 24,
        6 => 30,
        7 => 39,
        8 => 50,
        9 => 65,
        10 => 84,
        11 => 107,
        12 => 138,
        13 => 177,
        14 => 228,
        15 => 293,
        16 => 376,
        17 => 483,
        18 => 621,
        19 => 797,
        _ => NUM_BINS,
    }
}

proof fn lemma_band_start_ordered(a: int, b: int)
    requires
        0 <= a <= b <= NUM_BANDS,
    ensures
        band_start(a) <= band_start(b),
        a < b ==> band_start(a) < band_start(b),
{
}

/// The band that bin `i` falls in.
pub fn band_of_bin(i: usize) -> (b: usize)
    requires
        i < NUM_BINS,
    ensures
        in_band(i as int, b as int),
{
    let mut b: usize = 0;
    while b + 1 < NUM_BANDS && band_start_of(b + 1) <= i
        invariant
            b < NUM_BANDS,
            band_start(b as int) <= i,
            i < NUM_BINS,
        decreases NUM_BANDS - b,
    {
        b += 1;
    }
    b
}

/// Bands follow frequency: a higher bin never lies in a lower band.
pub proof fn lemma_bands_follow_frequency(i: int, j: int, bi: int, bj: int)
    requires
        i <= j,
        in_band(i, bi),
        in_band(j, bj),
    ensures
        bi <= bj,
{
    if bi > bj {
        lemma_band_start_ordered(bj + 1, bi);
    }
}

proof fn lemma_peak_bounds(s: Seq<u32>)
    ensures
        forall|k: int| 0 <= k < s.len() ==> s[k] <= peak(s),
        s.len() > 0 ==> exists|k: int| 0 <= k < s.len() && s[k] == peak(s),
    decreases s.len(),
{
    if s.len() > 0 {
        lemma_peak_bounds(s.drop_last());
        if peak(s.drop_last()) >= s.last() && s.len() > 1 {
            let k = choose|k: int| 0 <= k < s.len() - 1 && s.drop_last()[k] == peak(s.drop_last());
            assert(s[k] == peak(s));
        } else {
            assert(s[s.len() - 1] == peak(s));
        }
        assert forall|k: int| 0 <= k < s.len() implies s[k] <= peak(s) by {
            if k < s.len() - 1 {
                assert(s[k] == s.drop_last()[k]);
            }
        }
    }
}

/// Each band's level is the peak among its bins, so the band holding
/// the loudest bin is the loudest band, at exactly that bin's level.
pub proof fn lemma_loudest_bin_sets_loudest_band(levels: Seq<u32>, j: int, bj: int)
    requires
        levels.len() == NUM_BINS,
        0 <= j < NUM_BINS,
        forall|i: int| 0 <= i < NUM_BINS ==> levels[i] <= levels[j],
        in_band(j, bj),
    ensures
        band_peak(levels, bj) == levels[j],
        forall|b: int| 0 <= b < NUM_BANDS ==> band_peak(levels, b) <= levels[j],
{
    lemma_band_start_ordered(bj, bj + 1);
    let s = levels.subrange(band_start(bj), band_start(bj + 1));
    lemma_peak_bounds(s);
    assert(s[j - band_start(bj)] == levels[j]);
    assert forall|b: int| 0 <= b < NUM_BANDS implies band_peak(levels, b) <= levels[j] by {
        lemma_band_start_ordered(b, b + 1);
        let t = levels.subrange(band_start(b), band_start(b + 1));
        lemma_peak_bounds(t);
        let k = choose|k: int| 0 <= k < t.len() && t[k] == peak(t);
        assert(t[k] == levels[band_start(b) + k]);
    }
}

/// Groups the bin levels of one window into bands: band `b` gets the
/// peak level among its bins. Levels are any unsigned encoding that
/// orders as the magnitudes do; the bit patterns of non-negative
/// IEEE-754 single floats are one.
pub fn band_peaks(levels: &[u32]) -> (r: Vec<u32>)
    requires
        levels@.len() == NUM_BINS,
    ensures
        r@.len() == NUM_BANDS,
        forall|b: int| 0 <= b < NUM_BANDS ==> #[trigger] r@[b] == band_peak(levels@, b),
{
    let mut peaks: Vec<u32> = Vec::new();
    let mut b: usize = 0;
    while b < NUM_BANDS
        invariant
            levels@.len() == NUM_BINS,
            b <= NUM_BANDS,
            peaks@.len() == b,
            forall|c: int| 0 <= c < b ==> #[trigger] peaks@[c] == band_peak(levels@, c),
        decreases NUM_BANDS - b,
    {
        let start = band_start_of(b);
        let end = band_start_of(b + 1);
        proof {
            lemma_band_start_ordered(b as int, b as int + 1);
        }
        let mut level: u32 = 0;
        let mut i: usize = start;
        assert(levels@.subrange(start as int, start as int).len() == 0);
        while i < end
            invariant
                levels@.len() == NUM_BINS,
                start <= i <= end <= NUM_BINS,
                level == peak(levels@.subrange(start as int, i as int)),
            decreases end - i,
        {
            let x = levels[i];
            assert(levels@.subrange(start as int, i + 1).drop_last() =~= levels@.subrange(
                start as int,
                i as int,
            ));
            if x > level {
                level = x;
            }
            i += 1;
        }
        peaks.push(level);
        b += 1;
    }
    peaks
}

} // verus!
