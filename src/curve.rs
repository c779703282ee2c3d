//! Index structure of the displayed curve.
//!
//! The spectrum is shown as a fixed number of display buckets. The bins of a
//! batch, in order of rising pitch, fall into consecutive buckets; each bucket
//! is then drawn as one key point, and the curve through the key points is
//! resampled at two interior points per segment before it is drawn as a chain
//! of cubic Bezier pieces.
use vstd::prelude::*;

verus! {

/// Number of display buckets, independent of the transform's resolution.
pub const DISPLAY_BUCKETS: usize = 150;

/// The run of bins `start .. end` that falls into one display bucket. An
/// empty run (`start == end`) is a bucket without bins, shown as zero.
#[derive(Clone, Copy, PartialEq, Eq, Structural, Debug)]
pub struct BucketSpan {
    pub start: usize,
    pub end: usize,
}

/// Bucket indices that never decrease along the batch and stay below the
/// number of buckets.
pub open spec fn valid_assignment(assignment: Seq<usize>) -> bool {
    &&& forall|i: int| 0 <= i < assignment.len() ==> (#[trigger] assignment[i]) < DISPLAY_BUCKETS
    &&& forall|i: int, j: int| 0 <= i <= j < assignment.len() ==> assignment[i] <= assignment[j]
}

/// Groups the bins of a batch by display bucket, given the bucket of each bin.
/// Span `b` holds exactly the bins assigned to bucket `b`.
pub fn bucket_spans(assignment: &Vec<usize>) -> (r: Vec<BucketSpan>)
    requires
        valid_assignment(assignment@),
    ensures
        r@.len() == DISPLAY_BUCKETS,
        forall|b: int|
            0 <= b < r@.len() ==> (#[trigger] r@[b]).start <= r@[b].end <= assignment@.len(),
        forall|b: int, i: int|
            0 <= b < r@.len() && 0 <= i < assignment@.len() ==> ((#[trigger] r@[b]).start <= i
                < r@[b].end <==> #[trigger] assignment@[i] == b),
{
    let n = assignment.len();
    let mut r: Vec<BucketSpan> = Vec::with_capacity(DISPLAY_BUCKETS);
    let mut pos: usize = 0;
    let mut b: usize = 0;
    while b < DISPLAY_BUCKETS
        invariant
            n == assignment@.len(),
            valid_assignment(assignment@),
            0 <= b <= DISPLAY_BUCKETS,
            r@.len() == b,
            0 <= pos <= n,
            forall|j: int| 0 <= j < pos ==> assignment@[j] < b,
            forall|j: int| pos <= j < n ==> assignment@[j] >= b,
            forall|c: int| 0 <= c < r@.len() ==> (#[trigger] r@[c]).start <= r@[c].end <= n,
            forall|c: int, i: int|
                0 <= c < r@.len() && 0 <= i < n ==> ((#[trigger] r@[c]).start <= i < r@[c].end
                    <==> #[trigger] assignment@[i] == c),
        decreases DISPLAY_BUCKETS - b,
    {
        let start = pos;
        while pos < n && assignment[pos] == b
            invariant
                n == assignment@.len(),
                valid_assignment(assignment@),
                start <= pos <= n,
                forall|j: int| start <= j < pos ==> assignment@[j] == b,
                forall|j: int| 0 <= j < start ==> assignment@[j] < b,
                forall|j: int| start <= j < n ==> assignment@[j] >= b,
            decreases n - pos,
        {
            pos = pos + 1;
        }
        proof {
            assert forall|j: int| pos <= j < n implies assignment@[j] >= b + 1 by {
                assert(assignment@[pos as int] <= assignment@[j]);
            }
        }
        let ghost prev = r@;
        r.push(BucketSpan { start, end: pos });
        proof {
            assert forall|c: int, i: int|
                0 <= c < r@.len() && 0 <= i < n implies ((#[trigger] r@[c]).start <= i < r@[c].end
                <==> #[trigger] assignment@[i] == c) by {
                if c < b {
                    assert(r@[c] == prev[c]);
                }
            }
        }
        b = b + 1;
    }
    r
}

/// One point of the resampled curve.
#[derive(Clone, Copy, PartialEq, Eq, Structural, Debug)]
pub enum CurvePoint {
    /// Key point `index`, kept exactly.
    Key { index: usize },
    /// The point a third (`third == 1`) or two thirds (`third == 2`) of the way
    /// from key point `segment` to key point `segment + 1`. It is `smooth` when
    /// the segment has a key point on either side, so that a cubic through
    /// four keys can be sampled there; else it lies on the straight line.
    Between { segment: usize, third: u8, smooth: bool },
}

/// A segment has a key point before its start and one after its end.
pub open spec fn smooth_segment(keys: nat, segment: nat) -> bool {
    segment >= 1 && segment + 2 < keys
}

/// Number of points of the resampled curve through `keys` key points.
pub open spec fn plan_len(keys: nat) -> nat {
    if keys == 0 {
        0
    } else {
        (3 * (keys - 1) + 1) as nat
    }
}

/// Point `j` of the resampled curve: every third point is a key point, and
/// two interior points follow each key point but the last.
pub open spec fn plan_point(keys: nat, j: nat) -> CurvePoint {
    if j % 3 == 0 {
        CurvePoint::Key { index: (j / 3) as usize }
    } else {
        CurvePoint::Between {
            segment: (j / 3) as usize,
            third: (j % 3) as u8,
            smooth: smooth_segment(keys, j / 3),
        }
    }
}

/// Which points to draw for a curve through `keys` key points.
pub fn interpolation_plan(keys: usize) -> (r: Vec<CurvePoint>)
    requires
        keys < 0x4000_0000,
    ensures
        r@.len() == plan_len(keys as nat),
        forall|j: int| 0 <= j < r@.len() ==> #[trigger] r@[j] == plan_point(keys as nat, j as nat),
{
    let mut r: Vec<CurvePoint> = Vec::new();
    if keys == 0 {
        return r;
    }
    let mut k: usize = 0;
    while k + 1 < keys
        invariant
            0 < keys < 0x4000_0000,
            k + 1 <= keys,
            r@.len() == 3 * k,
            forall|j: int| 0 <= j < r@.len() ==> #[trigger] r@[j] == plan_point(keys as nat, j as nat),
        decreases keys - k,
    {
        let smooth = k >= 1 && k + 2 < keys;
        let ghost prev = r@;
        r.push(CurvePoint::Key { index: k });
        r.push(CurvePoint::Between { segment: k, third: 1, smooth });
        r.push(CurvePoint::Between { segment: k, third: 2, smooth });
        proof {
            lemma_split_by_three(k as int, 0);
            lemma_split_by_three(k as int, 1);
            lemma_split_by_three(k as int, 2);
            assert forall|j: int| 0 <= j < r@.len() implies #[trigger] r@[j] == plan_point(
                keys as nat,
                j as nat,
            ) by {
                if j < 3 * k {
                    assert(r@[j] == prev[j]);
                }
            }
        }
        k = k + 1;
    }
    let ghost prev = r@;
    r.push(CurvePoint::Key { index: k });
    proof {
        lemma_split_by_three(k as int, 0);
        assert forall|j: int| 0 <= j < r@.len() implies #[trigger] r@[j] == plan_point(
            keys as nat,
            j as nat,
        ) by {
            if j < 3 * k {
                assert(r@[j] == prev[j]);
            }
        }
    }
    r
}

proof fn lemma_split_by_three(k: int, c: int)
    requires
        k >= 0,
        0 <= c < 3,
    ensures
        (3 * k + c) / 3 == k,
        (3 * k + c) % 3 == c,
{
    vstd::arithmetic::div_mod::lemma_fundamental_div_mod_converse(3 * k + c, 3, k, c);
}

/// Start of each cubic Bezier piece over a chain of `points` points: pieces
/// take four consecutive points and share their end points, so they start at
/// `0, 3, 6, ...` while four points remain.
pub fn bezier_starts(points: usize) -> (r: Vec<usize>)
    ensures
        forall|k: int| 0 <= k < r@.len() ==> #[trigger] r@[k] == 3 * k,
        r@.len() > 0 ==> 3 * (r@.len() - 1) + 4 <= points,
        3 * r@.len() + 4 > points,
{
    let mut r: Vec<usize> = Vec::new();
    let mut s: usize = 0;
    while s < points && points - s >= 4
        invariant
            s == 3 * r@.len(),
            s <= points + 3,
            forall|k: int| 0 <= k < r@.len() ==> #[trigger] r@[k] == 3 * k,
            r@.len() > 0 ==> 3 * (r@.len() - 1) + 4 <= points,
        decreases points + 3 - s,
    {
        r.push(s);
        s = s + 3;
    }
    r
}

} // verus!
