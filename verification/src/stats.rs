//! Bookkeeping of the performance and correctness readouts: the bounded
//! histories of frame and GPU timings, and the summary of where a GPU
//! heightmap disagrees with the CPU baseline.
use vstd::prelude::*;
use std::collections::VecDeque;
use crate::mesh::{GridPoint, grid_points_spec, point_at};

verus! {

/// Number of samples a timing history keeps.
pub const HISTORY_LEN: usize = 256;

/// Number of disagreeing samples whose position a report lists.
pub const REPORTED_MISMATCHES: usize = 5;

/// The history once it has made room for one more sample: the oldest sample
/// goes when the history is full.
pub open spec fn trimmed<T>(s: Seq<T>) -> Seq<T> {
    if s.len() >= HISTORY_LEN {
        s.drop_first()
    } else {
        s
    }
}

/// The history after a frame: trimmed, then the frame's sample appended if
/// there is one.
pub open spec fn recorded<T>(s: Seq<T>, sample: Option<T>) -> Seq<T> {
    match sample {
        Some(v) => trimmed(s).push(v),
        None => trimmed(s),
    }
}

/// The last `n` elements of `s` (all of them if there are fewer).
pub open spec fn last_n<T>(s: Seq<T>, n: int) -> Seq<T> {
    if s.len() > n {
        s.skip(s.len() - n)
    } else {
        s
    }
}

/// The positions of `s` that hold `true`, in increasing order.
pub open spec fn mismatch_positions(s: Seq<bool>) -> Seq<int>
    decreases s.len(),
{
    if s.len() == 0 {
        Seq::empty()
    } else {
        let rest = mismatch_positions(s.drop_last());
        if s.last() {
            rest.push(s.len() - 1)
        } else {
            rest
        }
    }
}

pub open spec fn min(a: int, b: int) -> int {
    if a < b {
        a
    } else {
        b
    }
}

/// Where a GPU heightmap disagrees with the CPU baseline.
pub struct MismatchReport {
    /// Number of samples that disagree.
    pub count: u32,
    /// Grid positions of the first disagreeing samples, at most
    /// `REPORTED_MISMATCHES` of them.
    pub first: Vec<GridPoint>,
}

impl MismatchReport {
    /// Whether every sample agreed.
    pub fn passed(&self) -> (b: bool)
        ensures
            b == (self.count == 0),
    {
        self.count == 0
    }
}

/// Makes room in a timing history and appends the frame's sample, if any.
pub fn record_sample<T>(history: &mut VecDeque<T>, sample: Option<T>)
    ensures
        final(history)@ == recorded(old(history)@, sample),
{
    if history.len() >= HISTORY_LEN {
        history.pop_front();
    }
    match sample {
        Some(v) => history.push_back(v),
        None => {},
    }
}

/// Counts the disagreeing samples of a heightmap `width` samples wide and
/// lists the grid positions of the first few. `mismatches[i]` tells whether
/// sample `i` disagrees.
pub fn summarize_mismatches(mismatches: &Vec<bool>, width: u32) -> (report: MismatchReport)
    requires
        mismatches.len() <= u32::MAX,
        mismatch_positions(mismatches@).len() > 0 ==> width > 0,
    ensures
        report.count == mismatch_positions(mismatches@).len(),
        report.first@.len() == min(
            REPORTED_MISMATCHES as int,
            mismatch_positions(mismatches@).len() as int,
        ),
        forall|j: int|
            0 <= j < report.first@.len() ==> #[trigger] report.first@[j] == point_at(
                width as int,
                mismatch_positions(mismatches@)[j],
            ),
{
    let mut count: u32 = 0;
    let mut first: Vec<GridPoint> = Vec::new();
    let n = mismatches.len();
    let mut i: usize = 0;
    while i < n
        invariant
            n == mismatches.len(),
            n <= u32::MAX,
            i <= n,
            mismatch_positions(mismatches@).len() > 0 ==> width > 0,
            count == mismatch_positions(mismatches@.take(i as int)).len(),
            count <= i,
            first@.len() == min(REPORTED_MISMATCHES as int, count as int),
            forall|j: int|
                0 <= j < first@.len() ==> #[trigger] first@[j] == point_at(
                    width as int,
                    mismatch_positions(mismatches@.take(i as int))[j],
                ),
            forall|j: int|
                0 <= j < count ==> mismatch_positions(mismatches@.take(i as int))[j]
                    == mismatch_positions(mismatches@)[j],
        decreases n - i,
    {
        let ghost before = mismatch_positions(mismatches@.take(i as int));
        assert(mismatches@.take(i + 1).drop_last() =~= mismatches@.take(i as int));
        proof {
            lemma_positions_prefix(mismatches@, i as int + 1);
        }
        if mismatches[i] {
            if count < REPORTED_MISMATCHES as u32 {
                proof {
                    lemma_positions_prefix(mismatches@, i as int + 1);
                    assert(mismatch_positions(mismatches@.take(i + 1)).len() > 0);
                    lemma_positions_prefix_nonempty(mismatches@, i as int + 1);
                }
                let x = (i as u32) % width;
                let z = (i as u32) / width;
                first.push(GridPoint { x, z });
            }
            count = count + 1;
        }
        i = i + 1;
    }
    assert(mismatches@.take(n as int) =~= mismatches@);
    MismatchReport { count, first }
}

/// The positions listed for a prefix of `s` are the first ones listed for
/// `s`.
proof fn lemma_positions_prefix(s: Seq<bool>, k: int)
    requires
        0 <= k <= s.len(),
    ensures
        mismatch_positions(s.take(k)).len() <= mismatch_positions(s).len(),
        forall|j: int|
            0 <= j < mismatch_positions(s.take(k)).len() ==> mismatch_positions(s.take(k))[j]
                == mismatch_positions(s)[j],
    decreases s.len() - k,
{
    if k == s.len() {
        assert(s.take(k) =~= s);
    } else {
        lemma_positions_prefix(s, k + 1);
        assert(s.take(k + 1).drop_last() =~= s.take(k));
    }
}

/// A prefix with a listed position makes the whole sequence's list
/// non-empty.
proof fn lemma_positions_prefix_nonempty(s: Seq<bool>, k: int)
    requires
        0 <= k <= s.len(),
        mismatch_positions(s.take(k)).len() > 0,
    ensures
        mismatch_positions(s).len() > 0,
{
    lemma_positions_prefix(s, k);
}

/// The listed positions are exactly the positions that hold `true`, each
/// once, in increasing order.
pub proof fn lemma_mismatch_positions(s: Seq<bool>)
    ensures
        forall|j: int|
            0 <= j < mismatch_positions(s).len() ==> 0 <= #[trigger] mismatch_positions(s)[j]
                < s.len() && s[mismatch_positions(s)[j]],
        forall|j1: int, j2: int|
            0 <= j1 < j2 < mismatch_positions(s).len() ==> mismatch_positions(s)[j1]
                < mismatch_positions(s)[j2],
        forall|i: int| 0 <= i < s.len() && #[trigger] s[i] ==> mismatch_positions(s).contains(i),
    decreases s.len(),
{
    if s.len() > 0 {
        let t = s.drop_last();
        lemma_mismatch_positions(t);
        assert forall|i: int| 0 <= i < s.len() && #[trigger] s[i] implies mismatch_positions(
            s,
        ).contains(i) by {
            if i < s.len() - 1 {
                assert(t[i] == s[i]);
                let j = choose|j: int|
                    0 <= j < mismatch_positions(t).len() && mismatch_positions(t)[j] == i;
                assert(mismatch_positions(s)[j] == i);
            } else {
                assert(mismatch_positions(s).last() == i);
            }
        }
    }
}

/// A reported position names the mesh vertex drawn from that heightmap
/// sample: samples and vertices share the row-major grid order.
pub proof fn lemma_report_names_vertex(s: Seq<bool>, width: u32, height: u32, j: int)
    requires
        s.len() == width * height,
        0 <= j < mismatch_positions(s).len(),
    ensures
        point_at(width as int, mismatch_positions(s)[j]) == grid_points_spec(
            width as int,
            height as int,
        )[mismatch_positions(s)[j]],
{
    lemma_mismatch_positions(s);
}

/// A history that never held more than `HISTORY_LEN` samples never will,
/// and a recorded sample lands last.
pub proof fn lemma_history_bounded<T>(s: Seq<T>, sample: Option<T>)
    requires
        s.len() <= HISTORY_LEN,
    ensures
        recorded(s, sample).len() <= HISTORY_LEN,
        sample matches Some(v) ==> recorded(s, sample).last() == v,
{
}

/// Recording a sample into a history of at most `HISTORY_LEN` samples keeps
/// the most recent `HISTORY_LEN` samples.
pub proof fn lemma_history_keeps_latest<T>(s: Seq<T>, v: T)
    requires
        s.len() <= HISTORY_LEN,
    ensures
        recorded(s, Some(v)) == last_n(s.push(v), HISTORY_LEN as int),
{
    assert(recorded(s, Some(v)) =~= last_n(s.push(v), HISTORY_LEN as int));
}

} // verus!
