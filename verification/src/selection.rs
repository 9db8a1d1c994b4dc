//! Confidence scores and the rule that picks a winner among them.
//!
//! Every candidate format answers a byte sample with a score in `0..=255`.
//! The rule is stated here on the bare sequence of scores, so that it can be
//! read, proved and tested apart from whoever produced them.

use vstd::prelude::*;

verus! {

/// Least amount of data needed to check the bytestream structure
/// to match some known format.
pub const PROBE_DATA: usize = 4 * 1024;

/// Calibration points on the scale of scores.
#[derive(Clone, Copy, Debug, PartialEq, Eq, Structural)]
pub enum Score {
    /// Minimum acceptable value, a file matched just by the extension.
    EXTENSION,
    /// The underlying layer provides the information, trust it up to a point.
    MIME,
    /// The data actually match a format structure.
    MAX,
}

impl Score {
    /// The score that the calibration point stands for.
    pub open spec fn level(self) -> u8 {
        match self {
            Score::EXTENSION => 50,
            Score::MIME => 75,
            Score::MAX => 100,
        }
    }

    /// The score that the calibration point stands for.
    #[verifier::when_used_as_spec(level)]
    pub fn value(self) -> (v: u8)
        ensures
            v == self.level(),
    {
        match self {
            Score::EXTENSION => 50,
            Score::MIME => 75,
            Score::MAX => 100,
        }
    }
}

/// A score counts as a detection only strictly above the level that a
/// matching file extension alone would reach.
pub open spec fn accepted(score: u8) -> bool {
    score > Score::EXTENSION.level()
}

/// Candidate `i` wins over `scores`: its score is accepted, no candidate
/// scores higher, and no earlier candidate scores as high.
pub open spec fn wins(scores: Seq<u8>, i: int) -> bool {
    &&& 0 <= i < scores.len()
    &&& accepted(scores[i])
    &&& forall|j: int| 0 <= j < scores.len() ==> scores[j] <= scores[i]
    &&& forall|j: int| 0 <= j < i ==> scores[j] < scores[i]
}

/// The position of the winning candidate, if there is one.
pub open spec fn selection(scores: Seq<u8>) -> Option<int> {
    if exists|i: int| wins(scores, i) {
        Some(choose|i: int| wins(scores, i))
    } else {
        None
    }
}

/// At most one candidate wins.
pub proof fn lemma_winner_is_unique(scores: Seq<u8>, i: int, j: int)
    requires
        wins(scores, i),
        wins(scores, j),
    ensures
        i == j,
{
    if i < j {
        assert(scores[i] < scores[j]);
        assert(scores[j] <= scores[i]);
    } else if j < i {
        assert(scores[j] < scores[i]);
        assert(scores[i] <= scores[j]);
    }
}

/// A candidate that wins is the selection.
pub proof fn lemma_winner_is_selected(scores: Seq<u8>, i: int)
    requires
        wins(scores, i),
    ensures
        selection(scores) == Some(i),
{
    let chosen = choose|k: int| wins(scores, k);
    lemma_winner_is_unique(scores, i, chosen);
}

/// Where no score is accepted, nothing is selected.
pub proof fn lemma_none_accepted(scores: Seq<u8>)
    requires
        forall|j: int| 0 <= j < scores.len() ==> !accepted(#[trigger] scores[j]),
    ensures
        selection(scores) is None,
{
}

/// Whatever is selected has an accepted score, the highest of all, and is the
/// first to reach it.
pub proof fn lemma_selected_wins(scores: Seq<u8>)
    ensures
        selection(scores) matches Some(i) ==> wins(scores, i),
{
}

/// The threshold: a candidate whose score does not exceed the level of a
/// matching extension is never selected, whatever the others score and even
/// where it is the only candidate.
pub proof fn law_threshold(scores: Seq<u8>, i: int)
    requires
        0 <= i < scores.len(),
        scores[i] <= Score::EXTENSION.level(),
    ensures
        selection(scores) != Some(i),
{
    lemma_selected_wins(scores);
}

/// The tie-break: of two candidates with the same score the later one is
/// never selected; and where that score is accepted and the highest, the
/// first candidate to reach it is the one selected.
pub proof fn law_tie_goes_to_earlier(scores: Seq<u8>, i: int, j: int)
    requires
        0 <= i < j < scores.len(),
        scores[i] == scores[j],
    ensures
        selection(scores) != Some(j),
        accepted(scores[i]) && (forall|k: int| 0 <= k < scores.len() ==> scores[k] <= scores[i])
            && (forall|k: int| 0 <= k < i ==> scores[k] != scores[i]) ==> selection(scores)
            == Some(i),
{
    lemma_selected_wins(scores);
    if accepted(scores[i]) && (forall|k: int| 0 <= k < scores.len() ==> scores[k] <= scores[i])
        && (forall|k: int| 0 <= k < i ==> scores[k] != scores[i]) {
        assert forall|k: int| 0 <= k < i implies scores[k] < scores[i] by {
            assert(scores[k] <= scores[i]);
            assert(scores[k] != scores[i]);
        }
        lemma_winner_is_selected(scores, i);
    }
}

/// Something is selected exactly when some score is accepted.
pub proof fn law_selected_iff_accepted(scores: Seq<u8>)
    ensures
        selection(scores) is Some <==> exists|j: int| 0 <= j < scores.len() && accepted(#[trigger] scores[j]),
{
    lemma_selected_wins(scores);
    if selection(scores) is Some {
        let i = selection(scores)->0;
        assert(accepted(scores[i]));
    }
    if exists|j: int| 0 <= j < scores.len() && accepted(#[trigger] scores[j]) {
        let j = choose|j: int| 0 <= j < scores.len() && accepted(#[trigger] scores[j]);
        lemma_highest_exists(scores);
        let w = choose|w: int| highest_first(scores, w);
        assert(scores[j] <= scores[w]);
        lemma_winner_is_selected(scores, w);
    }
}

/// Candidate `w` scores highest and is the first to do so.
spec fn highest_first(scores: Seq<u8>, w: int) -> bool {
    &&& 0 <= w < scores.len()
    &&& forall|k: int| 0 <= k < scores.len() ==> scores[k] <= scores[w]
    &&& forall|k: int| 0 <= k < w ==> scores[k] < scores[w]
}

/// A sequence that is not empty has a first highest score.
proof fn lemma_highest_exists(scores: Seq<u8>)
    requires
        scores.len() > 0,
    ensures
        exists|w: int| highest_first(scores, w),
    decreases scores.len(),
{
    let n = scores.len() as int;
    if n == 1 {
        assert(highest_first(scores, 0));
    } else {
        let shorter = scores.take(n - 1);
        lemma_highest_exists(shorter);
        let w = choose|w: int| highest_first(shorter, w);
        assert(forall|k: int| 0 <= k < n - 1 ==> shorter[k] == scores[k]);
        if scores[n - 1] > scores[w] {
            assert(highest_first(scores, n - 1));
        } else {
            assert(highest_first(scores, w));
        }
    }
}

/// Picks the winner among `scores`: the first candidate to reach the highest
/// score, provided that score is accepted.
pub fn select(scores: &[u8]) -> (winner: Option<usize>)
    ensures
        match winner {
            Some(i) => wins(scores@, i as int),
            None => forall|j: int| 0 <= j < scores@.len() ==> !accepted(#[trigger] scores@[j]),
        },
        selection(scores@) == match winner {
            Some(i) => Some(i as int),
            None => None::<int>,
        },
{
    let mut max: u8 = 0;
    let mut candidate: Option<usize> = None;
    let mut i: usize = 0;
    while i < scores.len()
        invariant
            i <= scores@.len(),
            forall|j: int| 0 <= j < i ==> scores@[j] <= max,
            candidate is None ==> max == 0,
            candidate matches Some(c) ==> {
                &&& c < i
                &&& scores@[c as int] == max
                &&& max > 0
                &&& forall|j: int| 0 <= j < c ==> scores@[j] < max
            },
        decreases scores@.len() - i,
    {
        let score = scores[i];
        if score > max {
            max = score;
            candidate = Some(i);
        }
        i += 1;
    }
    if max > Score::EXTENSION.value() {
        proof {
            lemma_winner_is_selected(scores@, candidate->0 as int);
        }
        candidate
    } else {
        proof {
            lemma_none_accepted(scores@);
        }
        None
    }
}

} // verus!
