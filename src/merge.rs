use vstd::prelude::*;

verus! {

/// The flags the engine's merge analysis raises for a fetched tip against the local one.
#[derive(Clone, Copy, Debug, PartialEq, Eq, Structural)]
pub struct MergeAnalysisFlags {
    pub normal: bool,
    pub up_to_date: bool,
    pub fast_forward: bool,
    pub unborn: bool,
}

/// How a fetched tip relates to the local branch tip.
#[derive(Clone, Copy, Debug, PartialEq, Eq, Structural)]
pub enum MergeAnalysisResult {
    UpToDate,
    FastForwardable,
    NormalMerge,
    Unborn,
}

/// What a fast-forward does once the relation is known.
#[derive(Clone, Copy, Debug, PartialEq, Eq, Structural)]
pub enum FastForwardDecision {
    /// Report that nothing needs doing, and touch nothing.
    ReportUpToDate,
    /// Move the branch to the fetched tip.
    Advance,
    /// Refuse: a merge would be needed.
    Refuse,
    /// Fail: the local branch has no commits to fast-forward from.
    RejectUnborn,
}

/// Being up to date wins over everything else; an unborn branch is reported as such;
/// then a fast-forward; anything else, no flag at all included, is a true divergence.
pub open spec fn classification(f: MergeAnalysisFlags) -> MergeAnalysisResult {
    if f.up_to_date {
        MergeAnalysisResult::UpToDate
    } else if f.unborn {
        MergeAnalysisResult::Unborn
    } else if f.fast_forward {
        MergeAnalysisResult::FastForwardable
    } else {
        MergeAnalysisResult::NormalMerge
    }
}

/// The fast-forward-only policy: the branch moves only when the analysis confirms
/// a fast-forward; a divergence is refused, and a branch with no commits yet is
/// an error, since there is nothing to fast-forward from.
pub open spec fn decision_for(r: MergeAnalysisResult) -> FastForwardDecision {
    match r {
        MergeAnalysisResult::UpToDate => FastForwardDecision::ReportUpToDate,
        MergeAnalysisResult::FastForwardable => FastForwardDecision::Advance,
        MergeAnalysisResult::Unborn => FastForwardDecision::RejectUnborn,
        MergeAnalysisResult::NormalMerge => FastForwardDecision::Refuse,
    }
}

/// Classifies the engine's merge analysis.
pub fn classify(f: MergeAnalysisFlags) -> (r: MergeAnalysisResult)
    ensures
        r == classification(f),
{
    if f.up_to_date {
        MergeAnalysisResult::UpToDate
    } else if f.unborn {
        MergeAnalysisResult::Unborn
    } else if f.fast_forward {
        MergeAnalysisResult::FastForwardable
    } else {
        MergeAnalysisResult::NormalMerge
    }
}

/// Applies the fast-forward-only policy to a classification.
pub fn decide(r: MergeAnalysisResult) -> (d: FastForwardDecision)
    ensures
        d == decision_for(r),
{
    match r {
        MergeAnalysisResult::UpToDate => FastForwardDecision::ReportUpToDate,
        MergeAnalysisResult::FastForwardable => FastForwardDecision::Advance,
        MergeAnalysisResult::Unborn => FastForwardDecision::RejectUnborn,
        MergeAnalysisResult::NormalMerge => FastForwardDecision::Refuse,
    }
}

/// A divergence, and only a divergence, is refused.
pub proof fn lemma_refused_iff_diverged(f: MergeAnalysisFlags)
    ensures
        decision_for(classification(f)) == FastForwardDecision::Refuse <==> (!f.up_to_date
            && !f.unborn && !f.fast_forward),
{
}

/// The branch is moved only when the analysis confirms a fast-forward from an
/// existing tip that the local branch does not already hold.
pub proof fn lemma_advance_iff_fast_forwardable(f: MergeAnalysisFlags)
    ensures
        decision_for(classification(f)) == FastForwardDecision::Advance <==> classification(f)
            == MergeAnalysisResult::FastForwardable,
        decision_for(classification(f)) == FastForwardDecision::Advance <==> (!f.up_to_date
            && !f.unborn && f.fast_forward),
        decision_for(classification(f)) == FastForwardDecision::RejectUnborn <==> (!f.up_to_date
            && f.unborn),
{
}

} // verus!
