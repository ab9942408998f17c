use vstd::prelude::*;
use crate::merge::{classification, decision_for, FastForwardDecision, MergeAnalysisFlags, MergeAnalysisResult};
use crate::outcome::{outcome_of, EngineErrorCode, OutcomeSymbol};
use crate::refs::{joined_names, split_names};
use crate::session::{
    fast_forward_tail, fits, optional, plan, required, run, PlannedStep, start_view, step_spec, well_formed, EngineStep,
    EventView, OperationKind, SessionView,
};

verus! {

/// Steps that move a branch or HEAD, or write the working tree.
pub open spec fn moves_branch_or_tree(step: EngineStep) -> bool {
    ||| step == EngineStep::SetBranchTarget
    ||| step == EngineStep::SetHeadToBranch
    ||| step == EngineStep::ForceCheckoutHead
    ||| step == EngineStep::CreateBranchAtHead
    ||| step == EngineStep::CheckoutResolvedTree
    ||| step == EngineStep::CreateInitialCommit
    ||| step == EngineStep::CommitOnHead
}

/// The events of a fast-forward whose connection and fetch went through, ending
/// with the engine's analysis.
pub open spec fn fetched_then_analyzed(f: MergeAnalysisFlags) -> Seq<EventView> {
    seq![
        EventView::Completed,
        EventView::Completed,
        EventView::Completed,
        EventView::Completed,
        EventView::Analyzed(f),
    ]
}

/// Once a required step fails the operation is over: its result is that failure's
/// symbol, no later step is performed, and no later event changes anything.
pub proof fn lemma_failure_is_final(s: SessionView, c: EngineErrorCode, rest: Seq<EventView>)
    requires
        well_formed(s),
        s.outcome is None,
        !s.steps[s.next as int].best_effort,
    ensures
        run(s, seq![EventView::Failed(c)] + rest) == step_spec(s, EventView::Failed(c)),
        step_spec(s, EventView::Failed(c)).outcome == Some(
            Err::<Seq<char>, OutcomeSymbol>(outcome_of(c)),
        ),
        step_spec(s, EventView::Failed(c)).next == s.next,
{
    let evs = seq![EventView::Failed(c)] + rest;
    assert(evs[0] == EventView::Failed(c));
    assert(evs.drop_first() == rest);
    reveal_with_fuel(run, 2);
}

/// Every operation first opens, creates or clones its repository, and cannot go
/// on without it: where that location cannot be reached, the engine's symbol for it
/// (such as `notfound`) is the result and nothing else is attempted.
pub proof fn lemma_unreachable_location(kind: OperationKind, c: EngineErrorCode)
    ensures
        plan(kind)[0] == required(EngineStep::OpenRepository) || plan(kind)[0] == required(
            EngineStep::InitRepository,
        ) || plan(kind)[0] == required(EngineStep::CloneRepository),
        run(start_view(kind), seq![EventView::Failed(c)]).outcome == Some(
            Err::<Seq<char>, OutcomeSymbol>(outcome_of(c)),
        ),
        run(start_view(kind), seq![EventView::Failed(c)]).next == 0,
{
    lemma_failure_is_final(start_view(kind), c, Seq::empty());
    assert(seq![EventView::Failed(c)] + Seq::<EventView>::empty() =~= seq![EventView::Failed(c)]);
}

/// A new repository gets exactly one commit, made with the fixed initial message,
/// and reading the latest message reports what the engine read, unchanged.
pub proof fn lemma_init_then_latest_message(m: Seq<char>)
    ensures
        plan(OperationKind::Init).filter(
            |p: PlannedStep| moves_branch_or_tree(p.step),
        ) == seq![required(EngineStep::CreateInitialCommit)],
        run(
            start_view(OperationKind::Init),
            seq![EventView::Completed, EventView::Completed, EventView::Completed],
        ).outcome == Some(Ok::<Seq<char>, OutcomeSymbol>("init success"@)),
        run(
            start_view(OperationKind::LatestMessage),
            seq![EventView::Completed, EventView::MessageRead(m)],
        ).outcome == Some(Ok::<Seq<char>, OutcomeSymbol>(m)),
{
    reveal_with_fuel(run, 4);
    reveal_with_fuel(Seq::filter, 4);
    let p = plan(OperationKind::Init);
    assert(p.drop_last() =~= seq![p[0], p[1]]);
    assert(p.drop_last().drop_last() =~= seq![p[0]]);
    assert(p.drop_last().drop_last().drop_last() =~= Seq::<PlannedStep>::empty());
    assert(p.filter(|p: PlannedStep| moves_branch_or_tree(p.step))
        =~= seq![required(EngineStep::CreateInitialCommit)]);
}

/// A commit on a branch with no commits fails with `unbornbranch`; otherwise,
/// when every step goes through, exactly one commit is made, on top of HEAD.
pub proof fn lemma_commit_outcomes()
    ensures
        run(
            start_view(OperationKind::Commit),
            seq![
                EventView::Completed,
                EventView::Completed,
                EventView::Failed(EngineErrorCode::UnbornBranch),
            ],
        ).outcome == Some(Err::<Seq<char>, OutcomeSymbol>(OutcomeSymbol::UnbornBranch)),
        run(
            start_view(OperationKind::Commit),
            seq![EventView::Completed, EventView::Completed, EventView::Completed],
        ).outcome == Some(Ok::<Seq<char>, OutcomeSymbol>("Commit success"@)),
        plan(OperationKind::Commit).filter(
            |p: PlannedStep| moves_branch_or_tree(p.step),
        ) == seq![required(EngineStep::CommitOnHead)],
{
    reveal_with_fuel(run, 4);
    reveal_with_fuel(Seq::filter, 4);
    let p = plan(OperationKind::Commit);
    assert(p.drop_last() =~= seq![p[0], p[1]]);
    assert(p.drop_last().drop_last() =~= seq![p[0]]);
    assert(p.drop_last().drop_last().drop_last() =~= Seq::<PlannedStep>::empty());
    assert(p.filter(|p: PlannedStep| moves_branch_or_tree(p.step))
        =~= seq![required(EngineStep::CommitOnHead)]);
}

/// While the remote has not moved, a fast-forward reports that it is up to date
/// and plans no step that moves the branch or writes the tree, however often it is
/// repeated.
pub proof fn lemma_up_to_date_is_idempotent(f: MergeAnalysisFlags, g: MergeAnalysisFlags)
    requires
        f.up_to_date,
        g.up_to_date,
    ensures
        run(start_view(OperationKind::FastForward), fetched_then_analyzed(f)).outcome == Some(
            Ok::<Seq<char>, OutcomeSymbol>("Up to date already"@),
        ),
        run(start_view(OperationKind::FastForward), fetched_then_analyzed(f)) == run(
            start_view(OperationKind::FastForward),
            fetched_then_analyzed(g),
        ),
        forall|i: int|
            0 <= i < run(start_view(OperationKind::FastForward), fetched_then_analyzed(f)).steps.len()
                ==> !moves_branch_or_tree(
                #[trigger] run(
                    start_view(OperationKind::FastForward),
                    fetched_then_analyzed(f),
                ).steps[i].step,
            ),
{
    reveal_with_fuel(run, 6);
}

/// Under a true divergence a fast-forward is refused with `fast_forward_only`, and
/// no step that moves the branch or writes the tree is ever planned.
pub proof fn lemma_divergence_is_refused(f: MergeAnalysisFlags)
    requires
        classification(f) == MergeAnalysisResult::NormalMerge,
    ensures
        run(start_view(OperationKind::FastForward), fetched_then_analyzed(f)).outcome == Some(
            Err::<Seq<char>, OutcomeSymbol>(OutcomeSymbol::FastForwardOnly),
        ),
        forall|i: int|
            0 <= i < run(start_view(OperationKind::FastForward), fetched_then_analyzed(f)).steps.len()
                ==> !moves_branch_or_tree(
                #[trigger] run(
                    start_view(OperationKind::FastForward),
                    fetched_then_analyzed(f),
                ).steps[i].step,
            ),
{
    reveal_with_fuel(run, 6);
}

/// A fast-forward plans a step that moves the branch or writes the tree only after
/// the merge analysis allowed it, whatever the events were.
pub proof fn lemma_moves_only_after_advance(s: SessionView, evs: Seq<EventView>)
    requires
        s.kind == OperationKind::FastForward,
        s.steps == plan(OperationKind::FastForward),
        well_formed(s),
        forall|i: int|
            0 <= i < evs.len() ==> (#[trigger] evs[i] is Analyzed) ==> decision_for(
                classification(evs[i]->Analyzed_0),
            ) != FastForwardDecision::Advance,
    ensures
        run(s, evs).steps == plan(OperationKind::FastForward),
    decreases evs.len(),
{
    if evs.len() > 0 && s.outcome is None {
        let n = step_spec(s, evs[0]);
        assert(n.steps == s.steps);
        if n.outcome is None {
            assert(n.next < n.steps.len());
        }
        assert forall|i: int| 0 <= i < evs.drop_first().len() && (#[trigger] evs.drop_first()[i] is Analyzed) implies
            decision_for(classification(evs.drop_first()[i]->Analyzed_0)) != FastForwardDecision::Advance by {
            assert(evs.drop_first()[i] == evs[i + 1]);
        }
        lemma_moves_only_after_advance(n, evs.drop_first());
    }
}

/// Feeding two runs of events one after the other is feeding them at once.
proof fn lemma_run_split(s: SessionView, a: Seq<EventView>, b: Seq<EventView>)
    ensures
        run(s, a + b) == run(run(s, a), b),
    decreases a.len(),
{
    if a.len() == 0 {
        assert(a + b =~= b);
    } else if s.outcome is None {
        assert((a + b)[0] == a[0]);
        assert((a + b).drop_first() =~= a.drop_first() + b);
        lemma_run_split(step_spec(s, a[0]), a.drop_first(), b);
    }
}

/// Feeding one event and then the rest.
proof fn lemma_run_cons(s: SessionView, e: EventView, rest: Seq<EventView>)
    ensures
        s.outcome is None ==> run(s, seq![e] + rest) == run(step_spec(s, e), rest),
        s.outcome is Some ==> run(s, seq![e] + rest) == s,
{
    assert((seq![e] + rest)[0] == e);
    assert((seq![e] + rest).drop_first() =~= rest);
}

/// Feeding the events from the k-th on: the k-th, then those after it.
proof fn lemma_run_at(s: SessionView, evs: Seq<EventView>, k: int)
    requires
        0 <= k < evs.len(),
        s.outcome is None,
    ensures
        run(s, evs.skip(k)) == run(step_spec(s, evs[k]), evs.skip(k + 1)),
{
    assert(evs.skip(k)[0] == evs[k]);
    assert(evs.skip(k).drop_first() =~= evs.skip(k + 1));
}

/// When the fetched tip descends from the local one, a fast-forward moves the
/// branch to it, points HEAD at the branch and forces the working tree to match,
/// in that order, and reports the update; if the refresh of the working tree
/// fails, that failure's symbol is the result.
pub proof fn lemma_fast_forward_advances(f: MergeAnalysisFlags, c: EngineErrorCode)
    requires
        classification(f) == MergeAnalysisResult::FastForwardable,
    ensures
        run(
            start_view(OperationKind::FastForward),
            fetched_then_analyzed(f) + seq![
                EventView::Completed,
                EventView::Completed,
                EventView::Completed,
            ],
        ).steps == plan(OperationKind::FastForward) + fast_forward_tail(),
        run(
            start_view(OperationKind::FastForward),
            fetched_then_analyzed(f) + seq![
                EventView::Completed,
                EventView::Completed,
                EventView::Completed,
            ],
        ).outcome == Some(Ok::<Seq<char>, OutcomeSymbol>("Updated"@)),
        run(
            start_view(OperationKind::FastForward),
            fetched_then_analyzed(f) + seq![
                EventView::Completed,
                EventView::Completed,
                EventView::Failed(c),
            ],
        ).outcome == Some(Err::<Seq<char>, OutcomeSymbol>(outcome_of(c))),
{
    let s0 = start_view(OperationKind::FastForward);
    let done = seq![EventView::Completed, EventView::Completed, EventView::Completed];
    let failed = seq![EventView::Completed, EventView::Completed, EventView::Failed(c)];
    lemma_run_split(s0, fetched_then_analyzed(f), done);
    lemma_run_split(s0, fetched_then_analyzed(f), failed);
    let s1 = step_spec(s0, EventView::Completed);
    let s2 = step_spec(s1, EventView::Completed);
    let s3 = step_spec(s2, EventView::Completed);
    let s4 = step_spec(s3, EventView::Completed);
    let s5 = step_spec(s4, EventView::Analyzed(f));
    let evs = fetched_then_analyzed(f);
    assert(s4.next == 4 && s4.outcome is None && s4.steps == s0.steps);
    assert(s5.steps == plan(OperationKind::FastForward) + fast_forward_tail());
    assert(s5.next == 5 && s5.outcome is None && s5.success == "Updated"@);
    lemma_run_cons(s0, EventView::Completed, evs.drop_first());
    assert(evs =~= seq![EventView::Completed] + evs.drop_first());
    lemma_run_cons(s1, EventView::Completed, evs.drop_first().drop_first());
    assert(evs.drop_first() =~= seq![EventView::Completed] + evs.drop_first().drop_first());
    lemma_run_cons(s2, EventView::Completed, evs.skip(3));
    assert(evs.drop_first().drop_first() =~= seq![EventView::Completed] + evs.skip(3));
    lemma_run_cons(s3, EventView::Completed, evs.skip(4));
    assert(evs.skip(3) =~= seq![EventView::Completed] + evs.skip(4));
    lemma_run_cons(s4, EventView::Analyzed(f), Seq::empty());
    assert(evs.skip(4) =~= seq![EventView::Analyzed(f)] + Seq::<EventView>::empty());
    assert(run(s5, Seq::empty()) == s5);
    assert(run(s0, evs) == s5);
    let s6 = step_spec(s5, EventView::Completed);
    let s7 = step_spec(s6, EventView::Completed);
    lemma_run_cons(s5, EventView::Completed, done.drop_first());
    assert(done =~= seq![EventView::Completed] + done.drop_first());
    lemma_run_cons(s6, EventView::Completed, seq![EventView::Completed]);
    assert(done.drop_first() =~= seq![EventView::Completed] + seq![EventView::Completed]);
    lemma_run_cons(s7, EventView::Completed, Seq::empty());
    assert(seq![EventView::Completed] =~= seq![EventView::Completed] + Seq::<EventView>::empty());
    assert(run(step_spec(s7, EventView::Completed), Seq::empty()) == step_spec(s7, EventView::Completed));
    lemma_run_cons(s5, EventView::Completed, failed.drop_first());
    assert(failed =~= seq![EventView::Completed] + failed.drop_first());
    lemma_run_cons(s6, EventView::Completed, seq![EventView::Failed(c)]);
    assert(failed.drop_first() =~= seq![EventView::Completed] + seq![EventView::Failed(c)]);
    lemma_run_cons(s7, EventView::Failed(c), Seq::empty());
    assert(seq![EventView::Failed(c)] =~= seq![EventView::Failed(c)] + Seq::<EventView>::empty());
    assert(run(step_spec(s7, EventView::Failed(c)), Seq::empty()) == step_spec(s7, EventView::Failed(c)));
}

/// A fast-forward on a branch with no commits fails with `unbornbranch` and plans
/// no step that moves the branch or writes the tree.
pub proof fn lemma_unborn_is_rejected(f: MergeAnalysisFlags)
    requires
        classification(f) == MergeAnalysisResult::Unborn,
    ensures
        run(start_view(OperationKind::FastForward), fetched_then_analyzed(f)).outcome == Some(
            Err::<Seq<char>, OutcomeSymbol>(OutcomeSymbol::UnbornBranch),
        ),
        run(start_view(OperationKind::FastForward), fetched_then_analyzed(f)).steps == plan(
            OperationKind::FastForward,
        ),
{
    reveal_with_fuel(run, 6);
}

/// The first five steps of checking out a branch, all gone through.
pub open spec fn checkout_prefix() -> Seq<EventView> {
    seq![
        EventView::Completed,
        EventView::Completed,
        EventView::Completed,
        EventView::Completed,
        EventView::Completed,
    ]
}

/// Checking out a branch: only the creation of the branch is best effort. Its
/// failure is ignored, while a failure to resolve the branch, to check its tree
/// out or to point HEAD at it is the result.
pub proof fn lemma_checkout_failures(c: EngineErrorCode, d: EngineErrorCode)
    ensures
        forall|i: int|
            0 <= i < plan(OperationKind::CheckoutBranch).len() ==> (#[trigger] plan(
                OperationKind::CheckoutBranch,
            )[i].best_effort <==> plan(OperationKind::CheckoutBranch)[i] == optional(
                EngineStep::CreateBranchAtHead,
            )),
        run(
            start_view(OperationKind::CheckoutBranch),
            checkout_prefix() + seq![
                EventView::Failed(d),
                EventView::Completed,
                EventView::Completed,
                EventView::Completed,
            ],
        ).outcome == Some(Ok::<Seq<char>, OutcomeSymbol>("Checked out"@)),
        run(
            start_view(OperationKind::CheckoutBranch),
            checkout_prefix() + seq![EventView::Failed(d), EventView::Completed, EventView::Failed(c)],
        ).outcome == Some(Err::<Seq<char>, OutcomeSymbol>(outcome_of(c))),
        run(
            start_view(OperationKind::CheckoutBranch),
            checkout_prefix() + seq![
                EventView::Completed,
                EventView::Completed,
                EventView::Completed,
                EventView::Failed(c),
            ],
        ).outcome == Some(Err::<Seq<char>, OutcomeSymbol>(outcome_of(c))),
{
    {
        let a = checkout_prefix() + seq![EventView::Failed(d), EventView::Completed, EventView::Completed, EventView::Completed];
        assert(a.skip(0) =~= a);
        assert(a.skip(a.len() as int) =~= Seq::<EventView>::empty());
        let t0 = start_view(OperationKind::CheckoutBranch);
        let t1 = step_spec(t0, a[0]);
        assert(t1.outcome is None);
        lemma_run_at(t0, a, 0);
        let t2 = step_spec(t1, a[1]);
        assert(t2.outcome is None);
        lemma_run_at(t1, a, 1);
        let t3 = step_spec(t2, a[2]);
        assert(t3.outcome is None);
        lemma_run_at(t2, a, 2);
        let t4 = step_spec(t3, a[3]);
        assert(t4.outcome is None);
        lemma_run_at(t3, a, 3);
        let t5 = step_spec(t4, a[4]);
        assert(t5.outcome is None);
        lemma_run_at(t4, a, 4);
        let t6 = step_spec(t5, a[5]);
        assert(t6.outcome is None);
        lemma_run_at(t5, a, 5);
        let t7 = step_spec(t6, a[6]);
        assert(t7.outcome is None);
        lemma_run_at(t6, a, 6);
        let t8 = step_spec(t7, a[7]);
        assert(t8.outcome is None);
        lemma_run_at(t7, a, 7);
        let t9 = step_spec(t8, a[8]);
        lemma_run_at(t8, a, 8);
        assert(run(t9, a.skip(9)) == t9);
    }
    {
        let b = checkout_prefix() + seq![EventView::Failed(d), EventView::Completed, EventView::Failed(c)];
        assert(b.skip(0) =~= b);
        assert(b.skip(b.len() as int) =~= Seq::<EventView>::empty());
        let t0 = start_view(OperationKind::CheckoutBranch);
        let t1 = step_spec(t0, b[0]);
        assert(t1.outcome is None);
        lemma_run_at(t0, b, 0);
        let t2 = step_spec(t1, b[1]);
        assert(t2.outcome is None);
        lemma_run_at(t1, b, 1);
        let t3 = step_spec(t2, b[2]);
        assert(t3.outcome is None);
        lemma_run_at(t2, b, 2);
        let t4 = step_spec(t3, b[3]);
        assert(t4.outcome is None);
        lemma_run_at(t3, b, 3);
        let t5 = step_spec(t4, b[4]);
        assert(t5.outcome is None);
        lemma_run_at(t4, b, 4);
        let t6 = step_spec(t5, b[5]);
        assert(t6.outcome is None);
        lemma_run_at(t5, b, 5);
        let t7 = step_spec(t6, b[6]);
        assert(t7.outcome is None);
        lemma_run_at(t6, b, 6);
        let t8 = step_spec(t7, b[7]);
        lemma_run_at(t7, b, 7);
        assert(run(t8, b.skip(8)) == t8);
    }
    {
        let e = checkout_prefix() + seq![EventView::Completed, EventView::Completed, EventView::Completed, EventView::Failed(c)];
        assert(e.skip(0) =~= e);
        assert(e.skip(e.len() as int) =~= Seq::<EventView>::empty());
        let t0 = start_view(OperationKind::CheckoutBranch);
        let t1 = step_spec(t0, e[0]);
        assert(t1.outcome is None);
        lemma_run_at(t0, e, 0);
        let t2 = step_spec(t1, e[1]);
        assert(t2.outcome is None);
        lemma_run_at(t1, e, 1);
        let t3 = step_spec(t2, e[2]);
        assert(t3.outcome is None);
        lemma_run_at(t2, e, 2);
        let t4 = step_spec(t3, e[3]);
        assert(t4.outcome is None);
        lemma_run_at(t3, e, 3);
        let t5 = step_spec(t4, e[4]);
        assert(t5.outcome is None);
        lemma_run_at(t4, e, 4);
        let t6 = step_spec(t5, e[5]);
        assert(t6.outcome is None);
        lemma_run_at(t5, e, 5);
        let t7 = step_spec(t6, e[6]);
        assert(t7.outcome is None);
        lemma_run_at(t6, e, 6);
        let t8 = step_spec(t7, e[7]);
        assert(t8.outcome is None);
        lemma_run_at(t7, e, 7);
        let t9 = step_spec(t8, e[8]);
        lemma_run_at(t8, e, 8);
        assert(run(t9, e.skip(9)) == t9);
    }
}

/// How many steps a session may still perform: those planned and not yet done,
/// and the branch move that a fast-forward may still add.
pub open spec fn steps_left(s: SessionView) -> int {
    (s.steps.len() - s.next) + if s.kind == OperationKind::FastForward && s.steps == plan(
        OperationKind::FastForward,
    ) {
        fast_forward_tail().len() as int
    } else {
        0
    }
}

/// Every operation ends with a result: each event that its current step can give
/// either decides the result or brings the session strictly closer to the end, and
/// no operation performs more than nine steps.
pub proof fn lemma_every_step_progresses(s: SessionView, ev: EventView)
    requires
        well_formed(s),
        s.outcome is None,
        fits(s.steps[s.next as int].step, ev),
    ensures
        well_formed(step_spec(s, ev)),
        step_spec(s, ev).outcome is Some || (0 <= steps_left(step_spec(s, ev)) < steps_left(s)),
        steps_left(start_view(s.kind)) <= 9,
{
    crate::session::lemma_step_spec_well_formed(s, ev);
    let cur = s.steps[s.next as int];
    if cur.step == EngineStep::AnalyzeFetchHead && s.steps != plan(s.kind) {
        assert(fast_forward_tail()[s.next - plan(s.kind).len()] == cur);
    }
}

/// Listing the references of a repository reports every name the engine
/// enumerated, each whole and followed by a comma, in the engine's order.
pub proof fn lemma_list_reports_each_name(ns: Seq<Seq<char>>, i: int)
    requires
        0 <= i < ns.len(),
    ensures
        run(
            start_view(OperationKind::ListReferences),
            seq![EventView::Completed, EventView::ReferencesListed(ns)],
        ).outcome == Some(Ok::<Seq<char>, OutcomeSymbol>(joined_names(ns))),
        joined_names(ns) == joined_names(ns.take(i)) + ns[i] + ","@ + joined_names(
            ns.skip(i + 1),
        ),
{
    reveal_with_fuel(run, 3);
    crate::refs::lemma_joined_lists_each_name(ns, i);
}

/// The text that listing the references reports reads back, on its commas, into
/// exactly the names the engine enumerated, in its order, when no name holds a
/// comma: nothing is added, dropped or reordered.
pub proof fn lemma_list_reads_back(ns: Seq<Seq<char>>)
    requires
        forall|i: int| 0 <= i < ns.len() ==> !(#[trigger] ns[i]).contains(','),
    ensures
        run(
            start_view(OperationKind::ListReferences),
            seq![EventView::Completed, EventView::ReferencesListed(ns)],
        ).outcome == Some(Ok::<Seq<char>, OutcomeSymbol>(joined_names(ns))),
        split_names(joined_names(ns)) == ns,
{
    reveal_with_fuel(run, 3);
    crate::refs::lemma_split_joined(ns);
}

/// A clone is one engine call with the source and destination as given, and its
/// success is reported as such.
pub proof fn lemma_clone_is_one_call()
    ensures
        plan(OperationKind::Clone) == seq![required(EngineStep::CloneRepository)],
        run(start_view(OperationKind::Clone), seq![EventView::Completed]).outcome == Some(
            Ok::<Seq<char>, OutcomeSymbol>("clone success"@),
        ),
{
    reveal_with_fuel(run, 2);
}

} // verus!
