use vstd::prelude::*;
use vstd::string::*;
use crate::merge::{
    classification, classify, decide, decision_for, FastForwardDecision, MergeAnalysisFlags,
};
use crate::outcome::{outcome_of, translate_error, EngineErrorCode, OutcomeSymbol};
use crate::refs::{join_reference_names, joined_names, string_views};

verus! {

/// The repository operations offered to callers.
#[derive(Clone, Copy, Debug, PartialEq, Eq, Structural)]
pub enum OperationKind {
    Init,
    InitBare,
    Clone,
    Commit,
    LatestMessage,
    PushRemote,
    FastForward,
    ListReferences,
    CheckoutBranch,
}

/// One call sequence on the engine, performed by whoever drives a session.
#[derive(Clone, Copy, Debug, PartialEq, Eq, Structural)]
pub enum EngineStep {
    /// Create a repository at the operation's destination, bare or not as the operation says.
    InitRepository,
    /// Clone the operation's source into its destination, with credentials.
    CloneRepository,
    /// Open the repository at the operation's location.
    OpenRepository,
    /// Stage every working-tree change and write the index.
    StageAll,
    /// Write the index as a tree and commit it with the initial message and no parent.
    CreateInitialCommit,
    /// Write the index as a tree and commit it with the operation's message on top of HEAD.
    CommitOnHead,
    /// Read the message of the commit HEAD points at.
    ReadHeadMessage,
    /// Look up the `origin` remote.
    FindOrigin,
    /// Push the branch to the same-named branch of `origin`, with credentials.
    PushBranch,
    /// Connect to `origin` for fetching, with credentials.
    ConnectForFetch,
    /// Fetch the branch from `origin`, with credentials.
    FetchBranch,
    /// Resolve `FETCH_HEAD` and analyse it against the local tip.
    AnalyzeFetchHead,
    /// Point the local branch at the fetched tip.
    SetBranchTarget,
    /// Make HEAD the local branch.
    SetHeadToBranch,
    /// Force the working tree to match HEAD.
    ForceCheckoutHead,
    /// Enumerate the names of all references.
    ListReferenceNames,
    /// Find the commit HEAD points at.
    ResolveHeadCommit,
    /// Create the local branch at that commit.
    CreateBranchAtHead,
    /// Resolve `refs/heads/<branch>` to an object.
    ResolveBranchRevision,
    /// Check that object's tree out into the working directory.
    CheckoutResolvedTree,
}

/// A step of a plan; the failure of a best-effort step does not end the operation.
#[derive(Clone, Copy, Debug, PartialEq, Eq, Structural)]
pub struct PlannedStep {
    pub step: EngineStep,
    pub best_effort: bool,
}

/// What came of the step just performed.
#[derive(Clone, Debug)]
pub enum StepEvent {
    Completed,
    Failed(EngineErrorCode),
    Analyzed(MergeAnalysisFlags),
    MessageRead(String),
    ReferencesListed(Vec<String>),
}

/// A step event with its strings as sequences.
pub enum EventView {
    Completed,
    Failed(EngineErrorCode),
    Analyzed(MergeAnalysisFlags),
    MessageRead(Seq<char>),
    ReferencesListed(Seq<Seq<char>>),
}

impl View for StepEvent {
    type V = EventView;

    open spec fn view(&self) -> EventView {
        match self {
            StepEvent::Completed => EventView::Completed,
            StepEvent::Failed(c) => EventView::Failed(*c),
            StepEvent::Analyzed(f) => EventView::Analyzed(*f),
            StepEvent::MessageRead(m) => EventView::MessageRead(m@),
            StepEvent::ReferencesListed(ns) => EventView::ReferencesListed(string_views(ns@)),
        }
    }
}

/// A session in mathematical terms.
pub struct SessionView {
    pub kind: OperationKind,
    pub steps: Seq<PlannedStep>,
    pub next: nat,
    pub success: Seq<char>,
    pub outcome: Option<Result<Seq<char>, OutcomeSymbol>>,
}

/// One operation in progress: the steps planned so far, how many are done, the
/// message that success will report, and, once it is decided, the result.
pub struct Session {
    pub kind: OperationKind,
    pub steps: Vec<PlannedStep>,
    pub next: usize,
    pub success: String,
    pub outcome: Option<Result<String, OutcomeSymbol>>,
}

/// A result with its message as a sequence.
pub open spec fn result_view(r: Result<String, OutcomeSymbol>) -> Result<Seq<char>, OutcomeSymbol> {
    match r {
        Ok(m) => Ok(m@),
        Err(e) => Err(e),
    }
}

impl View for Session {
    type V = SessionView;

    open spec fn view(&self) -> SessionView {
        SessionView {
            kind: self.kind,
            steps: self.steps@,
            next: self.next as nat,
            success: self.success@,
            outcome: match self.outcome {
                Some(r) => Some(result_view(r)),
                None => None,
            },
        }
    }
}

/// A step whose failure ends the operation.
pub open spec fn required(step: EngineStep) -> PlannedStep {
    PlannedStep { step, best_effort: false }
}

/// A step whose failure is ignored.
pub open spec fn optional(step: EngineStep) -> PlannedStep {
    PlannedStep { step, best_effort: true }
}

/// The steps each operation starts with. Each opens or creates its repository
/// first, and each step that fails ends the operation with that failure's symbol.
///
/// The one best-effort step is the creation of the branch in a checkout: it is
/// made at the current HEAD commit, not at the tip just fetched, and a failure to
/// create it (for instance because it already exists) is ignored; callers that
/// need the fetched tip should fast-forward after.
pub open spec fn plan(kind: OperationKind) -> Seq<PlannedStep> {
    match kind {
        OperationKind::Init => seq![
            required(EngineStep::InitRepository),
            required(EngineStep::StageAll),
            required(EngineStep::CreateInitialCommit),
        ],
        OperationKind::InitBare => seq![
            required(EngineStep::InitRepository),
            required(EngineStep::CreateInitialCommit),
        ],
        OperationKind::Clone => seq![required(EngineStep::CloneRepository)],
        OperationKind::Commit => seq![
            required(EngineStep::OpenRepository),
            required(EngineStep::StageAll),
            required(EngineStep::CommitOnHead),
        ],
        OperationKind::LatestMessage => seq![
            required(EngineStep::OpenRepository),
            required(EngineStep::ReadHeadMessage),
        ],
        OperationKind::PushRemote => seq![
            required(EngineStep::OpenRepository),
            required(EngineStep::FindOrigin),
            required(EngineStep::PushBranch),
        ],
        OperationKind::FastForward => seq![
            required(EngineStep::OpenRepository),
            required(EngineStep::FindOrigin),
            required(EngineStep::ConnectForFetch),
            required(EngineStep::FetchBranch),
            required(EngineStep::AnalyzeFetchHead),
        ],
        OperationKind::ListReferences => seq![
            required(EngineStep::OpenRepository),
            required(EngineStep::ListReferenceNames),
        ],
        OperationKind::CheckoutBranch => seq![
            required(EngineStep::OpenRepository),
            required(EngineStep::FindOrigin),
            required(EngineStep::ConnectForFetch),
            required(EngineStep::FetchBranch),
            required(EngineStep::ResolveHeadCommit),
            optional(EngineStep::CreateBranchAtHead),
            required(EngineStep::ResolveBranchRevision),
            required(EngineStep::CheckoutResolvedTree),
            required(EngineStep::SetHeadToBranch),
        ],
    }
}

/// The steps a fast-forward adds once the analysis allows it.
pub open spec fn fast_forward_tail() -> Seq<PlannedStep> {
    seq![
        required(EngineStep::SetBranchTarget),
        required(EngineStep::SetHeadToBranch),
        required(EngineStep::ForceCheckoutHead),
    ]
}

/// The message each operation reports on success; reading a message and listing
/// references report what they read instead.
pub open spec fn success_message(kind: OperationKind) -> Seq<char> {
    match kind {
        OperationKind::Init => "init success"@,
        OperationKind::InitBare => "init success"@,
        OperationKind::Clone => "clone success"@,
        OperationKind::Commit => "Commit success"@,
        OperationKind::LatestMessage => Seq::empty(),
        OperationKind::PushRemote => "Pushed Successfully"@,
        OperationKind::FastForward => "Updated"@,
        OperationKind::ListReferences => Seq::empty(),
        OperationKind::CheckoutBranch => "Checked out"@,
    }
}

/// A session of the given kind before its first step.
pub open spec fn start_view(kind: OperationKind) -> SessionView {
    SessionView { kind, steps: plan(kind), next: 0, success: success_message(kind), outcome: None }
}

/// Steps that hand a payload back instead of a bare completion.
pub open spec fn carries_data(step: EngineStep) -> bool {
    ||| step == EngineStep::AnalyzeFetchHead
    ||| step == EngineStep::ReadHeadMessage
    ||| step == EngineStep::ListReferenceNames
}

/// Whether an event is one that a step can give.
pub open spec fn fits(step: EngineStep, ev: EventView) -> bool {
    match ev {
        EventView::Completed => !carries_data(step),
        EventView::Failed(_) => true,
        EventView::Analyzed(_) => step == EngineStep::AnalyzeFetchHead,
        EventView::MessageRead(_) => step == EngineStep::ReadHeadMessage,
        EventView::ReferencesListed(_) => step == EngineStep::ListReferenceNames,
    }
}

/// The reachable shapes of a session.
pub open spec fn well_formed(s: SessionView) -> bool {
    &&& s.next <= s.steps.len()
    &&& s.outcome is None ==> s.next < s.steps.len()
    &&& {
        ||| s.steps == plan(s.kind)
        ||| {
            &&& s.kind == OperationKind::FastForward
            &&& s.steps == plan(s.kind) + fast_forward_tail()
            &&& s.next >= plan(s.kind).len()
        }
    }
}

/// The current step is done: go to the next, or succeed after the last.
pub open spec fn moved_on(s: SessionView) -> SessionView {
    SessionView {
        next: s.next + 1,
        outcome: if s.next + 1 == s.steps.len() {
            Some(Ok(s.success))
        } else {
            None
        },
        ..s
    }
}

/// How a session answers the event of its current step.
pub open spec fn step_spec(s: SessionView, ev: EventView) -> SessionView {
    let cur = s.steps[s.next as int];
    match ev {
        EventView::Completed => moved_on(s),
        EventView::Failed(c) => if cur.best_effort {
            moved_on(s)
        } else {
            SessionView { outcome: Some(Err(outcome_of(c))), ..s }
        },
        EventView::MessageRead(m) => moved_on(SessionView { success: m, ..s }),
        EventView::ReferencesListed(ns) => moved_on(SessionView { success: joined_names(ns), ..s }),
        EventView::Analyzed(f) => match decision_for(classification(f)) {
            FastForwardDecision::ReportUpToDate => SessionView {
                outcome: Some(Ok("Up to date already"@)),
                ..s
            },
            FastForwardDecision::RejectUnborn => SessionView {
                outcome: Some(Err(OutcomeSymbol::UnbornBranch)),
                ..s
            },
            FastForwardDecision::Refuse => SessionView {
                outcome: Some(Err(OutcomeSymbol::FastForwardOnly)),
                ..s
            },
            FastForwardDecision::Advance => moved_on(
                SessionView { steps: s.steps + fast_forward_tail(), ..s },
            ),
        },
    }
}

/// A session fed a run of events, until its result is decided.
pub open spec fn run(s: SessionView, evs: Seq<EventView>) -> SessionView
    decreases evs.len(),
{
    if evs.len() == 0 || s.outcome is Some {
        s
    } else {
        run(step_spec(s, evs[0]), evs.drop_first())
    }
}

fn plan_steps(kind: OperationKind) -> (v: Vec<PlannedStep>)
    ensures
        v@ == plan(kind),
{
    let req = |step: EngineStep| -> (p: PlannedStep)
        ensures
            p == required(step),
        { PlannedStep { step, best_effort: false } };
    let opt = |step: EngineStep| -> (p: PlannedStep)
        ensures
            p == optional(step),
        { PlannedStep { step, best_effort: true } };
    let v = match kind {
        OperationKind::Init => vec![
            req(EngineStep::InitRepository),
            req(EngineStep::StageAll),
            req(EngineStep::CreateInitialCommit),
        ],
        OperationKind::InitBare => vec![
            req(EngineStep::InitRepository),
            req(EngineStep::CreateInitialCommit),
        ],
        OperationKind::Clone => vec![req(EngineStep::CloneRepository)],
        OperationKind::Commit => vec![
            req(EngineStep::OpenRepository),
            req(EngineStep::StageAll),
            req(EngineStep::CommitOnHead),
        ],
        OperationKind::LatestMessage => vec![
            req(EngineStep::OpenRepository),
            req(EngineStep::ReadHeadMessage),
        ],
        OperationKind::PushRemote => vec![
            req(EngineStep::OpenRepository),
            req(EngineStep::FindOrigin),
            req(EngineStep::PushBranch),
        ],
        OperationKind::FastForward => vec![
            req(EngineStep::OpenRepository),
            req(EngineStep::FindOrigin),
            req(EngineStep::ConnectForFetch),
            req(EngineStep::FetchBranch),
            req(EngineStep::AnalyzeFetchHead),
        ],
        OperationKind::ListReferences => vec![
            req(EngineStep::OpenRepository),
            req(EngineStep::ListReferenceNames),
        ],
        OperationKind::CheckoutBranch => vec![
            req(EngineStep::OpenRepository),
            req(EngineStep::FindOrigin),
            req(EngineStep::ConnectForFetch),
            req(EngineStep::FetchBranch),
            req(EngineStep::ResolveHeadCommit),
            opt(EngineStep::CreateBranchAtHead),
            req(EngineStep::ResolveBranchRevision),
            req(EngineStep::CheckoutResolvedTree),
            req(EngineStep::SetHeadToBranch),
        ],
    };
    assert(v@ =~= plan(kind));
    v
}

fn success_text(kind: OperationKind) -> (r: String)
    ensures
        r@ == success_message(kind),
{
    match kind {
        OperationKind::Init => String::from_str("init success"),
        OperationKind::InitBare => String::from_str("init success"),
        OperationKind::Clone => String::from_str("clone success"),
        OperationKind::Commit => String::from_str("Commit success"),
        OperationKind::LatestMessage => String::new(),
        OperationKind::PushRemote => String::from_str("Pushed Successfully"),
        OperationKind::FastForward => String::from_str("Updated"),
        OperationKind::ListReferences => String::new(),
        OperationKind::CheckoutBranch => String::from_str("Checked out"),
    }
}

/// Answering an event that the current step can give keeps a session well formed.
pub proof fn lemma_step_spec_well_formed(s: SessionView, ev: EventView)
    requires
        well_formed(s),
        s.outcome is None,
        fits(s.steps[s.next as int].step, ev),
    ensures
        well_formed(step_spec(s, ev)),
{
    let cur = s.steps[s.next as int];
    if cur.step == EngineStep::AnalyzeFetchHead {
        if s.steps != plan(s.kind) {
            assert(fast_forward_tail()[s.next - plan(s.kind).len()] == cur);
        }
        assert(s.steps == plan(s.kind));
        assert(s.kind == OperationKind::FastForward);
        assert(s.next + 1 == plan(s.kind).len());
    }
}

impl Session {
    /// A session for an operation, before its first step.
    pub fn start(kind: OperationKind) -> (s: Session)
        ensures
            s@ == start_view(kind),
            well_formed(s@),
    {
        Session { kind, steps: plan_steps(kind), next: 0, success: success_text(kind), outcome: None }
    }

    /// The step to perform now, or none once the result is decided.
    pub fn current_step(&self) -> (r: Option<PlannedStep>)
        requires
            well_formed(self@),
        ensures
            self.outcome is None ==> r == Some(self.steps@[self.next as int]),
            self.outcome is Some ==> r is None,
    {
        if self.outcome.is_none() {
            Some(self.steps[self.next])
        } else {
            None
        }
    }

    fn move_on(&mut self)
        requires
            old(self).next < old(self).steps.len(),
        ensures
            final(self)@ == moved_on(old(self)@),
    {
        self.next = self.next + 1;
        if self.next == self.steps.len() {
            self.outcome = Some(Ok(self.success.clone()));
        } else {
            self.outcome = None;
        }
    }

    /// Takes in what came of the current step: a failure ends the operation with
    /// its translated symbol unless the step is best effort; the merge analysis
    /// decides whether a fast-forward ends, is refused, fails on an unborn branch,
    /// or goes on to move the branch.
    pub fn record(&mut self, ev: StepEvent)
        requires
            well_formed(old(self)@),
            old(self).outcome is None,
            fits(old(self).steps@[old(self).next as int].step, ev@),
        ensures
            final(self)@ == step_spec(old(self)@, ev@),
            well_formed(final(self)@),
    {
        proof {
            lemma_step_spec_well_formed(self@, ev@);
        }
        let cur = self.steps[self.next];
        match ev {
            StepEvent::Completed => self.move_on(),
            StepEvent::Failed(c) => {
                if cur.best_effort {
                    self.move_on();
                } else {
                    self.outcome = Some(Err(translate_error(c)));
                }
            },
            StepEvent::MessageRead(m) => {
                self.success = m;
                self.move_on();
            },
            StepEvent::ReferencesListed(names) => {
                self.success = join_reference_names(&names);
                self.move_on();
            },
            StepEvent::Analyzed(f) => {
                match decide(classify(f)) {
                    FastForwardDecision::ReportUpToDate => {
                        self.outcome = Some(Ok(String::from_str("Up to date already")));
                    },
                    FastForwardDecision::RejectUnborn => {
                        self.outcome = Some(Err(OutcomeSymbol::UnbornBranch));
                    },
                    FastForwardDecision::Refuse => {
                        self.outcome = Some(Err(OutcomeSymbol::FastForwardOnly));
                    },
                    FastForwardDecision::Advance => {
                        self.steps.push(PlannedStep { step: EngineStep::SetBranchTarget, best_effort: false });
                        self.steps.push(PlannedStep { step: EngineStep::SetHeadToBranch, best_effort: false });
                        self.steps.push(PlannedStep { step: EngineStep::ForceCheckoutHead, best_effort: false });
                        assert(self.steps@ =~= old(self).steps@ + fast_forward_tail());
                        self.move_on();
                    },
                }
            },
        }
    }
}

} // verus!
