use exgit::merge::MergeAnalysisFlags;
use exgit::outcome::{EngineErrorCode, OutcomeSymbol};
use exgit::session::{EngineStep, OperationKind, Session, StepEvent};

const KINDS: [OperationKind; 9] = [
    OperationKind::Init,
    OperationKind::InitBare,
    OperationKind::Clone,
    OperationKind::Commit,
    OperationKind::LatestMessage,
    OperationKind::PushRemote,
    OperationKind::FastForward,
    OperationKind::ListReferences,
    OperationKind::CheckoutBranch,
];

/// Feeds events to a session; returns the steps asked for and the result.
fn drive(kind: OperationKind, events: Vec<StepEvent>) -> (Vec<EngineStep>, Option<Result<String, OutcomeSymbol>>) {
    let mut session = Session::start(kind);
    let mut performed = Vec::new();
    for ev in events {
        match session.current_step() {
            Some(p) => performed.push(p.step),
            None => break,
        }
        session.record(ev);
    }
    (performed, session.outcome.clone())
}

fn up_to_date() -> MergeAnalysisFlags {
    MergeAnalysisFlags { normal: false, up_to_date: true, fast_forward: false, unborn: false }
}

fn diverged() -> MergeAnalysisFlags {
    MergeAnalysisFlags { normal: true, up_to_date: false, fast_forward: false, unborn: false }
}

fn fast_forwardable() -> MergeAnalysisFlags {
    MergeAnalysisFlags { normal: false, up_to_date: false, fast_forward: true, unborn: false }
}

fn fetched(f: MergeAnalysisFlags) -> Vec<StepEvent> {
    vec![
        StepEvent::Completed,
        StepEvent::Completed,
        StepEvent::Completed,
        StepEvent::Completed,
        StepEvent::Analyzed(f),
    ]
}

fn moves_branch_or_tree(step: &EngineStep) -> bool {
    matches!(
        step,
        EngineStep::SetBranchTarget
            | EngineStep::SetHeadToBranch
            | EngineStep::ForceCheckoutHead
            | EngineStep::CreateBranchAtHead
            | EngineStep::CheckoutResolvedTree
            | EngineStep::CreateInitialCommit
            | EngineStep::CommitOnHead
    )
}

#[test]
fn unreachable_location_is_not_found_everywhere() {
    for kind in KINDS {
        let (steps, result) = drive(kind, vec![StepEvent::Failed(EngineErrorCode::NotFound)]);
        assert_eq!(steps.len(), 1);
        assert!(matches!(
            steps[0],
            EngineStep::OpenRepository | EngineStep::InitRepository | EngineStep::CloneRepository
        ));
        assert_eq!(result, Some(Err(OutcomeSymbol::NotFound)));
        let mut session = Session::start(kind);
        session.record(StepEvent::Failed(EngineErrorCode::NotFound));
        assert_eq!(session.current_step(), None);
    }
}

#[test]
fn init_commits_once_with_fixed_message() {
    let (steps, result) =
        drive(OperationKind::Init, vec![StepEvent::Completed, StepEvent::Completed, StepEvent::Completed]);
    assert_eq!(
        steps,
        vec![EngineStep::InitRepository, EngineStep::StageAll, EngineStep::CreateInitialCommit]
    );
    assert_eq!(result, Some(Ok("init success".to_string())));
}

#[test]
fn init_bare_has_nothing_to_stage() {
    let (steps, result) = drive(OperationKind::InitBare, vec![StepEvent::Completed, StepEvent::Completed]);
    assert_eq!(steps, vec![EngineStep::InitRepository, EngineStep::CreateInitialCommit]);
    assert_eq!(result, Some(Ok("init success".to_string())));
}

#[test]
fn latest_message_reports_what_was_read() {
    let (_, result) = drive(
        OperationKind::LatestMessage,
        vec![StepEvent::Completed, StepEvent::MessageRead("Initial commit".to_string())],
    );
    assert_eq!(result, Some(Ok("Initial commit".to_string())));
}

#[test]
fn latest_message_without_commits_is_unborn() {
    let (_, result) = drive(
        OperationKind::LatestMessage,
        vec![StepEvent::Completed, StepEvent::Failed(EngineErrorCode::UnbornBranch)],
    );
    assert_eq!(result, Some(Err(OutcomeSymbol::UnbornBranch)));
}

#[test]
fn commit_on_unborn_branch_fails() {
    let (steps, result) = drive(
        OperationKind::Commit,
        vec![
            StepEvent::Completed,
            StepEvent::Completed,
            StepEvent::Failed(EngineErrorCode::UnbornBranch),
        ],
    );
    assert_eq!(steps.last(), Some(&EngineStep::CommitOnHead));
    assert_eq!(result, Some(Err(OutcomeSymbol::UnbornBranch)));
}

#[test]
fn commit_after_init_succeeds_with_one_commit() {
    let (steps, result) =
        drive(OperationKind::Commit, vec![StepEvent::Completed, StepEvent::Completed, StepEvent::Completed]);
    assert_eq!(steps.iter().filter(|s| moves_branch_or_tree(s)).count(), 1);
    assert_eq!(result, Some(Ok("Commit success".to_string())));
}

#[test]
fn fast_forward_up_to_date_twice() {
    for _ in 0..2 {
        let (steps, result) = drive(OperationKind::FastForward, fetched(up_to_date()));
        assert_eq!(result, Some(Ok("Up to date already".to_string())));
        assert!(!steps.iter().any(moves_branch_or_tree));
    }
}

#[test]
fn fast_forward_divergence_refused() {
    let mut session = Session::start(OperationKind::FastForward);
    for ev in fetched(diverged()) {
        session.record(ev);
    }
    assert_eq!(session.outcome, Some(Err(OutcomeSymbol::FastForwardOnly)));
    assert_eq!(session.current_step(), None);
    assert!(!session.steps.iter().any(|p| moves_branch_or_tree(&p.step)));
}

#[test]
fn fast_forward_with_no_flags_refused() {
    let none = MergeAnalysisFlags { normal: false, up_to_date: false, fast_forward: false, unborn: false };
    let (_, result) = drive(OperationKind::FastForward, fetched(none));
    assert_eq!(result, Some(Err(OutcomeSymbol::FastForwardOnly)));
}

#[test]
fn fast_forward_advances_branch() {
    let mut events = fetched(fast_forwardable());
    events.push(StepEvent::Completed);
    events.push(StepEvent::Completed);
    events.push(StepEvent::Completed);
    let (steps, result) = drive(OperationKind::FastForward, events);
    assert_eq!(
        steps[5..].to_vec(),
        vec![EngineStep::SetBranchTarget, EngineStep::SetHeadToBranch, EngineStep::ForceCheckoutHead]
    );
    assert_eq!(result, Some(Ok("Updated".to_string())));
}

#[test]
fn fast_forward_failed_tree_refresh_is_reported() {
    let mut events = fetched(fast_forwardable());
    events.push(StepEvent::Completed);
    events.push(StepEvent::Completed);
    events.push(StepEvent::Failed(EngineErrorCode::Conflict));
    let (steps, result) = drive(OperationKind::FastForward, events);
    assert_eq!(steps.last(), Some(&EngineStep::ForceCheckoutHead));
    assert_eq!(result, Some(Err(OutcomeSymbol::Conflict)));
}

#[test]
fn fast_forward_on_unborn_branch_fails() {
    let unborn = MergeAnalysisFlags { normal: false, up_to_date: false, fast_forward: true, unborn: true };
    let (steps, result) = drive(OperationKind::FastForward, fetched(unborn));
    assert_eq!(result, Some(Err(OutcomeSymbol::UnbornBranch)));
    assert!(!steps.iter().any(moves_branch_or_tree));
}

#[test]
fn fast_forward_failed_branch_move_is_reported() {
    let mut events = fetched(fast_forwardable());
    events.push(StepEvent::Failed(EngineErrorCode::NotFound));
    let (_, result) = drive(OperationKind::FastForward, events);
    assert_eq!(result, Some(Err(OutcomeSymbol::NotFound)));
}

#[test]
fn list_references_reports_joined_names() {
    let names = vec!["HEAD".to_string(), "refs/heads/master".to_string()];
    let (_, result) = drive(
        OperationKind::ListReferences,
        vec![StepEvent::Completed, StepEvent::ReferencesListed(names)],
    );
    let text = result.unwrap().unwrap();
    assert_eq!(text, "HEAD,refs/heads/master,");
    assert!(text.contains("refs/heads/master,"));
}

fn checkout_events(tail: Vec<StepEvent>) -> Vec<StepEvent> {
    let mut events = vec![
        StepEvent::Completed,
        StepEvent::Completed,
        StepEvent::Completed,
        StepEvent::Completed,
        StepEvent::Completed,
    ];
    events.extend(tail);
    events
}

#[test]
fn checkout_ignores_failed_branch_creation() {
    let (steps, result) = drive(
        OperationKind::CheckoutBranch,
        checkout_events(vec![
            StepEvent::Failed(EngineErrorCode::Exists),
            StepEvent::Completed,
            StepEvent::Completed,
            StepEvent::Completed,
        ]),
    );
    assert_eq!(steps.len(), 9);
    assert_eq!(result, Some(Ok("Checked out".to_string())));
}

#[test]
fn checkout_reports_failed_tree_checkout() {
    let (steps, result) = drive(
        OperationKind::CheckoutBranch,
        checkout_events(vec![
            StepEvent::Failed(EngineErrorCode::Exists),
            StepEvent::Completed,
            StepEvent::Failed(EngineErrorCode::Conflict),
            StepEvent::Completed,
        ]),
    );
    assert_eq!(steps.len(), 8);
    assert_eq!(result, Some(Err(OutcomeSymbol::Conflict)));
}

#[test]
fn checkout_reports_failed_head_update() {
    let (_, result) = drive(
        OperationKind::CheckoutBranch,
        checkout_events(vec![
            StepEvent::Completed,
            StepEvent::Completed,
            StepEvent::Completed,
            StepEvent::Failed(EngineErrorCode::Locked),
        ]),
    );
    assert_eq!(result, Some(Err(OutcomeSymbol::Locked)));
}

#[test]
fn checkout_fails_when_branch_does_not_resolve() {
    let (_, result) = drive(
        OperationKind::CheckoutBranch,
        vec![
            StepEvent::Completed,
            StepEvent::Completed,
            StepEvent::Completed,
            StepEvent::Completed,
            StepEvent::Completed,
            StepEvent::Completed,
            StepEvent::Failed(EngineErrorCode::NotFound),
        ],
    );
    assert_eq!(result, Some(Err(OutcomeSymbol::NotFound)));
}

#[test]
fn push_rejected_and_accepted() {
    let (_, rejected) = drive(
        OperationKind::PushRemote,
        vec![
            StepEvent::Completed,
            StepEvent::Completed,
            StepEvent::Failed(EngineErrorCode::NotFastForward),
        ],
    );
    assert_eq!(rejected, Some(Err(OutcomeSymbol::NotFastForward)));
    let (_, pushed) = drive(
        OperationKind::PushRemote,
        vec![StepEvent::Completed, StepEvent::Completed, StepEvent::Completed],
    );
    assert_eq!(pushed, Some(Ok("Pushed Successfully".to_string())));
}

#[test]
fn clone_outcomes() {
    let (_, cloned) = drive(OperationKind::Clone, vec![StepEvent::Completed]);
    assert_eq!(cloned, Some(Ok("clone success".to_string())));
    let (_, exists) = drive(OperationKind::Clone, vec![StepEvent::Failed(EngineErrorCode::Exists)]);
    assert_eq!(exists, Some(Err(OutcomeSymbol::Exists)));
    let (_, auth) = drive(OperationKind::Clone, vec![StepEvent::Failed(EngineErrorCode::Auth)]);
    assert_eq!(auth, Some(Err(OutcomeSymbol::Auth)));
}
