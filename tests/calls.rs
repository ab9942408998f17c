use exgit::calls::{call_for, EngineCall};
use exgit::session::{EngineStep, OperationKind};

#[test]
fn fast_forward_moves_the_named_branch() {
    assert_eq!(
        call_for(EngineStep::SetBranchTarget, OperationKind::FastForward, "/r", "main"),
        EngineCall::SetBranchTarget {
            reference: "refs/heads/main".to_string(),
            log_message: "Fast-Forward".to_string(),
        }
    );
    assert_eq!(
        call_for(EngineStep::SetHeadToBranch, OperationKind::FastForward, "/r", "main"),
        EngineCall::SetHead { reference: "refs/heads/main".to_string() }
    );
    assert_eq!(
        call_for(EngineStep::AnalyzeFetchHead, OperationKind::FastForward, "/r", "main"),
        EngineCall::AnalyzeFetchHead { reference: "FETCH_HEAD".to_string() }
    );
    assert_eq!(
        call_for(EngineStep::FetchBranch, OperationKind::FastForward, "/r", "main"),
        EngineCall::Fetch { remote: "origin".to_string(), refspec: "main".to_string() }
    );
}

#[test]
fn init_calls() {
    assert_eq!(
        call_for(EngineStep::InitRepository, OperationKind::Init, "/tmp/a", ""),
        EngineCall::InitRepository { path: "/tmp/a".to_string(), bare: false }
    );
    assert_eq!(
        call_for(EngineStep::InitRepository, OperationKind::InitBare, "/tmp/b", ""),
        EngineCall::InitRepository { path: "/tmp/b".to_string(), bare: true }
    );
    assert_eq!(
        call_for(EngineStep::CreateInitialCommit, OperationKind::Init, "/tmp/a", ""),
        EngineCall::CreateInitialCommit {
            update_ref: "HEAD".to_string(),
            message: "Initial commit".to_string(),
        }
    );
    assert_eq!(
        call_for(EngineStep::StageAll, OperationKind::Init, "/tmp/a", ""),
        EngineCall::StageAll { pathspec: ".".to_string() }
    );
}

#[test]
fn commit_push_clone_checkout_calls() {
    assert_eq!(
        call_for(EngineStep::CommitOnHead, OperationKind::Commit, "/r", "fix typo"),
        EngineCall::CommitOnHead { update_ref: "HEAD".to_string(), message: "fix typo".to_string() }
    );
    assert_eq!(
        call_for(EngineStep::PushBranch, OperationKind::PushRemote, "/r", "dev"),
        EngineCall::Push {
            remote: "origin".to_string(),
            refspec: "refs/heads/dev:refs/heads/dev".to_string(),
        }
    );
    assert_eq!(
        call_for(EngineStep::CloneRepository, OperationKind::Clone, "/dst", "git@host:x.git"),
        EngineCall::CloneRepository { url: "git@host:x.git".to_string(), path: "/dst".to_string() }
    );
    assert_eq!(
        call_for(EngineStep::ResolveBranchRevision, OperationKind::CheckoutBranch, "/r", "topic"),
        EngineCall::ResolveRevision { spec: "refs/heads/topic".to_string() }
    );
    assert_eq!(
        call_for(EngineStep::CreateBranchAtHead, OperationKind::CheckoutBranch, "/r", "topic"),
        EngineCall::CreateBranchAtHead { name: "topic".to_string() }
    );
    assert_eq!(
        call_for(EngineStep::OpenRepository, OperationKind::LatestMessage, "/r", ""),
        EngineCall::OpenRepository { path: "/r".to_string() }
    );
    assert_eq!(
        call_for(EngineStep::FindOrigin, OperationKind::PushRemote, "/r", "dev"),
        EngineCall::FindRemote { name: "origin".to_string() }
    );
}
