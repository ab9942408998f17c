use vstd::prelude::*;
use vstd::string::*;
use crate::refs::{branch_ref, branch_ref_name, push_refspec, same_name_refspec};
use crate::session::{EngineStep, OperationKind};

verus! {

/// A step with everything the engine is handed for it.
#[derive(Clone, Debug, PartialEq, Eq)]
pub enum EngineCall {
    InitRepository { path: String, bare: bool },
    CloneRepository { url: String, path: String },
    OpenRepository { path: String },
    StageAll { pathspec: String },
    CreateInitialCommit { update_ref: String, message: String },
    CommitOnHead { update_ref: String, message: String },
    ReadHeadMessage,
    FindRemote { name: String },
    Push { remote: String, refspec: String },
    ConnectForFetch { remote: String },
    Fetch { remote: String, refspec: String },
    AnalyzeFetchHead { reference: String },
    SetBranchTarget { reference: String, log_message: String },
    SetHead { reference: String },
    ForceCheckoutHead,
    ListReferenceNames,
    ResolveHeadCommit,
    CreateBranchAtHead { name: String },
    ResolveRevision { spec: String },
    CheckoutResolvedTree,
}

/// The call that performs `step` of an operation of `kind` on the repository at
/// `location`, where `argument` is the clone source, the commit message or the
/// branch name, as the operation takes.
pub open spec fn is_call_for(
    c: EngineCall,
    step: EngineStep,
    kind: OperationKind,
    location: Seq<char>,
    argument: Seq<char>,
) -> bool {
    match step {
        EngineStep::InitRepository => c matches EngineCall::InitRepository { path, bare } && path@
            == location && bare == (kind == OperationKind::InitBare),
        EngineStep::CloneRepository => c matches EngineCall::CloneRepository { url, path } && url@
            == argument && path@ == location,
        EngineStep::OpenRepository => c matches EngineCall::OpenRepository { path } && path@
            == location,
        EngineStep::StageAll => c matches EngineCall::StageAll { pathspec } && pathspec@ == "."@,
        EngineStep::CreateInitialCommit => c matches EngineCall::CreateInitialCommit {
            update_ref,
            message,
        } && update_ref@ == "HEAD"@ && message@ == "Initial commit"@,
        EngineStep::CommitOnHead => c matches EngineCall::CommitOnHead { update_ref, message }
            && update_ref@ == "HEAD"@ && message@ == argument,
        EngineStep::ReadHeadMessage => c is ReadHeadMessage,
        EngineStep::FindOrigin => c matches EngineCall::FindRemote { name } && name@ == "origin"@,
        EngineStep::PushBranch => c matches EngineCall::Push { remote, refspec } && remote@
            == "origin"@ && refspec@ == same_name_refspec(argument),
        EngineStep::ConnectForFetch => c matches EngineCall::ConnectForFetch { remote } && remote@
            == "origin"@,
        EngineStep::FetchBranch => c matches EngineCall::Fetch { remote, refspec } && remote@
            == "origin"@ && refspec@ == argument,
        EngineStep::AnalyzeFetchHead => c matches EngineCall::AnalyzeFetchHead { reference }
            && reference@ == "FETCH_HEAD"@,
        EngineStep::SetBranchTarget => c matches EngineCall::SetBranchTarget {
            reference,
            log_message,
        } && reference@ == branch_ref(argument) && log_message@ == "Fast-Forward"@,
        EngineStep::SetHeadToBranch => c matches EngineCall::SetHead { reference } && reference@
            == branch_ref(argument),
        EngineStep::ForceCheckoutHead => c is ForceCheckoutHead,
        EngineStep::ListReferenceNames => c is ListReferenceNames,
        EngineStep::ResolveHeadCommit => c is ResolveHeadCommit,
        EngineStep::CreateBranchAtHead => c matches EngineCall::CreateBranchAtHead { name }
            && name@ == argument,
        EngineStep::ResolveBranchRevision => c matches EngineCall::ResolveRevision { spec }
            && spec@ == branch_ref(argument),
        EngineStep::CheckoutResolvedTree => c is CheckoutResolvedTree,
    }
}

/// Fills in the engine call for a step of an operation.
pub fn call_for(step: EngineStep, kind: OperationKind, location: &str, argument: &str) -> (c:
    EngineCall)
    ensures
        is_call_for(c, step, kind, location@, argument@),
{
    match step {
        EngineStep::InitRepository => EngineCall::InitRepository {
            path: location.to_owned(),
            bare: kind == OperationKind::InitBare,
        },
        EngineStep::CloneRepository => EngineCall::CloneRepository {
            url: argument.to_owned(),
            path: location.to_owned(),
        },
        EngineStep::OpenRepository => EngineCall::OpenRepository { path: location.to_owned() },
        EngineStep::StageAll => EngineCall::StageAll { pathspec: String::from_str(".") },
        EngineStep::CreateInitialCommit => EngineCall::CreateInitialCommit {
            update_ref: String::from_str("HEAD"),
            message: String::from_str("Initial commit"),
        },
        EngineStep::CommitOnHead => EngineCall::CommitOnHead {
            update_ref: String::from_str("HEAD"),
            message: argument.to_owned(),
        },
        EngineStep::ReadHeadMessage => EngineCall::ReadHeadMessage,
        EngineStep::FindOrigin => EngineCall::FindRemote { name: String::from_str("origin") },
        EngineStep::PushBranch => EngineCall::Push {
            remote: String::from_str("origin"),
            refspec: push_refspec(argument),
        },
        EngineStep::ConnectForFetch => EngineCall::ConnectForFetch {
            remote: String::from_str("origin"),
        },
        EngineStep::FetchBranch => EngineCall::Fetch {
            remote: String::from_str("origin"),
            refspec: argument.to_owned(),
        },
        EngineStep::AnalyzeFetchHead => EngineCall::AnalyzeFetchHead {
            reference: String::from_str("FETCH_HEAD"),
        },
        EngineStep::SetBranchTarget => EngineCall::SetBranchTarget {
            reference: branch_ref_name(argument),
            log_message: String::from_str("Fast-Forward"),
        },
        EngineStep::SetHeadToBranch => EngineCall::SetHead { reference: branch_ref_name(argument) },
        EngineStep::ForceCheckoutHead => EngineCall::ForceCheckoutHead,
        EngineStep::ListReferenceNames => EngineCall::ListReferenceNames,
        EngineStep::ResolveHeadCommit => EngineCall::ResolveHeadCommit,
        EngineStep::CreateBranchAtHead => EngineCall::CreateBranchAtHead {
            name: argument.to_owned(),
        },
        EngineStep::ResolveBranchRevision => EngineCall::ResolveRevision {
            spec: branch_ref_name(argument),
        },
        EngineStep::CheckoutResolvedTree => EngineCall::CheckoutResolvedTree,
    }
}

} // verus!
