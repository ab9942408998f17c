use vstd::prelude::*;

verus! {

/// The engine's own classification of a failure.
#[derive(Clone, Copy, Debug, PartialEq, Eq, Structural)]
pub enum EngineErrorCode {
    GenericError,
    NotFound,
    Exists,
    Ambiguous,
    BufSize,
    User,
    BareRepo,
    UnbornBranch,
    Unmerged,
    NotFastForward,
    InvalidSpec,
    Conflict,
    Locked,
    Modified,
    Auth,
    Certificate,
    Applied,
    Peel,
    Eof,
    Invalid,
    Uncommitted,
    Directory,
    MergeConflict,
    HashsumMismatch,
    IndexDirty,
    ApplyFail,
    Owner,
}

/// The closed vocabulary that crosses the boundary on failure: one symbol per
/// engine classification, and one raised by this layer when a fast-forward is refused.
#[derive(Clone, Copy, Debug, PartialEq, Eq, Structural)]
pub enum OutcomeSymbol {
    GenericError,
    NotFound,
    Exists,
    Ambiguous,
    BufSize,
    User,
    BareRepo,
    UnbornBranch,
    Unmerged,
    NotFastForward,
    InvalidSpec,
    Conflict,
    Locked,
    Modified,
    Auth,
    Certificate,
    Applied,
    Peel,
    Eof,
    Invalid,
    Uncommitted,
    Directory,
    MergeConflict,
    HashsumMismatch,
    IndexDirty,
    ApplyFail,
    Owner,
    FastForwardOnly,
}

/// The symbol that stands for each engine classification.
pub open spec fn outcome_of(code: EngineErrorCode) -> OutcomeSymbol {
    match code {
        EngineErrorCode::GenericError => OutcomeSymbol::GenericError,
        EngineErrorCode::NotFound => OutcomeSymbol::NotFound,
        EngineErrorCode::Exists => OutcomeSymbol::Exists,
        EngineErrorCode::Ambiguous => OutcomeSymbol::Ambiguous,
        EngineErrorCode::BufSize => OutcomeSymbol::BufSize,
        EngineErrorCode::User => OutcomeSymbol::User,
        EngineErrorCode::BareRepo => OutcomeSymbol::BareRepo,
        EngineErrorCode::UnbornBranch => OutcomeSymbol::UnbornBranch,
        EngineErrorCode::Unmerged => OutcomeSymbol::Unmerged,
        EngineErrorCode::NotFastForward => OutcomeSymbol::NotFastForward,
        EngineErrorCode::InvalidSpec => OutcomeSymbol::InvalidSpec,
        EngineErrorCode::Conflict => OutcomeSymbol::Conflict,
        EngineErrorCode::Locked => OutcomeSymbol::Locked,
        EngineErrorCode::Modified => OutcomeSymbol::Modified,
        EngineErrorCode::Auth => OutcomeSymbol::Auth,
        EngineErrorCode::Certificate => OutcomeSymbol::Certificate,
        EngineErrorCode::Applied => OutcomeSymbol::Applied,
        EngineErrorCode::Peel => OutcomeSymbol::Peel,
        EngineErrorCode::Eof => OutcomeSymbol::Eof,
        EngineErrorCode::Invalid => OutcomeSymbol::Invalid,
        EngineErrorCode::Uncommitted => OutcomeSymbol::Uncommitted,
        EngineErrorCode::Directory => OutcomeSymbol::Directory,
        EngineErrorCode::MergeConflict => OutcomeSymbol::MergeConflict,
        EngineErrorCode::HashsumMismatch => OutcomeSymbol::HashsumMismatch,
        EngineErrorCode::IndexDirty => OutcomeSymbol::IndexDirty,
        EngineErrorCode::ApplyFail => OutcomeSymbol::ApplyFail,
        EngineErrorCode::Owner => OutcomeSymbol::Owner,
    }
}

/// Symbols that the engine can be the source of, as opposed to the layer's own refusal.
pub open spec fn is_engine_sourced(s: OutcomeSymbol) -> bool {
    s != OutcomeSymbol::FastForwardOnly
}

/// Maps an engine failure onto the closed vocabulary; the match is exhaustive,
/// so a new engine classification cannot slip through unmapped.
pub fn translate_error(code: EngineErrorCode) -> (r: OutcomeSymbol)
    ensures
        r == outcome_of(code),
        is_engine_sourced(r),
{
    match code {
        EngineErrorCode::GenericError => OutcomeSymbol::GenericError,
        EngineErrorCode::NotFound => OutcomeSymbol::NotFound,
        EngineErrorCode::Exists => OutcomeSymbol::Exists,
        EngineErrorCode::Ambiguous => OutcomeSymbol::Ambiguous,
        EngineErrorCode::BufSize => OutcomeSymbol::BufSize,
        EngineErrorCode::User => OutcomeSymbol::User,
        EngineErrorCode::BareRepo => OutcomeSymbol::BareRepo,
        EngineErrorCode::UnbornBranch => OutcomeSymbol::UnbornBranch,
        EngineErrorCode::Unmerged => OutcomeSymbol::Unmerged,
        EngineErrorCode::NotFastForward => OutcomeSymbol::NotFastForward,
        EngineErrorCode::InvalidSpec => OutcomeSymbol::InvalidSpec,
        EngineErrorCode::Conflict => OutcomeSymbol::Conflict,
        EngineErrorCode::Locked => OutcomeSymbol::Locked,
        EngineErrorCode::Modified => OutcomeSymbol::Modified,
        EngineErrorCode::Auth => OutcomeSymbol::Auth,
        EngineErrorCode::Certificate => OutcomeSymbol::Certificate,
        EngineErrorCode::Applied => OutcomeSymbol::Applied,
        EngineErrorCode::Peel => OutcomeSymbol::Peel,
        EngineErrorCode::Eof => OutcomeSymbol::Eof,
        EngineErrorCode::Invalid => OutcomeSymbol::Invalid,
        EngineErrorCode::Uncommitted => OutcomeSymbol::Uncommitted,
        EngineErrorCode::Directory => OutcomeSymbol::Directory,
        EngineErrorCode::MergeConflict => OutcomeSymbol::MergeConflict,
        EngineErrorCode::HashsumMismatch => OutcomeSymbol::HashsumMismatch,
        EngineErrorCode::IndexDirty => OutcomeSymbol::IndexDirty,
        EngineErrorCode::ApplyFail => OutcomeSymbol::ApplyFail,
        EngineErrorCode::Owner => OutcomeSymbol::Owner,
    }
}

/// The atom under which each symbol is reported to the caller.
pub open spec fn symbol_name(s: OutcomeSymbol) -> Seq<char> {
    match s {
        OutcomeSymbol::GenericError => "genericerror"@,
        OutcomeSymbol::NotFound => "notfound"@,
        OutcomeSymbol::Exists => "exists"@,
        OutcomeSymbol::Ambiguous => "ambiguous"@,
        OutcomeSymbol::BufSize => "bufsize"@,
        OutcomeSymbol::User => "user"@,
        OutcomeSymbol::BareRepo => "barerepo"@,
        OutcomeSymbol::UnbornBranch => "unbornbranch"@,
        OutcomeSymbol::Unmerged => "unmerged"@,
        OutcomeSymbol::NotFastForward => "notfastforward"@,
        OutcomeSymbol::InvalidSpec => "invalidspec"@,
        OutcomeSymbol::Conflict => "conflict"@,
        OutcomeSymbol::Locked => "locked"@,
        OutcomeSymbol::Modified => "modified"@,
        OutcomeSymbol::Auth => "auth"@,
        OutcomeSymbol::Certificate => "certificate"@,
        OutcomeSymbol::Applied => "applied"@,
        OutcomeSymbol::Peel => "peel"@,
        OutcomeSymbol::Eof => "eof"@,
        OutcomeSymbol::Invalid => "invalid"@,
        OutcomeSymbol::Uncommitted => "uncommitted"@,
        OutcomeSymbol::Directory => "directory"@,
        OutcomeSymbol::MergeConflict => "mergeconflict"@,
        OutcomeSymbol::HashsumMismatch => "hashsummismatch"@,
        OutcomeSymbol::IndexDirty => "indexdirty"@,
        OutcomeSymbol::ApplyFail => "applyfail"@,
        OutcomeSymbol::Owner => "owner"@,
        OutcomeSymbol::FastForwardOnly => "fast_forward_only"@,
    }
}

impl OutcomeSymbol {
    /// The atom name of this symbol.
    pub fn name(&self) -> (r: &'static str)
        ensures
            r@ == symbol_name(*self),
    {
        match self {
            OutcomeSymbol::GenericError => "genericerror",
            OutcomeSymbol::NotFound => "notfound",
            OutcomeSymbol::Exists => "exists",
            OutcomeSymbol::Ambiguous => "ambiguous",
            OutcomeSymbol::BufSize => "bufsize",
            OutcomeSymbol::User => "user",
            OutcomeSymbol::BareRepo => "barerepo",
            OutcomeSymbol::UnbornBranch => "unbornbranch",
            OutcomeSymbol::Unmerged => "unmerged",
            OutcomeSymbol::NotFastForward => "notfastforward",
            OutcomeSymbol::InvalidSpec => "invalidspec",
            OutcomeSymbol::Conflict => "conflict",
            OutcomeSymbol::Locked => "locked",
            OutcomeSymbol::Modified => "modified",
            OutcomeSymbol::Auth => "auth",
            OutcomeSymbol::Certificate => "certificate",
            OutcomeSymbol::Applied => "applied",
            OutcomeSymbol::Peel => "peel",
            OutcomeSymbol::Eof => "eof",
            OutcomeSymbol::Invalid => "invalid",
            OutcomeSymbol::Uncommitted => "uncommitted",
            OutcomeSymbol::Directory => "directory",
            OutcomeSymbol::MergeConflict => "mergeconflict",
            OutcomeSymbol::HashsumMismatch => "hashsummismatch",
            OutcomeSymbol::IndexDirty => "indexdirty",
            OutcomeSymbol::ApplyFail => "applyfail",
            OutcomeSymbol::Owner => "owner",
            OutcomeSymbol::FastForwardOnly => "fast_forward_only",
        }
    }
}

/// Distinct engine classifications never collapse onto one symbol: the
/// translation loses nothing of the engine's classification.
pub proof fn lemma_translation_injective(a: EngineErrorCode, b: EngineErrorCode)
    requires
        outcome_of(a) == outcome_of(b),
    ensures
        a == b,
{
}

/// Every symbol but the layer's own refusal comes from exactly one engine classification.
pub proof fn lemma_translation_onto_engine_symbols(s: OutcomeSymbol)
    requires
        is_engine_sourced(s),
    ensures
        exists|c: EngineErrorCode| outcome_of(c) == s,
{
    if s == OutcomeSymbol::GenericError { assert(outcome_of(EngineErrorCode::GenericError) == s); }
    if s == OutcomeSymbol::NotFound { assert(outcome_of(EngineErrorCode::NotFound) == s); }
    if s == OutcomeSymbol::Exists { assert(outcome_of(EngineErrorCode::Exists) == s); }
    if s == OutcomeSymbol::Ambiguous { assert(outcome_of(EngineErrorCode::Ambiguous) == s); }
    if s == OutcomeSymbol::BufSize { assert(outcome_of(EngineErrorCode::BufSize) == s); }
    if s == OutcomeSymbol::User { assert(outcome_of(EngineErrorCode::User) == s); }
    if s == OutcomeSymbol::BareRepo { assert(outcome_of(EngineErrorCode::BareRepo) == s); }
    if s == OutcomeSymbol::UnbornBranch { assert(outcome_of(EngineErrorCode::UnbornBranch) == s); }
    if s == OutcomeSymbol::Unmerged { assert(outcome_of(EngineErrorCode::Unmerged) == s); }
    if s == OutcomeSymbol::NotFastForward { assert(outcome_of(EngineErrorCode::NotFastForward) == s); }
    if s == OutcomeSymbol::InvalidSpec { assert(outcome_of(EngineErrorCode::InvalidSpec) == s); }
    if s == OutcomeSymbol::Conflict { assert(outcome_of(EngineErrorCode::Conflict) == s); }
    if s == OutcomeSymbol::Locked { assert(outcome_of(EngineErrorCode::Locked) == s); }
    if s == OutcomeSymbol::Modified { assert(outcome_of(EngineErrorCode::Modified) == s); }
    if s == OutcomeSymbol::Auth { assert(outcome_of(EngineErrorCode::Auth) == s); }
    if s == OutcomeSymbol::Certificate { assert(outcome_of(EngineErrorCode::Certificate) == s); }
    if s == OutcomeSymbol::Applied { assert(outcome_of(EngineErrorCode::Applied) == s); }
    if s == OutcomeSymbol::Peel { assert(outcome_of(EngineErrorCode::Peel) == s); }
    if s == OutcomeSymbol::Eof { assert(outcome_of(EngineErrorCode::Eof) == s); }
    if s == OutcomeSymbol::Invalid { assert(outcome_of(EngineErrorCode::Invalid) == s); }
    if s == OutcomeSymbol::Uncommitted { assert(outcome_of(EngineErrorCode::Uncommitted) == s); }
    if s == OutcomeSymbol::Directory { assert(outcome_of(EngineErrorCode::Directory) == s); }
    if s == OutcomeSymbol::MergeConflict { assert(outcome_of(EngineErrorCode::MergeConflict) == s); }
    if s == OutcomeSymbol::HashsumMismatch { assert(outcome_of(EngineErrorCode::HashsumMismatch) == s); }
    if s == OutcomeSymbol::IndexDirty { assert(outcome_of(EngineErrorCode::IndexDirty) == s); }
    if s == OutcomeSymbol::ApplyFail { assert(outcome_of(EngineErrorCode::ApplyFail) == s); }
    if s == OutcomeSymbol::Owner { assert(outcome_of(EngineErrorCode::Owner) == s); }
}

/// The atoms of distinct symbols differ, so a caller can always tell outcomes apart.
pub proof fn lemma_symbol_names_distinct(a: OutcomeSymbol, b: OutcomeSymbol)
    requires
        a != b,
    ensures
        symbol_name(a) != symbol_name(b),
{
    reveal_strlit("genericerror");
    reveal_strlit("notfound");
    reveal_strlit("exists");
    reveal_strlit("ambiguous");
    reveal_strlit("bufsize");
    reveal_strlit("user");
    reveal_strlit("barerepo");
    reveal_strlit("unbornbranch");
    reveal_strlit("unmerged");
    reveal_strlit("notfastforward");
    reveal_strlit("invalidspec");
    reveal_strlit("conflict");
    reveal_strlit("locked");
    reveal_strlit("modified");
    reveal_strlit("auth");
    reveal_strlit("certificate");
    reveal_strlit("applied");
    reveal_strlit("peel");
    reveal_strlit("eof");
    reveal_strlit("invalid");
    reveal_strlit("uncommitted");
    reveal_strlit("directory");
    reveal_strlit("mergeconflict");
    reveal_strlit("hashsummismatch");
    reveal_strlit("indexdirty");
    reveal_strlit("applyfail");
    reveal_strlit("owner");
    reveal_strlit("fast_forward_only");
    if symbol_name(a).len() == symbol_name(b).len() {
        assert(symbol_name(a)[0] != symbol_name(b)[0] || symbol_name(a)[1] != symbol_name(b)[1]
            || symbol_name(a)[2] != symbol_name(b)[2]);
    }
}

} // verus!
