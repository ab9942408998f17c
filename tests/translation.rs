use exgit::outcome::{translate_error, EngineErrorCode, OutcomeSymbol};

const ALL_CODES: [EngineErrorCode; 27] = [
    EngineErrorCode::GenericError,
    EngineErrorCode::NotFound,
    EngineErrorCode::Exists,
    EngineErrorCode::Ambiguous,
    EngineErrorCode::BufSize,
    EngineErrorCode::User,
    EngineErrorCode::BareRepo,
    EngineErrorCode::UnbornBranch,
    EngineErrorCode::Unmerged,
    EngineErrorCode::NotFastForward,
    EngineErrorCode::InvalidSpec,
    EngineErrorCode::Conflict,
    EngineErrorCode::Locked,
    EngineErrorCode::Modified,
    EngineErrorCode::Auth,
    EngineErrorCode::Certificate,
    EngineErrorCode::Applied,
    EngineErrorCode::Peel,
    EngineErrorCode::Eof,
    EngineErrorCode::Invalid,
    EngineErrorCode::Uncommitted,
    EngineErrorCode::Directory,
    EngineErrorCode::MergeConflict,
    EngineErrorCode::HashsumMismatch,
    EngineErrorCode::IndexDirty,
    EngineErrorCode::ApplyFail,
    EngineErrorCode::Owner,
];

const NAMES: [&str; 27] = [
    "genericerror",
    "notfound",
    "exists",
    "ambiguous",
    "bufsize",
    "user",
    "barerepo",
    "unbornbranch",
    "unmerged",
    "notfastforward",
    "invalidspec",
    "conflict",
    "locked",
    "modified",
    "auth",
    "certificate",
    "applied",
    "peel",
    "eof",
    "invalid",
    "uncommitted",
    "directory",
    "mergeconflict",
    "hashsummismatch",
    "indexdirty",
    "applyfail",
    "owner",
];

#[test]
fn each_code_has_its_own_named_symbol() {
    for (code, name) in ALL_CODES.iter().zip(NAMES.iter()) {
        let symbol = translate_error(*code);
        assert_eq!(symbol.name(), *name);
        assert_ne!(symbol, OutcomeSymbol::FastForwardOnly);
    }
}

#[test]
fn translation_is_injective_on_concrete_codes() {
    for (i, a) in ALL_CODES.iter().enumerate() {
        for (j, b) in ALL_CODES.iter().enumerate() {
            assert_eq!(translate_error(*a) == translate_error(*b), i == j);
        }
    }
}

#[test]
fn specific_translations() {
    assert_eq!(translate_error(EngineErrorCode::NotFound), OutcomeSymbol::NotFound);
    assert_eq!(translate_error(EngineErrorCode::UnbornBranch), OutcomeSymbol::UnbornBranch);
    assert_eq!(translate_error(EngineErrorCode::Auth), OutcomeSymbol::Auth);
    assert_eq!(translate_error(EngineErrorCode::Owner), OutcomeSymbol::Owner);
}

#[test]
fn refusal_symbol_name() {
    assert_eq!(OutcomeSymbol::FastForwardOnly.name(), "fast_forward_only");
}

#[test]
fn atom_names_are_distinct() {
    let mut names: Vec<&str> = ALL_CODES.iter().map(|c| translate_error(*c).name()).collect();
    names.push(OutcomeSymbol::FastForwardOnly.name());
    let count = names.len();
    names.sort();
    names.dedup();
    assert_eq!(names.len(), count);
    assert_eq!(count, 28);
}
