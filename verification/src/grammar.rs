//! Grammar configuration and its loading errors.
//!
//! Reading the grammar file is a filesystem edge and lives with the caller
//! that owns I/O; the decision logic — when a path is refused outright and
//! how a read outcome becomes a configuration or an error — is here.

use vstd::prelude::*;

verus! {

/// Why a grammar configuration could not be produced.
#[derive(Clone, Debug, PartialEq, Eq)]
pub enum GrammarError {
    /// The underlying read failed; the payload preserves the cause's
    /// description for diagnostics.
    FileReadError(String),
    /// The supplied path was empty; refused before any read is attempted.
    InvalidPath,
}

/// An immutable grammar constraint: the grammar source text and the name of
/// the root rule the masking stage starts from.
#[derive(Clone, Debug, PartialEq, Eq)]
pub struct GrammarConfig {
    pub grammar_str: String,
    pub grammar_root: String,
}

impl GrammarConfig {
    /// Decides what a grammar load yields, given the path that was asked for
    /// and the outcome of reading it.
    ///
    /// An empty path is refused here, whatever the outcome argument holds:
    /// the caller that owns the filesystem edge reads the file only for a
    /// non-empty path and hands the outcome in.  A successful read becomes a
    /// configuration with the file's exact contents and the root rule
    /// `"root"`; a failed read surfaces as a `FileReadError` carrying the
    /// cause unchanged.
    pub fn from_read(path: &str, outcome: Result<String, String>) -> (r: Result<Self, GrammarError>)
        ensures
            path@.len() == 0 ==> r == Err::<Self, GrammarError>(GrammarError::InvalidPath),
            path@.len() > 0 && outcome is Ok ==> (r matches Ok(g)
                && g.grammar_str == outcome->Ok_0
                && g.grammar_root@ == "root"@),
            path@.len() > 0 && outcome is Err ==> r == Err::<Self, GrammarError>(
                GrammarError::FileReadError(outcome->Err_0),
            ),
    {
        if path.is_empty() {
            return Err(GrammarError::InvalidPath);
        }
        match outcome {
            Ok(grammar_str) => Ok(GrammarConfig { grammar_str, grammar_root: "root".to_owned() }),
            Err(cause) => Err(GrammarError::FileReadError(cause)),
        }
    }
}

} // verus!
