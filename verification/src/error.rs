use vstd::prelude::*;

verus! {

/// The error taxonomy of the ledger core.
#[derive(Clone, Copy, Debug, PartialEq, Eq, Structural)]
pub enum LedgerError {
    /// Bad input shape or value; caller-correctable, and nothing was asked
    /// of the store.
    Validation,
    /// The row scoped by wallet id and record id is absent.
    NotFound,
    /// The store returned a row the core cannot decode; an internal failure,
    /// not caller-correctable.
    RowMapping,
    /// A connection or statement execution failed.
    Storage,
}

impl LedgerError {
    /// The HTTP status class the surface layer answers with: 400 for a
    /// validation failure, 404 for an absent row, 500 for store-side
    /// failures.
    pub fn http_status(&self) -> (s: u16)
        ensures
            match *self {
                LedgerError::Validation => s == 400,
                LedgerError::NotFound => s == 404,
                LedgerError::RowMapping => s == 500,
                LedgerError::Storage => s == 500,
            },
    {
        match self {
            LedgerError::Validation => 400,
            LedgerError::NotFound => 404,
            LedgerError::RowMapping => 500,
            LedgerError::Storage => 500,
        }
    }
}

} // verus!
