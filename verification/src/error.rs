//! The failures that the contract's operations report.

use vstd::prelude::*;

verus! {

/// Why an operation of the contract could not be carried out.
#[derive(Debug, Clone, Copy, PartialEq, Eq, Structural)]
pub enum FortunaError {
    /// The authoritative output carries no decodable datum.
    DatumNotFound,
    /// No output at the contract address carries the master token.
    MasterTokenNotFound,
    /// The operation is reserved and has no behaviour yet.
    NotImplemented,
}

impl FortunaError {
    /// The message that describes the failure.
    pub fn message(&self) -> (text: String)
        ensures
            text@ == match *self {
                FortunaError::DatumNotFound => "No datum found"@,
                FortunaError::MasterTokenNotFound => "Output containing NFT not found"@,
                FortunaError::NotImplemented => "Operation not implemented"@,
            },
    {
        match self {
            FortunaError::DatumNotFound => "No datum found".to_owned(),
            FortunaError::MasterTokenNotFound => "Output containing NFT not found".to_owned(),
            FortunaError::NotImplemented => "Operation not implemented".to_owned(),
        }
    }
}

} // verus!
