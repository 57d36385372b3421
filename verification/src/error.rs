use cosmwasm_std::StdError;
use vstd::prelude::*;
use vstd::string::StringExecFns;

verus! {

/// The ways a call can be turned down.
#[derive(Clone, Copy, Debug, PartialEq, Eq, Structural)]
pub enum ErrorKind {
    /// The host does not accept the administrator's address.
    InvalidAddress,
    /// A poll is already stored under the question.
    AlreadyExists,
    /// Nothing is stored where the call looks: no poll under the question or,
    /// for the settings, none written yet.
    NotFound,
    /// The choice is neither "yes" nor "no".
    InvalidChoice,
    /// The counter that the vote would raise cannot go higher.
    Overflow,
    /// What the host's storage holds cannot be read as the record it should be.
    Storage,
}

/// Why a call was turned down. Where the host said so, its own error comes along.
#[derive(Debug, PartialEq)]
pub enum ContractError {
    /// The host does not accept the administrator's address.
    InvalidAddress(StdError),
    /// A poll is already stored under the question.
    AlreadyExists,
    /// Nothing is stored where the call looks: no poll under the question or,
    /// for the settings, none written yet.
    NotFound,
    /// The choice is neither "yes" nor "no".
    InvalidChoice,
    /// The counter that the vote would raise cannot go higher.
    Overflow,
    /// What the host's storage holds cannot be read as the record it should be.
    Storage(StdError),
}

impl ContractError {
    /// Which way the call was turned down.
    pub open spec fn kind_of(self) -> ErrorKind {
        match self {
            ContractError::InvalidAddress(_) => ErrorKind::InvalidAddress,
            ContractError::AlreadyExists => ErrorKind::AlreadyExists,
            ContractError::NotFound => ErrorKind::NotFound,
            ContractError::InvalidChoice => ErrorKind::InvalidChoice,
            ContractError::Overflow => ErrorKind::Overflow,
            ContractError::Storage(_) => ErrorKind::Storage,
        }
    }

    /// Which way the call was turned down.
    pub fn kind(&self) -> (kind: ErrorKind)
        ensures
            kind == self.kind_of(),
    {
        match self {
            ContractError::InvalidAddress(_) => ErrorKind::InvalidAddress,
            ContractError::AlreadyExists => ErrorKind::AlreadyExists,
            ContractError::NotFound => ErrorKind::NotFound,
            ContractError::InvalidChoice => ErrorKind::InvalidChoice,
            ContractError::Overflow => ErrorKind::Overflow,
            ContractError::Storage(_) => ErrorKind::Storage,
        }
    }

    /// The text that goes to the caller, for the refusals that have one of their own.
    pub open spec fn message_text(self) -> Option<Seq<char>> {
        match self {
            ContractError::AlreadyExists => Some("Key already taken!"@),
            ContractError::NotFound => Some("Poll not available!"@),
            ContractError::InvalidChoice => Some("Invalid choice!"@),
            _ => None,
        }
    }

    /// The text that goes to the caller. `None` for the errors that have no text
    /// of their own: `Overflow`, and the two that carry the host's error.
    pub fn message(&self) -> (m: Option<String>)
        ensures
            match self.message_text() {
                Some(text) => m matches Some(s) && s@ == text,
                None => m is None,
            },
    {
        match self {
            ContractError::AlreadyExists => Some(String::from_str("Key already taken!")),
            ContractError::NotFound => Some(String::from_str("Poll not available!")),
            ContractError::InvalidChoice => Some(String::from_str("Invalid choice!")),
            _ => None,
        }
    }
}

} // verus!
