//! The ways in which a call to the factory fails.

use cosmwasm_std::StdError;
use vstd::prelude::*;
use vstd::std_specs::convert::FromSpecImpl;

verus! {

/// Why the factory refused a call. Every refusal leaves the factory as it
/// was.
#[derive(Debug, PartialEq)]
pub enum ContractError {
    /// An error of the storage or of address validation, passed on as it came.
    Std(StdError),
    /// The factory does not do what was asked.
    NotImplemented(String),
    /// A reply came under an id that the factory never asked for.
    UnknownReplyID(u64),
    /// The caller is not the wallet indexed under the owner it names.
    Unauthorized {},
    /// Any other failure, with its description.
    Generic(String),
}

/// What a [`ContractError`] stands for.
pub enum ErrorView {
    Std(StdError),
    NotImplemented(Seq<char>),
    UnknownReplyID(u64),
    Unauthorized,
    Generic(Seq<char>),
}

impl View for ContractError {
    type V = ErrorView;

    open spec fn view(&self) -> ErrorView {
        match *self {
            ContractError::Std(e) => ErrorView::Std(e),
            ContractError::NotImplemented(text) => ErrorView::NotImplemented(text@),
            ContractError::UnknownReplyID(id) => ErrorView::UnknownReplyID(id),
            ContractError::Unauthorized {  } => ErrorView::Unauthorized,
            ContractError::Generic(text) => ErrorView::Generic(text@),
        }
    }
}

impl From<StdError> for ContractError {
    fn from(e: StdError) -> (r: ContractError) {
        ContractError::Std(e)
    }
}

impl FromSpecImpl<StdError> for ContractError {
    open spec fn obeys_from_spec() -> bool {
        true
    }

    open spec fn from_spec(e: StdError) -> ContractError {
        ContractError::Std(e)
    }
}

} // verus!
