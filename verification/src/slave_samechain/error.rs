//! The ways in which a call to the executor fails.

use cosmwasm_std::StdError;
use vstd::prelude::*;
use vstd::std_specs::convert::FromSpecImpl;

verus! {

/// Why the executor refused a call.
#[derive(Debug, PartialEq)]
pub enum ContractError {
    /// An error of the storage, passed on as it came.
    Std(StdError),
    /// The caller is not the wallet that owns the executor.
    Unauthorized {},
    /// The executor does not do what was asked.
    NotImplemented(String),
}

/// What a [`ContractError`] stands for.
pub enum ErrorView {
    Std(StdError),
    Unauthorized,
    NotImplemented(Seq<char>),
}

impl View for ContractError {
    type V = ErrorView;

    open spec fn view(&self) -> ErrorView {
        match *self {
            ContractError::Std(e) => ErrorView::Std(e),
            ContractError::Unauthorized {  } => ErrorView::Unauthorized,
            ContractError::NotImplemented(text) => ErrorView::NotImplemented(text@),
        }
    }
}

impl From<StdError> for ContractError {
    fn from(e: StdError) -> (r: ContractError) {
        ContractError::Std(e)
    }
}

impl FromSpecImpl<StdError> for ContractError {
    open spec fn obeys_from_spec() -> bool {
        true
    }

    open spec fn from_spec(e: StdError) -> ContractError {
        ContractError::Std(e)
    }
}

} // verus!
