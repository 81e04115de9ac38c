//! The ways in which a call to the wallet fails.

use cosmwasm_std::StdError;
use vstd::prelude::*;
use vstd::std_specs::convert::FromSpecImpl;

verus! {

/// Why the wallet refused a call. Every refusal leaves the wallet as it was.
#[derive(Debug, PartialEq)]
pub enum ContractError {
    /// An error of the storage or of address validation, passed on as it came.
    Std(StdError),
    /// The caller lacks the role that the call asks for.
    Unauthorized {},
    /// The member to remove is not in the pool.
    MemberNotFound {},
    /// The member to add is in the pool already.
    MemberAlreadyAdded {},
    /// The nonce is not above the last one that was used.
    NonceAlreadyUsed {},
    /// No executor is registered for the wallet's chain.
    ChainNotRegistered {},
    /// The proposed owner is the current owner.
    SelfRecovery {},
    /// A change of owner is pending already.
    AlreadyRecovering {},
    /// The caller has voted on the pending change before.
    AlreadyVoted {},
    /// No change of owner of the kind approved is pending.
    NotInProgress {},
    /// What the caller claims disagrees with what is stored.
    InvariantMismatch(String),
}

/// What a [`ContractError`] stands for.
pub enum ErrorView {
    Std(StdError),
    Unauthorized,
    MemberNotFound,
    MemberAlreadyAdded,
    NonceAlreadyUsed,
    ChainNotRegistered,
    SelfRecovery,
    AlreadyRecovering,
    AlreadyVoted,
    NotInProgress,
    InvariantMismatch(Seq<char>),
}

impl View for ContractError {
    type V = ErrorView;

    open spec fn view(&self) -> ErrorView {
        match *self {
            ContractError::Std(e) => ErrorView::Std(e),
            ContractError::Unauthorized {  } => ErrorView::Unauthorized,
            ContractError::MemberNotFound {  } => ErrorView::MemberNotFound,
            ContractError::MemberAlreadyAdded {  } => ErrorView::MemberAlreadyAdded,
            ContractError::NonceAlreadyUsed {  } => ErrorView::NonceAlreadyUsed,
            ContractError::ChainNotRegistered {  } => ErrorView::ChainNotRegistered,
            ContractError::SelfRecovery {  } => ErrorView::SelfRecovery,
            ContractError::AlreadyRecovering {  } => ErrorView::AlreadyRecovering,
            ContractError::AlreadyVoted {  } => ErrorView::AlreadyVoted,
            ContractError::NotInProgress {  } => ErrorView::NotInProgress,
            ContractError::InvariantMismatch(text) => ErrorView::InvariantMismatch(text@),
        }
    }
}

impl From<StdError> for ContractError {
    fn from(e: StdError) -> (r: ContractError) {
        ContractError::Std(e)
    }
}

impl FromSpecImpl<StdError> for ContractError {
    open spec fn obeys_from_spec() -> bool {
        true
    }

    open spec fn from_spec(e: StdError) -> ContractError {
        ContractError::Std(e)
    }
}

} // verus!
