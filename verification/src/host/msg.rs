//! The messages that the wallet takes, the answers to its queries, and the
//! calls that it sends out.

use crate::host::state::RecoveryMethod;
use crate::types::{Addr, Coin, CoinView};
use cosmwasm_std::{CosmosMsg, StdError};
use vstd::prelude::*;

verus! {

/// The settings of a new wallet.
#[derive(Debug, Clone, PartialEq, Eq)]
pub struct InstantiateMsg {
    pub recovery_pool: Vec<Addr>,
    pub approval_pool: Vec<Addr>,
    pub recovery_approvals_needed: u32,
    pub transfer_ownership_approvals_needed: u32,
    pub owner: Addr,
    pub chain: String,
}

/// A call that may change the wallet.
#[derive(Debug, PartialEq)]
pub enum ExecuteMsg {
    AddRecoveryMember { member: Addr },
    AddApprovalMember { member: Addr },
    RemoveRecoveryMember { member: Addr },
    RemoveApprovalMember { member: Addr },
    /// An executor registers itself for `chain`. `validated` is what the
    /// chain's address validation made of `addr`.
    RegisterSlave { chain: String, addr: Addr, validated: Result<Addr, StdError> },
    /// The owner has the executor of the wallet's chain run `body_proxy`.
    ExecuteSameChain { body_proxy: CosmosMsg },
    BeginSocialRecovery { target_addr: Addr },
    ApproveSocialRecovery { target_addr: Addr },
    BeginTransferOwnership { target_addr: Addr },
    ApproveTransferOwnership { target_addr: Addr },
}

/// A question about the wallet.
#[derive(Debug, Clone, PartialEq, Eq)]
pub enum QueryMsg {
    GetRecoveryPool {},
    GetSlaves {},
    GetSlave { chain: String },
}

/// The recovery pool, its quorums, and the pending change of owner.
#[derive(Debug, Clone, PartialEq, Eq)]
pub struct GetRecoveryPoolResponse {
    pub members: Vec<Addr>,
    pub recovery_approvals_count: u32,
    pub transfer_approvals_count: u32,
    /// Votes cast on the pending change; 0 while none is pending.
    pub recovery_progress: u64,
    pub recovery_method: Option<RecoveryMethod>,
    pub new_owner: Option<Addr>,
}

/// What a [`GetRecoveryPoolResponse`] stands for.
#[verifier::ext_equal]
pub struct RecoveryPoolView {
    pub members: Seq<Seq<char>>,
    pub recovery_approvals_count: u32,
    pub transfer_approvals_count: u32,
    pub recovery_progress: nat,
    pub recovery_method: Option<RecoveryMethod>,
    pub new_owner: Option<Seq<char>>,
}

impl View for GetRecoveryPoolResponse {
    type V = RecoveryPoolView;

    open spec fn view(&self) -> RecoveryPoolView {
        RecoveryPoolView {
            members: self.members.deep_view(),
            recovery_approvals_count: self.recovery_approvals_count,
            transfer_approvals_count: self.transfer_approvals_count,
            recovery_progress: self.recovery_progress as nat,
            recovery_method: self.recovery_method,
            new_owner: self.new_owner.deep_view(),
        }
    }
}

/// The registered executors, chain by chain, in the order they registered.
#[derive(Debug, Clone, PartialEq, Eq)]
pub struct GetSlavesResponse {
    pub slaves: Vec<(String, Addr)>,
}

/// The executor registered for one chain, if any.
#[derive(Debug, Clone, PartialEq, Eq)]
pub struct GetSlaveResponse {
    pub slave: Option<Addr>,
}

/// The answer to a [`QueryMsg`].
#[derive(Debug, Clone, PartialEq, Eq)]
pub enum QueryResponse {
    RecoveryPool(GetRecoveryPoolResponse),
    Slaves(GetSlavesResponse),
    Slave(GetSlaveResponse),
}

/// What a [`QueryResponse`] stands for.
#[verifier::ext_equal]
pub enum QueryResponseView {
    RecoveryPool(RecoveryPoolView),
    Slaves(Seq<(Seq<char>, Seq<char>)>),
    Slave(Option<Seq<char>>),
}

impl View for QueryResponse {
    type V = QueryResponseView;

    open spec fn view(&self) -> QueryResponseView {
        match *self {
            QueryResponse::RecoveryPool(pool) => QueryResponseView::RecoveryPool(pool@),
            QueryResponse::Slaves(all) => QueryResponseView::Slaves(all.slaves.deep_view()),
            QueryResponse::Slave(one) => QueryResponseView::Slave(one.slave.deep_view()),
        }
    }
}

/// What the wallet tells the factory that created it.
#[derive(Debug, Clone, PartialEq, Eq)]
pub enum MasterMsg {
    UpdateOwner { old_owner: Addr, new_owner: Addr },
}

/// What a [`MasterMsg`] stands for.
pub enum MasterMsgView {
    UpdateOwner { old_owner: Seq<char>, new_owner: Seq<char> },
}

impl View for MasterMsg {
    type V = MasterMsgView;

    open spec fn view(&self) -> MasterMsgView {
        match *self {
            MasterMsg::UpdateOwner { old_owner, new_owner } => MasterMsgView::UpdateOwner {
                old_owner: old_owner@,
                new_owner: new_owner@,
            },
        }
    }
}

/// The body of a call that the wallet sends out.
#[derive(Debug, Clone, PartialEq, Eq)]
pub enum Payload {
    /// A body that is serialized already.
    Json(Vec<u8>),
    /// A message for the factory, which the sender serializes.
    Master(MasterMsg),
}

/// What a [`Payload`] stands for.
pub enum PayloadView {
    Json(Seq<u8>),
    Master(MasterMsgView),
}

impl View for Payload {
    type V = PayloadView;

    open spec fn view(&self) -> PayloadView {
        match *self {
            Payload::Json(bytes) => PayloadView::Json(bytes@),
            Payload::Master(msg) => PayloadView::Master(msg@),
        }
    }
}

/// A call to another contract that the wallet asks the chain to make.
#[derive(Debug, Clone, PartialEq, Eq)]
pub enum WasmMsg {
    Execute { contract_addr: String, msg: Payload, funds: Vec<Coin> },
}

/// What a [`WasmMsg`] stands for.
#[verifier::ext_equal]
pub enum WasmMsgView {
    Execute { contract_addr: Seq<char>, msg: PayloadView, funds: Seq<CoinView> },
}

impl View for WasmMsg {
    type V = WasmMsgView;

    open spec fn view(&self) -> WasmMsgView {
        match *self {
            WasmMsg::Execute { contract_addr, msg, funds } => WasmMsgView::Execute {
                contract_addr: contract_addr@,
                msg: msg@,
                funds: funds.deep_view(),
            },
        }
    }
}

impl DeepView for WasmMsg {
    type V = WasmMsgView;

    open spec fn deep_view(&self) -> WasmMsgView {
        self@
    }
}

/// What a call to the wallet answers when it succeeds.
pub type Response = crate::types::Response<WasmMsg>;

} // verus!
