//! The messages that the factory takes, the answer to its query, the calls
//! that it sends out, and the replies that come back.

use crate::master::state::CodeId;
use crate::types::{Addr, Attribute, AttributeView, Coin, CoinView};
use vstd::prelude::*;

verus! {

/// The settings of a new factory: the code of the wallets, their chain, and
/// the code of the executors for each chain. Where a chain is listed twice
/// the later entry counts.
#[derive(Debug, Clone, PartialEq, Eq)]
pub struct InstantiateMsg {
    pub host_code_id: CodeId,
    pub host_chain: String,
    pub slave_code_ids: Vec<(String, CodeId)>,
}

/// A call that may change the factory.
#[derive(Debug, Clone, PartialEq, Eq)]
pub enum ExecuteMsg {
    /// Creates a wallet for the caller.
    CreateHost {
        recovery_pool: Vec<Addr>,
        approval_pool: Vec<Addr>,
        recovery_approvals_needed: u32,
        transfer_ownership_approvals_needed: u32,
    },
    /// Creates the executor of the wallet `host_address` on `slave_chain`.
    CreateSlave { host_address: Addr, slave_chain: String },
    /// A wallet reports that its owner changed.
    UpdateOwner { old_owner: Addr, new_owner: Addr },
}

/// The settings that the factory hands to a new wallet.
#[derive(Debug, Clone, PartialEq, Eq)]
pub struct HostInstantiateMsg {
    pub recovery_pool: Vec<Addr>,
    pub approval_pool: Vec<Addr>,
    pub recovery_approvals_needed: u32,
    pub transfer_ownership_approvals_needed: u32,
    pub owner: Addr,
    pub chain: String,
}

/// What a [`HostInstantiateMsg`] stands for.
#[verifier::ext_equal]
pub struct HostInstantiateView {
    pub recovery_pool: Seq<Seq<char>>,
    pub approval_pool: Seq<Seq<char>>,
    pub recovery_approvals_needed: u32,
    pub transfer_ownership_approvals_needed: u32,
    pub owner: Seq<char>,
    pub chain: Seq<char>,
}

impl View for HostInstantiateMsg {
    type V = HostInstantiateView;

    open spec fn view(&self) -> HostInstantiateView {
        HostInstantiateView {
            recovery_pool: self.recovery_pool.deep_view(),
            approval_pool: self.approval_pool.deep_view(),
            recovery_approvals_needed: self.recovery_approvals_needed,
            transfer_ownership_approvals_needed: self.transfer_ownership_approvals_needed,
            owner: self.owner@,
            chain: self.chain@,
        }
    }
}

/// The settings that the factory hands to a new executor.
#[derive(Debug, Clone, PartialEq, Eq)]
pub struct SlaveInstantiateMsg {
    pub owner: Addr,
    pub chain: String,
}

/// What a [`SlaveInstantiateMsg`] stands for.
pub struct SlaveInstantiateView {
    pub owner: Seq<char>,
    pub chain: Seq<char>,
}

impl View for SlaveInstantiateMsg {
    type V = SlaveInstantiateView;

    open spec fn view(&self) -> SlaveInstantiateView {
        SlaveInstantiateView { owner: self.owner@, chain: self.chain@ }
    }
}

/// A question about the factory.
#[derive(Debug, Clone, PartialEq, Eq)]
pub enum QueryMsg {
    GetHostContract { owner: Addr },
}

/// The wallet of an owner.
#[derive(Debug, Clone, PartialEq, Eq)]
pub struct GetHostResponse {
    pub host: Addr,
}

/// The settings of a contract that the factory creates.
#[derive(Debug, Clone, PartialEq, Eq)]
pub enum InitMsg {
    Host(HostInstantiateMsg),
    Slave(SlaveInstantiateMsg),
}

/// What an [`InitMsg`] stands for.
#[verifier::ext_equal]
pub enum InitMsgView {
    Host(HostInstantiateView),
    Slave(SlaveInstantiateView),
}

impl View for InitMsg {
    type V = InitMsgView;

    open spec fn view(&self) -> InitMsgView {
        match *self {
            InitMsg::Host(msg) => InitMsgView::Host(msg@),
            InitMsg::Slave(msg) => InitMsgView::Slave(msg@),
        }
    }
}

/// A contract that the factory asks the chain to create.
#[derive(Debug, Clone, PartialEq, Eq)]
pub enum WasmMsg {
    Instantiate {
        admin: Option<String>,
        code_id: CodeId,
        msg: InitMsg,
        funds: Vec<Coin>,
        label: String,
    },
}

/// What a [`WasmMsg`] stands for.
#[verifier::ext_equal]
pub enum WasmMsgView {
    Instantiate {
        admin: Option<Seq<char>>,
        code_id: CodeId,
        msg: InitMsgView,
        funds: Seq<CoinView>,
        label: Seq<char>,
    },
}

impl View for WasmMsg {
    type V = WasmMsgView;

    open spec fn view(&self) -> WasmMsgView {
        match *self {
            WasmMsg::Instantiate { admin, code_id, msg, funds, label } => WasmMsgView::Instantiate {
                admin: admin.deep_view(),
                code_id,
                msg: msg@,
                funds: funds.deep_view(),
                label: label@,
            },
        }
    }
}

/// When the chain reports back on a message that it delivered.
#[derive(Debug, Clone, Copy, PartialEq, Eq, Structural)]
pub enum ReplyOn {
    /// When the message succeeded.
    Success,
    /// Never.
    Never,
}

/// A message for the chain to deliver, and whether the factory wants a
/// reply, which then comes under `id`.
#[derive(Debug, Clone, PartialEq, Eq)]
pub struct SubMsg {
    pub id: u64,
    pub msg: WasmMsg,
    pub reply_on: ReplyOn,
}

/// What a [`SubMsg`] stands for.
#[verifier::ext_equal]
pub struct SubMsgView {
    pub id: u64,
    pub msg: WasmMsgView,
    pub reply_on: ReplyOn,
}

impl View for SubMsg {
    type V = SubMsgView;

    open spec fn view(&self) -> SubMsgView {
        SubMsgView { id: self.id, msg: self.msg@, reply_on: self.reply_on }
    }
}

impl DeepView for SubMsg {
    type V = SubMsgView;

    open spec fn deep_view(&self) -> SubMsgView {
        self@
    }
}

impl SubMsg {
    /// `msg`, to be delivered without a reply.
    pub fn new(msg: WasmMsg) -> (r: SubMsg)
        ensures
            r@ == (SubMsgView { id: 0, msg: msg@, reply_on: ReplyOn::Never }),
    {
        SubMsg { id: 0, msg, reply_on: ReplyOn::Never }
    }

    /// `msg`, with a reply under `id` if it succeeds.
    pub fn reply_on_success(msg: WasmMsg, id: u64) -> (r: SubMsg)
        ensures
            r@ == (SubMsgView { id, msg: msg@, reply_on: ReplyOn::Success }),
    {
        SubMsg { id, msg, reply_on: ReplyOn::Success }
    }
}

/// What a call to the factory answers when it succeeds.
pub type Response = crate::types::Response<SubMsg>;

/// Something that happened while a message was carried out.
#[derive(Debug, Clone, PartialEq, Eq)]
pub struct Event {
    pub ty: String,
    pub attributes: Vec<Attribute>,
}

/// What came of a message that succeeded.
#[derive(Debug, Clone, PartialEq, Eq)]
pub struct SubMsgResponse {
    pub events: Vec<Event>,
}

/// The chain's report on a message that the factory sent out with `id`:
/// what came of it, or the description of its failure.
#[derive(Debug, PartialEq, Eq)]
pub struct Reply {
    pub id: u64,
    pub result: Result<SubMsgResponse, String>,
}

/// The attributes of `events`, in their order.
pub open spec fn attributes_of(events: Seq<Event>) -> Seq<AttributeView>
    decreases events.len(),
{
    if events.len() == 0 {
        Seq::empty()
    } else {
        attributes_of(events.drop_last()) + events.last().attributes.deep_view()
    }
}

/// The value of the last of `attributes` whose key is `key`.
pub open spec fn last_value(attributes: Seq<AttributeView>, key: Seq<char>) -> Option<Seq<char>>
    decreases attributes.len(),
{
    if attributes.len() == 0 {
        None
    } else if attributes.last().key == key {
        Some(attributes.last().value)
    } else {
        last_value(attributes.drop_last(), key)
    }
}

} // verus!
