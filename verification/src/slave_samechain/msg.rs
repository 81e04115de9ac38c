//! The messages that the executor takes, and the calls that it sends out.

use crate::types::{Addr, Coin, CoinView};
use cosmwasm_std::CosmosMsg;
use vstd::prelude::*;

verus! {

/// The settings of a new executor: the wallet that owns it, and its chain.
#[derive(Debug, Clone, PartialEq, Eq)]
pub struct InstantiateMsg {
    pub owner: Addr,
    pub chain: String,
}

/// What the executor tells the wallet that owns it.
#[derive(Debug, Clone, PartialEq, Eq)]
pub enum HostRegisterSlaveMsg {
    RegisterSlave { chain: String, addr: Addr },
}

/// What a [`HostRegisterSlaveMsg`] stands for.
pub enum HostRegisterSlaveView {
    RegisterSlave { chain: Seq<char>, addr: Seq<char> },
}

impl View for HostRegisterSlaveMsg {
    type V = HostRegisterSlaveView;

    open spec fn view(&self) -> HostRegisterSlaveView {
        match *self {
            HostRegisterSlaveMsg::RegisterSlave { chain, addr } => {
                HostRegisterSlaveView::RegisterSlave { chain: chain@, addr: addr@ }
            },
        }
    }
}

/// A call to another contract that the executor asks the chain to make.
#[derive(Debug, Clone, PartialEq, Eq)]
pub enum WasmMsg {
    Execute { contract_addr: String, msg: HostRegisterSlaveMsg, funds: Vec<Coin> },
}

/// What the executor asks the chain to deliver.
#[derive(Debug, PartialEq, Eq)]
pub enum SlaveMsg {
    /// A call of the executor's own.
    Wasm(WasmMsg),
    /// An action of the wallet, passed on as it came.
    Proxied(CosmosMsg),
}

/// What a [`SlaveMsg`] stands for.
#[verifier::ext_equal]
pub enum SlaveMsgView {
    Execute { contract_addr: Seq<char>, msg: HostRegisterSlaveView, funds: Seq<CoinView> },
    Proxied(CosmosMsg),
}

impl View for SlaveMsg {
    type V = SlaveMsgView;

    open spec fn view(&self) -> SlaveMsgView {
        match *self {
            SlaveMsg::Wasm(WasmMsg::Execute { contract_addr, msg, funds }) => {
                SlaveMsgView::Execute {
                    contract_addr: contract_addr@,
                    msg: msg@,
                    funds: funds.deep_view(),
                }
            },
            SlaveMsg::Proxied(msg) => SlaveMsgView::Proxied(msg),
        }
    }
}

impl DeepView for SlaveMsg {
    type V = SlaveMsgView;

    open spec fn deep_view(&self) -> SlaveMsgView {
        self@
    }
}

/// What a call to the executor answers when it succeeds.
pub type Response = crate::types::Response<SlaveMsg>;

} // verus!
