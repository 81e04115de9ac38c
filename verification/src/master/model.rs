//! The factory as a state machine over mathematical values: what each call
//! makes of the factory, and what it answers.

use crate::master::error::{ContractError, ErrorView};
use crate::master::msg::{
    attributes_of, last_value, ExecuteMsg, HostInstantiateView, InitMsgView, InstantiateMsg,
    Reply, ReplyOn, Response, SlaveInstantiateView, SubMsgView, WasmMsgView,
};
use crate::master::state::{table, value_of, CodeId, StateView, Store, StoreView};
use crate::trusted::{decimal, joined, not_found_error};
use crate::types::{MessageInfo, ResponseView};
use cosmwasm_std::StdError;
use vstd::prelude::*;

verus! {

/// What a successful call answers.
pub type Answer = ResponseView<SubMsgView>;

/// How a call ends: the factory after it, and its answer or the reason for
/// its refusal.
#[verifier::ext_equal]
pub struct Outcome {
    pub store: StoreView,
    pub result: Result<Answer, ErrorView>,
}

/// The outcome that an executable call reports: the store it leaves and the
/// value it returns.
pub open spec fn outcome(store: Store, result: Result<Response, ContractError>) -> Outcome {
    Outcome {
        store: store@,
        result: match result {
            Ok(response) => Ok(response@),
            Err(e) => Err(e@),
        },
    }
}

/// The call is refused with `e`; the factory stays as it was.
pub open spec fn refused(s: StoreView, e: ErrorView) -> Outcome {
    Outcome { store: s, result: Err(e) }
}

/// The call succeeds, leaves `s` and answers `answer`.
pub open spec fn accepted(s: StoreView, answer: Answer) -> Outcome {
    Outcome { store: s, result: Ok(answer) }
}

/// The answer that names a `method` of the factory.
pub open spec fn method_answer(method: Seq<char>) -> Answer {
    Answer::empty().add_attribute("contract"@, "master"@).add_attribute("method"@, method)
}

/// The id under which the chain reports that a wallet was created.
pub open spec fn create_host_reply_id() -> u64 {
    1
}

/// A chain and the code of its executors, as the creation of a factory
/// reports them.
pub open spec fn entry_repr(entry: (Seq<char>, CodeId)) -> Seq<char> {
    "\""@ + entry.0 + "\": \""@ + decimal(entry.1 as nat) + "\""@
}

/// The table of executor code as the creation of a factory reports it: the
/// entries in their order, with commas between, in braces.
pub open spec fn slaves_repr(entries: Seq<(Seq<char>, CodeId)>) -> Seq<char> {
    "{"@ + joined(entries.map_values(|entry: (Seq<char>, CodeId)| entry_repr(entry)), ","@)
        + "}"@
}

/// The factory that `msg` creates. It knows no wallet yet.
pub open spec fn instantiated(msg: InstantiateMsg) -> StoreView {
    StoreView {
        state: StateView { host_code_id: msg.host_code_id, host_chain: msg.host_chain@ },
        slaves: table(msg.slave_code_ids.deep_view()),
        wallets: Map::empty(),
    }
}

/// What the creation of a factory answers.
pub open spec fn instantiate_answer(msg: InstantiateMsg) -> Answer {
    Answer::empty().add_attribute("method"@, "instantiate"@).add_attribute(
        "host"@,
        decimal(msg.host_code_id as nat),
    ).add_attribute("slaves"@, slaves_repr(msg.slave_code_ids.deep_view()))
}

/// The caller asks for a wallet of its own: the factory has the chain create
/// one from the wallets' code, owned by the caller, and asks for a reply.
pub open spec fn create_host(
    s: StoreView,
    sender: Seq<char>,
    settings: HostInstantiateView,
) -> Outcome {
    accepted(
        s,
        method_answer("create_host"@).add_message(
            SubMsgView {
                id: create_host_reply_id(),
                msg: WasmMsgView::Instantiate {
                    admin: None,
                    code_id: s.state.host_code_id,
                    msg: InitMsgView::Host(
                        HostInstantiateView {
                            owner: sender,
                            chain: s.state.host_chain,
                            ..settings
                        },
                    ),
                    funds: Seq::empty(),
                    label: sender,
                },
                reply_on: ReplyOn::Success,
            },
        ),
    )
}

/// The kind of thing that is missing where a chain has no executor code.
pub open spec fn missing_code() -> Seq<char> {
    "slave code id"@
}

/// The kind of thing that is missing where an owner has no wallet.
pub open spec fn missing_wallet() -> Seq<char> {
    "wallet"@
}

/// The caller asks for the executor of the wallet `host_address` on
/// `slave_chain`. Only the wallets' own chain is served, and only if the
/// factory has executor code for it.
pub open spec fn create_slave(
    s: StoreView,
    sender: Seq<char>,
    host_address: Seq<char>,
    slave_chain: Seq<char>,
) -> Outcome {
    if slave_chain != s.state.host_chain {
        refused(s, ErrorView::NotImplemented("No IBC yet"@))
    } else {
        match value_of(s.slaves, slave_chain) {
            None => refused(s, ErrorView::Std(not_found_error(missing_code()))),
            Some(code_id) => accepted(
                s,
                method_answer("add_slave"@).add_message(
                    SubMsgView {
                        id: 0,
                        msg: WasmMsgView::Instantiate {
                            admin: None,
                            code_id,
                            msg: InitMsgView::Slave(
                                SlaveInstantiateView { owner: host_address, chain: slave_chain },
                            ),
                            funds: Seq::empty(),
                            label: sender,
                        },
                        reply_on: ReplyOn::Never,
                    },
                ),
            ),
        }
    }
}

/// A wallet reports that its owner changed from `old_owner` to `new_owner`.
/// The caller must be the wallet indexed under `old_owner`; it is then
/// indexed under `new_owner` instead.
pub open spec fn update_owner(
    s: StoreView,
    sender: Seq<char>,
    old_owner: Seq<char>,
    new_owner: Seq<char>,
) -> Outcome {
    if value_of(s.wallets, old_owner) != Some(sender) {
        refused(s, ErrorView::Unauthorized)
    } else {
        accepted(
            StoreView { wallets: s.wallets.remove(old_owner).insert(new_owner, sender), ..s },
            method_answer("update_owner"@),
        )
    }
}

/// What the call `msg` by `info.sender` makes of the factory `s`.
pub open spec fn execute(s: StoreView, info: MessageInfo, msg: ExecuteMsg) -> Outcome {
    let sender = info.sender@;
    match msg {
        ExecuteMsg::CreateHost {
            recovery_pool,
            approval_pool,
            recovery_approvals_needed,
            transfer_ownership_approvals_needed,
        } => create_host(
            s,
            sender,
            HostInstantiateView {
                recovery_pool: recovery_pool.deep_view(),
                approval_pool: approval_pool.deep_view(),
                recovery_approvals_needed,
                transfer_ownership_approvals_needed,
                owner: sender,
                chain: s.state.host_chain,
            },
        ),
        ExecuteMsg::CreateSlave { host_address, slave_chain } => create_slave(
            s,
            sender,
            host_address@,
            slave_chain@,
        ),
        ExecuteMsg::UpdateOwner { old_owner, new_owner } => update_owner(
            s,
            sender,
            old_owner@,
            new_owner@,
        ),
    }
}

/// The wallet of `owner`; where the owner has none, the error is `NotFound`.
pub open spec fn get_host(s: StoreView, owner: Seq<char>) -> Result<Seq<char>, StdError> {
    match value_of(s.wallets, owner) {
        Some(host) => Ok(host),
        None => Err(not_found_error(missing_wallet())),
    }
}

/// The wallet that was created and its owner, as the texts of their
/// addresses.
pub struct HostCreatedView {
    pub host_address: Seq<char>,
    pub owner: Seq<char>,
}

/// What a reply of the chain tells the factory. Only the reply to the
/// creation of a wallet is known. It names the new wallet and its owner in
/// the attributes `host_address` and `owner` of its events; where an
/// attribute occurs several times the last one counts.
pub open spec fn reply(msg: Reply) -> Result<HostCreatedView, ErrorView> {
    if msg.id != create_host_reply_id() {
        Err(ErrorView::UnknownReplyID(msg.id))
    } else {
        match msg.result {
            Err(_) => Err(ErrorView::Generic("Failed"@)),
            Ok(response) => {
                let attributes = attributes_of(response.events@);
                match last_value(attributes, "host_address"@) {
                    None => Err(ErrorView::Generic("Host address not detected."@)),
                    Some(host_address) => match last_value(attributes, "owner"@) {
                        None => Err(ErrorView::Generic("Owner address not detected."@)),
                        Some(owner) => Ok(HostCreatedView { host_address, owner }),
                    },
                }
            },
        }
    }
}

/// The new wallet `host` is indexed under its `owner`.
pub open spec fn index_wallet(s: StoreView, owner: Seq<char>, host: Seq<char>) -> Outcome {
    accepted(
        StoreView { wallets: s.wallets.insert(owner, host), ..s },
        method_answer("reply_create_host"@),
    )
}

} // verus!
