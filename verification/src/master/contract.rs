//! The factory's entry points: creation, the calls that change it, the
//! query, and the handling of the chain's replies.

pub mod query;

use crate::master::error::ContractError;
use crate::master::model;
use crate::master::model::outcome;
use crate::master::msg::{
    attributes_of, last_value, ExecuteMsg, GetHostResponse, HostInstantiateMsg, InitMsg,
    InstantiateMsg, QueryMsg, Reply, Response, SlaveInstantiateMsg, SubMsg, WasmMsg,
};
use crate::master::state::{
    load_code_id, load_wallet, remove_wallet, save_wallet, CodeId, State, Store,
};
use crate::trusted::{join, not_found, u64_to_string};
use crate::types::{Addr, Env, MessageInfo};
use cosmwasm_std::StdError;
use vstd::prelude::*;
use vstd::std_specs::convert::TryFromSpecImpl;
use vstd::string::StringExecFns;

verus! {

/// What a reply of the chain is about.
#[derive(Debug, Clone, Copy, PartialEq, Eq, Structural)]
pub enum ReplyKind {
    /// A wallet was created.
    ReplyCreateHost,
}

impl ReplyKind {
    /// The id under which the chain reports on this kind.
    pub fn id(self) -> (r: u64)
        ensures
            r == model::create_host_reply_id(),
    {
        1
    }
}

impl TryFrom<u64> for ReplyKind {
    type Error = &'static str;

    fn try_from(value: u64) -> (r: Result<Self, Self::Error>) {
        match value {
            1 => Ok(ReplyKind::ReplyCreateHost),
            _ => Err("Unknown"),
        }
    }
}

impl TryFromSpecImpl<u64> for ReplyKind {
    open spec fn obeys_try_from_spec() -> bool {
        true
    }

    open spec fn try_from_spec(value: u64) -> Result<Self, Self::Error> {
        if value == model::create_host_reply_id() {
            Ok(ReplyKind::ReplyCreateHost)
        } else {
            Err("Unknown")
        }
    }
}

/// The table of executor code as the creation of a factory reports it.
fn slaves_repr(entries: &Vec<(String, CodeId)>) -> (r: String)
    ensures
        r@ == model::slaves_repr(entries.deep_view()),
{
    let ghost repr = |entry: (Seq<char>, CodeId)| model::entry_repr(entry);
    let mut texts: Vec<String> = Vec::new();
    let mut i: usize = 0;
    while i < entries.len()
        invariant
            i <= entries.len(),
            repr == |entry: (Seq<char>, CodeId)| model::entry_repr(entry),
            texts.deep_view() == entries.deep_view().take(i as int).map_values(repr),
        decreases entries.len() - i,
    {
        let ghost written = texts.deep_view();
        let ghost line = model::entry_repr(entries.deep_view()[i as int]);
        let text = "\"".to_owned().concat(entries[i].0.as_str()).concat("\": \"").concat(
            u64_to_string(entries[i].1).as_str(),
        ).concat("\"");
        texts.push(text);
        assert(entries.deep_view().take(i + 1).map_values(repr) =~= written.push(line));
        i += 1;
    }
    assert(entries.deep_view().take(i as int) =~= entries.deep_view());
    let inner = join(&texts, ",");
    "{".to_owned().concat(inner.as_str()).concat("}")
}

/// Creates a factory for wallets of the code `msg.host_code_id` on the chain
/// `msg.host_chain`, with the executor code that `msg` lists for each chain.
/// It knows no wallet yet.
pub fn instantiate(_env: Env, _info: MessageInfo, msg: InstantiateMsg) -> (r: Result<
    (Store, Response),
    ContractError,
>)
    ensures
        r matches Ok((store, response)) && store@ == model::instantiated(msg) && response@
            == model::instantiate_answer(msg),
{
    let slaves = slaves_repr(&msg.slave_code_ids);
    let response = Response::new().add_attribute("method", "instantiate").add_attribute(
        "host",
        u64_to_string(msg.host_code_id).as_str(),
    ).add_attribute("slaves", slaves.as_str());
    let store = Store {
        state: State { host_code_id: msg.host_code_id, host_chain: msg.host_chain },
        slaves: msg.slave_code_ids,
        wallets: Vec::new(),
    };
    Ok((store, response))
}

/// Makes the call `msg` for `info.sender`. A call that is refused leaves the
/// factory as it was.
pub fn execute(deps: &mut Store, _env: Env, info: MessageInfo, msg: ExecuteMsg) -> (r: Result<
    Response,
    ContractError,
>)
    ensures
        outcome(*final(deps), r) == model::execute(old(deps)@, info, msg),
{
    match msg {
        ExecuteMsg::CreateHost {
            recovery_pool,
            approval_pool,
            recovery_approvals_needed,
            transfer_ownership_approvals_needed,
        } => {
            let submsg = SubMsg::reply_on_success(
                WasmMsg::Instantiate {
                    admin: None,
                    code_id: deps.state.host_code_id,
                    msg: InitMsg::Host(
                        HostInstantiateMsg {
                            recovery_pool,
                            recovery_approvals_needed,
                            approval_pool,
                            transfer_ownership_approvals_needed,
                            owner: info.sender.clone(),
                            chain: deps.state.host_chain.clone(),
                        },
                    ),
                    funds: Vec::new(),
                    label: info.sender.clone().into_string(),
                },
                ReplyKind::ReplyCreateHost.id(),
            );
            let r = Ok(
                Response::new().add_attribute("contract", "master").add_attribute(
                    "method",
                    "create_host",
                ).add_message(submsg),
            );
            let ghost want = model::execute(old(deps)@, info, msg);
            assert(r->Ok_0@.messages[0] =~~= want.result->Ok_0.messages[0]);
            r
        },
        ExecuteMsg::CreateSlave { host_address, slave_chain } => {
            if slave_chain == deps.state.host_chain {
                let code_id = match load_code_id(&deps.slaves, &slave_chain) {
                    Some(code_id) => code_id,
                    None => {
                        return Err(ContractError::Std(not_found("slave code id")));
                    },
                };
                let created = WasmMsg::Instantiate {
                    admin: None,
                    code_id,
                    msg: InitMsg::Slave(
                        SlaveInstantiateMsg { owner: host_address, chain: slave_chain },
                    ),
                    funds: Vec::new(),
                    label: info.sender.clone().into_string(),
                };
                let r = Ok(
                    Response::new().add_attribute("contract", "master").add_attribute(
                        "method",
                        "add_slave",
                    ).add_message(SubMsg::new(created)),
                );
                let ghost want = model::execute(old(deps)@, info, msg);
                assert(r->Ok_0@.messages[0] =~~= want.result->Ok_0.messages[0]);
                r
            } else {
                Err(ContractError::NotImplemented("No IBC yet".to_owned()))
            }
        },
        ExecuteMsg::UpdateOwner { old_owner, new_owner } => {
            let wallet = match load_wallet(&deps.wallets, &old_owner) {
                Some(wallet) => wallet,
                None => {
                    return Err(ContractError::Unauthorized {  });
                },
            };
            if wallet != info.sender {
                Err(ContractError::Unauthorized {  })
            } else {
                remove_wallet(&mut deps.wallets, &old_owner);
                save_wallet(&mut deps.wallets, new_owner, wallet);
                Ok(
                    Response::new().add_attribute("contract", "master").add_attribute(
                        "method",
                        "update_owner",
                    ),
                )
            }
        },
    }
}

/// Answers the question `msg` about the factory.
pub fn query(deps: &Store, _env: Env, msg: QueryMsg) -> (r: Result<GetHostResponse, StdError>)
    ensures
        msg matches QueryMsg::GetHostContract { owner } && match model::get_host(deps@, owner@) {
            Ok(host) => r matches Ok(found) && found.host@ == host,
            Err(e) => r == Err::<GetHostResponse, StdError>(e),
        },
{
    match msg {
        QueryMsg::GetHostContract { owner } => query::get_host(deps, owner),
    }
}

/// The wallet that a reply reports as created, and its owner, both as the
/// chain wrote them. They are yet to be validated as addresses.
#[derive(Debug, Clone, PartialEq, Eq)]
pub struct HostCreated {
    pub host_address: String,
    pub owner: String,
}

impl View for HostCreated {
    type V = model::HostCreatedView;

    open spec fn view(&self) -> model::HostCreatedView {
        model::HostCreatedView { host_address: self.host_address@, owner: self.owner@ }
    }
}

/// Reads a reply of the chain. A reply under an unknown id is refused with
/// `UnknownReplyID`, the report of a failure with the error "Failed". The
/// reply to the creation of a wallet names the wallet and its owner in the
/// attributes `host_address` and `owner`; where one is missing the error says
/// which. The two are handed back for validation; `index_wallet` then records
/// them.
pub fn reply(_env: Env, msg: Reply) -> (r: Result<HostCreated, ContractError>)
    ensures
        match model::reply(msg) {
            Ok(created) => r matches Ok(found) && found@ == created,
            Err(e) => r matches Err(found) && found@ == e,
        },
{
    let reply_kind = ReplyKind::try_from(msg.id);
    if reply_kind.is_err() {
        return Err(ContractError::UnknownReplyID(msg.id));
    }
    match reply_kind.unwrap() {
        ReplyKind::ReplyCreateHost => {
            if let Ok(result) = msg.result {
                let host_key = "host_address".to_owned();
                let owner_key = "owner".to_owned();
                proof {
                    reveal_strlit("host_address");
                    reveal_strlit("owner");
                    assert("host_address"@.len() != "owner"@.len());
                }
                let mut host_addr: Option<String> = None;
                let mut owner_addr: Option<String> = None;
                let mut i: usize = 0;
                while i < result.events.len()
                    invariant
                        i <= result.events.len(),
                        host_key@ == "host_address"@,
                        owner_key@ == "owner"@,
                        host_key@ != owner_key@,
                        host_addr.deep_view() == last_value(
                            attributes_of(result.events@.take(i as int)),
                            host_key@,
                        ),
                        owner_addr.deep_view() == last_value(
                            attributes_of(result.events@.take(i as int)),
                            owner_key@,
                        ),
                    decreases result.events.len() - i,
                {
                    let ghost before = attributes_of(result.events@.take(i as int));
                    let attributes = &result.events[i].attributes;
                    let mut j: usize = 0;
                    while j < attributes.len()
                        invariant
                            j <= attributes.len(),
                            host_key@ != owner_key@,
                            host_addr.deep_view() == last_value(
                                before + attributes.deep_view().take(j as int),
                                host_key@,
                            ),
                            owner_addr.deep_view() == last_value(
                                before + attributes.deep_view().take(j as int),
                                owner_key@,
                            ),
                        decreases attributes.len() - j,
                    {
                        let ghost seen = before + attributes.deep_view().take(j as int);
                        let ghost next = before + attributes.deep_view().take(j + 1);
                        proof {
                            assert(next.drop_last() =~= seen);
                        }
                        if attributes[j].key == host_key {
                            host_addr = Some(attributes[j].value.clone());
                        } else if attributes[j].key == owner_key {
                            owner_addr = Some(attributes[j].value.clone());
                        }
                        j += 1;
                    }
                    proof {
                        assert(attributes.deep_view().take(j as int) =~= attributes.deep_view());
                        assert(result.events@.take(i + 1).drop_last() =~= result.events@.take(
                            i as int,
                        ));
                    }
                    i += 1;
                }
                assert(result.events@.take(i as int) =~= result.events@);
                let host_address = match host_addr {
                    Some(host_address) => host_address,
                    None => {
                        return Err(
                            ContractError::Generic("Host address not detected.".to_owned()),
                        );
                    },
                };
                let owner = match owner_addr {
                    Some(owner) => owner,
                    None => {
                        return Err(
                            ContractError::Generic("Owner address not detected.".to_owned()),
                        );
                    },
                };
                Ok(HostCreated { host_address, owner })
            } else {
                Err(ContractError::Generic("Failed".to_owned()))
            }
        },
    }
}

/// Records the wallet `host_addr`, created for `owner_addr`, in the index,
/// in place of any wallet that the owner had there. Both addresses have been
/// validated.
pub fn index_wallet(deps: &mut Store, owner_addr: Addr, host_addr: Addr) -> (r: Result<
    Response,
    ContractError,
>)
    ensures
        outcome(*final(deps), r) == model::index_wallet(old(deps)@, owner_addr@, host_addr@),
{
    save_wallet(&mut deps.wallets, owner_addr, host_addr);
    Ok(
        Response::new().add_attribute("contract", "master").add_attribute(
            "method",
            "reply_create_host",
        ),
    )
}

} // verus!
