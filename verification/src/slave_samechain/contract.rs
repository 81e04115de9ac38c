//! The executor's entry points.

use crate::trusted::is_custom;
use crate::slave_samechain::error::ContractError;
use crate::slave_samechain::model;
use crate::slave_samechain::model::result_view;
use crate::slave_samechain::msg::{
    HostRegisterSlaveMsg, InstantiateMsg, Response, SlaveMsg, WasmMsg,
};
use crate::slave_samechain::state::State;
use crate::types::{Env, MessageInfo};
use cosmwasm_std::CosmosMsg;
use vstd::prelude::*;

verus! {

/// Creates an executor owned by the wallet `msg.owner`. The answer has the
/// executor register itself with that wallet for the chain `msg.chain`.
pub fn instantiate(env: Env, _info: MessageInfo, msg: InstantiateMsg) -> (r: Result<
    (State, Response),
    ContractError,
>)
    ensures
        r matches Ok((state, response)) && state@ == model::instantiated(msg) && response@
            == model::instantiate_answer(env, msg),
{
    let response = Response::new().add_attribute("method", "instantiate").add_attribute(
        "slave_address",
        env.contract.address.as_str(),
    ).add_attribute("owner", msg.owner.as_str()).add_message(
        SlaveMsg::Wasm(
            WasmMsg::Execute {
                contract_addr: msg.owner.clone().into_string(),
                msg: HostRegisterSlaveMsg::RegisterSlave {
                    chain: msg.chain,
                    addr: env.contract.address.clone(),
                },
                funds: Vec::new(),
            },
        ),
    );
    let state = State { owner: msg.owner };
    assert(response@ =~~= model::instantiate_answer(env, msg));
    Ok((state, response))
}

/// The owner has the executor run `msg`, of which `custom` says whether it
/// is a custom message. Whoever is not the owner is refused; a custom
/// message is not served; any other is passed on to the chain as it came.
pub fn forward(deps: &State, info: MessageInfo, msg: CosmosMsg, custom: bool) -> (r: Result<
    Response,
    ContractError,
>)
    ensures
        result_view(r) == model::forward(deps@, info.sender@, msg, custom),
{
    if info.sender != deps.owner {
        return Err(ContractError::Unauthorized {  });
    }
    if custom {
        return Err(
            ContractError::NotImplemented("Custom messages not supported yet.".to_owned()),
        );
    }
    Ok(
        Response::new().add_attribute("contract", "host").add_attribute(
            "method",
            "execute_samechain_transaction",
        ).add_message(SlaveMsg::Proxied(msg)),
    )
}

/// The owner has the executor run `msg`.
pub fn execute(deps: &State, _env: Env, info: MessageInfo, msg: CosmosMsg) -> (r: Result<
    Response,
    ContractError,
>)
    ensures
        result_view(r) == model::execute(deps@, info.sender@, msg),
{
    let custom = is_custom(&msg);
    forward(deps, info, msg, custom)
}

} // verus!
