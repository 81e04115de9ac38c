//! The wallet's entry points: creation, the calls that change it, with and
//! without the replay guard, and the queries.

pub mod execute;
pub mod query;

use crate::host::error::{ContractError, ErrorView};
use crate::host::model;
use crate::host::model::{outcome, well_formed};
use crate::host::msg::{ExecuteMsg, InstantiateMsg, QueryMsg, QueryResponse, Response};
use crate::host::state::{State, Store};
use crate::trusted::join;
use crate::types::{Addr, Env, MessageInfo};
use cosmwasm_std::StdError;
use vstd::prelude::*;
use vstd::string::StringExecFns;

verus! {

/// The members of a pool as the creation of a wallet reports them: their
/// texts in double quotes, with commas between, in square brackets.
fn pool_repr(members: &Vec<Addr>) -> (r: String)
    ensures
        r@ == model::pool_repr(members.deep_view()),
{
    let mut texts: Vec<String> = Vec::new();
    let mut i: usize = 0;
    while i < members.len()
        invariant
            i <= members.len(),
            texts.deep_view() == members.deep_view().take(i as int),
        decreases members.len() - i,
    {
        let ghost copied = texts.deep_view();
        texts.push(members[i].clone().into_string());
        assert(members.deep_view().take(i + 1) =~= copied.push(members.deep_view()[i as int]));
        i += 1;
    }
    assert(members.deep_view().take(i as int) =~= members.deep_view());
    let inner = join(&texts, "\",\"");
    "[\"".to_owned().concat(inner.as_str()).concat("\"]")
}

/// Creates a wallet owned by `msg.owner`, with the caller as its factory. No
/// change of owner is pending, no executor is registered and no nonce is
/// used. The answer names the owner and the wallet's own address.
pub fn instantiate(env: Env, info: MessageInfo, msg: InstantiateMsg) -> (r: Result<
    (Store, Response),
    ContractError,
>)
    ensures
        r matches Ok((store, response)) && store@ == model::instantiated(info, msg) && response@
            == model::instantiate_answer(env, msg) && well_formed(store@),
{
    let recovery_pool_repr = pool_repr(&msg.recovery_pool);
    let approval_pool_repr = pool_repr(&msg.approval_pool);
    let response = Response::new().add_attribute("method", "instantiate").add_attribute(
        "owner",
        msg.owner.as_str(),
    ).add_attribute("host_address", env.contract.address.as_str()).add_attribute(
        "recovery_pool",
        recovery_pool_repr.as_str(),
    ).add_attribute("approval_pool", approval_pool_repr.as_str());
    let state = State {
        master: info.sender,
        owner: msg.owner,
        potential_owner: None,
        recovery_method: None,
        recovery_pool: msg.recovery_pool,
        approval_pool: msg.approval_pool,
        recovery_approvals_needed: msg.recovery_approvals_needed,
        transfer_ownership_approvals_needed: msg.transfer_ownership_approvals_needed,
        chain: msg.chain,
    };
    let store = Store {
        state,
        slaves: Vec::new(),
        active_recovery: Vec::new(),
        last_nonce: 0,
    };
    Ok((store, response))
}

/// Makes the call `msg` for `info.sender`. A call that is refused leaves the
/// wallet as it was.
pub fn execute(deps: &mut Store, _env: Env, info: MessageInfo, msg: ExecuteMsg) -> (r: Result<
    Response,
    ContractError,
>)
    ensures
        outcome(*final(deps), r) == model::execute(old(deps)@, info, msg),
        r is Err ==> final(deps)@ == old(deps)@,
        final(deps).last_nonce == old(deps).last_nonce,
        well_formed(old(deps)@) ==> well_formed(final(deps)@),
{
    match msg {
        ExecuteMsg::AddRecoveryMember { member } => execute::add_recovery_member(
            deps,
            info,
            member,
        ),
        ExecuteMsg::AddApprovalMember { member } => execute::add_approval_member(
            deps,
            info,
            member,
        ),
        ExecuteMsg::RemoveRecoveryMember { member } => execute::remove_recovery_member(
            deps,
            info,
            member,
        ),
        ExecuteMsg::RemoveApprovalMember { member } => execute::remove_approval_member(
            deps,
            info,
            member,
        ),
        ExecuteMsg::RegisterSlave { chain, addr, validated } => execute::register_slave(
            deps,
            info,
            chain,
            addr,
            validated,
        ),
        ExecuteMsg::ExecuteSameChain { body_proxy } => execute::execute_samechain_transaction(
            deps,
            info,
            body_proxy,
        ),
        ExecuteMsg::BeginSocialRecovery { target_addr } => execute::begin_social_recovery(
            deps,
            info,
            target_addr,
        ),
        ExecuteMsg::ApproveSocialRecovery { target_addr } => execute::approve_social_recovery(
            deps,
            info,
            target_addr,
        ),
        ExecuteMsg::BeginTransferOwnership { target_addr } => execute::begin_transfer_ownership(
            deps,
            info,
            target_addr,
        ),
        ExecuteMsg::ApproveTransferOwnership { target_addr } => execute::approve_transfer_ownership(
            deps,
            info,
            target_addr,
        ),
    }
}

/// Makes the call `msg` under the replay guard. A `nonce` that is not above
/// the last one used is refused with `NonceAlreadyUsed`. Otherwise the nonce
/// is recorded before the call is made; if the call is then refused, the
/// wallet is left as it was, the nonce included, so that a refused call uses
/// up no nonce.
pub fn execute_guarded(
    deps: &mut Store,
    env: Env,
    info: MessageInfo,
    nonce: u64,
    msg: ExecuteMsg,
) -> (r: Result<Response, ContractError>)
    ensures
        outcome(*final(deps), r) == model::execute_guarded(old(deps)@, nonce, info, msg),
        nonce <= old(deps).last_nonce ==> (r matches Err(e) && e@
            == ErrorView::NonceAlreadyUsed),
        nonce > old(deps).last_nonce ==> (r is Ok <==> final(deps).last_nonce == nonce),
        r is Err ==> final(deps)@ == old(deps)@,
        well_formed(old(deps)@) ==> well_formed(final(deps)@),
{
    if nonce <= deps.last_nonce {
        return Err(ContractError::NonceAlreadyUsed {  });
    }
    let last_nonce = deps.last_nonce;
    deps.last_nonce = nonce;
    let r = execute(deps, env, info, msg);
    if r.is_err() {
        deps.last_nonce = last_nonce;
    }
    r
}

/// Answers the question `msg` about the wallet.
pub fn query(deps: &Store, _env: Env, msg: QueryMsg) -> (r: Result<QueryResponse, StdError>)
    ensures
        r matches Ok(answer) && answer@ == model::query(deps@, msg),
{
    match msg {
        QueryMsg::GetRecoveryPool {  } => match query::get_recovery_pool(deps) {
            Ok(pool) => Ok(QueryResponse::RecoveryPool(pool)),
            Err(e) => Err(e),
        },
        QueryMsg::GetSlaves {  } => match query::get_slaves(deps) {
            Ok(all) => Ok(QueryResponse::Slaves(all)),
            Err(e) => Err(e),
        },
        QueryMsg::GetSlave { chain } => match query::get_slave(deps, chain) {
            Ok(one) => Ok(QueryResponse::Slave(one)),
            Err(e) => Err(e),
        },
    }
}

} // verus!
