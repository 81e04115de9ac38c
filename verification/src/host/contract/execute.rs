//! The calls that change the wallet, one function each.

use crate::host::error::{ContractError, ErrorView};
use crate::host::model;
use crate::host::model::{outcome, well_formed, Pool};
use crate::host::msg::{MasterMsg, Payload, Response, WasmMsg};
use crate::host::state::{get_key, lemma_lookup, lookup, set_key, RecoveryMethod, Store};
use crate::trusted::{serialized_msg, serialized_view, to_binary};
use crate::types::{contains_addr, remove_addr, Addr, MessageInfo};
use cosmwasm_std::{CosmosMsg, StdError};
use vstd::prelude::*;

verus! {

/// The owner adds `member` to the recovery pool.
pub fn add_recovery_member(deps: &mut Store, info: MessageInfo, member: Addr) -> (r: Result<
    Response,
    ContractError,
>)
    ensures
        outcome(*final(deps), r) == model::add_member(
            old(deps)@,
            Pool::Recovery,
            info.sender@,
            member@,
        ),
        well_formed(old(deps)@) ==> well_formed(final(deps)@),
{
    if info.sender != deps.state.owner {
        return Err(ContractError::Unauthorized {  });
    }
    if contains_addr(&deps.state.recovery_pool, &member) {
        return Err(ContractError::MemberAlreadyAdded {  });
    }
    deps.state.recovery_pool.push(member);
    Ok(Response::new().add_attribute("action", "add_recovery_member"))
}

/// The owner adds `member` to the approval pool.
pub fn add_approval_member(deps: &mut Store, info: MessageInfo, member: Addr) -> (r: Result<
    Response,
    ContractError,
>)
    ensures
        outcome(*final(deps), r) == model::add_member(
            old(deps)@,
            Pool::Approval,
            info.sender@,
            member@,
        ),
        well_formed(old(deps)@) ==> well_formed(final(deps)@),
{
    if info.sender != deps.state.owner {
        return Err(ContractError::Unauthorized {  });
    }
    if contains_addr(&deps.state.approval_pool, &member) {
        return Err(ContractError::MemberAlreadyAdded {  });
    }
    deps.state.approval_pool.push(member);
    Ok(Response::new().add_attribute("action", "add_approval_member"))
}

/// The owner removes `member` from the recovery pool.
pub fn remove_recovery_member(deps: &mut Store, info: MessageInfo, member: Addr) -> (r: Result<
    Response,
    ContractError,
>)
    ensures
        outcome(*final(deps), r) == model::remove_member(
            old(deps)@,
            Pool::Recovery,
            info.sender@,
            member@,
        ),
        well_formed(old(deps)@) ==> well_formed(final(deps)@),
{
    if info.sender != deps.state.owner {
        return Err(ContractError::Unauthorized {  });
    }
    if !contains_addr(&deps.state.recovery_pool, &member) {
        return Err(ContractError::MemberNotFound {  });
    }
    remove_addr(&mut deps.state.recovery_pool, &member);
    Ok(Response::new().add_attribute("action", "remove_recovery_member"))
}

/// The owner removes `member` from the approval pool.
pub fn remove_approval_member(deps: &mut Store, info: MessageInfo, member: Addr) -> (r: Result<
    Response,
    ContractError,
>)
    ensures
        outcome(*final(deps), r) == model::remove_member(
            old(deps)@,
            Pool::Approval,
            info.sender@,
            member@,
        ),
        well_formed(old(deps)@) ==> well_formed(final(deps)@),
{
    if info.sender != deps.state.owner {
        return Err(ContractError::Unauthorized {  });
    }
    if !contains_addr(&deps.state.approval_pool, &member) {
        return Err(ContractError::MemberNotFound {  });
    }
    remove_addr(&mut deps.state.approval_pool, &member);
    Ok(Response::new().add_attribute("action", "remove_approval_member"))
}

/// The executor at `addr` registers itself for `chain`. `validated` is what
/// the chain's address validation made of `addr`; the validated address is
/// the one recorded.
pub fn register_slave(
    deps: &mut Store,
    info: MessageInfo,
    chain: String,
    addr: Addr,
    validated: Result<Addr, StdError>,
) -> (r: Result<Response, ContractError>)
    ensures
        outcome(*final(deps), r) == model::register_slave(
            old(deps)@,
            info.sender@,
            chain@,
            addr@,
            model::validated_view(validated),
        ),
        lookup(old(deps)@.slaves, chain@) is Some ==> r is Err,
        well_formed(old(deps)@) ==> well_formed(final(deps)@),
{
    if info.sender != addr {
        return Err(ContractError::Unauthorized {  });
    }
    let valid = match validated {
        Ok(valid) => valid,
        Err(e) => {
            return Err(ContractError::Std(e));
        },
    };
    match set_key(&mut deps.slaves, chain.clone(), valid, true) {
        Ok(()) => {},
        Err(e) => {
            return Err(ContractError::Std(e));
        },
    }
    proof {
        // no entry had the chain, so the keys stay apart
        lemma_lookup(old(deps)@.slaves, chain@);
    }
    Ok(
        Response::new().add_attribute("action", "register_slave").add_attribute(
            "chain",
            chain.as_str(),
        ),
    )
}

/// The owner sends an action, given in its serialized form, to the executor
/// of the wallet's own chain, together with the funds of the call. The
/// wallet itself does not change.
pub fn dispatch(deps: &Store, info: MessageInfo, serialized: Result<Vec<u8>, StdError>) -> (r:
    Result<Response, ContractError>)
    ensures
        outcome(*deps, r) == model::execute_samechain_transaction(
            deps@,
            info.sender@,
            info.funds.deep_view(),
            serialized_view(serialized),
        ),
{
    if info.sender != deps.state.owner {
        return Err(ContractError::Unauthorized {  });
    }
    if let Ok(slave_contract) = get_key(&deps.slaves, &deps.state.chain) {
        let msg = match serialized {
            Ok(msg) => msg,
            Err(e) => {
                return Err(ContractError::Std(e));
            },
        };
        let action = WasmMsg::Execute {
            contract_addr: slave_contract.into_string(),
            msg: Payload::Json(msg),
            funds: info.funds,
        };
        Ok(
            Response::new().add_attribute("contract", "host").add_attribute(
                "method",
                "execute_samechain_transaction",
            ).add_message(action),
        )
    } else {
        Err(ContractError::ChainNotRegistered {  })
    }
}

/// The owner has the executor of the wallet's own chain run `proxy_msg`: the
/// message is serialized and sent on as it is.
pub fn execute_samechain_transaction(
    deps: &mut Store,
    info: MessageInfo,
    proxy_msg: CosmosMsg,
) -> (r: Result<Response, ContractError>)
    ensures
        outcome(*final(deps), r) == model::execute_samechain_transaction(
            old(deps)@,
            info.sender@,
            info.funds.deep_view(),
            serialized_msg(proxy_msg),
        ),
        well_formed(old(deps)@) ==> well_formed(final(deps)@),
{
    dispatch(deps, info, to_binary(&proxy_msg))
}

/// Whether the votes cast so far reach the quorum of `why`.
pub fn can_transfer_ownership(deps: &Store, why: RecoveryMethod) -> (r: bool)
    ensures
        r == model::can_transfer_ownership(deps@, why),
{
    let acs_needed: u64 = match why {
        RecoveryMethod::Recovery => deps.state.recovery_approvals_needed as u64,
        // the owner's own vote is not one of the approvals asked for
        RecoveryMethod::TransferOwnership => deps.state.transfer_ownership_approvals_needed as u64
            + 1,
    };
    let acs_got: u64 = deps.active_recovery.len() as u64;
    acs_got >= acs_needed
}

/// Carries out the pending change of owner and tells the factory of it.
pub fn do_transfer_ownership(deps: &mut Store) -> (r: Result<Response, ContractError>)
    requires
        old(deps).state.potential_owner is Some,
    ensures
        outcome(*final(deps), r) == model::do_transfer_ownership(old(deps)@),
{
    let old_owner = deps.state.owner.clone();
    let new_owner = deps.state.potential_owner.as_ref().unwrap().clone();
    deps.state.owner = new_owner.clone();
    deps.state.potential_owner = None;
    deps.state.recovery_method = None;
    deps.active_recovery.clear();
    let r = Ok(
        Response::new().add_attribute("contract", "host").add_attribute(
            "method",
            "do_transfer_ownership",
        ).add_message(
            WasmMsg::Execute {
                contract_addr: deps.state.master.clone().into_string(),
                msg: Payload::Master(MasterMsg::UpdateOwner { new_owner, old_owner }),
                funds: Vec::new(),
            },
        ),
    );
    let ghost want = model::do_transfer_ownership(old(deps)@);
    assert(r->Ok_0@.messages[0] =~~= want.result->Ok_0.messages[0]);
    r
}

/// Begins a change of owner to `target_addr` by `method`: earlier votes are
/// dropped, the caller's is the first, and the change is carried out at once
/// if that is the quorum.
pub fn _begin_recovery(
    deps: &mut Store,
    info: MessageInfo,
    target_addr: Addr,
    method: RecoveryMethod,
) -> (r: Result<Response, ContractError>)
    ensures
        outcome(*final(deps), r) == model::begin_recovery(
            old(deps)@,
            info.sender@,
            target_addr@,
            method,
        ),
{
    deps.active_recovery.clear();
    deps.active_recovery.push(info.sender);
    deps.state.potential_owner = Some(target_addr);
    deps.state.recovery_method = Some(method);
    if can_transfer_ownership(deps, method) {
        // a quorum of one vote is allowed
        return do_transfer_ownership(deps);
    }
    Ok(
        Response::new().add_attribute("contract", "host").add_attribute(
            "method",
            "begin_social_recovery",
        ),
    )
}

/// A member of the recovery pool, other than the owner, proposes
/// `target_addr` as the new owner.
pub fn begin_social_recovery(deps: &mut Store, info: MessageInfo, target_addr: Addr) -> (r: Result<
    Response,
    ContractError,
>)
    ensures
        outcome(*final(deps), r) == model::begin_social_recovery(
            old(deps)@,
            info.sender@,
            target_addr@,
        ),
        target_addr@ == old(deps)@.state.owner ==> (r matches Err(e) && e@
            == ErrorView::SelfRecovery),
        well_formed(old(deps)@) ==> well_formed(final(deps)@),
{
    if target_addr == deps.state.owner {
        return Err(ContractError::SelfRecovery {  });
    }
    if !contains_addr(&deps.state.recovery_pool, &info.sender) || deps.state.owner == info.sender {
        // the owner takes no part in a social recovery
        return Err(ContractError::Unauthorized {  });
    }
    if deps.state.potential_owner.is_some() {
        return Err(ContractError::AlreadyRecovering {  });
    }
    _begin_recovery(deps, info, target_addr, RecoveryMethod::Recovery)
}

/// The owner proposes `target_addr` as the new owner.
pub fn begin_transfer_ownership(deps: &mut Store, info: MessageInfo, target_addr: Addr) -> (r:
    Result<Response, ContractError>)
    ensures
        outcome(*final(deps), r) == model::begin_transfer_ownership(
            old(deps)@,
            info.sender@,
            target_addr@,
        ),
        target_addr@ == old(deps)@.state.owner ==> (r matches Err(e) && e@
            == ErrorView::SelfRecovery),
        well_formed(old(deps)@) ==> well_formed(final(deps)@),
{
    if target_addr == deps.state.owner {
        return Err(ContractError::SelfRecovery {  });
    }
    if deps.state.owner != info.sender {
        // only the owner begins a transfer
        return Err(ContractError::Unauthorized {  });
    }
    if deps.state.potential_owner.is_some() {
        return Err(ContractError::AlreadyRecovering {  });
    }
    _begin_recovery(deps, info, target_addr, RecoveryMethod::TransferOwnership)
}

/// Adds the caller's vote to those on the pending change, and carries the
/// change out if the quorum of `method` is reached. A quorum can only be
/// reached where an owner is proposed.
pub fn _approve_recovery(deps: &mut Store, info: MessageInfo, method: RecoveryMethod) -> (r: Result<
    Response,
    ContractError,
>)
    requires
        old(deps).state.potential_owner is Some || old(deps).active_recovery.len() + 1
            < model::quorum(old(deps)@.state, method),
    ensures
        outcome(*final(deps), r) == model::approve_recovery(old(deps)@, info.sender@, method),
{
    deps.active_recovery.push(info.sender);
    if can_transfer_ownership(deps, method) {
        return do_transfer_ownership(deps);
    }
    Ok(
        Response::new().add_attribute("contract", "host").add_attribute(
            "method",
            "begin_social_recovery",
        ),
    )
}

/// Whether `target` is the proposed owner of the pending change.
fn is_pending_target(potential_owner: &Option<Addr>, target: &Addr) -> (r: bool)
    ensures
        r == (potential_owner.deep_view() == Some(target@)),
{
    match potential_owner {
        Some(pending) => *pending == *target,
        None => false,
    }
}

/// Whether a change begun by `method` is pending.
fn is_pending_method(recovery_method: Option<RecoveryMethod>, method: RecoveryMethod) -> (r: bool)
    ensures
        r == (recovery_method == Some(method)),
{
    match recovery_method {
        Some(pending) => pending == method,
        None => false,
    }
}

/// A member of the recovery pool, other than the owner, approves the pending
/// social recovery towards `target`.
pub fn approve_social_recovery(deps: &mut Store, info: MessageInfo, target: Addr) -> (r: Result<
    Response,
    ContractError,
>)
    ensures
        outcome(*final(deps), r) == model::approve_social_recovery(
            old(deps)@,
            info.sender@,
            target@,
        ),
        old(deps)@.active_recovery.contains(info.sender@) ==> r is Err,
        old(deps)@.state.potential_owner is None ==> r is Err,
        well_formed(old(deps)@) ==> well_formed(final(deps)@),
{
    if !contains_addr(&deps.state.recovery_pool, &info.sender) || deps.state.owner == info.sender {
        // the owner takes no part in a social recovery
        return Err(ContractError::Unauthorized {  });
    }
    if contains_addr(&deps.active_recovery, &info.sender) {
        return Err(ContractError::AlreadyVoted {  });
    }
    if deps.state.potential_owner.is_none() || !is_pending_method(
        deps.state.recovery_method,
        RecoveryMethod::Recovery,
    ) {
        return Err(ContractError::NotInProgress {  });
    }
    if !is_pending_target(&deps.state.potential_owner, &target) {
        return Err(
            ContractError::InvariantMismatch(
                "Transfer account not matching submitted.".to_owned(),
            ),
        );
    }
    _approve_recovery(deps, info, RecoveryMethod::Recovery)
}

/// A member of the recovery pool approves the pending transfer of ownership
/// towards `target`.
pub fn approve_transfer_ownership(deps: &mut Store, info: MessageInfo, target: Addr) -> (r: Result<
    Response,
    ContractError,
>)
    ensures
        outcome(*final(deps), r) == model::approve_transfer_ownership(
            old(deps)@,
            info.sender@,
            target@,
        ),
        old(deps)@.active_recovery.contains(info.sender@) ==> r is Err,
        old(deps)@.state.potential_owner is None ==> r is Err,
        well_formed(old(deps)@) ==> well_formed(final(deps)@),
{
    if !contains_addr(&deps.state.recovery_pool, &info.sender) {
        return Err(ContractError::Unauthorized {  });
    }
    if contains_addr(&deps.active_recovery, &info.sender) {
        return Err(ContractError::AlreadyVoted {  });
    }
    if deps.state.potential_owner.is_none() || !is_pending_method(
        deps.state.recovery_method,
        RecoveryMethod::TransferOwnership,
    ) {
        return Err(ContractError::NotInProgress {  });
    }
    if !is_pending_target(&deps.state.potential_owner, &target) {
        return Err(
            ContractError::InvariantMismatch(
                "Transfer account not matching submitted.".to_owned(),
            ),
        );
    }
    _approve_recovery(deps, info, RecoveryMethod::TransferOwnership)
}

} // verus!
