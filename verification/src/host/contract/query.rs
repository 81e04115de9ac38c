//! The questions that the wallet answers.

use crate::host::model;
use crate::host::msg::{GetRecoveryPoolResponse, GetSlaveResponse, GetSlavesResponse};
use crate::host::state::{get_key, lookup, Store};
use crate::types::Addr;
use cosmwasm_std::StdError;
use vstd::prelude::*;

verus! {

/// Every registered executor with its chain, in the order of registration.
pub fn get_slaves(deps: &Store) -> (r: Result<GetSlavesResponse, StdError>)
    ensures
        r matches Ok(all) && all.slaves.deep_view() == deps@.slaves,
{
    let mut slaves: Vec<(String, Addr)> = Vec::new();
    let mut i: usize = 0;
    while i < deps.slaves.len()
        invariant
            i <= deps.slaves.len(),
            slaves.deep_view() == deps.slaves.deep_view().take(i as int),
        decreases deps.slaves.len() - i,
    {
        let ghost copied = slaves.deep_view();
        slaves.push((deps.slaves[i].0.clone(), deps.slaves[i].1.clone()));
        assert(deps.slaves.deep_view().take(i + 1) =~= copied.push(
            deps.slaves.deep_view()[i as int],
        ));
        i += 1;
    }
    Ok(GetSlavesResponse { slaves })
}

/// The recovery pool, the two quorums, and the pending change of owner: the
/// votes cast on it, how it was begun, and the proposed owner.
pub fn get_recovery_pool(deps: &Store) -> (r: Result<GetRecoveryPoolResponse, StdError>)
    ensures
        r matches Ok(pool) && pool@ == model::get_recovery_pool(deps@),
{
    let pool = GetRecoveryPoolResponse {
        members: deps.state.recovery_pool.clone(),
        recovery_approvals_count: deps.state.recovery_approvals_needed,
        transfer_approvals_count: deps.state.transfer_ownership_approvals_needed,
        recovery_progress: if deps.state.recovery_method.is_some() {
            deps.active_recovery.len() as u64
        } else {
            0
        },
        recovery_method: deps.state.recovery_method,
        new_owner: match &deps.state.potential_owner {
            Some(target) => Some(target.clone()),
            None => None,
        },
    };
    Ok(pool)
}

/// The executor registered for `chain`; none, and no error, where the chain
/// has no executor.
pub fn get_slave(deps: &Store, chain: String) -> (r: Result<GetSlaveResponse, StdError>)
    ensures
        r matches Ok(one) && one.slave.deep_view() == lookup(deps@.slaves, chain@),
{
    let slave = get_key(&deps.slaves, &chain);
    Ok(
        GetSlaveResponse {
            slave: match slave {
                Ok(s) => Some(s),
                Err(_) => None,
            },
        },
    )
}

} // verus!
