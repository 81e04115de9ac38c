use cosmwasm_std::StdError;
use cw_wallet::host::contract::{execute, instantiate};
use cw_wallet::host::msg::{ExecuteMsg, InstantiateMsg};
use cw_wallet::types::{Addr, ContractInfo, Env, MessageInfo};

#[test]
fn a_storage_error_becomes_a_wallet_error() {
    let e = cw_wallet::host::error::ContractError::from(StdError::not_found("state"));
    assert_eq!(e, cw_wallet::host::error::ContractError::Std(StdError::not_found("state")));
}

#[test]
fn a_storage_error_becomes_a_factory_error() {
    let e = cw_wallet::master::error::ContractError::from(StdError::generic_err("boom"));
    assert_eq!(e, cw_wallet::master::error::ContractError::Std(StdError::generic_err("boom")));
}

#[test]
fn a_storage_error_becomes_an_executor_error() {
    let e = cw_wallet::slave_samechain::error::ContractError::from(StdError::not_found("state"));
    assert_eq!(
        e,
        cw_wallet::slave_samechain::error::ContractError::Std(StdError::not_found("state"))
    );
}

#[test]
fn a_recovery_that_needs_no_vote_commits_with_the_first() {
    let msg = InstantiateMsg {
        recovery_pool: vec![Addr::unchecked("a")],
        approval_pool: vec![],
        recovery_approvals_needed: 0,
        transfer_ownership_approvals_needed: 0,
        owner: Addr::unchecked("creator"),
        chain: "foo-1".to_string(),
    };
    let env = Env { contract: ContractInfo { address: Addr::unchecked("wallet") } };
    let factory = MessageInfo { sender: Addr::unchecked("factory"), funds: vec![] };
    let (mut deps, _) = instantiate(env.clone(), factory, msg).unwrap();
    execute(
        &mut deps,
        env,
        MessageInfo { sender: Addr::unchecked("a"), funds: vec![] },
        ExecuteMsg::BeginSocialRecovery { target_addr: Addr::unchecked("new_owner") },
    )
    .unwrap();
    assert_eq!(deps.state.owner, Addr::unchecked("new_owner"));
    assert_eq!(deps.state.potential_owner, None);
    assert!(deps.active_recovery.is_empty());
}
