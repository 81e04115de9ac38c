use cw_wallet::host::contract::{execute, instantiate};
use cw_wallet::host::error::ContractError;
use cw_wallet::host::msg::{ExecuteMsg, InstantiateMsg, MasterMsg, Payload, WasmMsg};
use cw_wallet::host::state::{RecoveryMethod, Store};
use cw_wallet::types::{Addr, Attribute, Coin, ContractInfo, Env, MessageInfo};

fn mock_env() -> Env {
    Env { contract: ContractInfo { address: Addr::unchecked("cosmos2contract") } }
}

fn coins(amount: u128, denom: &str) -> Vec<Coin> {
    vec![Coin::new(amount, denom)]
}

fn mock_info(sender: &str, funds: &[Coin]) -> MessageInfo {
    MessageInfo { sender: Addr::unchecked(sender), funds: funds.to_vec() }
}

fn attribute(key: &str, value: &str) -> Attribute {
    Attribute { key: key.to_string(), value: value.to_string() }
}

fn wallet(pool: &[&str], recovery: u32, transfer: u32) -> Store {
    let msg = InstantiateMsg {
        recovery_pool: pool.iter().map(|a| Addr::unchecked(a)).collect(),
        approval_pool: vec![],
        recovery_approvals_needed: recovery,
        transfer_ownership_approvals_needed: transfer,
        owner: Addr::unchecked("creator"),
        chain: "foo-1".to_string(),
    };
    instantiate(mock_env(), mock_info("factory", &[]), msg).unwrap().0
}

#[test]
fn proper_initialization() {
    let info = mock_info("creator", &coins(1000, "earth"));
    let msg = InstantiateMsg {
        recovery_pool: vec![],
        approval_pool: vec![],
        recovery_approvals_needed: 0,
        transfer_ownership_approvals_needed: 0,
        owner: info.sender.clone(),
        chain: "foo-1".to_string(),
    };

    // we can just call .unwrap() to assert this was a success
    let (_, res) = instantiate(mock_env(), info, msg).unwrap();
    assert_eq!(0, res.messages.len());
}

#[test]
fn recovery() {
    let info = mock_info("creator", &coins(2, "token"));
    let creator = info.sender.clone();
    let info_a = mock_info("a", &coins(2, "token"));
    let info_b = mock_info("b", &coins(2, "token"));
    let info_new_owner = mock_info("new_owner", &coins(2, "token"));
    let new_owner = info_new_owner.sender.clone();

    let msg = InstantiateMsg {
        recovery_pool: vec![info_a.sender.clone(), info_b.sender.clone()],
        approval_pool: vec![],
        recovery_approvals_needed: 2,
        transfer_ownership_approvals_needed: 0,
        owner: creator.clone(),
        chain: "foo-1".to_string(),
    };
    let (mut deps, _) = instantiate(mock_env(), info.clone(), msg).unwrap();

    let msg = ExecuteMsg::BeginSocialRecovery { target_addr: new_owner.clone() };
    execute(&mut deps, mock_env(), info_a.clone(), msg).unwrap();
    let state = deps.state.clone();
    assert_eq!(state.potential_owner, Some(new_owner.clone()));
    assert_eq!(state.owner, creator);

    let msg = ExecuteMsg::ApproveSocialRecovery { target_addr: new_owner.clone() };
    let res = execute(&mut deps, mock_env(), info_a.clone(), msg);
    assert_eq!(res.unwrap_err(), ContractError::AlreadyVoted {});
    let state = deps.state.clone();
    assert_eq!(state.potential_owner, Some(new_owner.clone()));
    assert_eq!(state.owner, creator);

    let msg = ExecuteMsg::ApproveSocialRecovery { target_addr: new_owner.clone() };
    execute(&mut deps, mock_env(), info_b.clone(), msg).unwrap();
    let state = deps.state.clone();
    assert_eq!(state.potential_owner, None);
    assert_eq!(state.owner, new_owner.clone());
}

#[test]
fn transfer_ownership() {
    let info = mock_info("creator", &coins(2, "token"));
    let creator = info.sender.clone();
    let info_a = mock_info("a", &coins(2, "token"));
    let info_b = mock_info("b", &coins(2, "token"));
    let info_new_owner = mock_info("new_owner", &coins(2, "token"));
    let new_owner = info_new_owner.sender.clone();

    let msg = InstantiateMsg {
        recovery_pool: vec![info_a.sender.clone(), info_b.sender.clone()],
        approval_pool: vec![],
        recovery_approvals_needed: 2,
        transfer_ownership_approvals_needed: 2,
        owner: creator.clone(),
        chain: "foo-1".to_string(),
    };
    let (mut deps, _) = instantiate(mock_env(), info.clone(), msg).unwrap();

    let msg = ExecuteMsg::BeginTransferOwnership { target_addr: creator.clone() };
    let res = execute(&mut deps, mock_env(), info.clone(), msg);
    assert_eq!(res.unwrap_err(), ContractError::SelfRecovery {});

    let msg = ExecuteMsg::BeginTransferOwnership { target_addr: new_owner.clone() };
    let res = execute(&mut deps, mock_env(), info_a.clone(), msg);
    assert_eq!(res.unwrap_err(), ContractError::Unauthorized {});

    let msg = ExecuteMsg::BeginTransferOwnership { target_addr: new_owner.clone() };
    execute(&mut deps, mock_env(), info.clone(), msg).unwrap();
    let state = deps.state.clone();
    assert_eq!(state.potential_owner, Some(new_owner.clone()));
    assert_eq!(state.owner, creator);

    let msg = ExecuteMsg::ApproveTransferOwnership { target_addr: new_owner.clone() };
    let res = execute(&mut deps, mock_env(), info.clone(), msg);
    assert_eq!(res.unwrap_err(), ContractError::Unauthorized {});
    let state = deps.state.clone();
    assert_eq!(state.potential_owner, Some(new_owner.clone()));
    assert_eq!(state.owner, creator);

    let msg = ExecuteMsg::ApproveTransferOwnership { target_addr: new_owner.clone() };
    execute(&mut deps, mock_env(), info_a.clone(), msg).unwrap();
    let state = deps.state.clone();
    assert_eq!(state.potential_owner, Some(new_owner.clone()));
    assert_eq!(state.owner, creator);

    let msg = ExecuteMsg::ApproveTransferOwnership { target_addr: new_owner.clone() };
    let res = execute(&mut deps, mock_env(), info_a.clone(), msg);
    assert_eq!(res.unwrap_err(), ContractError::AlreadyVoted {});
    let state = deps.state.clone();
    assert_eq!(state.potential_owner, Some(new_owner.clone()));
    assert_eq!(state.owner, creator);

    let msg = ExecuteMsg::ApproveTransferOwnership { target_addr: new_owner.clone() };
    execute(&mut deps, mock_env(), info_b.clone(), msg).unwrap();
    let state = deps.state.clone();
    assert_eq!(state.potential_owner, None);
    assert_eq!(state.owner, new_owner.clone());
}

#[test]
fn instantiate_sets_the_state_and_reports_the_pools() {
    let msg = InstantiateMsg {
        recovery_pool: vec![Addr::unchecked("a"), Addr::unchecked("b")],
        approval_pool: vec![Addr::unchecked("c")],
        recovery_approvals_needed: 2,
        transfer_ownership_approvals_needed: 1,
        owner: Addr::unchecked("creator"),
        chain: "foo-1".to_string(),
    };
    let (store, res) = instantiate(mock_env(), mock_info("factory", &[]), msg).unwrap();
    assert_eq!(store.state.owner, Addr::unchecked("creator"));
    assert_eq!(store.state.master, Addr::unchecked("factory"));
    assert_eq!(store.state.potential_owner, None);
    assert_eq!(store.state.recovery_method, None);
    assert_eq!(store.state.recovery_pool, vec![Addr::unchecked("a"), Addr::unchecked("b")]);
    assert_eq!(store.state.approval_pool, vec![Addr::unchecked("c")]);
    assert_eq!(store.state.recovery_approvals_needed, 2);
    assert_eq!(store.state.transfer_ownership_approvals_needed, 1);
    assert_eq!(store.state.chain, "foo-1");
    assert!(store.slaves.is_empty());
    assert!(store.active_recovery.is_empty());
    assert_eq!(store.last_nonce, 0);
    assert_eq!(
        res.attributes,
        vec![
            attribute("method", "instantiate"),
            attribute("owner", "creator"),
            attribute("host_address", "cosmos2contract"),
            attribute("recovery_pool", "[\"a\",\"b\"]"),
            attribute("approval_pool", "[\"c\"]"),
        ]
    );
}

#[test]
fn instantiate_reports_an_empty_pool_as_one_empty_text() {
    let msg = InstantiateMsg {
        recovery_pool: vec![],
        approval_pool: vec![],
        recovery_approvals_needed: 0,
        transfer_ownership_approvals_needed: 0,
        owner: Addr::unchecked("creator"),
        chain: "foo-1".to_string(),
    };
    let (_, res) = instantiate(mock_env(), mock_info("factory", &[]), msg).unwrap();
    assert_eq!(res.attributes[3], attribute("recovery_pool", "[\"\"]"));
    assert_eq!(res.attributes[4], attribute("approval_pool", "[\"\"]"));
}

#[test]
fn begin_social_recovery_records_the_first_vote() {
    let mut deps = wallet(&["a", "b"], 2, 0);
    let res = execute(
        &mut deps,
        mock_env(),
        mock_info("a", &[]),
        ExecuteMsg::BeginSocialRecovery { target_addr: Addr::unchecked("new_owner") },
    )
    .unwrap();
    assert_eq!(deps.active_recovery, vec![Addr::unchecked("a")]);
    assert_eq!(deps.state.recovery_method, Some(RecoveryMethod::Recovery));
    assert_eq!(
        res.attributes,
        vec![attribute("contract", "host"), attribute("method", "begin_social_recovery")]
    );
    assert!(res.messages.is_empty());
}

#[test]
fn commit_notifies_the_factory_and_clears_the_votes() {
    let mut deps = wallet(&["a", "b"], 2, 0);
    execute(
        &mut deps,
        mock_env(),
        mock_info("a", &[]),
        ExecuteMsg::BeginSocialRecovery { target_addr: Addr::unchecked("new_owner") },
    )
    .unwrap();
    let res = execute(
        &mut deps,
        mock_env(),
        mock_info("b", &[]),
        ExecuteMsg::ApproveSocialRecovery { target_addr: Addr::unchecked("new_owner") },
    )
    .unwrap();
    assert_eq!(deps.state.owner, Addr::unchecked("new_owner"));
    assert_eq!(deps.state.potential_owner, None);
    assert_eq!(deps.state.recovery_method, None);
    assert!(deps.active_recovery.is_empty());
    assert_eq!(
        res.attributes,
        vec![attribute("contract", "host"), attribute("method", "do_transfer_ownership")]
    );
    assert_eq!(
        res.messages,
        vec![WasmMsg::Execute {
            contract_addr: "factory".to_string(),
            msg: Payload::Master(MasterMsg::UpdateOwner {
                old_owner: Addr::unchecked("creator"),
                new_owner: Addr::unchecked("new_owner"),
            }),
            funds: vec![],
        }]
    );
}

#[test]
fn a_vote_after_the_commit_is_not_in_progress() {
    let mut deps = wallet(&["a", "b", "c"], 2, 0);
    execute(
        &mut deps,
        mock_env(),
        mock_info("a", &[]),
        ExecuteMsg::BeginSocialRecovery { target_addr: Addr::unchecked("new_owner") },
    )
    .unwrap();
    execute(
        &mut deps,
        mock_env(),
        mock_info("b", &[]),
        ExecuteMsg::ApproveSocialRecovery { target_addr: Addr::unchecked("new_owner") },
    )
    .unwrap();
    let committed = deps.clone();
    let res = execute(
        &mut deps,
        mock_env(),
        mock_info("c", &[]),
        ExecuteMsg::ApproveSocialRecovery { target_addr: Addr::unchecked("new_owner") },
    );
    assert_eq!(res.unwrap_err(), ContractError::NotInProgress {});
    assert_eq!(deps, committed);
    let res = execute(
        &mut deps,
        mock_env(),
        mock_info("c", &[]),
        ExecuteMsg::ApproveTransferOwnership { target_addr: Addr::unchecked("new_owner") },
    );
    assert_eq!(res.unwrap_err(), ContractError::NotInProgress {});
    assert_eq!(deps, committed);
}

#[test]
fn a_quorum_of_one_commits_at_once() {
    let mut deps = wallet(&["a"], 1, 0);
    let res = execute(
        &mut deps,
        mock_env(),
        mock_info("a", &[]),
        ExecuteMsg::BeginSocialRecovery { target_addr: Addr::unchecked("new_owner") },
    )
    .unwrap();
    assert_eq!(deps.state.owner, Addr::unchecked("new_owner"));
    assert_eq!(deps.state.potential_owner, None);
    assert!(deps.active_recovery.is_empty());
    assert_eq!(res.messages.len(), 1);
}

#[test]
fn a_transfer_without_further_approvals_commits_at_once() {
    let mut deps = wallet(&["a"], 1, 0);
    execute(
        &mut deps,
        mock_env(),
        mock_info("creator", &[]),
        ExecuteMsg::BeginTransferOwnership { target_addr: Addr::unchecked("new_owner") },
    )
    .unwrap();
    assert_eq!(deps.state.owner, Addr::unchecked("new_owner"));
    assert_eq!(deps.state.potential_owner, None);
}

#[test]
fn a_transfer_counts_the_owner_apart_from_the_approvals() {
    let mut deps = wallet(&["a", "b"], 5, 1);
    execute(
        &mut deps,
        mock_env(),
        mock_info("creator", &[]),
        ExecuteMsg::BeginTransferOwnership { target_addr: Addr::unchecked("new_owner") },
    )
    .unwrap();
    assert_eq!(deps.state.owner, Addr::unchecked("creator"));
    assert_eq!(deps.state.recovery_method, Some(RecoveryMethod::TransferOwnership));
    assert_eq!(deps.active_recovery, vec![Addr::unchecked("creator")]);
    execute(
        &mut deps,
        mock_env(),
        mock_info("a", &[]),
        ExecuteMsg::ApproveTransferOwnership { target_addr: Addr::unchecked("new_owner") },
    )
    .unwrap();
    assert_eq!(deps.state.owner, Addr::unchecked("new_owner"));
}

#[test]
fn self_targeted_recovery_fails_for_everyone() {
    let mut deps = wallet(&["a", "b"], 2, 0);
    let before = deps.clone();
    for sender in ["a", "creator", "stranger"] {
        let res = execute(
            &mut deps,
            mock_env(),
            mock_info(sender, &[]),
            ExecuteMsg::BeginSocialRecovery { target_addr: Addr::unchecked("creator") },
        );
        assert_eq!(res.unwrap_err(), ContractError::SelfRecovery {});
        let res = execute(
            &mut deps,
            mock_env(),
            mock_info(sender, &[]),
            ExecuteMsg::BeginTransferOwnership { target_addr: Addr::unchecked("creator") },
        );
        assert_eq!(res.unwrap_err(), ContractError::SelfRecovery {});
    }
    assert_eq!(deps, before);
}

#[test]
fn the_owner_cannot_begin_a_social_recovery() {
    let mut deps = wallet(&["a", "creator"], 2, 0);
    let res = execute(
        &mut deps,
        mock_env(),
        mock_info("creator", &[]),
        ExecuteMsg::BeginSocialRecovery { target_addr: Addr::unchecked("new_owner") },
    );
    assert_eq!(res.unwrap_err(), ContractError::Unauthorized {});
    let res = execute(
        &mut deps,
        mock_env(),
        mock_info("stranger", &[]),
        ExecuteMsg::BeginSocialRecovery { target_addr: Addr::unchecked("new_owner") },
    );
    assert_eq!(res.unwrap_err(), ContractError::Unauthorized {});
}

#[test]
fn only_one_change_is_pending_at_a_time() {
    let mut deps = wallet(&["a", "b"], 2, 2);
    execute(
        &mut deps,
        mock_env(),
        mock_info("a", &[]),
        ExecuteMsg::BeginSocialRecovery { target_addr: Addr::unchecked("new_owner") },
    )
    .unwrap();
    let pending = deps.clone();
    let res = execute(
        &mut deps,
        mock_env(),
        mock_info("b", &[]),
        ExecuteMsg::BeginSocialRecovery { target_addr: Addr::unchecked("other") },
    );
    assert_eq!(res.unwrap_err(), ContractError::AlreadyRecovering {});
    let res = execute(
        &mut deps,
        mock_env(),
        mock_info("creator", &[]),
        ExecuteMsg::BeginTransferOwnership { target_addr: Addr::unchecked("other") },
    );
    assert_eq!(res.unwrap_err(), ContractError::AlreadyRecovering {});
    assert_eq!(deps, pending);
}

#[test]
fn an_approval_of_the_other_kind_is_not_in_progress() {
    let mut deps = wallet(&["a", "b"], 2, 2);
    execute(
        &mut deps,
        mock_env(),
        mock_info("a", &[]),
        ExecuteMsg::BeginSocialRecovery { target_addr: Addr::unchecked("new_owner") },
    )
    .unwrap();
    let res = execute(
        &mut deps,
        mock_env(),
        mock_info("b", &[]),
        ExecuteMsg::ApproveTransferOwnership { target_addr: Addr::unchecked("new_owner") },
    );
    assert_eq!(res.unwrap_err(), ContractError::NotInProgress {});
}

#[test]
fn an_approval_of_another_target_is_a_mismatch() {
    let mut deps = wallet(&["a", "b"], 2, 2);
    execute(
        &mut deps,
        mock_env(),
        mock_info("a", &[]),
        ExecuteMsg::BeginSocialRecovery { target_addr: Addr::unchecked("new_owner") },
    )
    .unwrap();
    let pending = deps.clone();
    let res = execute(
        &mut deps,
        mock_env(),
        mock_info("b", &[]),
        ExecuteMsg::ApproveSocialRecovery { target_addr: Addr::unchecked("someone_else") },
    );
    assert_eq!(
        res.unwrap_err(),
        ContractError::InvariantMismatch("Transfer account not matching submitted.".to_string())
    );
    assert_eq!(deps, pending);
}

#[test]
fn an_approval_from_outside_the_pool_is_unauthorized() {
    let mut deps = wallet(&["a", "b"], 2, 2);
    execute(
        &mut deps,
        mock_env(),
        mock_info("a", &[]),
        ExecuteMsg::BeginSocialRecovery { target_addr: Addr::unchecked("new_owner") },
    )
    .unwrap();
    let res = execute(
        &mut deps,
        mock_env(),
        mock_info("stranger", &[]),
        ExecuteMsg::ApproveSocialRecovery { target_addr: Addr::unchecked("new_owner") },
    );
    assert_eq!(res.unwrap_err(), ContractError::Unauthorized {});
}
