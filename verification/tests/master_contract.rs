use cosmwasm_std::StdError;
use cw_wallet::master::contract::query::get_host;
use cw_wallet::master::contract::{
    execute, index_wallet, instantiate, query, reply, HostCreated, ReplyKind,
};
use cw_wallet::master::error::ContractError;
use cw_wallet::master::msg::{
    Event, ExecuteMsg, GetHostResponse, HostInstantiateMsg, InitMsg, InstantiateMsg, QueryMsg,
    Reply, ReplyOn, SlaveInstantiateMsg, SubMsg, SubMsgResponse, WasmMsg,
};
use cw_wallet::master::state::{
    load_code_id, load_wallet, remove_wallet, save_code_id, save_wallet, Store,
};
use cw_wallet::types::{Addr, Attribute, ContractInfo, Env, MessageInfo};

fn env() -> Env {
    Env { contract: ContractInfo { address: Addr::unchecked("factory") } }
}

fn info(sender: &str) -> MessageInfo {
    MessageInfo { sender: Addr::unchecked(sender), funds: vec![] }
}

fn attribute(key: &str, value: &str) -> Attribute {
    Attribute { key: key.to_string(), value: value.to_string() }
}

fn factory() -> Store {
    let msg = InstantiateMsg {
        host_code_id: 17,
        host_chain: "foo-1".to_string(),
        slave_code_ids: vec![("foo-1".to_string(), 7), ("bar-2".to_string(), 9)],
    };
    instantiate(env(), info("deployer"), msg).unwrap().0
}

fn created(attributes: Vec<Attribute>) -> Reply {
    Reply {
        id: 1,
        result: Ok(SubMsgResponse {
            events: vec![
                Event { ty: "instantiate".to_string(), attributes: vec![] },
                Event { ty: "wasm".to_string(), attributes },
            ],
        }),
    }
}

#[test]
fn instantiate_reports_the_code_ids() {
    let msg = InstantiateMsg {
        host_code_id: 17,
        host_chain: "foo-1".to_string(),
        slave_code_ids: vec![("foo-1".to_string(), 7), ("bar-2".to_string(), 905)],
    };
    let (store, res) = instantiate(env(), info("deployer"), msg).unwrap();
    assert_eq!(store.state.host_code_id, 17);
    assert_eq!(store.state.host_chain, "foo-1");
    assert_eq!(load_code_id(&store.slaves, &"foo-1".to_string()), Some(7));
    assert_eq!(load_code_id(&store.slaves, &"bar-2".to_string()), Some(905));
    assert!(store.wallets.is_empty());
    assert_eq!(
        res.attributes,
        vec![
            attribute("method", "instantiate"),
            attribute("host", "17"),
            attribute("slaves", "{\"foo-1\": \"7\",\"bar-2\": \"905\"}"),
        ]
    );
    assert!(res.messages.is_empty());
}

#[test]
fn instantiate_without_executor_code_reports_empty_braces() {
    let msg = InstantiateMsg {
        host_code_id: 0,
        host_chain: "foo-1".to_string(),
        slave_code_ids: vec![],
    };
    let (_, res) = instantiate(env(), info("deployer"), msg).unwrap();
    assert_eq!(res.attributes[1], attribute("host", "0"));
    assert_eq!(res.attributes[2], attribute("slaves", "{}"));
}

#[test]
fn the_largest_code_id_is_written_in_full() {
    let msg = InstantiateMsg {
        host_code_id: u64::MAX,
        host_chain: "foo-1".to_string(),
        slave_code_ids: vec![("c".to_string(), 10)],
    };
    let (_, res) = instantiate(env(), info("deployer"), msg).unwrap();
    assert_eq!(res.attributes[1], attribute("host", "18446744073709551615"));
    assert_eq!(res.attributes[2], attribute("slaves", "{\"c\": \"10\"}"));
}

#[test]
fn create_host_instantiates_a_wallet_for_the_caller() {
    let mut deps = factory();
    let before = deps.clone();
    let res = execute(
        &mut deps,
        env(),
        info("alice"),
        ExecuteMsg::CreateHost {
            recovery_pool: vec![Addr::unchecked("a"), Addr::unchecked("b")],
            approval_pool: vec![Addr::unchecked("x")],
            recovery_approvals_needed: 2,
            transfer_ownership_approvals_needed: 1,
        },
    )
    .unwrap();
    assert_eq!(deps, before);
    assert_eq!(
        res.attributes,
        vec![attribute("contract", "master"), attribute("method", "create_host")]
    );
    assert_eq!(
        res.messages,
        vec![SubMsg {
            id: 1,
            msg: WasmMsg::Instantiate {
                admin: None,
                code_id: 17,
                msg: InitMsg::Host(HostInstantiateMsg {
                    recovery_pool: vec![Addr::unchecked("a"), Addr::unchecked("b")],
                    approval_pool: vec![Addr::unchecked("x")],
                    recovery_approvals_needed: 2,
                    transfer_ownership_approvals_needed: 1,
                    owner: Addr::unchecked("alice"),
                    chain: "foo-1".to_string(),
                }),
                funds: vec![],
                label: "alice".to_string(),
            },
            reply_on: ReplyOn::Success,
        }]
    );
}

#[test]
fn create_slave_instantiates_an_executor_on_the_wallets_chain() {
    let mut deps = factory();
    let res = execute(
        &mut deps,
        env(),
        info("alice"),
        ExecuteMsg::CreateSlave {
            host_address: Addr::unchecked("wallet_of_alice"),
            slave_chain: "foo-1".to_string(),
        },
    )
    .unwrap();
    assert_eq!(
        res.attributes,
        vec![attribute("contract", "master"), attribute("method", "add_slave")]
    );
    assert_eq!(
        res.messages,
        vec![SubMsg {
            id: 0,
            msg: WasmMsg::Instantiate {
                admin: None,
                code_id: 7,
                msg: InitMsg::Slave(SlaveInstantiateMsg {
                    owner: Addr::unchecked("wallet_of_alice"),
                    chain: "foo-1".to_string(),
                }),
                funds: vec![],
                label: "alice".to_string(),
            },
            reply_on: ReplyOn::Never,
        }]
    );
}

#[test]
fn create_slave_on_another_chain_is_not_implemented() {
    let mut deps = factory();
    let res = execute(
        &mut deps,
        env(),
        info("alice"),
        ExecuteMsg::CreateSlave {
            host_address: Addr::unchecked("wallet_of_alice"),
            slave_chain: "bar-2".to_string(),
        },
    );
    assert_eq!(res.unwrap_err(), ContractError::NotImplemented("No IBC yet".to_string()));
}

#[test]
fn create_slave_without_code_for_the_chain_is_not_found() {
    let msg = InstantiateMsg {
        host_code_id: 17,
        host_chain: "foo-1".to_string(),
        slave_code_ids: vec![("bar-2".to_string(), 9)],
    };
    let (mut deps, _) = instantiate(env(), info("deployer"), msg).unwrap();
    let res = execute(
        &mut deps,
        env(),
        info("alice"),
        ExecuteMsg::CreateSlave {
            host_address: Addr::unchecked("wallet_of_alice"),
            slave_chain: "foo-1".to_string(),
        },
    );
    assert_eq!(res.unwrap_err(), ContractError::Std(StdError::not_found("slave code id")));
}

#[test]
fn update_owner_rekeys_the_index() {
    let mut deps = factory();
    index_wallet(&mut deps, Addr::unchecked("alice"), Addr::unchecked("wallet_a")).unwrap();
    index_wallet(&mut deps, Addr::unchecked("bob"), Addr::unchecked("wallet_b")).unwrap();
    let res = execute(
        &mut deps,
        env(),
        info("wallet_a"),
        ExecuteMsg::UpdateOwner {
            old_owner: Addr::unchecked("alice"),
            new_owner: Addr::unchecked("carol"),
        },
    )
    .unwrap();
    assert_eq!(
        res.attributes,
        vec![attribute("contract", "master"), attribute("method", "update_owner")]
    );
    assert_eq!(
        get_host(&deps, Addr::unchecked("carol")),
        Ok(GetHostResponse { host: Addr::unchecked("wallet_a") })
    );
    assert_eq!(get_host(&deps, Addr::unchecked("alice")), Err(StdError::not_found("wallet")));
    assert_eq!(
        get_host(&deps, Addr::unchecked("bob")),
        Ok(GetHostResponse { host: Addr::unchecked("wallet_b") })
    );
}

#[test]
fn update_owner_is_for_the_indexed_wallet_only() {
    let mut deps = factory();
    index_wallet(&mut deps, Addr::unchecked("alice"), Addr::unchecked("wallet_a")).unwrap();
    let before = deps.clone();
    let res = execute(
        &mut deps,
        env(),
        info("alice"),
        ExecuteMsg::UpdateOwner {
            old_owner: Addr::unchecked("alice"),
            new_owner: Addr::unchecked("carol"),
        },
    );
    assert_eq!(res.unwrap_err(), ContractError::Unauthorized {});
    let res = execute(
        &mut deps,
        env(),
        info("wallet_a"),
        ExecuteMsg::UpdateOwner {
            old_owner: Addr::unchecked("nobody"),
            new_owner: Addr::unchecked("carol"),
        },
    );
    assert_eq!(res.unwrap_err(), ContractError::Unauthorized {});
    assert_eq!(deps, before);
}

#[test]
fn query_finds_the_wallet_of_an_owner() {
    let mut deps = factory();
    index_wallet(&mut deps, Addr::unchecked("alice"), Addr::unchecked("wallet_a")).unwrap();
    assert_eq!(
        query(&deps, env(), QueryMsg::GetHostContract { owner: Addr::unchecked("alice") }),
        Ok(GetHostResponse { host: Addr::unchecked("wallet_a") })
    );
    assert_eq!(
        query(&deps, env(), QueryMsg::GetHostContract { owner: Addr::unchecked("bob") }),
        Err(StdError::not_found("wallet"))
    );
}

#[test]
fn reply_kinds_are_told_by_their_id() {
    assert_eq!(ReplyKind::try_from(1), Ok(ReplyKind::ReplyCreateHost));
    assert_eq!(ReplyKind::try_from(0), Err("Unknown"));
    assert_eq!(ReplyKind::try_from(2), Err("Unknown"));
    assert_eq!(ReplyKind::ReplyCreateHost.id(), 1);
}

#[test]
fn reply_reads_the_wallet_and_its_owner() {
    let msg = created(vec![
        attribute("method", "instantiate"),
        attribute("owner", "alice"),
        attribute("host_address", "wallet_a"),
        attribute("recovery_pool", "[\"\"]"),
    ]);
    assert_eq!(
        reply(env(), msg),
        Ok(HostCreated { host_address: "wallet_a".to_string(), owner: "alice".to_string() })
    );
}

#[test]
fn reply_takes_the_last_of_repeated_attributes() {
    let msg = Reply {
        id: 1,
        result: Ok(SubMsgResponse {
            events: vec![
                Event {
                    ty: "first".to_string(),
                    attributes: vec![
                        attribute("host_address", "early"),
                        attribute("owner", "early_owner"),
                    ],
                },
                Event {
                    ty: "second".to_string(),
                    attributes: vec![
                        attribute("host_address", "middle"),
                        attribute("host_address", "late"),
                    ],
                },
                Event { ty: "third".to_string(), attributes: vec![attribute("other", "x")] },
            ],
        }),
    };
    assert_eq!(
        reply(env(), msg),
        Ok(HostCreated { host_address: "late".to_string(), owner: "early_owner".to_string() })
    );
}

#[test]
fn reply_without_the_attributes_fails() {
    let msg = created(vec![attribute("owner", "alice")]);
    assert_eq!(
        reply(env(), msg),
        Err(ContractError::Generic("Host address not detected.".to_string()))
    );
    let msg = created(vec![attribute("host_address", "wallet_a")]);
    assert_eq!(
        reply(env(), msg),
        Err(ContractError::Generic("Owner address not detected.".to_string()))
    );
    let msg = created(vec![]);
    assert_eq!(
        reply(env(), msg),
        Err(ContractError::Generic("Host address not detected.".to_string()))
    );
}

#[test]
fn reply_under_an_unknown_id_fails() {
    let mut msg = created(vec![attribute("owner", "alice"), attribute("host_address", "w")]);
    msg.id = 2;
    assert_eq!(reply(env(), msg), Err(ContractError::UnknownReplyID(2)));
    let msg = Reply { id: 0, result: Err("boom".to_string()) };
    assert_eq!(reply(env(), msg), Err(ContractError::UnknownReplyID(0)));
}

#[test]
fn reply_to_a_failure_fails() {
    let msg = Reply { id: 1, result: Err("out of gas".to_string()) };
    assert_eq!(reply(env(), msg), Err(ContractError::Generic("Failed".to_string())));
}

#[test]
fn index_wallet_records_the_wallet_under_its_owner() {
    let mut deps = factory();
    let res =
        index_wallet(&mut deps, Addr::unchecked("alice"), Addr::unchecked("wallet_a")).unwrap();
    assert_eq!(
        res.attributes,
        vec![attribute("contract", "master"), attribute("method", "reply_create_host")]
    );
    assert!(res.messages.is_empty());
    assert_eq!(
        load_wallet(&deps.wallets, &Addr::unchecked("alice")),
        Some(Addr::unchecked("wallet_a"))
    );
    index_wallet(&mut deps, Addr::unchecked("alice"), Addr::unchecked("wallet_new")).unwrap();
    assert_eq!(
        load_wallet(&deps.wallets, &Addr::unchecked("alice")),
        Some(Addr::unchecked("wallet_new"))
    );
    assert_eq!(deps.wallets.len(), 1);
}

#[test]
fn the_tables_keep_the_last_value_of_a_key() {
    let mut slaves = vec![("x".to_string(), 1), ("y".to_string(), 2), ("x".to_string(), 3)];
    assert_eq!(load_code_id(&slaves, &"x".to_string()), Some(3));
    assert_eq!(load_code_id(&slaves, &"z".to_string()), None);
    save_code_id(&mut slaves, "x".to_string(), 4);
    assert_eq!(load_code_id(&slaves, &"x".to_string()), Some(4));
    assert_eq!(load_code_id(&slaves, &"y".to_string()), Some(2));
    assert_eq!(slaves.len(), 2);

    let mut wallets = vec![];
    save_wallet(&mut wallets, Addr::unchecked("alice"), Addr::unchecked("w1"));
    save_wallet(&mut wallets, Addr::unchecked("bob"), Addr::unchecked("w2"));
    remove_wallet(&mut wallets, &Addr::unchecked("alice"));
    assert_eq!(load_wallet(&wallets, &Addr::unchecked("alice")), None);
    assert_eq!(load_wallet(&wallets, &Addr::unchecked("bob")), Some(Addr::unchecked("w2")));
    remove_wallet(&mut wallets, &Addr::unchecked("nobody"));
    assert_eq!(wallets.len(), 1);
}

#[test]
fn a_submessage_without_reply_has_the_id_zero() {
    let msg = WasmMsg::Instantiate {
        admin: None,
        code_id: 3,
        msg: InitMsg::Slave(SlaveInstantiateMsg {
            owner: Addr::unchecked("w"),
            chain: "c".to_string(),
        }),
        funds: vec![],
        label: "l".to_string(),
    };
    let plain = SubMsg::new(msg.clone());
    assert_eq!(plain.id, 0);
    assert_eq!(plain.reply_on, ReplyOn::Never);
    let asked = SubMsg::reply_on_success(msg.clone(), 5);
    assert_eq!(asked, SubMsg { id: 5, msg, reply_on: ReplyOn::Success });
}
