use cosmwasm_std::{BankMsg, CosmosMsg, Empty};
use cw_wallet::slave_samechain::contract::{execute, forward, instantiate};
use cw_wallet::slave_samechain::error::ContractError;
use cw_wallet::slave_samechain::msg::{HostRegisterSlaveMsg, InstantiateMsg, SlaveMsg, WasmMsg};
use cw_wallet::slave_samechain::state::State;
use cw_wallet::types::{Addr, Attribute, ContractInfo, Env, MessageInfo};

fn env() -> Env {
    Env { contract: ContractInfo { address: Addr::unchecked("slave_x") } }
}

fn info(sender: &str) -> MessageInfo {
    MessageInfo { sender: Addr::unchecked(sender), funds: vec![] }
}

fn attribute(key: &str, value: &str) -> Attribute {
    Attribute { key: key.to_string(), value: value.to_string() }
}

fn send_to_bob() -> CosmosMsg {
    CosmosMsg::Bank(BankMsg::Send {
        to_address: "bob".to_string(),
        amount: vec![cosmwasm_std::coin(5, "uatom")],
    })
}

fn executor() -> State {
    State { owner: Addr::unchecked("wallet") }
}

#[test]
fn a_new_executor_registers_itself_with_its_wallet() {
    let msg = InstantiateMsg { owner: Addr::unchecked("wallet"), chain: "x".to_string() };
    let (state, res) = instantiate(env(), info("factory"), msg).unwrap();
    assert_eq!(state, executor());
    assert_eq!(
        res.attributes,
        vec![
            attribute("method", "instantiate"),
            attribute("slave_address", "slave_x"),
            attribute("owner", "wallet"),
        ]
    );
    assert_eq!(
        res.messages,
        vec![SlaveMsg::Wasm(WasmMsg::Execute {
            contract_addr: "wallet".to_string(),
            msg: HostRegisterSlaveMsg::RegisterSlave {
                chain: "x".to_string(),
                addr: Addr::unchecked("slave_x"),
            },
            funds: vec![],
        })]
    );
}

#[test]
fn the_owner_has_a_message_passed_on() {
    let res = execute(&executor(), env(), info("wallet"), send_to_bob()).unwrap();
    assert_eq!(
        res.attributes,
        vec![attribute("contract", "host"), attribute("method", "execute_samechain_transaction")]
    );
    assert_eq!(res.messages, vec![SlaveMsg::Proxied(send_to_bob())]);
}

#[test]
fn nobody_but_the_owner_has_a_message_passed_on() {
    let res = execute(&executor(), env(), info("creator"), send_to_bob());
    assert_eq!(res.unwrap_err(), ContractError::Unauthorized {});
    let res = execute(&executor(), env(), info("creator"), CosmosMsg::Custom(Empty {}));
    assert_eq!(res.unwrap_err(), ContractError::Unauthorized {});
}

#[test]
fn custom_messages_are_not_served() {
    let res = execute(&executor(), env(), info("wallet"), CosmosMsg::Custom(Empty {}));
    assert_eq!(
        res.unwrap_err(),
        ContractError::NotImplemented("Custom messages not supported yet.".to_string())
    );
}

#[test]
fn forward_goes_by_the_flag_it_is_given() {
    let res = forward(&executor(), info("wallet"), send_to_bob(), true);
    assert_eq!(
        res.unwrap_err(),
        ContractError::NotImplemented("Custom messages not supported yet.".to_string())
    );
    let res = forward(&executor(), info("wallet"), CosmosMsg::Custom(Empty {}), false).unwrap();
    assert_eq!(res.messages, vec![SlaveMsg::Proxied(CosmosMsg::Custom(Empty {}))]);
    let res = forward(&executor(), info("other"), send_to_bob(), false);
    assert_eq!(res.unwrap_err(), ContractError::Unauthorized {});
}
