//! What the calls to the executor answer, over mathematical values.

use crate::trusted::is_custom_msg;
use crate::slave_samechain::error::{ContractError, ErrorView};
use crate::slave_samechain::msg::{
    HostRegisterSlaveView, InstantiateMsg, Response, SlaveMsgView,
};
use crate::slave_samechain::state::StateView;
use crate::types::{Env, ResponseView};
use cosmwasm_std::CosmosMsg;
use vstd::prelude::*;

verus! {

/// What a successful call answers.
pub type Answer = ResponseView<SlaveMsgView>;

/// What an executable call reports, taken by its view.
pub open spec fn result_view(result: Result<Response, ContractError>) -> Result<Answer, ErrorView> {
    match result {
        Ok(response) => Ok(response@),
        Err(e) => Err(e@),
    }
}

/// The executor that `msg` creates.
pub open spec fn instantiated(msg: InstantiateMsg) -> StateView {
    StateView { owner: msg.owner@ }
}

/// What the creation of an executor at `env.contract.address` answers: it
/// names itself and its owner, and registers itself with the owner for its
/// chain.
pub open spec fn instantiate_answer(env: Env, msg: InstantiateMsg) -> Answer {
    Answer::empty().add_attribute("method"@, "instantiate"@).add_attribute(
        "slave_address"@,
        env.contract.address@,
    ).add_attribute("owner"@, msg.owner@).add_message(
        SlaveMsgView::Execute {
            contract_addr: msg.owner@,
            msg: HostRegisterSlaveView::RegisterSlave {
                chain: msg.chain@,
                addr: env.contract.address@,
            },
            funds: Seq::empty(),
        },
    )
}

/// The owner has the executor run `msg`, which is `custom` or not. Only the
/// owner may, and custom messages are not served; every other message is
/// passed on to the chain as it came.
pub open spec fn forward(s: StateView, sender: Seq<char>, msg: CosmosMsg, custom: bool) -> Result<
    Answer,
    ErrorView,
> {
    if sender != s.owner {
        Err(ErrorView::Unauthorized)
    } else if custom {
        Err(ErrorView::NotImplemented("Custom messages not supported yet."@))
    } else {
        Ok(
            Answer::empty().add_attribute("contract"@, "host"@).add_attribute(
                "method"@,
                "execute_samechain_transaction"@,
            ).add_message(SlaveMsgView::Proxied(msg)),
        )
    }
}

/// The owner has the executor run `msg`.
pub open spec fn execute(s: StateView, sender: Seq<char>, msg: CosmosMsg) -> Result<
    Answer,
    ErrorView,
> {
    forward(s, sender, msg, is_custom_msg(msg))
}

/// Whoever is not the owner is refused and nothing is passed on.
pub proof fn lemma_only_owner_executes(s: StateView, sender: Seq<char>, msg: CosmosMsg)
    requires
        sender != s.owner,
    ensures
        execute(s, sender, msg) == Err::<Answer, ErrorView>(ErrorView::Unauthorized),
{
}

} // verus!
