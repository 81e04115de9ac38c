//! What holds between the contracts: what the wallet reports is what the
//! factory reads.

use crate::host::model as wallet;
use crate::host::msg::{MasterMsgView, PayloadView, WasmMsgView};
use crate::host::state::StoreView;
use crate::master::error::ErrorView;
use crate::master::model as factory;
use crate::master::msg::{attributes_of, last_value, Reply};
use crate::master::state::value_of;
use crate::types::{AttributeView, Env};
use vstd::prelude::*;

verus! {

/// The factory learns of a wallet from the answer that the wallet gave when
/// it was created: where the attributes of the reply's events end with those
/// of that answer, the factory reads the wallet's own address and its owner.
pub proof fn lemma_factory_reads_the_wallet(
    env: Env,
    msg: crate::host::msg::InstantiateMsg,
    report: Reply,
    earlier: Seq<AttributeView>,
)
    requires
        report.id == factory::create_host_reply_id(),
        report.result matches Ok(response) && attributes_of(response.events@) == earlier
            + wallet::instantiate_answer(env, msg).attributes,
    ensures
        factory::reply(report) == Ok::<factory::HostCreatedView, ErrorView>(
            factory::HostCreatedView {
                host_address: env.contract.address@,
                owner: msg.owner@,
            },
        ),
{
    let told = wallet::instantiate_answer(env, msg).attributes;
    let all = earlier + told;
    reveal_strlit("method");
    reveal_strlit("owner");
    reveal_strlit("host_address");
    reveal_strlit("recovery_pool");
    reveal_strlit("approval_pool");
    assert("host_address"@.len() == 12);
    assert("recovery_pool"@.len() == 13);
    assert("approval_pool"@.len() == 13);
    let without_1 = all.drop_last();
    let without_2 = without_1.drop_last();
    let without_3 = without_2.drop_last();
    assert(last_value(without_2, "host_address"@) == Some(env.contract.address@));
    assert(last_value(without_1, "host_address"@) == Some(env.contract.address@));
    assert(last_value(without_3, "owner"@) == Some(msg.owner@));
    assert(last_value(without_2, "owner"@) == Some(msg.owner@));
    assert(last_value(without_1, "owner"@) == Some(msg.owner@));
}

/// When a change of owner is carried out, the wallet sends its factory the
/// message that re-keys the index: if the factory has the wallet, at
/// `wallet_addr`, indexed under the old owner, then after the message the
/// wallet is found under the new one.
pub proof fn lemma_commit_rekeys_the_factory(
    s: StoreView,
    index: crate::master::state::StoreView,
    wallet_addr: Seq<char>,
)
    requires
        s.state.potential_owner is Some,
        value_of(index.wallets, s.state.owner) == Some(wallet_addr),
    ensures
        ({
            let old_owner = s.state.owner;
            let new_owner = s.state.potential_owner->0;
            let sent = wallet::do_transfer_ownership(s).result->Ok_0.messages;
            let told = factory::update_owner(index, wallet_addr, old_owner, new_owner);
            &&& sent == seq![
                WasmMsgView::Execute {
                    contract_addr: s.state.master,
                    msg: PayloadView::Master(MasterMsgView::UpdateOwner { old_owner, new_owner }),
                    funds: Seq::empty(),
                },
            ]
            &&& told.result is Ok
            &&& factory::get_host(told.store, new_owner) == Ok::<
                Seq<char>,
                cosmwasm_std::StdError,
            >(wallet_addr)
        }),
{
}

} // verus!
