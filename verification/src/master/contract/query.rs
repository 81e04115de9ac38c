//! The question that the factory answers.

use crate::master::model;
use crate::master::msg::GetHostResponse;
use crate::master::state::{load_wallet, Store};
use crate::trusted::not_found;
use crate::types::Addr;
use cosmwasm_std::StdError;
use vstd::prelude::*;

verus! {

/// The wallet of `owner`. An owner without a wallet gets the error
/// `NotFound`.
pub fn get_host(deps: &Store, owner: Addr) -> (r: Result<GetHostResponse, StdError>)
    ensures
        match model::get_host(deps@, owner@) {
            Ok(host) => r matches Ok(found) && found.host@ == host,
            Err(e) => r == Err::<GetHostResponse, StdError>(e),
        },
{
    match load_wallet(&deps.wallets, &owner) {
        Some(wallet) => Ok(GetHostResponse { host: wallet }),
        None => Err(not_found("wallet")),
    }
}

} // verus!
