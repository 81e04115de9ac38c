//! What holds of the factory's index of wallets, proved from the
//! definitions of the model.

use crate::master::error::ErrorView;
use crate::master::model::{get_host, index_wallet, refused, update_owner};
use crate::master::state::{value_of, StoreView};
use cosmwasm_std::StdError;
use vstd::prelude::*;

verus! {

/// A wallet that was indexed is found under its owner, and the wallets of
/// the other owners stay as they were.
pub proof fn lemma_indexed_wallet_is_found(
    s: StoreView,
    owner: Seq<char>,
    host: Seq<char>,
    other: Seq<char>,
)
    ensures
        get_host(index_wallet(s, owner, host).store, owner) == Ok::<Seq<char>, StdError>(host),
        other != owner ==> get_host(index_wallet(s, owner, host).store, other) == get_host(
            s,
            other,
        ),
{
}

/// Only the wallet that is indexed under the old owner can report a change
/// of owner: every other caller is refused with `Unauthorized`, also where
/// nothing is indexed under the old owner, and the index stays as it was.
pub proof fn lemma_update_owner_needs_the_wallet(
    s: StoreView,
    sender: Seq<char>,
    old_owner: Seq<char>,
    new_owner: Seq<char>,
)
    ensures
        value_of(s.wallets, old_owner) != Some(sender) <==> update_owner(
            s,
            sender,
            old_owner,
            new_owner,
        ) == refused(s, ErrorView::Unauthorized),
        value_of(s.wallets, old_owner) == Some(sender) <==> update_owner(
            s,
            sender,
            old_owner,
            new_owner,
        ).result is Ok,
{
}

/// After a change of owner was reported the wallet is found under the new
/// owner and no longer under the old one; the wallets of all other owners
/// stay as they were.
pub proof fn lemma_update_owner_rekeys(
    s: StoreView,
    sender: Seq<char>,
    old_owner: Seq<char>,
    new_owner: Seq<char>,
    other: Seq<char>,
)
    requires
        update_owner(s, sender, old_owner, new_owner).result is Ok,
    ensures
        ({
            let after = update_owner(s, sender, old_owner, new_owner).store;
            &&& get_host(after, new_owner) == Ok::<Seq<char>, StdError>(sender)
            &&& old_owner != new_owner ==> get_host(after, old_owner) is Err
            &&& other != old_owner && other != new_owner ==> get_host(after, other) == get_host(
                s,
                other,
            )
        }),
{
}

} // verus!
