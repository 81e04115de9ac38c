//! The few items of `cosmwasm_std`, `itertools` and `std` that the contracts
//! lean on. Their contracts are taken on trust from the crates' sources and
//! documentation; nothing here is proved.

use cosmwasm_std::{CosmosMsg, Empty, StdError};
use vstd::prelude::*;

verus! {

/// `cosmwasm_std::StdError`, carried through as it comes.
#[verifier::external_type_specification]
#[verifier::external_body]
pub struct ExStdError(StdError);

/// `cosmwasm_std::Empty`, the custom part of the messages that the chain
/// takes from these contracts.
#[verifier::external_type_specification]
#[verifier::external_body]
pub struct ExEmpty(Empty);

/// `cosmwasm_std::CosmosMsg`, a message for the chain. The contracts carry
/// it through and never look inside.
#[verifier::external_type_specification]
#[verifier::external_body]
#[verifier::reject_recursive_types(T)]
pub struct ExCosmosMsg<T>(CosmosMsg<T>);

/// The error that `StdError::not_found` builds for a kind of thing.
pub uninterp spec fn not_found_error(kind: Seq<char>) -> StdError;

/// The error that `StdError::generic_err` builds for a message.
pub uninterp spec fn generic_error(msg: Seq<char>) -> StdError;

/// What `cosmwasm_std::to_json_binary` returns for a message: its JSON
/// bytes, or the error of the serializer.
pub uninterp spec fn serialized_msg(msg: CosmosMsg) -> Result<Seq<u8>, StdError>;

/// The outcome of a serialization, the bytes taken as a sequence.
pub open spec fn serialized_view(serialized: Result<Vec<u8>, StdError>) -> Result<
    Seq<u8>,
    StdError,
> {
    match serialized {
        Ok(bytes) => Ok(bytes@),
        Err(e) => Err(e),
    }
}

/// Whether a message is of the variant `CosmosMsg::Custom`.
pub uninterp spec fn is_custom_msg(msg: CosmosMsg) -> bool;

/// `StdError::not_found`: the error of the variant `NotFound` whose kind is
/// `kind`. The crate is built without backtraces, so the error holds nothing
/// else.
#[verifier::external_body]
pub(crate) fn not_found(kind: &str) -> (e: StdError)
    ensures
        e == not_found_error(kind@),
{
    StdError::not_found(kind)
}

/// `StdError::generic_err`: the error of the variant `GenericErr` whose
/// message is `msg`, and which holds nothing else.
#[verifier::external_body]
pub(crate) fn generic_err(msg: &str) -> (e: StdError)
    ensures
        e == generic_error(msg@),
{
    StdError::generic_err(msg)
}

/// `cosmwasm_std::to_json_binary` on a message: the JSON bytes that the
/// serializer writes for it, taken out of the `Binary` that holds them, or
/// the serializer's error. The result depends on the message alone.
#[verifier::external_body]
pub(crate) fn to_binary(msg: &CosmosMsg) -> (r: Result<Vec<u8>, StdError>)
    ensures
        serialized_view(r) == serialized_msg(*msg),
{
    cosmwasm_std::to_json_binary(msg).map(|b| b.0)
}

/// Tells the variant `CosmosMsg::Custom` from the others.
#[verifier::external_body]
pub(crate) fn is_custom(msg: &CosmosMsg) -> (r: bool)
    ensures
        r == is_custom_msg(*msg),
{
    matches!(msg, CosmosMsg::Custom(_))
}

/// The texts of `items` in their order, each two neighbours parted by `sep`.
pub open spec fn joined(items: Seq<Seq<char>>, sep: Seq<char>) -> Seq<char>
    decreases items.len(),
{
    if items.len() == 0 {
        Seq::empty()
    } else if items.len() == 1 {
        items[0]
    } else {
        joined(items.drop_last(), sep) + sep + items.last()
    }
}

/// `itertools::Itertools::join` over the strings of `items`: the first one,
/// then for each further one `sep` and the string; the empty string where
/// there are none.
#[verifier::external_body]
pub(crate) fn join(items: &Vec<String>, sep: &str) -> (r: String)
    ensures
        r@ == joined(items.deep_view(), sep@),
{
    itertools::Itertools::join(&mut items.iter(), sep)
}

/// The decimal digits of `n`, the most significant first, without leading
/// zeros but for zero itself.
pub open spec fn decimal(n: nat) -> Seq<char>
    decreases n,
{
    if n < 10 {
        seq![(48 + n) as char]
    } else {
        decimal(n / 10).push((48 + n % 10) as char)
    }
}

/// `u64::to_string`: the number in decimal digits.
#[verifier::external_body]
pub(crate) fn u64_to_string(n: u64) -> (r: String)
    ensures
        r@ == decimal(n as nat),
{
    n.to_string()
}

} // verus!
