//! What holds of the wallet over one call and over several, proved from the
//! definitions of the model.

use crate::host::error::ErrorView;
use crate::host::model::{
    approve, begin_recovery, begin_social_recovery, begin_transfer_ownership,
    execute, execute_guarded, idle, instantiated, may_approve, query, quorum, refused,
    register_slave, well_formed, Outcome,
};
use crate::host::msg::{ExecuteMsg, InstantiateMsg, QueryMsg, QueryResponseView};
use crate::host::state::{
    lemma_lookup, lemma_lookup_push, lookup, RecoveryMethod, StoreView,
};
use crate::trusted::generic_error;
use crate::types::MessageInfo;
use cosmwasm_std::StdError;
use vstd::prelude::*;

verus! {

/// A wallet is well formed when it is created.
pub proof fn lemma_instantiated_well_formed(info: MessageInfo, msg: InstantiateMsg)
    ensures
        well_formed(instantiated(info, msg)),
        idle(instantiated(info, msg)),
{
}

/// A call that is refused changes nothing.
pub proof fn lemma_refusal_changes_nothing(s: StoreView, info: MessageInfo, msg: ExecuteMsg)
    ensures
        execute(s, info, msg).result is Err ==> execute(s, info, msg).store == s,
{
}

/// A well-formed wallet is well formed after every call.
pub proof fn lemma_execute_keeps_well_formed(s: StoreView, info: MessageInfo, msg: ExecuteMsg)
    requires
        well_formed(s),
    ensures
        well_formed(execute(s, info, msg).store),
{
    // the registry keeps its keys apart: a chain is registered only where no
    // entry has it yet
    if let ExecuteMsg::RegisterSlave { chain, .. } = msg {
        lemma_lookup(s.slaves, chain@);
    }
}

/// A well-formed wallet is well formed after every call under the replay
/// guard.
pub proof fn lemma_guarded_keeps_well_formed(
    s: StoreView,
    nonce: u64,
    info: MessageInfo,
    msg: ExecuteMsg,
)
    requires
        well_formed(s),
    ensures
        well_formed(execute_guarded(s, nonce, info, msg).store),
{
    if nonce > s.last_nonce {
        lemma_execute_keeps_well_formed(StoreView { last_nonce: nonce, ..s }, info, msg);
    }
}

/// The replay guard. A call whose nonce is not above the last one used is
/// refused with `NonceAlreadyUsed` and changes nothing. A call with a higher
/// nonce ends as the call itself ends: if it succeeds the nonce becomes the
/// last one used, and if it is refused the wallet stays as it was, so that
/// the last nonce moves exactly when the call succeeds.
pub proof fn lemma_nonce_guard(s: StoreView, nonce: u64, info: MessageInfo, msg: ExecuteMsg)
    ensures
        nonce <= s.last_nonce ==> execute_guarded(s, nonce, info, msg) == refused(
            s,
            ErrorView::NonceAlreadyUsed,
        ),
        nonce > s.last_nonce ==> {
            let made = execute(s, info, msg);
            let guarded = execute_guarded(s, nonce, info, msg);
            &&& guarded.result == made.result
            &&& made.result is Ok ==> guarded.store == StoreView {
                last_nonce: nonce,
                ..made.store
            }
            &&& made.result is Err ==> guarded.store == s
            &&& (guarded.store.last_nonce == nonce <==> made.result is Ok)
        },
{
    if nonce > s.last_nonce {
        lemma_nonce_is_carried(s, nonce, info, msg);
    }
}

/// A call neither reads nor writes the last nonce.
proof fn lemma_nonce_is_carried(s: StoreView, nonce: u64, info: MessageInfo, msg: ExecuteMsg)
    ensures
        execute(StoreView { last_nonce: nonce, ..s }, info, msg) == (Outcome {
            store: StoreView { last_nonce: nonce, ..execute(s, info, msg).store },
            result: execute(s, info, msg).result,
        }),
{
}

/// One call as it arrives, with the caller's nonce where it comes under the
/// replay guard.
pub struct Call {
    pub nonce: Option<u64>,
    pub info: MessageInfo,
    pub msg: ExecuteMsg,
}

/// What one call makes of the wallet.
pub open spec fn step(s: StoreView, call: Call) -> Outcome {
    match call.nonce {
        Some(nonce) => execute_guarded(s, nonce, call.info, call.msg),
        None => execute(s, call.info, call.msg),
    }
}

/// The wallet after `calls`, made one after the other.
pub open spec fn after_calls(s: StoreView, calls: Seq<Call>) -> StoreView
    decreases calls.len(),
{
    if calls.len() == 0 {
        s
    } else {
        step(after_calls(s, calls.drop_last()), calls.last()).store
    }
}

/// A wallet is well formed whatever calls were made since it was created.
pub proof fn lemma_always_well_formed(info: MessageInfo, msg: InstantiateMsg, calls: Seq<Call>)
    ensures
        well_formed(after_calls(instantiated(info, msg), calls)),
    decreases calls.len(),
{
    if calls.len() == 0 {
        lemma_instantiated_well_formed(info, msg);
    } else {
        let before = after_calls(instantiated(info, msg), calls.drop_last());
        let last = calls.last();
        lemma_always_well_formed(info, msg, calls.drop_last());
        match last.nonce {
            Some(nonce) => lemma_guarded_keeps_well_formed(before, nonce, last.info, last.msg),
            None => lemma_execute_keeps_well_formed(before, last.info, last.msg),
        }
    }
}

/// Over any sequence of calls the last nonce never falls.
pub proof fn lemma_last_nonce_never_falls(s: StoreView, calls: Seq<Call>)
    ensures
        after_calls(s, calls).last_nonce >= s.last_nonce,
    decreases calls.len(),
{
    if calls.len() > 0 {
        let before = after_calls(s, calls.drop_last());
        let last = calls.last();
        lemma_last_nonce_never_falls(s, calls.drop_last());
        match last.nonce {
            Some(nonce) => lemma_nonce_guard(before, nonce, last.info, last.msg),
            None => {},
        }
    }
}

/// A nonce that a call used with success is refused ever after, and so is
/// every lower one, whatever calls were made in between.
pub proof fn lemma_nonce_never_reused(
    s: StoreView,
    nonce: u64,
    info: MessageInfo,
    msg: ExecuteMsg,
    calls: Seq<Call>,
    replay_nonce: u64,
    replay_info: MessageInfo,
    replay_msg: ExecuteMsg,
)
    requires
        execute_guarded(s, nonce, info, msg).result is Ok,
        replay_nonce <= nonce,
    ensures
        ({
            let used = execute_guarded(s, nonce, info, msg).store;
            let later = after_calls(used, calls);
            &&& later.last_nonce >= nonce
            &&& execute_guarded(later, replay_nonce, replay_info, replay_msg) == refused(
                later,
                ErrorView::NonceAlreadyUsed,
            )
        }),
{
    let used = execute_guarded(s, nonce, info, msg).store;
    lemma_nonce_guard(s, nonce, info, msg);
    lemma_last_nonce_never_falls(used, calls);
}

/// A vote that is counted either reaches the quorum, and then the change is
/// carried out then and there, or leaves the change pending with one vote
/// more. When it is carried out the proposed owner is the owner, nothing is
/// pending and no votes are left.
pub proof fn lemma_quorum_commits(
    s: StoreView,
    sender: Seq<char>,
    target: Seq<char>,
    method: RecoveryMethod,
)
    requires
        approve(s, sender, target, method).result is Ok,
    ensures
        ({
            let after = approve(s, sender, target, method).store;
            if s.active_recovery.len() + 1 >= quorum(s.state, method) {
                &&& after.state.owner == target
                &&& idle(after)
            } else {
                &&& after.state.owner == s.state.owner
                &&& after.state.potential_owner == Some(target)
                &&& after.state.recovery_method == Some(method)
                &&& after.active_recovery == s.active_recovery.push(sender)
            }
        }),
{
}

/// In a well-formed wallet the change is carried out by the vote that first
/// reaches the quorum, and by no other: a vote that is counted carries the
/// change out exactly where it is the one that makes the votes equal to the
/// quorum. The votes never pass the quorum.
pub proof fn lemma_commit_at_first_reach(
    s: StoreView,
    sender: Seq<char>,
    target: Seq<char>,
    method: RecoveryMethod,
)
    requires
        well_formed(s),
        approve(s, sender, target, method).result is Ok,
    ensures
        s.active_recovery.len() + 1 <= quorum(s.state, method),
        idle(approve(s, sender, target, method).store) <==> s.active_recovery.len() + 1 == quorum(
            s.state,
            method,
        ),
{
}

/// A change that begins either reaches its quorum with the first vote, and
/// is then carried out at once, or is pending afterwards with that one vote.
/// The first happens exactly where a recovery needs at most one vote, or a
/// transfer none beside the owner's.
pub proof fn lemma_begin_settles(
    s: StoreView,
    sender: Seq<char>,
    target: Seq<char>,
    method: RecoveryMethod,
)
    ensures
        ({
            let after = begin_recovery(s, sender, target, method).store;
            if quorum(s.state, method) <= 1 {
                &&& after.state.owner == target
                &&& idle(after)
            } else {
                &&& after.state.owner == s.state.owner
                &&& after.state.potential_owner == Some(target)
                &&& after.state.recovery_method == Some(method)
                &&& after.active_recovery == seq![sender]
            }
        }),
        begin_recovery(s, sender, target, method).result is Ok,
{
}

/// While nothing is pending, every vote is refused and changes nothing: with
/// `NotInProgress` for a caller who may vote, with `Unauthorized` for one who
/// may not.
pub proof fn lemma_vote_when_idle(
    s: StoreView,
    sender: Seq<char>,
    target: Seq<char>,
    method: RecoveryMethod,
)
    requires
        idle(s),
    ensures
        approve(s, sender, target, method) == refused(
            s,
            if may_approve(s.state, sender, method) {
                ErrorView::NotInProgress
            } else {
                ErrorView::Unauthorized
            },
        ),
{
}

/// Once a vote has reached the quorum the change is carried out, and a later
/// vote on it, by a caller who may vote, is refused with `NotInProgress`.
pub proof fn lemma_vote_after_commit(
    s: StoreView,
    sender: Seq<char>,
    target: Seq<char>,
    method: RecoveryMethod,
    later_sender: Seq<char>,
    later_target: Seq<char>,
    later_method: RecoveryMethod,
)
    requires
        approve(s, sender, target, method).result is Ok,
        s.active_recovery.len() + 1 >= quorum(s.state, method),
        may_approve(approve(s, sender, target, method).store.state, later_sender, later_method),
    ensures
        ({
            let after = approve(s, sender, target, method).store;
            &&& idle(after)
            &&& approve(after, later_sender, later_target, later_method) == refused(
                after,
                ErrorView::NotInProgress,
            )
        }),
{
    lemma_quorum_commits(s, sender, target, method);
    lemma_vote_when_idle(
        approve(s, sender, target, method).store,
        later_sender,
        later_target,
        later_method,
    );
}

/// Who has a vote on the pending change is refused another: with
/// `AlreadyVoted` if the caller may vote at all, with `Unauthorized` if not.
pub proof fn lemma_no_second_vote(
    s: StoreView,
    sender: Seq<char>,
    target: Seq<char>,
    method: RecoveryMethod,
)
    requires
        s.active_recovery.contains(sender),
    ensures
        approve(s, sender, target, method) == refused(
            s,
            if may_approve(s.state, sender, method) {
                ErrorView::AlreadyVoted
            } else {
                ErrorView::Unauthorized
            },
        ),
{
}

/// A voter whose vote was counted and left the change pending cannot vote on
/// it again, whatever target the second vote names.
pub proof fn lemma_vote_twice(
    s: StoreView,
    sender: Seq<char>,
    target: Seq<char>,
    method: RecoveryMethod,
    second_target: Seq<char>,
)
    requires
        approve(s, sender, target, method).result is Ok,
        !idle(approve(s, sender, target, method).store),
    ensures
        ({
            let after = approve(s, sender, target, method).store;
            approve(after, sender, second_target, method) == refused(
                after,
                ErrorView::AlreadyVoted,
            )
        }),
{
    let voted = s.active_recovery.push(sender);
    assert(voted[s.active_recovery.len() as int] == sender);
}

/// Who began a social recovery that is still pending has cast the first vote
/// and cannot approve it as well.
pub proof fn lemma_begin_then_vote(
    s: StoreView,
    sender: Seq<char>,
    target: Seq<char>,
    second_target: Seq<char>,
)
    requires
        begin_social_recovery(s, sender, target).result is Ok,
        !idle(begin_social_recovery(s, sender, target).store),
    ensures
        ({
            let after = begin_social_recovery(s, sender, target).store;
            approve(after, sender, second_target, RecoveryMethod::Recovery) == refused(
                after,
                ErrorView::AlreadyVoted,
            )
        }),
{
    let after = begin_social_recovery(s, sender, target).store;
    assert(seq![sender][0] == sender);
}

/// To propose the current owner as the new owner is refused with
/// `SelfRecovery`, whoever asks and whatever the state of the wallet.
pub proof fn lemma_self_target_refused(s: StoreView, sender: Seq<char>)
    ensures
        begin_social_recovery(s, sender, s.state.owner) == refused(s, ErrorView::SelfRecovery),
        begin_transfer_ownership(s, sender, s.state.owner) == refused(s, ErrorView::SelfRecovery),
{
}

/// While a change is pending no other can begin, of either kind.
pub proof fn lemma_one_change_at_a_time(s: StoreView, sender: Seq<char>, target: Seq<char>)
    requires
        s.state.potential_owner is Some,
    ensures
        begin_social_recovery(s, sender, target).result is Err,
        begin_social_recovery(s, sender, target).store == s,
        begin_transfer_ownership(s, sender, target).result is Err,
        begin_transfer_ownership(s, sender, target).store == s,
{
}

/// Once a chain has an executor, every further registration for that chain
/// is refused and changes nothing. For an executor that registers itself
/// with a valid address the reason is the generic error "Key already set.".
pub proof fn lemma_register_twice(
    s: StoreView,
    sender: Seq<char>,
    chain: Seq<char>,
    addr: Seq<char>,
    validated: Result<Seq<char>, StdError>,
    second_sender: Seq<char>,
    second_addr: Seq<char>,
    second_validated: Result<Seq<char>, StdError>,
)
    requires
        register_slave(s, sender, chain, addr, validated).result is Ok,
    ensures
        ({
            let after = register_slave(s, sender, chain, addr, validated).store;
            let second = register_slave(
                after,
                second_sender,
                chain,
                second_addr,
                second_validated,
            );
            &&& lookup(after.slaves, chain) == Some(validated->Ok_0)
            &&& second.result is Err
            &&& second.store == after
            &&& second_sender == second_addr && second_validated is Ok ==> second.result == Err::<
                crate::host::model::Answer,
                ErrorView,
            >(ErrorView::Std(generic_error("Key already set."@)))
        }),
{
    lemma_lookup_push(s.slaves, chain, validated->Ok_0, chain);
}

/// A registration leaves the executors of the other chains as they were.
pub proof fn lemma_register_keeps_others(
    s: StoreView,
    sender: Seq<char>,
    chain: Seq<char>,
    addr: Seq<char>,
    validated: Result<Seq<char>, StdError>,
    other: Seq<char>,
)
    requires
        other != chain,
    ensures
        lookup(register_slave(s, sender, chain, addr, validated).store.slaves, other) == lookup(
            s.slaves,
            other,
        ),
{
    if register_slave(s, sender, chain, addr, validated).result is Ok {
        lemma_lookup_push(s.slaves, chain, validated->Ok_0, other);
    }
}

/// The query for the executor of a chain that no entry of the registry
/// names answers that there is none.
pub proof fn lemma_unregistered_chain_is_absent(s: StoreView, msg: QueryMsg)
    requires
        msg matches QueryMsg::GetSlave { chain } && forall|i: int|
            0 <= i < s.slaves.len() ==> (#[trigger] s.slaves[i]).0 != chain@,
    ensures
        query(s, msg) == QueryResponseView::Slave(None),
{
    lemma_lookup(s.slaves, msg->chain@);
}

} // verus!
