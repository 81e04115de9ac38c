//! The wallet as a state machine over mathematical values: what each call
//! makes of the wallet, and what it answers. The contracts of the executable
//! functions are stated against these definitions.

use crate::host::error::{ContractError, ErrorView};
use crate::host::msg::{
    ExecuteMsg, InstantiateMsg, MasterMsgView, PayloadView, QueryMsg, QueryResponseView,
    RecoveryPoolView, Response, WasmMsgView,
};
use crate::host::state::{lookup, RecoveryMethod, StateView, Store, StoreView};
use crate::trusted::{generic_error, joined, serialized_msg};
use crate::types::{CoinView, Env, MessageInfo, ResponseView};
use cosmwasm_std::StdError;
use vstd::prelude::*;

verus! {

/// What a successful call answers.
pub type Answer = ResponseView<WasmMsgView>;

/// How a call ends: the wallet after it, and its answer or the reason for
/// its refusal.
#[verifier::ext_equal]
pub struct Outcome {
    pub store: StoreView,
    pub result: Result<Answer, ErrorView>,
}

/// The outcome that an executable call reports: the store it leaves and the
/// value it returns.
pub open spec fn outcome(store: Store, result: Result<Response, ContractError>) -> Outcome {
    Outcome {
        store: store@,
        result: match result {
            Ok(response) => Ok(response@),
            Err(e) => Err(e@),
        },
    }
}

/// The call is refused with `e`; the wallet stays as it was.
pub open spec fn refused(s: StoreView, e: ErrorView) -> Outcome {
    Outcome { store: s, result: Err(e) }
}

/// The call succeeds, leaves `s` and answers `answer`.
pub open spec fn accepted(s: StoreView, answer: Answer) -> Outcome {
    Outcome { store: s, result: Ok(answer) }
}

/// The answer that names an `action` on a pool or on the registry.
pub open spec fn action_answer(action: Seq<char>) -> Answer {
    Answer::empty().add_attribute("action"@, action)
}

/// The answer that names a `method` of the wallet.
pub open spec fn method_answer(method: Seq<char>) -> Answer {
    Answer::empty().add_attribute("contract"@, "host"@).add_attribute("method"@, method)
}

/// The two pools of voters that the owner manages.
pub enum Pool {
    Recovery,
    Approval,
}

impl Pool {
    /// The members of this pool in `s`.
    pub open spec fn members(self, s: StateView) -> Seq<Seq<char>> {
        match self {
            Pool::Recovery => s.recovery_pool,
            Pool::Approval => s.approval_pool,
        }
    }

    /// `s` with `members` as this pool.
    pub open spec fn replaced(self, s: StateView, members: Seq<Seq<char>>) -> StateView {
        match self {
            Pool::Recovery => StateView { recovery_pool: members, ..s },
            Pool::Approval => StateView { approval_pool: members, ..s },
        }
    }

    /// The name under which adding to this pool is reported.
    pub open spec fn adding(self) -> Seq<char> {
        match self {
            Pool::Recovery => "add_recovery_member"@,
            Pool::Approval => "add_approval_member"@,
        }
    }

    /// The name under which removing from this pool is reported.
    pub open spec fn removing(self) -> Seq<char> {
        match self {
            Pool::Recovery => "remove_recovery_member"@,
            Pool::Approval => "remove_approval_member"@,
        }
    }
}

/// The owner adds `member` to `pool`. Only the owner may; a member is added
/// once.
pub open spec fn add_member(
    s: StoreView,
    pool: Pool,
    sender: Seq<char>,
    member: Seq<char>,
) -> Outcome {
    if sender != s.state.owner {
        refused(s, ErrorView::Unauthorized)
    } else if pool.members(s.state).contains(member) {
        refused(s, ErrorView::MemberAlreadyAdded)
    } else {
        accepted(
            StoreView { state: pool.replaced(s.state, pool.members(s.state).push(member)), ..s },
            action_answer(pool.adding()),
        )
    }
}

/// The owner removes `member` from `pool`. Only the owner may, and only a
/// member can be removed.
pub open spec fn remove_member(
    s: StoreView,
    pool: Pool,
    sender: Seq<char>,
    member: Seq<char>,
) -> Outcome {
    if sender != s.state.owner {
        refused(s, ErrorView::Unauthorized)
    } else if !pool.members(s.state).contains(member) {
        refused(s, ErrorView::MemberNotFound)
    } else {
        accepted(
            StoreView {
                state: pool.replaced(
                    s.state,
                    pool.members(s.state).filter(|a: Seq<char>| a != member),
                ),
                ..s
            },
            action_answer(pool.removing()),
        )
    }
}

/// The executor at `addr` registers itself for `chain`. It must be the
/// caller, its address must have passed validation, and the chain must have
/// no executor yet.
pub open spec fn register_slave(
    s: StoreView,
    sender: Seq<char>,
    chain: Seq<char>,
    addr: Seq<char>,
    validated: Result<Seq<char>, StdError>,
) -> Outcome {
    if sender != addr {
        refused(s, ErrorView::Unauthorized)
    } else {
        match validated {
            Err(e) => refused(s, ErrorView::Std(e)),
            Ok(valid) => if lookup(s.slaves, chain) is Some {
                refused(s, ErrorView::Std(generic_error("Key already set."@)))
            } else {
                accepted(
                    StoreView { slaves: s.slaves.push((chain, valid)), ..s },
                    action_answer("register_slave"@).add_attribute("chain"@, chain),
                )
            },
        }
    }
}

/// The owner has the executor of the wallet's own chain run an action, of
/// which `serialized` is the serialized form. The action goes out as it is,
/// with the funds of the call.
pub open spec fn execute_samechain_transaction(
    s: StoreView,
    sender: Seq<char>,
    funds: Seq<CoinView>,
    serialized: Result<Seq<u8>, StdError>,
) -> Outcome {
    if sender != s.state.owner {
        refused(s, ErrorView::Unauthorized)
    } else {
        match lookup(s.slaves, s.state.chain) {
            None => refused(s, ErrorView::ChainNotRegistered),
            Some(slave) => match serialized {
                Err(e) => refused(s, ErrorView::Std(e)),
                Ok(bytes) => accepted(
                    s,
                    method_answer("execute_samechain_transaction"@).add_message(
                        WasmMsgView::Execute {
                            contract_addr: slave,
                            msg: PayloadView::Json(bytes),
                            funds,
                        },
                    ),
                ),
            },
        }
    }
}

/// The number of votes at which a change begun by `method` is carried out.
/// The owner's own vote on a transfer does not count towards the configured
/// number, hence one more.
pub open spec fn quorum(s: StateView, method: RecoveryMethod) -> int {
    match method {
        RecoveryMethod::Recovery => s.recovery_approvals_needed as int,
        RecoveryMethod::TransferOwnership => s.transfer_ownership_approvals_needed + 1,
    }
}

/// Whether the votes cast reach the quorum of `method`.
pub open spec fn can_transfer_ownership(s: StoreView, method: RecoveryMethod) -> bool {
    s.active_recovery.len() >= quorum(s.state, method)
}

/// The wallet with no change of owner pending and no votes.
pub open spec fn idle(s: StoreView) -> bool {
    s.state.potential_owner is None && s.state.recovery_method is None
        && s.active_recovery.len() == 0
}

/// The pending change is carried out: the proposed owner becomes the owner,
/// nothing is pending any more, the votes are gone, and the factory is told
/// of the old and the new owner.
pub open spec fn do_transfer_ownership(s: StoreView) -> Outcome
    recommends
        s.state.potential_owner is Some,
{
    let new_owner = s.state.potential_owner->0;
    accepted(
        StoreView {
            state: StateView {
                owner: new_owner,
                potential_owner: None,
                recovery_method: None,
                ..s.state
            },
            active_recovery: Seq::empty(),
            ..s
        },
        method_answer("do_transfer_ownership"@).add_message(
            WasmMsgView::Execute {
                contract_addr: s.state.master,
                msg: PayloadView::Master(
                    MasterMsgView::UpdateOwner { old_owner: s.state.owner, new_owner },
                ),
                funds: Seq::empty(),
            },
        ),
    )
}

/// After a vote: the change is carried out if the quorum of `method` is
/// reached, and stays pending otherwise.
pub open spec fn settle(s: StoreView, method: RecoveryMethod) -> Outcome {
    if can_transfer_ownership(s, method) {
        do_transfer_ownership(s)
    } else {
        accepted(s, method_answer("begin_social_recovery"@))
    }
}

/// A change of owner to `target` begins by `method`, with the caller's vote
/// as the only one.
pub open spec fn begin_recovery(
    s: StoreView,
    sender: Seq<char>,
    target: Seq<char>,
    method: RecoveryMethod,
) -> Outcome {
    settle(
        StoreView {
            state: StateView {
                potential_owner: Some(target),
                recovery_method: Some(method),
                ..s.state
            },
            active_recovery: seq![sender],
            ..s
        },
        method,
    )
}

/// The caller's vote is added to those on the pending change.
pub open spec fn approve_recovery(
    s: StoreView,
    sender: Seq<char>,
    method: RecoveryMethod,
) -> Outcome {
    settle(StoreView { active_recovery: s.active_recovery.push(sender), ..s }, method)
}

/// Whether `sender` may take part in a social recovery: a member of the
/// recovery pool who is not the owner.
pub open spec fn may_recover(s: StateView, sender: Seq<char>) -> bool {
    s.recovery_pool.contains(sender) && s.owner != sender
}

/// A member of the recovery pool proposes `target` as the new owner.
pub open spec fn begin_social_recovery(
    s: StoreView,
    sender: Seq<char>,
    target: Seq<char>,
) -> Outcome {
    if target == s.state.owner {
        refused(s, ErrorView::SelfRecovery)
    } else if !may_recover(s.state, sender) {
        refused(s, ErrorView::Unauthorized)
    } else if s.state.potential_owner is Some {
        refused(s, ErrorView::AlreadyRecovering)
    } else {
        begin_recovery(s, sender, target, RecoveryMethod::Recovery)
    }
}

/// The owner proposes `target` as the new owner.
pub open spec fn begin_transfer_ownership(
    s: StoreView,
    sender: Seq<char>,
    target: Seq<char>,
) -> Outcome {
    if target == s.state.owner {
        refused(s, ErrorView::SelfRecovery)
    } else if s.state.owner != sender {
        refused(s, ErrorView::Unauthorized)
    } else if s.state.potential_owner is Some {
        refused(s, ErrorView::AlreadyRecovering)
    } else {
        begin_recovery(s, sender, target, RecoveryMethod::TransferOwnership)
    }
}

/// Whether `sender` may vote on a change begun by `method`: a member of the
/// recovery pool, who for a social recovery is not the owner.
pub open spec fn may_approve(s: StateView, sender: Seq<char>, method: RecoveryMethod) -> bool {
    match method {
        RecoveryMethod::Recovery => may_recover(s, sender),
        RecoveryMethod::TransferOwnership => s.recovery_pool.contains(sender),
    }
}

/// The text that goes with a vote for another target than the pending one.
pub open spec fn target_mismatch() -> Seq<char> {
    "Transfer account not matching submitted."@
}

/// A voter approves the pending change of owner to `target`, begun by
/// `method`.
pub open spec fn approve(
    s: StoreView,
    sender: Seq<char>,
    target: Seq<char>,
    method: RecoveryMethod,
) -> Outcome {
    if !may_approve(s.state, sender, method) {
        refused(s, ErrorView::Unauthorized)
    } else if s.active_recovery.contains(sender) {
        refused(s, ErrorView::AlreadyVoted)
    } else if s.state.potential_owner is None || s.state.recovery_method != Some(method) {
        refused(s, ErrorView::NotInProgress)
    } else if s.state.potential_owner != Some(target) {
        refused(s, ErrorView::InvariantMismatch(target_mismatch()))
    } else {
        approve_recovery(s, sender, method)
    }
}

/// A member of the recovery pool approves the pending social recovery.
pub open spec fn approve_social_recovery(
    s: StoreView,
    sender: Seq<char>,
    target: Seq<char>,
) -> Outcome {
    approve(s, sender, target, RecoveryMethod::Recovery)
}

/// A member of the recovery pool approves the pending transfer.
pub open spec fn approve_transfer_ownership(
    s: StoreView,
    sender: Seq<char>,
    target: Seq<char>,
) -> Outcome {
    approve(s, sender, target, RecoveryMethod::TransferOwnership)
}

/// What the call `msg` by `info.sender` makes of the wallet `s`.
pub open spec fn execute(s: StoreView, info: MessageInfo, msg: ExecuteMsg) -> Outcome {
    let sender = info.sender@;
    match msg {
        ExecuteMsg::AddRecoveryMember { member } => add_member(s, Pool::Recovery, sender, member@),
        ExecuteMsg::AddApprovalMember { member } => add_member(s, Pool::Approval, sender, member@),
        ExecuteMsg::RemoveRecoveryMember { member } => remove_member(
            s,
            Pool::Recovery,
            sender,
            member@,
        ),
        ExecuteMsg::RemoveApprovalMember { member } => remove_member(
            s,
            Pool::Approval,
            sender,
            member@,
        ),
        ExecuteMsg::RegisterSlave { chain, addr, validated } => register_slave(
            s,
            sender,
            chain@,
            addr@,
            validated_view(validated),
        ),
        ExecuteMsg::ExecuteSameChain { body_proxy } => execute_samechain_transaction(
            s,
            sender,
            info.funds.deep_view(),
            serialized_msg(body_proxy),
        ),
        ExecuteMsg::BeginSocialRecovery { target_addr } => begin_social_recovery(
            s,
            sender,
            target_addr@,
        ),
        ExecuteMsg::ApproveSocialRecovery { target_addr } => approve_social_recovery(
            s,
            sender,
            target_addr@,
        ),
        ExecuteMsg::BeginTransferOwnership { target_addr } => begin_transfer_ownership(
            s,
            sender,
            target_addr@,
        ),
        ExecuteMsg::ApproveTransferOwnership { target_addr } => approve_transfer_ownership(
            s,
            sender,
            target_addr@,
        ),
    }
}

/// The outcome of an address validation, the address taken by its text.
pub open spec fn validated_view(validated: Result<crate::types::Addr, StdError>) -> Result<
    Seq<char>,
    StdError,
> {
    match validated {
        Ok(addr) => Ok(addr@),
        Err(e) => Err(e),
    }
}

/// The call `msg` under the replay guard. A nonce that is not above the last
/// one used is refused. Otherwise the call is made with the nonce recorded
/// first; if the call is refused, so is the recording, and the wallet stays
/// as it was.
pub open spec fn execute_guarded(
    s: StoreView,
    nonce: u64,
    info: MessageInfo,
    msg: ExecuteMsg,
) -> Outcome {
    if nonce <= s.last_nonce {
        refused(s, ErrorView::NonceAlreadyUsed)
    } else {
        let made = execute(StoreView { last_nonce: nonce, ..s }, info, msg);
        match made.result {
            Ok(_) => made,
            Err(e) => refused(s, e),
        }
    }
}

/// The list of `members` as it is reported when the wallet is created.
pub open spec fn pool_repr(members: Seq<Seq<char>>) -> Seq<char> {
    "[\""@ + joined(members, "\",\""@) + "\"]"@
}

/// The wallet that `msg` creates, called by the factory `info.sender`.
pub open spec fn instantiated(info: MessageInfo, msg: InstantiateMsg) -> StoreView {
    StoreView {
        state: StateView {
            owner: msg.owner@,
            master: info.sender@,
            potential_owner: None,
            recovery_method: None,
            recovery_pool: msg.recovery_pool.deep_view(),
            approval_pool: msg.approval_pool.deep_view(),
            recovery_approvals_needed: msg.recovery_approvals_needed,
            transfer_ownership_approvals_needed: msg.transfer_ownership_approvals_needed,
            chain: msg.chain@,
        },
        slaves: Seq::empty(),
        active_recovery: Seq::empty(),
        last_nonce: 0,
    }
}

/// What the creation of a wallet at `env.contract.address` answers.
pub open spec fn instantiate_answer(env: Env, msg: InstantiateMsg) -> Answer {
    Answer::empty().add_attribute("method"@, "instantiate"@).add_attribute(
        "owner"@,
        msg.owner@,
    ).add_attribute("host_address"@, env.contract.address@).add_attribute(
        "recovery_pool"@,
        pool_repr(msg.recovery_pool.deep_view()),
    ).add_attribute("approval_pool"@, pool_repr(msg.approval_pool.deep_view()))
}

/// The recovery pool, the quorums, and how far the pending change has come.
pub open spec fn get_recovery_pool(s: StoreView) -> RecoveryPoolView {
    RecoveryPoolView {
        members: s.state.recovery_pool,
        recovery_approvals_count: s.state.recovery_approvals_needed,
        transfer_approvals_count: s.state.transfer_ownership_approvals_needed,
        recovery_progress: if s.state.recovery_method is Some {
            s.active_recovery.len()
        } else {
            0
        },
        recovery_method: s.state.recovery_method,
        new_owner: s.state.potential_owner,
    }
}

/// The answer to the question `msg` about the wallet `s`.
pub open spec fn query(s: StoreView, msg: QueryMsg) -> QueryResponseView {
    match msg {
        QueryMsg::GetRecoveryPool {  } => QueryResponseView::RecoveryPool(get_recovery_pool(s)),
        QueryMsg::GetSlaves {  } => QueryResponseView::Slaves(s.slaves),
        QueryMsg::GetSlave { chain } => QueryResponseView::Slave(lookup(s.slaves, chain@)),
    }
}

/// No two entries of the registry have the same chain.
pub open spec fn unique_keys(entries: Seq<(Seq<char>, Seq<char>)>) -> bool {
    forall|i: int, j: int|
        0 <= i < j < entries.len() ==> (#[trigger] entries[i]).0 != (#[trigger] entries[j]).0
}

/// What holds of every wallet that was created and then only changed by
/// calls:
/// - a proposed owner and the way the change was begun are recorded
///   together, or neither is;
/// - while nothing is pending there are no votes;
/// - nobody has voted twice;
/// - a pending change has at least one vote and fewer than its quorum;
/// - the owner has no vote in a pending social recovery;
/// - the proposed owner is not the owner;
/// - no chain has two executors.
pub open spec fn well_formed(s: StoreView) -> bool {
    &&& s.state.potential_owner is Some <==> s.state.recovery_method is Some
    &&& s.state.potential_owner is None ==> s.active_recovery.len() == 0
    &&& s.active_recovery.no_duplicates()
    &&& s.state.recovery_method matches Some(method) ==> 0 < s.active_recovery.len() < quorum(
        s.state,
        method,
    )
    &&& s.state.recovery_method == Some(RecoveryMethod::Recovery)
        ==> !s.active_recovery.contains(s.state.owner)
    &&& s.state.potential_owner matches Some(target) ==> target != s.state.owner
    &&& unique_keys(s.slaves)
}

} // verus!
