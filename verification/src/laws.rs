//! Engine-wide laws.
//!
//! Each proof function here states a guarantee that relates whole
//! operations (through their spec transitions), rather than a single
//! call's contract: replay protection is permanent, votes are idempotent,
//! finalization happens exactly at the threshold and exactly once, and a
//! failing outside call during finalization leaves no trace.

use crate::actions::{
    spec_accrue_position, spec_activate_hot_swap, spec_approve_hot_swap, spec_approve_mint,
    spec_approve_unlock, spec_commit_burn, spec_create_mint_request, spec_create_unlock_request,
    spec_effective_weight, spec_finalize_mint, spec_lock, spec_propose_hot_swap,
    spec_set_ceeth_token, spec_set_pause, spec_transfer_admin, spec_update_apr,
};
use crate::storage::{ReplayKeyView, StateModel};
use crate::types::BridgeError;
use crate::utils::spec_sat_add_u32;
use vstd::prelude::*;

verus! {

/// Monotonic interest: accruing the same position over at least as much
/// elapsed time never yields a smaller principal.
pub proof fn lemma_accrue_monotonic(s: StateModel, account: Seq<char>, n1: u64, n2: u64)
    requires
        n1 <= n2,
    ensures
        ({
            let r1 = spec_accrue_position(s, account, n1).1;
            let r2 = spec_accrue_position(s, account, n2).1;
            match (r1, r2) {
                (Ok(p1), Ok(p2)) => p1.principal <= p2.principal,
                _ => true,
            }
        }),
{
    if s.balances.contains_key(account) {
        let pos = s.balances[account];
        if pos.last_accrual_ms < n1 {
            crate::utils::lemma_yield_monotonic(
                pos.principal,
                s.base_apr_bps,
                (n1 - pos.last_accrual_ms) as u64,
                (n2 - pos.last_accrual_ms) as u64,
            );
        }
    }
}

/// Replay rejection: once an action id is consumed, locking with it, or
/// creating an unlock or mint request under it, or committing a burn of
/// it, fails with `TxAlreadyProcessed` and changes nothing.  (The pause
/// flag and a zero amount are reported first, so they are excluded here.)
pub proof fn lemma_replay_rejection(
    s: StateModel,
    caller: Seq<char>,
    now_ms: u64,
    amount: u128,
    recipient: Seq<char>,
    src_chain: Seq<char>,
    dst_chain: Seq<char>,
    tx_id: Seq<char>,
)
    requires
        s.processed.contains(ReplayKeyView::Action { tx_id }),
        !s.paused,
        amount != 0,
    ensures
        spec_lock(s, caller, now_ms, amount, dst_chain, tx_id) == (
            s,
            Err::<(), BridgeError>(BridgeError::TxAlreadyProcessed),
        ),
        spec_create_unlock_request(s, now_ms, tx_id, recipient, amount, src_chain, dst_chain) == (
            s,
            Err::<(), BridgeError>(BridgeError::TxAlreadyProcessed),
        ),
        spec_create_mint_request(s, now_ms, tx_id, recipient, amount, src_chain, dst_chain) == (
            s,
            Err::<(), BridgeError>(BridgeError::TxAlreadyProcessed),
        ),
        spec_commit_burn(s, caller, amount, tx_id, dst_chain) == (
            s,
            Err::<(), BridgeError>(BridgeError::TxAlreadyProcessed),
        ),
{
}

/// Consumed ids stay consumed: no transition ever removes a key from the
/// replay ledger, so a rejected replay stays rejected after any number of
/// further operations.
pub proof fn lemma_processed_monotone(
    s: StateModel,
    caller: Seq<char>,
    now_ms: u64,
    amount: u128,
    other: Seq<char>,
    src_chain: Seq<char>,
    dst_chain: Seq<char>,
    id: Seq<char>,
    flag: bool,
    rate: u16,
)
    ensures
        s.processed.subset_of(spec_lock(s, caller, now_ms, amount, dst_chain, id).0.processed),
        s.processed.subset_of(
            spec_create_unlock_request(s, now_ms, id, other, amount, src_chain, dst_chain).0.processed,
        ),
        s.processed.subset_of(
            spec_create_mint_request(s, now_ms, id, other, amount, src_chain, dst_chain).0.processed,
        ),
        s.processed.subset_of(spec_approve_unlock(s, caller, now_ms, id).0.processed),
        s.processed.subset_of(spec_approve_mint(s, caller, id).0.processed),
        s.processed.subset_of(spec_finalize_mint(s, id, caller).0.processed),
        s.processed.subset_of(spec_propose_hot_swap(s, caller, id).0.processed),
        s.processed.subset_of(spec_approve_hot_swap(s, caller, id).0.processed),
        s.processed.subset_of(spec_activate_hot_swap(s, id, caller).0.processed),
        s.processed.subset_of(spec_commit_burn(s, caller, amount, id, other).0.processed),
        s.processed.subset_of(spec_set_pause(s, caller, flag).0.processed),
        s.processed.subset_of(spec_update_apr(s, caller, rate).0.processed),
        s.processed.subset_of(spec_transfer_admin(s, caller, other).0.processed),
        s.processed.subset_of(spec_set_ceeth_token(s, caller, other).0.processed),
{
}

/// Idempotent vote: once an approval of an unlock request has succeeded,
/// repeating it with the same (subject, voter) pair succeeds and changes
/// nothing — in particular the recorded approval weight stays as it is.
pub proof fn lemma_idempotent_vote_unlock(
    s: StateModel,
    caller: Seq<char>,
    now1: u64,
    now2: u64,
    request_id: Seq<char>,
)
    requires
        spec_approve_unlock(s, caller, now1, request_id).1 is Ok,
    ensures
        ({
            let s1 = spec_approve_unlock(s, caller, now1, request_id).0;
            spec_approve_unlock(s1, caller, now2, request_id) == (s1, Ok::<(), BridgeError>(()))
        }),
{
}

/// Idempotent vote for mint requests: a recorded (or repeated) approval
/// can be repeated without changing anything further.
pub proof fn lemma_idempotent_vote_mint(s: StateModel, caller: Seq<char>, request_id: Seq<char>)
    requires
        spec_approve_mint(s, caller, request_id).1 == Ok::<
            Option<crate::actions::PendingMintView>,
            BridgeError,
        >(None),
    ensures
        ({
            let s1 = spec_approve_mint(s, caller, request_id).0;
            spec_approve_mint(s1, caller, request_id) == (
                s1,
                Ok::<Option<crate::actions::PendingMintView>, BridgeError>(None),
            )
        }),
{
}

/// Threshold exactness: a fresh approval that goes through finalizes the
/// request exactly when the accumulated weight reaches the threshold, and
/// otherwise leaves it open with exactly the new weight recorded.
pub proof fn lemma_threshold_exactness(
    s: StateModel,
    caller: Seq<char>,
    now_ms: u64,
    request_id: Seq<char>,
)
    requires
        !s.paused,
        spec_effective_weight(s, caller) > 0,
        !s.processed.contains(ReplayKeyView::UnlockVote { request_id, voter: caller }),
        s.unlock_requests.contains_key(request_id),
        !s.unlock_requests[request_id].finalized,
        spec_approve_unlock(s, caller, now_ms, request_id).1 is Ok,
    ensures
        ({
            let s1 = spec_approve_unlock(s, caller, now_ms, request_id).0;
            let new_weight = spec_sat_add_u32(
                s.unlock_requests[request_id].approvals_weight,
                spec_effective_weight(s, caller),
            );
            s1.unlock_requests[request_id].finalized == (new_weight >= s.threshold as u32)
                && s1.unlock_requests[request_id].approvals_weight == new_weight
        }),
{
}

/// An administrator's approval alone finalizes an open request, whatever
/// guardian weight has accumulated: the administrator's weight equals the
/// threshold, and the saturating total can only reach it.
pub proof fn lemma_admin_approval_finalizes(s: StateModel, now_ms: u64, request_id: Seq<char>)
    requires
        !s.paused,
        s.threshold > 0,
        !s.processed.contains(ReplayKeyView::UnlockVote { request_id, voter: s.admin }),
        s.unlock_requests.contains_key(request_id),
        !s.unlock_requests[request_id].finalized,
        spec_approve_unlock(s, s.admin, now_ms, request_id).1 is Ok,
    ensures
        spec_approve_unlock(s, s.admin, now_ms, request_id).0.unlock_requests[request_id].finalized,
{
}

/// No double finalize: once a request is finalized, a fresh approval by
/// any authorized voter fails with `InvalidRequest` and changes nothing.
/// (A voter who already voted gets the idempotent success instead, and an
/// unauthorized one `PermissionDenied`.)
pub proof fn lemma_no_double_finalize_unlock(
    s: StateModel,
    caller: Seq<char>,
    now_ms: u64,
    request_id: Seq<char>,
)
    requires
        !s.paused,
        spec_effective_weight(s, caller) > 0,
        !s.processed.contains(ReplayKeyView::UnlockVote { request_id, voter: caller }),
        s.unlock_requests.contains_key(request_id),
        s.unlock_requests[request_id].finalized,
    ensures
        spec_approve_unlock(s, caller, now_ms, request_id) == (
            s,
            Err::<(), BridgeError>(BridgeError::InvalidRequest),
        ),
{
}

/// No double finalize, mint side: once a mint request is finalized, a
/// fresh approval by any authorized voter fails with `InvalidRequest` and
/// changes nothing.
pub proof fn lemma_no_double_finalize_mint(
    s: StateModel,
    caller: Seq<char>,
    request_id: Seq<char>,
)
    requires
        !s.paused,
        spec_effective_weight(s, caller) > 0,
        !s.processed.contains(ReplayKeyView::MintVote { request_id, voter: caller }),
        s.mint_requests.contains_key(request_id),
        s.mint_requests[request_id].finalized,
    ensures
        spec_approve_mint(s, caller, request_id) == (
            s,
            Err::<Option<crate::actions::PendingMintView>, BridgeError>(BridgeError::InvalidRequest),
        ),
{
}

/// No double activate: once a patch is activated, a fresh approval by any
/// authorized voter fails with `InvalidRequest` and changes nothing.
pub proof fn lemma_no_double_activate(s: StateModel, caller: Seq<char>, patch_hash: Seq<char>)
    requires
        !s.paused,
        spec_effective_weight(s, caller) > 0,
        !s.processed.contains(ReplayKeyView::HotSwapVote { patch_hash, voter: caller }),
        s.hotswap_patches.contains_key(patch_hash),
        s.hotswap_patches[patch_hash].activated,
    ensures
        spec_approve_hot_swap(s, caller, patch_hash) == (
            s,
            Err::<Option<crate::actions::PendingActivationView>, BridgeError>(
                BridgeError::InvalidRequest,
            ),
        ),
{
}

/// Atomicity under outside-call failure, mint side: the approval that
/// would cross the threshold changes nothing and only hands back a pending
/// ticket.  If the mint call on the synthetic-asset contract then fails,
/// the ticket is dropped, the state still equals `s` — the vote mark
/// included — and the identical approval can be retried later.
pub proof fn lemma_atomic_pending_mint(s: StateModel, caller: Seq<char>, request_id: Seq<char>)
    ensures
        ({
            let (s1, r) = spec_approve_mint(s, caller, request_id);
            match r {
                Ok(Some(_)) => s1 == s,
                _ => true,
            }
        }),
{
}

/// Atomicity under outside-call failure, upgrade side: the approval that
/// would cross the threshold changes nothing and only hands back a pending
/// ticket; a failed capability hand-over therefore leaves the patch
/// non-activated and the approval retriable.
pub proof fn lemma_atomic_pending_activation(
    s: StateModel,
    caller: Seq<char>,
    patch_hash: Seq<char>,
)
    ensures
        ({
            let (s1, r) = spec_approve_hot_swap(s, caller, patch_hash);
            match r {
                Ok(Some(_)) => s1 == s,
                _ => true,
            }
        }),
{
}

} // verus!

