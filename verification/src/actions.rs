//! The engine's operations.
//!
//! Every operation takes the state it works on, the caller identity and —
//! where time matters — the current time in milliseconds, and returns a
//! `Result`.  A failing call leaves the state exactly as it was: the
//! contract of each operation equates the outcome with a pure transition
//! function on the abstract [`StateModel`], and every transition returns
//! the unchanged model alongside an error.
//!
//! Finalize effects that need an outside contract call (issuing a mint,
//! handing the upgrade capabilities over) are split in two: the approval
//! that crosses the threshold changes nothing and hands back a pending
//! ticket, and a second operation commits the effect once the hosting
//! environment reports that the outside call succeeded.  If that call
//! fails, the ticket is dropped and no trace of the vote remains.

use crate::dict::{read_dictionary_value, write_dictionary_value, Dictionary};
use crate::events::{
    events_view, BridgeEvent, Burned, EventView, HotSwapActivated, HotSwapProposed, Locked,
    PauseChanged, UnlockFinalized, UnlockRequested, YieldAccrued,
};
use crate::storage::{
    get_guardian_weight, is_paused, is_tx_processed, mark_tx_processed, read_apr_bps,
    read_threshold, write_active_patch, BridgeState, ReplayKey, ReplayKeyView, StateModel,
};
use crate::types::{
    BridgeConfig, BridgeError, Guardian, HotSwapPatch, PatchView, RequestView, UnlockRequest,
    VaultPosition,
};
use crate::utils::{
    compute_yield, sat_add, sat_add_u32, spec_sat_add, spec_sat_add_u32, spec_yield_sat,
};
use vstd::prelude::*;

verus! {

// ---------------------------------------------------------------------
// Shared pieces
// ---------------------------------------------------------------------
/// The weight a caller's approval carries: an administrator's approval is
/// a unilateral override worth the whole threshold, a guardian's is its
/// configured weight, anyone else's is zero.
pub open spec fn spec_effective_weight(s: StateModel, caller: Seq<char>) -> u32 {
    if caller == s.admin {
        s.threshold as u32
    } else if s.guardian_weights.contains_key(caller) {
        s.guardian_weights[caller] as u32
    } else {
        0
    }
}

fn effective_weight(state: &BridgeState, caller: &String) -> (w: u32)
    ensures
        w == spec_effective_weight(state@, caller@),
{
    if *caller == state.config.admin {
        read_threshold(state) as u32
    } else {
        match get_guardian_weight(state, caller) {
            Some(w) => w as u32,
            None => 0,
        }
    }
}

/// A field-by-field copy of a stored request.
fn clone_request(r: &UnlockRequest) -> (c: UnlockRequest)
    ensures
        c == *r,
{
    UnlockRequest {
        id: r.id.clone(),
        recipient: r.recipient.clone(),
        amount: r.amount,
        src_chain: r.src_chain.clone(),
        dst_chain: r.dst_chain.clone(),
        timestamp_ms: r.timestamp_ms,
        finalized: r.finalized,
        approvals_weight: r.approvals_weight,
    }
}

/// A field-by-field copy of a stored patch.
fn clone_patch(p: &HotSwapPatch) -> (c: HotSwapPatch)
    ensures
        c == *p,
{
    HotSwapPatch {
        patch_hash: p.patch_hash.clone(),
        proposer: p.proposer.clone(),
        approved_weight: p.approved_weight,
        activated: p.activated,
    }
}

// ---------------------------------------------------------------------
// Initialization
// ---------------------------------------------------------------------
/// The state `init` hands back.
pub open spec fn spec_init(
    admin: Seq<char>,
    guardians: Seq<Guardian>,
    threshold: u16,
    base_apr_bps: u16,
) -> StateModel {
    StateModel {
        admin,
        threshold,
        base_apr_bps,
        paused: false,
        guardian_weights: crate::storage::guardian_weights(guardians),
        processed: Set::empty(),
        balances: Map::empty(),
        unlock_requests: Map::empty(),
        mint_requests: Map::empty(),
        hotswap_patches: Map::empty(),
        active_patch: Some(Seq::<char>::empty()),
        ceeth_token: None,
        events: Seq::empty(),
    }
}

/// Sets up a fresh engine: the administrator, the guardian-weight table,
/// the approval threshold and the base rate.  Nothing is paused, nothing
/// has been processed, and the active-patch slot holds the empty
/// reference.
pub fn init(admin: String, guardians: Vec<Guardian>, threshold: u16, base_apr_bps: u16) -> (state:
    BridgeState)
    ensures
        state@ == spec_init(admin@, guardians@, threshold, base_apr_bps),
{
    let state = BridgeState {
        config: BridgeConfig { admin, threshold, base_apr_bps, paused: false },
        guardians,
        processed: Vec::new(),
        balances: Dictionary::new(),
        unlock_requests: Dictionary::new(),
        mint_requests: Dictionary::new(),
        hotswap_patches: Dictionary::new(),
        active_patch: Some(String::new()),
        ceeth_token: None,
        events: Vec::new(),
    };
    proof {
        assert(crate::storage::processed_set(state.processed@) =~= Set::<ReplayKeyView>::empty());
        assert(events_view(state.events@) =~= Seq::<EventView>::empty());
        assert(state@ =~= spec_init(
            state.config.admin@,
            state.guardians@,
            threshold,
            base_apr_bps,
        ));
    }
    state
}

// ---------------------------------------------------------------------
// Accrual
// ---------------------------------------------------------------------
/// Reads (or lazily creates) an account's position and accrues interest up
/// to `now_ms`.  No elapsed time is a no-op; a clock regression is an
/// invariant violation.  The caller persists the returned position.
pub open spec fn spec_accrue_position(s: StateModel, account: Seq<char>, now_ms: u64) -> (
    StateModel,
    Result<VaultPosition, BridgeError>,
) {
    let pos = if s.balances.contains_key(account) {
        s.balances[account]
    } else {
        VaultPosition { principal: 0, last_accrual_ms: now_ms }
    };
    if now_ms < pos.last_accrual_ms {
        (s, Err(BridgeError::InvalidTimestamp))
    } else if now_ms == pos.last_accrual_ms {
        (s, Ok(pos))
    } else {
        let interest = spec_yield_sat(
            pos.principal,
            s.base_apr_bps,
            (now_ms - pos.last_accrual_ms) as u64,
        );
        let accrued = VaultPosition {
            principal: spec_sat_add(pos.principal, interest),
            last_accrual_ms: now_ms,
        };
        let post = StateModel {
            events: s.events.push(
                EventView::YieldAccrued { account, principal_after: accrued.principal },
            ),
            ..s
        };
        (post, Ok(accrued))
    }
}

/// Accrues interest on `account`'s position and returns the updated
/// position without persisting it.  Emits a yield notification whenever
/// time has elapsed.
fn accrue_position(state: &mut BridgeState, account: &String, now_ms: u64) -> (result: Result<
    VaultPosition,
    BridgeError,
>)
    ensures
        ({
            let (post, r) = spec_accrue_position(old(state)@, account@, now_ms);
            final(state)@ == post && result == r
        }),
{
    let pos: VaultPosition = match read_dictionary_value(&state.balances, account) {
        Some(p) => *p,
        None => VaultPosition { principal: 0, last_accrual_ms: now_ms },
    };
    if now_ms < pos.last_accrual_ms {
        return Err(BridgeError::InvalidTimestamp);
    }
    if now_ms == pos.last_accrual_ms {
        return Ok(pos);
    }
    let delta: u64 = now_ms - pos.last_accrual_ms;
    let interest: u128 = compute_yield(pos.principal, read_apr_bps(state), delta);
    let accrued = VaultPosition {
        principal: sat_add(pos.principal, interest),
        last_accrual_ms: now_ms,
    };
    crate::events::emit(
        &mut state.events,
        BridgeEvent::YieldAccrued(
            YieldAccrued { account: account.clone(), principal_after: accrued.principal },
        ),
    );
    proof {
        assert(state@ =~= spec_accrue_position(old(state)@, account@, now_ms).0);
    }
    Ok(accrued)
}

/// Persists an account's position.
fn save_position(state: &mut BridgeState, account: &String, pos: VaultPosition)
    ensures
        final(state)@ == (StateModel {
            balances: old(state)@.balances.insert(account@, pos),
            ..old(state)@
        }),
{
    write_dictionary_value(&mut state.balances, account.clone(), pos);
    proof {
        assert(state@ =~= (StateModel {
            balances: old(state)@.balances.insert(account@, pos),
            ..old(state)@
        }));
    }
}

/// Reads an account's position with interest accrued up to `now_ms`.  The
/// accrued position is reported, not persisted; it is written back the
/// next time the principal changes.
pub fn get_position(state: &mut BridgeState, account: &String, now_ms: u64) -> (result: Result<
    VaultPosition,
    BridgeError,
>)
    ensures
        ({
            let (post, r) = spec_accrue_position(old(state)@, account@, now_ms);
            final(state)@ == post && result == r
        }),
{
    accrue_position(state, account, now_ms)
}

// ---------------------------------------------------------------------
// Locking value into custody
// ---------------------------------------------------------------------
/// The transition of [`lock`].
pub open spec fn spec_lock(
    s: StateModel,
    caller: Seq<char>,
    now_ms: u64,
    amount: u128,
    dst_chain: Seq<char>,
    tx_id: Seq<char>,
) -> (StateModel, Result<(), BridgeError>) {
    if s.paused {
        (s, Err(BridgeError::Paused))
    } else if amount == 0 {
        (s, Err(BridgeError::InvalidAmount))
    } else if s.processed.contains(ReplayKeyView::Action { tx_id }) {
        (s, Err(BridgeError::TxAlreadyProcessed))
    } else {
        let (s1, r) = spec_accrue_position(s, caller, now_ms);
        match r {
            Err(e) => (s, Err(e)),
            Ok(pos) => {
                let credited = VaultPosition {
                    principal: spec_sat_add(pos.principal, amount),
                    last_accrual_ms: pos.last_accrual_ms,
                };
                let post = StateModel {
                    balances: s1.balances.insert(caller, credited),
                    processed: s1.processed.insert(ReplayKeyView::Action { tx_id }),
                    events: s1.events.push(
                        EventView::Locked { sender: caller, amount, dst_chain, tx_id },
                    ),
                    ..s1
                };
                (post, Ok(()))
            },
        }
    }
}

/// Locks `amount` into the caller's interest-bearing position.  Fails when
/// paused, on a zero amount, on a replayed transaction id, or on a clock
/// regression; otherwise accrues the position first, then credits it,
/// consumes the transaction id and emits a lock notification.
pub fn lock(
    state: &mut BridgeState,
    caller: String,
    now_ms: u64,
    amount: u128,
    dst_chain: String,
    tx_id: String,
) -> (result: Result<(), BridgeError>)
    ensures
        ({
            let (post, r) = spec_lock(old(state)@, caller@, now_ms, amount, dst_chain@, tx_id@);
            final(state)@ == post && result == r
        }),
{
    if is_paused(state) {
        return Err(BridgeError::Paused);
    }
    if amount == 0 {
        return Err(BridgeError::InvalidAmount);
    }
    let action_key = ReplayKey::Action { tx_id: tx_id.clone() };
    if is_tx_processed(state, &action_key) {
        return Err(BridgeError::TxAlreadyProcessed);
    }
    let ghost caller_view = caller@;
    let ghost dst_view = dst_chain@;
    let ghost tx_view = tx_id@;
    let pos = match accrue_position(state, &caller, now_ms) {
        Ok(p) => p,
        Err(e) => {
            return Err(e);
        },
    };
    let credited = VaultPosition {
        principal: sat_add(pos.principal, amount),
        last_accrual_ms: pos.last_accrual_ms,
    };
    save_position(state, &caller, credited);
    mark_tx_processed(state, action_key);
    crate::events::emit(
        &mut state.events,
        BridgeEvent::Locked(Locked { sender: caller, amount, dst_chain, tx_id }),
    );
    proof {
        assert(state@ =~= spec_lock(old(state)@, caller_view, now_ms, amount, dst_view, tx_view).0);
    }
    Ok(())
}

// ---------------------------------------------------------------------
// Unlock requests
// ---------------------------------------------------------------------
/// The transition of [`create_unlock_request`].
pub open spec fn spec_create_unlock_request(
    s: StateModel,
    now_ms: u64,
    request_id: Seq<char>,
    recipient: Seq<char>,
    amount: u128,
    src_chain: Seq<char>,
    dst_chain: Seq<char>,
) -> (StateModel, Result<(), BridgeError>) {
    if s.paused {
        (s, Err(BridgeError::Paused))
    } else if amount == 0 {
        (s, Err(BridgeError::InvalidAmount))
    } else if s.processed.contains(ReplayKeyView::Action { tx_id: request_id }) {
        (s, Err(BridgeError::TxAlreadyProcessed))
    } else {
        let req = RequestView {
            id: request_id,
            recipient,
            amount,
            src_chain,
            dst_chain,
            timestamp_ms: now_ms,
            finalized: false,
            approvals_weight: 0,
        };
        let post = StateModel {
            unlock_requests: s.unlock_requests.insert(request_id, req),
            events: s.events.push(
                EventView::UnlockRequested { request_id, recipient, amount, src_chain, dst_chain },
            ),
            ..s
        };
        (post, Ok(()))
    }
}

/// Opens a release request for weighted approval.  The request id is only
/// consumed at finalization, so creation fails on an id that was already
/// finalized (or used by a lock), and a still-open request with the same
/// id is simply overwritten.
pub fn create_unlock_request(
    state: &mut BridgeState,
    now_ms: u64,
    request_id: String,
    recipient: String,
    amount: u128,
    src_chain: String,
    dst_chain: String,
) -> (result: Result<(), BridgeError>)
    ensures
        ({
            let (post, r) = spec_create_unlock_request(
                old(state)@,
                now_ms,
                request_id@,
                recipient@,
                amount,
                src_chain@,
                dst_chain@,
            );
            final(state)@ == post && result == r
        }),
{
    if is_paused(state) {
        return Err(BridgeError::Paused);
    }
    if amount == 0 {
        return Err(BridgeError::InvalidAmount);
    }
    let action_key = ReplayKey::Action { tx_id: request_id.clone() };
    if is_tx_processed(state, &action_key) {
        return Err(BridgeError::TxAlreadyProcessed);
    }
    let ghost id_view = request_id@;
    let ghost recipient_view = recipient@;
    let ghost src_view = src_chain@;
    let ghost dst_view = dst_chain@;
    let req = UnlockRequest {
        id: request_id.clone(),
        recipient: recipient.clone(),
        amount,
        src_chain: src_chain.clone(),
        dst_chain: dst_chain.clone(),
        timestamp_ms: now_ms,
        finalized: false,
        approvals_weight: 0,
    };
    write_dictionary_value(&mut state.unlock_requests, request_id.clone(), req);
    crate::events::emit(
        &mut state.events,
        BridgeEvent::UnlockRequested(
            UnlockRequested { request_id, recipient, amount, src_chain, dst_chain },
        ),
    );
    proof {
        assert(state@ =~= spec_create_unlock_request(
            old(state)@,
            now_ms,
            id_view,
            recipient_view,
            amount,
            src_view,
            dst_view,
        ).0);
    }
    Ok(())
}

/// The transition of [`approve_unlock`].
pub open spec fn spec_approve_unlock(
    s: StateModel,
    caller: Seq<char>,
    now_ms: u64,
    request_id: Seq<char>,
) -> (StateModel, Result<(), BridgeError>) {
    if s.paused {
        (s, Err(BridgeError::Paused))
    } else {
        let w = spec_effective_weight(s, caller);
        if w == 0 {
            (s, Err(BridgeError::PermissionDenied))
        } else {
            let vote = ReplayKeyView::UnlockVote { request_id, voter: caller };
            if s.processed.contains(vote) {
                (s, Ok(()))
            } else if !s.unlock_requests.contains_key(request_id) {
                (s, Err(BridgeError::InvalidRequest))
            } else {
                let req = s.unlock_requests[request_id];
                if req.finalized {
                    (s, Err(BridgeError::InvalidRequest))
                } else {
                    let new_weight = spec_sat_add_u32(req.approvals_weight, w);
                    if new_weight >= s.threshold as u32 {
                        let (s1, r) = spec_accrue_position(s, req.recipient, now_ms);
                        match r {
                            Err(e) => (s, Err(e)),
                            Ok(pos) => {
                                let credited = VaultPosition {
                                    principal: spec_sat_add(pos.principal, req.amount),
                                    last_accrual_ms: pos.last_accrual_ms,
                                };
                                let done = RequestView {
                                    finalized: true,
                                    approvals_weight: new_weight,
                                    ..req
                                };
                                let post = StateModel {
                                    balances: s1.balances.insert(req.recipient, credited),
                                    processed: s1.processed.insert(vote).insert(
                                        ReplayKeyView::Action { tx_id: request_id },
                                    ),
                                    unlock_requests: s1.unlock_requests.insert(request_id, done),
                                    events: s1.events.push(
                                        EventView::UnlockFinalized {
                                            request_id: req.id,
                                            recipient: req.recipient,
                                            amount: req.amount,
                                        },
                                    ),
                                    ..s1
                                };
                                (post, Ok(()))
                            },
                        }
                    } else {
                        let bumped = RequestView { approvals_weight: new_weight, ..req };
                        let post = StateModel {
                            processed: s.processed.insert(vote),
                            unlock_requests: s.unlock_requests.insert(request_id, bumped),
                            ..s
                        };
                        (post, Ok(()))
                    }
                }
            }
        }
    }
}

/// Casts the caller's weighted approval on a release request.  A repeated
/// approval by the same voter succeeds without changing anything.  The
/// approval that first pushes the accumulated weight to the threshold
/// finalizes the request in the same call: the recipient's position is
/// accrued and credited with the request's amount, the request id is
/// consumed, and a finalization notification is emitted.
pub fn approve_unlock(
    state: &mut BridgeState,
    caller: String,
    now_ms: u64,
    request_id: String,
) -> (result: Result<(), BridgeError>)
    ensures
        ({
            let (post, r) = spec_approve_unlock(old(state)@, caller@, now_ms, request_id@);
            final(state)@ == post && result == r
        }),
{
    if is_paused(state) {
        return Err(BridgeError::Paused);
    }
    let w = effective_weight(state, &caller);
    if w == 0 {
        return Err(BridgeError::PermissionDenied);
    }
    let ghost caller_view = caller@;
    let vote_key = ReplayKey::UnlockVote { request_id: request_id.clone(), voter: caller };
    if is_tx_processed(state, &vote_key) {
        return Ok(());
    }
    let req = match read_dictionary_value(&state.unlock_requests, &request_id) {
        Some(r) => clone_request(r),
        None => {
            return Err(BridgeError::InvalidRequest);
        },
    };
    if req.finalized {
        return Err(BridgeError::InvalidRequest);
    }
    let ghost id_view = request_id@;
    let new_weight = sat_add_u32(req.approvals_weight, w);
    if new_weight >= read_threshold(state) as u32 {
        let pos = match accrue_position(state, &req.recipient, now_ms) {
            Ok(p) => p,
            Err(e) => {
                return Err(e);
            },
        };
        let credited = VaultPosition {
            principal: sat_add(pos.principal, req.amount),
            last_accrual_ms: pos.last_accrual_ms,
        };
        save_position(state, &req.recipient, credited);
        mark_tx_processed(state, vote_key);
        mark_tx_processed(state, ReplayKey::Action { tx_id: request_id.clone() });
        let done = UnlockRequest { finalized: true, approvals_weight: new_weight, ..clone_request(
            &req,
        ) };
        crate::events::emit(
            &mut state.events,
            BridgeEvent::UnlockFinalized(
                UnlockFinalized {
                    request_id: req.id.clone(),
                    recipient: req.recipient.clone(),
                    amount: req.amount,
                },
            ),
        );
        write_dictionary_value(&mut state.unlock_requests, request_id, done);
        proof {
            assert(state@ =~= spec_approve_unlock(old(state)@, caller_view, now_ms, id_view).0);
        }
        Ok(())
    } else {
        mark_tx_processed(state, vote_key);
        let bumped = UnlockRequest { approvals_weight: new_weight, ..req };
        write_dictionary_value(&mut state.unlock_requests, request_id, bumped);
        proof {
            assert(state@ =~= spec_approve_unlock(old(state)@, caller_view, now_ms, id_view).0);
        }
        Ok(())
    }
}

// ---------------------------------------------------------------------
// Synthetic-asset mint requests
// ---------------------------------------------------------------------
/// Handed back when a mint approval crosses the threshold: the hosting
/// environment must issue the mint on the linked synthetic-asset contract
/// and, only if that call succeeds, commit it with [`finalize_ceeth_mint`].
#[derive(Debug, PartialEq, Eq)]
pub struct PendingMint {
    pub request_id: String,
    pub voter: String,
}

/// The view of a [`PendingMint`].
pub struct PendingMintView {
    pub request_id: Seq<char>,
    pub voter: Seq<char>,
}

impl View for PendingMint {
    type V = PendingMintView;

    open spec fn view(&self) -> PendingMintView {
        PendingMintView { request_id: self.request_id@, voter: self.voter@ }
    }
}

/// The transition of [`create_ceeth_mint_request`].
pub open spec fn spec_create_mint_request(
    s: StateModel,
    now_ms: u64,
    request_id: Seq<char>,
    recipient: Seq<char>,
    amount: u128,
    src_chain: Seq<char>,
    dst_chain: Seq<char>,
) -> (StateModel, Result<(), BridgeError>) {
    if s.paused {
        (s, Err(BridgeError::Paused))
    } else if amount == 0 {
        (s, Err(BridgeError::InvalidAmount))
    } else if s.processed.contains(ReplayKeyView::Action { tx_id: request_id }) {
        (s, Err(BridgeError::TxAlreadyProcessed))
    } else {
        let req = RequestView {
            id: request_id,
            recipient,
            amount,
            src_chain,
            dst_chain,
            timestamp_ms: now_ms,
            finalized: false,
            approvals_weight: 0,
        };
        let post = StateModel {
            mint_requests: s.mint_requests.insert(request_id, req),
            events: s.events.push(
                EventView::MintRequested { request_id, recipient, amount, src_chain, dst_chain },
            ),
            ..s
        };
        (post, Ok(()))
    }
}

/// Opens a synthetic-asset mint request for weighted approval.  Shares the
/// global action-id namespace with locks and unlock requests.
pub fn create_ceeth_mint_request(
    state: &mut BridgeState,
    now_ms: u64,
    request_id: String,
    recipient: String,
    amount: u128,
    src_chain: String,
    dst_chain: String,
) -> (result: Result<(), BridgeError>)
    ensures
        ({
            let (post, r) = spec_create_mint_request(
                old(state)@,
                now_ms,
                request_id@,
                recipient@,
                amount,
                src_chain@,
                dst_chain@,
            );
            final(state)@ == post && result == r
        }),
{
    if is_paused(state) {
        return Err(BridgeError::Paused);
    }
    if amount == 0 {
        return Err(BridgeError::InvalidAmount);
    }
    let action_key = ReplayKey::Action { tx_id: request_id.clone() };
    if is_tx_processed(state, &action_key) {
        return Err(BridgeError::TxAlreadyProcessed);
    }
    let ghost id_view = request_id@;
    let ghost recipient_view = recipient@;
    let ghost src_view = src_chain@;
    let ghost dst_view = dst_chain@;
    let req = UnlockRequest {
        id: request_id.clone(),
        recipient: recipient.clone(),
        amount,
        src_chain: src_chain.clone(),
        dst_chain: dst_chain.clone(),
        timestamp_ms: now_ms,
        finalized: false,
        approvals_weight: 0,
    };
    write_dictionary_value(&mut state.mint_requests, request_id.clone(), req);
    crate::events::emit(
        &mut state.events,
        BridgeEvent::MintRequested(
            UnlockRequested { request_id, recipient, amount, src_chain, dst_chain },
        ),
    );
    proof {
        assert(state@ =~= spec_create_mint_request(
            old(state)@,
            now_ms,
            id_view,
            recipient_view,
            amount,
            src_view,
            dst_view,
        ).0);
    }
    Ok(())
}

/// The transition of [`approve_ceeth_mint`].
pub open spec fn spec_approve_mint(s: StateModel, caller: Seq<char>, request_id: Seq<char>) -> (
    StateModel,
    Result<Option<PendingMintView>, BridgeError>,
) {
    if s.paused {
        (s, Err(BridgeError::Paused))
    } else {
        let w = spec_effective_weight(s, caller);
        if w == 0 {
            (s, Err(BridgeError::PermissionDenied))
        } else {
            let vote = ReplayKeyView::MintVote { request_id, voter: caller };
            if s.processed.contains(vote) {
                (s, Ok(None))
            } else if !s.mint_requests.contains_key(request_id) {
                (s, Err(BridgeError::InvalidRequest))
            } else {
                let req = s.mint_requests[request_id];
                if req.finalized {
                    (s, Err(BridgeError::InvalidRequest))
                } else {
                    let new_weight = spec_sat_add_u32(req.approvals_weight, w);
                    if new_weight >= s.threshold as u32 {
                        if s.ceeth_token is None {
                            (s, Err(BridgeError::TokenNotSet))
                        } else {
                            (s, Ok(Some(PendingMintView { request_id, voter: caller })))
                        }
                    } else {
                        let bumped = RequestView { approvals_weight: new_weight, ..req };
                        let post = StateModel {
                            processed: s.processed.insert(vote),
                            mint_requests: s.mint_requests.insert(request_id, bumped),
                            ..s
                        };
                        (post, Ok(None))
                    }
                }
            }
        }
    }
}

/// Casts the caller's weighted approval on a mint request.  An approval
/// below the threshold is recorded at once; the approval that would cross
/// it changes nothing and returns a [`PendingMint`] instead, to be
/// committed with [`finalize_ceeth_mint`] after the mint call on the
/// synthetic-asset contract succeeded.  If that outside call fails, the
/// ticket is simply dropped and the identical approval can be retried.
pub fn approve_ceeth_mint(state: &mut BridgeState, caller: String, request_id: String) -> (result:
    Result<Option<PendingMint>, BridgeError>)
    ensures
        ({
            let (post, r) = spec_approve_mint(old(state)@, caller@, request_id@);
            final(state)@ == post && (match result {
                Ok(Some(p)) => r == Ok::<Option<PendingMintView>, BridgeError>(Some(p@)),
                Ok(None) => r == Ok::<Option<PendingMintView>, BridgeError>(None),
                Err(e) => r == Err::<Option<PendingMintView>, BridgeError>(e),
            })
        }),
{
    if is_paused(state) {
        return Err(BridgeError::Paused);
    }
    let w = effective_weight(state, &caller);
    if w == 0 {
        return Err(BridgeError::PermissionDenied);
    }
    let ghost caller_view = caller@;
    let vote_key = ReplayKey::MintVote {
        request_id: request_id.clone(),
        voter: caller.clone(),
    };
    if is_tx_processed(state, &vote_key) {
        return Ok(None);
    }
    let req = match read_dictionary_value(&state.mint_requests, &request_id) {
        Some(r) => clone_request(r),
        None => {
            return Err(BridgeError::InvalidRequest);
        },
    };
    if req.finalized {
        return Err(BridgeError::InvalidRequest);
    }
    let ghost id_view = request_id@;
    let new_weight = sat_add_u32(req.approvals_weight, w);
    if new_weight >= read_threshold(state) as u32 {
        if state.ceeth_token.is_none() {
            return Err(BridgeError::TokenNotSet);
        }
        Ok(Some(PendingMint { request_id, voter: caller }))
    } else {
        mark_tx_processed(state, vote_key);
        let bumped = UnlockRequest { approvals_weight: new_weight, ..req };
        write_dictionary_value(&mut state.mint_requests, request_id, bumped);
        proof {
            assert(state@ =~= spec_approve_mint(old(state)@, caller_view, id_view).0);
        }
        Ok(None)
    }
}

/// The transition of [`finalize_ceeth_mint`].
pub open spec fn spec_finalize_mint(s: StateModel, request_id: Seq<char>, voter: Seq<char>) -> (
    StateModel,
    Result<(), BridgeError>,
) {
    if s.paused {
        (s, Err(BridgeError::Paused))
    } else {
        let w = spec_effective_weight(s, voter);
        if w == 0 {
            (s, Err(BridgeError::PermissionDenied))
        } else {
            let vote = ReplayKeyView::MintVote { request_id, voter };
            if s.processed.contains(vote) {
                (s, Err(BridgeError::InvalidRequest))
            } else if !s.mint_requests.contains_key(request_id) {
                (s, Err(BridgeError::InvalidRequest))
            } else {
                let req = s.mint_requests[request_id];
                if req.finalized {
                    (s, Err(BridgeError::InvalidRequest))
                } else {
                    let new_weight = spec_sat_add_u32(req.approvals_weight, w);
                    if new_weight < s.threshold as u32 {
                        (s, Err(BridgeError::InvalidRequest))
                    } else {
                        let done = RequestView {
                            finalized: true,
                            approvals_weight: new_weight,
                            ..req
                        };
                        let post = StateModel {
                            processed: s.processed.insert(vote).insert(
                                ReplayKeyView::Action { tx_id: request_id },
                            ),
                            mint_requests: s.mint_requests.insert(request_id, done),
                            events: s.events.push(
                                EventView::MintFinalized {
                                    request_id: req.id,
                                    recipient: req.recipient,
                                    amount: req.amount,
                                },
                            ),
                            ..s
                        };
                        (post, Ok(()))
                    }
                }
            }
        }
    }
}

/// Commits a threshold-crossing mint approval after the outside mint call
/// succeeded: consumes the vote and the request id, marks the request
/// finalized and emits the finalization notification.  Fails — changing
/// nothing — unless the pending ticket still describes exactly the vote
/// that would cross the threshold.
pub fn finalize_ceeth_mint(state: &mut BridgeState, pending: PendingMint) -> (result: Result<
    (),
    BridgeError,
>)
    ensures
        ({
            let (post, r) = spec_finalize_mint(old(state)@, pending.request_id@, pending.voter@);
            final(state)@ == post && result == r
        }),
{
    let PendingMint { request_id, voter } = pending;
    if is_paused(state) {
        return Err(BridgeError::Paused);
    }
    let w = effective_weight(state, &voter);
    if w == 0 {
        return Err(BridgeError::PermissionDenied);
    }
    let ghost id_view = request_id@;
    let ghost voter_view = voter@;
    let vote_key = ReplayKey::MintVote { request_id: request_id.clone(), voter };
    if is_tx_processed(state, &vote_key) {
        return Err(BridgeError::InvalidRequest);
    }
    let req = match read_dictionary_value(&state.mint_requests, &request_id) {
        Some(r) => clone_request(r),
        None => {
            return Err(BridgeError::InvalidRequest);
        },
    };
    if req.finalized {
        return Err(BridgeError::InvalidRequest);
    }
    let new_weight = sat_add_u32(req.approvals_weight, w);
    if new_weight < read_threshold(state) as u32 {
        return Err(BridgeError::InvalidRequest);
    }
    mark_tx_processed(state, vote_key);
    mark_tx_processed(state, ReplayKey::Action { tx_id: request_id.clone() });
    let done = UnlockRequest { finalized: true, approvals_weight: new_weight, ..clone_request(
        &req,
    ) };
    crate::events::emit(
        &mut state.events,
        BridgeEvent::MintFinalized(
            UnlockFinalized {
                request_id: req.id.clone(),
                recipient: req.recipient.clone(),
                amount: req.amount,
            },
        ),
    );
    write_dictionary_value(&mut state.mint_requests, request_id, done);
    proof {
        assert(state@ =~= spec_finalize_mint(old(state)@, id_view, voter_view).0);
    }
    Ok(())
}

// ---------------------------------------------------------------------
// Hot-swap governance
// ---------------------------------------------------------------------
/// Handed back when a hot-swap approval crosses the threshold: the hosting
/// environment must hand the package identifier and the access token to
/// the upgrade target named by the patch and, only if that call succeeds,
/// commit the activation with [`activate_hot_swap`].
#[derive(Debug, PartialEq, Eq)]
pub struct PendingActivation {
    pub patch_hash: String,
    pub voter: String,
}

/// The view of a [`PendingActivation`].
pub struct PendingActivationView {
    pub patch_hash: Seq<char>,
    pub voter: Seq<char>,
}

impl View for PendingActivation {
    type V = PendingActivationView;

    open spec fn view(&self) -> PendingActivationView {
        PendingActivationView { patch_hash: self.patch_hash@, voter: self.voter@ }
    }
}

/// The transition of [`propose_hot_swap`].
pub open spec fn spec_propose_hot_swap(s: StateModel, caller: Seq<char>, patch_hash: Seq<char>) -> (
    StateModel,
    Result<(), BridgeError>,
) {
    if caller != s.admin {
        (s, Err(BridgeError::PermissionDenied))
    } else if s.paused {
        (s, Err(BridgeError::Paused))
    } else if patch_hash.len() == 0 {
        (s, Err(BridgeError::InvalidRequest))
    } else if s.hotswap_patches.contains_key(patch_hash) && s.hotswap_patches[patch_hash].activated {
        (s, Err(BridgeError::InvalidRequest))
    } else {
        let patch = PatchView { patch_hash, proposer: caller, approved_weight: 0, activated: false };
        let post = StateModel {
            hotswap_patches: s.hotswap_patches.insert(patch_hash, patch),
            events: s.events.push(EventView::HotSwapProposed { patch_hash, proposer: caller }),
            ..s
        };
        (post, Ok(()))
    }
}

/// Proposes a hot-swap patch (administrator only).  A still-open proposal
/// under the same reference is overwritten and its votes reset; an
/// activated one is immutable, so re-proposing it fails.
pub fn propose_hot_swap(state: &mut BridgeState, caller: String, patch_hash: String) -> (result:
    Result<(), BridgeError>)
    ensures
        ({
            let (post, r) = spec_propose_hot_swap(old(state)@, caller@, patch_hash@);
            final(state)@ == post && result == r
        }),
{
    if !is_admin(state, &caller) {
        return Err(BridgeError::PermissionDenied);
    }
    if is_paused(state) {
        return Err(BridgeError::Paused);
    }
    if patch_hash.as_str().is_empty() {
        return Err(BridgeError::InvalidRequest);
    }
    match read_dictionary_value(&state.hotswap_patches, &patch_hash) {
        Some(p) => {
            if p.activated {
                return Err(BridgeError::InvalidRequest);
            }
        },
        None => {},
    }
    let ghost caller_view = caller@;
    let ghost hash_view = patch_hash@;
    let patch = HotSwapPatch {
        patch_hash: patch_hash.clone(),
        proposer: caller.clone(),
        approved_weight: 0,
        activated: false,
    };
    write_dictionary_value(&mut state.hotswap_patches, patch_hash.clone(), patch);
    crate::events::emit(
        &mut state.events,
        BridgeEvent::HotSwapProposed(HotSwapProposed { patch_hash, proposer: caller }),
    );
    proof {
        assert(state@ =~= spec_propose_hot_swap(old(state)@, caller_view, hash_view).0);
    }
    Ok(())
}

/// The transition of [`approve_hot_swap`].
pub open spec fn spec_approve_hot_swap(s: StateModel, caller: Seq<char>, patch_hash: Seq<char>) -> (
    StateModel,
    Result<Option<PendingActivationView>, BridgeError>,
) {
    if s.paused {
        (s, Err(BridgeError::Paused))
    } else {
        let w = spec_effective_weight(s, caller);
        if w == 0 {
            (s, Err(BridgeError::PermissionDenied))
        } else {
            let vote = ReplayKeyView::HotSwapVote { patch_hash, voter: caller };
            if s.processed.contains(vote) {
                (s, Ok(None))
            } else if !s.hotswap_patches.contains_key(patch_hash) {
                (s, Err(BridgeError::InvalidRequest))
            } else {
                let patch = s.hotswap_patches[patch_hash];
                if patch.activated {
                    (s, Err(BridgeError::InvalidRequest))
                } else {
                    let new_weight = spec_sat_add_u32(patch.approved_weight, w);
                    if new_weight >= s.threshold as u32 {
                        (s, Ok(Some(PendingActivationView { patch_hash, voter: caller })))
                    } else {
                        let bumped = PatchView { approved_weight: new_weight, ..patch };
                        let post = StateModel {
                            processed: s.processed.insert(vote),
                            hotswap_patches: s.hotswap_patches.insert(patch_hash, bumped),
                            ..s
                        };
                        (post, Ok(None))
                    }
                }
            }
        }
    }
}

/// Casts the caller's weighted approval on a hot-swap patch.  An approval
/// below the threshold is recorded at once; the approval that would cross
/// it changes nothing and returns a [`PendingActivation`] instead, to be
/// committed with [`activate_hot_swap`] once the upgrade capabilities were
/// handed over successfully.  If that outside call fails, the ticket is
/// dropped and the identical approval can be retried.
pub fn approve_hot_swap(state: &mut BridgeState, caller: String, patch_hash: String) -> (result:
    Result<Option<PendingActivation>, BridgeError>)
    ensures
        ({
            let (post, r) = spec_approve_hot_swap(old(state)@, caller@, patch_hash@);
            final(state)@ == post && (match result {
                Ok(Some(p)) => r == Ok::<Option<PendingActivationView>, BridgeError>(Some(p@)),
                Ok(None) => r == Ok::<Option<PendingActivationView>, BridgeError>(None),
                Err(e) => r == Err::<Option<PendingActivationView>, BridgeError>(e),
            })
        }),
{
    if is_paused(state) {
        return Err(BridgeError::Paused);
    }
    let w = effective_weight(state, &caller);
    if w == 0 {
        return Err(BridgeError::PermissionDenied);
    }
    let ghost caller_view = caller@;
    let vote_key = ReplayKey::HotSwapVote {
        patch_hash: patch_hash.clone(),
        voter: caller.clone(),
    };
    if is_tx_processed(state, &vote_key) {
        return Ok(None);
    }
    let patch = match read_dictionary_value(&state.hotswap_patches, &patch_hash) {
        Some(p) => clone_patch(p),
        None => {
            return Err(BridgeError::InvalidRequest);
        },
    };
    if patch.activated {
        return Err(BridgeError::InvalidRequest);
    }
    let ghost hash_view = patch_hash@;
    let new_weight = sat_add_u32(patch.approved_weight, w);
    if new_weight >= read_threshold(state) as u32 {
        Ok(Some(PendingActivation { patch_hash, voter: caller }))
    } else {
        mark_tx_processed(state, vote_key);
        let bumped = HotSwapPatch { approved_weight: new_weight, ..patch };
        write_dictionary_value(&mut state.hotswap_patches, patch_hash, bumped);
        proof {
            assert(state@ =~= spec_approve_hot_swap(old(state)@, caller_view, hash_view).0);
        }
        Ok(None)
    }
}

/// The transition of [`activate_hot_swap`].
pub open spec fn spec_activate_hot_swap(s: StateModel, patch_hash: Seq<char>, voter: Seq<char>) -> (
    StateModel,
    Result<(), BridgeError>,
) {
    if s.paused {
        (s, Err(BridgeError::Paused))
    } else {
        let w = spec_effective_weight(s, voter);
        if w == 0 {
            (s, Err(BridgeError::PermissionDenied))
        } else {
            let vote = ReplayKeyView::HotSwapVote { patch_hash, voter };
            if s.processed.contains(vote) {
                (s, Err(BridgeError::InvalidRequest))
            } else if !s.hotswap_patches.contains_key(patch_hash) {
                (s, Err(BridgeError::InvalidRequest))
            } else {
                let patch = s.hotswap_patches[patch_hash];
                if patch.activated {
                    (s, Err(BridgeError::InvalidRequest))
                } else {
                    let new_weight = spec_sat_add_u32(patch.approved_weight, w);
                    if new_weight < s.threshold as u32 {
                        (s, Err(BridgeError::InvalidRequest))
                    } else {
                        let done = PatchView {
                            approved_weight: new_weight,
                            activated: true,
                            ..patch
                        };
                        let post = StateModel {
                            processed: s.processed.insert(vote),
                            hotswap_patches: s.hotswap_patches.insert(patch_hash, done),
                            active_patch: Some(patch.patch_hash),
                            events: s.events.push(
                                EventView::HotSwapActivated { patch_hash: patch.patch_hash },
                            ),
                            ..s
                        };
                        (post, Ok(()))
                    }
                }
            }
        }
    }
}

/// Commits a threshold-crossing hot-swap approval after the upgrade
/// capabilities were handed over: consumes the vote, marks the patch
/// activated, overwrites the single active-patch slot and emits the
/// activation notification.  Fails — changing nothing — unless the pending
/// ticket still describes exactly the vote that would cross the threshold.
pub fn activate_hot_swap(state: &mut BridgeState, pending: PendingActivation) -> (result: Result<
    (),
    BridgeError,
>)
    ensures
        ({
            let (post, r) = spec_activate_hot_swap(
                old(state)@,
                pending.patch_hash@,
                pending.voter@,
            );
            final(state)@ == post && result == r
        }),
{
    let PendingActivation { patch_hash, voter } = pending;
    if is_paused(state) {
        return Err(BridgeError::Paused);
    }
    let w = effective_weight(state, &voter);
    if w == 0 {
        return Err(BridgeError::PermissionDenied);
    }
    let ghost hash_view = patch_hash@;
    let ghost voter_view = voter@;
    let vote_key = ReplayKey::HotSwapVote { patch_hash: patch_hash.clone(), voter };
    if is_tx_processed(state, &vote_key) {
        return Err(BridgeError::InvalidRequest);
    }
    let patch = match read_dictionary_value(&state.hotswap_patches, &patch_hash) {
        Some(p) => clone_patch(p),
        None => {
            return Err(BridgeError::InvalidRequest);
        },
    };
    if patch.activated {
        return Err(BridgeError::InvalidRequest);
    }
    let new_weight = sat_add_u32(patch.approved_weight, w);
    if new_weight < read_threshold(state) as u32 {
        return Err(BridgeError::InvalidRequest);
    }
    mark_tx_processed(state, vote_key);
    write_active_patch(state, patch.patch_hash.clone());
    crate::events::emit(
        &mut state.events,
        BridgeEvent::HotSwapActivated(HotSwapActivated { patch_hash: patch.patch_hash.clone() }),
    );
    let done = HotSwapPatch { approved_weight: new_weight, activated: true, ..clone_patch(&patch) };
    write_dictionary_value(&mut state.hotswap_patches, patch_hash, done);
    proof {
        assert(state@ =~= spec_activate_hot_swap(old(state)@, hash_view, voter_view).0);
    }
    Ok(())
}

// ---------------------------------------------------------------------
// Synthetic-asset redemption
// ---------------------------------------------------------------------
/// Handed back when a redemption passes all checks: the hosting
/// environment must burn the synthetic asset on the linked contract and,
/// only if that call succeeds, commit the redemption with [`commit_burn`].
#[derive(Debug, PartialEq, Eq)]
pub struct BurnTicket {
    pub owner: String,
    pub amount: u128,
    pub tx_id: String,
    pub eth_owner: String,
}

/// The view of a [`BurnTicket`].
pub struct BurnTicketView {
    pub owner: Seq<char>,
    pub amount: u128,
    pub tx_id: Seq<char>,
    pub eth_owner: Seq<char>,
}

impl View for BurnTicket {
    type V = BurnTicketView;

    open spec fn view(&self) -> BurnTicketView {
        BurnTicketView {
            owner: self.owner@,
            amount: self.amount,
            tx_id: self.tx_id@,
            eth_owner: self.eth_owner@,
        }
    }
}

/// The checks of [`burn_ceeth_for_eth`]: what a redemption must pass
/// before the synthetic asset may be burned.
pub open spec fn spec_burn_checks(
    s: StateModel,
    caller: Seq<char>,
    amount: u128,
    tx_id: Seq<char>,
    eth_owner: Seq<char>,
) -> Result<BurnTicketView, BridgeError> {
    if s.paused {
        Err(BridgeError::Paused)
    } else if amount == 0 {
        Err(BridgeError::InvalidAmount)
    } else if s.ceeth_token is None {
        Err(BridgeError::TokenNotSet)
    } else if s.processed.contains(ReplayKeyView::Action { tx_id }) {
        Err(BridgeError::TxAlreadyProcessed)
    } else {
        Ok(BurnTicketView { owner: caller, amount, tx_id, eth_owner })
    }
}

/// Validates a redemption of the synthetic asset back to its external
/// owner.  Changes nothing: on success it hands back a [`BurnTicket`] for
/// the hosting environment to burn against, committed afterwards with
/// [`commit_burn`].
pub fn burn_ceeth_for_eth(
    state: &BridgeState,
    caller: String,
    amount: u128,
    tx_id: String,
    eth_owner: String,
) -> (result: Result<BurnTicket, BridgeError>)
    ensures
        match result {
            Ok(t) => spec_burn_checks(state@, caller@, amount, tx_id@, eth_owner@) == Ok::<
                BurnTicketView,
                BridgeError,
            >(t@),
            Err(e) => spec_burn_checks(state@, caller@, amount, tx_id@, eth_owner@) == Err::<
                BurnTicketView,
                BridgeError,
            >(e),
        },
{
    if is_paused(state) {
        return Err(BridgeError::Paused);
    }
    if amount == 0 {
        return Err(BridgeError::InvalidAmount);
    }
    if state.ceeth_token.is_none() {
        return Err(BridgeError::TokenNotSet);
    }
    let action_key = ReplayKey::Action { tx_id: tx_id.clone() };
    if is_tx_processed(state, &action_key) {
        return Err(BridgeError::TxAlreadyProcessed);
    }
    Ok(BurnTicket { owner: caller, amount, tx_id, eth_owner })
}

/// The transition of [`commit_burn`].
pub open spec fn spec_commit_burn(
    s: StateModel,
    owner: Seq<char>,
    amount: u128,
    tx_id: Seq<char>,
    eth_owner: Seq<char>,
) -> (StateModel, Result<(), BridgeError>) {
    if s.processed.contains(ReplayKeyView::Action { tx_id }) {
        (s, Err(BridgeError::TxAlreadyProcessed))
    } else {
        let post = StateModel {
            processed: s.processed.insert(ReplayKeyView::Action { tx_id }),
            events: s.events.push(EventView::Burned { owner, amount, tx_id, eth_owner }),
            ..s
        };
        (post, Ok(()))
    }
}

/// Commits a validated redemption after the outside burn call succeeded:
/// consumes the transaction id and emits the burn notification.
pub fn commit_burn(state: &mut BridgeState, ticket: BurnTicket) -> (result: Result<
    (),
    BridgeError,
>)
    ensures
        ({
            let (post, r) = spec_commit_burn(
                old(state)@,
                ticket.owner@,
                ticket.amount,
                ticket.tx_id@,
                ticket.eth_owner@,
            );
            final(state)@ == post && result == r
        }),
{
    let BurnTicket { owner, amount, tx_id, eth_owner } = ticket;
    let action_key = ReplayKey::Action { tx_id: tx_id.clone() };
    if is_tx_processed(state, &action_key) {
        return Err(BridgeError::TxAlreadyProcessed);
    }
    let ghost owner_view = owner@;
    let ghost tx_view = tx_id@;
    let ghost eth_view = eth_owner@;
    mark_tx_processed(state, action_key);
    crate::events::emit(
        &mut state.events,
        BridgeEvent::Burned(Burned { owner, amount, tx_id, eth_owner }),
    );
    proof {
        assert(state@ =~= spec_commit_burn(old(state)@, owner_view, amount, tx_view, eth_view).0);
    }
    Ok(())
}

// ---------------------------------------------------------------------
// Administration
// ---------------------------------------------------------------------
/// Whether the caller is the administrator.
pub fn is_admin(state: &BridgeState, caller: &String) -> (r: bool)
    ensures
        r == (caller@ == state@.admin),
{
    *caller == state.config.admin
}

/// The transition of [`set_pause`].
pub open spec fn spec_set_pause(s: StateModel, caller: Seq<char>, paused: bool) -> (
    StateModel,
    Result<(), BridgeError>,
) {
    if caller != s.admin {
        (s, Err(BridgeError::PermissionDenied))
    } else {
        let post = StateModel {
            paused,
            events: s.events.push(EventView::PauseChanged { paused }),
            ..s
        };
        (post, Ok(()))
    }
}

/// Pauses or resumes the engine (administrator only).
pub fn set_pause(state: &mut BridgeState, caller: &String, paused: bool) -> (result: Result<
    (),
    BridgeError,
>)
    ensures
        ({
            let (post, r) = spec_set_pause(old(state)@, caller@, paused);
            final(state)@ == post && result == r
        }),
{
    if !is_admin(state, caller) {
        return Err(BridgeError::PermissionDenied);
    }
    crate::storage::set_paused(state, paused);
    crate::events::emit(
        &mut state.events,
        BridgeEvent::PauseChanged(PauseChanged { paused }),
    );
    proof {
        assert(state@ =~= spec_set_pause(old(state)@, caller@, paused).0);
    }
    Ok(())
}

/// The transition of [`update_apr`].
pub open spec fn spec_update_apr(s: StateModel, caller: Seq<char>, new_apr_bps: u16) -> (
    StateModel,
    Result<(), BridgeError>,
) {
    if caller != s.admin {
        (s, Err(BridgeError::PermissionDenied))
    } else {
        (StateModel { base_apr_bps: new_apr_bps, ..s }, Ok(()))
    }
}

/// Updates the base annual rate (administrator only).  Interest accrued
/// from here on uses the new rate; positions keep what they already
/// accrued.
pub fn update_apr(state: &mut BridgeState, caller: &String, new_apr_bps: u16) -> (result: Result<
    (),
    BridgeError,
>)
    ensures
        ({
            let (post, r) = spec_update_apr(old(state)@, caller@, new_apr_bps);
            final(state)@ == post && result == r
        }),
{
    if !is_admin(state, caller) {
        return Err(BridgeError::PermissionDenied);
    }
    state.config.base_apr_bps = new_apr_bps;
    proof {
        assert(state@ =~= spec_update_apr(old(state)@, caller@, new_apr_bps).0);
    }
    Ok(())
}

/// The transition of [`transfer_admin`].
pub open spec fn spec_transfer_admin(s: StateModel, caller: Seq<char>, new_admin: Seq<char>) -> (
    StateModel,
    Result<(), BridgeError>,
) {
    if caller != s.admin {
        (s, Err(BridgeError::PermissionDenied))
    } else {
        (StateModel { admin: new_admin, ..s }, Ok(()))
    }
}

/// Hands the administrator role to another identity (administrator only).
pub fn transfer_admin(state: &mut BridgeState, caller: &String, new_admin: String) -> (result:
    Result<(), BridgeError>)
    ensures
        ({
            let (post, r) = spec_transfer_admin(old(state)@, caller@, new_admin@);
            final(state)@ == post && result == r
        }),
{
    if !is_admin(state, caller) {
        return Err(BridgeError::PermissionDenied);
    }
    crate::storage::set_admin(state, new_admin);
    Ok(())
}

/// The transition of [`set_ceeth_token`].
pub open spec fn spec_set_ceeth_token(s: StateModel, caller: Seq<char>, token: Seq<char>) -> (
    StateModel,
    Result<(), BridgeError>,
) {
    if caller != s.admin {
        (s, Err(BridgeError::PermissionDenied))
    } else {
        (StateModel { ceeth_token: Some(token), ..s }, Ok(()))
    }
}

/// Links the synthetic-asset contract that mints and burns are issued on
/// (administrator only).
pub fn set_ceeth_token(state: &mut BridgeState, caller: &String, token: String) -> (result: Result<
    (),
    BridgeError,
>)
    ensures
        ({
            let (post, r) = spec_set_ceeth_token(old(state)@, caller@, token@);
            final(state)@ == post && result == r
        }),
{
    if !is_admin(state, caller) {
        return Err(BridgeError::PermissionDenied);
    }
    let ghost token_view = token@;
    state.ceeth_token = Some(token);
    proof {
        assert(state@ =~= spec_set_ceeth_token(old(state)@, caller@, token_view).0);
    }
    Ok(())
}

/// The synthetic-asset contract reference, if one was linked.
pub fn get_ceeth_token(state: &BridgeState) -> (r: Option<String>)
    ensures
        match r {
            Some(t) => state@.ceeth_token == Some(t@),
            None => state@.ceeth_token is None,
        },
{
    match &state.ceeth_token {
        Some(t) => Some(t.clone()),
        None => None,
    }
}

} // verus!
