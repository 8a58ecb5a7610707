//! End-to-end scenarios on the settlement engine: locking and accrual,
//! weighted approvals with replay protection, threshold crossing,
//! finalize-once, and the two-phase finalizes that guard outside calls.

use bridge_core::actions::{
    approve_ceeth_mint, approve_hot_swap, approve_unlock, burn_ceeth_for_eth, commit_burn,
    create_ceeth_mint_request, create_unlock_request, finalize_ceeth_mint, get_ceeth_token,
    get_position, init, lock, propose_hot_swap, set_ceeth_token, set_pause, transfer_admin,
    update_apr, PendingActivation, PendingMint,
};
use bridge_core::actions::activate_hot_swap;
use bridge_core::dict::read_dictionary_value;
use bridge_core::events::BridgeEvent;
use bridge_core::storage::{
    get_admin, get_guardian_weight, is_paused, is_tx_processed, read_active_patch, read_apr_bps,
    read_threshold, BridgeState, ReplayKey,
};
use bridge_core::types::{BridgeError, Guardian, VaultPosition};
use bridge_core::utils::MS_PER_YEAR;

fn s(x: &str) -> String {
    x.to_string()
}

fn guardian(key: &str, weight: u8) -> Guardian {
    Guardian { key: s(key), weight }
}

/// Threshold 2, 5% base rate, two weight-1 guardians and a heavy one.
fn fresh() -> BridgeState {
    init(
        s("admin"),
        vec![guardian("g1", 1), guardian("g2", 1), guardian("g3", 3)],
        2,
        500,
    )
}

#[test]
fn init_configures_everything() {
    let state = fresh();
    assert_eq!(get_admin(&state), s("admin"));
    assert_eq!(read_threshold(&state), 2);
    assert_eq!(read_apr_bps(&state), 500);
    assert!(!is_paused(&state));
    assert_eq!(read_active_patch(&state), Some(String::new()));
    assert_eq!(get_guardian_weight(&state, &s("g1")), Some(1));
    assert_eq!(get_guardian_weight(&state, &s("g3")), Some(3));
    assert_eq!(get_guardian_weight(&state, &s("nobody")), None);
    assert_eq!(get_ceeth_token(&state), None);
}

#[test]
fn lock_credits_position_and_accrues() {
    let mut state = fresh();
    let t0: u64 = 1_000;
    assert_eq!(lock(&mut state, s("alice"), t0, 1_000, s("eth"), s("tx1")), Ok(()));
    let pos = get_position(&mut state, &s("alice"), t0).unwrap();
    assert_eq!(pos, VaultPosition { principal: 1_000, last_accrual_ms: t0 });

    // Half a year later the 5% rate has earned 25.
    let later = t0 + MS_PER_YEAR / 2;
    let pos = get_position(&mut state, &s("alice"), later).unwrap();
    assert_eq!(pos.principal, 1_025);
    assert_eq!(pos.last_accrual_ms, later);
}

#[test]
fn lock_rejects_bad_inputs() {
    let mut state = fresh();
    assert_eq!(
        lock(&mut state, s("alice"), 5, 0, s("eth"), s("tx1")),
        Err(BridgeError::InvalidAmount)
    );
    assert_eq!(lock(&mut state, s("alice"), 5, 10, s("eth"), s("tx1")), Ok(()));
    // Replayed transaction id.
    assert_eq!(
        lock(&mut state, s("alice"), 6, 10, s("eth"), s("tx1")),
        Err(BridgeError::TxAlreadyProcessed)
    );
    // Paused engine.
    assert_eq!(set_pause(&mut state, &s("admin"), true), Ok(()));
    assert_eq!(
        lock(&mut state, s("alice"), 7, 10, s("eth"), s("tx2")),
        Err(BridgeError::Paused)
    );
}

#[test]
fn clock_regression_is_rejected() {
    let mut state = fresh();
    assert_eq!(lock(&mut state, s("alice"), 100, 10, s("eth"), s("tx1")), Ok(()));
    assert_eq!(
        get_position(&mut state, &s("alice"), 50),
        Err(BridgeError::InvalidTimestamp)
    );
    // Zero elapsed time is a silent no-op, not an error.
    assert_eq!(
        get_position(&mut state, &s("alice"), 100),
        Ok(VaultPosition { principal: 10, last_accrual_ms: 100 })
    );
}

#[test]
fn zero_rate_accrues_nothing() {
    let mut state = init(s("admin"), vec![], 1, 0);
    assert_eq!(lock(&mut state, s("alice"), 0, 1_000, s("eth"), s("tx1")), Ok(()));
    let pos = get_position(&mut state, &s("alice"), 10 * MS_PER_YEAR).unwrap();
    assert_eq!(pos.principal, 1_000);
}

fn open_request(state: &mut BridgeState, id: &str) {
    assert_eq!(
        create_unlock_request(state, 50, s(id), s("bob"), 700, s("eth"), s("cspr")),
        Ok(())
    );
}

fn request_weight(state: &BridgeState, id: &str) -> (u32, bool) {
    let req = read_dictionary_value(&state.unlock_requests, &s(id)).unwrap();
    (req.approvals_weight, req.finalized)
}

#[test]
fn idempotent_vote_changes_state_once() {
    let mut state = fresh();
    open_request(&mut state, "r1");
    assert_eq!(approve_unlock(&mut state, s("g1"), 60, s("r1")), Ok(()));
    assert_eq!(request_weight(&state, "r1"), (1, false));
    // The same voter again: success, nothing changes.
    assert_eq!(approve_unlock(&mut state, s("g1"), 61, s("r1")), Ok(()));
    assert_eq!(request_weight(&state, "r1"), (1, false));
}

#[test]
fn threshold_exactness_two_guardians() {
    let mut state = fresh();
    open_request(&mut state, "r1");
    assert_eq!(approve_unlock(&mut state, s("g1"), 60, s("r1")), Ok(()));
    assert_eq!(request_weight(&state, "r1"), (1, false));
    assert_eq!(approve_unlock(&mut state, s("g2"), 70, s("r1")), Ok(()));
    assert_eq!(request_weight(&state, "r1"), (2, true));
    // Finalization credited the recipient's position.
    let pos = get_position(&mut state, &s("bob"), 70).unwrap();
    assert_eq!(pos.principal, 700);
    // ... and consumed the request id.
    assert!(is_tx_processed(&state, &ReplayKey::Action { tx_id: s("r1") }));
}

#[test]
fn admin_approval_alone_finalizes() {
    let mut state = fresh();
    open_request(&mut state, "r1");
    assert_eq!(approve_unlock(&mut state, s("admin"), 60, s("r1")), Ok(()));
    assert_eq!(request_weight(&state, "r1"), (2, true));
}

#[test]
fn no_double_finalize() {
    let mut state = fresh();
    open_request(&mut state, "r1");
    assert_eq!(approve_unlock(&mut state, s("admin"), 60, s("r1")), Ok(()));
    // A fresh voter on the finalized request fails and changes nothing.
    assert_eq!(
        approve_unlock(&mut state, s("g1"), 61, s("r1")),
        Err(BridgeError::InvalidRequest)
    );
    assert_eq!(request_weight(&state, "r1"), (2, true));
    let pos = get_position(&mut state, &s("bob"), 61).unwrap();
    assert_eq!(pos.principal, 700);
}

#[test]
fn replay_rejection_after_finalize() {
    let mut state = fresh();
    open_request(&mut state, "r1");
    assert_eq!(approve_unlock(&mut state, s("admin"), 60, s("r1")), Ok(()));
    // The finalized id can never be used for another request.
    assert_eq!(
        create_unlock_request(&mut state, 80, s("r1"), s("carol"), 5, s("eth"), s("cspr")),
        Err(BridgeError::TxAlreadyProcessed)
    );
    // ... nor for a lock.
    assert_eq!(
        lock(&mut state, s("alice"), 80, 5, s("eth"), s("r1")),
        Err(BridgeError::TxAlreadyProcessed)
    );
}

#[test]
fn approval_rights_are_checked() {
    let mut state = fresh();
    open_request(&mut state, "r1");
    assert_eq!(
        approve_unlock(&mut state, s("nobody"), 60, s("r1")),
        Err(BridgeError::PermissionDenied)
    );
    assert_eq!(
        approve_unlock(&mut state, s("g1"), 60, s("missing")),
        Err(BridgeError::InvalidRequest)
    );
}

#[test]
fn heavy_guardian_finalizes_alone() {
    let mut state = fresh();
    open_request(&mut state, "r1");
    // g3 carries weight 3 >= threshold 2.
    assert_eq!(approve_unlock(&mut state, s("g3"), 60, s("r1")), Ok(()));
    assert_eq!(request_weight(&state, "r1"), (3, true));
}

#[test]
fn mint_two_phase_finalize() {
    let mut state = fresh();
    assert_eq!(set_ceeth_token(&mut state, &s("admin"), s("ceeth-contract")), Ok(()));
    assert_eq!(
        create_ceeth_mint_request(&mut state, 50, s("m1"), s("bob"), 900, s("eth"), s("cspr")),
        Ok(())
    );
    assert_eq!(approve_ceeth_mint(&mut state, s("g1"), s("m1")), Ok(None));

    // The crossing approval hands back a ticket and changes nothing.
    let pending = approve_ceeth_mint(&mut state, s("g2"), s("m1")).unwrap().unwrap();
    assert_eq!(pending.request_id, s("m1"));
    assert_eq!(pending.voter, s("g2"));
    let req = read_dictionary_value(&state.mint_requests, &s("m1")).unwrap();
    assert_eq!((req.approvals_weight, req.finalized), (1, false));
    assert!(!is_tx_processed(
        &state,
        &ReplayKey::MintVote { request_id: s("m1"), voter: s("g2") },
    ));

    // Suppose the outside mint call failed: the ticket is dropped, and the
    // identical approval succeeds again later.
    drop(pending);
    let pending = approve_ceeth_mint(&mut state, s("g2"), s("m1")).unwrap().unwrap();

    // This time the mint call succeeded; commit it.
    assert_eq!(finalize_ceeth_mint(&mut state, pending), Ok(()));
    let req = read_dictionary_value(&state.mint_requests, &s("m1")).unwrap();
    assert_eq!((req.approvals_weight, req.finalized), (2, true));
    assert!(is_tx_processed(&state, &ReplayKey::Action { tx_id: s("m1") }));

    // Committing the same vote twice fails.
    let stale = PendingMint { request_id: s("m1"), voter: s("g2") };
    assert_eq!(finalize_ceeth_mint(&mut state, stale), Err(BridgeError::InvalidRequest));
}

#[test]
fn mint_needs_a_linked_token() {
    let mut state = fresh();
    assert_eq!(
        create_ceeth_mint_request(&mut state, 50, s("m1"), s("bob"), 900, s("eth"), s("cspr")),
        Ok(())
    );
    // The crossing approval cannot go out without a linked contract.
    assert_eq!(
        approve_ceeth_mint(&mut state, s("admin"), s("m1")),
        Err(BridgeError::TokenNotSet)
    );
    // Linking is the administrator's call alone.
    assert_eq!(
        set_ceeth_token(&mut state, &s("g1"), s("ceeth-contract")),
        Err(BridgeError::PermissionDenied)
    );
    assert_eq!(set_ceeth_token(&mut state, &s("admin"), s("ceeth-contract")), Ok(()));
    assert_eq!(get_ceeth_token(&state), Some(s("ceeth-contract")));
    let pending = approve_ceeth_mint(&mut state, s("admin"), s("m1")).unwrap().unwrap();
    assert_eq!(finalize_ceeth_mint(&mut state, pending), Ok(()));
}

#[test]
fn hot_swap_two_phase_activation() {
    let mut state = fresh();
    assert_eq!(
        propose_hot_swap(&mut state, s("g1"), s("patch-1")),
        Err(BridgeError::PermissionDenied)
    );
    assert_eq!(
        propose_hot_swap(&mut state, s("admin"), String::new()),
        Err(BridgeError::InvalidRequest)
    );
    assert_eq!(propose_hot_swap(&mut state, s("admin"), s("patch-1")), Ok(()));

    assert_eq!(approve_hot_swap(&mut state, s("g1"), s("patch-1")), Ok(None));
    let pending = approve_hot_swap(&mut state, s("g2"), s("patch-1")).unwrap().unwrap();
    assert_eq!(pending.patch_hash, s("patch-1"));
    // Nothing is activated until the capability hand-over succeeded.
    assert_eq!(read_active_patch(&state), Some(String::new()));

    assert_eq!(activate_hot_swap(&mut state, pending), Ok(()));
    assert_eq!(read_active_patch(&state), Some(s("patch-1")));
    let patch = read_dictionary_value(&state.hotswap_patches, &s("patch-1")).unwrap();
    assert!(patch.activated);
    assert_eq!(patch.approved_weight, 2);

    // Once activated: no further approval, no re-activation, no
    // re-proposal under the same reference.
    assert_eq!(
        approve_hot_swap(&mut state, s("g3"), s("patch-1")),
        Err(BridgeError::InvalidRequest)
    );
    let stale = PendingActivation { patch_hash: s("patch-1"), voter: s("g3") };
    assert_eq!(activate_hot_swap(&mut state, stale), Err(BridgeError::InvalidRequest));
    assert_eq!(
        propose_hot_swap(&mut state, s("admin"), s("patch-1")),
        Err(BridgeError::InvalidRequest)
    );
}

#[test]
fn reproposing_an_open_patch_resets_votes() {
    let mut state = fresh();
    assert_eq!(propose_hot_swap(&mut state, s("admin"), s("patch-1")), Ok(()));
    assert_eq!(approve_hot_swap(&mut state, s("g1"), s("patch-1")), Ok(None));
    assert_eq!(propose_hot_swap(&mut state, s("admin"), s("patch-1")), Ok(()));
    let patch = read_dictionary_value(&state.hotswap_patches, &s("patch-1")).unwrap();
    assert_eq!(patch.approved_weight, 0);
}

#[test]
fn burn_two_phase_commit() {
    let mut state = fresh();
    assert_eq!(
        burn_ceeth_for_eth(&state, s("alice"), 10, s("b1"), s("0xeth")),
        Err(BridgeError::TokenNotSet)
    );
    assert_eq!(set_ceeth_token(&mut state, &s("admin"), s("ceeth-contract")), Ok(()));
    assert_eq!(
        burn_ceeth_for_eth(&state, s("alice"), 0, s("b1"), s("0xeth")),
        Err(BridgeError::InvalidAmount)
    );
    let ticket = burn_ceeth_for_eth(&state, s("alice"), 10, s("b1"), s("0xeth")).unwrap();
    assert_eq!(ticket.owner, s("alice"));
    assert_eq!(commit_burn(&mut state, ticket), Ok(()));
    // The id is consumed for burns and for every other action.
    assert_eq!(
        burn_ceeth_for_eth(&state, s("alice"), 10, s("b1"), s("0xeth")),
        Err(BridgeError::TxAlreadyProcessed)
    );
    assert_eq!(
        lock(&mut state, s("alice"), 5, 10, s("eth"), s("b1")),
        Err(BridgeError::TxAlreadyProcessed)
    );
}

#[test]
fn administration_is_gated() {
    let mut state = fresh();
    assert_eq!(update_apr(&mut state, &s("g1"), 800), Err(BridgeError::PermissionDenied));
    assert_eq!(update_apr(&mut state, &s("admin"), 800), Ok(()));
    assert_eq!(read_apr_bps(&state), 800);

    assert_eq!(set_pause(&mut state, &s("g1"), true), Err(BridgeError::PermissionDenied));
    assert_eq!(set_pause(&mut state, &s("admin"), true), Ok(()));
    assert!(is_paused(&state));
    assert_eq!(set_pause(&mut state, &s("admin"), false), Ok(()));

    assert_eq!(
        transfer_admin(&mut state, &s("g1"), s("g1")),
        Err(BridgeError::PermissionDenied)
    );
    assert_eq!(transfer_admin(&mut state, &s("admin"), s("admin2")), Ok(()));
    assert_eq!(get_admin(&state), s("admin2"));
    // The old administrator lost its rights, the new one has them.
    assert_eq!(update_apr(&mut state, &s("admin"), 100), Err(BridgeError::PermissionDenied));
    assert_eq!(update_apr(&mut state, &s("admin2"), 100), Ok(()));
}

#[test]
fn paused_engine_rejects_votes() {
    let mut state = fresh();
    open_request(&mut state, "r1");
    assert_eq!(set_pause(&mut state, &s("admin"), true), Ok(()));
    assert_eq!(approve_unlock(&mut state, s("g1"), 60, s("r1")), Err(BridgeError::Paused));
    assert_eq!(
        create_unlock_request(&mut state, 61, s("r2"), s("bob"), 1, s("eth"), s("cspr")),
        Err(BridgeError::Paused)
    );
}

#[test]
fn notifications_are_appended_in_order() {
    let mut state = fresh();
    assert_eq!(lock(&mut state, s("alice"), 0, 1_000, s("eth"), s("tx1")), Ok(()));
    // Accrue half a year later by locking again: yield first, then the lock.
    assert_eq!(
        lock(&mut state, s("alice"), MS_PER_YEAR / 2, 5, s("eth"), s("tx2")),
        Ok(())
    );
    assert_eq!(state.events.len(), 3);
    assert!(matches!(&state.events[0], BridgeEvent::Locked(e) if e.amount == 1_000));
    assert!(
        matches!(&state.events[1], BridgeEvent::YieldAccrued(e) if e.principal_after == 1_025)
    );
    assert!(matches!(&state.events[2], BridgeEvent::Locked(e) if e.amount == 5));
    let pos = get_position(&mut state, &s("alice"), MS_PER_YEAR / 2).unwrap();
    assert_eq!(pos.principal, 1_030);
}

#[test]
fn finalize_accrual_failure_rolls_back_vote() {
    let mut state = fresh();
    // The recipient's position was last accrued at t=100.
    assert_eq!(lock(&mut state, s("bob"), 100, 10, s("eth"), s("tb")), Ok(()));
    open_request(&mut state, "r1");
    // A finalizing approval at t=60 would regress bob's clock: the whole
    // call fails and even the vote mark is rolled back.
    assert_eq!(
        approve_unlock(&mut state, s("admin"), 60, s("r1")),
        Err(BridgeError::InvalidTimestamp)
    );
    assert_eq!(request_weight(&state, "r1"), (0, false));
    assert!(!is_tx_processed(
        &state,
        &ReplayKey::UnlockVote { request_id: s("r1"), voter: s("admin") },
    ));
    // Later, the identical approval goes through.
    assert_eq!(approve_unlock(&mut state, s("admin"), 200, s("r1")), Ok(()));
    assert_eq!(request_weight(&state, "r1"), (2, true));
    let pos = get_position(&mut state, &s("bob"), 200).unwrap();
    assert_eq!(pos.principal, 710);
}
