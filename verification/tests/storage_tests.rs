//! Tests for the typed repositories, the replay ledger and the guardian
//! table.

use bridge_core::dict::{read_dictionary_value, write_dictionary_value, Dictionary};
use bridge_core::storage::{
    get_guardian_weight, is_tx_processed, mark_tx_processed, read_active_patch, read_apr_bps,
    read_threshold, save_guardians, write_active_patch, write_base_config, ReplayKey,
};
use bridge_core::types::{Guardian, VaultPosition};

fn s(x: &str) -> String {
    x.to_string()
}

#[test]
fn dictionary_reads_last_write() {
    let mut dict: Dictionary<VaultPosition> = Dictionary::new();
    assert!(read_dictionary_value(&dict, &s("a")).is_none());
    write_dictionary_value(&mut dict, s("a"), VaultPosition { principal: 1, last_accrual_ms: 0 });
    write_dictionary_value(&mut dict, s("b"), VaultPosition { principal: 2, last_accrual_ms: 0 });
    write_dictionary_value(&mut dict, s("a"), VaultPosition { principal: 3, last_accrual_ms: 9 });
    assert_eq!(
        read_dictionary_value(&dict, &s("a")),
        Some(&VaultPosition { principal: 3, last_accrual_ms: 9 })
    );
    assert_eq!(
        read_dictionary_value(&dict, &s("b")),
        Some(&VaultPosition { principal: 2, last_accrual_ms: 0 })
    );
    assert!(read_dictionary_value(&dict, &s("c")).is_none());
}

#[test]
fn replay_ledger_namespaces_are_disjoint() {
    let mut state = bridge_core::actions::init(s("admin"), vec![], 1, 0);
    let action = ReplayKey::Action { tx_id: s("x") };
    let unlock_vote = ReplayKey::UnlockVote { request_id: s("x"), voter: s("v") };
    let mint_vote = ReplayKey::MintVote { request_id: s("x"), voter: s("v") };
    let swap_vote = ReplayKey::HotSwapVote { patch_hash: s("x"), voter: s("v") };
    mark_tx_processed(&mut state, unlock_vote);
    assert!(!is_tx_processed(&state, &action));
    assert!(!is_tx_processed(&state, &mint_vote));
    assert!(!is_tx_processed(&state, &swap_vote));
    assert!(is_tx_processed(
        &state,
        &ReplayKey::UnlockVote { request_id: s("x"), voter: s("v") },
    ));
    // Marking twice is a no-op, not an error.
    mark_tx_processed(&mut state, ReplayKey::Action { tx_id: s("x") });
    mark_tx_processed(&mut state, ReplayKey::Action { tx_id: s("x") });
    assert!(is_tx_processed(&state, &action));
}

#[test]
fn later_guardian_entry_shadows_earlier() {
    let mut state = bridge_core::actions::init(
        s("admin"),
        vec![Guardian { key: s("g"), weight: 1 }, Guardian { key: s("g"), weight: 4 }],
        1,
        0,
    );
    assert_eq!(get_guardian_weight(&state, &s("g")), Some(4));
    save_guardians(&mut state, vec![Guardian { key: s("g"), weight: 2 }]);
    assert_eq!(get_guardian_weight(&state, &s("g")), Some(2));
    // Weight zero is recorded but is equivalent to not being a guardian.
    save_guardians(&mut state, vec![Guardian { key: s("h"), weight: 0 }]);
    assert_eq!(get_guardian_weight(&state, &s("h")), Some(0));
}

#[test]
fn base_config_rewrite_resets_active_patch() {
    let mut state = bridge_core::actions::init(s("admin"), vec![], 1, 0);
    write_active_patch(&mut state, s("patch-9"));
    assert_eq!(read_active_patch(&state), Some(s("patch-9")));
    write_base_config(&mut state, 3, 250, true);
    assert_eq!(read_threshold(&state), 3);
    assert_eq!(read_apr_bps(&state), 250);
    assert_eq!(read_active_patch(&state), Some(String::new()));
}
