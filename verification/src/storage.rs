//! The engine's state: typed repositories for every entity, the replay
//! ledger, and the abstract model that all contracts are stated over.

use crate::dict::Dictionary;
use crate::events::{events_view, BridgeEvent, EventView};
use crate::types::{
    BridgeConfig, Guardian, HotSwapPatch, PatchView, RequestView, UnlockRequest, VaultPosition,
};
use vstd::prelude::*;

verus! {

/// A consumed identifier in the replay ledger.  Action ids and per-voter
/// vote keys live in namespaces that are disjoint by construction, one per
/// kind of subject.
#[derive(Clone, Debug)]
pub enum ReplayKey {
    Action { tx_id: String },
    UnlockVote { request_id: String, voter: String },
    MintVote { request_id: String, voter: String },
    HotSwapVote { patch_hash: String, voter: String },
}

/// The view of a [`ReplayKey`].
pub enum ReplayKeyView {
    Action { tx_id: Seq<char> },
    UnlockVote { request_id: Seq<char>, voter: Seq<char> },
    MintVote { request_id: Seq<char>, voter: Seq<char> },
    HotSwapVote { patch_hash: Seq<char>, voter: Seq<char> },
}

impl View for ReplayKey {
    type V = ReplayKeyView;

    open spec fn view(&self) -> ReplayKeyView {
        match self {
            ReplayKey::Action { tx_id } => ReplayKeyView::Action { tx_id: tx_id@ },
            ReplayKey::UnlockVote { request_id, voter } => ReplayKeyView::UnlockVote {
                request_id: request_id@,
                voter: voter@,
            },
            ReplayKey::MintVote { request_id, voter } => ReplayKeyView::MintVote {
                request_id: request_id@,
                voter: voter@,
            },
            ReplayKey::HotSwapVote { patch_hash, voter } => ReplayKeyView::HotSwapVote {
                patch_hash: patch_hash@,
                voter: voter@,
            },
        }
    }
}

impl ReplayKey {
    /// Equality of two keys at the level of their views.
    pub fn key_eq(&self, other: &ReplayKey) -> (r: bool)
        ensures
            r == (self@ == other@),
    {
        match (self, other) {
            (ReplayKey::Action { tx_id: a }, ReplayKey::Action { tx_id: b }) => *a == *b,
            (
                ReplayKey::UnlockVote { request_id: a, voter: va },
                ReplayKey::UnlockVote { request_id: b, voter: vb },
            ) => *a == *b && *va == *vb,
            (
                ReplayKey::MintVote { request_id: a, voter: va },
                ReplayKey::MintVote { request_id: b, voter: vb },
            ) => *a == *b && *va == *vb,
            (
                ReplayKey::HotSwapVote { patch_hash: a, voter: va },
                ReplayKey::HotSwapVote { patch_hash: b, voter: vb },
            ) => *a == *b && *va == *vb,
            _ => false,
        }
    }
}

/// The set of key views a ledger holds.
pub open spec fn processed_set(keys: Seq<ReplayKey>) -> Set<ReplayKeyView> {
    Set::new(|k: ReplayKeyView| exists|i: int| 0 <= i < keys.len() && keys[i]@ == k)
}

/// The map from guardian identity to weight described by a setup sequence;
/// a later entry for the same identity shadows an earlier one.
pub open spec fn guardian_weights(gs: Seq<Guardian>) -> Map<Seq<char>, u8>
    decreases gs.len(),
{
    if gs.len() == 0 {
        Map::empty()
    } else {
        guardian_weights(gs.drop_last()).insert(gs.last().key@, gs.last().weight)
    }
}

/// Folding one more setup sequence into a weight map.
pub open spec fn insert_weights(m: Map<Seq<char>, u8>, gs: Seq<Guardian>) -> Map<Seq<char>, u8>
    decreases gs.len(),
{
    if gs.len() == 0 {
        m
    } else {
        insert_weights(m, gs.drop_last()).insert(gs.last().key@, gs.last().weight)
    }
}

/// The whole engine state.  The hosting environment owns exactly one value
/// of this type per deployment, loads it at the start of an invocation and
/// commits it — all of it or none of it — at the end.
pub struct BridgeState {
    pub config: BridgeConfig,
    pub guardians: Vec<Guardian>,
    pub processed: Vec<ReplayKey>,
    pub balances: Dictionary<VaultPosition>,
    pub unlock_requests: Dictionary<UnlockRequest>,
    pub mint_requests: Dictionary<UnlockRequest>,
    pub hotswap_patches: Dictionary<HotSwapPatch>,
    pub active_patch: Option<String>,
    pub ceeth_token: Option<String>,
    pub events: Vec<BridgeEvent>,
}

/// The abstract state every contract is stated over.
#[verifier::ext_equal]
pub struct StateModel {
    pub admin: Seq<char>,
    pub threshold: u16,
    pub base_apr_bps: u16,
    pub paused: bool,
    pub guardian_weights: Map<Seq<char>, u8>,
    pub processed: Set<ReplayKeyView>,
    pub balances: Map<Seq<char>, VaultPosition>,
    pub unlock_requests: Map<Seq<char>, RequestView>,
    pub mint_requests: Map<Seq<char>, RequestView>,
    pub hotswap_patches: Map<Seq<char>, PatchView>,
    pub active_patch: Option<Seq<char>>,
    pub ceeth_token: Option<Seq<char>>,
    pub events: Seq<EventView>,
}

impl View for BridgeState {
    type V = StateModel;

    open spec fn view(&self) -> StateModel {
        StateModel {
            admin: self.config.admin@,
            threshold: self.config.threshold,
            base_apr_bps: self.config.base_apr_bps,
            paused: self.config.paused,
            guardian_weights: guardian_weights(self.guardians@),
            processed: processed_set(self.processed@),
            balances: self.balances@,
            unlock_requests: self.unlock_requests@,
            mint_requests: self.mint_requests@,
            hotswap_patches: self.hotswap_patches@,
            active_patch: match self.active_patch {
                Some(ref h) => Some(h@),
                None => None,
            },
            ceeth_token: match self.ceeth_token {
                Some(ref t) => Some(t@),
                None => None,
            },
            events: events_view(self.events@),
        }
    }
}

/// Whether this key was already consumed.
pub fn is_tx_processed(state: &BridgeState, key: &ReplayKey) -> (b: bool)
    ensures
        b == state@.processed.contains(key@),
{
    let n: usize = state.processed.len();
    let mut i: usize = 0;
    while i < n
        invariant
            i <= n,
            n == state.processed@.len(),
            forall|j: int| 0 <= j < i ==> state.processed@[j]@ != key@,
        decreases n - i,
    {
        if state.processed[i].key_eq(key) {
            return true;
        }
        i = i + 1;
    }
    false
}

/// Consumes a key.  Marking a key twice is a no-op, not an error.
pub fn mark_tx_processed(state: &mut BridgeState, key: ReplayKey)
    ensures
        final(state)@ == (StateModel { processed: old(state)@.processed.insert(key@), ..old(
            state,
        )@ }),
{
    let ghost previous = state.processed@;
    let ghost key_view = key@;
    state.processed.push(key);
    proof {
        assert forall|k: ReplayKeyView|
            processed_set(state.processed@).contains(k) == processed_set(previous).insert(
                key_view,
            ).contains(k) by {
            if processed_set(previous).insert(key_view).contains(k) {
                if k == key_view {
                    assert(state.processed@[previous.len() as int]@ == k);
                } else {
                    let i = choose|i: int| 0 <= i < previous.len() && previous[i]@ == k;
                    assert(state.processed@[i]@ == k);
                }
            }
        }
        assert(processed_set(state.processed@) =~= processed_set(previous).insert(key_view));
        assert(state@ =~= (StateModel { processed: processed_set(previous).insert(key_view), ..old(
            state,
        )@ }));
    }
}

/// The administrator identity.
pub fn get_admin(state: &BridgeState) -> (r: String)
    ensures
        r@ == state@.admin,
{
    state.config.admin.clone()
}

/// Replaces the administrator identity.
pub fn set_admin(state: &mut BridgeState, admin: String)
    ensures
        final(state)@ == (StateModel { admin: admin@, ..old(state)@ }),
{
    state.config.admin = admin;
    proof {
        assert(state@ =~= (StateModel { admin: state.config.admin@, ..old(state)@ }));
    }
}

/// The weight of a guardian identity, or `None` for an unknown identity.
pub fn get_guardian_weight(state: &BridgeState, key: &String) -> (r: Option<u8>)
    ensures
        match r {
            Some(w) => state@.guardian_weights.contains_key(key@)
                && w == state@.guardian_weights[key@],
            None => !state@.guardian_weights.contains_key(key@),
        },
{
    let n: usize = state.guardians.len();
    let mut i: usize = n;
    proof {
        assert(state.guardians@.take(n as int) =~= state.guardians@);
    }
    while i > 0
        invariant
            i <= n,
            n == state.guardians@.len(),
            state@.guardian_weights.contains_key(key@) == guardian_weights(
                state.guardians@.take(i as int),
            ).contains_key(key@),
            guardian_weights(state.guardians@.take(i as int)).contains_key(key@)
                ==> state@.guardian_weights[key@] == guardian_weights(
                state.guardians@.take(i as int),
            )[key@],
        decreases i,
    {
        i = i - 1;
        proof {
            assert(state.guardians@.take(i as int + 1).drop_last() =~= state.guardians@.take(
                i as int,
            ));
            assert(state.guardians@.take(i as int + 1).last() == state.guardians@[i as int]);
        }
        if state.guardians[i].key == *key {
            return Some(state.guardians[i].weight);
        }
    }
    proof {
        assert(state.guardians@.take(0) =~= Seq::<Guardian>::empty());
    }
    None
}

/// Folding a concatenated setup sequence into a weight map factors through
/// the fold of its pieces.
proof fn lemma_guardian_weights_append(a: Seq<Guardian>, b: Seq<Guardian>)
    ensures
        guardian_weights(a + b) == insert_weights(guardian_weights(a), b),
    decreases b.len(),
{
    if b.len() == 0 {
        assert(a + b =~= a);
    } else {
        lemma_guardian_weights_append(a, b.drop_last());
        assert((a + b).drop_last() =~= a + b.drop_last());
        assert((a + b).last() == b.last());
    }
}

/// Records the weight of each listed guardian, in order; a later entry for
/// the same identity shadows an earlier one.
pub fn save_guardians(state: &mut BridgeState, guardians: Vec<Guardian>)
    ensures
        final(state)@ == (StateModel {
            guardian_weights: insert_weights(old(state)@.guardian_weights, guardians@),
            ..old(state)@
        }),
{
    let ghost previous = state.guardians@;
    let ghost added = guardians@;
    let mut guardians = guardians;
    state.guardians.append(&mut guardians);
    proof {
        lemma_guardian_weights_append(previous, added);
        assert(state@ =~= (StateModel {
            guardian_weights: insert_weights(guardian_weights(previous), added),
            ..old(state)@
        }));
    }
}

/// The approval threshold.
pub fn read_threshold(state: &BridgeState) -> (r: u16)
    ensures
        r == state@.threshold,
{
    state.config.threshold
}

/// The base annual interest rate in basis points.
pub fn read_apr_bps(state: &BridgeState) -> (r: u16)
    ensures
        r == state@.base_apr_bps,
{
    state.config.base_apr_bps
}

/// Whether the engine is paused.
pub fn is_paused(state: &BridgeState) -> (r: bool)
    ensures
        r == state@.paused,
{
    state.config.paused
}

/// Sets the pause flag.  Permission checks and notification belong to the
/// operation layer.
pub fn set_paused(state: &mut BridgeState, paused: bool)
    ensures
        final(state)@ == (StateModel { paused, ..old(state)@ }),
{
    state.config.paused = paused;
    proof {
        assert(state@ =~= (StateModel { paused, ..old(state)@ }));
    }
}

/// Writes the base configuration: threshold, rate and pause flag, and
/// resets the active-patch slot to an empty reference.
pub fn write_base_config(state: &mut BridgeState, threshold: u16, apr_bps: u16, paused: bool)
    ensures
        final(state)@ == (StateModel {
            threshold,
            base_apr_bps: apr_bps,
            paused,
            active_patch: Some(Seq::<char>::empty()),
            ..old(state)@
        }),
{
    state.config.threshold = threshold;
    state.config.base_apr_bps = apr_bps;
    state.config.paused = paused;
    state.active_patch = Some(String::new());
    proof {
        assert(state@ =~= (StateModel {
            threshold,
            base_apr_bps: apr_bps,
            paused,
            active_patch: Some(Seq::<char>::empty()),
            ..old(state)@
        }));
    }
}

/// The reference of the currently active patch, if the slot was ever
/// written.
pub fn read_active_patch(state: &BridgeState) -> (r: Option<String>)
    ensures
        match r {
            Some(h) => state@.active_patch == Some(h@),
            None => state@.active_patch is None,
        },
{
    match &state.active_patch {
        Some(h) => Some(h.clone()),
        None => None,
    }
}

/// Overwrites the single active-patch slot.
pub fn write_active_patch(state: &mut BridgeState, hash: String)
    ensures
        final(state)@ == (StateModel { active_patch: Some(hash@), ..old(state)@ }),
{
    let ghost hash_view = hash@;
    state.active_patch = Some(hash);
    proof {
        assert(state@ =~= (StateModel { active_patch: Some(hash_view), ..old(state)@ }));
    }
}

} // verus!
