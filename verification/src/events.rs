//! Notification records.
//!
//! Every successful mutation appends structured records to an append-only
//! log that off-process observers (such as the relay) read.  The hosting
//! environment forwards the log to its notification channel when it commits
//! the invocation.

use vstd::prelude::*;

verus! {

/// Value entered custody and started accruing.
#[derive(Clone, Debug)]
pub struct Locked {
    pub sender: String,
    pub amount: u128,
    pub dst_chain: String,
    pub tx_id: String,
}

/// A release request was created and is open for approvals.
#[derive(Clone, Debug)]
pub struct UnlockRequested {
    pub request_id: String,
    pub recipient: String,
    pub amount: u128,
    pub src_chain: String,
    pub dst_chain: String,
}

/// A release request reached the approval threshold.
#[derive(Clone, Debug)]
pub struct UnlockFinalized {
    pub request_id: String,
    pub recipient: String,
    pub amount: u128,
}

/// A synthetic-asset redemption burned custody on this side.
#[derive(Clone, Debug)]
pub struct Burned {
    pub owner: String,
    pub amount: u128,
    pub tx_id: String,
    pub eth_owner: String,
}

/// A hot-swap patch was proposed and is open for approvals.
#[derive(Clone, Debug)]
pub struct HotSwapProposed {
    pub patch_hash: String,
    pub proposer: String,
}

/// A hot-swap patch reached the approval threshold and was activated.
#[derive(Clone, Debug)]
pub struct HotSwapActivated {
    pub patch_hash: String,
}

/// The pause flag changed.
#[derive(Clone, Debug)]
pub struct PauseChanged {
    pub paused: bool,
}

/// Interest was accrued on an account's position.
#[derive(Clone, Debug)]
pub struct YieldAccrued {
    pub account: String,
    pub principal_after: u128,
}

/// One record of the notification log.  Mint requests share the shape of
/// unlock requests, so the mint variants reuse their payloads.
#[derive(Clone, Debug)]
pub enum BridgeEvent {
    Locked(Locked),
    UnlockRequested(UnlockRequested),
    UnlockFinalized(UnlockFinalized),
    MintRequested(UnlockRequested),
    MintFinalized(UnlockFinalized),
    Burned(Burned),
    HotSwapProposed(HotSwapProposed),
    HotSwapActivated(HotSwapActivated),
    PauseChanged(PauseChanged),
    YieldAccrued(YieldAccrued),
}

/// The view of one notification record.
pub enum EventView {
    Locked { sender: Seq<char>, amount: u128, dst_chain: Seq<char>, tx_id: Seq<char> },
    UnlockRequested {
        request_id: Seq<char>,
        recipient: Seq<char>,
        amount: u128,
        src_chain: Seq<char>,
        dst_chain: Seq<char>,
    },
    UnlockFinalized { request_id: Seq<char>, recipient: Seq<char>, amount: u128 },
    MintRequested {
        request_id: Seq<char>,
        recipient: Seq<char>,
        amount: u128,
        src_chain: Seq<char>,
        dst_chain: Seq<char>,
    },
    MintFinalized { request_id: Seq<char>, recipient: Seq<char>, amount: u128 },
    Burned { owner: Seq<char>, amount: u128, tx_id: Seq<char>, eth_owner: Seq<char> },
    HotSwapProposed { patch_hash: Seq<char>, proposer: Seq<char> },
    HotSwapActivated { patch_hash: Seq<char> },
    PauseChanged { paused: bool },
    YieldAccrued { account: Seq<char>, principal_after: u128 },
}

impl View for BridgeEvent {
    type V = EventView;

    open spec fn view(&self) -> EventView {
        match self {
            BridgeEvent::Locked(e) => EventView::Locked {
                sender: e.sender@,
                amount: e.amount,
                dst_chain: e.dst_chain@,
                tx_id: e.tx_id@,
            },
            BridgeEvent::UnlockRequested(e) => EventView::UnlockRequested {
                request_id: e.request_id@,
                recipient: e.recipient@,
                amount: e.amount,
                src_chain: e.src_chain@,
                dst_chain: e.dst_chain@,
            },
            BridgeEvent::UnlockFinalized(e) => EventView::UnlockFinalized {
                request_id: e.request_id@,
                recipient: e.recipient@,
                amount: e.amount,
            },
            BridgeEvent::MintRequested(e) => EventView::MintRequested {
                request_id: e.request_id@,
                recipient: e.recipient@,
                amount: e.amount,
                src_chain: e.src_chain@,
                dst_chain: e.dst_chain@,
            },
            BridgeEvent::MintFinalized(e) => EventView::MintFinalized {
                request_id: e.request_id@,
                recipient: e.recipient@,
                amount: e.amount,
            },
            BridgeEvent::Burned(e) => EventView::Burned {
                owner: e.owner@,
                amount: e.amount,
                tx_id: e.tx_id@,
                eth_owner: e.eth_owner@,
            },
            BridgeEvent::HotSwapProposed(e) => EventView::HotSwapProposed {
                patch_hash: e.patch_hash@,
                proposer: e.proposer@,
            },
            BridgeEvent::HotSwapActivated(e) => EventView::HotSwapActivated {
                patch_hash: e.patch_hash@,
            },
            BridgeEvent::PauseChanged(e) => EventView::PauseChanged { paused: e.paused },
            BridgeEvent::YieldAccrued(e) => EventView::YieldAccrued {
                account: e.account@,
                principal_after: e.principal_after,
            },
        }
    }
}

/// The view of a whole notification log.
pub open spec fn events_view(log: Seq<BridgeEvent>) -> Seq<EventView> {
    log.map_values(|e: BridgeEvent| e@)
}

/// Appending one record to the log appends its view to the log's view.
pub proof fn lemma_events_view_push(log: Seq<BridgeEvent>, event: BridgeEvent)
    ensures
        events_view(log.push(event)) == events_view(log).push(event@),
{
    assert(events_view(log.push(event)) =~= events_view(log).push(event@));
}

/// Appends one notification record to the log.
pub fn emit(log: &mut Vec<BridgeEvent>, event: BridgeEvent)
    ensures
        final(log)@ == old(log)@.push(event),
        events_view(final(log)@) == events_view(old(log)@).push(event@),
{
    let ghost event_view = event@;
    let ghost previous = log@;
    log.push(event);
    proof {
        lemma_events_view_push(previous, event);
        assert(events_view(log@) =~= events_view(previous).push(event_view));
    }
}

} // verus!
