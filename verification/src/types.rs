//! Data types of the settlement engine.
//!
//! Identities, transaction ids and domain tags are carried as strings; the
//! spec-level twin of each record (its view) carries them as `Seq<char>` so
//! that contracts can speak about their contents.

use vstd::prelude::*;

verus! {

/// The failure kinds an operation can signal.  Every failure aborts the
/// whole invocation: the caller must discard the state it handed in and
/// keep the previous one, which each operation's contract makes trivial by
/// guaranteeing that a failing call leaves the state unchanged.
#[derive(Clone, Copy, Debug, PartialEq, Eq, Structural)]
pub enum BridgeError {
    PermissionDenied,
    InsufficientFunds,
    TxAlreadyProcessed,
    TransferFailed,
    InvalidRequest,
    InvalidSignature,
    InvalidTimestamp,
    InvalidAmount,
    InvalidAddress,
    InvalidAsset,
    InvalidChain,
    InvalidNetwork,
    InvalidProtocol,
    InvalidKey,
    MissingKey,
    Paused,
    TokenNotSet,
    AllowanceTooLow,
}

/// A guardian identity together with its voting weight.  Weight zero is
/// equivalent to not being a guardian.
#[derive(Clone, Debug)]
pub struct Guardian {
    pub key: String,
    pub weight: u8,
}

/// Contract-wide configuration: the administrator, the approval threshold,
/// the base annual interest rate in basis points, and the pause flag.
#[derive(Clone, Debug)]
pub struct BridgeConfig {
    pub admin: String,
    pub threshold: u16,
    pub base_apr_bps: u16,
    pub paused: bool,
}

/// A custodial position in the interest-bearing vault.
#[derive(Clone, Copy, Debug, PartialEq, Eq, Structural)]
pub struct VaultPosition {
    pub principal: u128,
    pub last_accrual_ms: u64,
}

/// A pending cross-domain release (or synthetic-asset mint) awaiting
/// weighted approvals.  Once `finalized` is true the record never changes
/// again.
#[derive(Clone, Debug)]
pub struct UnlockRequest {
    pub id: String,
    pub recipient: String,
    pub amount: u128,
    pub src_chain: String,
    pub dst_chain: String,
    pub timestamp_ms: u64,
    pub finalized: bool,
    pub approvals_weight: u32,
}

/// The view of an [`UnlockRequest`].
pub struct RequestView {
    pub id: Seq<char>,
    pub recipient: Seq<char>,
    pub amount: u128,
    pub src_chain: Seq<char>,
    pub dst_chain: Seq<char>,
    pub timestamp_ms: u64,
    pub finalized: bool,
    pub approvals_weight: u32,
}

impl View for UnlockRequest {
    type V = RequestView;

    open spec fn view(&self) -> RequestView {
        RequestView {
            id: self.id@,
            recipient: self.recipient@,
            amount: self.amount,
            src_chain: self.src_chain@,
            dst_chain: self.dst_chain@,
            timestamp_ms: self.timestamp_ms,
            finalized: self.finalized,
            approvals_weight: self.approvals_weight,
        }
    }
}

/// A proposed hot-swap patch awaiting weighted approvals.  `patch_hash`
/// doubles as the reference of the replacement logic that activation hands
/// control to.  Once `activated` is true the record never changes again.
#[derive(Clone, Debug)]
pub struct HotSwapPatch {
    pub patch_hash: String,
    pub proposer: String,
    pub approved_weight: u32,
    pub activated: bool,
}

/// The view of a [`HotSwapPatch`].
pub struct PatchView {
    pub patch_hash: Seq<char>,
    pub proposer: Seq<char>,
    pub approved_weight: u32,
    pub activated: bool,
}

impl View for HotSwapPatch {
    type V = PatchView;

    open spec fn view(&self) -> PatchView {
        PatchView {
            patch_hash: self.patch_hash@,
            proposer: self.proposer@,
            approved_weight: self.approved_weight,
            activated: self.activated,
        }
    }
}

impl View for VaultPosition {
    type V = VaultPosition;

    /// A position already consists of plain values, so it is its own view.
    open spec fn view(&self) -> VaultPosition {
        *self
    }
}

} // verus!
