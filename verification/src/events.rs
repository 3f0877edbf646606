use vstd::prelude::*;

use crate::account::AccountId;

verus! {

// Every successful mutating operation returns one of these structured
// notifications for external indexing. They are advisory: nothing in
// the protocol depends on their delivery.

/// A new escrow record was created and funded.
#[derive(Clone, Debug, PartialEq, Eq)]
pub struct HandshakeCreated {
    pub handshake_id: u64,
    pub creator: AccountId,
    pub worker: AccountId,
    pub amount: u64,
    pub deadline_ts: i64,
    pub description: String,
}

/// The worker accepted a record.
#[derive(Clone, Copy, PartialEq, Eq, Structural, Debug)]
pub struct HandshakeAccepted {
    pub handshake_id: u64,
    pub worker: AccountId,
    pub accepted_at: i64,
}

/// The worker marked the work delivered.
#[derive(Clone, Copy, PartialEq, Eq, Structural, Debug)]
pub struct WorkDelivered {
    pub handshake_id: u64,
    pub worker: AccountId,
    pub delivered_at: i64,
}

/// The creator approved the delivery; carries the full fee breakdown.
#[derive(Clone, Copy, PartialEq, Eq, Structural, Debug)]
pub struct HandshakeApproved {
    pub handshake_id: u64,
    pub creator: AccountId,
    pub worker: AccountId,
    pub amount: u64,
    pub pinch_total: u64,
    pub to_treasury: u64,
    pub to_keepers: u64,
    pub to_commons: u64,
}

/// The creator cancelled a record before acceptance.
#[derive(Clone, Copy, PartialEq, Eq, Structural, Debug)]
pub struct HandshakeCancelled {
    pub handshake_id: u64,
    pub creator: AccountId,
    pub cancelled_at: i64,
}

/// A party raised a dispute.
#[derive(Clone, Copy, PartialEq, Eq, Structural, Debug)]
pub struct HandshakeDisputed {
    pub handshake_id: u64,
    pub disputed_by: AccountId,
    pub disputed_at: i64,
}

/// The authority resolved a dispute.
#[derive(Clone, Copy, PartialEq, Eq, Structural, Debug)]
pub struct DisputeResolved {
    pub handshake_id: u64,
    /// The wire code of the ruling: 0 refunded the creator, 1 paid the
    /// worker.
    pub ruling: u8,
    pub resolved_at: i64,
}

/// The protocol configuration was initialized.
#[derive(Clone, Copy, PartialEq, Eq, Structural, Debug)]
pub struct ConfigInitialized {
    pub authority: AccountId,
    pub sour_mint: AccountId,
    pub pinch_bps: u16,
}

/// Tokens were deposited into a treasury vault.
#[derive(Clone, Copy, PartialEq, Eq, Structural, Debug)]
pub struct Deposited {
    pub mint: AccountId,
    pub amount: u64,
    pub depositor: AccountId,
    /// The vault's balance once the deposit had arrived, as the ledger
    /// reported it.
    pub vault_balance: u64,
}

/// A keeper triggered a batch and took the pooled balance.
#[derive(Clone, Copy, PartialEq, Eq, Structural, Debug)]
pub struct BatchInitiated {
    pub batch_id: u64,
    pub keeper: AccountId,
    pub token_mint: AccountId,
    /// What left for off-system execution, excluding the keeper reward.
    pub amount: u64,
    pub keeper_reward: u64,
}

/// A keeper reported a batch's buyback and liquidity results.
#[derive(Clone, Copy, PartialEq, Eq, Structural, Debug)]
pub struct BatchCompleted {
    pub batch_id: u64,
    pub sour_bought_back: u64,
    pub lp_tokens_added: u64,
}

/// The treasury configuration was changed; carries the values now in
/// force.
#[derive(Clone, Copy, PartialEq, Eq, Structural, Debug)]
pub struct ConfigUpdated {
    pub authority: AccountId,
    pub batch_threshold: u64,
    pub keeper_reward_bps: u16,
}

} // verus!
