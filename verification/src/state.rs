use vstd::prelude::*;

use crate::account::AccountId;

verus! {

// ---------------------------------------------------------------------------
// Escrow record
// ---------------------------------------------------------------------------

/// Where one escrow record stands in its lifecycle.
///
/// Created is the initial status; Approved, Cancelled, Resolved and
/// Expired are terminal. No operation assigns Expired: it exists as a
/// status value for a deadline-lapse policy that no current operation
/// implements.
#[derive(Clone, Copy, PartialEq, Eq, Structural, Debug)]
pub enum HandshakeStatus {
    /// Created by the creator, waiting for the worker to accept.
    Created,
    /// The worker accepted; work is in progress.
    Accepted,
    /// The worker marked the work delivered, awaiting approval.
    Delivered,
    /// The creator approved; funds were released (terminal).
    Approved,
    /// Either party raised a dispute; awaiting the authority's ruling.
    Disputed,
    /// The creator cancelled before acceptance (terminal).
    Cancelled,
    /// The authority resolved the dispute (terminal).
    Resolved,
    /// The deadline lapsed without delivery (terminal; never assigned).
    Expired,
}

impl HandshakeStatus {
    /// A terminal status is a permanent tombstone: no operation moves a
    /// record out of it.
    pub open spec fn is_terminal(self) -> bool {
        match self {
            HandshakeStatus::Approved => true,
            HandshakeStatus::Cancelled => true,
            HandshakeStatus::Resolved => true,
            HandshakeStatus::Expired => true,
            _ => false,
        }
    }
}

/// The status transitions the lifecycle operations can make, plus
/// staying put (which is what every failed operation does). No edge
/// leads into Expired, and none leaves a terminal status.
pub open spec fn status_step(pre: HandshakeStatus, post: HandshakeStatus) -> bool {
    ||| post == pre
    ||| (pre == HandshakeStatus::Created && post == HandshakeStatus::Accepted)
    ||| (pre == HandshakeStatus::Accepted && post == HandshakeStatus::Delivered)
    ||| (pre == HandshakeStatus::Delivered && post == HandshakeStatus::Approved)
    ||| (pre == HandshakeStatus::Created && post == HandshakeStatus::Cancelled)
    ||| (pre == HandshakeStatus::Accepted && post == HandshakeStatus::Disputed)
    ||| (pre == HandshakeStatus::Delivered && post == HandshakeStatus::Disputed)
    ||| (pre == HandshakeStatus::Disputed && post == HandshakeStatus::Resolved)
}

/// Once a record is in a terminal status, every allowed step keeps it
/// there.
pub proof fn lemma_terminal_status_sticks(pre: HandshakeStatus, post: HandshakeStatus)
    requires
        status_step(pre, post),
        pre.is_terminal(),
    ensures
        post == pre,
{
}

/// A proof device for the append-only property: a position for each
/// status such that every allowed step either stays put or strictly
/// climbs, and no two statuses share a position.
pub open spec fn status_rank(s: HandshakeStatus) -> int {
    match s {
        HandshakeStatus::Created => 0,
        HandshakeStatus::Accepted => 1,
        HandshakeStatus::Delivered => 2,
        HandshakeStatus::Disputed => 3,
        HandshakeStatus::Approved => 4,
        HandshakeStatus::Resolved => 5,
        HandshakeStatus::Cancelled => 6,
        HandshakeStatus::Expired => 7,
    }
}

/// Every allowed step that changes the status strictly climbs in rank:
/// status progress only moves forward.
pub proof fn lemma_status_progress_is_forward(pre: HandshakeStatus, post: HandshakeStatus)
    requires
        status_step(pre, post),
        post != pre,
    ensures
        status_rank(post) > status_rank(pre),
{
}

/// Along any chain of allowed steps, rank never falls.
proof fn lemma_rank_monotone(trace: Seq<HandshakeStatus>, i: int, j: int)
    requires
        forall|k: int| 0 <= k < trace.len() - 1 ==> status_step(#[trigger] trace[k], trace[k + 1]),
        0 <= i <= j < trace.len(),
    ensures
        status_rank(trace[i]) <= status_rank(trace[j]),
    decreases j - i,
{
    if i < j {
        lemma_rank_monotone(trace, i, j - 1);
        assert(status_step(trace[j - 1], trace[j]));
    }
}

/// No status is ever revisited: if a record shows the same status at
/// two points of a chain of allowed steps, it held that status the
/// whole time in between.
pub proof fn lemma_no_status_revisited(trace: Seq<HandshakeStatus>, i: int, j: int, k: int)
    requires
        forall|m: int| 0 <= m < trace.len() - 1 ==> status_step(#[trigger] trace[m], trace[m + 1]),
        0 <= i <= j <= k < trace.len(),
        trace[i] == trace[k],
    ensures
        trace[j] == trace[i],
{
    lemma_rank_monotone(trace, i, j);
    lemma_rank_monotone(trace, j, k);
}

/// A chain of allowed steps that starts at Created and ends at Delivered
/// passes through Accepted strictly in between.
pub proof fn lemma_delivered_only_after_accepted(trace: Seq<HandshakeStatus>)
    requires
        trace.len() > 0,
        trace[0] == HandshakeStatus::Created,
        forall|i: int| 0 <= i < trace.len() - 1 ==> status_step(#[trigger] trace[i], trace[i + 1]),
        trace.last() == HandshakeStatus::Delivered,
    ensures
        exists|j: int| 0 < j < trace.len() - 1 && trace[j] == HandshakeStatus::Accepted,
    decreases trace.len(),
{
    let n = trace.len() as int;
    let prev = trace[n - 2];
    if prev == HandshakeStatus::Accepted {
        assert(0 < n - 2 < n - 1 && trace[n - 2] == HandshakeStatus::Accepted);
    } else {
        let shorter = trace.drop_last();
        assert(shorter.last() == HandshakeStatus::Delivered);
        assert(forall|i: int|
            0 <= i < shorter.len() - 1 ==> status_step(#[trigger] shorter[i], shorter[i + 1]));
        lemma_delivered_only_after_accepted(shorter);
        let j = choose|j: int| 0 < j < shorter.len() - 1 && shorter[j] == HandshakeStatus::Accepted;
        assert(0 < j < n - 1 && trace[j] == HandshakeStatus::Accepted);
    }
}

/// A record reaches Approved only along the full path
/// Created, Accepted, Delivered, Approved: in any chain of allowed steps
/// from Created to Approved, Accepted and Delivered both occur strictly
/// in between, in that order.
pub proof fn lemma_approved_only_via_full_path(trace: Seq<HandshakeStatus>)
    requires
        trace.len() > 0,
        trace[0] == HandshakeStatus::Created,
        forall|i: int| 0 <= i < trace.len() - 1 ==> status_step(#[trigger] trace[i], trace[i + 1]),
        trace.last() == HandshakeStatus::Approved,
    ensures
        exists|j: int, k: int|
            0 < j < k < trace.len() - 1 && trace[j] == HandshakeStatus::Accepted && trace[k]
                == HandshakeStatus::Delivered,
    decreases trace.len(),
{
    let n = trace.len() as int;
    let prev = trace[n - 2];
    if prev == HandshakeStatus::Delivered {
        let front = trace.drop_last();
        assert(front.last() == HandshakeStatus::Delivered);
        assert(forall|i: int|
            0 <= i < front.len() - 1 ==> status_step(#[trigger] front[i], front[i + 1]));
        lemma_delivered_only_after_accepted(front);
        let j = choose|j: int| 0 < j < front.len() - 1 && front[j] == HandshakeStatus::Accepted;
        assert(0 < j < n - 2 < n - 1 && trace[j] == HandshakeStatus::Accepted && trace[n - 2]
            == HandshakeStatus::Delivered);
    } else {
        assert(prev == HandshakeStatus::Approved);
        let shorter = trace.drop_last();
        assert(shorter.last() == HandshakeStatus::Approved);
        assert(forall|i: int|
            0 <= i < shorter.len() - 1 ==> status_step(#[trigger] shorter[i], shorter[i + 1]));
        lemma_approved_only_via_full_path(shorter);
        let (j, k) = choose|j: int, k: int|
            0 < j < k < shorter.len() - 1 && shorter[j] == HandshakeStatus::Accepted && shorter[k]
                == HandshakeStatus::Delivered;
        assert(0 < j < k < n - 1 && trace[j] == HandshakeStatus::Accepted && trace[k]
            == HandshakeStatus::Delivered);
    }
}

/// One escrow record: a deal between a creator and a worker over a fixed
/// amount, tracked through the lifecycle of [`HandshakeStatus`].
///
/// Timestamps use the convention that 0 means unset; each stage records
/// the instant it was entered. The record never changes its identity,
/// parties or amount after creation.
#[derive(Clone, Debug, PartialEq, Eq)]
pub struct Handshake {
    /// Sequential identity, unique for the deployment's lifetime.
    pub id: u64,
    /// The party who created and funded the escrow.
    pub creator: AccountId,
    /// The party who accepts and delivers the work.
    pub worker: AccountId,
    /// The escrowed amount, fixed at creation.
    pub amount: u64,
    /// The work agreement, at most 280 characters.
    pub description: String,
    /// Where the record stands in its lifecycle.
    pub status: HandshakeStatus,
    /// When the record was created.
    pub created_at: i64,
    /// The instant the worker must have accepted by.
    pub deadline_ts: i64,
    /// When the worker accepted (0 if not yet).
    pub accepted_at: i64,
    /// When the work was marked delivered (0 if not yet).
    pub delivered_at: i64,
    /// When the record reached a terminal status (0 if not yet).
    pub resolved_at: i64,
    /// Who raised the dispute, if one was raised.
    pub disputed_by: Option<AccountId>,
    /// The derived-address salt that authorizes releases from the
    /// record's exclusive vault.
    pub vault_bump: u8,
}

impl Handshake {
    /// The record's internal invariant: the parties differ, the amount
    /// is positive, the description is bounded, and the fields set so
    /// far agree with the status — each stage's timestamp is set exactly
    /// when the stage was passed, in monotonic order, and the disputing
    /// party is recorded exactly in the dispute statuses.
    pub open spec fn well_formed(self) -> bool {
        &&& self.creator != self.worker
        &&& self.amount > 0
        &&& self.description@.len() <= 280
        &&& match self.status {
            HandshakeStatus::Created => {
                &&& self.accepted_at == 0
                &&& self.delivered_at == 0
                &&& self.resolved_at == 0
                &&& self.disputed_by is None
            },
            HandshakeStatus::Accepted => {
                &&& self.accepted_at >= self.created_at
                &&& self.delivered_at == 0
                &&& self.resolved_at == 0
                &&& self.disputed_by is None
            },
            HandshakeStatus::Delivered => {
                &&& self.accepted_at >= self.created_at
                &&& self.delivered_at >= self.accepted_at
                &&& self.resolved_at == 0
                &&& self.disputed_by is None
            },
            HandshakeStatus::Approved => {
                &&& self.accepted_at >= self.created_at
                &&& self.delivered_at >= self.accepted_at
                &&& self.resolved_at >= self.delivered_at
                &&& self.disputed_by is None
            },
            HandshakeStatus::Disputed => {
                &&& self.accepted_at >= self.created_at
                &&& self.delivered_at == 0 || self.delivered_at >= self.accepted_at
                &&& self.resolved_at == 0
                &&& self.disputed_by is Some
            },
            HandshakeStatus::Cancelled => {
                &&& self.accepted_at == 0
                &&& self.delivered_at == 0
                &&& self.resolved_at >= self.created_at
                &&& self.disputed_by is None
            },
            HandshakeStatus::Resolved => {
                &&& self.accepted_at >= self.created_at
                &&& self.delivered_at == 0 || self.delivered_at >= self.accepted_at
                &&& self.resolved_at >= self.accepted_at
                &&& self.disputed_by is Some
            },
            HandshakeStatus::Expired => true,
        }
    }
}

// ---------------------------------------------------------------------------
// Protocol configuration
// ---------------------------------------------------------------------------

/// The protocol's singleton configuration: fee parameters, the fee
/// destinations, the record counter and lifetime totals.
#[derive(Clone, Copy, PartialEq, Eq, Structural, Debug)]
pub struct ProtocolConfig {
    /// Who may resolve disputes (and, in a later revision, update the
    /// configuration).
    pub authority: AccountId,
    /// The token every escrow is denominated in.
    pub sour_mint: AccountId,
    /// Receives the keepers' share of each pinch fee.
    pub keepers_pool: AccountId,
    /// Receives the commons' share of each pinch fee.
    pub commons_treasury: AccountId,
    /// Receives the treasury's share of each pinch fee.
    pub buyback_treasury: AccountId,
    /// The pinch fee rate in basis points, at most 5000.
    pub pinch_bps: u16,
    /// The treasury's share of the pinch fee, in basis points.
    pub treasury_share_bps: u16,
    /// The keepers pool's share of the pinch fee, in basis points.
    pub keepers_share_bps: u16,
    /// The commons' share of the pinch fee, in basis points. The three
    /// shares sum to exactly 10000.
    pub commons_share_bps: u16,
    /// How many records were ever created; the next record's identity.
    pub handshake_count: u64,
    /// Lifetime total routed to the treasury.
    pub total_to_treasury: u64,
    /// Lifetime total routed to the keepers pool.
    pub total_to_keepers: u64,
    /// Lifetime total routed to the commons.
    pub total_to_commons: u64,
    /// Lifetime count of completed (paid-out) records.
    pub total_completed: u64,
    /// Lifetime count of disputed records.
    pub total_disputed: u64,
}

impl ProtocolConfig {
    /// The configuration invariant: the pinch fee is at most half, and
    /// the three shares divide the whole fee exactly.
    pub open spec fn well_formed(self) -> bool {
        &&& self.pinch_bps <= 5000
        &&& self.treasury_share_bps + self.keepers_share_bps + self.commons_share_bps == 10000
    }
}

// ---------------------------------------------------------------------------
// Treasury configuration and batch records
// ---------------------------------------------------------------------------

/// The treasury's singleton configuration: the batch threshold, the
/// keeper's incentive rate, the batch counter and lifetime totals.
#[derive(Clone, Copy, PartialEq, Eq, Structural, Debug)]
pub struct TreasuryConfig {
    /// Who may update this configuration.
    pub authority: AccountId,
    /// The protocol's own token, the target of buybacks.
    pub sour_mint: AccountId,
    /// The minimum vault balance that lets a keeper trigger a batch.
    pub batch_threshold: u64,
    /// The keeper's reward rate in basis points, at most 500.
    pub keeper_reward_bps: u16,
    /// Lifetime total deposited, across all token types.
    pub total_deposited: u64,
    /// Lifetime total of the protocol token bought back, as reported by
    /// keepers.
    pub total_bought_back: u64,
    /// Lifetime total of liquidity tokens added, as reported by keepers.
    pub total_lp_added: u64,
    /// How many batches were ever triggered; the next batch's identity.
    pub batch_count: u64,
}

impl TreasuryConfig {
    /// The configuration invariant: the keeper reward is at most 5%.
    pub open spec fn well_formed(self) -> bool {
        self.keeper_reward_bps <= 500
    }
}

/// One triggered batch: who took the pooled funds, how much, and — once
/// the keeper reports back — what came of them.
///
/// The completion figures are keeper-reported and recorded as given;
/// this subsystem does not verify them. The completion flag moves from
/// false to true exactly once, and only at the recorded keeper's hand.
#[derive(Clone, Copy, PartialEq, Eq, Structural, Debug)]
pub struct BatchRecord {
    /// The keeper who triggered this batch and owes its completion.
    pub keeper: AccountId,
    /// The token type that was batched.
    pub token_mint: AccountId,
    /// What left the vault for off-system execution, excluding the
    /// keeper's reward.
    pub amount_withdrawn: u64,
    /// The keeper's reward for triggering the batch.
    pub keeper_reward: u64,
    /// When the batch was triggered.
    pub initiated_at: i64,
    /// Whether the keeper has reported completion.
    pub completed: bool,
    /// Protocol tokens bought back in this batch (keeper-reported; 0
    /// until completed).
    pub sour_bought_back: u64,
    /// Liquidity tokens added in this batch (keeper-reported; 0 until
    /// completed).
    pub lp_tokens_added: u64,
}

// ---------------------------------------------------------------------------
// Dispute rulings
// ---------------------------------------------------------------------------

/// The two outcomes an authority can rule on a dispute. Any other wire
/// code is rejected as InvalidRuling.
#[derive(Clone, Copy, PartialEq, Eq, Structural, Debug)]
pub enum Ruling {
    /// Return the entire vault balance to the creator, with no fee.
    Refund,
    /// Pay the worker, applying the same pinch-fee split as an approval.
    PayWorker,
}

impl Ruling {
    /// Decodes a ruling from its wire form: 0 is a refund, 1 pays the
    /// worker, anything else is rejected.
    pub fn from_code(code: u8) -> (r: Result<Ruling, crate::errors::SourError>)
        ensures
            code == 0 ==> r == Ok::<Ruling, crate::errors::SourError>(Ruling::Refund),
            code == 1 ==> r == Ok::<Ruling, crate::errors::SourError>(Ruling::PayWorker),
            code > 1 ==> r == Err::<Ruling, crate::errors::SourError>(
                crate::errors::SourError::InvalidRuling,
            ),
    {
        if code == 0 {
            Ok(Ruling::Refund)
        } else if code == 1 {
            Ok(Ruling::PayWorker)
        } else {
            Err(crate::errors::SourError::InvalidRuling)
        }
    }
}

} // verus!
