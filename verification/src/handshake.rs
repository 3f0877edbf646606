use vstd::prelude::*;
use vstd::string::StrSliceExecFns;

use crate::account::AccountId;
use crate::errors::SourError;
use crate::events::{
    ConfigInitialized, DisputeResolved, HandshakeAccepted, HandshakeApproved, HandshakeCancelled,
    HandshakeCreated, HandshakeDisputed, WorkDelivered,
};
use crate::fees::{is_split_for, pinch_total_of, share_of, split, FeeSplit};
use crate::state::{status_step, Handshake, HandshakeStatus, ProtocolConfig, Ruling};

verus! {

// The seven lifecycle operations of one escrow record, plus the one-time
// protocol configuration. Each operation takes the authenticated caller
// and the current instant as arguments — identity verification and the
// clock are capabilities of the surrounding system — and either applies
// all of its state changes and returns the transfers the caller must
// perform together with the notification event, or fails with a specific
// error and changes nothing. The clock is monotonic, which is what the
// `now` preconditions state: time does not run backwards between two
// operations on the same record.

/// How a resolved dispute settles the vault.
#[derive(Clone, Copy, PartialEq, Eq, Structural, Debug)]
pub enum Settlement {
    /// The entire vault balance goes back to the creator, with no fee.
    Refund { amount: u64 },
    /// The worker is paid under the same pinch-fee split as an approval.
    PayWorker { split: FeeSplit },
}

/// Whether one more completed payout fits into the configuration's
/// lifetime totals without overflowing their 64-bit width. Both an
/// approval and a pay-worker ruling need this.
pub open spec fn payout_totals_fit(c: ProtocolConfig, amount: u64) -> bool {
    let pt = pinch_total_of(amount, c.pinch_bps);
    let t = share_of(pt, c.treasury_share_bps);
    let k = share_of(pt, c.keepers_share_bps);
    &&& c.total_completed + 1 <= u64::MAX
    &&& c.total_to_treasury + t <= u64::MAX
    &&& c.total_to_keepers + k <= u64::MAX
    &&& c.total_to_commons + (pt - t - k) <= u64::MAX
}

/// The configuration after one completed payout of `amount`: the
/// completed count steps by one and each destination's lifetime total
/// grows by its slice of the pinch fee.
pub open spec fn config_after_payout(c: ProtocolConfig, amount: u64) -> ProtocolConfig {
    let pt = pinch_total_of(amount, c.pinch_bps);
    let t = share_of(pt, c.treasury_share_bps);
    let k = share_of(pt, c.keepers_share_bps);
    ProtocolConfig {
        total_completed: (c.total_completed + 1) as u64,
        total_to_treasury: (c.total_to_treasury + t) as u64,
        total_to_keepers: (c.total_to_keepers + k) as u64,
        total_to_commons: (c.total_to_commons + (pt - t - k)) as u64,
        ..c
    }
}

/// One-time protocol setup: records the authority, the token, the three
/// fee destinations and the fee rates, and starts every counter and
/// lifetime total at zero.
///
/// Succeeds exactly when the pinch fee is at most 5000 basis points and
/// the three shares sum to exactly 10000; rejects the fee rate first.
pub fn initialize_config(
    authority: AccountId,
    sour_mint: AccountId,
    keepers_pool: AccountId,
    commons_treasury: AccountId,
    buyback_treasury: AccountId,
    pinch_bps: u16,
    treasury_share_bps: u16,
    keepers_share_bps: u16,
    commons_share_bps: u16,
) -> (r: Result<(ProtocolConfig, ConfigInitialized), SourError>)
    ensures
        r is Ok <==> {
            &&& pinch_bps <= 5000
            &&& treasury_share_bps + keepers_share_bps + commons_share_bps == 10000
        },
        match r {
            Ok((config, ev)) => {
                &&& config == (ProtocolConfig {
                    authority,
                    sour_mint,
                    keepers_pool,
                    commons_treasury,
                    buyback_treasury,
                    pinch_bps,
                    treasury_share_bps,
                    keepers_share_bps,
                    commons_share_bps,
                    handshake_count: 0,
                    total_to_treasury: 0,
                    total_to_keepers: 0,
                    total_to_commons: 0,
                    total_completed: 0,
                    total_disputed: 0,
                })
                &&& config.well_formed()
                &&& ev == (ConfigInitialized { authority, sour_mint, pinch_bps })
            },
            Err(e) => e == if pinch_bps > 5000 {
                SourError::InvalidPinchBps
            } else {
                SourError::InvalidFeeShares
            },
        },
{
    if pinch_bps > 5000 {
        return Err(SourError::InvalidPinchBps);
    }
    let share_sum: u32 = treasury_share_bps as u32 + keepers_share_bps as u32
        + commons_share_bps as u32;
    if share_sum != 10000 {
        return Err(SourError::InvalidFeeShares);
    }
    let config = ProtocolConfig {
        authority,
        sour_mint,
        keepers_pool,
        commons_treasury,
        buyback_treasury,
        pinch_bps,
        treasury_share_bps,
        keepers_share_bps,
        commons_share_bps,
        handshake_count: 0,
        total_to_treasury: 0,
        total_to_keepers: 0,
        total_to_commons: 0,
        total_completed: 0,
        total_disputed: 0,
    };
    let event = ConfigInitialized { authority, sour_mint, pinch_bps };
    Ok((config, event))
}

/// Creates a new escrow record over `amount` of the designated token and
/// assigns it the next sequence number. The caller must first have moved
/// `amount` from the creator into the record's fresh exclusive vault;
/// `vault_bump` is the vault's derived-address salt.
///
/// Succeeds exactly when the amount is positive, the description fits in
/// 280 characters, the worker differs from the creator, the deadline
/// lies strictly in the future and the sequence counter has room; on
/// failure nothing changes and no funds are to be locked.
pub fn create_handshake(
    config: &mut ProtocolConfig,
    creator: AccountId,
    worker: AccountId,
    description: String,
    amount: u64,
    deadline_ts: i64,
    now: i64,
    vault_bump: u8,
) -> (r: Result<(Handshake, HandshakeCreated), SourError>)
    requires
        old(config).well_formed(),
    ensures
        final(config).well_formed(),
        r is Ok <==> {
            &&& amount > 0
            &&& description@.len() <= 280
            &&& worker != creator
            &&& deadline_ts > now
            &&& old(config).handshake_count < u64::MAX
        },
        match r {
            Ok((h, ev)) => {
                &&& h == (Handshake {
                    id: old(config).handshake_count,
                    creator,
                    worker,
                    amount,
                    description: description,
                    status: HandshakeStatus::Created,
                    created_at: now,
                    deadline_ts,
                    accepted_at: 0,
                    delivered_at: 0,
                    resolved_at: 0,
                    disputed_by: None,
                    vault_bump,
                })
                &&& h.well_formed()
                &&& *final(config) == (ProtocolConfig {
                    handshake_count: (old(config).handshake_count + 1) as u64,
                    ..*old(config)
                })
                &&& ev == (HandshakeCreated {
                    handshake_id: old(config).handshake_count,
                    creator,
                    worker,
                    amount,
                    deadline_ts,
                    description: description,
                })
            },
            Err(e) => {
                &&& *final(config) == *old(config)
                &&& e == if amount == 0 {
                    SourError::ZeroAmount
                } else if description@.len() > 280 {
                    SourError::DescriptionTooLong
                } else if worker == creator {
                    SourError::SelfHandshake
                } else if deadline_ts <= now {
                    SourError::DeadlineInPast
                } else {
                    SourError::MathOverflow
                }
            },
        },
{
    if amount == 0 {
        return Err(SourError::ZeroAmount);
    }
    if description.as_str().unicode_len() > 280 {
        return Err(SourError::DescriptionTooLong);
    }
    if worker == creator {
        return Err(SourError::SelfHandshake);
    }
    if deadline_ts <= now {
        return Err(SourError::DeadlineInPast);
    }
    let next_count: u64 = match config.handshake_count.checked_add(1) {
        Some(c) => c,
        None => {
            return Err(SourError::MathOverflow);
        },
    };
    let id = config.handshake_count;
    let event = HandshakeCreated {
        handshake_id: id,
        creator,
        worker,
        amount,
        deadline_ts,
        description: description.clone(),
    };
    let handshake = Handshake {
        id,
        creator,
        worker,
        amount,
        description,
        status: HandshakeStatus::Created,
        created_at: now,
        deadline_ts,
        accepted_at: 0,
        delivered_at: 0,
        resolved_at: 0,
        disputed_by: None,
        vault_bump,
    };
    config.handshake_count = next_count;
    Ok((handshake, event))
}

/// The worker commits to the deal. Succeeds exactly when the record is
/// still Created, the caller is the recorded worker and the deadline has
/// not passed; the record then moves to Accepted and remembers the
/// instant.
pub fn accept_handshake(handshake: &mut Handshake, caller: AccountId, now: i64) -> (r: Result<
    HandshakeAccepted,
    SourError,
>)
    requires
        old(handshake).well_formed(),
        now >= old(handshake).created_at,
    ensures
        final(handshake).well_formed(),
        status_step(old(handshake).status, final(handshake).status),
        r is Ok <==> {
            &&& old(handshake).status == HandshakeStatus::Created
            &&& caller == old(handshake).worker
            &&& now <= old(handshake).deadline_ts
        },
        match r {
            Ok(ev) => {
                &&& *final(handshake) == (Handshake {
                    status: HandshakeStatus::Accepted,
                    accepted_at: now,
                    ..*old(handshake)
                })
                &&& ev == (HandshakeAccepted {
                    handshake_id: old(handshake).id,
                    worker: old(handshake).worker,
                    accepted_at: now,
                })
            },
            Err(e) => {
                &&& *final(handshake) == *old(handshake)
                &&& e == if old(handshake).status != HandshakeStatus::Created {
                    SourError::InvalidStatus
                } else if caller != old(handshake).worker {
                    SourError::NotWorker
                } else {
                    SourError::HandshakeExpired
                }
            },
        },
{
    if handshake.status != HandshakeStatus::Created {
        return Err(SourError::InvalidStatus);
    }
    if caller != handshake.worker {
        return Err(SourError::NotWorker);
    }
    if now > handshake.deadline_ts {
        return Err(SourError::HandshakeExpired);
    }
    handshake.status = HandshakeStatus::Accepted;
    handshake.accepted_at = now;
    Ok(HandshakeAccepted { handshake_id: handshake.id, worker: handshake.worker, accepted_at: now })
}

/// The worker marks the work delivered. Succeeds exactly when the record
/// is Accepted and the caller is the recorded worker; the record then
/// moves to Delivered and remembers the instant.
pub fn deliver(handshake: &mut Handshake, caller: AccountId, now: i64) -> (r: Result<
    WorkDelivered,
    SourError,
>)
    requires
        old(handshake).well_formed(),
        now >= old(handshake).accepted_at,
    ensures
        final(handshake).well_formed(),
        status_step(old(handshake).status, final(handshake).status),
        r is Ok <==> {
            &&& old(handshake).status == HandshakeStatus::Accepted
            &&& caller == old(handshake).worker
        },
        match r {
            Ok(ev) => {
                &&& *final(handshake) == (Handshake {
                    status: HandshakeStatus::Delivered,
                    delivered_at: now,
                    ..*old(handshake)
                })
                &&& ev == (WorkDelivered {
                    handshake_id: old(handshake).id,
                    worker: old(handshake).worker,
                    delivered_at: now,
                })
            },
            Err(e) => {
                &&& *final(handshake) == *old(handshake)
                &&& e == if old(handshake).status != HandshakeStatus::Accepted {
                    SourError::InvalidStatus
                } else {
                    SourError::NotWorker
                }
            },
        },
{
    if handshake.status != HandshakeStatus::Accepted {
        return Err(SourError::InvalidStatus);
    }
    if caller != handshake.worker {
        return Err(SourError::NotWorker);
    }
    handshake.status = HandshakeStatus::Delivered;
    handshake.delivered_at = now;
    Ok(WorkDelivered { handshake_id: handshake.id, worker: handshake.worker, delivered_at: now })
}

/// The creator approves the delivery: the escrowed amount leaves the
/// vault under the pinch-fee split — the worker's pay and the three fee
/// slices of the returned split are the transfers the caller must
/// perform, skipping any zero slice — and the record becomes Approved.
///
/// Succeeds exactly when the record is Delivered, the caller is the
/// recorded creator and the lifetime totals have room; on success the
/// completed count and the three destination totals grow accordingly.
pub fn approve(
    handshake: &mut Handshake,
    config: &mut ProtocolConfig,
    caller: AccountId,
    now: i64,
) -> (r: Result<(FeeSplit, HandshakeApproved), SourError>)
    requires
        old(handshake).well_formed(),
        old(config).well_formed(),
        now >= old(handshake).delivered_at,
    ensures
        final(handshake).well_formed(),
        final(config).well_formed(),
        status_step(old(handshake).status, final(handshake).status),
        r is Ok <==> {
            &&& old(handshake).status == HandshakeStatus::Delivered
            &&& caller == old(handshake).creator
            &&& payout_totals_fit(*old(config), old(handshake).amount)
        },
        match r {
            Ok((s, ev)) => {
                &&& is_split_for(
                    s,
                    old(handshake).amount,
                    old(config).pinch_bps,
                    old(config).treasury_share_bps,
                    old(config).keepers_share_bps,
                )
                &&& s.worker_amount + s.treasury_amount + s.keepers_amount + s.commons_amount
                    == old(handshake).amount
                &&& *final(handshake) == (Handshake {
                    status: HandshakeStatus::Approved,
                    resolved_at: now,
                    ..*old(handshake)
                })
                &&& *final(config) == config_after_payout(*old(config), old(handshake).amount)
                &&& ev == (HandshakeApproved {
                    handshake_id: old(handshake).id,
                    creator: old(handshake).creator,
                    worker: old(handshake).worker,
                    amount: old(handshake).amount,
                    pinch_total: (s.treasury_amount + s.keepers_amount + s.commons_amount) as u64,
                    to_treasury: s.treasury_amount,
                    to_keepers: s.keepers_amount,
                    to_commons: s.commons_amount,
                })
            },
            Err(e) => {
                &&& *final(handshake) == *old(handshake)
                &&& *final(config) == *old(config)
                &&& e == if old(handshake).status != HandshakeStatus::Delivered {
                    SourError::InvalidStatus
                } else if caller != old(handshake).creator {
                    SourError::NotCreator
                } else {
                    SourError::MathOverflow
                }
            },
        },
{
    if handshake.status != HandshakeStatus::Delivered {
        return Err(SourError::InvalidStatus);
    }
    if caller != handshake.creator {
        return Err(SourError::NotCreator);
    }
    let s = split(
        handshake.amount,
        config.pinch_bps,
        config.treasury_share_bps,
        config.keepers_share_bps,
        config.commons_share_bps,
    );
    let total_completed: u64 = match config.total_completed.checked_add(1) {
        Some(v) => v,
        None => {
            return Err(SourError::MathOverflow);
        },
    };
    let total_to_treasury: u64 = match config.total_to_treasury.checked_add(s.treasury_amount) {
        Some(v) => v,
        None => {
            return Err(SourError::MathOverflow);
        },
    };
    let total_to_keepers: u64 = match config.total_to_keepers.checked_add(s.keepers_amount) {
        Some(v) => v,
        None => {
            return Err(SourError::MathOverflow);
        },
    };
    let total_to_commons: u64 = match config.total_to_commons.checked_add(s.commons_amount) {
        Some(v) => v,
        None => {
            return Err(SourError::MathOverflow);
        },
    };
    let pinch_total: u64 = s.treasury_amount + s.keepers_amount + s.commons_amount;
    let event = HandshakeApproved {
        handshake_id: handshake.id,
        creator: handshake.creator,
        worker: handshake.worker,
        amount: handshake.amount,
        pinch_total,
        to_treasury: s.treasury_amount,
        to_keepers: s.keepers_amount,
        to_commons: s.commons_amount,
    };
    handshake.status = HandshakeStatus::Approved;
    handshake.resolved_at = now;
    config.total_completed = total_completed;
    config.total_to_treasury = total_to_treasury;
    config.total_to_keepers = total_to_keepers;
    config.total_to_commons = total_to_commons;
    Ok((s, event))
}

/// Either party raises a dispute. Succeeds exactly when the record is
/// Accepted or Delivered, the caller is the creator or the worker, and
/// the disputed count has room; the record then moves to Disputed and
/// remembers who raised it.
pub fn dispute(
    handshake: &mut Handshake,
    config: &mut ProtocolConfig,
    caller: AccountId,
    now: i64,
) -> (r: Result<HandshakeDisputed, SourError>)
    requires
        old(handshake).well_formed(),
        old(config).well_formed(),
    ensures
        final(handshake).well_formed(),
        final(config).well_formed(),
        status_step(old(handshake).status, final(handshake).status),
        r is Ok <==> {
            &&& (old(handshake).status == HandshakeStatus::Accepted || old(handshake).status
                == HandshakeStatus::Delivered)
            &&& (caller == old(handshake).creator || caller == old(handshake).worker)
            &&& old(config).total_disputed < u64::MAX
        },
        match r {
            Ok(ev) => {
                &&& *final(handshake) == (Handshake {
                    status: HandshakeStatus::Disputed,
                    disputed_by: Some(caller),
                    ..*old(handshake)
                })
                &&& *final(config) == (ProtocolConfig {
                    total_disputed: (old(config).total_disputed + 1) as u64,
                    ..*old(config)
                })
                &&& ev == (HandshakeDisputed {
                    handshake_id: old(handshake).id,
                    disputed_by: caller,
                    disputed_at: now,
                })
            },
            Err(e) => {
                &&& *final(handshake) == *old(handshake)
                &&& *final(config) == *old(config)
                &&& e == if old(handshake).status != HandshakeStatus::Accepted && old(
                    handshake,
                ).status != HandshakeStatus::Delivered {
                    SourError::InvalidStatus
                } else if caller != old(handshake).creator && caller != old(handshake).worker {
                    SourError::NotParticipant
                } else {
                    SourError::MathOverflow
                }
            },
        },
{
    if handshake.status != HandshakeStatus::Accepted && handshake.status
        != HandshakeStatus::Delivered {
        return Err(SourError::InvalidStatus);
    }
    if caller != handshake.creator && caller != handshake.worker {
        return Err(SourError::NotParticipant);
    }
    let total_disputed: u64 = match config.total_disputed.checked_add(1) {
        Some(v) => v,
        None => {
            return Err(SourError::MathOverflow);
        },
    };
    handshake.status = HandshakeStatus::Disputed;
    handshake.disputed_by = Some(caller);
    config.total_disputed = total_disputed;
    Ok(HandshakeDisputed { handshake_id: handshake.id, disputed_by: caller, disputed_at: now })
}

/// The creator cancels before acceptance and gets the whole vault back:
/// the returned amount is the vault's actual balance, which the caller
/// must transfer back to the creator (skipping the transfer when it is
/// zero).
///
/// Succeeds exactly when the record is still Created and the caller is
/// the recorded creator.
pub fn cancel(handshake: &mut Handshake, caller: AccountId, now: i64, vault_balance: u64) -> (r:
    Result<(u64, HandshakeCancelled), SourError>)
    requires
        old(handshake).well_formed(),
        now >= old(handshake).created_at,
    ensures
        final(handshake).well_formed(),
        status_step(old(handshake).status, final(handshake).status),
        r is Ok <==> {
            &&& old(handshake).status == HandshakeStatus::Created
            &&& caller == old(handshake).creator
        },
        match r {
            Ok((refund, ev)) => {
                &&& refund == vault_balance
                &&& *final(handshake) == (Handshake {
                    status: HandshakeStatus::Cancelled,
                    resolved_at: now,
                    ..*old(handshake)
                })
                &&& ev == (HandshakeCancelled {
                    handshake_id: old(handshake).id,
                    creator: old(handshake).creator,
                    cancelled_at: now,
                })
            },
            Err(e) => {
                &&& *final(handshake) == *old(handshake)
                &&& e == if old(handshake).status != HandshakeStatus::Created {
                    SourError::InvalidStatus
                } else {
                    SourError::NotCreator
                }
            },
        },
{
    if handshake.status != HandshakeStatus::Created {
        return Err(SourError::InvalidStatus);
    }
    if caller != handshake.creator {
        return Err(SourError::NotCreator);
    }
    handshake.status = HandshakeStatus::Cancelled;
    handshake.resolved_at = now;
    let event = HandshakeCancelled {
        handshake_id: handshake.id,
        creator: handshake.creator,
        cancelled_at: now,
    };
    Ok((vault_balance, event))
}

/// The protocol authority rules on a dispute. A refund ruling (wire code
/// 0) sends the vault's entire actual balance back to the creator with
/// no fee, even if that balance has drifted from the recorded amount; a
/// pay-worker ruling (wire code 1) disburses the recorded amount under
/// exactly the pinch-fee split an approval would apply, and counts the
/// record as completed. Either way the record becomes Resolved.
///
/// Succeeds exactly when the caller is the authority, the record is
/// Disputed, the ruling decodes, and — for a pay-worker ruling — the
/// lifetime totals have room.
pub fn resolve_dispute(
    handshake: &mut Handshake,
    config: &mut ProtocolConfig,
    caller: AccountId,
    ruling: u8,
    now: i64,
    vault_balance: u64,
) -> (r: Result<(Settlement, DisputeResolved), SourError>)
    requires
        old(handshake).well_formed(),
        old(config).well_formed(),
        now >= old(handshake).accepted_at,
        now >= old(handshake).delivered_at,
    ensures
        final(handshake).well_formed(),
        final(config).well_formed(),
        status_step(old(handshake).status, final(handshake).status),
        r is Ok <==> {
            &&& caller == old(config).authority
            &&& old(handshake).status == HandshakeStatus::Disputed
            &&& ruling <= 1
            &&& (ruling == 1 ==> payout_totals_fit(*old(config), old(handshake).amount))
        },
        match r {
            Ok((settlement, ev)) => {
                &&& *final(handshake) == (Handshake {
                    status: HandshakeStatus::Resolved,
                    resolved_at: now,
                    ..*old(handshake)
                })
                &&& ev == (DisputeResolved {
                    handshake_id: old(handshake).id,
                    ruling,
                    resolved_at: now,
                })
                &&& ruling == 0 ==> {
                    &&& settlement == (Settlement::Refund { amount: vault_balance })
                    &&& *final(config) == *old(config)
                }
                &&& ruling == 1 ==> match settlement {
                    Settlement::PayWorker { split: s } => {
                        &&& is_split_for(
                            s,
                            old(handshake).amount,
                            old(config).pinch_bps,
                            old(config).treasury_share_bps,
                            old(config).keepers_share_bps,
                        )
                        &&& s.worker_amount + s.treasury_amount + s.keepers_amount
                            + s.commons_amount == old(handshake).amount
                        &&& *final(config) == config_after_payout(
                            *old(config),
                            old(handshake).amount,
                        )
                    },
                    Settlement::Refund { .. } => false,
                }
            },
            Err(e) => {
                &&& *final(handshake) == *old(handshake)
                &&& *final(config) == *old(config)
                &&& e == if caller != old(config).authority {
                    SourError::NotAuthority
                } else if old(handshake).status != HandshakeStatus::Disputed {
                    SourError::InvalidStatus
                } else if ruling > 1 {
                    SourError::InvalidRuling
                } else {
                    SourError::MathOverflow
                }
            },
        },
{
    if caller != config.authority {
        return Err(SourError::NotAuthority);
    }
    if handshake.status != HandshakeStatus::Disputed {
        return Err(SourError::InvalidStatus);
    }
    let ruling_kind = match Ruling::from_code(ruling) {
        Ok(k) => k,
        Err(e) => {
            return Err(e);
        },
    };
    let settlement = match ruling_kind {
        Ruling::Refund => Settlement::Refund { amount: vault_balance },
        Ruling::PayWorker => {
            let s = split(
                handshake.amount,
                config.pinch_bps,
                config.treasury_share_bps,
                config.keepers_share_bps,
                config.commons_share_bps,
            );
            let total_completed: u64 = match config.total_completed.checked_add(1) {
                Some(v) => v,
                None => {
                    return Err(SourError::MathOverflow);
                },
            };
            let total_to_treasury: u64 = match config.total_to_treasury.checked_add(
                s.treasury_amount,
            ) {
                Some(v) => v,
                None => {
                    return Err(SourError::MathOverflow);
                },
            };
            let total_to_keepers: u64 = match config.total_to_keepers.checked_add(
                s.keepers_amount,
            ) {
                Some(v) => v,
                None => {
                    return Err(SourError::MathOverflow);
                },
            };
            let total_to_commons: u64 = match config.total_to_commons.checked_add(
                s.commons_amount,
            ) {
                Some(v) => v,
                None => {
                    return Err(SourError::MathOverflow);
                },
            };
            config.total_completed = total_completed;
            config.total_to_treasury = total_to_treasury;
            config.total_to_keepers = total_to_keepers;
            config.total_to_commons = total_to_commons;
            Settlement::PayWorker { split: s }
        },
    };
    handshake.status = HandshakeStatus::Resolved;
    handshake.resolved_at = now;
    let event = DisputeResolved { handshake_id: handshake.id, ruling, resolved_at: now };
    Ok((settlement, event))
}

/// An approval and a pay-worker ruling disburse identically: the split
/// relation that both contracts pin their disbursement to determines the
/// split uniquely, so for the same amount and the same rates the two
/// operations cannot drift apart.
pub proof fn lemma_resolve_pay_matches_approve(
    s1: FeeSplit,
    s2: FeeSplit,
    amount: u64,
    pinch_bps: u16,
    treasury_share_bps: u16,
    keepers_share_bps: u16,
)
    requires
        is_split_for(s1, amount, pinch_bps, treasury_share_bps, keepers_share_bps),
        is_split_for(s2, amount, pinch_bps, treasury_share_bps, keepers_share_bps),
    ensures
        s1 == s2,
{
}

} // verus!
