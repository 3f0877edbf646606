use sour_protocol::account::AccountId;
use sour_protocol::errors::SourError;
use sour_protocol::handshake::{
    accept_handshake, approve, cancel, create_handshake, deliver, dispute, initialize_config,
    resolve_dispute, Settlement,
};
use sour_protocol::state::{Handshake, HandshakeStatus, ProtocolConfig, Ruling};

fn acct(n: u64) -> AccountId {
    AccountId::new(n, 0, 0, 0)
}

fn authority() -> AccountId {
    acct(1)
}

fn creator() -> AccountId {
    acct(10)
}

fn worker() -> AccountId {
    acct(11)
}

fn fresh_config() -> ProtocolConfig {
    let (config, _) = initialize_config(
        authority(),
        acct(2),
        acct(3),
        acct(4),
        acct(5),
        200,
        5000,
        3000,
        2000,
    )
    .unwrap();
    config
}

fn created(config: &mut ProtocolConfig) -> Handshake {
    let (h, _) = create_handshake(
        config,
        creator(),
        worker(),
        String::from("bake twelve loaves"),
        1_000_000,
        1_000,
        100,
        7,
    )
    .unwrap();
    h
}

fn delivered(config: &mut ProtocolConfig) -> Handshake {
    let mut h = created(config);
    accept_handshake(&mut h, worker(), 150).unwrap();
    deliver(&mut h, worker(), 200).unwrap();
    h
}

#[test]
fn config_initialization_checks_rates() {
    let r = initialize_config(authority(), acct(2), acct(3), acct(4), acct(5), 5001, 5000, 3000, 2000);
    assert_eq!(r.unwrap_err(), SourError::InvalidPinchBps);
    let r = initialize_config(authority(), acct(2), acct(3), acct(4), acct(5), 200, 5000, 3000, 1999);
    assert_eq!(r.unwrap_err(), SourError::InvalidFeeShares);
    let config = fresh_config();
    assert_eq!(config.handshake_count, 0);
    assert_eq!(config.total_completed, 0);
    assert_eq!(config.total_disputed, 0);
    assert_eq!(config.total_to_treasury, 0);
    assert_eq!(config.total_to_keepers, 0);
    assert_eq!(config.total_to_commons, 0);
}

#[test]
fn create_with_zero_amount_fails_and_locks_nothing() {
    let mut config = fresh_config();
    let before = config;
    let r = create_handshake(
        &mut config,
        creator(),
        worker(),
        String::from("nothing"),
        0,
        1_000,
        100,
        7,
    );
    assert_eq!(r.unwrap_err(), SourError::ZeroAmount);
    // no record exists, no transfer was requested, the counter did not move
    assert_eq!(config, before);
}

#[test]
fn create_validations() {
    let mut config = fresh_config();
    let long = "x".repeat(281);
    let r = create_handshake(&mut config, creator(), worker(), long, 5, 1_000, 100, 7);
    assert_eq!(r.unwrap_err(), SourError::DescriptionTooLong);

    let widest = "y".repeat(280);
    let r = create_handshake(&mut config, creator(), worker(), widest, 5, 1_000, 100, 7);
    assert!(r.is_ok());

    let r = create_handshake(&mut config, creator(), creator(), String::new(), 5, 1_000, 100, 7);
    assert_eq!(r.unwrap_err(), SourError::SelfHandshake);

    let r = create_handshake(&mut config, creator(), worker(), String::new(), 5, 100, 100, 7);
    assert_eq!(r.unwrap_err(), SourError::DeadlineInPast);
}

#[test]
fn create_assigns_sequence_numbers_and_initial_state() {
    let mut config = fresh_config();
    let first = created(&mut config);
    let second = created(&mut config);
    assert_eq!(first.id, 0);
    assert_eq!(second.id, 1);
    assert_eq!(config.handshake_count, 2);
    assert_eq!(first.status, HandshakeStatus::Created);
    assert_eq!(first.created_at, 100);
    assert_eq!(first.deadline_ts, 1_000);
    assert_eq!(first.accepted_at, 0);
    assert_eq!(first.delivered_at, 0);
    assert_eq!(first.resolved_at, 0);
    assert_eq!(first.disputed_by, None);
    assert_eq!(first.vault_bump, 7);
}

#[test]
fn create_counter_overflow_is_rejected() {
    let mut config = fresh_config();
    config.handshake_count = u64::MAX;
    let r = create_handshake(&mut config, creator(), worker(), String::new(), 5, 1_000, 100, 7);
    assert_eq!(r.unwrap_err(), SourError::MathOverflow);
    assert_eq!(config.handshake_count, u64::MAX);
}

#[test]
fn full_lifecycle_reaches_approved_with_fee_breakdown() {
    let mut config = fresh_config();
    let mut h = created(&mut config);

    let ev = accept_handshake(&mut h, worker(), 150).unwrap();
    assert_eq!(h.status, HandshakeStatus::Accepted);
    assert_eq!(h.accepted_at, 150);
    assert_eq!(ev.accepted_at, 150);

    let ev = deliver(&mut h, worker(), 200).unwrap();
    assert_eq!(h.status, HandshakeStatus::Delivered);
    assert_eq!(h.delivered_at, 200);
    assert_eq!(ev.delivered_at, 200);

    let (split, ev) = approve(&mut h, &mut config, creator(), 300).unwrap();
    assert_eq!(h.status, HandshakeStatus::Approved);
    assert_eq!(h.resolved_at, 300);
    assert_eq!(split.worker_amount, 980_000);
    assert_eq!(split.treasury_amount, 10_000);
    assert_eq!(split.keepers_amount, 6_000);
    assert_eq!(split.commons_amount, 4_000);
    assert_eq!(ev.pinch_total, 20_000);
    assert_eq!(ev.to_treasury, 10_000);
    assert_eq!(ev.to_keepers, 6_000);
    assert_eq!(ev.to_commons, 4_000);
    assert_eq!(config.total_completed, 1);
    assert_eq!(config.total_to_treasury, 10_000);
    assert_eq!(config.total_to_keepers, 6_000);
    assert_eq!(config.total_to_commons, 4_000);
}

#[test]
fn out_of_order_operations_fail_with_invalid_status_and_change_nothing() {
    let mut config = fresh_config();
    let mut h = created(&mut config);

    // deliver and approve before acceptance
    let snapshot = h.clone();
    assert_eq!(deliver(&mut h, worker(), 150).unwrap_err(), SourError::InvalidStatus);
    assert_eq!(h, snapshot);
    assert_eq!(
        approve(&mut h, &mut config, creator(), 150).unwrap_err(),
        SourError::InvalidStatus
    );
    assert_eq!(h, snapshot);

    // accepting twice
    accept_handshake(&mut h, worker(), 150).unwrap();
    let snapshot = h.clone();
    assert_eq!(
        accept_handshake(&mut h, worker(), 160).unwrap_err(),
        SourError::InvalidStatus
    );
    assert_eq!(h, snapshot);

    // approve before delivery
    assert_eq!(
        approve(&mut h, &mut config, creator(), 160).unwrap_err(),
        SourError::InvalidStatus
    );
    assert_eq!(h, snapshot);

    // nothing after a terminal status
    deliver(&mut h, worker(), 200).unwrap();
    approve(&mut h, &mut config, creator(), 300).unwrap();
    let snapshot = h.clone();
    assert_eq!(
        accept_handshake(&mut h, worker(), 350).unwrap_err(),
        SourError::InvalidStatus
    );
    assert_eq!(deliver(&mut h, worker(), 350).unwrap_err(), SourError::InvalidStatus);
    assert_eq!(
        approve(&mut h, &mut config, creator(), 350).unwrap_err(),
        SourError::InvalidStatus
    );
    assert_eq!(
        dispute(&mut h, &mut config, worker(), 350).unwrap_err(),
        SourError::InvalidStatus
    );
    assert_eq!(
        cancel(&mut h, creator(), 350, 0).unwrap_err(),
        SourError::InvalidStatus
    );
    assert_eq!(h, snapshot);
}

#[test]
fn authorization_guards() {
    let mut config = fresh_config();
    let mut h = created(&mut config);

    assert_eq!(
        accept_handshake(&mut h, creator(), 150).unwrap_err(),
        SourError::NotWorker
    );
    accept_handshake(&mut h, worker(), 150).unwrap();
    assert_eq!(deliver(&mut h, creator(), 200).unwrap_err(), SourError::NotWorker);
    deliver(&mut h, worker(), 200).unwrap();
    assert_eq!(
        approve(&mut h, &mut config, worker(), 300).unwrap_err(),
        SourError::NotCreator
    );
    assert_eq!(
        dispute(&mut h, &mut config, acct(99), 300).unwrap_err(),
        SourError::NotParticipant
    );
}

#[test]
fn accept_respects_the_deadline() {
    let mut config = fresh_config();
    let mut h = created(&mut config);
    // exactly at the deadline is still acceptable
    let r = accept_handshake(&mut h, worker(), 1_000);
    assert!(r.is_ok());

    let mut h2 = created(&mut config);
    let r = accept_handshake(&mut h2, worker(), 1_001);
    assert_eq!(r.unwrap_err(), SourError::HandshakeExpired);
    assert_eq!(h2.status, HandshakeStatus::Created);
}

#[test]
fn cancel_only_before_acceptance() {
    let mut config = fresh_config();
    let mut h = created(&mut config);

    assert_eq!(cancel(&mut h, worker(), 120, 9).unwrap_err(), SourError::NotCreator);

    let (refund, ev) = cancel(&mut h, creator(), 120, 1_000_000).unwrap();
    assert_eq!(refund, 1_000_000);
    assert_eq!(h.status, HandshakeStatus::Cancelled);
    assert_eq!(h.resolved_at, 120);
    assert_eq!(ev.cancelled_at, 120);

    // once accepted, cancel always fails
    let mut h2 = created(&mut config);
    accept_handshake(&mut h2, worker(), 150).unwrap();
    let snapshot = h2.clone();
    assert_eq!(
        cancel(&mut h2, creator(), 200, 1_000_000).unwrap_err(),
        SourError::InvalidStatus
    );
    assert_eq!(h2, snapshot);
}

#[test]
fn dispute_from_accepted_and_delivered_only() {
    let mut config = fresh_config();

    // not from Created
    let mut h = created(&mut config);
    assert_eq!(
        dispute(&mut h, &mut config, creator(), 150).unwrap_err(),
        SourError::InvalidStatus
    );

    // from Accepted, by the creator
    accept_handshake(&mut h, worker(), 150).unwrap();
    let ev = dispute(&mut h, &mut config, creator(), 160).unwrap();
    assert_eq!(h.status, HandshakeStatus::Disputed);
    assert_eq!(h.disputed_by, Some(creator()));
    assert_eq!(ev.disputed_by, creator());
    assert_eq!(config.total_disputed, 1);

    // from Delivered, by the worker
    let mut h2 = delivered(&mut config);
    dispute(&mut h2, &mut config, worker(), 250).unwrap();
    assert_eq!(h2.status, HandshakeStatus::Disputed);
    assert_eq!(h2.disputed_by, Some(worker()));
    assert_eq!(config.total_disputed, 2);

    // not from Disputed again
    assert_eq!(
        dispute(&mut h2, &mut config, worker(), 260).unwrap_err(),
        SourError::InvalidStatus
    );
}

#[test]
fn resolve_refund_returns_actual_vault_balance_without_fee() {
    let mut config = fresh_config();
    let mut h = delivered(&mut config);
    dispute(&mut h, &mut config, creator(), 250).unwrap();

    let config_before = config;
    // the vault balance has drifted from the recorded amount
    let drifted_balance = 999_983;
    let (settlement, ev) = resolve_dispute(&mut h, &mut config, authority(), 0, 300, drifted_balance)
        .unwrap();
    match settlement {
        Settlement::Refund { amount } => assert_eq!(amount, drifted_balance),
        Settlement::PayWorker { .. } => panic!("refund ruling must not pay the worker"),
    }
    assert_eq!(h.status, HandshakeStatus::Resolved);
    assert_eq!(h.resolved_at, 300);
    assert_eq!(ev.ruling, 0);
    // a refund counts nothing as completed and routes no fee
    assert_eq!(config, config_before);
}

#[test]
fn resolve_pay_worker_matches_approve_split() {
    let mut config_a = fresh_config();
    let mut approved = delivered(&mut config_a);
    let (approve_split, _) = approve(&mut approved, &mut config_a, creator(), 300).unwrap();

    let mut config_b = fresh_config();
    let mut disputed = delivered(&mut config_b);
    dispute(&mut disputed, &mut config_b, worker(), 250).unwrap();
    let (settlement, ev) =
        resolve_dispute(&mut disputed, &mut config_b, authority(), 1, 300, 1_000_000).unwrap();
    let resolve_split = match settlement {
        Settlement::PayWorker { split } => split,
        Settlement::Refund { .. } => panic!("pay-worker ruling must not refund"),
    };
    assert_eq!(resolve_split, approve_split);
    assert_eq!(ev.ruling, 1);
    assert_eq!(disputed.status, HandshakeStatus::Resolved);
    // the same lifetime totals move as on an approval
    assert_eq!(config_b.total_completed, 1);
    assert_eq!(config_b.total_to_treasury, config_a.total_to_treasury);
    assert_eq!(config_b.total_to_keepers, config_a.total_to_keepers);
    assert_eq!(config_b.total_to_commons, config_a.total_to_commons);
}

#[test]
fn resolve_guards() {
    let mut config = fresh_config();
    let mut h = delivered(&mut config);

    // only from Disputed
    assert_eq!(
        resolve_dispute(&mut h, &mut config, authority(), 0, 300, 5).unwrap_err(),
        SourError::InvalidStatus
    );

    dispute(&mut h, &mut config, creator(), 250).unwrap();

    // only the authority
    assert_eq!(
        resolve_dispute(&mut h, &mut config, creator(), 0, 300, 5).unwrap_err(),
        SourError::NotAuthority
    );

    // only rulings 0 and 1
    let snapshot = h.clone();
    assert_eq!(
        resolve_dispute(&mut h, &mut config, authority(), 2, 300, 5).unwrap_err(),
        SourError::InvalidRuling
    );
    assert_eq!(h, snapshot);
}

#[test]
fn ruling_decoding() {
    assert_eq!(Ruling::from_code(0).unwrap(), Ruling::Refund);
    assert_eq!(Ruling::from_code(1).unwrap(), Ruling::PayWorker);
    assert_eq!(Ruling::from_code(2).unwrap_err(), SourError::InvalidRuling);
    assert_eq!(Ruling::from_code(255).unwrap_err(), SourError::InvalidRuling);
}

#[test]
fn approve_overflowing_lifetime_totals_is_rejected_atomically() {
    let mut config = fresh_config();
    let mut h = delivered(&mut config);
    config.total_to_keepers = u64::MAX;
    let config_before = config;
    let snapshot = h.clone();
    assert_eq!(
        approve(&mut h, &mut config, creator(), 300).unwrap_err(),
        SourError::MathOverflow
    );
    // the earlier totals were not bumped either: all or nothing
    assert_eq!(config, config_before);
    assert_eq!(h, snapshot);
}
