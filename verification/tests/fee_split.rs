use sour_protocol::fees::split;

#[test]
fn split_example_large() {
    // amount 1,000,000 at a 2% pinch, shares 50/30/20.
    let s = split(1_000_000, 200, 5000, 3000, 2000);
    assert_eq!(s.treasury_amount, 10_000);
    assert_eq!(s.keepers_amount, 6_000);
    assert_eq!(s.commons_amount, 4_000);
    assert_eq!(s.worker_amount, 980_000);
}

#[test]
fn split_example_tiny_amount_rounds_to_zero_fee() {
    // floor(7 * 200 / 10000) = 0: the whole amount goes to the worker
    // and every fee slice is zero, so no fee transfer is to be made.
    let s = split(7, 200, 5000, 3000, 2000);
    assert_eq!(s.treasury_amount, 0);
    assert_eq!(s.keepers_amount, 0);
    assert_eq!(s.commons_amount, 0);
    assert_eq!(s.worker_amount, 7);
}

#[test]
fn split_conserves_amount_on_awkward_inputs() {
    let cases: [(u64, u16, u16, u16, u16); 6] = [
        (0, 200, 5000, 3000, 2000),
        (1, 5000, 3333, 3333, 3334),
        (999_999, 4999, 3333, 3333, 3334),
        (u64::MAX, 5000, 1, 1, 9998),
        (123_456_789, 1, 9999, 0, 1),
        (17, 5000, 0, 0, 10000),
    ];
    for (amount, pinch, t, k, c) in cases {
        let s = split(amount, pinch, t, k, c);
        let total = s
            .worker_amount
            .checked_add(s.treasury_amount)
            .and_then(|v| v.checked_add(s.keepers_amount))
            .and_then(|v| v.checked_add(s.commons_amount))
            .unwrap();
        assert_eq!(total, amount);
    }
}

#[test]
fn split_commons_absorbs_rounding_dust() {
    // pinch_total = floor(101 * 5000 / 10000) = 50;
    // treasury = floor(50 * 3333 / 10000) = 16; keepers = 16;
    // commons takes the remainder 18 rather than floor(50 * 3334 / 10000) = 16.
    let s = split(101, 5000, 3333, 3333, 3334);
    assert_eq!(s.treasury_amount, 16);
    assert_eq!(s.keepers_amount, 16);
    assert_eq!(s.commons_amount, 18);
    assert_eq!(s.worker_amount, 51);
}

#[test]
fn split_with_maximal_pinch_halves_the_amount() {
    let s = split(1000, 5000, 5000, 3000, 2000);
    assert_eq!(s.worker_amount, 500);
    assert_eq!(s.treasury_amount + s.keepers_amount + s.commons_amount, 500);
}
