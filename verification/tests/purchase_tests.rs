use tokenico::{buy, calculate_value, initialize, Address, CustomError, User};

fn addr(n: u64) -> Address {
    Address { w0: n, w1: 0, w2: 0, w3: 0 }
}

#[test]
fn calculate_value_one_to_one() {
    let ico = initialize(1_000_000, addr(10), addr(20)).unwrap();
    assert_eq!(calculate_value(&ico, 123), Ok(123));
    assert_eq!(calculate_value(&ico, 5_000_000), Ok(5_000_000));
}

#[test]
fn calculate_value_floors() {
    let ico = initialize(3, addr(10), addr(20)).unwrap();
    // 10 * 1_000_000 / 3 = 3_333_333.33.. floors to 3_333_333.
    assert_eq!(calculate_value(&ico, 10), Ok(3_333_333));
    let ico7 = initialize(7, addr(10), addr(20)).unwrap();
    // 1_000_000 / 7 = 142_857.14.. floors to 142_857.
    assert_eq!(calculate_value(&ico7, 1), Ok(142_857));
}

#[test]
fn calculate_value_overflow_fails_closed() {
    let ico = initialize(1_000_000, addr(10), addr(20)).unwrap();
    assert_eq!(calculate_value(&ico, u64::MAX), Err(CustomError::ArithmeticOverflow));
    // The largest amount whose scaling still fits.
    assert_eq!(calculate_value(&ico, u64::MAX / 1_000_000), Ok(u64::MAX / 1_000_000));
}

#[test]
fn buy_one_to_one_rate_accumulates() {
    // Price 1_000_000 quotes one settlement unit per token unit.
    let ico = initialize(1_000_000, addr(10), addr(20)).unwrap();
    let buyer = addr(3);
    let mut record = User::new(buyer);
    assert_eq!(buy(&ico, buyer, 10_000_000, addr(10), &mut record, 5_000_000), Ok(5_000_000));
    assert_eq!(record.usr, buyer);
    assert_eq!(record.amt, 5_000_000);
    // A second identical purchase doubles the running total.
    assert_eq!(buy(&ico, buyer, 10_000_000, addr(10), &mut record, 5_000_000), Ok(5_000_000));
    assert_eq!(record.amt, 10_000_000);
}

#[test]
fn buy_half_rate_floors() {
    let ico = initialize(2_000_000, addr(10), addr(20)).unwrap();
    let buyer = addr(3);
    let mut record = User::new(buyer);
    assert_eq!(buy(&ico, buyer, 1_000_000, addr(10), &mut record, 1_000_000), Ok(500_000));
    assert_eq!(record.amt, 500_000);
}

#[test]
fn buy_zero_payment_rejected() {
    let ico = initialize(1_000_000, addr(10), addr(20)).unwrap();
    let buyer = addr(3);
    let mut record = User::new(buyer);
    assert_eq!(buy(&ico, buyer, 1_000_000, addr(10), &mut record, 0), Err(CustomError::InvalidAmount));
    assert_eq!(record, User::new(buyer));
}

#[test]
fn buy_insufficient_balance_rejected() {
    let ico = initialize(1_000_000, addr(10), addr(20)).unwrap();
    let buyer = addr(3);
    let mut record = User::new(buyer);
    assert_eq!(buy(&ico, buyer, 999, addr(10), &mut record, 1_000), Err(CustomError::NotEnoughSol));
    assert_eq!(record, User::new(buyer));
}

#[test]
fn buy_wrong_treasury_rejected() {
    let ico = initialize(1_000_000, addr(10), addr(20)).unwrap();
    let buyer = addr(3);
    let mut record = User::new(buyer);
    assert_eq!(buy(&ico, buyer, 1_000_000, addr(11), &mut record, 1_000), Err(CustomError::AccountMismatch));
    assert_eq!(record, User::new(buyer));
}

#[test]
fn buy_scaling_overflow_rejected() {
    let ico = initialize(1_000_000, addr(10), addr(20)).unwrap();
    let buyer = addr(3);
    let mut record = User::new(buyer);
    assert_eq!(
        buy(&ico, buyer, u64::MAX, addr(10), &mut record, u64::MAX),
        Err(CustomError::ArithmeticOverflow)
    );
    assert_eq!(record, User::new(buyer));
}

#[test]
fn buy_running_total_overflow_rejected() {
    let ico = initialize(1_000_000, addr(10), addr(20)).unwrap();
    let buyer = addr(3);
    let mut record = User { usr: buyer, amt: u64::MAX - 10 };
    assert_eq!(
        buy(&ico, buyer, 1_000, addr(10), &mut record, 1_000),
        Err(CustomError::ArithmeticOverflow)
    );
    assert_eq!(record, User { usr: buyer, amt: u64::MAX - 10 });
}

#[test]
fn buy_sets_buyer_identity_on_fresh_record() {
    let ico = initialize(1_000_000, addr(10), addr(20)).unwrap();
    let buyer = addr(7);
    // The store hands over a blank record on first purchase.
    let mut record = User::new(addr(0));
    let mut blank = User::new(addr(0));
    assert_eq!(blank.amt, 0);
    assert_eq!(buy(&ico, buyer, 50, addr(10), &mut record, 50), Ok(50));
    assert_eq!(record.usr, buyer);
    assert_eq!(record.amt, 50);
    // Checks run in order: a mismatched treasury is reported even when the
    // payment would also be unaffordable.
    assert_eq!(buy(&ico, buyer, 0, addr(11), &mut blank, 50), Err(CustomError::AccountMismatch));
}

#[test]
fn buy_accumulates_floored_amounts() {
    // 10 * 1_000_000 / 3 floors to 3_333_333 on each of two purchases.
    let ico = initialize(3, addr(10), addr(20)).unwrap();
    let buyer = addr(4);
    let mut record = User::new(buyer);
    assert_eq!(buy(&ico, buyer, 20, addr(10), &mut record, 10), Ok(3_333_333));
    assert_eq!(buy(&ico, buyer, 20, addr(10), &mut record, 10), Ok(3_333_333));
    assert_eq!(record.amt, 6_666_666);
}
