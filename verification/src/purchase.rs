//! The purchase engine: validates a buy request, computes the token amount
//! from the configured price with a fail-closed overflow policy, and
//! accounts the credit on the buyer's record. The two value-transfer legs
//! (settlement currency to the treasury, tokens to the buyer) are carried
//! out by the ledger runtime exactly when the decision here is `Ok`.

use vstd::prelude::*;
use crate::address::Address;
use crate::errors::CustomError;
use crate::sale::Ico;

verus! {

/// One million token smallest units: the denomination the price is quoted
/// against.
pub const PRICE_UNIT: u64 = 1000000;

/// Per-buyer accumulator of tokens received through this sale.
#[derive(Clone, Copy, Debug, PartialEq, Eq, Structural)]
pub struct User {
    /// The buyer's identity, set on first purchase.
    pub usr: Address,
    /// Running sum of token units ever credited to this buyer; it never
    /// decreases.
    pub amt: u64,
}

impl User {
    /// A fresh, empty record for `buyer`, as the store creates one lazily
    /// on a buyer's first purchase.
    pub fn new(buyer: Address) -> (r: User)
        ensures
            r == (User { usr: buyer, amt: 0 }),
    {
        User { usr: buyer, amt: 0 }
    }
}

/// The token amount a payment buys at `price`:
/// floor(payment * 1_000_000 / price).
pub open spec fn token_amount(payment: u64, price: u64) -> int
    recommends
        price != 0,
{
    (payment * PRICE_UNIT) / (price as int)
}

/// Computes how many token units `amount` buys under `ico`. The scaling
/// multiplication fails closed with `ArithmeticOverflow` when
/// `amount * 1_000_000` does not fit in 64 bits, rather than wrapping; the
/// division result then always fits, since the price is positive.
pub fn calculate_value(ico: &Ico, amount: u64) -> (r: Result<u64, CustomError>)
    requires
        ico.wf(),
    ensures
        amount * PRICE_UNIT <= u64::MAX ==> r == Ok::<u64, CustomError>(
            (token_amount(amount, ico.price) as u64),
        ),
        amount * PRICE_UNIT > u64::MAX ==> r == Err::<u64, CustomError>(
            CustomError::ArithmeticOverflow,
        ),
{
    match amount.checked_mul(PRICE_UNIT) {
        Some(scaled) => Ok(scaled / ico.price),
        None => Err(CustomError::ArithmeticOverflow),
    }
}

/// What `buy` decides for a request: the token amount to credit together
/// with the updated buyer record, or the exact failure reason. The checks
/// run in order: zero payment, treasury match, scaling overflow, buyer
/// balance, running-total overflow.
pub open spec fn buy_spec(
    ico: Ico,
    buyer: Address,
    buyer_balance: u64,
    supplied_treasury: Address,
    record: User,
    payment: u64,
) -> Result<(u64, User), CustomError>
    recommends
        ico.wf(),
{
    if payment == 0 {
        Err(CustomError::InvalidAmount)
    } else if supplied_treasury != ico.treasury {
        Err(CustomError::AccountMismatch)
    } else if payment * PRICE_UNIT > u64::MAX {
        Err(CustomError::ArithmeticOverflow)
    } else if buyer_balance < payment {
        Err(CustomError::NotEnoughSol)
    } else if record.amt + token_amount(payment, ico.price) > u64::MAX {
        Err(CustomError::ArithmeticOverflow)
    } else {
        Ok(
            (
                token_amount(payment, ico.price) as u64,
                User {
                    usr: buyer,
                    amt: (record.amt + token_amount(payment, ico.price)) as u64,
                },
            ),
        )
    }
}

/// Decides a purchase and accounts it on the buyer's record.
///
/// `buyer_balance` is the buyer's settlement-currency balance as read from
/// the ledger; `supplied_treasury` is the treasury account the caller named,
/// which must match the configured one; `record` is the buyer's (possibly
/// freshly created) record. On success, the returned token amount is to be
/// released to the buyer, exactly `payment` is to move to the treasury, and
/// the record carries the credit. On any failure the record is untouched
/// and neither transfer is to be made.
pub fn buy(
    ico: &Ico,
    buyer: Address,
    buyer_balance: u64,
    supplied_treasury: Address,
    record: &mut User,
    payment: u64,
) -> (r: Result<u64, CustomError>)
    requires
        ico.wf(),
    ensures
        match buy_spec(*ico, buyer, buyer_balance, supplied_treasury, *old(record), payment) {
            Ok(p) => r == Ok::<u64, CustomError>(p.0) && *final(record) == p.1,
            Err(e) => r == Err::<u64, CustomError>(e) && *final(record) == *old(record),
        },
{
    if payment == 0 {
        return Err(CustomError::InvalidAmount);
    }
    if supplied_treasury != ico.treasury {
        return Err(CustomError::AccountMismatch);
    }
    let total_amount = match calculate_value(ico, payment) {
        Ok(t) => t,
        Err(e) => {
            return Err(e);
        },
    };
    if buyer_balance < payment {
        return Err(CustomError::NotEnoughSol);
    }
    let new_total = match record.amt.checked_add(total_amount) {
        Some(t) => t,
        None => {
            return Err(CustomError::ArithmeticOverflow);
        },
    };
    record.usr = buyer;
    record.amt = new_total;
    Ok(total_amount)
}

/// On a well-formed configuration, a positive payment to the configured
/// treasury from a sufficiently funded buyer always succeeds, buying
/// exactly floor(payment * 1_000_000 / price) token units, credited once
/// onto the record's running total.
pub proof fn lemma_buy_success(
    ico: Ico,
    buyer: Address,
    buyer_balance: u64,
    record: User,
    payment: u64,
)
    requires
        ico.wf(),
        payment > 0,
        buyer_balance >= payment,
        payment * PRICE_UNIT <= u64::MAX,
        record.amt + token_amount(payment, ico.price) <= u64::MAX,
    ensures
        buy_spec(ico, buyer, buyer_balance, ico.treasury, record, payment) == Ok::<
            (u64, User),
            CustomError,
        >(
            (
                token_amount(payment, ico.price) as u64,
                User {
                    usr: buyer,
                    amt: (record.amt + token_amount(payment, ico.price)) as u64,
                },
            ),
        ),
{
}

/// Purchases accumulate: a second buy with the same valid inputs succeeds,
/// yields the same token amount, and leaves the record's running total at
/// its starting value plus twice that amount — credits add up, nothing is
/// overwritten.
pub proof fn lemma_buy_twice_accumulates(
    ico: Ico,
    buyer: Address,
    buyer_balance: u64,
    record: User,
    payment: u64,
)
    requires
        ico.wf(),
        payment > 0,
        buyer_balance >= payment,
        payment * PRICE_UNIT <= u64::MAX,
        record.amt + 2 * token_amount(payment, ico.price) <= u64::MAX,
    ensures
        ({
            let t = token_amount(payment, ico.price);
            let first = buy_spec(ico, buyer, buyer_balance, ico.treasury, record, payment);
            &&& first matches Ok(p1)
            &&& p1.0 == t
            &&& buy_spec(ico, buyer, buyer_balance, ico.treasury, p1.1, payment) matches Ok(p2)
            &&& p2.0 == t
            &&& p2.1.amt == record.amt + 2 * t
            &&& p2.1.usr == buyer
        }),
{
}

/// Whatever a purchase decides, the buyer's running total never decreases.
pub proof fn lemma_total_monotonic(
    ico: Ico,
    buyer: Address,
    buyer_balance: u64,
    supplied_treasury: Address,
    record: User,
    payment: u64,
)
    requires
        ico.wf(),
    ensures
        match buy_spec(ico, buyer, buyer_balance, supplied_treasury, record, payment) {
            Ok(p) => p.1.amt >= record.amt,
            Err(_) => true,
        },
{
}

} // verus!

