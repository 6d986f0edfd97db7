//! The sale configuration record and the operations that manage it:
//! creation, price updates, ownership transfer and treasury updates, each
//! mutation gated on the caller being the configured owner.

use vstd::prelude::*;
use crate::address::Address;
use crate::errors::CustomError;

verus! {

/// The sale configuration: a singleton record holding the admin-set price,
/// the treasury that receives proceeds, and the owner allowed to change it.
#[derive(Clone, Copy, Debug, PartialEq, Eq, Structural)]
pub struct Ico {
    /// Settlement-currency smallest units asked per 1,000,000 token
    /// smallest units.
    pub price: u64,
    /// Destination of settlement-currency proceeds.
    pub treasury: Address,
    /// The identity whose signature authorizes mutating this record.
    pub owner: Address,
}

impl Ico {
    /// A configuration is well formed when its price is positive. This
    /// holds from creation on, and every update preserves it.
    pub open spec fn wf(self) -> bool {
        self.price != 0
    }
}

/// Creates the sale configuration. A zero price is rejected with
/// `InvalidAmount` and nothing is created. The record lives at a fixed
/// derived location and the store refuses a second creation, so the first
/// caller to succeed fixes the initial owner.
pub fn initialize(price: u64, treasury: Address, owner: Address) -> (r: Result<Ico, CustomError>)
    ensures
        price == 0 ==> r == Err::<Ico, CustomError>(CustomError::InvalidAmount),
        price != 0 ==> r == Ok::<Ico, CustomError>((Ico { price, treasury, owner })),
        r matches Ok(ico) ==> ico.wf(),
{
    if price == 0 {
        return Err(CustomError::InvalidAmount);
    }
    Ok(Ico { price, treasury, owner })
}

/// Sets a new price. Only the owner may do this, and — matching the check
/// made at creation — a zero price is rejected, so a well-formed
/// configuration stays well formed. On any failure the record is unchanged.
pub fn update_price(ico: &mut Ico, caller: Address, price: u64) -> (r: Result<(), CustomError>)
    ensures
        caller != old(ico).owner ==> r == Err::<(), CustomError>(CustomError::Unauthorized)
            && *final(ico) == *old(ico),
        caller == old(ico).owner && price == 0 ==> r == Err::<(), CustomError>(
            CustomError::InvalidAmount,
        ) && *final(ico) == *old(ico),
        caller == old(ico).owner && price != 0 ==> r == Ok::<(), CustomError>(())
            && *final(ico) == (Ico { price, ..*old(ico) }),
        r matches Ok(u) ==> final(ico).wf(),
{
    if caller != ico.owner {
        return Err(CustomError::Unauthorized);
    }
    if price == 0 {
        return Err(CustomError::InvalidAmount);
    }
    ico.price = price;
    Ok(())
}

/// Hands the configuration to a new owner. Only the current owner may do
/// this; afterwards only `new_owner` can mutate the record. On failure the
/// record is unchanged.
pub fn transfer_ownership(ico: &mut Ico, caller: Address, new_owner: Address) -> (r: Result<
    (),
    CustomError,
>)
    ensures
        caller != old(ico).owner ==> r == Err::<(), CustomError>(CustomError::Unauthorized)
            && *final(ico) == *old(ico),
        caller == old(ico).owner ==> r == Ok::<(), CustomError>(()) && *final(ico) == (Ico {
            owner: new_owner,
            ..*old(ico)
        }),
        old(ico).wf() ==> final(ico).wf(),
{
    if caller != ico.owner {
        return Err(CustomError::Unauthorized);
    }
    ico.owner = new_owner;
    Ok(())
}

/// Redirects future proceeds to a new treasury. Only the owner may do
/// this. On failure the record is unchanged.
pub fn update_treasury(ico: &mut Ico, caller: Address, new_treasury: Address) -> (r: Result<
    (),
    CustomError,
>)
    ensures
        caller != old(ico).owner ==> r == Err::<(), CustomError>(CustomError::Unauthorized)
            && *final(ico) == *old(ico),
        caller == old(ico).owner ==> r == Ok::<(), CustomError>(()) && *final(ico) == (Ico {
            treasury: new_treasury,
            ..*old(ico)
        }),
        old(ico).wf() ==> final(ico).wf(),
{
    if caller != ico.owner {
        return Err(CustomError::Unauthorized);
    }
    ico.treasury = new_treasury;
    Ok(())
}

} // verus!
