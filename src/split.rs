use vstd::prelude::*;

use crate::error::BountyGraphError;

verus! {

/// The creator's part of `balance` at `creator_pct` percent, rounded down.
pub open spec fn creator_share(balance: int, creator_pct: int) -> int {
    balance * creator_pct / 100
}

/// The worker's part: whatever the creator's part leaves, so that nothing is
/// lost to rounding.
pub open spec fn worker_share(balance: int, creator_pct: int) -> int {
    balance - creator_share(balance, creator_pct)
}

/// Whether the split can be computed in 64-bit arithmetic: the product does
/// not overflow and the creator's part does not exceed the balance.
pub open spec fn split_fits(balance: u64, creator_pct: u8) -> bool {
    &&& balance * creator_pct <= u64::MAX
    &&& creator_share(balance as int, creator_pct as int) <= balance
}

/// Splits an escrowed balance between creator and worker, returning
/// `(creator_amount, worker_amount)`.
pub fn split_escrow(balance: u64, creator_pct: u8) -> (r: Result<(u64, u64), BountyGraphError>)
    ensures
        match r {
            Ok((creator_amount, worker_amount)) => {
                &&& split_fits(balance, creator_pct)
                &&& creator_amount == creator_share(balance as int, creator_pct as int)
                &&& worker_amount == worker_share(balance as int, creator_pct as int)
            },
            Err(e) => !split_fits(balance, creator_pct) && e == BountyGraphError::ArithmeticOverflow,
        },
{
    let product = match balance.checked_mul(creator_pct as u64) {
        Some(p) => p,
        None => return Err(BountyGraphError::ArithmeticOverflow),
    };
    let creator_amount = product / 100;
    let worker_amount = match balance.checked_sub(creator_amount) {
        Some(w) => w,
        None => return Err(BountyGraphError::ArithmeticOverflow),
    };
    Ok((creator_amount, worker_amount))
}

/// A percentage of at most 100 never gives the creator more than the balance.
pub proof fn lemma_creator_share_bounded(balance: u64, creator_pct: u8)
    requires
        creator_pct <= 100,
    ensures
        0 <= creator_share(balance as int, creator_pct as int) <= balance,
{
    assert(0 <= balance * creator_pct <= balance * 100) by (nonlinear_arith)
        requires
            creator_pct <= 100,
    ;
}

} // verus!
