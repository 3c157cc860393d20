//! Origins of calls and the errors a dispatched call can end with.

use vstd::prelude::*;

verus! {

/// An account, identified by a number.
pub type AccountId = u64;

/// An amount of the chain's native token, in its smallest unit.
pub type Balance = u128;

/// A block height.
pub type BlockNumber = u64;

/// Who submitted a call.
#[derive(Debug, Clone, Copy, PartialEq, Eq)]
pub enum Origin {
    /// The privileged root origin.
    Root,
    /// A transaction signed by the given account.
    Signed(AccountId),
    /// An unsigned transaction.
    Unsigned,
}

/// Why a dispatched call failed.
#[derive(Debug, Clone, Copy, PartialEq, Eq)]
pub enum DispatchError<E> {
    /// The origin was not a signed account.
    BadOrigin,
    /// An arithmetic operation on balances overflowed.
    Overflow,
    /// A pallet-specific error.
    Module(E),
}

/// The outcome of a dispatched call.
pub type DispatchResult<E> = Result<(), DispatchError<E>>;

/// The signer of `origin`, or `BadOrigin` for any other origin.
pub open spec fn signer_of<E>(origin: Origin) -> Result<AccountId, DispatchError<E>> {
    match origin {
        Origin::Signed(who) => Ok(who),
        _ => Err(DispatchError::BadOrigin),
    }
}

/// Returns the signer of a signed origin; fails with `BadOrigin` otherwise.
pub fn ensure_signed<E>(origin: Origin) -> (r: Result<AccountId, DispatchError<E>>)
    ensures
        r == signer_of::<E>(origin),
{
    match origin {
        Origin::Signed(who) => Ok(who),
        _ => Err(DispatchError::BadOrigin),
    }
}

} // verus!
