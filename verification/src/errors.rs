//! Typed failures of the ledger and of the withdraw bridge.

use vstd::prelude::*;

verus! {

/// Every way a ledger operation can fail. A failed operation leaves the
/// ledger unchanged, except that `WithdrawFailed` is reported only after the
/// burn of a withdrawal has already been committed (see `settle_withdraw`).
#[derive(Clone, Copy, PartialEq, Eq, Debug)]
pub enum LedgerError {
    /// A burn, transfer, or transfer-from asked for more than the source
    /// account holds.
    InsufficientBalance,
    /// A transfer-from or allowance decrease asked for more than the spender
    /// was granted.
    InsufficientAllowance,
    /// An increment would exceed the width of the balance type.
    Overflow,
    /// The native-currency payout was rejected after a successful burn.
    WithdrawFailed,
}

} // verus!
