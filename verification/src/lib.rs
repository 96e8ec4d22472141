//! A wrapped-token ledger: fungible balances and delegated allowances for a
//! set of accounts, plus a bridge that converts escrowed native currency into
//! ledger balance (deposit) and back (withdraw).
//!
//! The ledger maintains the invariant that the total supply equals the sum of
//! all balances, every operation either fully commits or leaves the state
//! untouched, and each successful mutation returns the ordered list of events
//! an observer needs to reconstruct balances.

pub mod assoc;
pub mod errors;
pub mod events;
pub mod laws;
pub mod ledger;
pub mod wazero;

pub use errors::LedgerError;
pub use events::{AccountId, Approval, Event, EventLog, Transfer};
pub use ledger::Ledger;
pub use wazero::{settle_withdraw, Wazero};
