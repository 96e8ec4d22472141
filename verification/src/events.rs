//! Events emitted by ledger mutations, and an ordered sink for them.

use vstd::prelude::*;

verus! {

/// An opaque participant identifier; only equality and use as a map key are
/// assumed of it.
pub type AccountId = u128;

/// A balance movement. `from == None` records a mint, `to == None` a burn.
#[derive(Clone, Copy, PartialEq, Eq, Debug)]
pub struct Transfer {
    pub from: Option<AccountId>,
    pub to: Option<AccountId>,
    pub value: u128,
}

/// A replacement of the allowance an owner grants a spender.
#[derive(Clone, Copy, PartialEq, Eq, Debug)]
pub struct Approval {
    pub owner: AccountId,
    pub spender: AccountId,
    pub amount: u128,
}

/// One entry of the ordered event log a mutation produces.
#[derive(Clone, Copy, PartialEq, Eq, Debug)]
pub enum Event {
    Transfer(Transfer),
    Approval(Approval),
}

/// The `Transfer` event as a single spec value, for use in contracts.
pub open spec fn transfer_event(from: Option<AccountId>, to: Option<AccountId>, value: u128) -> Event {
    Event::Transfer(Transfer { from, to, value })
}

/// The `Approval` event as a single spec value, for use in contracts.
pub open spec fn approval_event(owner: AccountId, spender: AccountId, amount: u128) -> Event {
    Event::Approval(Approval { owner, spender, amount })
}

/// An order-preserving sink: batches recorded later come after batches
/// recorded earlier, and each batch keeps its internal order.
pub struct EventLog {
    pub events: Vec<Event>,
}

impl EventLog {
    /// An empty log.
    pub fn new() -> (r: Self)
        ensures
            r.events@ == Seq::<Event>::empty(),
    {
        let log = EventLog { events: Vec::new() };
        proof {
            assert(log.events@ =~= Seq::<Event>::empty());
        }
        log
    }

    /// Appends one operation's events, in their order, after everything
    /// recorded so far.
    pub fn record(&mut self, batch: Vec<Event>)
        ensures
            final(self).events@ == old(self).events@ + batch@,
    {
        let mut incoming = batch;
        self.events.append(&mut incoming);
    }

    /// How many events have been recorded.
    pub fn len(&self) -> (r: usize)
        ensures
            r == self.events@.len(),
    {
        self.events.len()
    }

    /// The `i`-th recorded event, oldest first.
    pub fn get(&self, i: usize) -> (r: Event)
        requires
            i < self.events@.len(),
        ensures
            r == self.events@[i as int],
    {
        self.events[i]
    }
}

} // verus!
