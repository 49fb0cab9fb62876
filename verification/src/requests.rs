//! Sequence numbers for requests.
//!
//! Every trigger gets the next number. A result may reach the screen only
//! if its number is the latest that was given out, so a request that was
//! overtaken by a newer one can never overwrite it.

use vstd::prelude::*;

verus! {

/// The tag of one request. Tags start at 1 and grow by 1.
#[derive(Clone, Copy, Debug, PartialEq, Eq, Structural)]
pub struct Ticket {
    pub seq: u64,
}

/// Whether `ticket` is among the first `issued` tickets.
pub open spec fn was_issued(issued: nat, ticket: Ticket) -> bool {
    1 <= ticket.seq <= issued
}

/// Whether `ticket` is the last of the first `issued` tickets.
pub open spec fn is_latest(issued: nat, ticket: Ticket) -> bool {
    issued > 0 && ticket.seq == issued
}

/// How many tickets there are after one more was asked for: one more,
/// unless the numbers have run out.
pub open spec fn issued_after(issued: nat) -> nat {
    if issued < u64::MAX {
        issued + 1
    } else {
        issued
    }
}

/// The ticket that asking for one gives, if the numbers have not run out.
pub open spec fn next_ticket(issued: nat) -> Option<Ticket> {
    if issued < u64::MAX {
        Some(Ticket { seq: (issued + 1) as u64 })
    } else {
        None
    }
}

/// Gives out tickets in increasing order.
pub struct Requests {
    issued: u64,
}

impl View for Requests {
    type V = nat;

    /// The number of tickets given out so far.
    closed spec fn view(&self) -> nat {
        self.issued as nat
    }
}

impl Requests {
    /// A counter that has given out nothing.
    pub fn new() -> (requests: Requests)
        ensures
            requests@ == 0,
    {
        Requests { issued: 0 }
    }

    /// Gives out the next ticket. There is none only after `u64::MAX`
    /// tickets; the counter then stays as it is.
    pub fn issue(&mut self) -> (ticket: Option<Ticket>)
        ensures
            ticket == next_ticket(old(self)@),
            final(self)@ == issued_after(old(self)@),
        no_unwind
    {
        if self.issued < u64::MAX {
            self.issued = self.issued + 1;
            Some(Ticket { seq: self.issued })
        } else {
            None
        }
    }

    /// Whether `ticket` is the one given out last.
    pub fn is_latest(&self, ticket: Ticket) -> (latest: bool)
        ensures
            latest == is_latest(self@, ticket),
    {
        self.issued > 0 && ticket.seq == self.issued
    }

    /// The number of tickets given out so far fits a `u64`.
    pub proof fn lemma_bounded(&self)
        ensures
            self@ <= u64::MAX,
    {
    }

    /// The number of tickets given out so far.
    pub fn issued(&self) -> (issued: u64)
        ensures
            issued == self@,
    {
        self.issued
    }
}

/// A ticket never becomes the latest again: once a newer one exists, no
/// number of further tickets brings the old one back.
pub proof fn lemma_overtaken_for_good(issued: nat, ticket: Ticket, more: nat)
    requires
        was_issued(issued, ticket),
        !is_latest(issued, ticket),
    ensures
        !is_latest(issued_many(issued, more), ticket),
        was_issued(issued_many(issued, more), ticket),
    decreases more,
{
    if more > 0 {
        lemma_overtaken_for_good(issued_after(issued), ticket, (more - 1) as nat);
    }
}

/// How many tickets there are after `more` further ones were asked for.
pub open spec fn issued_many(issued: nat, more: nat) -> nat
    decreases more,
{
    if more == 0 {
        issued
    } else {
        issued_many(issued_after(issued), (more - 1) as nat)
    }
}

} // verus!
