//! Admission control in front of every call to the node: the decisions of
//! the request gate that bounds how many calls are in flight at once.
//!
//! The request gate decides; it does not wait. A request that finds no free slot is
//! given a ticket and queued, and the release that frees a slot names the
//! ticket that takes it over, in the order of arrival. Whoever drives the request gate
//! suspends the queued request until its ticket is named.

use vstd::prelude::*;

verus! {

/// The state of a gate, as plain values.
pub struct GateState {
    /// The greatest number of simultaneous holders, where there is a bound.
    pub bound: Option<nat>,
    /// The number of requests that hold a slot.
    pub holders: nat,
    /// The tickets of the requests that wait for a slot, longest wait first.
    pub waiting: Seq<u64>,
}

impl GateState {
    /// What always holds of a gate: the holders are within the bound, nobody
    /// waits while a slot is free, and no ticket waits twice.
    pub open spec fn wf(self) -> bool {
        &&& self.bound matches Some(n) ==> self.holders <= n
        &&& self.waiting.len() > 0 ==> self.bound == Some(self.holders)
        &&& self.waiting.no_duplicates()
    }

    /// The request gate with the given bound that nobody holds or waits at.
    pub open spec fn idle(bound: Option<nat>) -> GateState {
        GateState { bound, holders: 0, waiting: Seq::empty() }
    }

    /// Whether a request that arrives now is admitted at once.
    pub open spec fn has_free_slot(self) -> bool {
        match self.bound {
            Some(n) => self.holders < n,
            None => true,
        }
    }

    /// The request gate after a request arrived that would wait under `ticket`: it
    /// holds a slot where one was free, and waits at the end of the queue
    /// where none was.
    pub open spec fn acquired(self, ticket: u64) -> GateState {
        if self.has_free_slot() {
            GateState { holders: self.holders + 1, ..self }
        } else {
            GateState { waiting: self.waiting.push(ticket), ..self }
        }
    }

    /// The request gate after a holder released its slot: the request that waited
    /// longest takes the slot over, and where nobody waits the slot is free.
    pub open spec fn released(self) -> GateState {
        if self.waiting.len() > 0 {
            GateState { waiting: self.waiting.skip(1), ..self }
        } else {
            GateState { holders: (self.holders - 1) as nat, ..self }
        }
    }

    /// The request gate after the request that waits under `ticket` gave up.
    pub open spec fn withdrawn(self, ticket: u64) -> GateState {
        if self.waiting.contains(ticket) {
            GateState { waiting: self.waiting.remove(self.waiting.index_of(ticket)), ..self }
        } else {
            self
        }
    }

    /// The request gate after requests arrived one after the other, the i-th of them
    /// with `tickets[i]`.
    pub open spec fn after_requests(self, tickets: Seq<u64>) -> GateState
        decreases tickets.len(),
    {
        if tickets.len() == 0 {
            self
        } else {
            self.after_requests(tickets.drop_last()).acquired(tickets.last())
        }
    }

    /// The request gate after `count` releases.
    pub open spec fn after_releases(self, count: nat) -> GateState
        decreases count,
    {
        if count == 0 {
            self
        } else {
            self.after_releases((count - 1) as nat).released()
        }
    }
}

/// The smaller of two numbers.
pub open spec fn least(a: int, b: int) -> int {
    if a <= b {
        a
    } else {
        b
    }
}

/// A request keeps the request gate well formed, so the holders stay within the
/// bound.
pub proof fn lemma_acquired_wf(state: GateState, ticket: u64)
    requires
        state.wf(),
        !state.waiting.contains(ticket),
    ensures
        state.acquired(ticket).wf(),
        state.bound matches Some(n) ==> state.acquired(ticket).holders <= n,
{
    if !state.has_free_slot() {
        let queue = state.waiting.push(ticket);
        assert forall|i: int, j: int|
            0 <= i < queue.len() && 0 <= j < queue.len() && i != j implies queue[i]
            != queue[j] by {
            if i < state.waiting.len() {
                assert(state.waiting.contains(queue[i]));
            }
            if j < state.waiting.len() {
                assert(state.waiting.contains(queue[j]));
            }
        }
    }
}

/// A release keeps the request gate well formed, so the holders stay within the
/// bound.
pub proof fn lemma_released_wf(state: GateState)
    requires
        state.wf(),
        state.holders > 0,
    ensures
        state.released().wf(),
        state.bound matches Some(n) ==> state.released().holders <= n,
{
}

/// A burst of requests at an idle gate: as many as the bound allows hold a
/// slot, the others wait in the order of arrival, and the holders are
/// within the bound.
pub proof fn lemma_burst(n: nat, tickets: Seq<u64>)
    requires
        tickets.no_duplicates(),
    ensures
        ({
            let state = GateState::idle(Some(n)).after_requests(tickets);
            &&& state.wf()
            &&& state.bound == Some(n)
            &&& state.holders == least(tickets.len() as int, n as int)
            &&& state.waiting == tickets.skip(least(tickets.len() as int, n as int))
        }),
    decreases tickets.len(),
{
    let state = GateState::idle(Some(n)).after_requests(tickets);
    if tickets.len() == 0 {
        assert(state.waiting =~= tickets.skip(0));
    } else {
        let earlier = tickets.drop_last();
        let before = GateState::idle(Some(n)).after_requests(earlier);
        assert forall|i: int, j: int| 0 <= i < earlier.len() && 0 <= j < earlier.len() && i
            != j implies earlier[i] != earlier[j] by {
            assert(earlier[i] == tickets[i] && earlier[j] == tickets[j]);
        }
        lemma_burst(n, earlier);
        let held = least(earlier.len() as int, n as int);
        assert(!before.waiting.contains(tickets.last())) by {
            if before.waiting.contains(tickets.last()) {
                let i = choose|i: int|
                    0 <= i < before.waiting.len() && before.waiting[i] == tickets.last();
                assert(earlier.skip(held)[i] == tickets[held + i]);
            }
        }
        lemma_acquired_wf(before, tickets.last());
        if before.has_free_slot() {
            assert(state.waiting =~= tickets.skip(least(tickets.len() as int, n as int)));
        } else {
            assert(state.waiting =~= tickets.skip(least(tickets.len() as int, n as int)));
        }
    }
}

/// After a burst of requests at an idle gate with a bound of at least one,
/// each release hands the freed slot to the request that waited longest:
/// after `count` releases the first `n + count` requests have been admitted,
/// and no more than `n` of them hold a slot.
pub proof fn lemma_drain(n: nat, tickets: Seq<u64>, count: nat)
    requires
        n >= 1,
        tickets.no_duplicates(),
        count <= tickets.len(),
    ensures
        ({
            let state = GateState::idle(Some(n)).after_requests(tickets).after_releases(count);
            &&& state.wf()
            &&& state.bound == Some(n)
            &&& state.holders <= n
            &&& state.holders == least(n as int, tickets.len() - count)
            &&& state.waiting == tickets.skip(least(tickets.len() as int, (n + count) as int))
        }),
    decreases count,
{
    let burst = GateState::idle(Some(n)).after_requests(tickets);
    lemma_burst(n, tickets);
    if count > 0 {
        lemma_drain(n, tickets, (count - 1) as nat);
        let before = burst.after_releases((count - 1) as nat);
        lemma_released_wf(before);
        let state = before.released();
        assert(state.waiting =~= tickets.skip(least(tickets.len() as int, (n + count) as int)));
    }
}

/// With a bound of `n >= 1`, all of a burst of requests succeed in the end:
/// when each of them has released its slot once, nobody holds a slot and
/// nobody waits; and at no release along the way were there more than `n`
/// holders.
pub proof fn lemma_all_requests_succeed(n: nat, tickets: Seq<u64>)
    requires
        n >= 1,
        tickets.no_duplicates(),
    ensures
        GateState::idle(Some(n)).after_requests(tickets).after_releases(tickets.len()).holders
            == 0,
        GateState::idle(Some(n)).after_requests(tickets).after_releases(
            tickets.len(),
        ).waiting.len() == 0,
        forall|count: nat|
            count <= tickets.len() ==> (#[trigger] GateState::idle(Some(n)).after_requests(
                tickets,
            ).after_releases(count)).holders <= n,
{
    lemma_drain(n, tickets, tickets.len());
    assert forall|count: nat| count <= tickets.len() implies (#[trigger] GateState::idle(
        Some(n),
    ).after_requests(tickets).after_releases(count)).holders <= n by {
        lemma_drain(n, tickets, count);
    }
}

/// What the request gate decided for a request.
#[derive(Clone, Copy, Debug, PartialEq, Eq, Structural)]
pub enum Admission {
    /// The request holds a slot.
    Granted,
    /// The request waits under the given ticket until a release names it.
    Queued(u64),
}

/// The request gate in front of the calls to the node.
#[derive(Debug)]
pub struct RequestGate {
    max_concurrent: Option<usize>,
    holders: usize,
    waiting: Vec<u64>,
    next_ticket: u64,
}

impl View for RequestGate {
    type V = GateState;

    closed spec fn view(&self) -> GateState {
        GateState {
            bound: match self.max_concurrent {
                Some(n) => Some(n as nat),
                None => None,
            },
            holders: self.holders as nat,
            waiting: self.waiting@,
        }
    }
}

impl RequestGate {
    /// The number of tickets that the request gate has handed out.
    pub closed spec fn issued(self) -> nat {
        self.next_ticket as nat
    }

    /// What always holds of a gate: its state is well formed, and the
    /// tickets that wait were handed out by it.
    pub open spec fn wf(self) -> bool {
        &&& self@.wf()
        &&& forall|i: int|
            0 <= i < self@.waiting.len() ==> #[trigger] self@.waiting[i] < self.issued()
    }

    /// Whether the counters of the request gate can take one more request.
    pub open spec fn has_capacity(self) -> bool {
        self@.holders < usize::MAX && self.issued() < u64::MAX
    }

    /// A gate that admits `max_concurrent` requests at once, or any number
    /// where no bound is given.
    pub fn new(max_concurrent: Option<usize>) -> (gate: RequestGate)
        ensures
            gate.wf(),
            gate.issued() == 0,
            gate@ == GateState::idle(
                match max_concurrent {
                    Some(n) => Some(n as nat),
                    None => None,
                },
            ),
    {
        RequestGate { max_concurrent, holders: 0, waiting: Vec::new(), next_ticket: 0 }
    }

    /// The greatest number of simultaneous holders, where there is a bound.
    pub fn max_concurrent(&self) -> (bound: Option<usize>)
        ensures
            match bound {
                Some(n) => self@.bound == Some(n as nat),
                None => self@.bound is None,
            },
    {
        self.max_concurrent
    }

    /// The number of requests that hold a slot.
    pub fn holders(&self) -> (holders: usize)
        ensures
            holders == self@.holders,
    {
        self.holders
    }

    /// The number of requests that wait for a slot.
    pub fn waiting(&self) -> (waiting: usize)
        ensures
            waiting == self@.waiting.len(),
    {
        self.waiting.len()
    }

    /// Whether the counters of the request gate can take one more request.
    pub fn can_acquire(&self) -> (able: bool)
        ensures
            able == self.has_capacity(),
    {
        self.holders < usize::MAX && self.next_ticket < u64::MAX
    }

    /// Decides on a request: it is granted a slot where one is free, and is
    /// queued under a fresh ticket where none is.
    pub fn acquire(&mut self) -> (admission: Admission)
        requires
            old(self).wf(),
            old(self).has_capacity(),
        ensures
            final(self).wf(),
            final(self)@ == old(self)@.acquired(old(self).issued() as u64),
            admission == if old(self)@.has_free_slot() {
                Admission::Granted
            } else {
                Admission::Queued(old(self).issued() as u64)
            },
            final(self).issued() == if old(self)@.has_free_slot() {
                old(self).issued()
            } else {
                old(self).issued() + 1
            },
    {
        let free = match self.max_concurrent {
            Some(n) => self.holders < n,
            None => true,
        };
        if free {
            self.holders += 1;
            Admission::Granted
        } else {
            let ticket = self.next_ticket;
            proof {
                assert(!self@.waiting.contains(ticket)) by {
                    if self@.waiting.contains(ticket) {
                        let i = choose|i: int|
                            0 <= i < self@.waiting.len() && self@.waiting[i] == ticket;
                        assert(self@.waiting[i] < self.issued());
                    }
                }
                lemma_acquired_wf(self@, ticket);
            }
            self.waiting.push(ticket);
            self.next_ticket += 1;
            Admission::Queued(ticket)
        }
    }

    /// Takes back the slot of a holder. Where requests wait, the one that
    /// waited longest takes the slot over, and its ticket is returned.
    pub fn release(&mut self) -> (admitted: Option<u64>)
        requires
            old(self).wf(),
            old(self)@.holders > 0,
        ensures
            final(self).wf(),
            final(self).issued() == old(self).issued(),
            final(self)@ == old(self)@.released(),
            admitted == if old(self)@.waiting.len() > 0 {
                Some(old(self)@.waiting[0])
            } else {
                None
            },
    {
        if self.waiting.len() > 0 {
            let ticket = self.waiting.remove(0);
            proof {
                lemma_released_wf(old(self)@);
                assert(self.waiting@ =~= old(self).waiting@.skip(1));
            }
            Some(ticket)
        } else {
            self.holders -= 1;
            None
        }
    }

    /// Takes the request that waits under `ticket` out of the queue. Returns
    /// whether it waited.
    pub fn withdraw(&mut self, ticket: u64) -> (waited: bool)
        requires
            old(self).wf(),
        ensures
            final(self).wf(),
            final(self).issued() == old(self).issued(),
            waited == old(self)@.waiting.contains(ticket),
            final(self)@ == old(self)@.withdrawn(ticket),
    {
        let mut i: usize = 0;
        while i < self.waiting.len()
            invariant
                i <= self.waiting.len(),
                *self == *old(self),
                self.wf(),
                forall|j: int| 0 <= j < i ==> self.waiting@[j] != ticket,
            decreases self.waiting.len() - i,
        {
            if self.waiting[i] == ticket {
                proof {
                    let queue = self.waiting@;
                    assert(queue[i as int] == ticket);
                    assert(queue.contains(ticket));
                    let found = queue.index_of(ticket);
                    assert(0 <= found < queue.len() && queue[found] == ticket);
                    assert(found == i);
                }
                self.waiting.remove(i);
                proof {
                    let queue = old(self).waiting@;
                    let rest = self.waiting@;
                    assert forall|a: int, b: int|
                        0 <= a < rest.len() && 0 <= b < rest.len() && a != b implies rest[a]
                        != rest[b] by {
                        let a0 = if a < i { a } else { a + 1 };
                        let b0 = if b < i { b } else { b + 1 };
                        assert(rest[a] == queue[a0] && rest[b] == queue[b0]);
                    }
                    assert forall|a: int| 0 <= a < rest.len() implies #[trigger] rest[a]
                        < self.issued() by {
                        let a0 = if a < i { a } else { a + 1 };
                        assert(rest[a] == queue[a0]);
                    }
                }
                return true;
            }
            i += 1;
        }
        false
    }
}

} // verus!
