//! The connection table: an arena of connection records addressed by
//! generation-checked tokens.
//!
//! A token pairs a slot index with the generation the slot had when the
//! connection was inserted.  Removing a connection bumps the slot's
//! generation, so a token that outlives its connection (say, carried by a
//! job result that arrives late) is dead forever: no later insertion can
//! make it valid again.  A slot whose generation counter is exhausted is
//! retired rather than reused.

use vstd::prelude::*;

verus! {

use crate::conn::Connection;

/// A connection's identifier: a slot index plus the generation the slot had
/// when the connection was inserted.
#[derive(Clone, Copy, PartialEq, Eq, Structural, Debug)]
pub struct Token {
    /// Index of the slot in the table's arena.
    pub index: usize,
    /// Generation the slot had at insertion.
    pub generation: u64,
}

/// One arena slot: its current generation and, when occupied, a connection.
pub struct Slot {
    /// Bumped on every removal, so stale tokens never match again.
    pub generation: u64,
    /// The record, when the slot is occupied.
    pub conn: Option<Connection>,
}

/// The arena of live connections.  Slots are reused through a free list;
/// every reuse keeps the generation that removal bumped, so fresh tokens
/// never collide with past ones.
pub struct ConnTable {
    /// The slots, indexed by `Token::index`.
    pub slots: Vec<Slot>,
    /// Indices of unoccupied, reusable slots.
    pub free: Vec<usize>,
}

impl ConnTable {
    /// Well-formedness: free-list entries name unoccupied slots with room
    /// left in their generation counter, no slot is listed twice, and every
    /// occupied slot still has room to bump its generation on removal.
    pub open spec fn wf(self) -> bool {
        &&& forall|k: int|
            0 <= k < self.free@.len() ==> (#[trigger] self.free@[k]) < self.slots@.len()
                && self.slots@[self.free@[k] as int].conn is None
                && self.slots@[self.free@[k] as int].generation < u64::MAX
        &&& forall|k1: int, k2: int|
            0 <= k1 < k2 < self.free@.len() ==> self.free@[k1] != self.free@[k2]
        &&& forall|i: int|
            0 <= i < self.slots@.len() && (#[trigger] self.slots@[i].conn) is Some
                ==> self.slots@[i].generation < u64::MAX
    }

    /// Whether `t` addresses a live connection: its slot is occupied and
    /// still carries the generation the token was minted with.
    pub open spec fn valid(self, t: Token) -> bool {
        &&& (t.index as int) < self.slots@.len()
        &&& self.slots@[t.index as int].generation == t.generation
        &&& self.slots@[t.index as int].conn is Some
    }

    /// The connection `t` addresses.
    pub open spec fn conn_at(self, t: Token) -> Connection
        recommends
            self.valid(t),
    {
        self.slots@[t.index as int].conn.unwrap()
    }

    /// Whether `t` is dead: its slot has moved past it, either by a bumped
    /// generation or by retiring at an exhausted counter.  A dead token is
    /// never valid again, whatever the table does next.
    pub open spec fn dead(self, t: Token) -> bool {
        &&& (t.index as int) < self.slots@.len()
        &&& {
            ||| t.generation < self.slots@[t.index as int].generation
            ||| (self.slots@[t.index as int].generation == u64::MAX
                && self.slots@[t.index as int].conn is None)
        }
    }

    /// Whether `t`'s slot is checked out: unoccupied but still at `t`'s
    /// generation and off the free list, awaiting `put` or `release`.
    pub open spec fn checked_out(self, t: Token) -> bool {
        &&& (t.index as int) < self.slots@.len()
        &&& self.slots@[t.index as int].generation == t.generation
        &&& t.generation < u64::MAX
        &&& self.slots@[t.index as int].conn is None
        &&& forall|k: int| 0 <= k < self.free@.len() ==> (#[trigger] self.free@[k]) != t.index
    }

    /// Law: a dead token never addresses a live connection.  Every
    /// operation below preserves deadness, so a removed token is rejected
    /// forever, whatever insertions reuse its slot.
    pub proof fn lemma_dead_token_never_valid(self, t: Token)
        requires
            self.dead(t),
        ensures
            !self.valid(t),
    {
    }

    /// An empty table.
    pub fn new() -> (table: ConnTable)
        ensures
            table.wf(),
            table.slots@.len() == 0,
            forall|t: Token| !table.valid(t),
    {
        ConnTable { slots: Vec::new(), free: Vec::new() }
    }

    /// Inserts a connection and mints its token.  The token is fresh: it
    /// was neither valid nor dead before, so it collides with no token ever
    /// issued.  Every other token keeps its standing.
    pub fn insert(&mut self, c: Connection) -> (t: Token)
        requires
            old(self).wf(),
        ensures
            final(self).wf(),
            final(self).valid(t),
            final(self).conn_at(t) == c,
            !old(self).valid(t),
            !old(self).dead(t),
            forall|u: Token|
                u != t ==> (#[trigger] final(self).valid(u)) == old(self).valid(u),
            forall|u: Token|
                u != t && old(self).valid(u) ==> #[trigger] final(self).conn_at(u) == old(
                    self,
                ).conn_at(u),
            forall|u: Token| old(self).dead(u) ==> #[trigger] final(self).dead(u),
    {
        match self.free.pop() {
            Option::Some(i) => {
                let g = self.slots[i].generation;
                let slot = &mut self.slots[i];
                slot.conn = Option::Some(c);
                Token { index: i, generation: g }
            },
            Option::None => {
                let i = self.slots.len();
                self.slots.push(Slot { generation: 0, conn: Option::Some(c) });
                Token { index: i, generation: 0 }
            },
        }
    }

    /// Looks a token up, returning its connection when the token is live.
    pub fn get(&self, t: Token) -> (r: Option<&Connection>)
        ensures
            match r {
                Option::Some(c) => self.valid(t) && *c == self.conn_at(t),
                Option::None => !self.valid(t),
            },
    {
        if t.index < self.slots.len() {
            let slot = &self.slots[t.index];
            if slot.generation == t.generation {
                if let Option::Some(c) = &slot.conn {
                    return Option::Some(c);
                }
            }
        }
        Option::None
    }

    /// Checks the connection out of `t`'s slot for mutation.  The slot
    /// keeps its generation and stays off the free list until `put` or
    /// `release` settles it.  On a token that is not live, nothing changes.
    pub fn take(&mut self, t: Token) -> (r: Option<Connection>)
        requires
            old(self).wf(),
        ensures
            final(self).wf(),
            match r {
                Option::Some(c) => {
                    &&& old(self).valid(t)
                    &&& c == old(self).conn_at(t)
                    &&& final(self).checked_out(t)
                    &&& final(self).free@ == old(self).free@
                    &&& final(self).slots@.len() == old(self).slots@.len()
                    &&& forall|u: Token|
                        u.index != t.index ==> (#[trigger] final(self).valid(u)) == old(
                            self,
                        ).valid(u)
                    &&& forall|u: Token|
                        u.index != t.index && old(self).valid(u) ==> (#[trigger] final(self).conn_at(u)) == old(self).conn_at(u)
                    &&& forall|u: Token| old(self).dead(u) ==> #[trigger] final(self).dead(u)
                },
                Option::None => !old(self).valid(t) && *final(self) == *old(self),
            },
    {
        if t.index < self.slots.len() {
            if self.slots[t.index].generation == t.generation && self.slots[t.index].conn.is_some()
            {
                let slot = &mut self.slots[t.index];
                let mut c: Option<Connection> = Option::None;
                core::mem::swap(&mut slot.conn, &mut c);
                proof {
                    assert forall|k: int|
                        0 <= k < self.free@.len() implies (#[trigger] self.free@[k])
                        != t.index by {
                        assert(old(self).slots@[self.free@[k] as int].conn is None);
                    }
                }
                return c;
            }
        }
        Option::None
    }

    /// Returns a checked-out connection to its slot; the token is live
    /// again, with the same generation.
    pub fn put(&mut self, t: Token, c: Connection)
        requires
            old(self).wf(),
            old(self).checked_out(t),
        ensures
            final(self).wf(),
            final(self).valid(t),
            final(self).conn_at(t) == c,
            final(self).free@ == old(self).free@,
            final(self).slots@.len() == old(self).slots@.len(),
            forall|u: Token|
                u.index != t.index ==> (#[trigger] final(self).valid(u)) == old(self).valid(u),
            forall|u: Token|
                u.index != t.index && old(self).valid(u) ==> (#[trigger] final(self).conn_at(u))
                    == old(self).conn_at(u),
            forall|u: Token| old(self).dead(u) ==> #[trigger] final(self).dead(u),
    {
        let slot = &mut self.slots[t.index];
        slot.conn = Option::Some(c);
    }

    /// Frees a checked-out slot: the generation is bumped so the token is
    /// dead from now on, and the slot returns to the free list — or retires
    /// when its generation counter is exhausted.
    pub fn release(&mut self, t: Token)
        requires
            old(self).wf(),
            old(self).checked_out(t),
        ensures
            final(self).wf(),
            final(self).dead(t),
            !final(self).valid(t),
            final(self).slots@.len() == old(self).slots@.len(),
            forall|u: Token| u.index == t.index ==> !final(self).valid(u),
            forall|u: Token|
                u.index != t.index ==> (#[trigger] final(self).valid(u)) == old(self).valid(u),
            forall|u: Token|
                u.index != t.index && old(self).valid(u) ==> (#[trigger] final(self).conn_at(u))
                    == old(self).conn_at(u),
            forall|u: Token| old(self).dead(u) ==> #[trigger] final(self).dead(u),
    {
        let g = self.slots[t.index].generation;
        let slot = &mut self.slots[t.index];
        slot.generation = g + 1;
        if g + 1 < u64::MAX {
            self.free.push(t.index);
        }
    }

    /// Removes a connection outright: the record comes back and its token
    /// is dead from now on.  On a token that is not live, nothing changes.
    pub fn remove(&mut self, t: Token) -> (r: Option<Connection>)
        requires
            old(self).wf(),
        ensures
            final(self).wf(),
            match r {
                Option::Some(c) => {
                    &&& old(self).valid(t)
                    &&& c == old(self).conn_at(t)
                    &&& final(self).dead(t)
                    &&& !final(self).valid(t)
                    &&& forall|u: Token|
                        u.index != t.index ==> (#[trigger] final(self).valid(u)) == old(
                            self,
                        ).valid(u)
                    &&& forall|u: Token|
                        u.index != t.index && old(self).valid(u) ==> (#[trigger] final(self).conn_at(u)) == old(self).conn_at(u)
                    &&& forall|u: Token| old(self).dead(u) ==> #[trigger] final(self).dead(u)
                },
                Option::None => !old(self).valid(t) && *final(self) == *old(self),
            },
    {
        let r = self.take(t);
        if r.is_some() {
            self.release(t);
        }
        r
    }
}

} // verus!
