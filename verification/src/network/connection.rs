//! Connection identity: every established stream gets a number of its own.

use vstd::prelude::*;
use crate::id::NetworkId;

verus! {

/// The source of connection ids: a counter that hands out its value and
/// moves on. It wraps to zero after `u64::MAX`, so ids are unique as long as
/// fewer than 2^64 of them are drawn.
pub struct ConnectionIds {
    next: u64,
}

impl View for ConnectionIds {
    type V = nat;

    /// The id that is drawn next.
    closed spec fn view(&self) -> nat {
        self.next as nat
    }
}

/// The id that is drawn after `drawn` others, from a counter that stands at
/// `start`.
pub open spec fn id_after(start: nat, drawn: nat) -> nat {
    (start + drawn) % 0x1_0000_0000_0000_0000
}

impl ConnectionIds {
    /// A counter whose first id is `first`.
    pub fn starting_at(first: u64) -> (ids: Self)
        ensures
            ids@ == first as nat,
    {
        ConnectionIds { next: first }
    }
}

impl Default for ConnectionIds {
    fn default() -> (ids: Self)
        ensures
            ids@ == 0,
    {
        ConnectionIds { next: 0 }
    }
}

/// Draws the next id.
pub fn next_id(ids: &mut ConnectionIds) -> (id: u64)
    ensures
        id as nat == old(ids)@,
        final(ids)@ == id_after(old(ids)@, 1),
{
    let id = ids.next;
    ids.next = id.wrapping_add(1);
    id
}

/// What was drawn earlier does not change what is drawn later: the id after
/// `first + second` draws is the id after `second` draws from where the
/// counter stood after `first`.
pub proof fn lemma_id_after_composes(start: nat, first: nat, second: nat)
    ensures
        id_after(id_after(start, first), second) == id_after(start, first + second),
{
    let modulus = 0x1_0000_0000_0000_0000int;
    vstd::arithmetic::div_mod::lemma_add_mod_noop(
        (start + first) as int,
        second as int,
        modulus,
    );
    vstd::arithmetic::div_mod::lemma_mod_twice((start + first) as int, modulus);
    vstd::arithmetic::div_mod::lemma_add_mod_noop(
        ((start + first) as int) % modulus,
        second as int,
        modulus,
    );
}

/// No id is drawn twice: two draws from one counter, fewer than 2^64 draws
/// apart, give two ids.
pub proof fn lemma_ids_unique(start: nat, earlier: nat, later: nat)
    requires
        earlier < later,
        later - earlier < 0x1_0000_0000_0000_0000,
    ensures
        id_after(start, earlier) != id_after(start, later),
{
    let modulus = 0x1_0000_0000_0000_0000int;
    let first = (start + earlier) as int;
    let second = (start + later) as int;
    if first % modulus == second % modulus {
        vstd::arithmetic::div_mod::lemma_fundamental_div_mod(first, modulus);
        vstd::arithmetic::div_mod::lemma_fundamental_div_mod(second, modulus);
        let turns = second / modulus - first / modulus;
        assert(second - first == modulus * turns) by (nonlinear_arith)
            requires
                first == modulus * (first / modulus) + first % modulus,
                second == modulus * (second / modulus) + second % modulus,
                first % modulus == second % modulus,
                turns == second / modulus - first / modulus,
        ;
        assert(false) by (nonlinear_arith)
            requires
                0 < second - first < modulus,
                second - first == modulus * turns,
        ;
    }
}

/// An established stream, or anything else that belongs to one connection,
/// together with the connection's id.
pub struct Connection<R> {
    value: R,
    connection_id: NetworkId,
}

impl<R> Connection<R> {
    /// What the connection carries.
    pub closed spec fn spec_value(&self) -> R {
        self.value
    }

    pub closed spec fn spec_connection_id(&self) -> NetworkId {
        self.connection_id
    }

    /// Gives `io` the next id of `ids`.
    pub fn new(io: R, ids: &mut ConnectionIds) -> (connection: Self)
        ensures
            connection.spec_value() == io,
            connection.spec_connection_id()@ as nat == old(ids)@,
            final(ids)@ == id_after(old(ids)@, 1),
    {
        Connection { value: io, connection_id: NetworkId(next_id(ids)) }
    }

    #[verifier::when_used_as_spec(spec_connection_id)]
    pub fn connection_id(&self) -> (id: NetworkId)
        ensures
            id == self.spec_connection_id(),
    {
        self.connection_id
    }

    pub fn value(&self) -> (value: &R)
        ensures
            *value == self.spec_value(),
    {
        &self.value
    }

    pub fn value_mut(&mut self) -> (value: &mut R)
        ensures
            *value == old(self).spec_value(),
            final(self).spec_value() == *final(value),
            final(self).spec_connection_id() == old(self).spec_connection_id(),
    {
        &mut self.value
    }

    /// Takes the connection apart.
    pub fn into_parts(self) -> (parts: (R, NetworkId))
        ensures
            parts.0 == self.spec_value(),
            parts.1 == self.spec_connection_id(),
    {
        (self.value, self.connection_id)
    }

    /// A connection with the same id that carries what `f` makes of the
    /// value.
    pub fn map<T, F>(&self, f: F) -> (mapped: Connection<T>) where F: Fn(&R) -> T
        requires
            f.requires((&self.spec_value(),)),
        ensures
            f.ensures((&self.spec_value(),), mapped.spec_value()),
            mapped.spec_connection_id() == self.spec_connection_id(),
    {
        Connection { value: f(&self.value), connection_id: self.connection_id }
    }
}

} // verus!
