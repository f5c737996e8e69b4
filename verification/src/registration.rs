//! The registration table: which structure has which id on the wire.
//!
//! A structure is known by its identity, a string. The first identity
//! registered gets id 0, the next new one id 1, and so on; an identity keeps
//! its id for as long as the table lives, and nothing is ever taken out.

use crate::internals::first_position;
use crate::internals::lemma_first_position;
use crate::internals::lemma_first_position_is;
use crate::internals::position_of;
use crate::internals::texts;
use vstd::prelude::*;

verus! {

/// The id of `identity` in `table`: its position, if it is there.
pub open spec fn id_of(table: Seq<Seq<char>>, identity: Seq<char>) -> Option<int> {
    first_position(table, identity)
}

/// `table` after `identity` was registered: unchanged if it was there, one
/// entry longer if it was not.
pub open spec fn table_after(table: Seq<Seq<char>>, identity: Seq<char>) -> Seq<Seq<char>> {
    if id_of(table, identity) is Some {
        table
    } else {
        table.push(identity)
    }
}

/// The id that registering `identity` in `table` returns: the id it has, or
/// the number of entries if it has none yet.
pub open spec fn id_after(table: Seq<Seq<char>>, identity: Seq<char>) -> int {
    match id_of(table, identity) {
        Some(id) => id,
        None => table.len() as int,
    }
}

/// The table that registering each of `identities` in turn builds, starting
/// with an empty one.
pub open spec fn table_of(identities: Seq<Seq<char>>) -> Seq<Seq<char>>
    decreases identities.len(),
{
    if identities.len() == 0 {
        Seq::empty()
    } else {
        table_after(table_of(identities.drop_last()), identities.last())
    }
}

/// The ids of a table are its positions: an identity has an id exactly if the
/// table holds it, and then the table holds it at that id.
pub proof fn lemma_id_of(table: Seq<Seq<char>>, identity: Seq<char>)
    ensures
        id_of(table, identity) is Some <==> table.contains(identity),
        id_of(table, identity) matches Some(id) ==> 0 <= id < table.len() && table[id] == identity,
{
    lemma_first_position(table, identity);
}

/// Registering keeps what is there: every identity that had an id keeps it,
/// and a table without duplicates stays without duplicates.
pub proof fn lemma_registering_is_permanent(
    table: Seq<Seq<char>>,
    identity: Seq<char>,
    other: Seq<char>,
)
    ensures
        id_of(table, other) is Some ==> id_of(table_after(table, identity), other) == id_of(
            table,
            other,
        ),
        id_of(table_after(table, identity), identity) == Some(id_after(table, identity)),
        table.no_duplicates() ==> table_after(table, identity).no_duplicates(),
{
    let after = table_after(table, identity);
    lemma_first_position(table, identity);
    lemma_first_position(table, other);
    if id_of(table, identity) is None {
        assert(after.len() == table.len() + 1);
        assert(forall|j: int| 0 <= j < table.len() ==> after[j] == table[j]);
        lemma_first_position_is(after, identity, table.len() as int);
        if let Some(at) = id_of(table, other) {
            lemma_first_position_is(after, other, at);
        }
    }
}

/// Registering the same identity once more changes nothing and returns the
/// id it was given the first time.
pub proof fn lemma_registering_again(table: Seq<Seq<char>>, identity: Seq<char>)
    ensures
        table_after(table_after(table, identity), identity) == table_after(table, identity),
        id_after(table_after(table, identity), identity) == id_after(table, identity),
{
    lemma_registering_is_permanent(table, identity, identity);
}

/// Identities that differ from each other get the ids 0, 1, 2, … in the order
/// in which they are registered: the table they build is the list of them,
/// and the call that registers the one at position `i` returns `i`.
pub proof fn lemma_distinct_identities_count_up(identities: Seq<Seq<char>>, i: int)
    requires
        identities.no_duplicates(),
        0 <= i < identities.len(),
    ensures
        table_of(identities) == identities,
        id_after(table_of(identities.take(i)), identities[i]) == i,
    decreases identities.len(),
{
    let front = identities.drop_last();
    assert(front.no_duplicates());
    if front.len() > 0 {
        lemma_distinct_identities_count_up(front, 0);
    }
    assert(table_of(front) == front);
    lemma_first_position(front, identities.last());
    assert(id_of(front, identities.last()) is None);
    assert(table_of(identities) =~= identities);
    if i == identities.len() - 1 {
        assert(identities.take(i) =~= front);
    } else {
        lemma_distinct_identities_count_up(front, i);
        assert(front.take(i) =~= identities.take(i));
    }
}

/// The registration table of one connection.
pub struct RegistrationTable {
    names: Vec<String>,
}

impl View for RegistrationTable {
    type V = Seq<Seq<char>>;

    closed spec fn view(&self) -> Seq<Seq<char>> {
        texts(self.names@)
    }
}

impl RegistrationTable {
    /// What holds of every table: no identity stands in it twice, and it has
    /// no more entries than there are ids.
    pub closed spec fn wf(&self) -> bool {
        texts(self.names@).no_duplicates() && self.names@.len() <= u32::MAX
    }

    /// A table without entries.
    pub fn new() -> (table: RegistrationTable)
        ensures
            table.wf(),
            table@ == Seq::<Seq<char>>::empty(),
    {
        let table = RegistrationTable { names: Vec::new() };
        assert(texts(table.names@) =~= Seq::empty());
        table
    }

    /// No identity stands twice in a table, and a table never outgrows the
    /// ids.
    pub proof fn lemma_wf(&self)
        requires
            self.wf(),
        ensures
            self@.no_duplicates(),
            self@.len() <= u32::MAX,
    {
    }

    /// The number of identities registered so far, which is the id the next
    /// new identity gets.
    pub fn len(&self) -> (n: usize)
        ensures
            n == self@.len(),
    {
        self.names.len()
    }

    /// The id of `identity`, if it was registered.
    pub fn lookup(&self, identity: &str) -> (id: Option<u32>)
        requires
            self.wf(),
        ensures
            match id {
                Some(id) => id_of(self@, identity@) == Some(id as int),
                None => id_of(self@, identity@) is None,
            },
    {
        let wanted = identity.to_owned();
        match position_of(&self.names, &wanted) {
            Some(at) => {
                proof {
                    lemma_first_position(texts(self.names@), identity@);
                }
                Some(at as u32)
            },
            None => None,
        }
    }

    /// Registers `identity`: returns the id it has, or gives it the next free
    /// id and returns that.
    pub fn register(&mut self, identity: &str) -> (id: u32)
        requires
            old(self).wf(),
            old(self)@.len() < u32::MAX,
        ensures
            final(self).wf(),
            final(self)@ == table_after(old(self)@, identity@),
            id == id_after(old(self)@, identity@),
    {
        proof {
            lemma_first_position(texts(self.names@), identity@);
            lemma_registering_is_permanent(texts(self.names@), identity@, identity@);
        }
        let wanted = identity.to_owned();
        match position_of(&self.names, &wanted) {
            Some(at) => at as u32,
            None => {
                let id: u32 = self.names.len() as u32;
                let ghost before = texts(self.names@);
                self.names.push(wanted);
                assert(texts(self.names@) =~= before.push(identity@));
                id
            },
        }
    }
}

} // verus!
