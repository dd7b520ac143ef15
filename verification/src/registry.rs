//! The peer registry: the supernode's map from peer address to the
//! connection that a relay loop owns for that peer.
//!
//! Connections themselves live with the caller; the registry holds a plain
//! `u64` identifier for each.  The abstract value of a registry is a
//! `Map<Seq<char>, u64>` from address to connection identifier.

use vstd::prelude::*;

verus! {

/// A registry of connected peers, keyed by the remote socket's canonical
/// address.  Entries are kept as an association list with pairwise-distinct
/// keys; the abstract value (`@`) is the map the list denotes.
pub struct Registry {
    entries: Vec<(String, u64)>,
}

/// The addresses in `s` are pairwise distinct.
pub open spec fn keys_distinct(s: Seq<(String, u64)>) -> bool {
    forall|i: int, j: int|
        #![trigger s[i], s[j]]
        0 <= i < s.len() && 0 <= j < s.len() && i != j ==> s[i].0@ != s[j].0@
}

/// The map an association list denotes: a later entry for the same address
/// wins.
pub open spec fn assoc_map(s: Seq<(String, u64)>) -> Map<Seq<char>, u64>
    decreases s.len(),
{
    if s.len() == 0 {
        Map::empty()
    } else {
        assoc_map(s.drop_last()).insert(s.last().0@, s.last().1)
    }
}

proof fn lemma_keys_distinct_drop_last(s: Seq<(String, u64)>)
    requires
        keys_distinct(s),
        s.len() > 0,
    ensures
        keys_distinct(s.drop_last()),
{
    assert forall|i: int, j: int|
        0 <= i < s.drop_last().len() && 0 <= j < s.drop_last().len() && i != j implies (
    s.drop_last()[i]).0@ != (s.drop_last()[j]).0@ by {
        assert(s.drop_last()[i] == s[i]);
        assert(s.drop_last()[j] == s[j]);
    }
}

/// An address is in the denoted map exactly when some entry carries it.
proof fn lemma_assoc_map_contains(s: Seq<(String, u64)>, a: Seq<char>)
    ensures
        assoc_map(s).contains_key(a) <==> exists|i: int|
            0 <= i < s.len() && (#[trigger] s[i]).0@ == a,
    decreases s.len(),
{
    if s.len() > 0 {
        lemma_assoc_map_contains(s.drop_last(), a);
        if s.last().0@ == a {
            assert(s[s.len() - 1].0@ == a);
        } else {
            if assoc_map(s).contains_key(a) {
                let i = choose|i: int|
                    0 <= i < s.drop_last().len() && (#[trigger] s.drop_last()[i]).0@ == a;
                assert(s.drop_last()[i] == s[i]);
            }
            if exists|i: int| 0 <= i < s.len() && (#[trigger] s[i]).0@ == a {
                let i = choose|i: int| 0 <= i < s.len() && (#[trigger] s[i]).0@ == a;
                assert(i != s.len() - 1);
                assert(s.drop_last()[i] == s[i]);
            }
        }
    }
}

/// With distinct keys, the denoted map sends each entry's address to that
/// entry's connection.
proof fn lemma_assoc_map_value(s: Seq<(String, u64)>, i: int)
    requires
        keys_distinct(s),
        0 <= i < s.len(),
    ensures
        assoc_map(s).contains_key(s[i].0@),
        assoc_map(s)[s[i].0@] == s[i].1,
    decreases s.len(),
{
    if i == s.len() - 1 {
    } else {
        lemma_keys_distinct_drop_last(s);
        assert(s.drop_last()[i] == s[i]);
        lemma_assoc_map_value(s.drop_last(), i);
        assert(s.last().0@ != s[i].0@);
    }
}

proof fn lemma_keys_distinct_remove(s: Seq<(String, u64)>, i: int)
    requires
        keys_distinct(s),
        0 <= i < s.len(),
    ensures
        keys_distinct(s.remove(i)),
{
    assert forall|p: int, q: int|
        0 <= p < s.remove(i).len() && 0 <= q < s.remove(i).len() && p != q implies (
    s.remove(i)[p]).0@ != (s.remove(i)[q]).0@ by {
        let p0: int = if p < i { p } else { p + 1 };
        let q0: int = if q < i { q } else { q + 1 };
        assert(s.remove(i)[p] == s[p0]);
        assert(s.remove(i)[q] == s[q0]);
    }
}

/// Removing the entry at `i` removes exactly that entry's address from the
/// denoted map.
proof fn lemma_assoc_map_remove(s: Seq<(String, u64)>, i: int)
    requires
        keys_distinct(s),
        0 <= i < s.len(),
    ensures
        assoc_map(s.remove(i)) == assoc_map(s).remove(s[i].0@),
    decreases s.len(),
{
    if i == s.len() - 1 {
        assert(s.remove(i) =~= s.drop_last());
        lemma_assoc_map_contains(s.drop_last(), s[i].0@);
        assert forall|j: int| 0 <= j < s.drop_last().len() implies (s.drop_last()[j]).0@
            != s[i].0@ by {
            assert(s.drop_last()[j] == s[j]);
        }
        assert(!assoc_map(s.drop_last()).contains_key(s[i].0@));
        assert(assoc_map(s).remove(s[i].0@) =~= assoc_map(s.drop_last()));
    } else {
        lemma_keys_distinct_drop_last(s);
        lemma_assoc_map_remove(s.drop_last(), i);
        assert(s.drop_last()[i] == s[i]);
        assert(s.remove(i).len() == s.len() - 1);
        assert(s.remove(i).drop_last() =~= s.drop_last().remove(i));
        assert(s.remove(i).last() == s.last());
        assert(s[i].0@ != s.last().0@);
        assert(assoc_map(s.remove(i)) == assoc_map(s.drop_last().remove(i)).insert(
            s.last().0@,
            s.last().1,
        ));
        assert(assoc_map(s.drop_last()).remove(s[i].0@).insert(s.last().0@, s.last().1)
            =~= assoc_map(s.drop_last()).insert(s.last().0@, s.last().1).remove(s[i].0@));
    }
}

/// `targets` lists exactly the entries of `reg`, each address once.
pub open spec fn lists_registry(targets: Seq<(String, u64)>, reg: Map<Seq<char>, u64>) -> bool {
    &&& forall|i: int|
        0 <= i < targets.len() ==> reg.contains_key((#[trigger] targets[i]).0@) && reg[targets[i].0@]
            == targets[i].1
    &&& forall|a: Seq<char>|
        #[trigger] reg.contains_key(a) ==> exists|i: int|
            0 <= i < targets.len() && (#[trigger] targets[i]).0@ == a
    &&& keys_distinct(targets)
}

/// `targets` lists exactly the entries of `reg` other than the one for
/// `excl`, each address once.
pub open spec fn lists_registry_except(
    targets: Seq<(String, u64)>,
    reg: Map<Seq<char>, u64>,
    excl: Seq<char>,
) -> bool {
    &&& forall|i: int|
        0 <= i < targets.len() ==> (#[trigger] targets[i]).0@ != excl && reg.contains_key(
            targets[i].0@,
        ) && reg[targets[i].0@] == targets[i].1
    &&& forall|a: Seq<char>|
        #[trigger] reg.contains_key(a) && a != excl ==> exists|i: int|
            0 <= i < targets.len() && (#[trigger] targets[i]).0@ == a
    &&& keys_distinct(targets)
}

impl View for Registry {
    type V = Map<Seq<char>, u64>;

    closed spec fn view(&self) -> Map<Seq<char>, u64> {
        assoc_map(self.entries@)
    }
}

impl Registry {
    /// The registry's internal invariant: no address occurs twice.
    pub closed spec fn wf(&self) -> bool {
        keys_distinct(self.entries@)
    }

    /// An empty registry.
    pub fn new() -> (r: Registry)
        ensures
            r.wf(),
            r@ == Map::<Seq<char>, u64>::empty(),
    {
        let r = Registry { entries: Vec::new() };
        proof {
            assert(r@ =~= Map::<Seq<char>, u64>::empty());
        }
        r
    }

    /// Deletes the entry for `addr` if present; a no-op otherwise.
    pub fn remove(&mut self, addr: &String)
        requires
            old(self).wf(),
        ensures
            final(self).wf(),
            final(self)@ == old(self)@.remove(addr@),
    {
        let n = self.entries.len();
        let mut i: usize = 0;
        while i < n
            invariant
                old(self).wf(),
                *self == *old(self),
                n == self.entries@.len(),
                i <= n,
                forall|j: int| 0 <= j < i ==> (#[trigger] self.entries@[j]).0@ != addr@,
            decreases n - i,
        {
            if self.entries[i].0 == *addr {
                proof {
                    lemma_assoc_map_remove(self.entries@, i as int);
                    lemma_keys_distinct_remove(self.entries@, i as int);
                }
                self.entries.remove(i);
                return;
            }
            i += 1;
        }
        proof {
            lemma_assoc_map_contains(self.entries@, addr@);
            assert(!self@.contains_key(addr@));
            assert(self@.remove(addr@) =~= self@);
        }
    }

    /// Inserts the entry for `addr`, overwriting any prior entry for the same
    /// address; an overwrite simply discards the prior connection identifier.
    pub fn register(&mut self, addr: String, conn: u64)
        requires
            old(self).wf(),
        ensures
            final(self).wf(),
            final(self)@ == old(self)@.insert(addr@, conn),
    {
        self.remove(&addr);
        proof {
            lemma_assoc_map_contains(self.entries@, addr@);
        }
        let ghost pre = self.entries@;
        self.entries.push((addr, conn));
        proof {
            assert(self.entries@.drop_last() =~= pre);
            assert forall|i: int, j: int|
                0 <= i < self.entries@.len() && 0 <= j < self.entries@.len() && i != j implies (
            self.entries@[i]).0@ != (self.entries@[j]).0@ by {
                if i < pre.len() && j < pre.len() {
                    assert(self.entries@[i] == pre[i]);
                    assert(self.entries@[j] == pre[j]);
                } else if i < pre.len() {
                    assert(self.entries@[i] == pre[i]);
                } else {
                    assert(self.entries@[j] == pre[j]);
                }
            }
        }
    }

    /// True when `addr` is registered.
    pub fn contains(&self, addr: &String) -> (r: bool)
        ensures
            r == self@.contains_key(addr@),
    {
        proof {
            lemma_assoc_map_contains(self.entries@, addr@);
        }
        let n = self.entries.len();
        let mut i: usize = 0;
        while i < n
            invariant
                n == self.entries@.len(),
                i <= n,
                forall|j: int| 0 <= j < i ==> (#[trigger] self.entries@[j]).0@ != addr@,
            decreases n - i,
        {
            if self.entries[i].0 == *addr {
                proof {
                    lemma_assoc_map_contains(self.entries@, addr@);
                    assert(exists|j: int|
                        0 <= j < self.entries@.len() && (#[trigger] self.entries@[j]).0@ == addr@);
                }
                return true;
            }
            i += 1;
        }
        false
    }

    /// The currently registered addresses, each once, for observability.
    pub fn addresses(&self) -> (r: Vec<String>)
        requires
            self.wf(),
        ensures
            forall|j: int| 0 <= j < r@.len() ==> self@.contains_key((#[trigger] r@[j])@),
            forall|a: Seq<char>|
                #[trigger] self@.contains_key(a) ==> exists|j: int|
                    0 <= j < r@.len() && (#[trigger] r@[j])@ == a,
            forall|j: int, k: int|
                #![trigger r@[j], r@[k]]
                0 <= j < r@.len() && 0 <= k < r@.len() && j != k ==> r@[j]@ != r@[k]@,
    {
        let mut r: Vec<String> = Vec::new();
        let n = self.entries.len();
        let mut i: usize = 0;
        while i < n
            invariant
                self.wf(),
                n == self.entries@.len(),
                i <= n,
                r@.len() == i,
                forall|j: int| 0 <= j < i ==> #[trigger] r@[j] == self.entries@[j].0,
            decreases n - i,
        {
            r.push(self.entries[i].0.clone());
            i += 1;
        }
        proof {
            assert forall|j: int| 0 <= j < r@.len() implies self@.contains_key(
                (r@[j])@,
            ) by {
                lemma_assoc_map_value(self.entries@, j);
            }
            assert forall|a: Seq<char>| self@.contains_key(a) implies exists|j: int|
                0 <= j < r@.len() && (#[trigger] r@[j])@ == a by {
                lemma_assoc_map_contains(self.entries@, a);
                let l = choose|l: int|
                    0 <= l < self.entries@.len() && (#[trigger] self.entries@[l]).0@ == a;
                assert((r@[l])@ == a);
            }
            assert forall|j: int, k: int|
                0 <= j < r@.len() && 0 <= k < r@.len() && j != k implies r@[j]@ != r@[k]@ by {
                assert(self.entries@[j].0@ != self.entries@[k].0@);
            }
        }
        r
    }

    /// A copy of every `(address, connection)` pair, for a broadcast pass:
    /// the caller writes to each connection after the lock-scoped copy.
    pub fn snapshot_for_broadcast(&self) -> (r: Vec<(String, u64)>)
        requires
            self.wf(),
        ensures
            lists_registry(r@, self@),
    {
        let mut r: Vec<(String, u64)> = Vec::new();
        let n = self.entries.len();
        let mut i: usize = 0;
        while i < n
            invariant
                self.wf(),
                n == self.entries@.len(),
                i <= n,
                r@.len() == i,
                forall|j: int|
                    0 <= j < i ==> (#[trigger] r@[j]).0 == self.entries@[j].0 && r@[j].1
                        == self.entries@[j].1,
            decreases n - i,
        {
            let pair = (self.entries[i].0.clone(), self.entries[i].1);
            r.push(pair);
            i += 1;
        }
        proof {
            assert forall|j: int| 0 <= j < r@.len() implies self@.contains_key((r@[j]).0@)
                && self@[(r@[j]).0@] == (r@[j]).1 by {
                lemma_assoc_map_value(self.entries@, j);
            }
            assert forall|a: Seq<char>| self@.contains_key(a) implies exists|i2: int|
                0 <= i2 < r@.len() && (#[trigger] r@[i2]).0@ == a by {
                lemma_assoc_map_contains(self.entries@, a);
                let l = choose|l: int|
                    0 <= l < self.entries@.len() && (#[trigger] self.entries@[l]).0@ == a;
                assert((r@[l]).0@ == a);
            }
            assert forall|j: int, k: int|
                0 <= j < r@.len() && 0 <= k < r@.len() && j != k implies (r@[j]).0@ != (
            r@[k]).0@ by {
                assert(self.entries@[j].0@ != self.entries@[k].0@);
            }
        }
        r
    }

    /// The fan-out targets for a message from `sender`: a copy of every
    /// registered pair whose address differs from `sender`'s.
    pub fn targets_excluding(&self, sender: &String) -> (r: Vec<(String, u64)>)
        requires
            self.wf(),
        ensures
            lists_registry_except(r@, self@, sender@),
    {
        let mut r: Vec<(String, u64)> = Vec::new();
        let n = self.entries.len();
        let mut i: usize = 0;
        while i < n
            invariant
                self.wf(),
                n == self.entries@.len(),
                i <= n,
                forall|j: int| 0 <= j < r@.len() ==> (#[trigger] r@[j]).0@ != sender@,
                forall|j: int|
                    0 <= j < r@.len() ==> exists|l: int|
                        0 <= l < i && (#[trigger] r@[j]).0 == (#[trigger] self.entries@[l]).0
                            && r@[j].1 == self.entries@[l].1,
                forall|l: int|
                    0 <= l < i && (#[trigger] self.entries@[l]).0@ != sender@ ==> exists|j: int|
                        0 <= j < r@.len() && (#[trigger] r@[j]).0@ == self.entries@[l].0@,
                keys_distinct(r@),
            decreases n - i,
        {
            let ghost r0 = r@;
            if !(self.entries[i].0 == *sender) {
                proof {
                    assert forall|j: int| 0 <= j < r@.len() implies (r@[j]).0@
                        != self.entries@[i as int].0@ by {
                        let l = choose|l: int|
                            0 <= l < i && (#[trigger] r@[j]).0 == (#[trigger] self.entries@[l]).0
                                && r@[j].1 == self.entries@[l].1;
                        assert(self.entries@[l].0@ != self.entries@[i as int].0@);
                    }
                }
                let pair = (self.entries[i].0.clone(), self.entries[i].1);
                r.push(pair);
                proof {
                    assert((r@[r@.len() - 1]).0 == self.entries@[i as int].0);
                    assert((r@[r@.len() - 1]).0@ == self.entries@[i as int].0@);
                }
            }
            i += 1;
            proof {
                assert forall|l: int|
                    0 <= l < i && (#[trigger] self.entries@[l]).0@ != sender@ implies exists|
                    j: int,
                |
                    0 <= j < r@.len() && (#[trigger] r@[j]).0@ == self.entries@[l].0@ by {
                    if l < i - 1 {
                        let j0 = choose|j: int|
                            0 <= j < r0.len() && (#[trigger] r0[j]).0@ == self.entries@[l].0@;
                        assert(r@[j0] == r0[j0]);
                        assert((r@[j0]).0@ == self.entries@[l].0@);
                    } else {
                        assert((r@[r@.len() - 1]).0@ == self.entries@[l].0@);
                    }
                }
            }
        }
        proof {
            assert(i == n);
            assert forall|j: int| 0 <= j < r@.len() implies (r@[j]).0@ != sender@
                && self@.contains_key((r@[j]).0@) && self@[(r@[j]).0@] == (r@[j]).1 by {
                let l = choose|l: int|
                    0 <= l < i && (#[trigger] r@[j]).0 == (#[trigger] self.entries@[l]).0
                        && r@[j].1 == self.entries@[l].1;
                lemma_assoc_map_value(self.entries@, l);
            }
            assert forall|a: Seq<char>| self@.contains_key(a) && a != sender@ implies exists|
                i2: int,
            |
                0 <= i2 < r@.len() && (#[trigger] r@[i2]).0@ == a by {
                lemma_assoc_map_contains(self.entries@, a);
                let l = choose|l: int|
                    0 <= l < self.entries@.len() && (#[trigger] self.entries@[l]).0@ == a;
                assert(self.entries@[l].0@ != sender@);
            }
        }
        r
    }
}

} // verus!
