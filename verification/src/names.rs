//! Maps and sets keyed by name and kept in name order.
//!
//! Names are ordered character by character, so that walking a map meets its
//! entries in alphabetical order whatever order they were saved in.

use vstd::prelude::*;
use crate::text;

verus! {

/// Whether `a` comes strictly before `b` in name order.
pub open spec fn precedes(a: Seq<char>, b: Seq<char>) -> bool
    decreases a.len(),
{
    if b.len() == 0 {
        false
    } else if a.len() == 0 {
        true
    } else if a[0] == b[0] {
        precedes(a.drop_first(), b.drop_first())
    } else {
        a[0] < b[0]
    }
}

/// No name comes before itself.
pub proof fn lemma_precedes_irreflexive(a: Seq<char>)
    ensures
        !precedes(a, a),
    decreases a.len(),
{
    if a.len() > 0 {
        lemma_precedes_irreflexive(a.drop_first());
    }
}

/// Name order is transitive.
pub proof fn lemma_precedes_transitive(a: Seq<char>, b: Seq<char>, c: Seq<char>)
    requires
        precedes(a, b),
        precedes(b, c),
    ensures
        precedes(a, c),
    decreases a.len(),
{
    if a.len() > 0 && b.len() > 0 && c.len() > 0 && a[0] == b[0] && b[0] == c[0] {
        lemma_precedes_transitive(a.drop_first(), b.drop_first(), c.drop_first());
    }
}

/// Of two names that differ, one comes before the other.
pub proof fn lemma_precedes_total(a: Seq<char>, b: Seq<char>)
    ensures
        a == b || precedes(a, b) || precedes(b, a),
    decreases a.len(),
{
    if a.len() > 0 && b.len() > 0 && a[0] == b[0] {
        lemma_precedes_total(a.drop_first(), b.drop_first());
        if a.drop_first() == b.drop_first() {
            assert(a =~= seq![a[0]] + a.drop_first());
            assert(b =~= seq![b[0]] + b.drop_first());
        }
    } else if a.len() == 0 && b.len() == 0 {
        assert(a =~= b);
    }
}

/// Two names never come before each other.
pub proof fn lemma_precedes_asymmetric(a: Seq<char>, b: Seq<char>)
    requires
        precedes(a, b),
    ensures
        !precedes(b, a),
        a != b,
{
    lemma_precedes_irreflexive(a);
    if precedes(b, a) {
        lemma_precedes_transitive(a, b, a);
    }
}

/// How two names stand to each other.
pub enum Place {
    Before,
    Same,
    After,
}

fn place(a: &str, b: &str) -> (r: Place)
    ensures
        match r {
            Place::Before => precedes(a@, b@),
            Place::Same => a@ == b@,
            Place::After => precedes(b@, a@),
        },
{
    let left = text::to_chars(a);
    let right = text::to_chars(b);
    let mut i: usize = 0;
    assert(left@.skip(0) =~= left@);
    assert(right@.skip(0) =~= right@);
    while i < left.len() && i < right.len() && left[i] == right[i]
        invariant
            i <= left@.len(),
            i <= right@.len(),
            left@.take(i as int) == right@.take(i as int),
            precedes(left@.skip(i as int), right@.skip(i as int)) == precedes(left@, right@),
            precedes(right@.skip(i as int), left@.skip(i as int)) == precedes(right@, left@),
        decreases left@.len() - i,
    {
        assert(left@.skip(i as int).drop_first() =~= left@.skip(i + 1));
        assert(right@.skip(i as int).drop_first() =~= right@.skip(i + 1));
        assert(left@.take(i + 1) =~= left@.take(i as int).push(left@[i as int]));
        assert(right@.take(i + 1) =~= right@.take(i as int).push(right@[i as int]));
        i += 1;
    }
    if i == left.len() && i == right.len() {
        assert(left@.take(i as int) =~= left@);
        assert(right@.take(i as int) =~= right@);
        Place::Same
    } else if i == left.len() {
        Place::Before
    } else if i == right.len() {
        Place::After
    } else if left[i] < right[i] {
        Place::Before
    } else {
        Place::After
    }
}

/// Whether names stand in name order, each of them once.
pub open spec fn in_order(names: Seq<Seq<char>>) -> bool {
    forall|i: int, j: int|
        0 <= i < j < names.len() ==> precedes(#[trigger] names[i], #[trigger] names[j])
}

/// Whether `names` holds each name of `entries` once, in name order.
pub open spec fn is_listing<V>(names: Seq<Seq<char>>, entries: Map<Seq<char>, V>) -> bool {
    &&& in_order(names)
    &&& forall|name: Seq<char>| names.contains(name) <==> #[trigger] entries.contains_key(name)
}

/// A map from names to values.
#[derive(Debug)]
pub struct NameMap<V> {
    entries: Vec<(String, V)>,
}

impl<V> View for NameMap<V> {
    type V = Map<Seq<char>, V>;

    closed spec fn view(&self) -> Map<Seq<char>, V> {
        Map::new(
            |name: Seq<char>| self.names().contains(name),
            |name: Seq<char>| self.entries@[self.names().index_of(name)].1,
        )
    }
}

impl<V> NameMap<V> {
    /// The names of the map, in name order.
    pub closed spec fn names(&self) -> Seq<Seq<char>> {
        self.entries@.map_values(|entry: (String, V)| entry.0@)
    }

    #[verifier::type_invariant]
    spec fn sorted(self) -> bool {
        forall|i: int, j: int|
            0 <= i < j < self.entries@.len() ==> precedes(
                (#[trigger] self.entries@[i]).0@,
                (#[trigger] self.entries@[j]).0@,
            )
    }

    proof fn lemma_entry(&self, i: int)
        requires
            self.sorted(),
            0 <= i < self.entries@.len(),
        ensures
            self@.contains_key(self.entries@[i].0@),
            self@[self.entries@[i].0@] == self.entries@[i].1,
    {
        let name = self.entries@[i].0@;
        assert(self.names()[i] == name);
        let j = self.names().index_of(name);
        assert(self.names()[j] == name);
        if i < j {
            lemma_precedes_irreflexive(name);
            assert(precedes(self.entries@[i].0@, self.entries@[j].0@));
        } else if j < i {
            lemma_precedes_irreflexive(name);
            assert(precedes(self.entries@[j].0@, self.entries@[i].0@));
        }
    }

    proof fn lemma_listing(&self)
        requires
            self.sorted(),
        ensures
            is_listing(self.names(), self@),
    {
        assert forall|i: int, j: int| 0 <= i < j < self.names().len() implies precedes(
            #[trigger] self.names()[i],
            #[trigger] self.names()[j],
        ) by {
            assert(precedes(self.entries@[i].0@, self.entries@[j].0@));
        }
    }

    /// A map without entries.
    pub fn new() -> (r: Self)
        ensures
            r@ == Map::<Seq<char>, V>::empty(),
    {
        let r = NameMap { entries: Vec::new() };
        assert(r@ =~= Map::<Seq<char>, V>::empty());
        r
    }

    /// The number of entries.
    pub fn len(&self) -> (r: usize)
        ensures
            r == self.names().len(),
            is_listing(self.names(), self@),
    {
        proof {
            use_type_invariant(self);
            self.lemma_listing();
        }
        self.entries.len()
    }

    /// The entry that is the `at`-th in name order.
    pub fn entry(&self, at: usize) -> (r: (&str, &V))
        requires
            at < self.names().len(),
        ensures
            r.0@ == self.names()[at as int],
            self@.contains_key(r.0@),
            *r.1 == self@[r.0@],
            is_listing(self.names(), self@),
    {
        proof {
            use_type_invariant(self);
            self.lemma_listing();
            self.lemma_entry(at as int);
        }
        (self.entries[at].0.as_str(), &self.entries[at].1)
    }

    /// Where `name` stands among the entries, or where it would have to stand.
    fn locate(&self, name: &str) -> (r: (bool, usize))
        ensures
            r.1 <= self.entries@.len(),
            forall|i: int| 0 <= i < r.1 ==> precedes((#[trigger] self.entries@[i]).0@, name@),
            forall|i: int|
                (if r.0 {
                    r.1 + 1
                } else {
                    r.1 as int
                }) <= i < self.entries@.len() ==> precedes(name@, (#[trigger] self.entries@[i]).0@),
            r.0 ==> r.1 < self.entries@.len() && self.entries@[r.1 as int].0@ == name@,
            r.0 == self@.contains_key(name@),
            r.0 ==> self@[name@] == self.entries@[r.1 as int].1,
    {
        proof {
            use_type_invariant(self);
        }
        let mut at: usize = 0;
        while at < self.entries.len()
            invariant
                self.sorted(),
                at <= self.entries@.len(),
                forall|i: int| 0 <= i < at ==> precedes((#[trigger] self.entries@[i]).0@, name@),
            decreases self.entries@.len() - at,
        {
            match place(self.entries[at].0.as_str(), name) {
                Place::Before => {},
                Place::Same => {
                    proof {
                        self.lemma_entry(at as int);
                        assert forall|i: int| at + 1 <= i < self.entries@.len() implies precedes(
                            name@,
                            (#[trigger] self.entries@[i]).0@,
                        ) by {
                            assert(precedes(self.entries@[at as int].0@, self.entries@[i].0@));
                        }
                    }
                    return (true, at);
                },
                Place::After => {
                    proof {
                        assert forall|i: int| at <= i < self.entries@.len() implies precedes(
                            name@,
                            (#[trigger] self.entries@[i]).0@,
                        ) by {
                            if i > at {
                                assert(precedes(self.entries@[at as int].0@, self.entries@[i].0@));
                                lemma_precedes_transitive(
                                    name@,
                                    self.entries@[at as int].0@,
                                    self.entries@[i].0@,
                                );
                            }
                        }
                        self.lemma_absent(name@, at as int);
                    }
                    return (false, at);
                },
            }
            at += 1;
        }
        proof {
            self.lemma_absent(name@, at as int);
        }
        (false, at)
    }

    proof fn lemma_absent(&self, name: Seq<char>, at: int)
        requires
            0 <= at <= self.entries@.len(),
            forall|i: int| 0 <= i < at ==> precedes((#[trigger] self.entries@[i]).0@, name),
            forall|i: int|
                at <= i < self.entries@.len() ==> precedes(name, (#[trigger] self.entries@[i]).0@),
        ensures
            !self@.contains_key(name),
    {
        lemma_precedes_irreflexive(name);
        if self.names().contains(name) {
            let i = self.names().index_of(name);
            assert(self.names()[i] == name);
            assert(self.entries@[i].0@ == name);
        }
    }

    /// Whether `name` has an entry.
    pub fn contains(&self, name: &str) -> (r: bool)
        ensures
            r == self@.contains_key(name@),
    {
        self.locate(name).0
    }

    /// The value saved under `name`.
    pub fn get(&self, name: &str) -> (r: Option<&V>)
        ensures
            match r {
                Some(value) => self@.contains_key(name@) && *value == self@[name@],
                None => !self@.contains_key(name@),
            },
    {
        let (found, at) = self.locate(name);
        if found {
            Some(&self.entries[at].1)
        } else {
            None
        }
    }

    /// Save `value` under `name`, in place of what was there.
    pub fn insert(&mut self, name: String, value: V)
        ensures
            final(self)@ == old(self)@.insert(name@, value),
    {
        let (found, at) = self.locate(name.as_str());
        proof {
            use_type_invariant(&*self);
        }
        let ghost before = *self;
        let mut entries: Vec<(String, V)> = Vec::new();
        std::mem::swap(&mut entries, &mut self.entries);
        if found {
            entries.remove(at);
        }
        entries.insert(at, (name, value));
        let ghost shape = entries@;
        assert(forall|i: int| 0 <= i < at ==> shape[i] == before.entries@[i]);
        assert(forall|i: int|
            at < i < shape.len() ==> #[trigger] shape[i] == before.entries@[if found {
                i
            } else {
                i - 1
            }]);
        self.entries = entries;
        proof {
            self.lemma_replaced(&before, name@, value, at as int, found);
        }
    }

    proof fn lemma_replaced(&self, before: &Self, name: Seq<char>, value: V, at: int, found: bool)
        requires
            self.sorted(),
            before.sorted(),
            0 <= at < self.entries@.len(),
            found ==> at < before.entries@.len() && before.entries@[at].0@ == name,
            self.entries@.len() == before.entries@.len() + (if found {
                0int
            } else {
                1
            }),
            self.entries@[at].0@ == name,
            self.entries@[at].1 == value,
            forall|i: int| 0 <= i < at ==> self.entries@[i] == before.entries@[i],
            forall|i: int|
                at < i < self.entries@.len() ==> #[trigger] self.entries@[i]
                    == before.entries@[if found {
                    i
                } else {
                    i - 1
                }],
        ensures
            self@ == before@.insert(name, value),
    {
        let after = before@.insert(name, value);
        assert forall|n: Seq<char>| self@.contains_key(n) == #[trigger] after.contains_key(n) by {
            if self@.contains_key(n) && n != name {
                let i = self.names().index_of(n);
                assert(self.names()[i] == n);
                let j = if i < at || found {
                    i
                } else {
                    i - 1
                };
                assert(before.names()[j] == n);
                assert(before.names().contains(n));
            }
            if before@.contains_key(n) && n != name {
                let j = before.names().index_of(n);
                assert(before.names()[j] == n);
                let i = if j < at || found {
                    j
                } else {
                    j + 1
                };
                assert(self.entries@[i] == before.entries@[j]);
                assert(self.names()[i] == n);
                assert(self.names().contains(n));
            }
            assert(self.names()[at] == name);
        }
        assert forall|n: Seq<char>| #[trigger] self@.contains_key(n) implies self@[n]
            == after[n] by {
            let i = self.names().index_of(n);
            assert(self.names()[i] == n);
            self.lemma_entry(i);
            if n != name {
                let j = if i < at || found {
                    i
                } else {
                    i - 1
                };
                assert(before.entries@[j] == self.entries@[i]);
                before.lemma_entry(j);
            } else {
                self.lemma_entry(at);
            }
        }
        assert(self@ =~= after);
    }

    /// Take the entry of `name` away. Says whether there was one.
    pub fn remove(&mut self, name: &str) -> (r: bool)
        ensures
            r == old(self)@.contains_key(name@),
            final(self)@ == old(self)@.remove(name@),
    {
        let (found, at) = self.locate(name);
        proof {
            use_type_invariant(&*self);
        }
        let ghost before = *self;
        if found {
            let mut entries: Vec<(String, V)> = Vec::new();
            std::mem::swap(&mut entries, &mut self.entries);
            entries.remove(at);
            let ghost shape = entries@;
            assert(forall|i: int|
                0 <= i < shape.len() ==> #[trigger] shape[i] == before.entries@[if i < at {
                    i
                } else {
                    i + 1
                }]);
            self.entries = entries;
            proof {
                self.lemma_removed(&before, name@, at as int);
            }
        } else {
            assert(before@.remove(name@) =~= before@);
        }
        found
    }

    proof fn lemma_removed(&self, before: &Self, name: Seq<char>, at: int)
        requires
            self.sorted(),
            before.sorted(),
            0 <= at < before.entries@.len(),
            before.entries@[at].0@ == name,
            self.entries@.len() == before.entries@.len() - 1,
            forall|i: int|
                0 <= i < self.entries@.len() ==> #[trigger] self.entries@[i]
                    == before.entries@[if i < at {
                    i
                } else {
                    i + 1
                }],
        ensures
            self@ == before@.remove(name),
    {
        let after = before@.remove(name);
        lemma_precedes_irreflexive(name);
        assert forall|n: Seq<char>| self@.contains_key(n) == #[trigger] after.contains_key(n) by {
            if self@.contains_key(n) {
                let i = self.names().index_of(n);
                assert(self.names()[i] == n);
                let j = if i < at {
                    i
                } else {
                    i + 1
                };
                assert(before.names()[j] == n);
                assert(before.names().contains(n));
                if j < at {
                    assert(precedes(before.entries@[j].0@, before.entries@[at].0@));
                } else {
                    assert(precedes(before.entries@[at].0@, before.entries@[j].0@));
                }
            }
            if before@.contains_key(n) && n != name {
                let j = before.names().index_of(n);
                assert(before.names()[j] == n);
                let i = if j < at {
                    j
                } else {
                    j - 1
                };
                assert(self.entries@[i] == before.entries@[j]);
                assert(self.names()[i] == n);
                assert(self.names().contains(n));
            }
        }
        assert forall|n: Seq<char>| #[trigger] self@.contains_key(n) implies self@[n]
            == after[n] by {
            let i = self.names().index_of(n);
            assert(self.names()[i] == n);
            self.lemma_entry(i);
            let j = if i < at {
                i
            } else {
                i + 1
            };
            assert(before.entries@[j] == self.entries@[i]);
            before.lemma_entry(j);
        }
        assert(self@ =~= after);
    }
}

/// A map has one listing only: which names it holds fixes the order in which a
/// walk meets them.
pub proof fn listing_is_unique<V>(
    a: Seq<Seq<char>>,
    b: Seq<Seq<char>>,
    entries: Map<Seq<char>, V>,
)
    requires
        is_listing(a, entries),
        is_listing(b, entries),
    ensures
        a == b,
    decreases a.len(),
{
    if a.len() == 0 {
        if b.len() > 0 {
            assert(b.contains(b[0]));
            assert(entries.contains_key(b[0]));
        }
        assert(a =~= b);
    } else {
        assert(a.contains(a[0]));
        assert(entries.contains_key(a[0]));
        assert(b.contains(a[0]));
        let j = b.index_of(a[0]);
        assert(b.contains(b[0]));
        assert(entries.contains_key(b[0]));
        assert(a.contains(b[0]));
        let i = a.index_of(b[0]);
        if a[0] != b[0] {
            assert(precedes(b[0], b[j]));
            assert(precedes(a[0], a[i]));
            lemma_precedes_asymmetric(a[0], b[0]);
        }
        let rest = entries.remove(a[0]);
        lemma_listing_rest(a, entries);
        lemma_listing_rest(b, entries);
        listing_is_unique(a.drop_first(), b.drop_first(), rest);
        assert(a =~= seq![a[0]] + a.drop_first());
        assert(b =~= seq![b[0]] + b.drop_first());
    }
}

proof fn lemma_listing_rest<V>(names: Seq<Seq<char>>, entries: Map<Seq<char>, V>)
    requires
        is_listing(names, entries),
        names.len() > 0,
    ensures
        is_listing(names.drop_first(), entries.remove(names[0])),
{
    let rest = names.drop_first();
    lemma_precedes_irreflexive(names[0]);
    assert forall|name: Seq<char>|
        rest.contains(name) == #[trigger] entries.remove(names[0]).contains_key(name) by {
        if rest.contains(name) {
            let i = rest.index_of(name);
            assert(names[i + 1] == name);
            assert(precedes(names[0], names[i + 1]));
            assert(names.contains(name));
        }
        if entries.contains_key(name) && name != names[0] {
            assert(names.contains(name));
            let i = names.index_of(name);
            assert(rest[i - 1] == name);
        }
    }
}

/// A set of names.
#[derive(Debug)]
pub struct NameSet {
    names: NameMap<()>,
}

impl View for NameSet {
    type V = Set<Seq<char>>;

    closed spec fn view(&self) -> Set<Seq<char>> {
        self.names@.dom()
    }
}

impl NameSet {
    /// The names of the set, in name order.
    pub closed spec fn listed(&self) -> Seq<Seq<char>> {
        self.names.names()
    }

    /// A set without names.
    pub fn new() -> (r: Self)
        ensures
            r@ == Set::<Seq<char>>::empty(),
    {
        let r = NameSet { names: NameMap::new() };
        assert(r@ =~= Set::<Seq<char>>::empty());
        r
    }

    /// Whether `name` is in the set.
    pub fn contains(&self, name: &str) -> (r: bool)
        ensures
            r == self@.contains(name@),
    {
        self.names.contains(name)
    }

    /// Put `name` into the set.
    pub fn insert(&mut self, name: String)
        ensures
            final(self)@ == old(self)@.insert(name@),
    {
        self.names.insert(name, ());
        assert(self@ =~= old(self)@.insert(name@));
    }

    /// The number of names.
    pub fn len(&self) -> (r: usize)
        ensures
            r == self.listed().len(),
            forall|name: Seq<char>| self.listed().contains(name) <==> self@.contains(name),
            in_order(self.listed()),
    {
        let r: usize = self.names.len();
        assert forall|name: Seq<char>| self.listed().contains(name) == self@.contains(name) by {
            assert(self.names@.contains_key(name) == self@.contains(name));
        }
        r
    }

    /// The name that is the `at`-th in name order.
    pub fn name(&self, at: usize) -> (r: &str)
        requires
            at < self.listed().len(),
        ensures
            r@ == self.listed()[at as int],
            self@.contains(r@),
            in_order(self.listed()),
    {
        proof {
            use_type_invariant(&self.names);
            self.names.lemma_listing();
        }
        self.names.entry(at).0
    }
}

} // verus!
