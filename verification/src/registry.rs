//! Entries kept under their names, in the order of the names.

use vstd::prelude::*;
use vstd::utf8::{encode_utf8, encode_utf8_decode_utf8};

verus! {

/// Two byte strings agree on their first `k` bytes.
pub open spec fn agree_upto(a: Seq<u8>, b: Seq<u8>, k: int) -> bool {
    &&& 0 <= k <= a.len()
    &&& k <= b.len()
    &&& forall|j: int| 0 <= j < k ==> a[j] == b[j]
}

/// `a` comes before `b` in the order of a dictionary: where they first
/// differ `a` has the smaller byte, or `a` ends there and `b` goes on.
pub open spec fn bytes_before(a: Seq<u8>, b: Seq<u8>) -> bool {
    exists|k: int|
        #[trigger] agree_upto(a, b, k) && k < b.len() && (k < a.len() ==> a[k] < b[k])
}

/// The order of names: that of their UTF-8 bytes, which is how `str` orders.
pub open spec fn sorts_before(a: Seq<char>, b: Seq<char>) -> bool {
    bytes_before(encode_utf8(a), encode_utf8(b))
}

/// Each name sorts before all that follow it; so no name occurs twice.
pub open spec fn strictly_ascending(names: Seq<Seq<char>>) -> bool {
    forall|i: int, j: int| 0 <= i < j < names.len() ==> sorts_before(names[i], names[j])
}

/// No byte string comes before itself.
pub proof fn bytes_before_is_irreflexive(a: Seq<u8>)
    ensures
        !bytes_before(a, a),
{
}

/// The order of bytes carries over from one pair to the next.
pub proof fn bytes_before_is_transitive(a: Seq<u8>, b: Seq<u8>, c: Seq<u8>)
    requires
        bytes_before(a, b),
        bytes_before(b, c),
    ensures
        bytes_before(a, c),
{
    let k1 = choose|k: int|
        #[trigger] agree_upto(a, b, k) && k < b.len() && (k < a.len() ==> a[k] < b[k]);
    let k2 = choose|k: int|
        #[trigger] agree_upto(b, c, k) && k < c.len() && (k < b.len() ==> b[k] < c[k]);
    let k = if k1 <= k2 {
        k1
    } else {
        k2
    };
    assert(agree_upto(a, c, k));
}

/// Where a name stands relative to another.
#[derive(Clone, Copy, Debug, PartialEq, Eq, Structural)]
pub enum Standing {
    Before,
    Same,
    After,
}

/// Where `a` stands relative to `b` in the order of names.
pub fn standing(a: &str, b: &str) -> (s: Standing)
    ensures
        s == Standing::Before <==> sorts_before(a@, b@),
        s == Standing::Same <==> a@ == b@,
        s == Standing::After <==> sorts_before(b@, a@),
{
    let x = a.as_bytes();
    let y = b.as_bytes();
    let mut i: usize = 0;
    while i < x.len() && i < y.len() && x[i] == y[i]
        invariant
            agree_upto(x@, y@, i as int),
        decreases x.len() - i,
    {
        i += 1;
    }
    proof {
        bytes_before_is_irreflexive(x@);
        if bytes_before(x@, y@) && bytes_before(y@, x@) {
            bytes_before_is_transitive(x@, y@, x@);
        }
    }
    if i < x.len() && i < y.len() {
        if x[i] < y[i] {
            Standing::Before
        } else {
            assert(agree_upto(y@, x@, i as int));
            Standing::After
        }
    } else if i < y.len() {
        Standing::Before
    } else if i < x.len() {
        assert(agree_upto(y@, x@, i as int));
        Standing::After
    } else {
        proof {
            assert(x@ =~= y@);
            encode_utf8_decode_utf8(a@);
            encode_utf8_decode_utf8(b@);
        }
        Standing::Same
    }
}

/// The names of a sequence of entries, in their order.
pub open spec fn names_of<V>(entries: Seq<(Seq<char>, V)>) -> Seq<Seq<char>> {
    Seq::new(entries.len(), |i: int| entries[i].0)
}

/// Whether one of the entries goes by `name`.
pub open spec fn has_name<V>(entries: Seq<(Seq<char>, V)>, name: Seq<char>) -> bool {
    exists|i: int| 0 <= i < entries.len() && #[trigger] entries[i].0 == name
}

/// Values kept under names: each name once, the entries in ascending order
/// of their names.
#[derive(Debug, PartialEq, Eq)]
pub struct Registry<V> {
    entries: Vec<(String, V)>,
}

impl<V> View for Registry<V> {
    type V = Seq<(Seq<char>, V)>;

    /// The entries in their order, each name as text.
    closed spec fn view(&self) -> Seq<(Seq<char>, V)> {
        listed(self.entries@)
    }
}

/// The entries with each name as text.
spec fn listed<V>(entries: Seq<(String, V)>) -> Seq<(Seq<char>, V)> {
    Seq::new(entries.len(), |i: int| (entries[i].0@, entries[i].1))
}

impl<V> Registry<V> {
    #[verifier::type_invariant]
    spec fn inv(self) -> bool {
        strictly_ascending(names_of(self@))
    }

    /// A registry without entries.
    pub fn new() -> (registry: Self)
        ensures
            registry@ == Seq::<(Seq<char>, V)>::empty(),
    {
        Registry { entries: Vec::new() }
    }

    /// The number of entries; they stand in the order of their names.
    pub fn len(&self) -> (n: usize)
        ensures
            n == self@.len(),
            strictly_ascending(names_of(self@)),
    {
        proof {
            use_type_invariant(self);
        }
        self.entries.len()
    }

    /// Whether there is no entry.
    pub fn is_empty(&self) -> (b: bool)
        ensures
            b == (self@.len() == 0),
    {
        self.entries.len() == 0
    }

    /// The name of the entry at `index`, counted in the order of the names.
    pub fn name_at(&self, index: usize) -> (name: &String)
        requires
            index < self@.len(),
        ensures
            name@ == self@[index as int].0,
    {
        &self.entries[index].0
    }

    /// The value of the entry at `index`, counted in the order of the names.
    pub fn value_at(&self, index: usize) -> (value: &V)
        requires
            index < self@.len(),
        ensures
            *value == self@[index as int].1,
    {
        &self.entries[index].1
    }

    /// The value kept under `name`, if there is one.
    pub fn get(&self, name: &str) -> (found: Option<&V>)
        ensures
            found is Some <==> has_name(self@, name@),
            found matches Some(value) ==> exists|i: int|
                0 <= i < self@.len() && #[trigger] self@[i] == (name@, *value),
    {
        let mut i: usize = 0;
        while i < self.entries.len()
            invariant
                i <= self@.len(),
                self@.len() == self.entries@.len(),
                forall|j: int| 0 <= j < i ==> (#[trigger] self@[j]).0 != name@,
            decreases self.entries.len() - i,
        {
            if standing(self.entries[i].0.as_str(), name) == Standing::Same {
                assert(self@[i as int].0 == name@);
                return Some(&self.entries[i].1);
            }
            i += 1;
        }
        None
    }

    /// Whether a value is kept under `name`.
    pub fn contains_key(&self, name: &str) -> (b: bool)
        ensures
            b == has_name(self@, name@),
    {
        self.get(name).is_some()
    }

    /// Puts `value` under `name`. A value that was there before is replaced
    /// and handed back; the entries stay in the order of their names.
    pub fn insert(&mut self, name: String, value: V) -> (replaced: Option<V>)
        ensures
            strictly_ascending(names_of(final(self)@)),
            replaced is Some <==> has_name(old(self)@, name@),
            match replaced {
                Some(before) => exists|i: int|
                    0 <= i < old(self)@.len() && #[trigger] old(self)@[i] == (name@, before)
                        && final(self)@ == old(self)@.update(i, (name@, value)),
                None => exists|i: int|
                    0 <= i <= old(self)@.len() && #[trigger] final(self)@ == old(self)@.insert(
                        i,
                        (name@, value),
                    ),
            },
    {
        proof {
            use_type_invariant(&*self);
        }
        let ghost before = self@;
        let ghost names = names_of(before);
        let mut at: usize = 0;
        let mut taken = false;
        while at < self.entries.len()
            invariant_except_break
                !taken,
            invariant
                self@ == before,
                names == names_of(before),
                before.len() == self.entries@.len(),
                at <= before.len(),
                forall|j: int| 0 <= j < at ==> sorts_before(names[j], name@),
            ensures
                taken ==> at < before.len() && names[at as int] == name@,
                !taken && at < before.len() ==> sorts_before(name@, names[at as int]),
            decreases self.entries.len() - at,
        {
            match standing(self.entries[at].0.as_str(), name.as_str()) {
                Standing::Before => {
                    at += 1;
                },
                Standing::Same => {
                    taken = true;
                    break ;
                },
                Standing::After => {
                    break ;
                },
            }
        }
        let mut entries: Vec<(String, V)> = Vec::new();
        std::mem::swap(&mut self.entries, &mut entries);
        if taken {
            let (_, held) = entries.remove(at);
            entries.insert(at, (name, value));
            assert(names_of(listed(entries@)) =~= names);
            self.entries = entries;
            Some(held)
        } else {
            entries.insert(at, (name, value));
            proof {
                let after = listed(entries@);
                assert(after =~= before.insert(at as int, (name@, value)));
                // The names from `at` on come after the new name.
                assert forall|j: int| at <= j < names.len() implies sorts_before(
                    name@,
                    #[trigger] names[j],
                ) by {
                    if j > at {
                        assert(sorts_before(names[at as int], names[j]));
                        bytes_before_is_transitive(
                            encode_utf8(name@),
                            encode_utf8(names[at as int]),
                            encode_utf8(names[j]),
                        );
                    }
                }
                assert forall|i: int, j: int| 0 <= i < j < after.len() implies sorts_before(
                    names_of(after)[i],
                    names_of(after)[j],
                ) by {
                    let i0 = if i < at { i } else { i - 1 };
                    let j0 = if j < at { j } else { j - 1 };
                    if i != at && j != at {
                        assert(sorts_before(names[i0], names[j0]));
                    } else if j == at {
                        assert(sorts_before(names[i0], name@));
                    } else {
                        assert(sorts_before(name@, names[j0]));
                    }
                }
                assert forall|i: int| 0 <= i < before.len() implies (#[trigger] before[i]).0
                    != name@ by {
                    bytes_before_is_irreflexive(encode_utf8(name@));
                    if i < at {
                        assert(sorts_before(names[i], name@));
                    } else {
                        assert(sorts_before(name@, names[i]));
                    }
                }
            }
            self.entries = entries;
            None
        }
    }
}

} // verus!
