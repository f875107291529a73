//! A table from names to values in which no name occurs twice.
use crate::text::same_text;
use vstd::prelude::*;

verus! {

/// A table from names to values.  An entry keeps its position for as long
/// as the table lives: entries are never removed, and a name that is set
/// again keeps its place.
#[derive(Debug)]
pub struct NameTable<V> {
    pub names: Vec<String>,
    pub values: Vec<V>,
}

impl<V> NameTable<V> {
    /// Every name has a value, and no name occurs twice.
    pub open spec fn wf(&self) -> bool {
        &&& self.names@.len() == self.values@.len()
        &&& forall|i: int, j: int|
            #![trigger self.names@[i], self.names@[j]]
            0 <= i < j < self.names@.len() ==> self.names@[i]@ != self.names@[j]@
    }

    /// The entry at position `i` is named `name`.
    pub open spec fn named(&self, i: int, name: Seq<char>) -> bool {
        0 <= i < self.names@.len() && self.names@[i]@ == name
    }

    /// True when the table has an entry named `name`.
    pub open spec fn contains(&self, name: Seq<char>) -> bool {
        exists|i: int| self.named(i, name)
    }

    /// The position of the entry named `name`.
    pub open spec fn position(&self, name: Seq<char>) -> int {
        choose|i: int| self.named(i, name)
    }

    /// The value of the entry named `name`.
    pub open spec fn value(&self, name: Seq<char>) -> V {
        self.values@[self.position(name)]
    }

    /// The number of entries.
    pub open spec fn spec_len(&self) -> nat {
        self.names@.len()
    }

    /// In a well-formed table the entry at `i` is the only one of its name.
    pub proof fn lemma_position(&self, i: int)
        requires
            self.wf(),
            0 <= i < self.names@.len(),
        ensures
            self.contains(self.names@[i]@),
            self.position(self.names@[i]@) == i,
    {
        let name = self.names@[i]@;
        assert(self.named(i, name));
        let c = self.position(name);
        assert(self.named(c, name));
        if c < i {
            assert(self.names@[c]@ != self.names@[i]@);
        } else if i < c {
            assert(self.names@[i]@ != self.names@[c]@);
        }
    }

    /// True when the table is well formed: every name has a value, and no
    /// name occurs twice.
    pub fn check(&self) -> (r: bool)
        ensures
            r == self.wf(),
    {
        if self.names.len() != self.values.len() {
            return false;
        }
        let mut j: usize = 0;
        while j < self.names.len()
            invariant
                j <= self.names@.len(),
                self.names@.len() == self.values@.len(),
                forall|a: int, b: int|
                    #![trigger self.names@[a], self.names@[b]]
                    0 <= a < b < j ==> self.names@[a]@ != self.names@[b]@,
            decreases self.names@.len() - j,
        {
            let mut i: usize = 0;
            while i < j
                invariant
                    i <= j < self.names@.len(),
                    forall|a: int|
                        #![trigger self.names@[a]]
                        0 <= a < i ==> self.names@[a]@ != self.names@[j as int]@,
                decreases j - i,
            {
                if same_text(self.names[i].as_str(), self.names[j].as_str()) {
                    assert(self.names@[i as int]@ == self.names@[j as int]@);
                    return false;
                }
                i = i + 1;
            }
            j = j + 1;
        }
        true
    }

    /// An empty table.
    pub fn new() -> (t: NameTable<V>)
        ensures
            t.wf(),
            t.spec_len() == 0,
            forall|name: Seq<char>| !t.contains(name),
    {
        NameTable { names: Vec::new(), values: Vec::new() }
    }

    /// The number of entries.
    pub fn len(&self) -> (n: usize)
        ensures
            n == self.spec_len(),
    {
        self.names.len()
    }

    /// The position of the entry named `name`, if there is one.
    pub fn find(&self, name: &str) -> (r: Option<usize>)
        requires
            self.wf(),
        ensures
            r is Some <==> self.contains(name@),
            r is Some ==> r->0 == self.position(name@) && r->0 < self.spec_len(),
    {
        let mut i: usize = 0;
        while i < self.names.len()
            invariant
                self.wf(),
                i <= self.names@.len(),
                forall|k: int| 0 <= k < i ==> !self.named(k, name@),
            decreases self.names@.len() - i,
        {
            if same_text(self.names[i].as_str(), name) {
                proof {
                    self.lemma_position(i as int);
                }
                return Some(i);
            }
            i = i + 1;
        }
        None
    }

    /// The value of the entry named `name`, if there is one.
    pub fn get(&self, name: &str) -> (r: Option<&V>)
        requires
            self.wf(),
        ensures
            r is Some <==> self.contains(name@),
            r is Some ==> *r->0 == self.value(name@),
    {
        match self.find(name) {
            Some(i) => Some(&self.values[i]),
            None => None,
        }
    }

    /// Sets the value of the entry named `name`.  An entry of that name
    /// keeps its position; a new entry goes to the end.  Returns the
    /// position.
    pub fn insert(&mut self, name: String, value: V) -> (at: usize)
        requires
            old(self).wf(),
        ensures
            final(self).wf(),
            final(self).contains(name@),
            final(self).position(name@) == at,
            final(self).value(name@) == value,
            at == (if old(self).contains(name@) {
                old(self).position(name@)
            } else {
                old(self).spec_len() as int
            }),
            final(self).spec_len() == (if old(self).contains(name@) {
                old(self).spec_len()
            } else {
                old(self).spec_len() + 1
            }),
            forall|other: Seq<char>|
                other != name@ ==> (final(self).contains(other) == old(self).contains(other)),
            forall|other: Seq<char>|
                other != name@ && old(self).contains(other) ==> final(self).position(other) == old(
                    self,
                ).position(other) && final(self).value(other) == old(self).value(other),
            forall|i: int|
                0 <= i < old(self).spec_len() ==> final(self).names@[i]@ == old(self).names@[i]@,
            forall|i: int|
                0 <= i < old(self).spec_len() && i != at ==> final(self).values@[i] == old(
                    self,
                ).values@[i],
    {
        match self.find(name.as_str()) {
            Some(i) => {
                let ghost key = name@;
                self.values[i] = value;
                proof {
                    assert(self.names@ == old(self).names@);
                    self.lemma_position(i as int);
                    assert forall|other: Seq<char>| other != key implies (self.contains(other)
                        == old(self).contains(other)) by {
                        if self.contains(other) {
                            assert(old(self).named(self.position(other), other));
                        }
                        if old(self).contains(other) {
                            assert(self.named(old(self).position(other), other));
                        }
                    }
                    assert forall|other: Seq<char>|
                        other != key && old(self).contains(other) implies self.position(other)
                        == old(self).position(other) && self.value(other) == old(self).value(
                        other,
                    ) by {
                        let p = old(self).position(other);
                        assert(old(self).named(p, other));
                        old(self).lemma_position(p);
                        self.lemma_position(p);
                    }
                }
                i
            },
            None => {
                let ghost key = name@;
                let n = self.names.len();
                self.names.push(name);
                self.values.push(value);
                proof {
                    assert forall|i: int, j: int|
                        #![trigger self.names@[i], self.names@[j]]
                        0 <= i < j < self.names@.len() implies self.names@[i]@
                        != self.names@[j]@ by {
                        if j == n {
                            assert(!old(self).named(i, key));
                        } else {
                            assert(old(self).names@[i]@ != old(self).names@[j]@);
                        }
                    }
                    self.lemma_position(n as int);
                    assert forall|other: Seq<char>| other != key implies (self.contains(other)
                        == old(self).contains(other)) by {
                        if self.contains(other) {
                            assert(old(self).named(self.position(other), other));
                        }
                        if old(self).contains(other) {
                            assert(self.named(old(self).position(other), other));
                        }
                    }
                    assert forall|other: Seq<char>|
                        other != key && old(self).contains(other) implies self.position(other)
                        == old(self).position(other) && self.value(other) == old(self).value(
                        other,
                    ) by {
                        let p = old(self).position(other);
                        assert(old(self).named(p, other));
                        old(self).lemma_position(p);
                        self.lemma_position(p);
                    }
                }
                n
            },
        }
    }
}

} // verus!
