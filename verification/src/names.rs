//! A small name-to-index table with insert-or-replace semantics, used for
//! struct field layouts, interface method layouts and named-type method
//! tables.  It is an association vector whose invariant keeps names unique,
//! so a lookup is determined by the name alone.

use vstd::prelude::*;

verus! {

/// An ordered name -> value table with unique names.
#[derive(Debug)]
pub struct NameMap<V> {
    pub entries: Vec<(String, V)>,
}

/// First match for `name` in a run of entries; with unique names this is
/// the only match.
pub open spec fn entries_get<V>(s: Seq<(String, V)>, name: Seq<char>) -> Option<V>
    decreases s.len(),
{
    if s.len() == 0 {
        None
    } else if s[0].0@ == name {
        Some(s[0].1)
    } else {
        entries_get(s.drop_first(), name)
    }
}

/// Appending an entry adds a binding for its name only if the name was
/// absent, and leaves every other name's binding unchanged.
proof fn lemma_entries_get_push<V>(s: Seq<(String, V)>, name: Seq<char>, e: (String, V))
    ensures
        entries_get(s.push(e), name) == (if entries_get(s, name) is Some {
            entries_get(s, name)
        } else if e.0@ == name {
            Some(e.1)
        } else {
            None::<V>
        }),
    decreases s.len(),
{
    if s.len() == 0 {
        assert(s.push(e)[0] == e);
        assert(s.push(e).drop_first() =~= Seq::<(String, V)>::empty());
        assert(entries_get(s.push(e).drop_first(), name) is None);
    } else {
        assert(s.push(e)[0] == s[0]);
        assert(s.push(e).drop_first() =~= s.drop_first().push(e));
        lemma_entries_get_push(s.drop_first(), name, e);
    }
}

/// Replacing the first entry that carries a name rebinds that name and no
/// other.
proof fn lemma_entries_get_update<V>(s: Seq<(String, V)>, i: int, e: (String, V))
    requires
        0 <= i < s.len(),
        s[i].0@ == e.0@,
        forall|j: int| 0 <= j < i ==> s[j].0@ != e.0@,
    ensures
        entries_get(s.update(i, e), e.0@) == Some(e.1),
        forall|n: Seq<char>|
            n != e.0@ ==> entries_get(s.update(i, e), n) == entries_get(s, n),
    decreases s.len(),
{
    let t = s.update(i, e);
    if i == 0 {
        assert(t[0] == e);
        assert(t.drop_first() =~= s.drop_first());
        assert(entries_get(t, e.0@) == Some(e.1));
        assert forall|n: Seq<char>| n != e.0@ implies entries_get(t, n) == entries_get(s, n) by {
            assert(s[0].0@ == e.0@);
            assert(entries_get(t, n) == entries_get(t.drop_first(), n));
            assert(entries_get(s, n) == entries_get(s.drop_first(), n));
        }
    } else {
        assert(t[0] == s[0]);
        assert(s[0].0@ != e.0@);
        assert(t.drop_first() =~= s.drop_first().update(i - 1, e));
        assert(forall|j: int| 0 <= j < i - 1 ==> s.drop_first()[j].0@ != e.0@);
        lemma_entries_get_update(s.drop_first(), i - 1, e);
        assert(entries_get(t, e.0@) == entries_get(t.drop_first(), e.0@));
        assert forall|n: Seq<char>| n != e.0@ implies entries_get(t, n) == entries_get(s, n) by {
            if s[0].0@ == n {
                assert(entries_get(t, n) == Some(t[0].1));
                assert(entries_get(s, n) == Some(s[0].1));
            } else {
                assert(entries_get(t, n) == entries_get(t.drop_first(), n));
                assert(entries_get(s, n) == entries_get(s.drop_first(), n));
            }
        }
    }
}

/// In a run of pairwise-distinct names, looking the name of entry `j` up
/// finds exactly that entry.
pub proof fn lemma_entries_get_present<V>(s: Seq<(String, V)>, j: int)
    requires
        0 <= j < s.len(),
        forall|a: int, b: int| 0 <= a < b < s.len() ==> s[a].0@ != s[b].0@,
    ensures
        entries_get(s, s[j].0@) == Some(s[j].1),
    decreases j,
{
    if j == 0 {
    } else {
        assert(s[0].0@ != s[j].0@);
        assert(s.drop_first()[j - 1] == s[j]);
        assert(forall|a: int, b: int|
            0 <= a < b < s.drop_first().len() ==> s.drop_first()[a].0@ != s.drop_first()[b].0@);
        lemma_entries_get_present(s.drop_first(), j - 1);
    }
}

impl<V: Copy> NameMap<V> {
    /// Names are pairwise distinct.
    pub open spec fn wf(self) -> bool {
        forall|i: int, j: int|
            0 <= i < j < self.entries@.len() ==> self.entries@[i].0@ != self.entries@[j].0@
    }

    pub open spec fn spec_get(self, name: Seq<char>) -> Option<V> {
        entries_get(self.entries@, name)
    }

    pub open spec fn spec_len(self) -> nat {
        self.entries@.len()
    }

    pub fn new() -> (r: NameMap<V>)
        ensures
            r.wf(),
            r.spec_len() == 0,
            forall|n: Seq<char>| r.spec_get(n) is None,
    {
        NameMap { entries: Vec::new() }
    }

    pub fn len(&self) -> (r: usize)
        ensures
            r == self.spec_len(),
    {
        self.entries.len()
    }

    /// Looks a name up; `None` when the name is absent.
    #[verifier::loop_isolation(false)]
    pub fn get(&self, name: &str) -> (r: Option<V>)
        ensures
            r == self.spec_get(name@),
    {
        let owned: String = name.to_owned();
        let mut i: usize = 0;
        proof {
            assert(self.entries@.subrange(0, self.entries@.len() as int) =~= self.entries@);
        }
        while i < self.entries.len()
            invariant
                owned@ == name@,
                0 <= i <= self.entries@.len(),
                entries_get(self.entries@, name@) == entries_get(
                    self.entries@.subrange(i as int, self.entries@.len() as int),
                    name@,
                ),
            decreases self.entries@.len() - i,
        {
            let ghost rest = self.entries@.subrange(i as int, self.entries@.len() as int);
            proof {
                assert(rest[0] == self.entries@[i as int]);
                assert(rest.drop_first() =~= self.entries@.subrange(
                    i + 1,
                    self.entries@.len() as int,
                ));
            }
            if self.entries[i].0 == owned {
                return Some(self.entries[i].1);
            }
            i = i + 1;
        }
        proof {
            assert(self.entries@.subrange(
                self.entries@.len() as int,
                self.entries@.len() as int,
            ) =~= Seq::<(String, V)>::empty());
        }
        None
    }

    /// Binds `name` to `value`: replaces the existing binding if the name is
    /// present, else appends.  Returns the replaced value, if any.
    #[verifier::loop_isolation(false)]
    pub fn insert(&mut self, name: String, value: V) -> (prev: Option<V>)
        requires
            old(self).wf(),
        ensures
            final(self).wf(),
            prev == old(self).spec_get(name@),
            final(self).spec_get(name@) == Some(value),
            forall|n: Seq<char>|
                n != name@ ==> final(self).spec_get(n) == old(self).spec_get(n),
            final(self).spec_len() == if prev is Some {
                old(self).spec_len()
            } else {
                old(self).spec_len() + 1
            },
    {
        let ghost s0 = self.entries@;
        let mut i: usize = 0;
        proof {
            assert(s0.subrange(0, s0.len() as int) =~= s0);
        }
        while i < self.entries.len()
            invariant
                self.entries@ == s0,
                0 <= i <= s0.len(),
                forall|j: int| 0 <= j < i ==> s0[j].0@ != name@,
                entries_get(s0, name@) == entries_get(s0.subrange(i as int, s0.len() as int), name@),
            decreases s0.len() - i,
        {
            let ghost rest = s0.subrange(i as int, s0.len() as int);
            proof {
                assert(rest[0] == s0[i as int]);
                assert(rest.drop_first() =~= s0.subrange(i + 1, s0.len() as int));
            }
            if self.entries[i].0 == name {
                let old_value = self.entries[i].1;
                let ghost e_name = name@;
                self.entries.set(i, (name, value));
                proof {
                    let e = self.entries@[i as int];
                    assert(rest[0].0@ == e_name);
                    assert(entries_get(rest, e_name) == Some(rest[0].1));
                    assert(entries_get(s0, e_name) == Some(old_value));
                    assert(self.entries@ =~= s0.update(i as int, e));
                    lemma_entries_get_update(s0, i as int, e);
                    assert forall|k: int| 0 <= k < s0.len() implies self.entries@[k].0@
                        == s0[k].0@ by {
                        if k == i as int {
                            assert(self.entries@[k].0@ == e_name);
                            assert(s0[k].0@ == e_name);
                        }
                    }
                    assert forall|i2: int, j: int|
                        0 <= i2 < j < self.entries@.len() implies self.entries@[i2].0@
                        != self.entries@[j].0@ by {
                        assert(old(self).entries@[i2].0@ != old(self).entries@[j].0@);
                    }
                }
                return Some(old_value);
            }
            i = i + 1;
        }
        proof {
            assert(s0.subrange(s0.len() as int, s0.len() as int) =~= Seq::<(
                String,
                V,
            )>::empty());
        }
        let ghost e_name = name@;
        self.entries.push((name, value));
        proof {
            let e = self.entries@[self.entries@.len() - 1];
            assert(self.entries@ =~= s0.push(e));
            lemma_entries_get_push(s0, e_name, e);
            assert forall|n: Seq<char>| n != e_name implies entries_get(self.entries@, n)
                == entries_get(s0, n) by {
                lemma_entries_get_push(s0, n, e);
            }
            assert forall|i2: int, j: int|
                0 <= i2 < j < self.entries@.len() implies self.entries@[i2].0@
                != self.entries@[j].0@ by {
                if j == self.entries@.len() - 1 {
                    assert(s0[i2].0@ != e_name);
                }
            }
        }
        None
    }
}

} // verus!
