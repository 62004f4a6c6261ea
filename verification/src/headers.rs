//! The outbound header set sent to the upstream GraphQL endpoint.
//!
//! Names are kept in their canonical lower-case form, as the wire
//! representation stores them. `insert` replaces the first entry of the same
//! name, so a name never gains a second value through this interface.

use vstd::prelude::*;

verus! {

/// One outbound header: a name and its value.
pub struct HeaderEntry {
    pub name: String,
    pub value: String,
}

/// The ordered outbound header set.
pub struct HeaderList {
    pub entries: Vec<HeaderEntry>,
}

/// Index of the first entry named `name`, or -1 when there is none.
pub open spec fn spec_index_of(s: Seq<HeaderEntry>, name: Seq<char>) -> int
    decreases s.len(),
{
    if s.len() == 0 {
        -1
    } else if s[0].name@ == name {
        0
    } else {
        let r = spec_index_of(s.drop_first(), name);
        if r == -1 {
            -1
        } else {
            1 + r
        }
    }
}

/// The value of the first entry named `name`, if any.
pub open spec fn spec_get(s: Seq<HeaderEntry>, name: Seq<char>) -> Option<Seq<char>> {
    let i = spec_index_of(s, name);
    if i == -1 {
        None
    } else {
        Some(s[i].value@)
    }
}

/// `spec_index_of` finds the first entry of the given name.
pub proof fn lemma_index_of_props(s: Seq<HeaderEntry>, name: Seq<char>)
    ensures
        -1 <= spec_index_of(s, name) < s.len(),
        spec_index_of(s, name) == -1 ==> forall|j: int| 0 <= j < s.len() ==> s[j].name@ != name,
        spec_index_of(s, name) >= 0 ==> s[spec_index_of(s, name)].name@ == name,
        spec_index_of(s, name) >= 0 ==> forall|j: int|
            0 <= j < spec_index_of(s, name) ==> s[j].name@ != name,
    decreases s.len(),
{
    if s.len() == 0 {
    } else if s[0].name@ == name {
    } else {
        lemma_index_of_props(s.drop_first(), name);
        assert(forall|j: int| 1 <= j < s.len() ==> s.drop_first()[j - 1] == s[j]);
    }
}

/// A position whose entry carries the name, with no earlier entry of that
/// name, is what `spec_index_of` returns.
pub proof fn lemma_index_of_exact(s: Seq<HeaderEntry>, name: Seq<char>, i: int)
    requires
        0 <= i < s.len(),
        s[i].name@ == name,
        forall|j: int| 0 <= j < i ==> s[j].name@ != name,
    ensures
        spec_index_of(s, name) == i,
    decreases s.len(),
{
    if i == 0 {
    } else {
        assert(forall|j: int| 0 <= j < s.len() - 1 ==> s.drop_first()[j] == s[j + 1]);
        lemma_index_of_exact(s.drop_first(), name, i - 1);
    }
}

/// When no entry carries the name, `spec_index_of` returns -1.
pub proof fn lemma_index_of_absent(s: Seq<HeaderEntry>, name: Seq<char>)
    requires
        forall|j: int| 0 <= j < s.len() ==> s[j].name@ != name,
    ensures
        spec_index_of(s, name) == -1,
{
    lemma_index_of_props(s, name);
    if spec_index_of(s, name) >= 0 {
        assert(s[spec_index_of(s, name)].name@ == name);
    }
}

impl HeaderList {
    /// An empty header set.
    pub fn new() -> (r: HeaderList)
        ensures
            r.entries@.len() == 0,
    {
        HeaderList { entries: Vec::new() }
    }

    /// The value of the first header named `name`, if any.
    pub fn get(&self, name: &str) -> (r: Option<&String>)
        ensures
            match r {
                Some(v) => spec_get(self.entries@, name@) == Some(v@),
                None => spec_get(self.entries@, name@) is None,
            },
    {
        let n = self.entries.len();
        let mut i: usize = 0;
        while i < n
            invariant
                n == self.entries@.len(),
                0 <= i <= n,
                forall|j: int| 0 <= j < i ==> self.entries@[j].name@ != name@,
            decreases n - i,
        {
            if crate::text::str_eq(self.entries[i].name.as_str(), name) {
                proof {
                    lemma_index_of_exact(self.entries@, name@, i as int);
                }
                return Some(&self.entries[i].value);
            }
            i = i + 1;
        }
        proof {
            lemma_index_of_absent(self.entries@, name@);
        }
        None
    }

    /// Sets header `name` to `value`, replacing the first entry of that name
    /// or appending a new one. Every other name keeps its value.
    pub fn insert(&mut self, name: &str, value: &str)
        ensures
            spec_get(final(self).entries@, name@) == Some(value@),
            forall|n: Seq<char>|
                n != name@ ==> spec_get(final(self).entries@, n) == spec_get(
                    old(self).entries@,
                    n,
                ),
    {
        let n = self.entries.len();
        let mut i: usize = 0;
        while i < n
            invariant
                n == self.entries@.len(),
                0 <= i <= n,
                self.entries@ == old(self).entries@,
                forall|j: int| 0 <= j < i ==> self.entries@[j].name@ != name@,
            decreases n - i,
        {
            if crate::text::str_eq(self.entries[i].name.as_str(), name) {
                let ghost prev = self.entries@;
                let e = HeaderEntry { name: name.to_owned(), value: value.to_owned() };
                let ghost ge = e;
                self.entries[i] = e;
                proof {
                    assert(self.entries@ =~= prev.update(i as int, ge));
                    lemma_index_of_exact(self.entries@, name@, i as int);
                    assert forall|nm: Seq<char>| nm != name@ implies spec_get(
                        self.entries@,
                        nm,
                    ) == spec_get(prev, nm) by {
                        lemma_update_other_get(prev, i as int, ge, nm);
                    }
                }
                return ;
            }
            i = i + 1;
        }
        let ghost prev = self.entries@;
        self.entries.push(HeaderEntry { name: name.to_owned(), value: value.to_owned() });
        proof {
            lemma_index_of_exact(self.entries@, name@, prev.len() as int);
            assert forall|nm: Seq<char>| nm != name@ implies spec_get(self.entries@, nm)
                == spec_get(prev, nm) by {
                lemma_push_other_get(prev, self.entries@[prev.len() as int], nm);
                assert(self.entries@.drop_last() =~= prev);
            }
        }
    }

    /// A copy of this header set, entry by entry.
    pub fn snapshot(&self) -> (r: HeaderList)
        ensures
            r.entries@ =~= self.entries@,
    {
        let n = self.entries.len();
        let mut out: Vec<HeaderEntry> = Vec::new();
        let mut i: usize = 0;
        while i < n
            invariant
                n == self.entries@.len(),
                0 <= i <= n,
                out@.len() == i,
                forall|j: int| 0 <= j < i ==> out@[j] == self.entries@[j],
            decreases n - i,
        {
            let e = HeaderEntry {
                name: self.entries[i].name.clone(),
                value: self.entries[i].value.clone(),
            };
            out.push(e);
            i = i + 1;
        }
        HeaderList { entries: out }
    }
}

/// When the first entry does not carry the name, a lookup passes to the tail.
proof fn lemma_get_tail(s: Seq<HeaderEntry>, name: Seq<char>)
    requires
        s.len() > 0,
        s[0].name@ != name,
    ensures
        spec_get(s, name) == spec_get(s.drop_first(), name),
{
    lemma_index_of_props(s.drop_first(), name);
    let r = spec_index_of(s.drop_first(), name);
    if r >= 0 {
        assert(s[1 + r] == s.drop_first()[r]);
    }
}

/// Replacing an entry in place by one of the same name leaves lookups of
/// every other name unchanged.
proof fn lemma_update_other_get(s: Seq<HeaderEntry>, i: int, e: HeaderEntry, name: Seq<char>)
    requires
        0 <= i < s.len(),
        s[i].name@ == e.name@,
        e.name@ != name,
    ensures
        spec_get(s.update(i, e), name) == spec_get(s, name),
    decreases s.len(),
{
    let t = s.update(i, e);
    if i == 0 {
        assert(t[0] == e);
        assert(t.drop_first() =~= s.drop_first());
        lemma_get_tail(t, name);
        lemma_get_tail(s, name);
    } else {
        assert(t[0] == s[0]);
        if s[0].name@ == name {
        } else {
            assert(t.drop_first() =~= s.drop_first().update(i - 1, e));
            lemma_update_other_get(s.drop_first(), i - 1, e, name);
            lemma_get_tail(t, name);
            lemma_get_tail(s, name);
        }
    }
}

/// Appending an entry of a different name leaves a lookup unchanged.
proof fn lemma_push_other_get(s: Seq<HeaderEntry>, e: HeaderEntry, name: Seq<char>)
    requires
        e.name@ != name,
    ensures
        spec_get(s.push(e), name) == spec_get(s, name),
    decreases s.len(),
{
    if s.len() == 0 {
        assert(s.push(e)[0] == e);
        assert(s.push(e).drop_first() =~= Seq::<HeaderEntry>::empty());
        lemma_get_tail(s.push(e), name);
    } else {
        assert(s.push(e)[0] == s[0]);
        if s[0].name@ == name {
        } else {
            assert(s.push(e).drop_first() =~= s.drop_first().push(e));
            lemma_push_other_get(s.drop_first(), e, name);
            lemma_get_tail(s.push(e), name);
            lemma_get_tail(s, name);
        }
    }
}

} // verus!
