//! The runtime class cache: a mapping from a (class name, optional superclass
//! name) key to an opaque runtime class handle. Handles are address-sized
//! integers that the cache never dereferences. The same class name under two
//! different superclass names is two distinct entries; no normalization is
//! performed on keys.

use vstd::prelude::*;

verus! {

/// The abstract view of an optional owned name.
pub open spec fn name_view(n: Option<String>) -> Option<Seq<char>> {
    match n {
        Some(s) => Some(s@),
        None => None,
    }
}

/// The abstract view of an optional borrowed name.
pub open spec fn opt_name_view(n: Option<&str>) -> Option<Seq<char>> {
    match n {
        Some(s) => Some(s@),
        None => None,
    }
}

/// One stored cache entry: the key it was stored under and the opaque runtime
/// class handle. The superclass name is retained for diagnostics; once stored,
/// an entry's handle is never mutated, only replaced wholesale by a new store
/// for the same key.
pub struct ClassEntry {
    pub name: String,
    pub superclass_name: Option<String>,
    pub handle: u64,
}

/// The key an entry is stored under.
pub open spec fn entry_key(e: ClassEntry) -> (Seq<char>, Option<Seq<char>>) {
    (e.name@, name_view(e.superclass_name))
}

/// The mapping described by a sequence of entries; a later entry for a key
/// supersedes an earlier one.
pub open spec fn entries_map(s: Seq<ClassEntry>) -> Map<(Seq<char>, Option<Seq<char>>), u64>
    decreases s.len(),
{
    if s.len() == 0 {
        Map::empty()
    } else {
        entries_map(s.drop_last()).insert(entry_key(s.last()), s.last().handle)
    }
}

proof fn lemma_entries_map_found(s: Seq<ClassEntry>, j: int)
    requires
        0 <= j < s.len(),
        forall|m: int| j < m < s.len() ==> entry_key(s[m]) != entry_key(s[j]),
    ensures
        entries_map(s).contains_key(entry_key(s[j])),
        entries_map(s)[entry_key(s[j])] == s[j].handle,
    decreases s.len(),
{
    if j == s.len() - 1 {
        assert(s.last() == s[j]);
    } else {
        let t = s.drop_last();
        assert(t[j] == s[j]);
        assert(forall|m: int| j < m < t.len() ==> entry_key(t[m]) == entry_key(s[m]));
        lemma_entries_map_found(t, j);
        assert(entry_key(s.last()) != entry_key(s[j]));
    }
}

proof fn lemma_entries_map_absent(s: Seq<ClassEntry>, k: (Seq<char>, Option<Seq<char>>))
    requires
        forall|m: int| 0 <= m < s.len() ==> entry_key(s[m]) != k,
    ensures
        !entries_map(s).contains_key(k),
    decreases s.len(),
{
    if s.len() > 0 {
        let t = s.drop_last();
        assert(forall|m: int| 0 <= m < t.len() ==> entry_key(t[m]) == entry_key(s[m]));
        lemma_entries_map_absent(t, k);
    }
}

proof fn lemma_entries_map_update_last(s: Seq<ClassEntry>, i: int, e: ClassEntry)
    requires
        0 <= i < s.len(),
        entry_key(e) == entry_key(s[i]),
        forall|m: int| i < m < s.len() ==> entry_key(s[m]) != entry_key(s[i]),
    ensures
        entries_map(s.update(i, e)) == entries_map(s).insert(entry_key(e), e.handle),
    decreases s.len(),
{
    let t = s.update(i, e);
    if i == s.len() - 1 {
        assert(t.drop_last() =~= s.drop_last());
        assert(t.last() == e);
        assert(entries_map(s.drop_last()).insert(entry_key(s[i]), s[i].handle).insert(
            entry_key(e),
            e.handle,
        ) =~= entries_map(s.drop_last()).insert(entry_key(e), e.handle));
    } else {
        let sd = s.drop_last();
        assert(t.drop_last() =~= sd.update(i, e));
        assert(t.last() == s.last());
        assert(sd[i] == s[i]);
        assert(forall|m: int| i < m < sd.len() ==> entry_key(sd[m]) == entry_key(s[m]));
        lemma_entries_map_update_last(sd, i, e);
        assert(entry_key(s.last()) != entry_key(e));
        assert(entries_map(sd).insert(entry_key(e), e.handle).insert(
            entry_key(s.last()),
            s.last().handle,
        ) =~= entries_map(sd).insert(entry_key(s.last()), s.last().handle).insert(
            entry_key(e),
            e.handle,
        ));
    }
}

/// Compares two optional owned names by their views.
fn opt_eq(a: &Option<String>, b: &Option<String>) -> (r: bool)
    ensures
        r == (name_view(*a) == name_view(*b)),
{
    match (a, b) {
        (Some(x), Some(y)) => *x == *y,
        (None, None) => true,
        _ => false,
    }
}

/// Clones an optional owned name.
fn opt_clone(n: &Option<String>) -> (r: Option<String>)
    ensures
        r == *n,
{
    match n {
        Some(s) => Some(s.clone()),
        None => None,
    }
}

/// Turns an optional borrowed name into an owned one with the same view.
fn opt_to_owned(n: Option<&str>) -> (r: Option<String>)
    ensures
        name_view(r) == opt_name_view(n),
{
    match n {
        Some(s) => Some(s.to_owned()),
        None => None,
    }
}

/// The runtime class cache. Internally a sequence of entries, at most one
/// per key — a store to an occupied key overwrites its entry wholesale; its
/// abstract contents are a map from keys to handles.
pub struct ClassMap {
    entries: Vec<ClassEntry>,
}

impl ClassMap {
    /// The abstract contents of the cache.
    pub closed spec fn contents(self) -> Map<(Seq<char>, Option<Seq<char>>), u64> {
        entries_map(self.entries@)
    }

    /// Returns a new, empty ClassMap.
    pub fn new() -> (m: Self)
        ensures
            m.contents() == Map::<(Seq<char>, Option<Seq<char>>), u64>::empty(),
    {
        ClassMap { entries: Vec::new() }
    }

    /// Looks up a previously stored class under exactly the given key. Absence
    /// here is soft: the caller may still consult the host runtime and adopt
    /// its answer through `adopt_runtime_class`.
    pub fn load(&self, class_name: &str, superclass_name: Option<&str>) -> (r: Option<u64>)
        ensures
            r == (if self.contents().contains_key((class_name@, opt_name_view(superclass_name))) {
                Some(self.contents()[(class_name@, opt_name_view(superclass_name))])
            } else {
                None::<u64>
            }),
    {
        let ghost k: (Seq<char>, Option<Seq<char>>) = (class_name@, opt_name_view(superclass_name));
        let name: String = class_name.to_owned();
        let sup: Option<String> = opt_to_owned(superclass_name);
        let mut i: usize = self.entries.len();
        while i > 0
            invariant
                i <= self.entries@.len(),
                name@ == class_name@,
                name_view(sup) == opt_name_view(superclass_name),
                k == (class_name@, opt_name_view(superclass_name)),
                forall|m: int| i <= m < self.entries@.len() ==> entry_key(self.entries@[m]) != k,
            decreases i,
        {
            i = i - 1;
            let e = &self.entries[i];
            let name_hit = e.name == name;
            let sup_hit = opt_eq(&e.superclass_name, &sup);
            if name_hit && sup_hit {
                proof {
                    lemma_entries_map_found(self.entries@, i as int);
                }
                return Some(e.handle);
            }
        }
        proof {
            lemma_entries_map_absent(self.entries@, k);
        }
        None
    }

    /// Stores a class handle under the given key, superseding any earlier
    /// entry for that key.
    pub fn store(&mut self, class_name: &str, superclass_name: Option<&str>, handle: u64)
        ensures
            final(self).contents() == old(self).contents().insert(
                (class_name@, opt_name_view(superclass_name)),
                handle,
            ),
    {
        let ghost k: (Seq<char>, Option<Seq<char>>) = (class_name@, opt_name_view(superclass_name));
        let name: String = class_name.to_owned();
        let sup: Option<String> = opt_to_owned(superclass_name);
        let mut i: usize = self.entries.len();
        while i > 0
            invariant
                i <= self.entries@.len(),
                name@ == class_name@,
                name_view(sup) == opt_name_view(superclass_name),
                k == (class_name@, opt_name_view(superclass_name)),
                self.entries@ == old(self).entries@,
                forall|m: int| i <= m < self.entries@.len() ==> entry_key(self.entries@[m]) != k,
            decreases i,
        {
            i = i - 1;
            let name_hit = self.entries[i].name == name;
            let sup_hit = opt_eq(&self.entries[i].superclass_name, &sup);
            if name_hit && sup_hit {
                let e = ClassEntry { name: name.clone(), superclass_name: opt_clone(&sup), handle };
                let ghost fresh: ClassEntry = e;
                proof {
                    assert(entry_key(fresh) == entry_key(self.entries@[i as int]));
                }
                self.entries[i] = e;
                proof {
                    lemma_entries_map_update_last(old(self).entries@, i as int, fresh);
                }
                return;
            }
        }
        let e = ClassEntry { name, superclass_name: sup, handle };
        self.entries.push(e);
        proof {
            assert(self.entries@.drop_last() =~= old(self).entries@);
        }
    }

    /// Adopts the host runtime's answer to "does a class of this name exist
    /// globally": the caller asks the runtime after a cache miss and hands the
    /// reply here. A confirmed class is recorded under the given key before it
    /// is returned, so later lookups hit the cache; an absent reply leaves the
    /// cache untouched and reports the class as absent.
    pub fn adopt_runtime_class(
        &mut self,
        class_name: &str,
        superclass_name: Option<&str>,
        runtime_class: Option<u64>,
    ) -> (r: Option<u64>)
        ensures
            match runtime_class {
                Some(h) => final(self).contents() == old(self).contents().insert(
                    (class_name@, opt_name_view(superclass_name)),
                    h,
                ) && r == Some(h),
                None => *final(self) == *old(self) && r is None,
            },
    {
        match runtime_class {
            Some(h) => {
                self.store(class_name, superclass_name, h);
                Some(h)
            }
            None => None,
        }
    }
}

} // verus!
