//! The symbol catalog of one price source.

use vstd::prelude::*;

verus! {

/// Mapping from a ticker symbol to the ordered list of provider-specific
/// identifiers that share it (one ticker may denote several coins at one
/// provider, hence a list and not a single id).
///
/// A map is immutable once a fetch has produced it: a new fetch builds a new
/// map that fully replaces the old one, never merges into it.
#[derive(Debug)]
pub struct SymbolMap {
    entries: Vec<(String, Vec<String>)>,
}

/// The mapping denoted by an association list, later entries winning.
/// `SymbolMap` keeps its keys unique, so in fact no entry shadows another.
spec fn map_of_entries(s: Seq<(String, Vec<String>)>) -> Map<Seq<char>, Seq<Seq<char>>>
    decreases s.len(),
{
    if s.len() == 0 {
        Map::<Seq<char>, Seq<Seq<char>>>::empty()
    } else {
        map_of_entries(s.drop_last()).insert(s.last().0@, s.last().1.deep_view())
    }
}

proof fn lemma_map_of_entries_contains(s: Seq<(String, Vec<String>)>, k: Seq<char>)
    ensures
        map_of_entries(s).contains_key(k) <==> exists|i: int| 0 <= i < s.len() && s[i].0@ == k,
    decreases s.len(),
{
    if s.len() > 0 {
        lemma_map_of_entries_contains(s.drop_last(), k);
        if s.last().0@ == k {
            assert(s[s.len() - 1].0@ == k);
        } else {
            if map_of_entries(s).contains_key(k) {
                let i = choose|i: int|
                    0 <= i < s.drop_last().len() && s.drop_last()[i].0@ == k;
                assert(s[i].0@ == k);
            }
            if exists|i: int| 0 <= i < s.len() && s[i].0@ == k {
                let i = choose|i: int| 0 <= i < s.len() && s[i].0@ == k;
                assert(s.drop_last()[i].0@ == k);
            }
        }
    }
}

proof fn lemma_map_of_entries_index(s: Seq<(String, Vec<String>)>, i: int)
    requires
        0 <= i < s.len(),
        forall|j: int| i < j < s.len() ==> s[j].0@ != s[i].0@,
    ensures
        map_of_entries(s).contains_key(s[i].0@),
        map_of_entries(s)[s[i].0@] == s[i].1.deep_view(),
    decreases s.len(),
{
    if i == s.len() - 1 {
    } else {
        assert(s.drop_last()[i] == s[i]);
        lemma_map_of_entries_index(s.drop_last(), i);
        assert(s.last().0@ != s[i].0@);
    }
}

/// Replacing the only entry that carries a key rewrites that key's binding
/// and nothing else.
proof fn lemma_map_of_entries_update(s: Seq<(String, Vec<String>)>, i: int, e: (String, Vec<String>))
    requires
        0 <= i < s.len(),
        e.0@ == s[i].0@,
        forall|j: int| 0 <= j < s.len() && j != i ==> s[j].0@ != s[i].0@,
    ensures
        map_of_entries(s.update(i, e)) == map_of_entries(s).insert(e.0@, e.1.deep_view()),
    decreases s.len(),
{
    let t = s.update(i, e);
    if i == s.len() - 1 {
        assert(t.drop_last() =~= s.drop_last());
        assert(t.last() == e);
        assert(map_of_entries(t) =~= map_of_entries(s).insert(e.0@, e.1.deep_view()));
    } else {
        assert(t.drop_last() =~= s.drop_last().update(i, e));
        assert(t.last() == s.last());
        assert(s.drop_last()[i] == s[i]);
        lemma_map_of_entries_update(s.drop_last(), i, e);
        assert(s.last().0@ != s[i].0@);
        assert(map_of_entries(t) =~= map_of_entries(s).insert(e.0@, e.1.deep_view()));
    }
}

/// Two association lists whose entries agree key by key and value by value
/// denote the same mapping.
proof fn lemma_map_of_entries_congruence(a: Seq<(String, Vec<String>)>, b: Seq<(String, Vec<String>)>)
    requires
        a.len() == b.len(),
        forall|i: int|
            0 <= i < a.len() ==> (#[trigger] a[i]).0@ == b[i].0@ && a[i].1.deep_view()
                == b[i].1.deep_view(),
    ensures
        map_of_entries(a) == map_of_entries(b),
    decreases a.len(),
{
    if a.len() > 0 {
        assert forall|i: int|
            0 <= i < a.drop_last().len() implies (#[trigger] a.drop_last()[i]).0@
            == b.drop_last()[i].0@ && a.drop_last()[i].1.deep_view()
            == b.drop_last()[i].1.deep_view() by {
            assert(a.drop_last()[i] == a[i]);
            assert(b.drop_last()[i] == b[i]);
        }
        lemma_map_of_entries_congruence(a.drop_last(), b.drop_last());
        assert(a.last() == a[a.len() - 1]);
        assert(b.last() == b[a.len() - 1]);
    }
}

/// The position of the entry that carries `symbol`, if any.
fn find_key(entries: &Vec<(String, Vec<String>)>, symbol: &String) -> (r: Option<usize>)
    ensures
        match r {
            Some(i) => i < entries@.len() && entries@[i as int].0@ == symbol@,
            None => forall|j: int| 0 <= j < entries@.len() ==> entries@[j].0@ != symbol@,
        },
{
    let n = entries.len();
    let mut i: usize = 0;
    while i < n
        invariant
            i <= n,
            n == entries@.len(),
            forall|j: int| 0 <= j < i ==> entries@[j].0@ != symbol@,
        decreases n - i,
    {
        if entries[i].0 == *symbol {
            return Some(i);
        }
        i += 1;
    }
    None
}

impl View for SymbolMap {
    type V = Map<Seq<char>, Seq<Seq<char>>>;

    closed spec fn view(&self) -> Map<Seq<char>, Seq<Seq<char>>> {
        map_of_entries(self.entries@)
    }
}

impl SymbolMap {
    /// Every symbol appears in at most one entry.
    #[verifier::type_invariant]
    spec fn wf(&self) -> bool {
        forall|i: int, j: int|
            0 <= i < j < self.entries@.len() ==> self.entries@[i].0@ != self.entries@[j].0@
    }

    /// An empty catalog.
    pub fn new() -> (r: Self)
        ensures
            r@ == Map::<Seq<char>, Seq<Seq<char>>>::empty(),
    {
        SymbolMap { entries: Vec::new() }
    }

    /// Append `id` to the identifier list of `symbol`, creating the symbol's
    /// entry if it is new.
    pub fn insert_id(&mut self, symbol: String, id: String)
        ensures
            final(self)@ == old(self)@.insert(
                symbol@,
                (if old(self)@.contains_key(symbol@) {
                    old(self)@[symbol@]
                } else {
                    Seq::<Seq<char>>::empty()
                }).push(id@),
            ),
    {
        proof {
            use_type_invariant(&*self);
        }
        let ghost pre = self.entries@;
        let found = find_key(&self.entries, &symbol);
        let mut taken = SymbolMap { entries: Vec::new() };
        core::mem::swap(self, &mut taken);
        let SymbolMap { entries: mut entries } = taken;
        match found {
            Some(i) => {
                proof {
                    lemma_map_of_entries_index(pre, i as int);
                    lemma_map_of_entries_contains(pre, symbol@);
                }
                let mut entry = entries.remove(i);
                entry.1.push(id);
                entries.insert(i, entry);
                proof {
                    assert(entries@ =~= pre.update(i as int, (pre[i as int].0, entries@[i as int].1)));
                    lemma_map_of_entries_update(pre, i as int, entries@[i as int]);
                    assert(entries@[i as int].1.deep_view() =~= pre[i as int].1.deep_view().push(
                        id@,
                    ));
                    assert(forall|j: int| 0 <= j < entries@.len() ==> entries@[j].0@ == pre[j].0@);
                }
            },
            None => {
                proof {
                    lemma_map_of_entries_contains(pre, symbol@);
                }
                let mut ids: Vec<String> = Vec::new();
                ids.push(id);
                entries.push((symbol, ids));
                proof {
                    assert(entries@.drop_last() =~= pre);
                    assert(entries@.last().1.deep_view() =~= Seq::<Seq<char>>::empty().push(id@));
                }
            },
        }
        let mut built = SymbolMap { entries };
        core::mem::swap(self, &mut built);
    }

    /// Look the symbol up, exact and case-sensitive.
    pub fn get(&self, symbol: &str) -> (r: Option<&Vec<String>>)
        ensures
            match r {
                Some(ids) => self@.contains_key(symbol@) && ids.deep_view() == self@[symbol@],
                None => !self@.contains_key(symbol@),
            },
    {
        proof {
            use_type_invariant(self);
        }
        let key: String = symbol.to_owned();
        let n = self.entries.len();
        let mut i: usize = 0;
        while i < n
            invariant
                i <= n,
                n == self.entries@.len(),
                key@ == symbol@,
                self.wf(),
                forall|j: int| 0 <= j < i ==> self.entries@[j].0@ != symbol@,
            decreases n - i,
        {
            if self.entries[i].0 == key {
                proof {
                    lemma_map_of_entries_index(self.entries@, i as int);
                }
                return Some(&self.entries[i].1);
            }
            i += 1;
        }
        proof {
            lemma_map_of_entries_contains(self.entries@, symbol@);
        }
        None
    }

    /// Whether the catalog holds no symbol at all.
    pub fn is_empty(&self) -> (r: bool)
        ensures
            r == (self@ == Map::<Seq<char>, Seq<Seq<char>>>::empty()),
    {
        let r = self.entries.len() == 0;
        proof {
            if self.entries@.len() > 0 {
                let last: int = self.entries@.len() - 1;
                lemma_map_of_entries_contains(self.entries@, self.entries@[last].0@);
                assert(self@.contains_key(self.entries@[last].0@));
            }
        }
        r
    }
}

/// A copy of an identifier list, element for element.
pub(crate) fn clone_id_list(ids: &Vec<String>) -> (r: Vec<String>)
    ensures
        r@ == ids@,
{
    let mut r: Vec<String> = Vec::new();
    let n = ids.len();
    let mut i: usize = 0;
    while i < n
        invariant
            i <= n,
            n == ids@.len(),
            r@.len() == i,
            forall|j: int| 0 <= j < i ==> r@[j] == ids@[j],
        decreases n - i,
    {
        r.push(ids[i].clone());
        i += 1;
    }
    proof {
        assert(r@ =~= ids@);
    }
    r
}

impl Clone for SymbolMap {
    /// A deep copy that denotes the same mapping.
    fn clone(&self) -> (r: Self)
        ensures
            r@ == self@,
    {
        proof {
            use_type_invariant(self);
        }
        let mut entries: Vec<(String, Vec<String>)> = Vec::new();
        let n = self.entries.len();
        let mut i: usize = 0;
        while i < n
            invariant
                i <= n,
                n == self.entries@.len(),
                self.wf(),
                entries@.len() == i,
                forall|j: int|
                    0 <= j < i ==> (#[trigger] entries@[j]).0@ == self.entries@[j].0@
                        && entries@[j].1.deep_view() == self.entries@[j].1.deep_view(),
            decreases n - i,
        {
            let e = &self.entries[i];
            let ids = clone_id_list(&e.1);
            proof {
                assert(ids.deep_view() =~= e.1.deep_view());
            }
            entries.push((e.0.clone(), ids));
            i += 1;
        }
        proof {
            assert forall|x: int, y: int|
                0 <= x < y < entries@.len() implies entries@[x].0@ != entries@[y].0@ by {
                assert(entries@[x].0@ == self.entries@[x].0@);
                assert(entries@[y].0@ == self.entries@[y].0@);
            }
        }
        let r = SymbolMap { entries };
        proof {
            lemma_map_of_entries_congruence(r.entries@, self.entries@);
        }
        r
    }
}

/// The uppercase form of a symbol, exactly as `str::to_uppercase` computes
/// it. Left uninterpreted: the full Unicode case mapping is not restated
/// here, only that it is a function of the characters alone.
pub uninterp spec fn upper_of(s: Seq<char>) -> Seq<char>;

/// Relies on `str::to_uppercase`: the result depends on the characters alone,
/// so equal inputs give equal results.
#[verifier::external_body]
fn to_upper(s: &str) -> (r: String)
    ensures
        r@ == upper_of(s@),
{
    s.to_uppercase()
}

/// The symbol map that a provider catalog of `(symbol, id)` rows denotes:
/// each row's id appended, in catalog order, to the group of the row's
/// uppercased symbol.
pub open spec fn catalog_map(rows: Seq<(String, String)>) -> Map<Seq<char>, Seq<Seq<char>>>
    decreases rows.len(),
{
    if rows.len() == 0 {
        Map::<Seq<char>, Seq<Seq<char>>>::empty()
    } else {
        let m = catalog_map(rows.drop_last());
        let key = upper_of(rows.last().0@);
        let prev = if m.contains_key(key) {
            m[key]
        } else {
            Seq::<Seq<char>>::empty()
        };
        m.insert(key, prev.push(rows.last().1@))
    }
}

/// Group a provider's symbol catalog by uppercased ticker symbol.
pub fn build_symbol_map(rows: Vec<(String, String)>) -> (r: SymbolMap)
    ensures
        r@ == catalog_map(rows@),
{
    let ghost all = rows@;
    let mut rest = rows;
    let mut map = SymbolMap::new();
    let ghost done: int = 0;
    while rest.len() > 0
        invariant
            0 <= done <= all.len(),
            done + rest@.len() == all.len(),
            forall|j: int| 0 <= j < rest@.len() ==> rest@[j] == all[done + j],
            map@ == catalog_map(all.subrange(0, done)),
        decreases rest@.len(),
    {
        let row = rest.remove(0);
        let symbol = to_upper(row.0.as_str());
        map.insert_id(symbol, row.1);
        proof {
            done = done + 1;
            assert(all.subrange(0, done).drop_last() =~= all.subrange(0, done - 1));
            assert(all.subrange(0, done).last() == row);
        }
    }
    proof {
        assert(all.subrange(0, done) =~= all);
    }
    map
}

} // verus!
