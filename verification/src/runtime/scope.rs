use vstd::prelude::*;

verus! {

/// The number of a variable slot.
pub type SymbolId = u32;

/// The names of one scope and their slots, in the order they were first declared.
pub type ScopeEntries = Vec<(String, SymbolId)>;

/// The map from names to slots that the entries `e` hold, a later entry winning.
pub open spec fn entries_map<V>(e: Seq<(String, V)>) -> Map<Seq<char>, V>
    decreases e.len(),
{
    if e.len() == 0 {
        Map::empty()
    } else {
        entries_map(e.drop_last()).insert(e.last().0@, e.last().1)
    }
}

/// No name occurs twice among the entries.
pub open spec fn unique_names<V>(e: Seq<(String, V)>) -> bool {
    forall|i: int, j: int| 0 <= i < j < e.len() ==> #[trigger] e[i].0@ != #[trigger] e[j].0@
}

/// The total number of entries over all scopes.
pub open spec fn entry_count(c: Seq<ScopeEntries>) -> nat
    decreases c.len(),
{
    if c.len() == 0 {
        0
    } else {
        entry_count(c.drop_last()) + c.last()@.len()
    }
}

/// The slot of `name` in the innermost scope of `scopes` that declares it.
pub open spec fn lookup(scopes: Seq<Map<Seq<char>, SymbolId>>, name: Seq<char>) -> Option<SymbolId>
    decreases scopes.len(),
{
    if scopes.len() == 0 {
        None
    } else if scopes.last().contains_key(name) {
        Some(scopes.last()[name])
    } else {
        lookup(scopes.drop_last(), name)
    }
}

/// The scopes after `name` is bound to `id` in the innermost one.
pub open spec fn declared(
    scopes: Seq<Map<Seq<char>, SymbolId>>,
    name: Seq<char>,
    id: SymbolId,
) -> Seq<Map<Seq<char>, SymbolId>> {
    scopes.update(scopes.len() - 1, scopes.last().insert(name, id))
}

/// The scopes and the free slot after each of `names` is declared in turn, starting
/// from `scopes` with `free` as the free slot.
pub open spec fn declare_all(
    scopes: Seq<Map<Seq<char>, SymbolId>>,
    free: nat,
    names: Seq<Seq<char>>,
) -> (Seq<Map<Seq<char>, SymbolId>>, nat)
    decreases names.len(),
{
    if names.len() == 0 {
        (scopes, free)
    } else {
        let (s, f) = declare_all(scopes, free, names.drop_last());
        (declared(s, names.last(), f as SymbolId), f + 1)
    }
}

/// Nested scopes of variable names, each name bound to a slot.
///
/// A declaration takes the first free slot; leaving a scope frees as many slots as
/// the scope holds names, so that later declarations reuse them. `count` counts
/// every declaration ever made.
#[derive(Debug)]
pub struct SymbolTable {
    contents: Vec<ScopeEntries>,
    count: SymbolId,
    current_free: SymbolId,
}

impl SymbolTable {
    /// The scopes, outermost first, each as a map from names to slots.
    pub closed spec fn scopes(&self) -> Seq<Map<Seq<char>, SymbolId>> {
        self.contents@.map_values(|e: ScopeEntries| entries_map(e@))
    }

    /// The number of declarations made.
    pub closed spec fn count(&self) -> nat {
        self.count as nat
    }

    /// The slot the next declaration takes.
    pub closed spec fn free(&self) -> nat {
        self.current_free as nat
    }

    /// There is always a scope, no scope names a variable twice, and the free slot
    /// lies above every slot in use and below the number of declarations.
    pub closed spec fn wf(&self) -> bool {
        &&& self.contents@.len() >= 1
        &&& forall|i: int| 0 <= i < self.contents@.len() ==> unique_names(#[trigger] self.contents@[i]@)
        &&& entry_count(self.contents@) <= self.current_free
        &&& self.current_free <= self.count
    }

    pub fn new() -> (table: Self)
        ensures
            table.wf(),
            table.scopes() == seq![Map::<Seq<char>, SymbolId>::empty()],
            table.count() == 0,
            table.free() == 0,
    {
        let mut contents: Vec<ScopeEntries> = Vec::new();
        contents.push(Vec::new());
        let table = Self { contents, count: 0, current_free: 0 };
        proof {
            assert(table.contents@[0]@ =~= Seq::<(String, SymbolId)>::empty());
            assert(table.contents@.drop_last() =~= Seq::<ScopeEntries>::empty());
            assert(entry_count(table.contents@.drop_last()) == 0);
            assert(entry_count(table.contents@) == 0);
            assert(unique_names(table.contents@[0]@));
            assert(table.scopes() =~= seq![Map::<Seq<char>, SymbolId>::empty()]);
            assert(table.contents@.drop_last() =~= Seq::<ScopeEntries>::empty());
        }
        table
    }

    /// Binds `name` to the free slot in the innermost scope and returns that slot.
    pub fn declare(&mut self, name: String) -> (id: SymbolId)
        requires
            old(self).wf(),
            old(self).count() < SymbolId::MAX,
        ensures
            final(self).wf(),
            id == old(self).free(),
            final(self).free() == id + 1,
            final(self).count() == old(self).count() + 1,
            final(self).scopes() == declared(old(self).scopes(), name@, id),
    {
        let id = self.current_free;
        let ghost old_contents = self.contents@;
        let mut scope = self.contents.pop().unwrap();
        let ghost before = scope@;
        proof {
            lemma_entries_map(before);
            assert(old_contents.drop_last() =~= self.contents@);
        }
        let mut i: usize = 0;
        let mut found = false;
        while i < scope.len() && !found
            invariant
                i <= scope@.len(),
                scope@ == before,
                found ==> i < scope@.len() && scope@[i as int].0@ == name@,
                forall|j: int| 0 <= j < i ==> (#[trigger] scope@[j]).0@ != name@,
            decreases scope.len() - i + (if found {
                0int
            } else {
                1int
            }),
        {
            if scope[i].0 == name {
                found = true;
            } else {
                i += 1;
            }
        }
        if found {
            scope.set(i, (name, id));
            proof {
                lemma_entries_set(before, i as int, scope@[i as int]);
            }
        } else {
            scope.push((name, id));
            proof {
                lemma_entries_push(before, scope@.last());
            }
        }
        self.contents.push(scope);
        self.count = self.count + 1;
        self.current_free = id + 1;
        proof {
            assert(self.contents@.drop_last() =~= old_contents.drop_last());
            assert(self.scopes() =~= old(self).scopes().update(
                old(self).scopes().len() - 1,
                old(self).scopes().last().insert(name@, id),
            ));
            assert forall|k: int| 0 <= k < self.contents@.len() implies unique_names(
                #[trigger] self.contents@[k]@,
            ) by {
                if k < self.contents@.len() - 1 {
                    assert(self.contents@[k] == old_contents[k]);
                }
            }
        }
        id
    }

    /// Opens a new, empty innermost scope.
    pub fn push(&mut self)
        requires
            old(self).wf(),
        ensures
            final(self).wf(),
            final(self).scopes() == old(self).scopes().push(Map::empty()),
            final(self).count() == old(self).count(),
            final(self).free() == old(self).free(),
    {
        let ghost old_contents = self.contents@;
        self.contents.push(Vec::new());
        proof {
            assert(self.contents@.drop_last() =~= old_contents);
            assert(self.scopes() =~= old(self).scopes().push(Map::empty()));
        }
    }

    /// Closes the innermost scope and frees as many slots as it held names.
    pub fn pop(&mut self)
        requires
            old(self).wf(),
            old(self).scopes().len() > 1,
        ensures
            final(self).wf(),
            final(self).scopes() == old(self).scopes().drop_last(),
            final(self).count() == old(self).count(),
            final(self).free() == old(self).free() - old(self).scopes().last().len(),
    {
        let ghost old_contents = self.contents@;
        let freed = self.contents.pop().unwrap();
        proof {
            lemma_entries_map(freed@);
            assert(old_contents.drop_last() =~= self.contents@);
            assert(self.scopes() =~= old(self).scopes().drop_last());
            assert forall|k: int| 0 <= k < self.contents@.len() implies unique_names(
                #[trigger] self.contents@[k]@,
            ) by {
                assert(self.contents@[k] == old_contents[k]);
            }
        }
        self.current_free = self.current_free - freed.len() as SymbolId;
    }

    /// The slot of `name` in the innermost scope that declares it.
    pub fn get(&self, name: &str) -> (r: Option<SymbolId>)
        requires
            self.wf(),
        ensures
            r == lookup(self.scopes(), name@),
    {
        let key = name.to_owned();
        let mut k: usize = self.contents.len();
        proof {
            assert(self.scopes().take(k as int) =~= self.scopes());
        }
        while k > 0
            invariant
                k <= self.contents@.len(),
                key@ == name@,
                self.wf(),
                lookup(self.scopes(), name@) == lookup(self.scopes().take(k as int), name@),
            decreases k,
        {
            let scope = &self.contents[k - 1];
            let ghost entries = scope@;
            proof {
                lemma_entries_map(entries);
                assert(self.scopes().take(k as int).drop_last() =~= self.scopes().take(k - 1));
            }
            let mut i: usize = 0;
            while i < scope.len()
                invariant
                    0 < k <= self.contents@.len(),
                    i <= scope@.len(),
                    scope@ == entries,
                    entries == self.contents@[k - 1]@,
                    self.wf(),
                    key@ == name@,
                    lookup(self.scopes(), name@) == lookup(self.scopes().take(k as int), name@),
                    forall|j: int| 0 <= j < i ==> (#[trigger] entries[j]).0@ != name@,
                decreases scope.len() - i,
            {
                if scope[i].0 == key {
                    proof {
                        lemma_entries_map(entries);
                        assert(unique_names(self.contents@[k - 1]@));
                        assert(entries_map(entries)[entries[i as int].0@] == entries[i as int].1);
                        assert(self.scopes().take(k as int).last() == entries_map(entries));
                    }
                    return Some(scope[i].1);
                }
                i += 1;
            }
            proof {
                assert(self.scopes().take(k as int).last() == entries_map(entries));
                assert(!entries_map(entries).contains_key(name@));
            }
            k -= 1;
        }
        proof {
            assert(self.scopes().take(0) =~= Seq::<Map<Seq<char>, SymbolId>>::empty());
        }
        None
    }

    /// The number of declarations made.
    pub fn total_vars(&self) -> (n: SymbolId)
        ensures
            n == self.count(),
    {
        self.count
    }
}

/// A name reads back as the slot that its declaration gave it.
pub proof fn law_declared_name_found(
    scopes: Seq<Map<Seq<char>, SymbolId>>,
    name: Seq<char>,
    id: SymbolId,
)
    requires
        scopes.len() >= 1,
    ensures
        lookup(declared(scopes, name, id), name) == Some(id),
{
}

/// Declaring a name leaves what every other name reads as.
pub proof fn law_declare_leaves_others(
    scopes: Seq<Map<Seq<char>, SymbolId>>,
    name: Seq<char>,
    id: SymbolId,
    other: Seq<char>,
)
    requires
        scopes.len() >= 1,
        other != name,
    ensures
        lookup(declared(scopes, name, id), other) == lookup(scopes, other),
{
    assert(declared(scopes, name, id).drop_last() =~= scopes.drop_last());
}

/// A new, empty scope changes what no name reads as.
pub proof fn law_fresh_scope_hides_nothing(scopes: Seq<Map<Seq<char>, SymbolId>>, name: Seq<char>)
    ensures
        lookup(scopes.push(Map::empty()), name) == lookup(scopes, name),
{
    assert(scopes.push(Map::empty()).drop_last() =~= scopes);
}

/// Opening a scope, declaring distinct names in it and closing it again gives back
/// the scopes from before, and the free slot from before: the slots of the closed
/// scope are free again.
pub proof fn law_scope_frees_its_slots(
    scopes: Seq<Map<Seq<char>, SymbolId>>,
    free: nat,
    names: Seq<Seq<char>>,
)
    requires
        names.no_duplicates(),
    ensures
        ({
            let (s, f) = declare_all(scopes.push(Map::empty()), free, names);
            &&& s.drop_last() == scopes
            &&& f - s.last().len() == free
        }),
{
    lemma_declare_all_fresh(scopes, free, names);
}

proof fn lemma_declare_all_fresh(
    scopes: Seq<Map<Seq<char>, SymbolId>>,
    free: nat,
    names: Seq<Seq<char>>,
)
    requires
        names.no_duplicates(),
    ensures
        ({
            let (s, f) = declare_all(scopes.push(Map::empty()), free, names);
            &&& s.len() == scopes.len() + 1
            &&& s.drop_last() == scopes
            &&& f == free + names.len()
            &&& s.last().dom().finite()
            &&& s.last().len() == names.len()
            &&& forall|k: Seq<char>| #[trigger] s.last().contains_key(k) <==> names.contains(k)
        }),
    decreases names.len(),
{
    if names.len() == 0 {
        assert(scopes.push(Map::empty()).drop_last() =~= scopes);
        assert(Map::<Seq<char>, SymbolId>::empty().dom() =~= Set::empty());
    } else {
        let p = names.drop_last();
        assert(p.no_duplicates()) by {
            assert forall|i: int, j: int| 0 <= i < p.len() && 0 <= j < p.len() && i != j implies p[i] != p[j] by {
                assert(p[i] == names[i] && p[j] == names[j]);
            }
        }
        lemma_declare_all_fresh(scopes, free, p);
        let (s0, f0) = declare_all(scopes.push(Map::empty()), free, p);
        let x = names.last();
        assert(!p.contains(x)) by {
            if p.contains(x) {
                let i = choose|i: int| 0 <= i < p.len() && p[i] == x;
                assert(names[i] == x && names[names.len() - 1] == x);
            }
        }
        let s1 = declared(s0, x, f0 as SymbolId);
        assert(s1.drop_last() =~= s0.drop_last());
        assert forall|k: Seq<char>| #[trigger] s1.last().contains_key(k) <==> names.contains(k) by {
            if names.contains(k) && k != x {
                let i = choose|i: int| 0 <= i < names.len() && names[i] == k;
                assert(p[i] == k);
            }
            if p.contains(k) {
                let i = choose|i: int| 0 <= i < p.len() && p[i] == k;
                assert(names[i] == k);
            }
        }
    }
}

/// With no name repeated, the map holds exactly the entries' names, each bound to its
/// entry's slot, and has as many names as there are entries.
pub proof fn lemma_entries_map<V>(e: Seq<(String, V)>)
    ensures
        entries_map(e).dom().finite(),
        forall|k: Seq<char>| #[trigger] entries_map(e).contains_key(k) <==> exists|i: int|
            0 <= i < e.len() && e[i].0@ == k,
        unique_names(e) ==> entries_map(e).len() == e.len(),
        unique_names(e) ==> forall|i: int| 0 <= i < e.len() ==> entries_map(e)[#[trigger] e[i].0@] == e[i].1,
    decreases e.len(),
{
    if e.len() > 0 {
        let p = e.drop_last();
        lemma_entries_map(p);
        assert forall|k: Seq<char>| #[trigger] entries_map(e).contains_key(k) <==> exists|i: int|
            0 <= i < e.len() && e[i].0@ == k by {
            if entries_map(e).contains_key(k) && k != e.last().0@ {
                let i = choose|i: int| 0 <= i < p.len() && p[i].0@ == k;
                assert(e[i] == p[i]);
            }
            if exists|i: int| 0 <= i < e.len() && e[i].0@ == k {
                let i = choose|i: int| 0 <= i < e.len() && e[i].0@ == k;
                if i < e.len() - 1 {
                    assert(p[i] == e[i]);
                }
            }
        }
        if unique_names(e) {
            assert(unique_names(p)) by {
                assert forall|i: int, j: int| 0 <= i < j < p.len() implies #[trigger] p[i].0@ != #[trigger] p[j].0@ by {
                    assert(p[i] == e[i] && p[j] == e[j]);
                }
            }
            if entries_map(p).contains_key(e.last().0@) {
                let i = choose|i: int| 0 <= i < p.len() && p[i].0@ == e.last().0@;
                assert(e[i] == p[i]);
            }
            assert forall|i: int| 0 <= i < e.len() implies entries_map(e)[#[trigger] e[i].0@] == e[i].1 by {
                if i < e.len() - 1 {
                    assert(p[i] == e[i]);
                }
            }
        }
    }
}

/// Appending an entry whose name is new keeps names unique and adds it to the map.
pub proof fn lemma_entries_push<V>(e: Seq<(String, V)>, x: (String, V))
    requires
        unique_names(e),
        forall|j: int| 0 <= j < e.len() ==> (#[trigger] e[j]).0@ != x.0@,
    ensures
        unique_names(e.push(x)),
        entries_map(e.push(x)) == entries_map(e).insert(x.0@, x.1),
{
    assert(e.push(x).drop_last() =~= e);
    assert forall|i: int, j: int| 0 <= i < j < e.push(x).len() implies #[trigger] e.push(x)[i].0@
        != #[trigger] e.push(x)[j].0@ by {
        if j == e.len() {
            assert(e.push(x)[i] == e[i]);
        } else {
            assert(e.push(x)[i] == e[i] && e.push(x)[j] == e[j]);
        }
    }
}

/// Replacing the entry at `i` by one of the same name keeps names unique and rebinds
/// that name in the map.
pub proof fn lemma_entries_set<V>(e: Seq<(String, V)>, i: int, x: (String, V))
    requires
        unique_names(e),
        0 <= i < e.len(),
        e[i].0@ == x.0@,
    ensures
        unique_names(e.update(i, x)),
        entries_map(e.update(i, x)) == entries_map(e).insert(x.0@, x.1),
{
    let f = e.update(i, x);
    assert forall|a: int, b: int| 0 <= a < b < f.len() implies #[trigger] f[a].0@ != #[trigger] f[b].0@ by {
        assert(f[a].0@ == e[a].0@ && f[b].0@ == e[b].0@);
    }
    lemma_entries_map(e);
    lemma_entries_map(f);
    assert forall|k: Seq<char>| #[trigger] entries_map(f).contains_key(k) <==> entries_map(e).insert(x.0@, x.1).contains_key(k) by {
        if exists|j: int| 0 <= j < f.len() && f[j].0@ == k {
            let j = choose|j: int| 0 <= j < f.len() && f[j].0@ == k;
            assert(f[j].0@ == e[j].0@);
        }
        if exists|j: int| 0 <= j < e.len() && e[j].0@ == k {
            let j = choose|j: int| 0 <= j < e.len() && e[j].0@ == k;
            assert(f[j].0@ == e[j].0@);
        }
    }
    assert forall|k: Seq<char>| #[trigger] entries_map(f).contains_key(k) implies entries_map(f)[k] == entries_map(e).insert(x.0@, x.1)[k] by {
        let j = choose|j: int| 0 <= j < f.len() && f[j].0@ == k;
        assert(f[j].0@ == e[j].0@);
        assert(entries_map(f)[f[j].0@] == f[j].1);
        assert(entries_map(e)[e[j].0@] == e[j].1);
    }
    assert(entries_map(f) =~= entries_map(e).insert(x.0@, x.1));
}

} // verus!
