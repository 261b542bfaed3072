use vstd::prelude::*;

use super::scope::{entries_map, unique_names, lemma_entries_push, lemma_entries_set};

verus! {

/// A variable: its slot and whether it may be assigned again.
#[derive(Debug, PartialEq, Eq, Structural)]
pub struct Symbol(u16, bool);

/// Scopes of named symbols, the innermost last.
pub struct SymbolTable {
    scopes: Vec<Vec<(String, Symbol)>>,
}

impl SymbolTable {
    /// The scopes, outermost first, each as a map from names to symbols.
    pub closed spec fn scope_maps(&self) -> Seq<Map<Seq<char>, Symbol>> {
        self.scopes@.map_values(|e: Vec<(String, Symbol)>| entries_map(e@))
    }

    /// No scope names a symbol twice.
    pub closed spec fn wf(&self) -> bool {
        forall|i: int| 0 <= i < self.scopes@.len() ==> unique_names(#[trigger] self.scopes@[i]@)
    }

    /// Opens a new, empty innermost scope.
    pub fn push_scope(&mut self)
        requires
            old(self).wf(),
        ensures
            final(self).wf(),
            final(self).scope_maps() == old(self).scope_maps().push(Map::empty()),
    {
        let ghost before = self.scopes@;
        self.scopes.push(Vec::new());
        proof {
            assert(self.scopes@.last()@ =~= Seq::<(String, Symbol)>::empty());
            assert(self.scope_maps() =~= old(self).scope_maps().push(Map::empty()));
            assert forall|i: int| 0 <= i < self.scopes@.len() implies unique_names(#[trigger] self.scopes@[i]@) by {
                if i < before.len() {
                    assert(self.scopes@[i] == before[i]);
                }
            }
        }
    }

    /// Closes the innermost scope, if there is one.
    pub fn pop_scope(&mut self)
        requires
            old(self).wf(),
        ensures
            final(self).wf(),
            old(self).scope_maps().len() > 0 ==> final(self).scope_maps() == old(self).scope_maps().drop_last(),
            old(self).scope_maps().len() == 0 ==> final(self).scope_maps() == old(self).scope_maps(),
    {
        let ghost before = self.scopes@;
        self.scopes.pop();
        proof {
            assert(self.scope_maps() =~= if before.len() > 0 {
                old(self).scope_maps().drop_last()
            } else {
                old(self).scope_maps()
            });
            assert forall|i: int| 0 <= i < self.scopes@.len() implies unique_names(#[trigger] self.scopes@[i]@) by {
                assert(self.scopes@[i] == before[i]);
            }
        }
    }

    /// Binds `name` to `symbol` in the innermost scope.
    pub fn register(&mut self, name: String, symbol: Symbol)
        requires
            old(self).wf(),
            old(self).scope_maps().len() > 0,
        ensures
            final(self).wf(),
            final(self).scope_maps() == old(self).scope_maps().update(
                old(self).scope_maps().len() - 1,
                old(self).scope_maps().last().insert(name@, symbol),
            ),
    {
        let ghost before_all = self.scopes@;
        let mut scope = self.scopes.pop().unwrap();
        let ghost before = scope@;
        proof {
            assert(unique_names(before_all[before_all.len() - 1]@));
        }
        let mut i: usize = 0;
        let mut found = false;
        while i < scope.len() && !found
            invariant
                i <= scope@.len(),
                scope@ == before,
                found ==> i < scope@.len() && scope@[i as int].0@ == name@,
                forall|j: int| 0 <= j < i ==> (#[trigger] scope@[j]).0@ != name@,
            decreases scope.len() - i + (if found {
                0int
            } else {
                1int
            }),
        {
            if scope[i].0 == name {
                found = true;
            } else {
                i += 1;
            }
        }
        let ghost entry = (name, symbol);
        if found {
            scope.set(i, (name, symbol));
            proof {
                lemma_entries_set(before, i as int, scope@[i as int]);
            }
        } else {
            scope.push((name, symbol));
            proof {
                lemma_entries_push(before, scope@.last());
            }
        }
        self.scopes.push(scope);
        proof {
            assert(self.scopes@.drop_last() =~= before_all.drop_last());
            assert(self.scope_maps() =~= old(self).scope_maps().update(
                old(self).scope_maps().len() - 1,
                old(self).scope_maps().last().insert(name@, symbol),
            ));
            assert forall|k: int| 0 <= k < self.scopes@.len() implies unique_names(#[trigger] self.scopes@[k]@) by {
                if k < self.scopes@.len() - 1 {
                    assert(self.scopes@[k] == before_all[k]);
                }
            }
        }
    }

    /// Assigning through the table changes nothing: the table keeps the symbols as
    /// they were registered.
    pub fn assign(&mut self, name: &str, symbol: Symbol)
        ensures
            *final(self) == *old(self),
    {
    }
}

} // verus!
