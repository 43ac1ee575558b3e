//! The symbol table: a stack of lexical scopes mapping names to declared
//! types. Scopes are strictly nested; lookup walks innermost to outermost
//! and returns the nearest binding.

use vstd::prelude::*;

use crate::ast::{Type, TypeV, type_view};

verus! {

/// A named symbol together with its declared type.
#[derive(Debug)]
pub struct Symbol {
    name: String,
    type_of: Type,
}

/// Mathematical mirror of [`Symbol`].
pub ghost struct SymbolV {
    pub name: Seq<char>,
    pub ty: TypeV,
}

impl Symbol {
    /// Binds `name` to `type_of`.
    pub fn new(name: String, type_of: Type) -> (s: Symbol)
        ensures
            s@ == (SymbolV { name: name@, ty: type_view(type_of) }),
    {
        Symbol { name, type_of }
    }

    /// The symbol's name.
    pub fn name(&self) -> (r: &str)
        ensures
            r@ == self@.name,
    {
        self.name.as_str()
    }

    /// Whether this symbol's name equals `other`, compared by contents.
    pub fn name_string_equals(&self, other: &String) -> (r: bool)
        ensures
            r == (self@.name == other@),
    {
        self.name.eq(other)
    }

    /// The symbol's declared type.
    pub fn type_of(&self) -> (r: &Type)
        ensures
            type_view(*r) == self@.ty,
    {
        &self.type_of
    }
}

impl View for Symbol {
    type V = SymbolV;

    closed spec fn view(&self) -> SymbolV {
        SymbolV { name: self.name@, ty: type_view(self.type_of) }
    }
}

/// The scope stack. The outermost scope sits first; the innermost scope is
/// the last element. Within one scope, a later binding of a name silently
/// shadows an earlier one, so redefinition within a scope is not an error.
#[derive(Debug)]
pub struct SymbolTable {
    inner: Vec<Vec<Symbol>>,
}

/// The nearest binding of `name` within a single scope: the latest
/// inserted one, if any.
pub open spec fn scope_lookup(scope: Seq<SymbolV>, name: Seq<char>) -> Option<SymbolV>
    decreases scope.len(),
{
    if scope.len() == 0 {
        None
    } else if scope.last().name == name {
        Some(scope.last())
    } else {
        scope_lookup(scope.drop_last(), name)
    }
}

/// The nearest binding of `name` in a stack of scopes, searching the
/// innermost (last) scope first.
pub open spec fn table_lookup(scopes: Seq<Seq<SymbolV>>, name: Seq<char>) -> Option<SymbolV>
    decreases scopes.len(),
{
    if scopes.len() == 0 {
        None
    } else {
        match scope_lookup(scopes.last(), name) {
            Some(s) => Some(s),
            None => table_lookup(scopes.drop_last(), name),
        }
    }
}

impl View for SymbolTable {
    type V = Seq<Seq<SymbolV>>;

    closed spec fn view(&self) -> Seq<Seq<SymbolV>> {
        Seq::new(self.inner@.len(), |i: int| self.inner@[i]@.map_values(|s: Symbol| s@))
    }
}

impl SymbolTable {
    /// An empty table, with no open scope.
    pub fn new() -> (t: SymbolTable)
        ensures
            t@ == Seq::<Seq<SymbolV>>::empty(),
    {
        let t = SymbolTable { inner: Vec::new() };
        proof {
            assert(t@ =~= Seq::<Seq<SymbolV>>::empty());
        }
        t
    }

    /// Opens a new innermost binding region.
    pub fn push_scope(&mut self)
        ensures
            final(self)@ == old(self)@.push(Seq::<SymbolV>::empty()),
    {
        self.inner.push(Vec::new());
        proof {
            assert(self@ =~~= old(self)@.push(Seq::<SymbolV>::empty()));
        }
    }

    /// Discards the innermost scope; calling this with no open scope is a
    /// caller error, ruled out by the precondition.
    pub fn pop_scope(&mut self)
        requires
            old(self)@.len() > 0,
        ensures
            final(self)@ == old(self)@.drop_last(),
    {
        let _ = self.inner.pop();
        proof {
            assert(self@ =~~= old(self)@.drop_last());
        }
    }

    /// Binds `symbol` in the innermost scope, shadowing any prior binding
    /// of the same name in that scope.
    pub fn insert_symbol(&mut self, symbol: Symbol)
        requires
            old(self)@.len() > 0,
        ensures
            final(self)@ == old(self)@.update(
                old(self)@.len() - 1,
                old(self)@.last().push(symbol@),
            ),
    {
        let ghost sv = symbol@;
        let mut scope = match self.inner.pop() {
            Some(scope) => scope,
            None => Vec::new(),  // unreachable: a scope is open
        };
        scope.push(symbol);
        self.inner.push(scope);
        proof {
            assert(self@ =~~= old(self)@.update(old(self)@.len() - 1, old(self)@.last().push(sv)));
        }
    }

    /// The nearest binding of `name`, searching scopes innermost to
    /// outermost; `None` means the name is undefined in every scope.
    #[verifier::loop_isolation(false)]
    pub fn lookup(&self, name: &str) -> (r: Option<&Symbol>)
        ensures
            match r {
                Some(s) => table_lookup(self@, name@) == Some(s@),
                None => table_lookup(self@, name@) is None,
            },
    {
        let needle = String::from_str(name);
        let mut i = self.inner.len();
        proof {
            assert(self@.take(i as int) =~= self@);
        }
        while i > 0
            invariant
                i <= self.inner.len(),
                table_lookup(self@, name@) == table_lookup(self@.take(i as int), name@),
            decreases i,
        {
            i = i - 1;
            let scope = &self.inner[i];
            let mut j = scope.len();
            proof {
                assert(self@[i as int].take(scope.len() as int) =~= self@[i as int]);
            }
            while j > 0
                invariant
                    j <= scope.len(),
                    scope_lookup(self@[i as int], name@)
                        == scope_lookup(self@[i as int].take(j as int), name@),
                decreases j,
            {
                j = j - 1;
                if scope[j].name.eq(&needle) {
                    proof {
                        assert(self@[i as int].take(j + 1).last() == scope@[j as int]@);
                        assert(self@[i as int].take(j + 1).last().name == name@);
                        assert(table_lookup(self@.take(i + 1), name@)
                            == scope_lookup(self@[i as int], name@));
                    }
                    return Some(&scope[j]);
                }
                proof {
                    assert(self@[i as int].take(j + 1).drop_last() =~= self@[i as int].take(
                        j as int,
                    ));
                }
            }
            proof {
                assert(scope_lookup(self@[i as int], name@) is None);
                assert(self@.take(i + 1).drop_last() =~= self@.take(i as int));
                assert(self@.take(i + 1).last() == self@[i as int]);
            }
        }
        proof {
            assert(self@.take(0) =~= Seq::<Seq<SymbolV>>::empty());
        }
        None
    }
}

/// A law of scoped resolution: after opening a new scope on top of any
/// stack of scopes and binding `inner` there, a lookup of that name
/// resolves to `inner`, never to any binding of the same name in an outer
/// scope.
pub proof fn lemma_shadowing(scopes: Seq<Seq<SymbolV>>, inner: SymbolV)
    ensures
        table_lookup(scopes.push(seq![inner]), inner.name) == Some(inner),
{
    let pushed = scopes.push(seq![inner]);
    assert(pushed.last() =~= seq![inner]);
    assert(scope_lookup(seq![inner], inner.name) == Some(inner));
}

} // verus!
