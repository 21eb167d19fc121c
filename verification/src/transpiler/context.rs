//! The cross-cutting compilation context.
//!
//! One context is created per compilation and threaded by exclusive
//! mutable reference through validation and code generation. Every
//! collection in it only ever grows, and each one is kept in insertion
//! order so that generated output is identical across runs.

use vstd::prelude::*;

use crate::ast::Type;

verus! {

/// Looks a name up in a symbol sequence; later entries shadow earlier
/// ones.
pub open spec fn sym_lookup(syms: Seq<(Seq<char>, Type)>, name: Seq<char>) -> Option<Type>
    decreases syms.len(),
{
    if syms.len() == 0 {
        None
    } else if syms.last().0 == name {
        Some(syms.last().1)
    } else {
        sym_lookup(syms.drop_last(), name)
    }
}

/// Whether the sequence holds exactly these characters as one entry.
pub open spec fn contains_name(v: Seq<Seq<char>>, name: Seq<char>) -> bool {
    exists|i: int| 0 <= i < v.len() && v[i] == name
}

/// A name set after inserting a name: unchanged if the name is present,
/// extended by it otherwise.
pub open spec fn insert_name(v: Seq<Seq<char>>, name: Seq<char>) -> Seq<Seq<char>> {
    if contains_name(v, name) {
        v
    } else {
        v.push(name)
    }
}

/// The earlier sequence is an unchanged prefix of the later one.
pub open spec fn seq_extends<T>(pre: Seq<T>, post: Seq<T>) -> bool {
    &&& pre.len() <= post.len()
    &&& forall|i: int| 0 <= i < pre.len() ==> pre[i] == #[trigger] post[i]
}

/// Context evolution is reflexive.
pub proof fn lemma_evolves_refl(a: TranspileContext)
    ensures
        a.evolves_to(a),
{
}

/// Context evolution is transitive.
pub proof fn lemma_evolves_trans(a: TranspileContext, b: TranspileContext, c: TranspileContext)
    requires
        a.evolves_to(b),
        b.evolves_to(c),
    ensures
        a.evolves_to(c),
{
}

/// Mutation-tracked state for a single compilation: the symbol table, the
/// set of mutable symbols, the required imports, the runtime-helper usage
/// flags and the end-of-program cleanup statements.
pub struct TranspileContext {
    /// Additional import lines, in first-use order, without duplicates.
    pub imports: Vec<String>,
    /// The symbol table; later entries shadow earlier ones.
    pub symbol_types: Vec<(String, Type)>,
    /// Whether the generated program needs an allocator preamble.
    pub needs_allocator: bool,
    /// Whether the generated program needs a standard-output handle.
    pub uses_stdout: bool,
    /// The names declared mutable, in first-insertion order.
    pub mutable_symbols: Vec<String>,
    /// Whether the input runtime helper was used.
    pub used_input_fn: bool,
    /// Statements emitted at the end of the entry point, in order.
    pub cleanup_statements: Vec<String>,
    /// Whether the sum runtime helper was used.
    pub used_sum_fn: bool,
    /// Whether the fixed-capacity split helper was used.
    pub used_split_n_fn: bool,
    /// Whether the dynamic split helper was used.
    pub used_split_auto_fn: bool,
}

impl TranspileContext {
    /// The symbol table as name characters paired with types.
    pub open spec fn syms(self) -> Seq<(Seq<char>, Type)> {
        self.symbol_types@.map_values(|p: (String, Type)| (p.0@, p.1))
    }

    /// The mutable-symbol set as name characters.
    pub open spec fn mutables(self) -> Seq<Seq<char>> {
        self.mutable_symbols@.map_values(|s: String| s@)
    }

    /// The import lines as character sequences.
    pub open spec fn imports_view(self) -> Seq<Seq<char>> {
        self.imports@.map_values(|s: String| s@)
    }

    /// The cleanup statements as character sequences.
    pub open spec fn cleanups(self) -> Seq<Seq<char>> {
        self.cleanup_statements@.map_values(|s: String| s@)
    }

    /// Everything the code generator may change is unchanged between the
    /// two contexts; only the validator-owned parts may differ.
    pub open spec fn gen_state_eq(self, other: Self) -> bool {
        &&& self.imports_view() == other.imports_view()
        &&& self.cleanups() == other.cleanups()
        &&& self.needs_allocator == other.needs_allocator
        &&& self.uses_stdout == other.uses_stdout
        &&& self.used_input_fn == other.used_input_fn
        &&& self.used_sum_fn == other.used_sum_fn
        &&& self.used_split_n_fn == other.used_split_n_fn
        &&& self.used_split_auto_fn == other.used_split_auto_fn
    }

    /// The context only ever grows within one compilation: every
    /// collection of the later context extends the earlier one in place
    /// (entries are added, never removed or reordered), and every
    /// runtime-helper flag is write-once.
    pub open spec fn evolves_to(self, post: Self) -> bool {
        &&& seq_extends(self.imports_view(), post.imports_view())
        &&& seq_extends(self.cleanups(), post.cleanups())
        &&& seq_extends(self.syms(), post.syms())
        &&& seq_extends(self.mutables(), post.mutables())
        &&& (self.needs_allocator ==> post.needs_allocator)
        &&& (self.uses_stdout ==> post.uses_stdout)
        &&& (self.used_input_fn ==> post.used_input_fn)
        &&& (self.used_sum_fn ==> post.used_sum_fn)
        &&& (self.used_split_n_fn ==> post.used_split_n_fn)
        &&& (self.used_split_auto_fn ==> post.used_split_auto_fn)
    }

    /// A fresh context: every collection empty, every flag off.
    pub fn new() -> (res: Self)
        ensures
            res.imports@ == Seq::<String>::empty(),
            res.symbol_types@ == Seq::<(String, Type)>::empty(),
            !res.needs_allocator,
            !res.uses_stdout,
            res.mutable_symbols@ == Seq::<String>::empty(),
            !res.used_input_fn,
            res.cleanup_statements@ == Seq::<String>::empty(),
            !res.used_sum_fn,
            !res.used_split_n_fn,
            !res.used_split_auto_fn,
            res.syms() == Seq::<(Seq<char>, Type)>::empty(),
            res.mutables() == Seq::<Seq<char>>::empty(),
            res.imports_view() == Seq::<Seq<char>>::empty(),
            res.cleanups() == Seq::<Seq<char>>::empty(),
    {
        let res = TranspileContext {
            imports: Vec::new(),
            symbol_types: Vec::new(),
            needs_allocator: false,
            uses_stdout: false,
            mutable_symbols: Vec::new(),
            used_input_fn: false,
            cleanup_statements: Vec::new(),
            used_sum_fn: false,
            used_split_n_fn: false,
            used_split_auto_fn: false,
        };
        proof {
            assert(res.syms() =~= Seq::<(Seq<char>, Type)>::empty());
            assert(res.mutables() =~= Seq::<Seq<char>>::empty());
            assert(res.imports_view() =~= Seq::<Seq<char>>::empty());
            assert(res.cleanups() =~= Seq::<Seq<char>>::empty());
        }
        res
    }

    /// Records an import line if it is not already present. Returns the
    /// line again when it was new, so the caller can tell whether it was
    /// added.
    pub fn add_import(&mut self, import: &str) -> (r: Option<String>)
        ensures
            final(self).imports_view() == insert_name(old(self).imports_view(), import@),
            r is Some <==> !contains_name(old(self).imports_view(), import@),
            r matches Some(s) ==> s@ == import@,
            final(self).symbol_types == old(self).symbol_types,
            final(self).mutable_symbols == old(self).mutable_symbols,
            final(self).cleanup_statements == old(self).cleanup_statements,
            final(self).needs_allocator == old(self).needs_allocator,
            final(self).uses_stdout == old(self).uses_stdout,
            final(self).used_input_fn == old(self).used_input_fn,
            final(self).used_sum_fn == old(self).used_sum_fn,
            final(self).used_split_n_fn == old(self).used_split_n_fn,
            final(self).used_split_auto_fn == old(self).used_split_auto_fn,
    {
        let n = self.imports.len();
        let mut i: usize = 0;
        while i < n
            invariant
                n == self.imports@.len(),
                i <= n,
                forall|j: int| 0 <= j < i ==> self.imports@[j]@ != import@,
            decreases n - i,
        {
            if crate::strutil::str_eq(self.imports[i].as_str(), import) {
                proof {
                    assert(self.imports_view()[i as int] == import@);
                }
                return None;
            }
            i += 1;
        }
        proof {
            assert(forall|j: int|
                0 <= j < old(self).imports_view().len()
                    ==> old(self).imports_view()[j] != import@);
        }
        self.imports.push(import.to_owned());
        proof {
            assert(final(self).imports_view() =~= old(self).imports_view().push(import@));
        }
        Some(import.to_owned())
    }

    /// Looks a name up in the symbol table; later entries shadow earlier
    /// ones.
    pub fn symbol_type(&self, name: &str) -> (r: Option<Type>)
        ensures
            r == sym_lookup(self.syms(), name@),
    {
        let mut i: usize = self.symbol_types.len();
        proof {
            assert(self.syms().subrange(0, self.symbol_types@.len() as int) =~= self.syms());
        }
        while i > 0
            invariant
                i <= self.symbol_types@.len(),
                self.syms().len() == self.symbol_types@.len(),
                sym_lookup(self.syms(), name@) == sym_lookup(
                    self.syms().subrange(0, i as int),
                    name@,
                ),
            decreases i,
        {
            i -= 1;
            let entry = &self.symbol_types[i];
            proof {
                assert(self.syms().subrange(0, i + 1 as int).last() == self.syms()[i as int]);
                assert(self.syms().subrange(0, i + 1 as int).drop_last() =~= self.syms().subrange(
                    0,
                    i as int,
                ));
            }
            if crate::strutil::str_eq(entry.0.as_str(), name) {
                return Some(entry.1.clone());
            }
        }
        proof {
            assert(self.syms().subrange(0, 0) =~= Seq::<(Seq<char>, Type)>::empty());
        }
        None
    }

    /// Appends a symbol entry; the new entry shadows any earlier one of
    /// the same name.
    pub fn insert_symbol(&mut self, name: String, typ: Type)
        ensures
            final(self).syms() == old(self).syms().push((name@, typ)),
            final(self).mutables() == old(self).mutables(),
            final(self).imports == old(self).imports,
            final(self).mutable_symbols == old(self).mutable_symbols,
            final(self).cleanup_statements == old(self).cleanup_statements,
            final(self).needs_allocator == old(self).needs_allocator,
            final(self).uses_stdout == old(self).uses_stdout,
            final(self).used_input_fn == old(self).used_input_fn,
            final(self).used_sum_fn == old(self).used_sum_fn,
            final(self).used_split_n_fn == old(self).used_split_n_fn,
            final(self).used_split_auto_fn == old(self).used_split_auto_fn,
    {
        let ghost nameview = name@;
        let ghost t = typ;
        self.symbol_types.push((name, typ));
        proof {
            assert(final(self).syms() =~= old(self).syms().push((nameview, t)));
        }
    }

    /// Whether a name is in the mutable-symbol set.
    pub fn is_mutable_symbol(&self, name: &str) -> (r: bool)
        ensures
            r == contains_name(self.mutables(), name@),
    {
        let n = self.mutable_symbols.len();
        let mut i: usize = 0;
        while i < n
            invariant
                n == self.mutable_symbols@.len(),
                i <= n,
                forall|j: int| 0 <= j < i ==> self.mutable_symbols@[j]@ != name@,
            decreases n - i,
        {
            if crate::strutil::str_eq(self.mutable_symbols[i].as_str(), name) {
                proof {
                    assert(self.mutables()[i as int] == name@);
                }
                return true;
            }
            i += 1;
        }
        proof {
            assert(forall|j: int|
                0 <= j < self.mutables().len() ==> self.mutables()[j] != name@);
        }
        false
    }

    /// Adds a name to the mutable-symbol set if it is not there yet.
    pub fn insert_mutable(&mut self, name: &str)
        ensures
            final(self).mutables() == insert_name(old(self).mutables(), name@),
            final(self).syms() == old(self).syms(),
            final(self).symbol_types == old(self).symbol_types,
            final(self).imports == old(self).imports,
            final(self).cleanup_statements == old(self).cleanup_statements,
            final(self).needs_allocator == old(self).needs_allocator,
            final(self).uses_stdout == old(self).uses_stdout,
            final(self).used_input_fn == old(self).used_input_fn,
            final(self).used_sum_fn == old(self).used_sum_fn,
            final(self).used_split_n_fn == old(self).used_split_n_fn,
            final(self).used_split_auto_fn == old(self).used_split_auto_fn,
    {
        if !self.is_mutable_symbol(name) {
            self.mutable_symbols.push(name.to_owned());
            proof {
                assert(final(self).mutables() =~= old(self).mutables().push(name@));
            }
        }
    }

    /// Appends a cleanup statement.
    pub fn push_cleanup(&mut self, stmt: String)
        ensures
            final(self).cleanups() == old(self).cleanups().push(stmt@),
            final(self).syms() == old(self).syms(),
            final(self).mutables() == old(self).mutables(),
            final(self).imports == old(self).imports,
            final(self).symbol_types == old(self).symbol_types,
            final(self).mutable_symbols == old(self).mutable_symbols,
            final(self).needs_allocator == old(self).needs_allocator,
            final(self).uses_stdout == old(self).uses_stdout,
            final(self).used_input_fn == old(self).used_input_fn,
            final(self).used_sum_fn == old(self).used_sum_fn,
            final(self).used_split_n_fn == old(self).used_split_n_fn,
            final(self).used_split_auto_fn == old(self).used_split_auto_fn,
    {
        let ghost sview = stmt@;
        self.cleanup_statements.push(stmt);
        proof {
            assert(final(self).cleanups() =~= old(self).cleanups().push(sview));
        }
    }
}

} // verus!
