use crate::ast::Stmt;
use crate::environment::{frame_find, Environment, SpecFrame, VarStore};
use crate::error::{Diagnostic, Msg, SpecDiagnostic};
use vstd::prelude::*;

verus! {

/// The latest entry for `n` in a flat association table, if any.
pub open spec fn assoc_find<V>(s: Seq<(Seq<char>, V)>, n: Seq<char>) -> Option<V>
    decreases s.len(),
{
    if s.len() == 0 {
        None
    } else if s.last().0 == n {
        Some(s.last().1)
    } else {
        assoc_find(s.drop_last(), n)
    }
}

/// The table with every entry for `n` removed.
pub open spec fn assoc_remove<V>(s: Seq<(Seq<char>, V)>, n: Seq<char>) -> Seq<(Seq<char>, V)>
    decreases s.len(),
{
    if s.len() == 0 {
        s
    } else if s.last().0 == n {
        assoc_remove(s.drop_last(), n)
    } else {
        assoc_remove(s.drop_last(), n).push(s.last())
    }
}

/// The specification-level state of an analysis pass: the scope chain, the
/// flat constant and function tables, the output trace, and the two nesting
/// counters that gate `return`, `break` and `continue`.
pub ghost struct SpecState<T> {
    pub env: Seq<SpecFrame<T>>,
    pub constants: Seq<(Seq<char>, T)>,
    pub functions: Seq<(Seq<char>, Stmt)>,
    pub output: Seq<T>,
    pub call_depth: nat,
    pub loop_depth: nat,
}

/// Scaffolding shared by the typechecking and the interpreting pass: the
/// scope environment, the constant table, the function table, the output
/// trace, and the call and loop nesting counters.
///
/// The function table borrows the defining statements from the program
/// being analyzed.
#[derive(Debug)]
pub struct Analyzer<'a, T> {
    /// map of variables to types or values
    pub env: Environment<T>,
    /// map of constants to types or values
    pub constants: Vec<(String, T)>,
    /// map of functions to their defining statements
    pub functions: Vec<(String, &'a Stmt)>,
    /// record of IO (print statements)
    pub output: Vec<T>,
    /// current depth of function calls
    pub call_depth: u64,
    /// current depth of while loops
    pub loop_depth: u64,
}

impl<'a, T: Copy> Analyzer<'a, T> {
    pub open spec fn constants_view(&self) -> Seq<(Seq<char>, T)> {
        self.constants@.map(|i: int, p: (String, T)| (p.0@, p.1))
    }

    pub open spec fn functions_view(&self) -> Seq<(Seq<char>, Stmt)> {
        self.functions@.map(|i: int, p: (String, &Stmt)| (p.0@, *p.1))
    }

    /// The specification-level state that this analyzer is in.
    pub open spec fn st(&self) -> SpecState<T> {
        SpecState {
            env: self.env@,
            constants: self.constants_view(),
            functions: self.functions_view(),
            output: self.output@,
            call_depth: self.call_depth as nat,
            loop_depth: self.loop_depth as nat,
        }
    }

    /// Well-formedness of the executable state: the global frame exists.
    pub open spec fn wf(&self) -> bool {
        self.env.wf()
    }

    /// A fresh analyzer with empty tables, standing in the global scope.
    pub fn new() -> (r: Self)
        ensures
            r.st() == init_state::<T>(),
            r.wf(),
    {
        let r = Analyzer {
            env: Environment::new(),
            constants: Vec::new(),
            functions: Vec::new(),
            output: Vec::new(),
            call_depth: 0,
            loop_depth: 0,
        };
        proof {
            assert(r.constants_view() =~~= Seq::<(Seq<char>, T)>::empty());
            assert(r.functions_view() =~~= Seq::<(Seq<char>, Stmt)>::empty());
            assert(r.st() == init_state::<T>());
        }
        r
    }

    /// Look up a constant.
    pub(crate) fn const_get(&self, name: &String) -> (r: Option<T>)
        ensures
            r == assoc_find(self.constants_view(), name@),
    {
        proof {
            assert(self.constants_view().take(self.constants_view().len() as int) =~~= self
                .constants_view());
        }
        let mut i: usize = self.constants.len();
        while i > 0
            invariant
                i <= self.constants.len(),
                assoc_find(self.constants_view(), name@) == assoc_find(
                    self.constants_view().take(i as int),
                    name@,
                ),
            decreases i,
        {
            let k = i - 1;
            proof {
                assert(self.constants_view().take(i as int).last() == (
                    self.constants@[k as int].0@,
                    self.constants@[k as int].1,
                ));
                assert(self.constants_view().take(i as int).drop_last() =~~= self.constants_view()
                    .take(k as int));
            }
            if self.constants[k].0 == *name {
                return Some(self.constants[k].1);
            }
            i = k;
        }
        proof {
            assert(self.constants_view().take(0) =~~= Seq::<(Seq<char>, T)>::empty());
        }
        None
    }

    /// Look up the statement defining a function.
    pub(crate) fn func_get(&self, name: &String) -> (r: Option<&'a Stmt>)
        ensures
            match r {
                Some(s) => assoc_find(self.functions_view(), name@) == Some(*s),
                None => assoc_find(self.functions_view(), name@) is None,
            },
    {
        proof {
            assert(self.functions_view().take(self.functions_view().len() as int) =~~= self
                .functions_view());
        }
        let mut i: usize = self.functions.len();
        while i > 0
            invariant
                i <= self.functions.len(),
                assoc_find(self.functions_view(), name@) == assoc_find(
                    self.functions_view().take(i as int),
                    name@,
                ),
            decreases i,
        {
            let k = i - 1;
            proof {
                assert(self.functions_view().take(i as int).last() == (
                    self.functions@[k as int].0@,
                    *self.functions@[k as int].1,
                ));
                assert(self.functions_view().take(i as int).drop_last() =~~= self.functions_view()
                    .take(k as int));
            }
            if self.functions[k].0 == *name {
                return Some(self.functions[k].1);
            }
            i = k;
        }
        proof {
            assert(self.functions_view().take(0) =~~= Seq::<(Seq<char>, Stmt)>::empty());
        }
        None
    }

    /// Record a constant.
    pub(crate) fn const_insert(&mut self, name: &String, value: T)
        ensures
            final(self).constants_view() == old(self).constants_view().push((name@, value)),
            final(self).env == old(self).env,
            final(self).functions == old(self).functions,
            final(self).output == old(self).output,
            final(self).call_depth == old(self).call_depth,
            final(self).loop_depth == old(self).loop_depth,
    {
        let ghost pre = self.constants@;
        self.constants.push((name.clone(), value));
        proof {
            assert(self.constants_view() =~~= old(self).constants_view().push((name@, value)));
        }
    }

    /// Record a function's defining statement.
    pub(crate) fn func_insert(&mut self, name: &String, stmt: &'a Stmt)
        ensures
            final(self).functions_view() == old(self).functions_view().push((name@, *stmt)),
            final(self).env == old(self).env,
            final(self).constants == old(self).constants,
            final(self).output == old(self).output,
            final(self).call_depth == old(self).call_depth,
            final(self).loop_depth == old(self).loop_depth,
    {
        self.functions.push((name.clone(), stmt));
        proof {
            assert(self.functions_view() =~~= old(self).functions_view().push((name@, *stmt)));
        }
    }

    /// Drop every record of a function.
    pub(crate) fn func_remove(&mut self, name: &String)
        ensures
            final(self).functions_view() == assoc_remove(old(self).functions_view(), name@),
            final(self).env == old(self).env,
            final(self).constants == old(self).constants,
            final(self).output == old(self).output,
            final(self).call_depth == old(self).call_depth,
            final(self).loop_depth == old(self).loop_depth,
    {
        let ghost orig = self.functions_view();
        let mut kept: Vec<(String, &'a Stmt)> = Vec::new();
        let mut i: usize = 0;
        proof {
            assert(orig.take(0) =~~= Seq::<(Seq<char>, Stmt)>::empty());
            assert(kept@.map(|j: int, p: (String, &Stmt)| (p.0@, *p.1)) =~~= assoc_remove(
                orig.take(0),
                name@,
            ));
        }
        while i < self.functions.len()
            invariant
                i <= self.functions.len(),
                orig == self.functions_view(),
                kept@.map(|j: int, p: (String, &Stmt)| (p.0@, *p.1)) =~~= assoc_remove(
                    orig.take(i as int),
                    name@,
                ),
            decreases self.functions.len() - i,
        {
            let ghost kept_pre = kept@;
            let p_name_matches = self.functions[i].0 == *name;
            proof {
                assert(orig.take(i + 1).drop_last() =~~= orig.take(i as int));
                assert(orig.take(i + 1).last() == (
                    self.functions@[i as int].0@,
                    *self.functions@[i as int].1,
                ));
            }
            if !p_name_matches {
                let entry_name = self.functions[i].0.clone();
                let entry_stmt = self.functions[i].1;
                kept.push((entry_name, entry_stmt));
                proof {
                    assert(kept@.map(|j: int, p: (String, &Stmt)| (p.0@, *p.1)) =~~= kept_pre.map(
                        |j: int, p: (String, &Stmt)| (p.0@, *p.1),
                    ).push((self.functions@[i as int].0@, *self.functions@[i as int].1)));
                    assert(kept@.map(|j: int, p: (String, &Stmt)| (p.0@, *p.1)) =~~= assoc_remove(
                        orig.take(i + 1),
                        name@,
                    ));
                }
            } else {
                proof {
                    assert(kept@.map(|j: int, p: (String, &Stmt)| (p.0@, *p.1)) =~~= assoc_remove(
                        orig.take(i + 1),
                        name@,
                    ));
                }
            }
            i = i + 1;
        }
        proof {
            assert(orig.take(self.functions@.len() as int) =~~= orig);
        }
        self.functions = kept;
    }

    /// Exit the current scope, reporting an internal error if it is the
    /// global one.
    pub(crate) fn exit_scope(&mut self, id: usize) -> (r: Result<(), Diagnostic>)
        ensures
            ({
                let (st2, r2) = spec_exit(old(self).st(), id);
                final(self).st() == st2 && guard_view(r) == r2
            }),
    {
        match self.env.exit_child() {
            Ok(u) => Ok(()),
            Err(u) => Err(
                diag1(
                    Msg::InternalErr,
                    id,
                    "Typechecker/Interpreter error, attempted to exit global environment."
                        .to_owned(),
                ),
            ),
        }
    }

    /// Refuse a name already used by a variable in the current scope.
    pub(crate) fn check_env(&self, name: &String, id: usize) -> (r: Result<(), Diagnostic>)
        requires
            self.wf(),
        ensures
            guard_view(r) == spec_check_env(self.st(), name@, id),
    {
        if self.env.top_contains(name) {
            Err(diag1(Msg::RedeclareVar, id, name.clone()))
        } else {
            Ok(())
        }
    }

    /// Refuse a name already used by a constant.
    pub(crate) fn check_constant(&self, name: &String, id: usize) -> (r: Result<(), Diagnostic>)
        ensures
            guard_view(r) == spec_check_constant(self.st(), name@, id),
    {
        if self.const_get(name).is_some() {
            Err(diag1(Msg::RedeclareConst, id, name.clone()))
        } else {
            Ok(())
        }
    }

    /// Refuse a name already used by a function.
    pub(crate) fn check_function(&self, name: &String, id: usize) -> (r: Result<(), Diagnostic>)
        ensures
            guard_view(r) == spec_check_function(self.st(), name@, id),
    {
        if self.func_get(name).is_some() {
            Err(diag1(Msg::RedeclareFunc, id, name.clone()))
        } else {
            Ok(())
        }
    }
}

/// Exiting the current scope: pops a child frame, and reports an internal
/// error if the current frame is already the global one.
pub open spec fn spec_exit<T>(st: SpecState<T>, id: usize) -> (SpecState<T>, Result<
    (),
    SpecDiagnostic,
>) {
    if st.env.len() > 1 {
        (SpecState { env: st.env.drop_last(), ..st }, Ok(()))
    } else {
        (
            st,
            Err(
                spec_diag1(
                    Msg::InternalErr,
                    id,
                    "Typechecker/Interpreter error, attempted to exit global environment."@,
                ),
            ),
        )
    }
}

/// The specification-level form of a guard result.
pub open spec fn guard_view(r: Result<(), Diagnostic>) -> Result<(), SpecDiagnostic> {
    match r {
        Ok(u) => Ok(u),
        Err(d) => Err(d@),
    }
}

/// The state a fresh analyzer starts in.
pub open spec fn init_state<T>() -> SpecState<T> {
    SpecState {
        env: seq![Seq::<(Seq<char>, VarStore<T>)>::empty()],
        constants: Seq::empty(),
        functions: Seq::empty(),
        output: Seq::empty(),
        call_depth: 0,
        loop_depth: 0,
    }
}

/// The redeclaration guard against variables of the current scope.
pub open spec fn spec_check_env<T>(st: SpecState<T>, n: Seq<char>, id: usize) -> Result<
    (),
    SpecDiagnostic,
> {
    if frame_find(st.env.last(), n) is Some {
        Err(spec_diag1(Msg::RedeclareVar, id, n))
    } else {
        Ok(())
    }
}

/// The redeclaration guard against constants.
pub open spec fn spec_check_constant<T>(st: SpecState<T>, n: Seq<char>, id: usize) -> Result<
    (),
    SpecDiagnostic,
> {
    if assoc_find(st.constants, n) is Some {
        Err(spec_diag1(Msg::RedeclareConst, id, n))
    } else {
        Ok(())
    }
}

/// The redeclaration guard against functions.
pub open spec fn spec_check_function<T>(st: SpecState<T>, n: Seq<char>, id: usize) -> Result<
    (),
    SpecDiagnostic,
> {
    if assoc_find(st.functions, n) is Some {
        Err(spec_diag1(Msg::RedeclareFunc, id, n))
    } else {
        Ok(())
    }
}

pub open spec fn spec_diag0(kind: Msg, id: usize) -> SpecDiagnostic {
    SpecDiagnostic { kind, id, args: Seq::empty() }
}

pub open spec fn spec_diag1(kind: Msg, id: usize, a: Seq<char>) -> SpecDiagnostic {
    SpecDiagnostic { kind, id, args: seq![a] }
}

pub open spec fn spec_diag3(kind: Msg, id: usize, a: Seq<char>, b: Seq<char>, c: Seq<char>) -> SpecDiagnostic {
    SpecDiagnostic { kind, id, args: seq![a, b, c] }
}

/// A diagnostic without arguments.
pub(crate) fn diag0(kind: Msg, id: usize) -> (r: Diagnostic)
    ensures
        r@ == spec_diag0(kind, id),
{
    let r = Diagnostic { kind, id, args: Vec::new() };
    proof {
        assert(r@.args =~~= Seq::<Seq<char>>::empty());
    }
    r
}

/// A diagnostic with one argument.
pub(crate) fn diag1(kind: Msg, id: usize, a: String) -> (r: Diagnostic)
    ensures
        r@ == spec_diag1(kind, id, a@),
{
    let ghost a_view = a@;
    let mut args: Vec<String> = Vec::new();
    args.push(a);
    let r = Diagnostic { kind, id, args };
    proof {
        assert(r@.args =~~= seq![a_view]);
    }
    r
}

/// A diagnostic with three arguments.
pub(crate) fn diag3(kind: Msg, id: usize, a: String, b: String, c: String) -> (r: Diagnostic)
    ensures
        r@ == spec_diag3(kind, id, a@, b@, c@),
{
    let ghost a_view = a@;
    let ghost b_view = b@;
    let ghost c_view = c@;
    let mut args: Vec<String> = Vec::new();
    args.push(a);
    args.push(b);
    args.push(c);
    let r = Diagnostic { kind, id, args };
    proof {
        assert(r@.args =~~= seq![a_view, b_view, c_view]);
    }
    r
}

} // verus!
