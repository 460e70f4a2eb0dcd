//! The type checker: its state, type annotations, assignability, namespace
//! paths, parameters and `use` statements. Statements and expressions are
//! checked in the modules under `checker`.
use vstd::prelude::*;
use crate::span::Span;
use crate::operator::{Operator, op_debug_name};
use crate::ty::{
    Type, FunctionType, TypeArena, TypeId, SpecType, find_field, find_operator, clone_function_type,
    fields_view, methods_view, operators_view, field_names, class_view, type_view, types_view, fn_type_view, clone_type,
    resolve_builtin, builtin_type, lemma_types_view, lemma_types_view_push, lemma_type_text_view,
};
pub use crate::scopes::{Local, Namespace, NamespaceBuilder, Scope, ScopeStack};
use crate::scopes::{
    SpecNamespace, namespace_view, namespaces_view, lemma_namespaces_view,
    typed_view, lemma_typed_names, find_name, clone_namespace, empty_scope, alist_get,
    str_names, names, lemma_index_from,
};
use crate::parser::{AstNode, SAst, TypeNode, BindingNode};
use crate::parser_spec::opt_string_view;
use crate::text::{str_eq, push_str, string_from_chars};
use crate::tc_spec::{
    TcState, with_error, quoted, mismatch, compile_type_in, compile_types_in, param_type_in,
    fn_type_in, named_params, define_params, tc_params, assignable, plain_assignable, inner_of,
    path_parts, walk_path, namespace_at, use_split, report_unknown, define_locals_all,
    define_types_all, tc_use, tc_stmt, def_local, def_type, infer_ident, infer_self, member_of,
    method_of, overload_of, overload_arity_msg, arith_result, arg_check, is_moved_type,
    is_borrowed_type, outside,
};
use crate::tc_wf::{tc_wf, scope_ok, children_ok, class_defs, lemma_stmt_ok};

verus! {

/// A type error with the span where it was found.
#[derive(Debug, Clone)]
pub struct TypeError {
    pub span: Span,
    pub message: String,
}

pub open spec fn errors_view(s: Seq<TypeError>) -> Seq<(Span, Seq<char>)> {
    s.map_values(|e: TypeError| (e.span, e.message@))
}

pub open spec fn strings_view(s: Seq<String>) -> Seq<Seq<char>> {
    s.map_values(|x: String| x@)
}

/// `a`, `b` and a closing quote.
pub(crate) fn quoted_string(a: &str, b: &str) -> (r: String)
    ensures
        r@ == quoted(a@, b@),
{
    let mut out: Vec<char> = Vec::new();
    push_str(&mut out, a);
    push_str(&mut out, b);
    push_str(&mut out, "'");
    assert(out@ =~= quoted(a@, b@));
    string_from_chars(&out)
}

/// `a`, `b`, a closing quote, then `c`.
pub(crate) fn quoted_then(a: &str, b: &str, c: &str) -> (r: String)
    ensures
        r@ == quoted(a@, b@) + c@,
{
    let mut out: Vec<char> = Vec::new();
    push_str(&mut out, a);
    push_str(&mut out, b);
    push_str(&mut out, "'");
    push_str(&mut out, c);
    assert(out@ =~= quoted(a@, b@) + c@);
    string_from_chars(&out)
}

/// Two quoted names: `a`, `b`, a quote, `c`, `d`, a quote.
pub(crate) fn quoted_quoted(a: &str, b: &str, c: &str, d: &str) -> (r: String)
    ensures
        r@ == quoted(quoted(a@, b@) + c@, d@),
{
    let mut out: Vec<char> = Vec::new();
    push_str(&mut out, a);
    push_str(&mut out, b);
    push_str(&mut out, "'");
    push_str(&mut out, c);
    push_str(&mut out, d);
    push_str(&mut out, "'");
    assert(out@ =~= quoted(quoted(a@, b@) + c@, d@));
    string_from_chars(&out)
}

/// Two quoted names, then `e`.
pub(crate) fn quoted_twice(a: &str, b: &str, c: &str, d: &str, e: &str) -> (r: String)
    ensures
        r@ == quoted(quoted(a@, b@) + c@, d@) + e@,
{
    let mut out: Vec<char> = Vec::new();
    push_str(&mut out, a);
    push_str(&mut out, b);
    push_str(&mut out, "'");
    push_str(&mut out, c);
    push_str(&mut out, d);
    push_str(&mut out, "'");
    push_str(&mut out, e);
    assert(out@ =~= quoted(quoted(a@, b@) + c@, d@) + e@);
    string_from_chars(&out)
}

/// The names of a path `a.b.c` of identifiers, appended to `out`; `false`
/// for anything else.
fn collect_parts(node: &AstNode, out: &mut Vec<String>) -> (r: bool)
    ensures
        r == path_parts(*node) is Some,
        r ==> strings_view(final(out)@) == strings_view(old(out)@) + path_parts(*node)->0,
    decreases node,
{
    match node {
        AstNode::Identifier(name) => {
            out.push(name.clone());
            assert(strings_view(out@) =~= strings_view(old(out)@) + seq![name@]);
            true
        },
        AstNode::DotIndex { indexee, index } => {
            if !collect_parts(&indexee.node, out) {
                return false;
            }
            match &index.node {
                AstNode::Identifier(name) => {
                    let ghost mid = out@;
                    out.push(name.clone());
                    assert(strings_view(out@) =~= strings_view(mid).push(name@));
                    assert(strings_view(out@) =~= strings_view(old(out)@) + path_parts(
                        indexee.node,
                    )->0.push(name@));
                    true
                },
                _ => false,
            }
        },
        _ => false,
    }
}

/// What a type checker does with a list of parameters: all are compiled
/// first, then defined in order.
pub proof fn lemma_define_params_prefix(st: TcState, ps: Seq<(Seq<char>, SpecType)>, j: int)
    requires
        0 <= j <= ps.len(),
        define_params(st, ps) is Some,
    ensures
        define_params(st, ps.take(j)) is Some,
    decreases ps.len(),
{
    if j < ps.len() {
        assert(ps.drop_last().take(j) =~= ps.take(j));
        lemma_define_params_prefix(st, ps.drop_last(), j);
    } else {
        assert(ps.take(j) =~= ps);
    }
}

pub proof fn lemma_define_locals_prefix(st: TcState, ls: Seq<(Seq<char>, SpecType)>, j: int)
    requires
        0 <= j <= ls.len(),
        define_locals_all(st, ls) is Some,
    ensures
        define_locals_all(st, ls.take(j)) is Some,
    decreases ls.len(),
{
    if j < ls.len() {
        assert(ls.drop_last().take(j) =~= ls.take(j));
        lemma_define_locals_prefix(st, ls.drop_last(), j);
    } else {
        assert(ls.take(j) =~= ls);
    }
}

pub proof fn lemma_define_types_prefix(st: TcState, ts: Seq<(Seq<char>, SpecType)>, j: int)
    requires
        0 <= j <= ts.len(),
        define_types_all(st, ts) is Some,
    ensures
        define_types_all(st, ts.take(j)) is Some,
    decreases ts.len(),
{
    if j < ts.len() {
        assert(ts.drop_last().take(j) =~= ts.take(j));
        lemma_define_types_prefix(st, ts.drop_last(), j);
    } else {
        assert(ts.take(j) =~= ts);
    }
}

/// Once a prefix of a path leads nowhere, the path does.
pub proof fn lemma_walk_none(sc: Seq<crate::scopes::SpecScope>, ps: Seq<Seq<char>>, i: int)
    requires
        1 <= i <= ps.len(),
        walk_path(sc, ps.take(i)) is None,
    ensures
        walk_path(sc, ps) is None,
    decreases ps.len() - i,
{
    if i == ps.len() {
        assert(ps.take(i) =~= ps);
    } else {
        assert(ps.take(i + 1).drop_last() =~= ps.take(i));
        lemma_walk_none(sc, ps, i + 1);
    }
}


/// The names of the methods of a class are the names of their entries.
pub proof fn lemma_method_names(s: Seq<(String, (usize, usize, FunctionType, bool))>)
    ensures
        names(methods_view(s)) == str_names(s),
        methods_view(s).len() == s.len(),
{
    assert(names(methods_view(s)) =~= str_names(s));
}

/// The message for an operator overload that does not take two parameters.
pub(crate) fn arity_message(op: &Operator) -> (r: String)
    ensures
        r@ == overload_arity_msg(*op),
{
    quoted_then("operator '", op_debug_name(op), " overload must take exactly 2 parameters")
}

/// The type of arithmetic on `lt` and `rt`.
pub(crate) fn arith_type(lt: Type, rt: Type) -> (r: Type)
    ensures
        type_view(r) == arith_result(type_view(lt), type_view(rt)),
{
    if matches!(lt, Type::F64) || matches!(rt, Type::F64) {
        Type::F64
    } else if matches!(lt, Type::F32) || matches!(rt, Type::F32) {
        Type::F32
    } else if !matches!(lt, Type::Unknown) {
        lt
    } else {
        rt
    }
}

/// The state of the type checker.
pub struct TypeChecker {
    pub scopes: ScopeStack,
    pub type_arena: TypeArena,
    pub errors: Vec<TypeError>,
    pub current_class: Option<String>,
    /// Return type of the function currently being checked. `Type::Unknown`
    /// means no function is in scope or the return type was not declared.
    pub current_return_ty: Type,
}

impl TypeChecker {
    pub open spec fn view(&self) -> TcState {
        TcState {
            scopes: self.scopes.view(),
            classes: self.type_arena.view(),
            errors: errors_view(self.errors@),
            current_class: opt_string_view(self.current_class),
            ret: type_view(self.current_return_ty),
        }
    }

    /// A checker with one open scope, no classes and no errors.
    pub fn new() -> (r: Self)
        ensures
            r.view() == (TcState {
                scopes: seq![empty_scope()],
                classes: Seq::empty(),
                errors: Seq::empty(),
                current_class: None,
                ret: SpecType::Unknown,
            }),
            tc_wf(r.view()),
    {
        let mut scopes = ScopeStack::new();
        scopes.push();
        let r = Self {
            scopes,
            type_arena: TypeArena::new(),
            errors: Vec::new(),
            current_class: None,
            current_return_ty: Type::Unknown,
        };
        assert(r.view().scopes =~= seq![empty_scope()]);
        assert(r.view().classes =~= Seq::empty());
        assert(r.view().errors =~= Seq::empty());
        assert(children_ok(empty_scope().namespaces, 0));
        assert(scope_ok(r.view().scopes[0], 0));
        r
    }

    /// Records an error.
    pub fn error(&mut self, span: Span, msg: String)
        ensures
            final(self).view() == with_error(old(self).view(), span, msg@),
    {
        let ghost m = msg@;
        self.errors.push(TypeError { span, message: msg });
        assert(errors_view(self.errors@) =~= errors_view(old(self).errors@).push((span, m)));
    }

    /// Checks a whole program. A checker that is well formed, such as a new
    /// one, checks any program through, as long as its class ids fit in a
    /// `usize`, and stays well formed.
    pub fn check_program(&mut self, program: &SAst)
        requires
            tc_wf(old(self).view()),
            old(self).view().classes.len() + class_defs(*program) <= usize::MAX,
        ensures
            tc_stmt(old(self).view(), *program) == Some(final(self).view()),
            tc_wf(final(self).view()),
    {
        proof {
            lemma_stmt_ok(self.view(), *program);
        }
        self.check_stmt(program);
    }

    /// The type a type annotation stands for.
    #[verifier::loop_isolation(false)]
    pub fn compile_type(&self, node: &TypeNode) -> (r: Type)
        ensures
            type_view(r) == compile_type_in(self.view().scopes, *node),
        decreases node,
    {
        match node {
            TypeNode::Inferred => Type::Unknown,
            TypeNode::ArrayType { elem_type } => Type::Array(Box::new(self.compile_type(elem_type))),
            TypeNode::Qualified { inner, mutable, borrowed, moved } => Type::Qualified {
                inner: Box::new(self.compile_type(inner)),
                mutable: *mutable,
                borrowed: *borrowed,
                moved: *moved,
            },
            TypeNode::NominalType { name, generics } => {
                match resolve_builtin(name.as_str()) {
                    Some(b) => {
                        return b;
                    },
                    None => {},
                }
                match self.scopes.resolve_type(name.as_str()) {
                    Some(t) => {
                        return clone_type(t);
                    },
                    None => {},
                }
                let ghost sc = self.view().scopes;
                let mut args: Vec<Type> = Vec::new();
                let mut k: usize = 0;
                assert(generics@.take(0) =~= Seq::<TypeNode>::empty());
                while k < generics.len()
                    invariant
                        k <= generics@.len(),
                        sc == self.view().scopes,
                        types_view(args@) == compile_types_in(sc, generics@.take(k as int)),
                    decreases generics@.len() - k,
                {
                    let a = self.compile_type(&generics[k]);
                    proof {
                        lemma_types_view_push(args@, a);
                        assert(generics@.take(k + 1).drop_last() =~= generics@.take(k as int));
                    }
                    args.push(a);
                    k = k + 1;
                }
                assert(generics@.take(k as int) =~= generics@);
                if args.len() == 0 {
                    Type::TypeVar(name.clone())
                } else {
                    Type::Generic { name: name.clone(), args }
                }
            },
            TypeNode::HashMapType { .. } => Type::Unknown,
        }
    }

    /// The type that a built-in type name stands for.
    pub fn resolve_builtin(name: &str) -> (r: Option<Type>)
        ensures
            r == builtin_type(name@),
    {
        resolve_builtin(name)
    }

    fn report_mismatch(&mut self, lead: &str, lhs: &Type, rhs: &Type, span: Span)
        ensures
            final(self).view() == with_error(
                old(self).view(),
                span,
                mismatch(lead@, type_view(*lhs), type_view(*rhs)),
            ),
    {
        let l = lhs.to_string();
        let r = rhs.to_string();
        proof {
            lemma_type_text_view(*lhs);
            lemma_type_text_view(*rhs);
        }
        let m = quoted_quoted(lead, l.as_str(), ", got '", r.as_str());
        self.error(span, m);
    }

    /// Reports `rhs` where a `lhs` is expected, unless they agree.
    pub fn assert_assignable(&mut self, lhs: &Type, rhs: &Type, span: Span)
        ensures
            final(self).view() == assignable(old(self).view(), type_view(*lhs), type_view(*rhs), span),
        decreases lhs,
    {
        if matches!(lhs, Type::Unknown) || matches!(rhs, Type::Unknown) {
            return ;
        }
        match lhs {
            Type::Qualified { inner: li, borrowed: lb, moved: lm, .. } => {
                if *lb {
                    match rhs {
                        Type::Qualified { inner: ri, borrowed: rb, .. } => {
                            if *rb {
                                self.assert_assignable(li, ri, span);
                                return ;
                            }
                        },
                        _ => {},
                    }
                    self.report_mismatch("expected borrowed '", lhs, rhs, span);
                } else if *lm {
                    match rhs {
                        Type::Qualified { inner: ri, moved: rm, .. } => {
                            if *rm {
                                self.assert_assignable(li, ri, span);
                                return ;
                            }
                        },
                        _ => {},
                    }
                    self.report_mismatch("expected moved '", lhs, rhs, span);
                } else {
                    self.plain_assignable(lhs, rhs, span);
                }
            },
            _ => {
                self.plain_assignable(lhs, rhs, span);
            },
        }
    }

    fn plain_assignable(&mut self, lhs: &Type, rhs: &Type, span: Span)
        ensures
            final(self).view() == plain_assignable(
                old(self).view(),
                type_view(*lhs),
                type_view(*rhs),
                span,
            ),
    {
        let a = crate::ty::type_eq(lhs, rhs.inner());
        let b = crate::ty::type_eq(lhs.inner(), rhs.inner());
        proof {
            assert(type_view(*rhs.spec_inner()) == inner_of(type_view(*rhs)));
            assert(type_view(*lhs.spec_inner()) == inner_of(type_view(*lhs)));
        }
        if !a && !b {
            self.report_mismatch("expected '", lhs, rhs, span);
        }
    }

    /// The namespace a path `a.b.c` names: `a` a namespace in scope, each
    /// next name a child of the one before.
    pub fn resolve_namespace_path(&self, path: &AstNode) -> (r: Option<&Namespace>)
        ensures
            match r {
                Some(n) => namespace_at(self.view().scopes, *path) == Some(namespace_view(*n)),
                None => namespace_at(self.view().scopes, *path) is None,
            },
    {
        let mut parts: Vec<String> = Vec::new();
        if !collect_parts(path, &mut parts) {
            return None;
        }
        let ghost ps = strings_view(parts@);
        let ghost sc = self.view().scopes;
        assert(ps =~= path_parts(*path)->0);
        let mut current: Option<&Namespace> = None;
        let mut i: usize = 0;
        while i < parts.len()
            invariant
                i <= parts@.len(),
                ps == strings_view(parts@),
                path_parts(*path) == Some(ps),
                ps.len() == parts@.len(),
                sc == self.view().scopes,
                i == 0 ==> current is None,
                i > 0 ==> match current {
                    Some(n) => walk_path(sc, ps.take(i as int)) == Some(namespace_view(*n)),
                    None => walk_path(sc, ps.take(i as int)) is None,
                },
            decreases parts@.len() - i,
        {
            assert(ps[i as int] == parts@[i as int]@);
            if i == 0 {
                assert(ps.take(1) =~= seq![ps[0]]);
                current = self.scopes.resolve_namespace(parts[0].as_str());
            } else {
                assert(ps.take(i + 1).drop_last() =~= ps.take(i as int));
                match current {
                    None => {
                        proof {
                            lemma_walk_none(sc, ps, i as int);
                        }
                        return None;
                    },
                    Some(ns) => {
                        proof {
                            lemma_namespaces_view(ns.children@);
                        }
                        match find_name(&ns.children, parts[i].as_str()) {
                            Some(j) => {
                                current = Some(&ns.children[j].1);
                            },
                            None => {
                                current = None;
                            },
                        }
                    },
                }
            }
            i = i + 1;
        }
        assert(ps.take(i as int) =~= ps);
        current
    }

    /// The type of a function with these parameters and return annotation.
    pub(crate) fn build_fn_type(&self, params: &Vec<BindingNode>, return_type: &TypeNode) -> (r:
        FunctionType)
        ensures
            fn_type_view(r) == fn_type_in(self.view().scopes, params@, *return_type),
    {
        let ghost sc = self.view().scopes;
        let mut ps: Vec<Type> = Vec::new();
        let mut k: usize = 0;
        while k < params.len()
            invariant
                k <= params@.len(),
                sc == self.view().scopes,
                ps@.len() == k,
                forall|i: int| 0 <= i < k ==> type_view(#[trigger] ps@[i]) == param_type_in(sc, params@[i]),
            decreases params@.len() - k,
        {
            let t = match &params[k] {
                BindingNode::IdentifierBinding { ty, .. } => self.compile_type(ty),
                _ => Type::Unknown,
            };
            ps.push(t);
            k = k + 1;
        }
        proof {
            lemma_types_view(ps@);
            assert(types_view(ps@) =~= fn_type_in(sc, params@, *return_type).params);
        }
        FunctionType { params: ps, return_type: Box::new(self.compile_type(return_type)) }
    }

    /// Defines the named parameters as locals, reporting each one but `self`
    /// that has no type.
    pub(crate) fn register_params(&mut self, params: &Vec<BindingNode>)
        requires
            tc_params(old(self).view(), params@) is Some,
        ensures
            tc_params(old(self).view(), params@) == Some(final(self).view()),
    {
        let ghost st0 = self.view();
        let mut compiled: Vec<(String, Type)> = Vec::new();
        let mut k: usize = 0;
        assert(params@.take(0) =~= Seq::<BindingNode>::empty());
        assert(typed_view(compiled@) =~= Seq::empty());
        while k < params.len()
            invariant
                k <= params@.len(),
                self.view() == st0,
                typed_view(compiled@) == named_params(st0.scopes, params@.take(k as int)),
            decreases params@.len() - k,
        {
            assert(params@.take(k + 1).drop_last() =~= params@.take(k as int));
            match &params[k] {
                BindingNode::IdentifierBinding { name, ty } => {
                    let t = self.compile_type(ty);
                    let ghost before = compiled@;
                    compiled.push((name.clone(), t));
                    assert(typed_view(compiled@) =~= typed_view(before).push(
                        (name@, type_view(t)),
                    ));
                },
                _ => {},
            }
            k = k + 1;
        }
        assert(params@.take(k as int) =~= params@);
        let ghost cv = typed_view(compiled@);
        proof {
            lemma_typed_names(compiled@);
        }
        let mut j: usize = 0;
        assert(cv.take(0) =~= Seq::<(Seq<char>, SpecType)>::empty());
        while j < compiled.len()
            invariant
                j <= compiled@.len(),
                cv == typed_view(compiled@),
                cv.len() == compiled@.len(),
                define_params(st0, cv) is Some,
                define_params(st0, cv.take(j as int)) == Some(self.view()),
            decreases compiled@.len() - j,
        {
            proof {
                lemma_define_params_prefix(st0, cv, j + 1);
                assert(cv.take(j + 1).drop_last() =~= cv.take(j as int));
                assert(cv.take(j + 1).last() == cv[j as int]);
            }
            let name = compiled[j].0.clone();
            let ty = clone_type(&compiled[j].1);
            if matches!(ty, Type::Unknown) && !str_eq(name.as_str(), "self") {
                let m = quoted_then("parameter '", name.as_str(), " must have an explicit type");
                self.error(Span::dummy(), m);
            }
            self.scopes.define_local(name, ty, false);
            j = j + 1;
        }
        assert(cv.take(j as int) =~= cv);
    }

    /// `use base.{...}`.
    pub(crate) fn check_use(&mut self, base: &AstNode, used: &Vec<(String, String)>, span: Span)
        requires
            tc_use(old(self).view(), *base, used@, span) is Some,
        ensures
            tc_use(old(self).view(), *base, used@, span) == Some(final(self).view()),
    {
        let ghost st0 = self.view();
        let ns_opt = match self.resolve_namespace_path(base) {
            Some(n) => Some(clone_namespace(n)),
            None => None,
        };
        match ns_opt {
            None => {
                self.error(span, "unknown namespace".to_owned());
            },
            Some(ns) => {
                let ghost nsv = namespace_view(ns);
                let mut ls: Vec<(String, Type)> = Vec::new();
                let mut ts: Vec<(String, Type)> = Vec::new();
                let mut us: Vec<String> = Vec::new();
                let mut k: usize = 0;
                proof {
                    lemma_typed_names(ns.locals@);
                    lemma_typed_names(ns.types@);
                    assert(used@.take(0) =~= Seq::<(String, String)>::empty());
                    assert(typed_view(ls@) =~= Seq::empty());
                    assert(strings_view(us@) =~= Seq::empty());
                }
                while k < used.len()
                    invariant
                        k <= used@.len(),
                        self.view() == st0,
                        nsv == namespace_view(ns),
                        use_split(nsv, used@.take(k as int)) == (
                            typed_view(ls@),
                            typed_view(ts@),
                            strings_view(us@),
                        ),
                    decreases used@.len() - k,
                {
                    assert(used@.take(k + 1).drop_last() =~= used@.take(k as int));
                    let actual = used[k].0.as_str();
                    let alias = used[k].1.clone();
                    let ghost (l0, t0, u0) = (ls@, ts@, us@);
                    proof {
                        lemma_typed_names(ns.locals@);
                        lemma_typed_names(ns.types@);
                        lemma_index_from(str_names(ns.locals@), actual@, 0);
                        lemma_index_from(str_names(ns.types@), actual@, 0);
                    }
                    match find_name(&ns.locals, actual) {
                        Some(i) => {
                            ls.push((alias, clone_type(&ns.locals[i].1)));
                            assert(typed_view(ls@) =~= typed_view(l0).push(
                                (used@[k as int].1@, type_view(ns.locals@[i as int].1)),
                            ));
                        },
                        None => match find_name(&ns.types, actual) {
                            Some(i) => {
                                ts.push((alias, clone_type(&ns.types[i].1)));
                                assert(typed_view(ts@) =~= typed_view(t0).push(
                                    (used@[k as int].1@, type_view(ns.types@[i as int].1)),
                                ));
                            },
                            None => {
                                us.push(used[k].0.clone());
                                assert(strings_view(us@) =~= strings_view(u0).push(actual@));
                            },
                        },
                    }
                    k = k + 1;
                }
                assert(used@.take(k as int) =~= used@);
                let ghost lv = typed_view(ls@);
                let ghost tv = typed_view(ts@);
                let ghost uv = strings_view(us@);
                let mut j: usize = 0;
                assert(uv.take(0) =~= Seq::<Seq<char>>::empty());
                while j < us.len()
                    invariant
                        j <= us@.len(),
                        uv == strings_view(us@),
                        uv.len() == us@.len(),
                        report_unknown(st0, span, uv.take(j as int)) == self.view(),
                    decreases us@.len() - j,
                {
                    assert(uv.take(j + 1).drop_last() =~= uv.take(j as int));
                    let m = quoted_string("unknown import '", us[j].as_str());
                    self.error(span, m);
                    j = j + 1;
                }
                assert(uv.take(j as int) =~= uv);
                let ghost s1 = self.view();
                proof {
                    lemma_typed_names(ls@);
                    lemma_typed_names(ts@);
                }
                let mut j: usize = 0;
                assert(lv.take(0) =~= Seq::<(Seq<char>, SpecType)>::empty());
                while j < ls.len()
                    invariant
                        j <= ls@.len(),
                        lv == typed_view(ls@),
                        lv.len() == ls@.len(),
                        define_locals_all(s1, lv) is Some,
                        define_locals_all(s1, lv.take(j as int)) == Some(self.view()),
                    decreases ls@.len() - j,
                {
                    proof {
                        lemma_define_locals_prefix(s1, lv, j + 1);
                        assert(lv.take(j + 1).drop_last() =~= lv.take(j as int));
                    }
                    self.scopes.define_local(ls[j].0.clone(), clone_type(&ls[j].1), false);
                    j = j + 1;
                }
                assert(lv.take(j as int) =~= lv);
                let ghost s2 = self.view();
                let mut j: usize = 0;
                assert(tv.take(0) =~= Seq::<(Seq<char>, SpecType)>::empty());
                while j < ts.len()
                    invariant
                        j <= ts@.len(),
                        tv == typed_view(ts@),
                        tv.len() == ts@.len(),
                        define_types_all(s2, tv) is Some,
                        define_types_all(s2, tv.take(j as int)) == Some(self.view()),
                    decreases ts@.len() - j,
                {
                    proof {
                        lemma_define_types_prefix(s2, tv, j + 1);
                        assert(tv.take(j + 1).drop_last() =~= tv.take(j as int));
                    }
                    self.scopes.define_type(ts[j].0.clone(), clone_type(&ts[j].1));
                    j = j + 1;
                }
                assert(tv.take(j as int) =~= tv);
            },
        }
    }

    /// The type of an identifier: its local (reported if moved), else the
    /// type it names, else unknown and reported.
    pub(crate) fn infer_identifier(&mut self, name: &str, span: Span) -> (r: Type)
        ensures
            infer_ident(old(self).view(), name@, span) == (type_view(r), final(self).view()),
    {
        let info: Option<(bool, Type)> = match self.scopes.resolve_local(name) {
            Some(l) => Some((l.moved, clone_type(&l.ty))),
            None => None,
        };
        match info {
            Some((moved, ty)) => {
                if moved {
                    let m = quoted_string("use of moved variable '", name);
                    self.error(span, m);
                }
                ty
            },
            None => {
                let ty_opt = match self.scopes.resolve_type(name) {
                    Some(t) => Some(clone_type(t)),
                    None => None,
                };
                match ty_opt {
                    Some(t) => t,
                    None => {
                        let m = quoted_string("undefined variable '", name);
                        self.error(span, m);
                        Type::Unknown
                    },
                }
            },
        }
    }

    /// The type of `self`: the type named by the current class, if any.
    pub(crate) fn infer_self_type(&self) -> (r: Type)
        ensures
            type_view(r) == infer_self(self.view()),
    {
        match &self.current_class {
            Some(n) => match self.scopes.resolve_type(n.as_str()) {
                Some(t) => clone_type(t),
                None => Type::Unknown,
            },
            None => Type::Unknown,
        }
    }

    /// Whether the class named `owner` is not the one being checked.
    fn is_outside(&self, owner: &str) -> (r: bool)
        ensures
            r == outside(self.view(), owner@),
    {
        match &self.current_class {
            Some(c) => !str_eq(c.as_str(), owner),
            None => true,
        }
    }

    /// The member `f` of a value of type `ot`.
    pub(crate) fn member_type(&mut self, ot: &Type, f: &str, span: Span) -> (r: Type)
        requires
            member_of(old(self).view(), type_view(*ot), f@, span) is Some,
        ensures
            member_of(old(self).view(), type_view(*ot), f@, span) == Some(
                (type_view(r), final(self).view()),
            ),
    {
        match ot {
            Type::Class(id) => {
                let c = self.type_arena.get_class(*id);
                let owner = c.name.clone();
                proof {
                    lemma_method_names(c.methods@);
                    lemma_index_from(str_names(c.methods@), f@, 0);
                    assert(self.view().classes[id.0 as int] == class_view(*c));
                }
                let field_hit: Option<(Type, bool)> = match find_field(&c.fields, f) {
                    Some(i) => Some((clone_type(&c.fields[i].1), c.fields[i].2)),
                    None => None,
                };
                let method_hit: Option<(FunctionType, bool)> = match find_name(&c.methods, f) {
                    Some(i) => Some((clone_function_type(&c.methods[i].1.2), c.methods[i].1.3)),
                    None => None,
                };
                let foreign = self.is_outside(owner.as_str());
                match field_hit {
                    Some((ty, is_pub)) => {
                        if !is_pub && foreign {
                            let m = quoted_twice("field '", f, " of '", owner.as_str(), " is private");
                            self.error(span, m);
                        }
                        return ty;
                    },
                    None => {},
                }
                match method_hit {
                    Some((fnty, is_pub)) => {
                        if !is_pub && foreign {
                            let m = quoted_twice(
                                "method '",
                                f,
                                " of '",
                                owner.as_str(),
                                " is private",
                            );
                            self.error(span, m);
                        }
                        return Type::Function(Box::new(fnty));
                    },
                    None => {},
                }
                let m = quoted_string("type has no member '", f);
                self.error(span, m);
                Type::Unknown
            },
            Type::Unknown => Type::Unknown,
            _ => {
                self.error(span, "attempt to index non-class value".to_owned());
                Type::Unknown
            },
        }
    }

    /// The method `m` of a value of type `ot`.
    pub(crate) fn method_type(&mut self, ot: &Type, m: &str, span: Span) -> (r: Type)
        requires
            method_of(old(self).view(), type_view(*ot), m@, span) is Some,
        ensures
            method_of(old(self).view(), type_view(*ot), m@, span) == Some(
                (type_view(r), final(self).view()),
            ),
    {
        match ot {
            Type::Class(id) => {
                let c = self.type_arena.get_class(*id);
                let owner = c.name.clone();
                proof {
                    lemma_method_names(c.methods@);
                    lemma_index_from(str_names(c.methods@), m@, 0);
                    assert(self.view().classes[id.0 as int] == class_view(*c));
                }
                let hit: Option<(FunctionType, bool)> = match find_name(&c.methods, m) {
                    Some(i) => Some((clone_function_type(&c.methods[i].1.2), c.methods[i].1.3)),
                    None => None,
                };
                let foreign = self.is_outside(owner.as_str());
                match hit {
                    Some((fnty, is_pub)) => {
                        if !is_pub && foreign {
                            let msg = quoted_twice(
                                "method '",
                                m,
                                " of '",
                                owner.as_str(),
                                " is private",
                            );
                            self.error(span, msg);
                        }
                        Type::Function(Box::new(fnty))
                    },
                    None => {
                        let msg = quoted_string("unknown method '", m);
                        self.error(span, msg);
                        Type::Unknown
                    },
                }
            },
            Type::Unknown => Type::Unknown,
            _ => {
                self.error(span, "attempt to call method on non-class".to_owned());
                Type::Unknown
            },
        }
    }

    /// The overload of `op` in the class that the type under `lt` (else
    /// under `rt`) names, if any.
    pub(crate) fn find_overload(&self, lt: &Type, rt: &Type, op: &Operator) -> (r: Option<
        FunctionType,
    >)
        requires
            overload_of(self.view(), type_view(*lt), type_view(*rt), *op) is Some,
        ensures
            overload_of(self.view(), type_view(*lt), type_view(*rt), *op) == Some(
                match r {
                    Some(f) => Some(fn_type_view(f)),
                    None => None,
                },
            ),
    {
        proof {
            assert(type_view(*lt.spec_inner()) == inner_of(type_view(*lt)));
            assert(type_view(*rt.spec_inner()) == inner_of(type_view(*rt)));
        }
        let id_opt: Option<TypeId> = match lt.inner() {
            Type::Class(id) => Some(*id),
            _ => match rt.inner() {
                Type::Class(id) => Some(*id),
                _ => None,
            },
        };
        match id_opt {
            None => None,
            Some(id) => {
                let c = self.type_arena.get_class(id);
                proof {
                    assert(self.view().classes[id.0 as int] == class_view(*c));
                }
                match find_operator(&c.operators, *op) {
                    Some(i) => Some(clone_function_type(&c.operators[i].1.1)),
                    None => None,
                }
            },
        }
    }

    /// Checks an argument of type `at` against its parameter type.
    pub(crate) fn check_arg(&mut self, arg: &SAst, at: &Type, param: &Type)
        ensures
            final(self).view() == arg_check(
                old(self).view(),
                *arg,
                type_view(*at),
                type_view(*param),
            ),
    {
        let pm = match param {
            Type::Qualified { moved, .. } => *moved,
            _ => false,
        };
        let pb = match param {
            Type::Qualified { borrowed, .. } => *borrowed,
            _ => false,
        };
        if pm {
            match &arg.node {
                AstNode::Identifier(n) => {
                    let am = match at {
                        Type::Qualified { moved, .. } => *moved,
                        _ => false,
                    };
                    if !am {
                        let mut out: Vec<char> = Vec::new();
                        push_str(&mut out, "variable '");
                        push_str(&mut out, n.as_str());
                        push_str(&mut out, "'");
                        push_str(&mut out, " must be explicitly moved (use '->");
                        push_str(&mut out, n.as_str());
                        push_str(&mut out, "')");
                        assert(out@ =~= quoted("variable '"@, n@)
                            + " must be explicitly moved (use '->"@ + n@ + "')"@);
                        let m = string_from_chars(&out);
                        self.error(arg.span, m);
                    }
                },
                _ => {},
            }
        } else if pb {
            match &arg.node {
                AstNode::Identifier(n) => {
                    let ab = match at {
                        Type::Qualified { borrowed, .. } => *borrowed,
                        _ => false,
                    };
                    if !ab {
                        let mut out: Vec<char> = Vec::new();
                        push_str(&mut out, "variable '");
                        push_str(&mut out, n.as_str());
                        push_str(&mut out, "'");
                        push_str(&mut out, " must be explicitly borrowed (use '&");
                        push_str(&mut out, n.as_str());
                        push_str(&mut out, "')");
                        assert(out@ =~= quoted("variable '"@, n@)
                            + " must be explicitly borrowed (use '&"@ + n@ + "')"@);
                        let m = string_from_chars(&out);
                        self.error(arg.span, m);
                    }
                },
                _ => {},
            }
        } else {
            self.assert_assignable(param, at, arg.span);
        }
    }
}

} // verus!
