//! A checker whose types name only classes it has, and that has a scope
//! open, never stops: inferring the type of any expression, or checking any
//! statement whose classes still get ids that fit in a `usize`, goes through
//! and leaves it that way.
use vstd::prelude::*;
use crate::ty::{SpecType, SpecFnType, SpecClass, type_view, builtin_type};
use crate::scopes::{
    SpecScope, SpecLocal, SpecNamespace, alist_get, alist_set, first_index, names, index_from,
    lemma_index_from, empty_scope, resolve_local_in, resolve_type_in, resolve_namespace_in,
    mark_moved_in, define_local_in, define_type_in, define_namespace_in,
};
use crate::span::Span;
use crate::parser::{AstNode, SAst, TypeNode, BindingNode, MatchPattern, MatchArm, ClassMember};
use crate::tc_spec::{
    TcState, compile_type_in, compile_types_in, param_type_in, fn_type_in, named_params,
    define_params, tc_params, inner_of, walk_path, namespace_at, path_parts, push_scope,
    pop_scope, def_local, def_type, collect_members, with_error, assignable, arg_check,
    report_unknown, define_locals_all, define_types_all, use_split, tc_use, infer_ident,
    infer_self, member_of, method_of, overload_of, arith_result, tc_infer, tc_moved, tc_binop,
    tc_dot, tc_method_call, tc_class_literal, lit_fields, tc_call, call_pairs, tc_stmts, tc_stmt,
    tc_var_decl, tc_assign, tc_fn_decl, tc_cond, tc_while, tc_for, tc_match, tc_arms, tc_return,
    tc_binop_stmt, tc_class, class_bodies,
};
use crate::tc_laws::{
    state_after, type_after, keeps, adds, lemma_stmts_keeps, lemma_arms_keeps,
    lemma_class_bodies_adds, lemma_stmt_keeps,
};

verus! {

/// Every class a type names is one of the first `n`.
pub open spec fn type_ok(t: SpecType, n: nat) -> bool
    decreases t,
{
    match t {
        SpecType::Array(i) => type_ok(*i, n),
        SpecType::Generic { args, .. } => types_ok(args, n),
        SpecType::Qualified { inner, .. } => type_ok(*inner, n),
        SpecType::Class(id) => id < n,
        SpecType::Function(f) => types_ok(f.params, n) && type_ok(*f.ret, n),
        _ => true,
    }
}

pub open spec fn types_ok(ts: Seq<SpecType>, n: nat) -> bool
    decreases ts,
{
    if ts.len() == 0 {
        true
    } else {
        types_ok(ts.drop_last(), n) && type_ok(ts.last(), n)
    }
}

pub open spec fn fn_ok(f: SpecFnType, n: nat) -> bool {
    types_ok(f.params, n) && type_ok(*f.ret, n)
}

pub open spec fn typed_ok(s: Seq<(Seq<char>, SpecType)>, n: nat) -> bool {
    forall|i: int| 0 <= i < s.len() ==> type_ok(#[trigger] s[i].1, n)
}

pub open spec fn locals_ok(s: Seq<(Seq<char>, SpecLocal)>, n: nat) -> bool {
    forall|i: int| 0 <= i < s.len() ==> type_ok(#[trigger] s[i].1.ty, n)
}

pub open spec fn ns_ok(ns: SpecNamespace, n: nat) -> bool
    decreases ns,
{
    typed_ok(ns.locals, n) && typed_ok(ns.types, n) && children_ok(ns.children, n)
}

pub open spec fn children_ok(cs: Seq<(Seq<char>, SpecNamespace)>, n: nat) -> bool
    decreases cs,
{
    if cs.len() == 0 {
        true
    } else {
        children_ok(cs.drop_last(), n) && ns_ok(cs.last().1, n)
    }
}

pub open spec fn scope_ok(sc: SpecScope, n: nat) -> bool {
    locals_ok(sc.locals, n) && typed_ok(sc.types, n) && children_ok(sc.namespaces, n)
}

pub open spec fn scopes_ok(ss: Seq<SpecScope>, n: nat) -> bool {
    forall|i: int| 0 <= i < ss.len() ==> scope_ok(#[trigger] ss[i], n)
}

pub open spec fn class_ok(c: SpecClass, n: nat) -> bool {
    &&& forall|i: int| 0 <= i < c.fields.len() ==> type_ok(#[trigger] c.fields[i].1, n)
    &&& forall|i: int| 0 <= i < c.methods.len() ==> fn_ok(#[trigger] c.methods[i].1.2, n)
    &&& forall|i: int| 0 <= i < c.operators.len() ==> fn_ok(#[trigger] c.operators[i].1.1, n)
}

pub open spec fn classes_ok(cs: Seq<SpecClass>, n: nat) -> bool {
    forall|i: int| 0 <= i < cs.len() ==> class_ok(#[trigger] cs[i], n)
}

/// A scope is open, and every type in the scopes, the classes and the
/// return type names only classes the checker has.
pub open spec fn tc_wf(st: TcState) -> bool {
    &&& st.scopes.len() >= 1
    &&& scopes_ok(st.scopes, st.classes.len())
    &&& classes_ok(st.classes, st.classes.len())
    &&& type_ok(st.ret, st.classes.len())
}

/// How many class definitions a statement holds, nested ones included:
/// checking it adds at most that many classes.
pub open spec fn class_defs(s: SAst) -> nat
    decreases s, 3int,
{
    match s.node {
        AstNode::Program(stmts) => defs_in(stmts@, stmts@.len()),
        AstNode::Public(inner) => class_defs(*inner),
        AstNode::FunctionDeclaration { body, .. } => defs_in(body@, body@.len()),
        AstNode::ClassDefinition { members, .. } => 1 + member_defs(members@, members@.len()),
        AstNode::ConditionalBranch { body, next, .. } => defs_in(body@, body@.len()) + match next {
            Some(nx) => class_defs(*nx),
            None => 0,
        },
        AstNode::WhileLoop { body, .. } => defs_in(body@, body@.len()),
        AstNode::ForLoop { body, .. } => defs_in(body@, body@.len()),
        AstNode::MatchStmt { arms, .. } => arm_defs(arms@, arms@.len()),
        _ => 0,
    }
}

/// The class definitions in the first `n` statements.
pub open spec fn defs_in(ss: Seq<SAst>, n: nat) -> nat
    decreases ss, n,
{
    if n == 0 || n > ss.len() {
        0
    } else {
        defs_in(ss, (n - 1) as nat) + class_defs(ss[n - 1])
    }
}

/// The class definitions in the bodies of the first `n` arms.
pub open spec fn arm_defs(arms: Seq<MatchArm>, n: nat) -> nat
    decreases arms, n,
{
    if n == 0 || n > arms.len() {
        0
    } else {
        arm_defs(arms, (n - 1) as nat) + defs_in(arms[n - 1].body@, arms[n - 1].body@.len())
    }
}

/// The class definitions in the bodies of the first `n` members.
pub open spec fn member_defs(ms: Seq<ClassMember>, n: nat) -> nat
    decreases ms, n,
{
    if n == 0 || n > ms.len() {
        0
    } else {
        member_defs(ms, (n - 1) as nat) + match ms[n - 1] {
            ClassMember::Method { body, .. } => defs_in(body@, body@.len()),
            ClassMember::OperatorOverload { body, .. } => defs_in(body@, body@.len()),
            _ => 0,
        }
    }
}

pub proof fn lemma_types_ok_index(ts: Seq<SpecType>, n: nat)
    ensures
        types_ok(ts, n) <==> (forall|i: int| 0 <= i < ts.len() ==> type_ok(#[trigger] ts[i], n)),
    decreases ts.len(),
{
    if ts.len() > 0 {
        lemma_types_ok_index(ts.drop_last(), n);
        if forall|i: int| 0 <= i < ts.len() ==> type_ok(#[trigger] ts[i], n) {
            assert forall|i: int| 0 <= i < ts.drop_last().len() implies type_ok(
                #[trigger] ts.drop_last()[i],
                n,
            ) by {
                assert(ts.drop_last()[i] == ts[i]);
            }
        }
        if types_ok(ts, n) {
            assert forall|i: int| 0 <= i < ts.len() implies type_ok(#[trigger] ts[i], n) by {
                if i < ts.len() - 1 {
                    assert(ts.drop_last()[i] == ts[i]);
                }
            }
        }
    }
}

/// A type that names only the first `n` classes names only the first `m`,
/// for `m` at least `n`.
pub proof fn lemma_type_ok_mono(t: SpecType, n: nat, m: nat)
    requires
        n <= m,
        type_ok(t, n),
    ensures
        type_ok(t, m),
    decreases t,
{
    match t {
        SpecType::Array(i) => lemma_type_ok_mono(*i, n, m),
        SpecType::Generic { args, .. } => lemma_types_ok_mono(args, n, m),
        SpecType::Qualified { inner, .. } => lemma_type_ok_mono(*inner, n, m),
        SpecType::Function(f) => {
            lemma_types_ok_mono(f.params, n, m);
            lemma_type_ok_mono(*f.ret, n, m);
        },
        _ => {},
    }
}

pub proof fn lemma_types_ok_mono(ts: Seq<SpecType>, n: nat, m: nat)
    requires
        n <= m,
        types_ok(ts, n),
    ensures
        types_ok(ts, m),
    decreases ts,
{
    if ts.len() > 0 {
        lemma_types_ok_mono(ts.drop_last(), n, m);
        lemma_type_ok_mono(ts.last(), n, m);
    }
}

pub proof fn lemma_typed_ok_mono(s: Seq<(Seq<char>, SpecType)>, n: nat, m: nat)
    requires
        n <= m,
        typed_ok(s, n),
    ensures
        typed_ok(s, m),
{
    assert forall|i: int| 0 <= i < s.len() implies type_ok(#[trigger] s[i].1, m) by {
        lemma_type_ok_mono(s[i].1, n, m);
    }
}

pub proof fn lemma_ns_ok_mono(ns: SpecNamespace, n: nat, m: nat)
    requires
        n <= m,
        ns_ok(ns, n),
    ensures
        ns_ok(ns, m),
    decreases ns,
{
    lemma_typed_ok_mono(ns.locals, n, m);
    lemma_typed_ok_mono(ns.types, n, m);
    lemma_children_ok_mono(ns.children, n, m);
}

pub proof fn lemma_children_ok_mono(cs: Seq<(Seq<char>, SpecNamespace)>, n: nat, m: nat)
    requires
        n <= m,
        children_ok(cs, n),
    ensures
        children_ok(cs, m),
    decreases cs,
{
    if cs.len() > 0 {
        lemma_children_ok_mono(cs.drop_last(), n, m);
        lemma_ns_ok_mono(cs.last().1, n, m);
    }
}

pub proof fn lemma_scopes_ok_mono(ss: Seq<SpecScope>, n: nat, m: nat)
    requires
        n <= m,
        scopes_ok(ss, n),
    ensures
        scopes_ok(ss, m),
{
    assert forall|i: int| 0 <= i < ss.len() implies scope_ok(#[trigger] ss[i], m) by {
        let sc = ss[i];
        assert(scope_ok(sc, n));
        assert forall|j: int| 0 <= j < sc.locals.len() implies type_ok(#[trigger] sc.locals[j].1.ty, m) by {
            lemma_type_ok_mono(sc.locals[j].1.ty, n, m);
        }
        lemma_typed_ok_mono(sc.types, n, m);
        lemma_children_ok_mono(sc.namespaces, n, m);
    }
}

pub proof fn lemma_fn_ok_mono(f: SpecFnType, n: nat, m: nat)
    requires
        n <= m,
        fn_ok(f, n),
    ensures
        fn_ok(f, m),
{
    lemma_types_ok_mono(f.params, n, m);
    lemma_type_ok_mono(*f.ret, n, m);
}

pub proof fn lemma_classes_ok_mono(cs: Seq<SpecClass>, n: nat, m: nat)
    requires
        n <= m,
        classes_ok(cs, n),
    ensures
        classes_ok(cs, m),
{
    assert forall|i: int| 0 <= i < cs.len() implies class_ok(#[trigger] cs[i], m) by {
        let c = cs[i];
        assert(class_ok(c, n));
        assert forall|j: int| 0 <= j < c.fields.len() implies type_ok(#[trigger] c.fields[j].1, m) by {
            lemma_type_ok_mono(c.fields[j].1, n, m);
        }
        assert forall|j: int| 0 <= j < c.methods.len() implies fn_ok(#[trigger] c.methods[j].1.2, m) by {
            lemma_fn_ok_mono(c.methods[j].1.2, n, m);
        }
        assert forall|j: int| 0 <= j < c.operators.len() implies fn_ok(#[trigger] c.operators[j].1.1, m) by {
            lemma_fn_ok_mono(c.operators[j].1.1, n, m);
        }
    }
}

/// The entries of a list after setting a name are the old ones and the new
/// one.
pub proof fn lemma_alist_set_entries<V>(s: Seq<(Seq<char>, V)>, k: Seq<char>, v: V)
    ensures
        forall|i: int|
            0 <= i < alist_set(s, k, v).len() ==> #[trigger] alist_set(s, k, v)[i] == (k, v) || (
            i < s.len() && alist_set(s, k, v)[i] == s[i]),
{
}

/// Setting a name, then reading it, gives what was set.
pub proof fn lemma_alist_set_get<V>(s: Seq<(Seq<char>, V)>, k: Seq<char>, v: V)
    ensures
        alist_get(alist_set(s, k, v), k) == Some(v),
{
    let keys = names(s);
    lemma_index_from(keys, k, 0);
    let i = first_index(keys, k);
    let t = alist_set(s, k, v);
    let keys2 = names(t);
    lemma_index_from(keys2, k, 0);
    if 0 <= i < s.len() {
        assert(keys2 =~= keys);
    } else {
        assert(keys2 =~= keys.push(k));
        assert(keys2[s.len() as int] == k);
    }
}

/// Setting a name keeps every name that was there.
pub proof fn lemma_alist_set_keeps<V>(s: Seq<(Seq<char>, V)>, k: Seq<char>, v: V, k2: Seq<char>)
    requires
        alist_get(s, k2) is Some,
    ensures
        alist_get(alist_set(s, k, v), k2) is Some,
{
    let keys = names(s);
    lemma_index_from(keys, k, 0);
    lemma_index_from(keys, k2, 0);
    let i = first_index(keys, k);
    let t = alist_set(s, k, v);
    let keys2 = names(t);
    lemma_index_from(keys2, k2, 0);
    let j = first_index(keys, k2);
    if 0 <= i < s.len() {
        assert(keys2 =~= keys);
    } else {
        assert(keys2 =~= keys.push(k));
        assert(keys2[j] == k2);
    }
}

pub proof fn lemma_typed_set_ok(s: Seq<(Seq<char>, SpecType)>, k: Seq<char>, t: SpecType, n: nat)
    requires
        typed_ok(s, n),
        type_ok(t, n),
    ensures
        typed_ok(alist_set(s, k, t), n),
{
    lemma_alist_set_entries(s, k, t);
}

pub proof fn lemma_typed_get_ok(s: Seq<(Seq<char>, SpecType)>, k: Seq<char>, n: nat)
    requires
        typed_ok(s, n),
        alist_get(s, k) is Some,
    ensures
        type_ok(alist_get(s, k)->0, n),
{
    let i = first_index(names(s), k);
    assert(type_ok(s[i].1, n));
}

pub proof fn lemma_children_index(cs: Seq<(Seq<char>, SpecNamespace)>, n: nat)
    requires
        children_ok(cs, n),
    ensures
        forall|i: int| 0 <= i < cs.len() ==> ns_ok(#[trigger] cs[i].1, n),
    decreases cs.len(),
{
    if cs.len() > 0 {
        lemma_children_index(cs.drop_last(), n);
        assert forall|i: int| 0 <= i < cs.len() implies ns_ok(#[trigger] cs[i].1, n) by {
            if i < cs.len() - 1 {
                assert(cs.drop_last()[i] == cs[i]);
            }
        }
    }
}

pub proof fn lemma_children_set_ok(
    cs: Seq<(Seq<char>, SpecNamespace)>,
    k: Seq<char>,
    ns: SpecNamespace,
    n: nat,
)
    requires
        children_ok(cs, n),
        ns_ok(ns, n),
    ensures
        children_ok(alist_set(cs, k, ns), n),
{
    lemma_children_index(cs, n);
    lemma_alist_set_entries(cs, k, ns);
    lemma_children_from_index(alist_set(cs, k, ns), n);
}

pub proof fn lemma_children_from_index(cs: Seq<(Seq<char>, SpecNamespace)>, n: nat)
    requires
        forall|i: int| 0 <= i < cs.len() ==> ns_ok(#[trigger] cs[i].1, n),
    ensures
        children_ok(cs, n),
    decreases cs.len(),
{
    if cs.len() > 0 {
        assert forall|i: int| 0 <= i < cs.drop_last().len() implies ns_ok(#[trigger] cs.drop_last()[i].1, n) by {
            assert(cs.drop_last()[i] == cs[i]);
        }
        lemma_children_from_index(cs.drop_last(), n);
        assert(ns_ok(cs[cs.len() - 1].1, n));
    }
}

pub proof fn lemma_resolve_local_ok(scopes: Seq<SpecScope>, name: Seq<char>, n: nat)
    requires
        scopes_ok(scopes, n),
        resolve_local_in(scopes, name) is Some,
    ensures
        type_ok(resolve_local_in(scopes, name)->0.ty, n),
    decreases scopes.len(),
{
    let top = scopes.last();
    assert(scope_ok(scopes[scopes.len() - 1], n));
    match alist_get(top.locals, name) {
        Some(l) => {
            let i = first_index(names(top.locals), name);
            assert(type_ok(top.locals[i].1.ty, n));
        },
        None => {
            assert forall|i: int| 0 <= i < scopes.drop_last().len() implies scope_ok(#[trigger] scopes.drop_last()[i], n) by {
                assert(scopes.drop_last()[i] == scopes[i]);
            }
            lemma_resolve_local_ok(scopes.drop_last(), name, n);
        },
    }
}

pub proof fn lemma_resolve_type_ok(scopes: Seq<SpecScope>, name: Seq<char>, n: nat)
    requires
        scopes_ok(scopes, n),
        resolve_type_in(scopes, name) is Some,
    ensures
        type_ok(resolve_type_in(scopes, name)->0, n),
    decreases scopes.len(),
{
    let top = scopes.last();
    assert(scope_ok(scopes[scopes.len() - 1], n));
    match alist_get(top.types, name) {
        Some(t) => {
            lemma_typed_get_ok(top.types, name, n);
        },
        None => {
            assert forall|i: int| 0 <= i < scopes.drop_last().len() implies scope_ok(#[trigger] scopes.drop_last()[i], n) by {
                assert(scopes.drop_last()[i] == scopes[i]);
            }
            lemma_resolve_type_ok(scopes.drop_last(), name, n);
        },
    }
}

pub proof fn lemma_resolve_namespace_ok(scopes: Seq<SpecScope>, name: Seq<char>, n: nat)
    requires
        scopes_ok(scopes, n),
        resolve_namespace_in(scopes, name) is Some,
    ensures
        ns_ok(resolve_namespace_in(scopes, name)->0, n),
    decreases scopes.len(),
{
    let top = scopes.last();
    assert(scope_ok(scopes[scopes.len() - 1], n));
    match alist_get(top.namespaces, name) {
        Some(ns) => {
            lemma_children_index(top.namespaces, n);
            let i = first_index(names(top.namespaces), name);
            assert(ns_ok(top.namespaces[i].1, n));
        },
        None => {
            assert forall|i: int| 0 <= i < scopes.drop_last().len() implies scope_ok(#[trigger] scopes.drop_last()[i], n) by {
                assert(scopes.drop_last()[i] == scopes[i]);
            }
            lemma_resolve_namespace_ok(scopes.drop_last(), name, n);
        },
    }
}

pub proof fn lemma_walk_path_ok(scopes: Seq<SpecScope>, parts: Seq<Seq<char>>, n: nat)
    requires
        scopes_ok(scopes, n),
        walk_path(scopes, parts) is Some,
    ensures
        ns_ok(walk_path(scopes, parts)->0, n),
    decreases parts.len(),
{
    if parts.len() == 1 {
        lemma_resolve_namespace_ok(scopes, parts[0], n);
    } else if parts.len() > 1 {
        lemma_walk_path_ok(scopes, parts.drop_last(), n);
        let ns = walk_path(scopes, parts.drop_last())->0;
        lemma_children_index(ns.children, n);
        let i = first_index(names(ns.children), parts.last());
        assert(ns_ok(ns.children[i].1, n));
    }
}

pub proof fn lemma_namespace_at_ok(scopes: Seq<SpecScope>, node: crate::parser::AstNode, n: nat)
    requires
        scopes_ok(scopes, n),
        namespace_at(scopes, node) is Some,
    ensures
        ns_ok(namespace_at(scopes, node)->0, n),
{
    lemma_walk_path_ok(scopes, path_parts(node)->0, n);
}

/// Defining a local of a good type keeps the scopes good.
pub proof fn lemma_define_local_ok(scopes: Seq<SpecScope>, name: Seq<char>, l: SpecLocal, n: nat)
    requires
        scopes.len() >= 1,
        scopes_ok(scopes, n),
        type_ok(l.ty, n),
    ensures
        scopes_ok(define_local_in(scopes, name, l), n),
{
    let top = scopes.last();
    assert(scope_ok(scopes[scopes.len() - 1], n));
    lemma_alist_set_entries(top.locals, name, l);
}

pub proof fn lemma_define_type_ok(scopes: Seq<SpecScope>, name: Seq<char>, t: SpecType, n: nat)
    requires
        scopes.len() >= 1,
        scopes_ok(scopes, n),
        type_ok(t, n),
    ensures
        scopes_ok(define_type_in(scopes, name, t), n),
{
    let top = scopes.last();
    assert(scope_ok(scopes[scopes.len() - 1], n));
    lemma_typed_set_ok(top.types, name, t, n);
}

/// Defining a namespace whose types are good keeps the scopes good.
pub proof fn lemma_define_namespace_ok(
    scopes: Seq<SpecScope>,
    name: Seq<char>,
    ns: SpecNamespace,
    n: nat,
)
    requires
        scopes.len() >= 1,
        scopes_ok(scopes, n),
        ns_ok(ns, n),
    ensures
        scopes_ok(define_namespace_in(scopes, name, ns), n),
{
    let top = scopes.last();
    assert(scope_ok(scopes[scopes.len() - 1], n));
    lemma_children_set_ok(top.namespaces, name, ns, n);
}

pub proof fn lemma_mark_moved_ok(scopes: Seq<SpecScope>, name: Seq<char>, n: nat)
    requires
        scopes_ok(scopes, n),
    ensures
        scopes_ok(mark_moved_in(scopes, name), n),
    decreases scopes.len(),
{
    if scopes.len() > 0 {
        let top = scopes.last();
        assert(scope_ok(scopes[scopes.len() - 1], n));
        match alist_get(top.locals, name) {
            Some(l) => {
                let i = first_index(names(top.locals), name);
                assert(type_ok(top.locals[i].1.ty, n));
                lemma_alist_set_entries(top.locals, name, SpecLocal { ty: l.ty, mutable: l.mutable, moved: true });
            },
            None => {
                assert forall|i: int| 0 <= i < scopes.drop_last().len() implies scope_ok(#[trigger] scopes.drop_last()[i], n) by {
                    assert(scopes.drop_last()[i] == scopes[i]);
                }
                lemma_mark_moved_ok(scopes.drop_last(), name, n);
                let r = mark_moved_in(scopes.drop_last(), name);
                assert forall|i: int| 0 <= i < r.push(top).len() implies scope_ok(#[trigger] r.push(top)[i], n) by {
                    if i < r.len() {
                        assert(r.push(top)[i] == r[i]);
                    }
                }
            },
        }
    }
}

pub proof fn lemma_push_ok(st: TcState)
    requires
        scopes_ok(st.scopes, st.classes.len()),
    ensures
        scopes_ok(push_scope(st).scopes, st.classes.len()),
        push_scope(st).scopes.len() == st.scopes.len() + 1,
{
    let e = empty_scope();
    assert(scope_ok(e, st.classes.len())) by {
        assert(children_ok(e.namespaces, st.classes.len()));
    }
    let ss = st.scopes.push(e);
    assert forall|i: int| 0 <= i < ss.len() implies scope_ok(#[trigger] ss[i], st.classes.len()) by {
        if i < st.scopes.len() {
            assert(ss[i] == st.scopes[i]);
        }
    }
}

pub proof fn lemma_pop_ok(st: TcState)
    requires
        scopes_ok(st.scopes, st.classes.len()),
    ensures
        scopes_ok(pop_scope(st).scopes, st.classes.len()),
{
    if st.scopes.len() > 0 {
        let ss = st.scopes.drop_last();
        assert forall|i: int| 0 <= i < ss.len() implies scope_ok(#[trigger] ss[i], st.classes.len()) by {
            assert(ss[i] == st.scopes[i]);
        }
    }
}

/// A type annotation compiled in good scopes is good.
pub proof fn lemma_compile_ok(scopes: Seq<SpecScope>, node: TypeNode, n: nat)
    requires
        scopes_ok(scopes, n),
    ensures
        type_ok(compile_type_in(scopes, node), n),
    decreases node,
{
    match node {
        TypeNode::ArrayType { elem_type } => lemma_compile_ok(scopes, *elem_type, n),
        TypeNode::Qualified { inner, .. } => lemma_compile_ok(scopes, *inner, n),
        TypeNode::NominalType { name, generics } => {
            match builtin_type(name@) {
                Some(t) => {},
                None => match resolve_type_in(scopes, name@) {
                    Some(t) => lemma_resolve_type_ok(scopes, name@, n),
                    None => lemma_compile_types_ok(scopes, generics@, n),
                },
            }
        },
        _ => {},
    }
}

pub proof fn lemma_compile_types_ok(scopes: Seq<SpecScope>, gs: Seq<TypeNode>, n: nat)
    requires
        scopes_ok(scopes, n),
    ensures
        types_ok(compile_types_in(scopes, gs), n),
    decreases gs,
{
    if gs.len() > 0 {
        lemma_compile_types_ok(scopes, gs.drop_last(), n);
        lemma_compile_ok(scopes, gs.last(), n);
        let r = compile_types_in(scopes, gs);
        assert(r.drop_last() =~= compile_types_in(scopes, gs.drop_last()));
    }
}

pub proof fn lemma_fn_type_ok(scopes: Seq<SpecScope>, params: Seq<BindingNode>, ret: TypeNode, n: nat)
    requires
        scopes_ok(scopes, n),
    ensures
        fn_ok(fn_type_in(scopes, params, ret), n),
{
    let f = fn_type_in(scopes, params, ret);
    assert forall|i: int| 0 <= i < f.params.len() implies type_ok(#[trigger] f.params[i], n) by {
        match params[i] {
            BindingNode::IdentifierBinding { ty, .. } => lemma_compile_ok(scopes, ty, n),
            _ => {},
        }
    }
    lemma_types_ok_index(f.params, n);
    lemma_compile_ok(scopes, ret, n);
}

pub proof fn lemma_named_params_ok(scopes: Seq<SpecScope>, ps: Seq<BindingNode>, n: nat)
    requires
        scopes_ok(scopes, n),
    ensures
        typed_ok(named_params(scopes, ps), n),
    decreases ps.len(),
{
    if ps.len() > 0 {
        lemma_named_params_ok(scopes, ps.drop_last(), n);
        match ps.last() {
            BindingNode::IdentifierBinding { name, ty } => {
                lemma_compile_ok(scopes, ty, n);
            },
            _ => {},
        }
    }
}

/// Defining good parameters in a good state with a scope open goes through
/// and keeps it good.
pub proof fn lemma_define_params_ok(st: TcState, ps: Seq<(Seq<char>, SpecType)>)
    requires
        tc_wf(st),
        typed_ok(ps, st.classes.len()),
    ensures
        define_params(st, ps) is Some,
        tc_wf(define_params(st, ps)->0),
        define_params(st, ps)->0.classes == st.classes,
    decreases ps.len(),
{
    if ps.len() > 0 {
        lemma_define_params_ok(st, ps.drop_last());
        let s1 = define_params(st, ps.drop_last())->0;
        assert(type_ok(ps[ps.len() - 1].1, st.classes.len()));
        crate::tc_laws::lemma_define_params(st, ps.drop_last());
        lemma_define_local_ok(
            s1.scopes,
            ps.last().0,
            SpecLocal { ty: ps.last().1, mutable: false, moved: false },
            st.classes.len(),
        );
    }
}

pub proof fn lemma_tc_params_ok(st: TcState, ps: Seq<BindingNode>)
    requires
        tc_wf(st),
    ensures
        tc_params(st, ps) is Some,
        tc_wf(tc_params(st, ps)->0),
        tc_params(st, ps)->0.classes == st.classes,
{
    lemma_named_params_ok(st.scopes, ps, st.classes.len());
    lemma_define_params_ok(st, named_params(st.scopes, ps));
}


/// The scopes, classes, return type and current class of `b` are those of `a`.
pub open spec fn same_state(a: TcState, b: TcState) -> bool {
    &&& b.scopes == a.scopes
    &&& b.classes == a.classes
    &&& b.ret == a.ret
    &&& b.current_class == a.current_class
}

pub proof fn lemma_assignable_same(st: TcState, lhs: SpecType, rhs: SpecType, span: Span)
    ensures
        same_state(st, assignable(st, lhs, rhs, span)),
    decreases lhs,
{
    match lhs {
        SpecType::Qualified { inner: li, .. } => {
            match rhs {
                SpecType::Qualified { inner: ri, .. } => {
                    lemma_assignable_same(st, *li, *ri, span);
                },
                _ => {},
            }
        },
        _ => {},
    }
}

pub proof fn lemma_report_unknown_same(st: TcState, span: Span, us: Seq<Seq<char>>)
    ensures
        same_state(st, report_unknown(st, span, us)),
    decreases us.len(),
{
    if us.len() > 0 {
        lemma_report_unknown_same(st, span, us.drop_last());
    }
}

pub proof fn lemma_inner_ok(t: SpecType, n: nat)
    requires
        type_ok(t, n),
    ensures
        type_ok(inner_of(t), n),
{
}

pub proof fn lemma_use_split_ok(ns: SpecNamespace, used: Seq<(String, String)>, n: nat)
    requires
        ns_ok(ns, n),
    ensures
        typed_ok(use_split(ns, used).0, n),
        typed_ok(use_split(ns, used).1, n),
    decreases used.len(),
{
    if used.len() > 0 {
        lemma_use_split_ok(ns, used.drop_last(), n);
        let actual = used.last().0@;
        if alist_get(ns.locals, actual) is Some {
            lemma_typed_get_ok(ns.locals, actual, n);
        } else if alist_get(ns.types, actual) is Some {
            lemma_typed_get_ok(ns.types, actual, n);
        }
    }
}

pub proof fn lemma_define_locals_all_ok(st: TcState, ls: Seq<(Seq<char>, SpecType)>)
    requires
        tc_wf(st),
        typed_ok(ls, st.classes.len()),
    ensures
        define_locals_all(st, ls) is Some,
        tc_wf(define_locals_all(st, ls)->0),
        define_locals_all(st, ls)->0.classes == st.classes,
    decreases ls.len(),
{
    if ls.len() > 0 {
        lemma_define_locals_all_ok(st, ls.drop_last());
        let s1 = define_locals_all(st, ls.drop_last())->0;
        crate::tc_laws::lemma_define_locals_all(st, ls.drop_last());
        assert(type_ok(ls[ls.len() - 1].1, st.classes.len()));
        lemma_define_local_ok(
            s1.scopes,
            ls.last().0,
            SpecLocal { ty: ls.last().1, mutable: false, moved: false },
            st.classes.len(),
        );
    }
}

pub proof fn lemma_define_types_all_ok(st: TcState, ts: Seq<(Seq<char>, SpecType)>)
    requires
        tc_wf(st),
        typed_ok(ts, st.classes.len()),
    ensures
        define_types_all(st, ts) is Some,
        tc_wf(define_types_all(st, ts)->0),
        define_types_all(st, ts)->0.classes == st.classes,
    decreases ts.len(),
{
    if ts.len() > 0 {
        lemma_define_types_all_ok(st, ts.drop_last());
        let s1 = define_types_all(st, ts.drop_last())->0;
        crate::tc_laws::lemma_define_types_all(st, ts.drop_last());
        assert(type_ok(ts[ts.len() - 1].1, st.classes.len()));
        lemma_define_type_ok(s1.scopes, ts.last().0, ts.last().1, st.classes.len());
    }
}

pub proof fn lemma_use_ok(st: TcState, base: AstNode, used: Seq<(String, String)>, span: Span)
    requires
        tc_wf(st),
    ensures
        tc_use(st, base, used, span) is Some,
        tc_wf(tc_use(st, base, used, span)->0),
        tc_use(st, base, used, span)->0.classes == st.classes,
{
    match namespace_at(st.scopes, base) {
        None => {},
        Some(ns) => {
            lemma_namespace_at_ok(st.scopes, base, st.classes.len());
            lemma_use_split_ok(ns, used, st.classes.len());
            let (ls, ts, us) = use_split(ns, used);
            lemma_report_unknown_same(st, span, us);
            let s0 = report_unknown(st, span, us);
            lemma_define_locals_all_ok(s0, ls);
            let s1 = define_locals_all(s0, ls)->0;
            lemma_define_types_all_ok(s1, ts);
        },
    }
}

pub proof fn lemma_member_ok(st: TcState, ot: SpecType, f: Seq<char>, span: Span)
    requires
        tc_wf(st),
        type_ok(ot, st.classes.len()),
    ensures
        member_of(st, ot, f, span) is Some,
        same_state(st, state_after(member_of(st, ot, f, span))),
        type_ok(type_after(member_of(st, ot, f, span)), st.classes.len()),
{
    match ot {
        SpecType::Class(id) => {
            let c = st.classes[id as int];
            assert(class_ok(c, st.classes.len()));
            let fi = first_index(crate::ty::field_names(c.fields), f);
            if 0 <= fi < c.fields.len() {
                assert(type_ok(c.fields[fi].1, st.classes.len()));
            } else if alist_get(c.methods, f) is Some {
                let i = first_index(names(c.methods), f);
                assert(fn_ok(c.methods[i].1.2, st.classes.len()));
            }
        },
        _ => {},
    }
}

pub proof fn lemma_method_ok(st: TcState, ot: SpecType, m: Seq<char>, span: Span)
    requires
        tc_wf(st),
        type_ok(ot, st.classes.len()),
    ensures
        method_of(st, ot, m, span) is Some,
        same_state(st, state_after(method_of(st, ot, m, span))),
        type_ok(type_after(method_of(st, ot, m, span)), st.classes.len()),
{
    match ot {
        SpecType::Class(id) => {
            let c = st.classes[id as int];
            assert(class_ok(c, st.classes.len()));
            if alist_get(c.methods, m) is Some {
                let i = first_index(names(c.methods), m);
                assert(fn_ok(c.methods[i].1.2, st.classes.len()));
            }
        },
        _ => {},
    }
}

pub proof fn lemma_overload_ok(st: TcState, lt: SpecType, rt: SpecType, op: crate::operator::Operator)
    requires
        tc_wf(st),
        type_ok(lt, st.classes.len()),
        type_ok(rt, st.classes.len()),
    ensures
        overload_of(st, lt, rt, op) is Some,
        overload_of(st, lt, rt, op)->0 matches Some(f) ==> fn_ok(f, st.classes.len()),
{
    lemma_inner_ok(lt, st.classes.len());
    lemma_inner_ok(rt, st.classes.len());
    let id_opt: Option<usize> = match inner_of(lt) {
        SpecType::Class(id) => Some(id),
        _ => match inner_of(rt) {
            SpecType::Class(id) => Some(id),
            _ => None,
        },
    };
    match id_opt {
        Some(id) => {
            let ops = st.classes[id as int].operators;
            assert(class_ok(st.classes[id as int], st.classes.len()));
            let i = crate::ty::op_index_from(ops, op, 0);
            if 0 <= i < ops.len() {
                assert(fn_ok(ops[i].1.1, st.classes.len()));
            }
        },
        None => {},
    }
}

/// Inferring the type of any expression in a good state goes through, keeps
/// the state good and its classes as they were, and gives a good type.
pub proof fn lemma_infer_ok(st: TcState, e: SAst)
    requires
        tc_wf(st),
    ensures
        tc_infer(st, e) is Some,
        tc_wf(state_after(tc_infer(st, e))),
        state_after(tc_infer(st, e)).classes == st.classes,
        type_ok(type_after(tc_infer(st, e)), st.classes.len()),
    decreases e, 3int,
{
    reveal(tc_infer);
    reveal(tc_moved);
    reveal(tc_binop);
    reveal(tc_call);
    reveal(tc_dot);
    reveal(tc_method_call);
    reveal(tc_class_literal);
    let n = st.classes.len();
    match e.node {
        AstNode::Identifier(name) => {
            match resolve_local_in(st.scopes, name@) {
                Some(l) => lemma_resolve_local_ok(st.scopes, name@, n),
                None => if resolve_type_in(st.scopes, name@) is Some {
                    lemma_resolve_type_ok(st.scopes, name@, n);
                },
            }
        },
        AstNode::SelfExpr => {
            match st.current_class {
                Some(c) => if resolve_type_in(st.scopes, c) is Some {
                    lemma_resolve_type_ok(st.scopes, c, n);
                },
                None => {},
            }
        },
        AstNode::Borrowed(inner) => lemma_infer_ok(st, *inner),
        AstNode::Moved(_) => lemma_moved_ok(st, e),
        AstNode::BinaryOperation { .. } => lemma_binop_ok(st, e),
        AstNode::FunctionCall { .. } => lemma_call_ok(st, e),
        AstNode::DotIndex { .. } => lemma_dot_ok(st, e),
        AstNode::MethodCall { .. } => lemma_method_call_ok(st, e),
        AstNode::ClassLiteral { .. } => lemma_class_literal_ok(st, e),
        AstNode::TypeCast { left, right } => {
            lemma_infer_ok(st, *left);
            let s1 = state_after(tc_infer(st, *left));
            lemma_compile_ok(s1.scopes, right, n);
        },
        AstNode::Typeof(inner) => lemma_infer_ok(st, *inner),
        _ => {},
    }
}

pub proof fn lemma_moved_ok(st: TcState, e: SAst)
    requires
        tc_wf(st),
    ensures
        tc_moved(st, e) is Some,
        tc_wf(state_after(tc_moved(st, e))),
        state_after(tc_moved(st, e)).classes == st.classes,
        type_ok(type_after(tc_moved(st, e)), st.classes.len()),
    decreases e, 2int,
{
    reveal(tc_moved);
    reveal(tc_infer);
    let n = st.classes.len();
    match e.node {
        AstNode::Moved(inner) => match inner.node {
            AstNode::Identifier(name) => {
                if resolve_local_in(st.scopes, name@) is Some {
                    lemma_resolve_local_ok(st.scopes, name@, n);
                    lemma_mark_moved_ok(st.scopes, name@, n);
                    crate::tc_laws::lemma_mark_moved_len(st.scopes, name@);
                }
            },
            _ => lemma_infer_ok(st, *inner),
        },
        _ => {},
    }
}

pub proof fn lemma_binop_ok(st: TcState, e: SAst)
    requires
        tc_wf(st),
    ensures
        tc_binop(st, e) is Some,
        tc_wf(state_after(tc_binop(st, e))),
        state_after(tc_binop(st, e)).classes == st.classes,
        type_ok(type_after(tc_binop(st, e)), st.classes.len()),
    decreases e, 2int,
{
    reveal(tc_binop);
    reveal(tc_infer);
    let n = st.classes.len();
    match e.node {
        AstNode::BinaryOperation { op, left, right } => {
            lemma_infer_ok(st, *left);
            let s1 = state_after(tc_infer(st, *left));
            let lt = type_after(tc_infer(st, *left));
            lemma_infer_ok(s1, *right);
            let s2 = state_after(tc_infer(s1, *right));
            let rt = type_after(tc_infer(s1, *right));
            lemma_overload_ok(s2, lt, rt, op);
            match overload_of(s2, lt, rt, op)->0 {
                Some(f) => {
                    lemma_types_ok_index(f.params, n);
                    if f.params.len() == 2 {
                        let s3 = assignable(s2, f.params[0], inner_of(lt), left.span);
                        lemma_assignable_same(s2, f.params[0], inner_of(lt), left.span);
                        lemma_assignable_same(s3, f.params[1], inner_of(rt), right.span);
                    }
                },
                None => {},
            }
        },
        _ => {},
    }
}

pub proof fn lemma_dot_ok(st: TcState, e: SAst)
    requires
        tc_wf(st),
    ensures
        tc_dot(st, e) is Some,
        tc_wf(state_after(tc_dot(st, e))),
        state_after(tc_dot(st, e)).classes == st.classes,
        type_ok(type_after(tc_dot(st, e)), st.classes.len()),
    decreases e, 2int,
{
    reveal(tc_dot);
    reveal(tc_infer);
    let n = st.classes.len();
    match e.node {
        AstNode::DotIndex { indexee, index } => {
            match namespace_at(st.scopes, e.node) {
                Some(ns) => {
                    lemma_namespace_at_ok(st.scopes, e.node, n);
                    match index.node {
                        AstNode::Identifier(f) => {
                            if alist_get(ns.locals, f@) is Some {
                                lemma_typed_get_ok(ns.locals, f@, n);
                            } else if alist_get(ns.types, f@) is Some {
                                lemma_typed_get_ok(ns.types, f@, n);
                            }
                        },
                        _ => {},
                    }
                },
                None => {},
            }
            lemma_infer_ok(st, *indexee);
            let s1 = state_after(tc_infer(st, *indexee));
            match index.node {
                AstNode::Identifier(f) => {
                    lemma_member_ok(s1, type_after(tc_infer(st, *indexee)), f@, e.span);
                },
                _ => {},
            }
        },
        _ => {},
    }
}

pub proof fn lemma_method_call_ok(st: TcState, e: SAst)
    requires
        tc_wf(st),
    ensures
        tc_method_call(st, e) is Some,
        tc_wf(state_after(tc_method_call(st, e))),
        state_after(tc_method_call(st, e)).classes == st.classes,
        type_ok(type_after(tc_method_call(st, e)), st.classes.len()),
    decreases e, 2int,
{
    reveal(tc_method_call);
    reveal(tc_infer);
    match e.node {
        AstNode::MethodCall { indexee, index } => {
            lemma_infer_ok(st, *indexee);
            let s1 = state_after(tc_infer(st, *indexee));
            match index.node {
                AstNode::Identifier(m) => {
                    lemma_method_ok(s1, type_after(tc_infer(st, *indexee)), m@, e.span);
                },
                _ => {},
            }
        },
        _ => {},
    }
}

pub proof fn lemma_class_literal_ok(st: TcState, e: SAst)
    requires
        tc_wf(st),
    ensures
        tc_class_literal(st, e) is Some,
        tc_wf(state_after(tc_class_literal(st, e))),
        state_after(tc_class_literal(st, e)).classes == st.classes,
        type_ok(type_after(tc_class_literal(st, e)), st.classes.len()),
    decreases e, 2int,
{
    reveal(tc_class_literal);
    reveal(lit_fields);
    let n = st.classes.len();
    match e.node {
        AstNode::ClassLiteral { ty, fields } => {
            let cn: Option<Seq<char>> = match ty.node {
                AstNode::Identifier(s) => Some(s@),
                AstNode::SelfExpr => Some(
                    match st.current_class {
                        Some(c) => c,
                        None => Seq::empty(),
                    },
                ),
                _ => None,
            };
            match cn {
                Some(cname) => if resolve_type_in(st.scopes, cname) is Some {
                    lemma_resolve_type_ok(st.scopes, cname, n);
                    match resolve_type_in(st.scopes, cname)->0 {
                        SpecType::Class(id) => {
                            lemma_lit_fields_ok(st, id, cname, fields@, fields@.len());
                        },
                        _ => {},
                    }
                },
                None => {},
            }
        },
        _ => {},
    }
}

pub proof fn lemma_lit_fields_ok(st: TcState, id: usize, cname: Seq<char>, fs: Seq<(String, SAst)>, k: nat)
    requires
        tc_wf(st),
        id < st.classes.len(),
    ensures
        lit_fields(st, id, cname, fs, k) is Some,
        tc_wf(lit_fields(st, id, cname, fs, k)->0),
        lit_fields(st, id, cname, fs, k)->0.classes == st.classes,
    decreases fs, k,
{
    reveal(lit_fields);
    reveal(tc_infer);
    if k > 0 && k <= fs.len() {
        lemma_lit_fields_ok(st, id, cname, fs, (k - 1) as nat);
        let s1 = lit_fields(st, id, cname, fs, (k - 1) as nat)->0;
        lemma_infer_ok(s1, fs[k - 1].1);
        let s2 = state_after(tc_infer(s1, fs[k - 1].1));
        let at = type_after(tc_infer(s1, fs[k - 1].1));
        let c = s2.classes[id as int];
        let fi = first_index(crate::ty::field_names(c.fields), fs[k - 1].0@);
        if 0 <= fi < c.fields.len() {
            lemma_assignable_same(s2, c.fields[fi].1, at, fs[k - 1].1.span);
        }
    }
}

pub proof fn lemma_call_ok(st: TcState, e: SAst)
    requires
        tc_wf(st),
    ensures
        tc_call(st, e) is Some,
        tc_wf(state_after(tc_call(st, e))),
        state_after(tc_call(st, e)).classes == st.classes,
        type_ok(type_after(tc_call(st, e)), st.classes.len()),
    decreases e, 1int,
{
    reveal(tc_call);
    reveal(tc_infer);
    reveal(call_pairs);
    let n = st.classes.len();
    match e.node {
        AstNode::FunctionCall { callee, args } => {
            lemma_infer_ok(st, *callee);
            let s1 = state_after(tc_infer(st, *callee));
            match type_after(tc_infer(st, *callee)) {
                SpecType::Function(f) => {
                    let params = f.params;
                    let s2 = if args@.len() != params.len() {
                        with_error(
                            s1,
                            e.span,
                            "expected "@ + crate::text::decimal(params.len())
                                + " argument(s), got "@ + crate::text::decimal(args@.len()),
                        )
                    } else {
                        s1
                    };
                    let m = if args@.len() < params.len() {
                        args@.len()
                    } else {
                        params.len()
                    };
                    lemma_types_ok_index(params, n);
                    lemma_call_pairs_ok(s2, args@, params, m);
                },
                _ => {},
            }
        },
        _ => {},
    }
}

pub proof fn lemma_call_pairs_ok(st: TcState, args: Seq<SAst>, params: Seq<SpecType>, k: nat)
    requires
        tc_wf(st),
    ensures
        call_pairs(st, args, params, k) is Some,
        tc_wf(call_pairs(st, args, params, k)->0),
        call_pairs(st, args, params, k)->0.classes == st.classes,
    decreases args, k,
{
    reveal(call_pairs);
    reveal(tc_infer);
    if k > 0 && k <= args.len() && k <= params.len() {
        lemma_call_pairs_ok(st, args, params, (k - 1) as nat);
        let s1 = call_pairs(st, args, params, (k - 1) as nat)->0;
        lemma_infer_ok(s1, args[k - 1]);
        let s2 = state_after(tc_infer(s1, args[k - 1]));
        let at = type_after(tc_infer(s1, args[k - 1]));
        lemma_assignable_same(s2, params[k - 1], at, args[k - 1].span);
    }
}

/// Checking statements in order in a good state goes through and leaves it
/// good.
pub proof fn lemma_stmts_ok(st: TcState, ss: Seq<SAst>, n: nat)
    requires
        st.classes.len() + defs_in(ss, n) <= usize::MAX,
        tc_wf(st),
    ensures
        tc_stmts(st, ss, n) is Some,
        tc_wf(tc_stmts(st, ss, n)->0),
        tc_stmts(st, ss, n)->0.classes.len() <= st.classes.len() + defs_in(ss, n),
    decreases ss, n,
{
    reveal(tc_infer);
    reveal(tc_stmts);
    reveal(tc_stmt);
    reveal(tc_stmts);
    if n > 0 && n <= ss.len() {
        lemma_stmts_ok(st, ss, (n - 1) as nat);
        let s1 = tc_stmts(st, ss, (n - 1) as nat)->0;
        lemma_stmt_ok(s1, ss[n - 1]);
    }
}

/// Checking any statement in a good state goes through and leaves it good.
pub proof fn lemma_stmt_ok(st: TcState, s: SAst)
    requires
        st.classes.len() + class_defs(s) <= usize::MAX,
        tc_wf(st),
    ensures
        tc_stmt(st, s) is Some,
        tc_wf(tc_stmt(st, s)->0),
        tc_stmt(st, s)->0.classes.len() <= st.classes.len() + class_defs(s),
    decreases s, 3int,
{
    reveal(tc_var_decl);
    reveal(tc_assign);
    reveal(tc_fn_decl);
    reveal(tc_class);
    reveal(tc_cond);
    reveal(tc_while);
    reveal(tc_for);
    reveal(tc_match);
    reveal(tc_return);
    reveal(tc_binop_stmt);
    reveal(tc_infer);
    reveal(tc_stmts);
    reveal(tc_stmt);
    reveal(tc_stmt);
    reveal(tc_call);
    match s.node {
        AstNode::Program(stmts) => lemma_stmts_ok(st, stmts@, stmts@.len()),
        AstNode::Public(inner) => lemma_stmt_ok(st, *inner),
        AstNode::UseStmt { base_path, used } => lemma_use_ok(st, base_path.node, used@, s.span),
        AstNode::VarDeclaration { .. } => lemma_var_decl_ok(st, s),
        AstNode::Assignment { .. } => lemma_assign_ok(st, s),
        AstNode::FunctionDeclaration { .. } => lemma_fn_decl_ok(st, s),
        AstNode::ClassDefinition { .. } => lemma_class_ok(st, s),
        AstNode::ConditionalBranch { .. } => lemma_cond_ok(st, s),
        AstNode::WhileLoop { .. } => lemma_while_ok(st, s),
        AstNode::ForLoop { .. } => lemma_for_ok(st, s),
        AstNode::MatchStmt { .. } => lemma_match_ok(st, s),
        AstNode::ReturnStmt { .. } => lemma_return_ok(st, s),
        AstNode::FunctionCall { .. } => lemma_call_ok(st, s),
        AstNode::BinaryOperation { .. } => lemma_binop_stmt_ok(st, s),
        _ => {},
    }
}

pub proof fn lemma_var_decl_ok(st: TcState, s: SAst)
    requires
        tc_wf(st),
    ensures
        tc_var_decl(st, s) is Some,
        tc_wf(tc_var_decl(st, s)->0),
        tc_var_decl(st, s)->0.classes == st.classes,
    decreases s, 2int,
{
    reveal(tc_infer);
    reveal(tc_stmts);
    reveal(tc_stmt);
    reveal(tc_var_decl);
    let n = st.classes.len();
    match s.node {
        AstNode::VarDeclaration { binding, init_value } => match binding {
            BindingNode::IdentifierBinding { name, ty } => {
                let declared = compile_type_in(st.scopes, ty);
                lemma_compile_ok(st.scopes, ty, n);
                let inf: Option<(SpecType, TcState)> = match init_value {
                    Some(v) => tc_infer(st, *v),
                    None => Some((SpecType::Unknown, st)),
                };
                match init_value {
                    Some(v) => lemma_infer_ok(st, *v),
                    None => {},
                }
                let inferred = type_after(inf);
                let s1 = state_after(inf);
                let fin = if declared is Unknown {
                    inferred
                } else {
                    declared
                };
                lemma_assignable_same(s1, declared, inferred, s.span);
                let s2 = if !(declared is Unknown) && !(inferred is Unknown) {
                    assignable(s1, declared, inferred, s.span)
                } else {
                    s1
                };
                lemma_define_local_ok(
                    s2.scopes,
                    name@,
                    SpecLocal { ty: fin, mutable: crate::tc_spec::is_mutable_type(declared), moved: false },
                    n,
                );
            },
            _ => {},
        },
        _ => {},
    }
}

pub proof fn lemma_assign_ok(st: TcState, s: SAst)
    requires
        tc_wf(st),
    ensures
        tc_assign(st, s) is Some,
        tc_wf(tc_assign(st, s)->0),
        tc_assign(st, s)->0.classes == st.classes,
    decreases s, 2int,
{
    reveal(tc_infer);
    reveal(tc_stmts);
    reveal(tc_stmt);
    reveal(tc_assign);
    let n = st.classes.len();
    match s.node {
        AstNode::Assignment { left, right } => {
            lemma_infer_ok(st, *right);
            let s1 = state_after(tc_infer(st, *right));
            let rt = type_after(tc_infer(st, *right));
            match left.node {
                AstNode::Identifier(name) => match resolve_local_in(s1.scopes, name@) {
                    Some(l) => {
                        let s2 = if !l.mutable {
                            with_error(
                                s1,
                                s.span,
                                crate::tc_spec::quoted("cannot assign to immutable variable '"@, name@),
                            )
                        } else {
                            s1
                        };
                        lemma_assignable_same(s2, l.ty, rt, s.span);
                    },
                    None => {},
                },
                AstNode::DotIndex { indexee, index } => {
                    lemma_infer_ok(s1, *indexee);
                    let s2 = state_after(tc_infer(s1, *indexee));
                    let ot = type_after(tc_infer(s1, *indexee));
                    match index.node {
                        AstNode::Identifier(f) => match ot {
                            SpecType::Class(id) => {
                                let c = s2.classes[id as int];
                                let fi = first_index(crate::ty::field_names(c.fields), f@);
                                if 0 <= fi < c.fields.len() {
                                    lemma_assignable_same(s2, c.fields[fi].1, rt, s.span);
                                }
                            },
                            _ => {},
                        },
                        _ => {},
                    }
                },
                _ => {},
            }
        },
        _ => {},
    }
}

pub proof fn lemma_return_ok(st: TcState, s: SAst)
    requires
        tc_wf(st),
    ensures
        tc_return(st, s) is Some,
        tc_wf(tc_return(st, s)->0),
        tc_return(st, s)->0.classes == st.classes,
    decreases s, 2int,
{
    reveal(tc_infer);
    reveal(tc_stmts);
    reveal(tc_stmt);
    reveal(tc_return);
    match s.node {
        AstNode::ReturnStmt { value } => match value {
            Some(x) => {
                lemma_infer_ok(st, *x);
                let s1 = state_after(tc_infer(st, *x));
                lemma_assignable_same(s1, s1.ret, type_after(tc_infer(st, *x)), x.span);
            },
            None => {},
        },
        _ => {},
    }
}

pub proof fn lemma_binop_stmt_ok(st: TcState, s: SAst)
    requires
        tc_wf(st),
    ensures
        tc_binop_stmt(st, s) is Some,
        tc_wf(tc_binop_stmt(st, s)->0),
        tc_binop_stmt(st, s)->0.classes == st.classes,
    decreases s, 2int,
{
    reveal(tc_infer);
    reveal(tc_stmts);
    reveal(tc_stmt);
    reveal(tc_binop_stmt);
    let n = st.classes.len();
    match s.node {
        AstNode::BinaryOperation { op, left, right } => {
            lemma_infer_ok(st, *left);
            let s1 = state_after(tc_infer(st, *left));
            let lt = type_after(tc_infer(st, *left));
            lemma_infer_ok(s1, *right);
            let s2 = state_after(tc_infer(s1, *right));
            let rt = type_after(tc_infer(s1, *right));
            lemma_overload_ok(s2, lt, rt, op);
            match overload_of(s2, lt, rt, op)->0 {
                Some(f) => {
                    if f.params.len() == 2 {
                        let s3 = assignable(s2, f.params[0], inner_of(lt), left.span);
                        lemma_assignable_same(s2, f.params[0], inner_of(lt), left.span);
                        lemma_assignable_same(s3, f.params[1], inner_of(rt), right.span);
                    }
                },
                None => {},
            }
        },
        _ => {},
    }
}

/// A body checked in a fresh scope of a good state goes through, and
/// popping that scope leaves a good state with a scope open.
pub proof fn lemma_scoped_body_ok(s0: TcState, body: Seq<SAst>)
    requires
        s0.classes.len() + defs_in(body, body.len()) <= usize::MAX,
        tc_wf(s0),
        s0.scopes.len() >= 2,
    ensures
        tc_stmts(s0, body, body.len()) is Some,
        tc_wf(pop_scope(tc_stmts(s0, body, body.len())->0)),
        adds(s0, tc_stmts(s0, body, body.len())->0),
        pop_scope(tc_stmts(s0, body, body.len())->0).scopes.len() == s0.scopes.len() - 1,
        tc_stmts(s0, body, body.len())->0.ret == s0.ret,
        pop_scope(tc_stmts(s0, body, body.len())->0).classes.len() <= s0.classes.len() + defs_in(body, body.len()),
    decreases body, body.len() + 1,
{
    reveal(tc_infer);
    reveal(tc_stmts);
    reveal(tc_stmt);
    lemma_stmts_ok(s0, body, body.len());
    let s1 = tc_stmts(s0, body, body.len())->0;
    lemma_stmts_keeps(s0, body, body.len());
    lemma_pop_ok(s1);
}

pub proof fn lemma_while_ok(st: TcState, s: SAst)
    requires
        st.classes.len() + class_defs(s) <= usize::MAX,
        tc_wf(st),
    ensures
        tc_while(st, s) is Some,
        tc_wf(tc_while(st, s)->0),
        tc_while(st, s)->0.classes.len() <= st.classes.len() + class_defs(s),
    decreases s, 2int,
{
    reveal(tc_infer);
    reveal(tc_stmts);
    reveal(tc_stmt);
    reveal(tc_while);
    match s.node {
        AstNode::WhileLoop { condition, body } => {
            lemma_infer_ok(st, *condition);
            let s1 = state_after(tc_infer(st, *condition));
            lemma_push_ok(s1);
            lemma_scoped_body_ok(push_scope(s1), body@);
        },
        _ => {},
    }
}

pub proof fn lemma_cond_ok(st: TcState, s: SAst)
    requires
        st.classes.len() + class_defs(s) <= usize::MAX,
        tc_wf(st),
    ensures
        tc_cond(st, s) is Some,
        tc_wf(tc_cond(st, s)->0),
        tc_cond(st, s)->0.classes.len() <= st.classes.len() + class_defs(s),
    decreases s, 2int,
{
    reveal(tc_infer);
    reveal(tc_stmts);
    reveal(tc_stmt);
    reveal(tc_cond);
    match s.node {
        AstNode::ConditionalBranch { condition, body, next } => {
            let c: Option<TcState> = match condition {
                Some(c) => match tc_infer(st, *c) {
                    None => None,
                    Some((_, s1)) => Some(s1),
                },
                None => Some(st),
            };
            match condition {
                Some(c) => lemma_infer_ok(st, *c),
                None => {},
            }
            let s1 = c->0;
            lemma_push_ok(s1);
            lemma_scoped_body_ok(push_scope(s1), body@);
            let s2 = tc_stmts(push_scope(s1), body@, body@.len())->0;
            match next {
                Some(nx) => lemma_stmt_ok(pop_scope(s2), *nx),
                None => {},
            }
        },
        _ => {},
    }
}

pub proof fn lemma_for_ok(st: TcState, s: SAst)
    requires
        st.classes.len() + class_defs(s) <= usize::MAX,
        tc_wf(st),
    ensures
        tc_for(st, s) is Some,
        tc_wf(tc_for(st, s)->0),
        tc_for(st, s)->0.classes.len() <= st.classes.len() + class_defs(s),
    decreases s, 2int,
{
    reveal(tc_infer);
    reveal(tc_stmts);
    reveal(tc_stmt);
    reveal(tc_for);
    let n = st.classes.len();
    match s.node {
        AstNode::ForLoop { binding, iterator, body } => {
            lemma_infer_ok(st, *iterator);
            let s1 = state_after(tc_infer(st, *iterator));
            lemma_push_ok(s1);
            let s2 = push_scope(s1);
            match binding {
                BindingNode::IdentifierBinding { name, ty } => {
                    lemma_compile_ok(s2.scopes, ty, n);
                    lemma_define_local_ok(
                        s2.scopes,
                        name@,
                        SpecLocal { ty: compile_type_in(s2.scopes, ty), mutable: false, moved: false },
                        n,
                    );
                    let s3 = def_local(s2, name@, compile_type_in(s2.scopes, ty), false)->0;
                    lemma_scoped_body_ok(s3, body@);
                },
                _ => lemma_scoped_body_ok(s2, body@),
            }
        },
        _ => {},
    }
}

pub proof fn lemma_match_ok(st: TcState, s: SAst)
    requires
        st.classes.len() + class_defs(s) <= usize::MAX,
        tc_wf(st),
    ensures
        tc_match(st, s) is Some,
        tc_wf(tc_match(st, s)->0),
        tc_match(st, s)->0.classes.len() <= st.classes.len() + class_defs(s),
    decreases s, 2int,
{
    reveal(tc_arms);
    reveal(tc_infer);
    reveal(tc_stmts);
    reveal(tc_stmt);
    reveal(tc_match);
    match s.node {
        AstNode::MatchStmt { matchee, arms } => {
            lemma_infer_ok(st, *matchee);
            let s1 = state_after(tc_infer(st, *matchee));
            lemma_arms_ok(s1, type_after(tc_infer(st, *matchee)), arms@, arms@.len());
        },
        _ => {},
    }
}

pub proof fn lemma_arms_ok(st: TcState, mt: SpecType, arms: Seq<MatchArm>, k: nat)
    requires
        st.classes.len() + arm_defs(arms, k) <= usize::MAX,
        tc_wf(st),
    ensures
        tc_arms(st, mt, arms, k) is Some,
        tc_wf(tc_arms(st, mt, arms, k)->0),
        tc_arms(st, mt, arms, k)->0.classes.len() <= st.classes.len() + arm_defs(arms, k),
    decreases arms, k,
{
    reveal(tc_infer);
    reveal(tc_stmts);
    reveal(tc_stmt);
    reveal(tc_arms);
    if k > 0 && k <= arms.len() {
        lemma_arms_ok(st, mt, arms, (k - 1) as nat);
        let s1 = tc_arms(st, mt, arms, (k - 1) as nat)->0;
        let n = s1.classes.len();
        lemma_push_ok(s1);
        let s2 = push_scope(s1);
        let body = arms[k - 1].body@;
        match arms[k - 1].pattern {
            MatchPattern::Expr(x) => {
                lemma_infer_ok(s2, x);
                crate::tc_laws::lemma_infer_keeps(s2, x);
                let s = state_after(tc_infer(s2, x));
                lemma_assignable_same(s, mt, type_after(tc_infer(s2, x)), x.span);
                lemma_scoped_body_ok(assignable(s, mt, type_after(tc_infer(s2, x)), x.span), body);
            },
            MatchPattern::Binding(b) => match b {
                BindingNode::IdentifierBinding { name, ty } => {
                    lemma_compile_ok(s2.scopes, ty, n);
                    lemma_define_local_ok(
                        s2.scopes,
                        name@,
                        SpecLocal { ty: compile_type_in(s2.scopes, ty), mutable: false, moved: false },
                        n,
                    );
                    let s3 = def_local(s2, name@, compile_type_in(s2.scopes, ty), false)->0;
                    lemma_scoped_body_ok(s3, body);
                },
                _ => lemma_scoped_body_ok(s2, body),
            },
            _ => lemma_scoped_body_ok(s2, body),
        }
    }
}

pub proof fn lemma_fn_decl_ok(st: TcState, s: SAst)
    requires
        st.classes.len() + class_defs(s) <= usize::MAX,
        tc_wf(st),
    ensures
        tc_fn_decl(st, s) is Some,
        tc_wf(tc_fn_decl(st, s)->0),
        tc_fn_decl(st, s)->0.classes.len() <= st.classes.len() + class_defs(s),
    decreases s, 2int,
{
    reveal(tc_infer);
    reveal(tc_stmts);
    reveal(tc_stmt);
    reveal(tc_fn_decl);
    let n = st.classes.len();
    match s.node {
        AstNode::FunctionDeclaration { name, params, return_type, body, .. } => {
            let f = fn_type_in(st.scopes, params@, return_type);
            lemma_fn_type_ok(st.scopes, params@, return_type, n);
            lemma_define_local_ok(
                st.scopes,
                name@,
                SpecLocal { ty: SpecType::Function(Box::new(f)), mutable: false, moved: false },
                n,
            );
            let s1 = def_local(st, name@, SpecType::Function(Box::new(f)), false)->0;
            let s1r = TcState { ret: *f.ret, ..s1 };
            lemma_push_ok(s1r);
            let s2 = push_scope(s1r);
            lemma_tc_params_ok(s2, params@);
            crate::tc_laws::lemma_tc_params(s2, params@);
            let s3 = tc_params(s2, params@)->0;
            lemma_scoped_body_ok(s3, body@);
            let s4 = tc_stmts(s3, body@, body@.len())->0;
            lemma_type_ok_mono(s1.ret, n, s4.classes.len());
        },
        _ => {},
    }
}

/// The name of a method member.
pub open spec fn method_name(m: ClassMember) -> Option<Seq<char>> {
    match m {
        ClassMember::Method { name, .. } => Some(name@),
        _ => None,
    }
}

/// Every method among `ms` has an entry in `mt`.
pub open spec fn methods_listed(
    ms: Seq<ClassMember>,
    mt: Seq<(Seq<char>, (usize, usize, SpecFnType, bool))>,
) -> bool {
    forall|j: int|
        0 <= j < ms.len() && (#[trigger] method_name(ms[j])) is Some ==> alist_get(
            mt,
            method_name(ms[j])->0,
        ) is Some
}

/// The fields and method signatures collected from a class body in good
/// scopes are good, and every method is listed.
pub proof fn lemma_collect_ok(scopes: Seq<SpecScope>, ms: Seq<ClassMember>, n: nat)
    requires
        scopes_ok(scopes, n),
    ensures
        forall|i: int|
            0 <= i < collect_members(scopes, ms).0.len() ==> type_ok(
                #[trigger] collect_members(scopes, ms).0[i].1,
                n,
            ),
        forall|i: int|
            0 <= i < collect_members(scopes, ms).2.len() ==> fn_ok(
                #[trigger] collect_members(scopes, ms).2[i].1.2,
                n,
            ),
        methods_listed(ms, collect_members(scopes, ms).2),
    decreases ms.len(),
{
    if ms.len() > 0 {
        let pre = ms.drop_last();
        lemma_collect_ok(scopes, pre, n);
        let (fs, fm, mt) = collect_members(scopes, pre);
        match ms.last() {
            ClassMember::Field { name, ty, is_public } => {
                lemma_compile_ok(scopes, ty, n);
                assert forall|j: int|
                    0 <= j < ms.len() && (#[trigger] method_name(ms[j])) is Some implies alist_get(
                    mt,
                    method_name(ms[j])->0,
                ) is Some by {
                    assert(pre[j] == ms[j]);
                }
            },
            ClassMember::Method { name, params, return_type, is_public, .. } => {
                let v = (0usize, 0usize, fn_type_in(scopes, params@, return_type), is_public);
                lemma_fn_type_ok(scopes, params@, return_type, n);
                lemma_alist_set_entries(mt, name@, v);
                let mt2 = alist_set(mt, name@, v);
                assert forall|j: int|
                    0 <= j < ms.len() && (#[trigger] method_name(ms[j])) is Some implies alist_get(
                    mt2,
                    method_name(ms[j])->0,
                ) is Some by {
                    if j < pre.len() {
                        assert(pre[j] == ms[j]);
                        lemma_alist_set_keeps(mt, name@, v, method_name(ms[j])->0);
                    } else {
                        lemma_alist_set_get(mt, name@, v);
                    }
                }
            },
            _ => {
                assert forall|j: int|
                    0 <= j < ms.len() && (#[trigger] method_name(ms[j])) is Some implies alist_get(
                    mt,
                    method_name(ms[j])->0,
                ) is Some by {
                    assert(pre[j] == ms[j]);
                }
            },
        }
    }
}

/// The member bodies of class `id`, whose methods are all listed in it,
/// check through in a good state and leave it good.
pub proof fn lemma_class_bodies_ok(st: TcState, id: usize, ms: Seq<ClassMember>, k: nat)
    requires
        st.classes.len() + member_defs(ms, k) <= usize::MAX,
        tc_wf(st),
        id < st.classes.len(),
        methods_listed(ms, st.classes[id as int].methods),
    ensures
        class_bodies(st, id, ms, k) is Some,
        tc_wf(class_bodies(st, id, ms, k)->0),
        class_bodies(st, id, ms, k)->0.classes.len() <= st.classes.len() + member_defs(ms, k),
    decreases ms, k,
{
    reveal(tc_infer);
    reveal(tc_stmts);
    reveal(tc_stmt);
    reveal(class_bodies);
    if k > 0 && k <= ms.len() {
        lemma_class_bodies_ok(st, id, ms, (k - 1) as nat);
        lemma_class_bodies_adds(st, id, ms, (k - 1) as nat);
        let s1 = class_bodies(st, id, ms, (k - 1) as nat)->0;
        let n1 = s1.classes.len();
        assert(s1.classes[id as int] == st.classes[id as int]);
        match ms[k - 1] {
            ClassMember::Method { name, params, body, .. } => {
                assert(method_name(ms[k - 1]) == Some(name@));
                let c = s1.classes[id as int];
                assert(class_ok(c, n1));
                let fi = first_index(names(c.methods), name@);
                let m = alist_get(c.methods, name@)->0;
                assert(fn_ok(c.methods[fi].1.2, n1));
                assert(m == c.methods[fi].1);
                lemma_define_local_ok(
                    s1.scopes,
                    name@,
                    SpecLocal { ty: SpecType::Function(Box::new(m.2)), mutable: false, moved: false },
                    n1,
                );
                let s2 = def_local(s1, name@, SpecType::Function(Box::new(m.2)), false)->0;
                let s2r = TcState { ret: *m.2.ret, ..s2 };
                lemma_push_ok(s2r);
                lemma_define_local_ok(
                    push_scope(s2r).scopes,
                    "self"@,
                    SpecLocal { ty: SpecType::Class(id), mutable: false, moved: false },
                    n1,
                );
                let s3 = def_local(push_scope(s2r), "self"@, SpecType::Class(id), false)->0;
                lemma_tc_params_ok(s3, params@);
                crate::tc_laws::lemma_tc_params(s3, params@);
                lemma_scoped_body_ok(tc_params(s3, params@)->0, body@);
            },
            ClassMember::OperatorOverload { op, params, return_type, body } => {
                let s2 = if params@.len() != 2 {
                    with_error(s1, Span { start: 0, end: 0 }, crate::tc_spec::overload_arity_msg(op))
                } else {
                    s1
                };
                lemma_compile_ok(s2.scopes, return_type, n1);
                let s2r = TcState { ret: compile_type_in(s2.scopes, return_type), ..s2 };
                lemma_push_ok(s2r);
                let s3 = push_scope(s2r);
                lemma_tc_params_ok(s3, params@);
                crate::tc_laws::lemma_tc_params(s3, params@);
                lemma_scoped_body_ok(tc_params(s3, params@)->0, body@);
            },
            _ => {},
        }
    }
}

/// A class definition checks through in a good state and leaves it good.
pub proof fn lemma_class_ok(st: TcState, s: SAst)
    requires
        st.classes.len() + class_defs(s) <= usize::MAX,
        tc_wf(st),
    ensures
        tc_class(st, s) is Some,
        tc_wf(tc_class(st, s)->0),
        tc_class(st, s)->0.classes.len() <= st.classes.len() + class_defs(s),
    decreases s, 1int,
{
    reveal(class_bodies);
    reveal(tc_infer);
    reveal(tc_stmts);
    reveal(tc_stmt);
    reveal(tc_class);
    let n = st.classes.len();
    match s.node {
        AstNode::ClassDefinition { name, members } => {
            let id: int = st.classes.len() as int;
            let empty = SpecClass {
                name: name@,
                fields: Seq::empty(),
                field_index_map: Seq::empty(),
                methods: Seq::empty(),
                operators: Seq::empty(),
            };
            let s1 = TcState { classes: st.classes.push(empty), ..st };
            lemma_scopes_ok_mono(st.scopes, n, n + 1);
            lemma_classes_ok_mono(st.classes, n, n + 1);
            lemma_type_ok_mono(st.ret, n, n + 1);
            assert(classes_ok(s1.classes, n + 1)) by {
                assert forall|i: int| 0 <= i < s1.classes.len() implies class_ok(
                    #[trigger] s1.classes[i],
                    n + 1,
                ) by {
                    if i < n {
                        assert(s1.classes[i] == st.classes[i]);
                    }
                }
            }
            lemma_define_type_ok(s1.scopes, name@, SpecType::Class(id as usize), n + 1);
            let s2 = def_type(s1, name@, SpecType::Class(id as usize))->0;
            lemma_collect_ok(s2.scopes, members@, n + 1);
            let (fs, fm, mt) = collect_members(s2.scopes, members@);
            let c = SpecClass { fields: fs, field_index_map: fm, methods: mt, ..s2.classes[id] };
            let s3 = TcState {
                classes: s2.classes.update(id, c),
                current_class: Some(name@),
                ..s2
            };
            assert(classes_ok(s3.classes, n + 1)) by {
                assert forall|i: int| 0 <= i < s3.classes.len() implies class_ok(
                    #[trigger] s3.classes[i],
                    n + 1,
                ) by {
                    if i != id {
                        assert(s3.classes[i] == s2.classes[i]);
                    }
                }
            }
            lemma_push_ok(s3);
            lemma_define_local_ok(
                push_scope(s3).scopes,
                "self"@,
                SpecLocal { ty: SpecType::Class(id as usize), mutable: false, moved: false },
                n + 1,
            );
            let s4 = def_local(push_scope(s3), "self"@, SpecType::Class(id as usize), false)->0;
            assert(s4.classes[id] == c);
            lemma_class_bodies_ok(s4, id as usize, members@, members@.len());
            lemma_class_bodies_adds(s4, id as usize, members@, members@.len());
            let s5 = class_bodies(s4, id as usize, members@, members@.len())->0;
            lemma_pop_ok(s5);
            lemma_type_ok_mono(st.ret, n + 1, s5.classes.len());
        },
        _ => {},
    }
}

} // verus!
