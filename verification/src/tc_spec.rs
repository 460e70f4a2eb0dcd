//! What the type checker does, stated as functions from its state and a
//! syntax tree to its next state. `None` stands for a run that stops: a
//! definition with no scope open, or a class id that names no class.
use vstd::prelude::*;
use crate::span::Span;
use crate::operator::{Operator, op_name};
use crate::ty::{
    SpecType, SpecFnType, SpecClass, type_view, view_text, builtin_type, field_names,
    op_index_from,
};
use crate::scopes::{
    SpecScope, SpecLocal, SpecNamespace, alist_get, alist_set, first_index, empty_scope,
    resolve_local_in, resolve_type_in, resolve_namespace_in, mark_moved_in, define_local_in,
    define_type_in,
};
use crate::parser::{AstNode, SAst, TypeNode, BindingNode, MatchPattern, MatchArm, ClassMember};
use crate::text::decimal;

verus! {

/// The state of a type checker: its scopes, its classes, the errors so far,
/// the class whose body is being checked and the declared return type of the
/// function whose body is being checked.
pub struct TcState {
    pub scopes: Seq<SpecScope>,
    pub classes: Seq<SpecClass>,
    pub errors: Seq<(Span, Seq<char>)>,
    pub current_class: Option<Seq<char>>,
    pub ret: SpecType,
}

/// A result and the next state; `None` when the run stops.
pub type Tc<X> = Option<(X, TcState)>;

pub open spec fn with_error(st: TcState, span: Span, msg: Seq<char>) -> TcState {
    TcState { errors: st.errors.push((span, msg)), ..st }
}

pub open spec fn quoted(a: Seq<char>, b: Seq<char>) -> Seq<char> {
    a + b + "'"@
}

pub open spec fn push_scope(st: TcState) -> TcState {
    TcState { scopes: st.scopes.push(empty_scope()), ..st }
}

pub open spec fn pop_scope(st: TcState) -> TcState {
    if st.scopes.len() > 0 {
        TcState { scopes: st.scopes.drop_last(), ..st }
    } else {
        st
    }
}

/// Defines a local that is not moved in the innermost scope.
pub open spec fn def_local(st: TcState, name: Seq<char>, ty: SpecType, mutable: bool) -> Option<
    TcState,
> {
    if st.scopes.len() == 0 {
        None
    } else {
        Some(
            TcState {
                scopes: define_local_in(
                    st.scopes,
                    name,
                    SpecLocal { ty, mutable, moved: false },
                ),
                ..st
            },
        )
    }
}

/// Defines a type name in the innermost scope.
pub open spec fn def_type(st: TcState, name: Seq<char>, ty: SpecType) -> Option<TcState> {
    if st.scopes.len() == 0 {
        None
    } else {
        Some(TcState { scopes: define_type_in(st.scopes, name, ty), ..st })
    }
}

/// The type a type annotation stands for in `scopes`.
pub open spec fn compile_type_in(scopes: Seq<SpecScope>, node: TypeNode) -> SpecType
    decreases node,
{
    match node {
        TypeNode::Inferred => SpecType::Unknown,
        TypeNode::ArrayType { elem_type } => SpecType::Array(
            Box::new(compile_type_in(scopes, *elem_type)),
        ),
        TypeNode::Qualified { inner, mutable, borrowed, moved } => SpecType::Qualified {
            inner: Box::new(compile_type_in(scopes, *inner)),
            mutable,
            borrowed,
            moved,
        },
        TypeNode::NominalType { name, generics } => match builtin_type(name@) {
            Some(t) => type_view(t),
            None => match resolve_type_in(scopes, name@) {
                Some(t) => t,
                None => if generics@.len() == 0 {
                    SpecType::TypeVar(name@)
                } else {
                    SpecType::Generic { name: name@, args: compile_types_in(scopes, generics@) }
                },
            },
        },
        TypeNode::HashMapType { .. } => SpecType::Unknown,
    }
}

pub open spec fn compile_types_in(scopes: Seq<SpecScope>, gs: Seq<TypeNode>) -> Seq<SpecType>
    decreases gs,
{
    if gs.len() == 0 {
        Seq::empty()
    } else {
        compile_types_in(scopes, gs.drop_last()).push(compile_type_in(scopes, gs.last()))
    }
}

/// The type of a parameter: that of its annotation; `Unknown` for a
/// destructuring parameter.
pub open spec fn param_type_in(scopes: Seq<SpecScope>, p: BindingNode) -> SpecType {
    match p {
        BindingNode::IdentifierBinding { ty, .. } => compile_type_in(scopes, ty),
        _ => SpecType::Unknown,
    }
}

/// The type of a function with these parameters and return annotation.
pub open spec fn fn_type_in(scopes: Seq<SpecScope>, params: Seq<BindingNode>, ret: TypeNode) -> SpecFnType {
    SpecFnType {
        params: Seq::new(params.len(), |i: int| param_type_in(scopes, params[i])),
        ret: Box::new(compile_type_in(scopes, ret)),
    }
}

/// The named parameters with their types, in order.
pub open spec fn named_params(scopes: Seq<SpecScope>, ps: Seq<BindingNode>) -> Seq<
    (Seq<char>, SpecType),
>
    decreases ps.len(),
{
    if ps.len() == 0 {
        Seq::empty()
    } else {
        let rest = named_params(scopes, ps.drop_last());
        match ps.last() {
            BindingNode::IdentifierBinding { name, ty } => rest.push(
                (name@, compile_type_in(scopes, ty)),
            ),
            _ => rest,
        }
    }
}

/// Defines the parameters in order, reporting each one but `self` that has
/// no type.
pub open spec fn define_params(st: TcState, ps: Seq<(Seq<char>, SpecType)>) -> Option<TcState>
    decreases ps.len(),
{
    if ps.len() == 0 {
        Some(st)
    } else {
        match define_params(st, ps.drop_last()) {
            None => None,
            Some(s1) => {
                let name = ps.last().0;
                let ty = ps.last().1;
                let s2 = if ty is Unknown && name != "self"@ {
                    with_error(
                        s1,
                        Span { start: 0, end: 0 },
                        quoted("parameter '"@, name) + " must have an explicit type"@,
                    )
                } else {
                    s1
                };
                def_local(s2, name, ty, false)
            },
        }
    }
}

pub open spec fn tc_params(st: TcState, ps: Seq<BindingNode>) -> Option<TcState> {
    define_params(st, named_params(st.scopes, ps))
}

/// The type under the qualifiers of a qualified type; any other type itself.
pub open spec fn inner_of(t: SpecType) -> SpecType {
    match t {
        SpecType::Qualified { inner, .. } => *inner,
        _ => t,
    }
}

pub open spec fn is_mutable_type(t: SpecType) -> bool {
    match t {
        SpecType::Qualified { mutable, .. } => mutable,
        _ => false,
    }
}

pub open spec fn is_moved_type(t: SpecType) -> bool {
    match t {
        SpecType::Qualified { moved, .. } => moved,
        _ => false,
    }
}

pub open spec fn is_borrowed_type(t: SpecType) -> bool {
    match t {
        SpecType::Qualified { borrowed, .. } => borrowed,
        _ => false,
    }
}

pub open spec fn mismatch(lead: Seq<char>, lhs: SpecType, rhs: SpecType) -> Seq<char> {
    quoted(quoted(lead, view_text(lhs)) + ", got '"@, view_text(rhs))
}

/// Reports `rhs` where a `lhs` is expected, unless one is unknown or they
/// agree: a borrowed (moved) `lhs` wants a borrowed (moved) `rhs`, compared
/// under the qualifier; otherwise the types agree when `lhs`, or the type
/// under its qualifiers, is the type under the qualifiers of `rhs`.
pub open spec fn assignable(st: TcState, lhs: SpecType, rhs: SpecType, span: Span) -> TcState
    decreases lhs,
{
    if lhs is Unknown || rhs is Unknown {
        st
    } else {
        match lhs {
            SpecType::Qualified { inner: li, borrowed: lb, moved: lm, .. } => if lb {
                match rhs {
                    SpecType::Qualified { inner: ri, borrowed: rb, .. } => if rb {
                        assignable(st, *li, *ri, span)
                    } else {
                        with_error(st, span, mismatch("expected borrowed '"@, lhs, rhs))
                    },
                    _ => with_error(st, span, mismatch("expected borrowed '"@, lhs, rhs)),
                }
            } else if lm {
                match rhs {
                    SpecType::Qualified { inner: ri, moved: rm, .. } => if rm {
                        assignable(st, *li, *ri, span)
                    } else {
                        with_error(st, span, mismatch("expected moved '"@, lhs, rhs))
                    },
                    _ => with_error(st, span, mismatch("expected moved '"@, lhs, rhs)),
                }
            } else {
                plain_assignable(st, lhs, rhs, span)
            },
            _ => plain_assignable(st, lhs, rhs, span),
        }
    }
}

pub open spec fn plain_assignable(st: TcState, lhs: SpecType, rhs: SpecType, span: Span) -> TcState {
    if lhs != inner_of(rhs) && inner_of(lhs) != inner_of(rhs) {
        with_error(st, span, mismatch("expected '"@, lhs, rhs))
    } else {
        st
    }
}

/// The names of a path `a.b.c` of identifiers; `None` for anything else.
pub open spec fn path_parts(node: AstNode) -> Option<Seq<Seq<char>>>
    decreases node,
{
    match node {
        AstNode::Identifier(name) => Some(seq![name@]),
        AstNode::DotIndex { indexee, index } => match path_parts(indexee.node) {
            Some(ps) => match index.node {
                AstNode::Identifier(name) => Some(ps.push(name@)),
                _ => None,
            },
            None => None,
        },
        _ => None,
    }
}

/// The namespace a path of names leads to: the first names a namespace in
/// scope, each next one a child of the one before.
pub open spec fn walk_path(scopes: Seq<SpecScope>, parts: Seq<Seq<char>>) -> Option<SpecNamespace>
    decreases parts.len(),
{
    if parts.len() == 0 {
        None
    } else if parts.len() == 1 {
        resolve_namespace_in(scopes, parts[0])
    } else {
        match walk_path(scopes, parts.drop_last()) {
            Some(ns) => alist_get(ns.children, parts.last()),
            None => None,
        }
    }
}

pub open spec fn namespace_at(scopes: Seq<SpecScope>, node: AstNode) -> Option<SpecNamespace> {
    match path_parts(node) {
        Some(ps) => walk_path(scopes, ps),
        None => None,
    }
}

/// The overload of `op` in the class that the type under `lt` (else under
/// `rt`) names, if any; `None` when that class is not known.
pub open spec fn overload_of(st: TcState, lt: SpecType, rt: SpecType, op: Operator) -> Option<
    Option<SpecFnType>,
> {
    let id_opt: Option<usize> = match inner_of(lt) {
        SpecType::Class(id) => Some(id),
        _ => match inner_of(rt) {
            SpecType::Class(id) => Some(id),
            _ => None,
        },
    };
    match id_opt {
        None => Some(None),
        Some(id) => if id < st.classes.len() {
            let ops = st.classes[id as int].operators;
            let i = op_index_from(ops, op, 0);
            if 0 <= i < ops.len() {
                Some(Some(ops[i].1.1))
            } else {
                Some(None)
            }
        } else {
            None
        },
    }
}

pub open spec fn overload_arity_msg(op: Operator) -> Seq<char> {
    quoted("operator '"@, op_name(op)) + " overload must take exactly 2 parameters"@
}

/// The type of arithmetic on `lt` and `rt`: a float if either is, else `lt`
/// unless it is unknown.
pub open spec fn arith_result(lt: SpecType, rt: SpecType) -> SpecType {
    if lt is F64 || rt is F64 {
        SpecType::F64
    } else if lt is F32 || rt is F32 {
        SpecType::F32
    } else if !(lt is Unknown) {
        lt
    } else {
        rt
    }
}

/// The type of an identifier: its local (reported if moved), else the type
/// it names, else unknown and reported.
pub open spec fn infer_ident(st: TcState, name: Seq<char>, span: Span) -> (SpecType, TcState) {
    match resolve_local_in(st.scopes, name) {
        Some(l) => (
            l.ty,
            if l.moved {
                with_error(st, span, quoted("use of moved variable '"@, name))
            } else {
                st
            },
        ),
        None => match resolve_type_in(st.scopes, name) {
            Some(t) => (t, st),
            None => (SpecType::Unknown, with_error(st, span, quoted("undefined variable '"@, name))),
        },
    }
}

/// The type of `self`: the type named by the current class, if any.
pub open spec fn infer_self(st: TcState) -> SpecType {
    match st.current_class {
        Some(n) => match resolve_type_in(st.scopes, n) {
            Some(t) => t,
            None => SpecType::Unknown,
        },
        None => SpecType::Unknown,
    }
}

/// Whether the class named `owner` is not the one being checked.
pub open spec fn outside(st: TcState, owner: Seq<char>) -> bool {
    st.current_class != Some(owner)
}

/// The member `f` of a value of type `ot`: a field first, then a method;
/// private ones are reported outside their class.
pub open spec fn member_of(st: TcState, ot: SpecType, f: Seq<char>, span: Span) -> Tc<SpecType> {
    match ot {
        SpecType::Class(id) => if id < st.classes.len() {
            let c = st.classes[id as int];
            let fi = first_index(field_names(c.fields), f);
            if 0 <= fi < c.fields.len() {
                let fld = c.fields[fi];
                Some(
                    (
                        fld.1,
                        if !fld.2 && outside(st, c.name) {
                            with_error(
                                st,
                                span,
                                quoted(quoted("field '"@, f) + " of '"@, c.name) + " is private"@,
                            )
                        } else {
                            st
                        },
                    ),
                )
            } else {
                match alist_get(c.methods, f) {
                    Some(m) => Some(
                        (
                            SpecType::Function(Box::new(m.2)),
                            if !m.3 && outside(st, c.name) {
                                with_error(
                                    st,
                                    span,
                                    quoted(quoted("method '"@, f) + " of '"@, c.name)
                                        + " is private"@,
                                )
                            } else {
                                st
                            },
                        ),
                    ),
                    None => Some(
                        (
                            SpecType::Unknown,
                            with_error(st, span, quoted("type has no member '"@, f)),
                        ),
                    ),
                }
            }
        } else {
            None
        },
        SpecType::Unknown => Some((SpecType::Unknown, st)),
        _ => Some((SpecType::Unknown, with_error(st, span, "attempt to index non-class value"@))),
    }
}

/// The method `m` of a value of type `ot`; a private one is reported outside
/// its class.
pub open spec fn method_of(st: TcState, ot: SpecType, m: Seq<char>, span: Span) -> Tc<SpecType> {
    match ot {
        SpecType::Class(id) => if id < st.classes.len() {
            let c = st.classes[id as int];
            match alist_get(c.methods, m) {
                Some(x) => Some(
                    (
                        SpecType::Function(Box::new(x.2)),
                        if !x.3 && outside(st, c.name) {
                            with_error(
                                st,
                                span,
                                quoted(quoted("method '"@, m) + " of '"@, c.name) + " is private"@,
                            )
                        } else {
                            st
                        },
                    ),
                ),
                None => Some(
                    (SpecType::Unknown, with_error(st, span, quoted("unknown method '"@, m))),
                ),
            }
        } else {
            None
        },
        SpecType::Unknown => Some((SpecType::Unknown, st)),
        _ => Some(
            (SpecType::Unknown, with_error(st, span, "attempt to call method on non-class"@)),
        ),
    }
}

/// Checks an argument of type `at` against its parameter type: a moved
/// (borrowed) parameter wants a variable passed moved (borrowed); others
/// want an assignable type.
pub open spec fn arg_check(st: TcState, arg: SAst, at: SpecType, param: SpecType) -> TcState {
    if is_moved_type(param) {
        match arg.node {
            AstNode::Identifier(n) => if !is_moved_type(at) {
                with_error(
                    st,
                    arg.span,
                    quoted("variable '"@, n@) + " must be explicitly moved (use '->"@ + n@
                        + "')"@,
                )
            } else {
                st
            },
            _ => st,
        }
    } else if is_borrowed_type(param) {
        match arg.node {
            AstNode::Identifier(n) => if !is_borrowed_type(at) {
                with_error(
                    st,
                    arg.span,
                    quoted("variable '"@, n@) + " must be explicitly borrowed (use '&"@ + n@
                        + "')"@,
                )
            } else {
                st
            },
            _ => st,
        }
    } else {
        assignable(st, param, at, arg.span)
    }
}

/// The names and types that a `use` brings in as values, those it brings in
/// as types, and the names it does not find, each in order.
pub open spec fn use_split(ns: SpecNamespace, used: Seq<(String, String)>) -> (
    Seq<(Seq<char>, SpecType)>,
    Seq<(Seq<char>, SpecType)>,
    Seq<Seq<char>>,
)
    decreases used.len(),
{
    if used.len() == 0 {
        (Seq::empty(), Seq::empty(), Seq::empty())
    } else {
        let (ls, ts, us) = use_split(ns, used.drop_last());
        let actual = used.last().0@;
        let alias = used.last().1@;
        match alist_get(ns.locals, actual) {
            Some(t) => (ls.push((alias, t)), ts, us),
            None => match alist_get(ns.types, actual) {
                Some(t) => (ls, ts.push((alias, t)), us),
                None => (ls, ts, us.push(actual)),
            },
        }
    }
}

pub open spec fn report_unknown(st: TcState, span: Span, us: Seq<Seq<char>>) -> TcState
    decreases us.len(),
{
    if us.len() == 0 {
        st
    } else {
        with_error(
            report_unknown(st, span, us.drop_last()),
            span,
            quoted("unknown import '"@, us.last()),
        )
    }
}

pub open spec fn define_locals_all(st: TcState, ls: Seq<(Seq<char>, SpecType)>) -> Option<TcState>
    decreases ls.len(),
{
    if ls.len() == 0 {
        Some(st)
    } else {
        match define_locals_all(st, ls.drop_last()) {
            None => None,
            Some(s1) => def_local(s1, ls.last().0, ls.last().1, false),
        }
    }
}

pub open spec fn define_types_all(st: TcState, ts: Seq<(Seq<char>, SpecType)>) -> Option<TcState>
    decreases ts.len(),
{
    if ts.len() == 0 {
        Some(st)
    } else {
        match define_types_all(st, ts.drop_last()) {
            None => None,
            Some(s1) => def_type(s1, ts.last().0, ts.last().1),
        }
    }
}

/// `use base.{...}`: reports an unknown namespace; else reports each name
/// it lacks, then defines the values, then the types, under their aliases.
pub open spec fn tc_use(st: TcState, base: AstNode, used: Seq<(String, String)>, span: Span) -> Option<
    TcState,
> {
    match namespace_at(st.scopes, base) {
        None => Some(with_error(st, span, "unknown namespace"@)),
        Some(ns) => {
            let (ls, ts, us) = use_split(ns, used);
            match define_locals_all(report_unknown(st, span, us), ls) {
                None => None,
                Some(s1) => define_types_all(s1, ts),
            }
        },
    }
}

/// The fields, field indices and method signatures of a class body.
pub open spec fn collect_members(scopes: Seq<SpecScope>, ms: Seq<ClassMember>) -> (
    Seq<(Seq<char>, SpecType, bool)>,
    Seq<(Seq<char>, usize)>,
    Seq<(Seq<char>, (usize, usize, SpecFnType, bool))>,
)
    decreases ms.len(),
{
    if ms.len() == 0 {
        (Seq::empty(), Seq::empty(), Seq::empty())
    } else {
        let (fs, fm, mt) = collect_members(scopes, ms.drop_last());
        match ms.last() {
            ClassMember::Field { name, ty, is_public } => (
                fs.push((name@, compile_type_in(scopes, ty), is_public)),
                alist_set(fm, name@, fs.len() as usize),
                mt,
            ),
            ClassMember::Method { name, params, return_type, is_public, .. } => (
                fs,
                fm,
                alist_set(
                    mt,
                    name@,
                    (0usize, 0usize, fn_type_in(scopes, params@, return_type), is_public),
                ),
            ),
            _ => (fs, fm, mt),
        }
    }
}

/// The type of an expression and the state after it.
#[verifier::opaque]
pub open spec fn tc_infer(st: TcState, e: SAst) -> Tc<SpecType>
    decreases e, 3int,
{
    match e.node {
        AstNode::IntLiteral(_) => Some((SpecType::I32, st)),
        AstNode::FloatLiteral(_) => Some((SpecType::F64, st)),
        AstNode::StringLiteral(_) => Some((SpecType::String, st)),
        AstNode::Identifier(name) => Some(infer_ident(st, name@, e.span)),
        AstNode::SelfExpr => Some((infer_self(st), st)),
        AstNode::Borrowed(inner) => match tc_infer(st, *inner) {
            None => None,
            Some((t, s1)) => Some(
                (
                    SpecType::Qualified {
                        inner: Box::new(t),
                        mutable: false,
                        borrowed: true,
                        moved: false,
                    },
                    s1,
                ),
            ),
        },
        AstNode::Moved(_) => tc_moved(st, e),
        AstNode::BinaryOperation { .. } => tc_binop(st, e),
        AstNode::FunctionCall { .. } => tc_call(st, e),
        AstNode::DotIndex { .. } => tc_dot(st, e),
        AstNode::MethodCall { .. } => tc_method_call(st, e),
        AstNode::ClassLiteral { .. } => tc_class_literal(st, e),
        AstNode::TypeCast { left, right } => match tc_infer(st, *left) {
            None => None,
            Some((_, s1)) => Some((compile_type_in(s1.scopes, right), s1)),
        },
        AstNode::Typeof(inner) => match tc_infer(st, *inner) {
            None => None,
            Some((_, s1)) => Some((SpecType::TypeVar("Type"@), s1)),
        },
        _ => Some((SpecType::Unknown, st)),
    }
}

/// `->x` marks the local `x` moved (reported if it already is); `->e`
/// qualifies the type of `e` as moved.
#[verifier::opaque]
pub open spec fn tc_moved(st: TcState, e: SAst) -> Tc<SpecType>
    decreases e, 2int,
{
    match e.node {
        AstNode::Moved(inner) => match inner.node {
            AstNode::Identifier(name) => match resolve_local_in(st.scopes, name@) {
                Some(l) => if l.moved {
                    Some(
                        (
                            SpecType::Unknown,
                            with_error(st, e.span, quoted("use of already-moved variable '"@, name@)),
                        ),
                    )
                } else {
                    Some(
                        (
                            SpecType::Qualified {
                                inner: Box::new(l.ty),
                                mutable: false,
                                borrowed: false,
                                moved: true,
                            },
                            TcState { scopes: mark_moved_in(st.scopes, name@), ..st },
                        ),
                    )
                },
                None => Some(
                    (SpecType::Unknown, with_error(st, e.span, quoted("undefined variable '"@, name@))),
                ),
            },
            _ => match tc_infer(st, *inner) {
                None => None,
                Some((t, s1)) => Some(
                    (
                        SpecType::Qualified {
                            inner: Box::new(t),
                            mutable: false,
                            borrowed: false,
                            moved: true,
                        },
                        s1,
                    ),
                ),
            },
        },
        _ => Some((SpecType::Unknown, st)),
    }
}

/// A binary operation: an overload of the operator in a class operand
/// decides the type; otherwise arithmetic does.
#[verifier::opaque]
pub open spec fn tc_binop(st: TcState, e: SAst) -> Tc<SpecType>
    decreases e, 2int,
{
    match e.node {
        AstNode::BinaryOperation { op, left, right } => match tc_infer(st, *left) {
            None => None,
            Some((lt, s1)) => match tc_infer(s1, *right) {
                None => None,
                Some((rt, s2)) => match overload_of(s2, lt, rt, op) {
                    None => None,
                    Some(ov) => match ov {
                        Some(f) => if f.params.len() == 2 {
                            let s3 = assignable(s2, f.params[0], inner_of(lt), left.span);
                            Some((*f.ret, assignable(s3, f.params[1], inner_of(rt), right.span)))
                        } else {
                            Some(
                                (arith_result(lt, rt), with_error(s2, e.span, overload_arity_msg(op))),
                            )
                        },
                        None => Some((arith_result(lt, rt), s2)),
                    },
                },
            },
        },
        _ => Some((SpecType::Unknown, st)),
    }
}

/// `a.b`: a value or type of a namespace path, else a member of the value.
#[verifier::opaque]
pub open spec fn tc_dot(st: TcState, e: SAst) -> Tc<SpecType>
    decreases e, 2int,
{
    match e.node {
        AstNode::DotIndex { indexee, index } => {
            let early: Option<SpecType> = match namespace_at(st.scopes, e.node) {
                Some(ns) => match index.node {
                    AstNode::Identifier(f) => match alist_get(ns.locals, f@) {
                        Some(t) => Some(t),
                        None => alist_get(ns.types, f@),
                    },
                    _ => Some(SpecType::Unknown),
                },
                None => None,
            };
            match early {
                Some(t) => Some((t, st)),
                None => match tc_infer(st, *indexee) {
                    None => None,
                    Some((ot, s1)) => match index.node {
                        AstNode::Identifier(f) => member_of(s1, ot, f@, e.span),
                        _ => Some((SpecType::Unknown, s1)),
                    },
                },
            }
        },
        _ => Some((SpecType::Unknown, st)),
    }
}

/// `a.m` in a call position: a method of the value.
#[verifier::opaque]
pub open spec fn tc_method_call(st: TcState, e: SAst) -> Tc<SpecType>
    decreases e, 2int,
{
    match e.node {
        AstNode::MethodCall { indexee, index } => match tc_infer(st, *indexee) {
            None => None,
            Some((ot, s1)) => match index.node {
                AstNode::Identifier(m) => method_of(s1, ot, m@, e.span),
                _ => Some((SpecType::Unknown, s1)),
            },
        },
        _ => Some((SpecType::Unknown, st)),
    }
}

/// `T { f: e, ... }`: the type named `T` (or the current class for `self`),
/// each field value checked against its field.
#[verifier::opaque]
pub open spec fn tc_class_literal(st: TcState, e: SAst) -> Tc<SpecType>
    decreases e, 2int,
{
    match e.node {
        AstNode::ClassLiteral { ty, fields } => {
            let cn: Option<Seq<char>> = match ty.node {
                AstNode::Identifier(s) => Some(s@),
                AstNode::SelfExpr => Some(
                    match st.current_class {
                        Some(c) => c,
                        None => Seq::empty(),
                    },
                ),
                _ => None,
            };
            match cn {
                None => Some((SpecType::Unknown, st)),
                Some(cname) => match resolve_type_in(st.scopes, cname) {
                    None => Some(
                        (SpecType::Unknown, with_error(st, e.span, quoted("unknown type '"@, cname))),
                    ),
                    Some(ct) => match ct {
                        SpecType::Class(id) => match lit_fields(st, id, cname, fields@, fields@.len()) {
                            None => None,
                            Some(s1) => Some((ct, s1)),
                        },
                        _ => Some((ct, st)),
                    },
                },
            }
        },
        _ => Some((SpecType::Unknown, st)),
    }
}

/// The first `n` field values of a class literal, each checked against the
/// field of that name.
#[verifier::opaque]
pub open spec fn lit_fields(
    st: TcState,
    id: usize,
    cname: Seq<char>,
    fs: Seq<(String, SAst)>,
    n: nat,
) -> Option<TcState>
    decreases fs, n,
{
    if n == 0 || n > fs.len() {
        Some(st)
    } else {
        match lit_fields(st, id, cname, fs, (n - 1) as nat) {
            None => None,
            Some(s1) => match tc_infer(s1, fs[n - 1].1) {
                None => None,
                Some((at, s2)) => if id < s2.classes.len() {
                    let c = s2.classes[id as int];
                    let fname = fs[n - 1].0@;
                    let fi = first_index(field_names(c.fields), fname);
                    if 0 <= fi < c.fields.len() {
                        Some(assignable(s2, c.fields[fi].1, at, fs[n - 1].1.span))
                    } else {
                        Some(
                            with_error(
                                s2,
                                fs[n - 1].1.span,
                                quoted(quoted("class '"@, cname) + " has no field '"@, fname),
                            ),
                        )
                    }
                } else {
                    None
                },
            },
        }
    }
}

/// A call: the callee must be a function; the argument count must match,
/// and each argument is checked against its parameter.
#[verifier::opaque]
pub open spec fn tc_call(st: TcState, e: SAst) -> Tc<SpecType>
    decreases e, 1int,
{
    match e.node {
        AstNode::FunctionCall { callee, args } => match tc_infer(st, *callee) {
            None => None,
            Some((ct, s1)) => match ct {
                SpecType::Function(f) => {
                    let params = f.params;
                    let s2 = if args@.len() != params.len() {
                        with_error(
                            s1,
                            e.span,
                            "expected "@ + decimal(params.len()) + " argument(s), got "@ + decimal(
                                args@.len(),
                            ),
                        )
                    } else {
                        s1
                    };
                    let n = if args@.len() < params.len() {
                        args@.len()
                    } else {
                        params.len()
                    };
                    match call_pairs(s2, args@, params, n) {
                        None => None,
                        Some(s3) => Some((*f.ret, s3)),
                    }
                },
                SpecType::Unknown => Some((SpecType::Unknown, s1)),
                _ => Some(
                    (SpecType::Unknown, with_error(s1, e.span, "attempt to call non-function"@)),
                ),
            },
        },
        _ => Some((SpecType::Unknown, st)),
    }
}

/// The first `n` arguments, each inferred and checked against its parameter.
#[verifier::opaque]
pub open spec fn call_pairs(st: TcState, args: Seq<SAst>, params: Seq<SpecType>, n: nat) -> Option<
    TcState,
>
    decreases args, n,
{
    if n == 0 || n > args.len() || n > params.len() {
        Some(st)
    } else {
        match call_pairs(st, args, params, (n - 1) as nat) {
            None => None,
            Some(s1) => match tc_infer(s1, args[n - 1]) {
                None => None,
                Some((at, s2)) => Some(arg_check(s2, args[n - 1], at, params[n - 1])),
            },
        }
    }
}

/// The first `n` statements, in order.
#[verifier::opaque]
pub open spec fn tc_stmts(st: TcState, ss: Seq<SAst>, n: nat) -> Option<TcState>
    decreases ss, n,
{
    if n == 0 || n > ss.len() {
        Some(st)
    } else {
        match tc_stmts(st, ss, (n - 1) as nat) {
            None => None,
            Some(s1) => tc_stmt(s1, ss[n - 1]),
        }
    }
}

/// A statement.
#[verifier::opaque]
pub open spec fn tc_stmt(st: TcState, s: SAst) -> Option<TcState>
    decreases s, 3int,
{
    match s.node {
        AstNode::Program(stmts) => tc_stmts(st, stmts@, stmts@.len()),
        AstNode::ModuleStmt { .. } => Some(st),
        AstNode::Public(inner) => tc_stmt(st, *inner),
        AstNode::UseStmt { base_path, used } => tc_use(st, base_path.node, used@, s.span),
        AstNode::VarDeclaration { .. } => tc_var_decl(st, s),
        AstNode::Assignment { .. } => tc_assign(st, s),
        AstNode::FunctionDeclaration { .. } => tc_fn_decl(st, s),
        AstNode::ClassDefinition { .. } => tc_class(st, s),
        AstNode::ConditionalBranch { .. } => tc_cond(st, s),
        AstNode::WhileLoop { .. } => tc_while(st, s),
        AstNode::ForLoop { .. } => tc_for(st, s),
        AstNode::MatchStmt { .. } => tc_match(st, s),
        AstNode::ReturnStmt { .. } => tc_return(st, s),
        AstNode::FunctionCall { .. } => match tc_call(st, s) {
            None => None,
            Some((_, s1)) => Some(s1),
        },
        AstNode::BinaryOperation { .. } => tc_binop_stmt(st, s),
        _ => Some(st),
    }
}

/// `let x: T = e`: the declared type, else the type of `e`; both known must
/// agree. The local is mutable when its annotation is.
#[verifier::opaque]
pub open spec fn tc_var_decl(st: TcState, s: SAst) -> Option<TcState>
    decreases s, 2int,
{
    match s.node {
        AstNode::VarDeclaration { binding, init_value } => match binding {
            BindingNode::IdentifierBinding { name, ty } => {
                let declared = compile_type_in(st.scopes, ty);
                let inf: Tc<SpecType> = match init_value {
                    Some(v) => tc_infer(st, *v),
                    None => Some((SpecType::Unknown, st)),
                };
                match inf {
                    None => None,
                    Some((inferred, s1)) => {
                        let fin = if declared is Unknown {
                            inferred
                        } else {
                            declared
                        };
                        let s2 = if !(declared is Unknown) && !(inferred is Unknown) {
                            assignable(s1, declared, inferred, s.span)
                        } else {
                            s1
                        };
                        def_local(s2, name@, fin, is_mutable_type(declared))
                    },
                }
            },
            _ => Some(st),
        },
        _ => Some(st),
    }
}

/// `x = e` wants a mutable local `x` of a type `e` is assignable to;
/// `a.f = e` a field `f` of that type.
#[verifier::opaque]
pub open spec fn tc_assign(st: TcState, s: SAst) -> Option<TcState>
    decreases s, 2int,
{
    match s.node {
        AstNode::Assignment { left, right } => match tc_infer(st, *right) {
            None => None,
            Some((rt, s1)) => match left.node {
                AstNode::Identifier(name) => match resolve_local_in(s1.scopes, name@) {
                    Some(l) => {
                        let s2 = if !l.mutable {
                            with_error(
                                s1,
                                s.span,
                                quoted("cannot assign to immutable variable '"@, name@),
                            )
                        } else {
                            s1
                        };
                        Some(assignable(s2, l.ty, rt, s.span))
                    },
                    None => Some(with_error(s1, s.span, quoted("undefined variable '"@, name@))),
                },
                AstNode::DotIndex { indexee, index } => match tc_infer(s1, *indexee) {
                    None => None,
                    Some((ot, s2)) => match index.node {
                        AstNode::Identifier(f) => match ot {
                            SpecType::Class(id) => if id < s2.classes.len() {
                                let c = s2.classes[id as int];
                                let fi = first_index(field_names(c.fields), f@);
                                if 0 <= fi < c.fields.len() {
                                    Some(assignable(s2, c.fields[fi].1, rt, s.span))
                                } else {
                                    Some(with_error(s2, s.span, quoted("class has no field '"@, f@)))
                                }
                            } else {
                                None
                            },
                            _ => Some(s2),
                        },
                        _ => Some(s2),
                    },
                },
                _ => Some(s1),
            },
        },
        _ => Some(st),
    }
}

/// A function: defined as a local of its type, then its body checked in a
/// scope of its parameters against its return type.
#[verifier::opaque]
pub open spec fn tc_fn_decl(st: TcState, s: SAst) -> Option<TcState>
    decreases s, 2int,
{
    match s.node {
        AstNode::FunctionDeclaration { name, params, return_type, body, .. } => {
            let f = fn_type_in(st.scopes, params@, return_type);
            match def_local(st, name@, SpecType::Function(Box::new(f)), false) {
                None => None,
                Some(s1) => {
                    let s2 = push_scope(TcState { ret: *f.ret, ..s1 });
                    match tc_params(s2, params@) {
                        None => None,
                        Some(s3) => match tc_stmts(s3, body@, body@.len()) {
                            None => None,
                            Some(s4) => Some(TcState { ret: s1.ret, ..pop_scope(s4) }),
                        },
                    }
                },
            }
        },
        _ => Some(st),
    }
}

/// `if` / `elif` / `else`: the condition, the body in its own scope, then
/// the next branch.
#[verifier::opaque]
pub open spec fn tc_cond(st: TcState, s: SAst) -> Option<TcState>
    decreases s, 2int,
{
    match s.node {
        AstNode::ConditionalBranch { condition, body, next } => {
            let c: Option<TcState> = match condition {
                Some(c) => match tc_infer(st, *c) {
                    None => None,
                    Some((_, s1)) => Some(s1),
                },
                None => Some(st),
            };
            match c {
                None => None,
                Some(s1) => match tc_stmts(push_scope(s1), body@, body@.len()) {
                    None => None,
                    Some(s2) => match next {
                        Some(nx) => tc_stmt(pop_scope(s2), *nx),
                        None => Some(pop_scope(s2)),
                    },
                },
            }
        },
        _ => Some(st),
    }
}

#[verifier::opaque]
pub open spec fn tc_while(st: TcState, s: SAst) -> Option<TcState>
    decreases s, 2int,
{
    match s.node {
        AstNode::WhileLoop { condition, body } => match tc_infer(st, *condition) {
            None => None,
            Some((_, s1)) => match tc_stmts(push_scope(s1), body@, body@.len()) {
                None => None,
                Some(s2) => Some(pop_scope(s2)),
            },
        },
        _ => Some(st),
    }
}

#[verifier::opaque]
pub open spec fn tc_for(st: TcState, s: SAst) -> Option<TcState>
    decreases s, 2int,
{
    match s.node {
        AstNode::ForLoop { binding, iterator, body } => match tc_infer(st, *iterator) {
            None => None,
            Some((_, s1)) => {
                let s2 = push_scope(s1);
                let s3o: Option<TcState> = match binding {
                    BindingNode::IdentifierBinding { name, ty } => def_local(
                        s2,
                        name@,
                        compile_type_in(s2.scopes, ty),
                        false,
                    ),
                    _ => Some(s2),
                };
                match s3o {
                    None => None,
                    Some(s3) => match tc_stmts(s3, body@, body@.len()) {
                        None => None,
                        Some(s4) => Some(pop_scope(s4)),
                    },
                }
            },
        },
        _ => Some(st),
    }
}

#[verifier::opaque]
pub open spec fn tc_match(st: TcState, s: SAst) -> Option<TcState>
    decreases s, 2int,
{
    match s.node {
        AstNode::MatchStmt { matchee, arms } => match tc_infer(st, *matchee) {
            None => None,
            Some((mt, s1)) => tc_arms(s1, mt, arms@, arms@.len()),
        },
        _ => Some(st),
    }
}

/// The first `n` arms, each in its own scope: an expression pattern must be
/// assignable to the matched type; a binding pattern defines a local.
#[verifier::opaque]
pub open spec fn tc_arms(st: TcState, mt: SpecType, arms: Seq<MatchArm>, n: nat) -> Option<
    TcState,
>
    decreases arms, n,
{
    if n == 0 || n > arms.len() {
        Some(st)
    } else {
        match tc_arms(st, mt, arms, (n - 1) as nat) {
            None => None,
            Some(s1) => {
                let s2 = push_scope(s1);
                let s3o: Option<TcState> = match arms[n - 1].pattern {
                    MatchPattern::Expr(x) => match tc_infer(s2, x) {
                        None => None,
                        Some((pt, s)) => Some(assignable(s, mt, pt, x.span)),
                    },
                    MatchPattern::Binding(b) => match b {
                        BindingNode::IdentifierBinding { name, ty } => def_local(
                            s2,
                            name@,
                            compile_type_in(s2.scopes, ty),
                            false,
                        ),
                        _ => Some(s2),
                    },
                    _ => Some(s2),
                };
                match s3o {
                    None => None,
                    Some(s3) => match tc_stmts(s3, arms[n - 1].body@, arms[n - 1].body@.len()) {
                        None => None,
                        Some(s4) => Some(pop_scope(s4)),
                    },
                }
            },
        }
    }
}

/// `return e` wants `e` assignable to a known return type; a bare `return`
/// wants none (or `empty`).
#[verifier::opaque]
pub open spec fn tc_return(st: TcState, s: SAst) -> Option<TcState>
    decreases s, 2int,
{
    match s.node {
        AstNode::ReturnStmt { value } => match value {
            Some(x) => match tc_infer(st, *x) {
                None => None,
                Some((rt, s1)) => Some(
                    if !(s1.ret is Unknown) {
                        assignable(s1, s1.ret, rt, x.span)
                    } else {
                        s1
                    },
                ),
            },
            None => Some(
                if !(st.ret is Unknown) && !(st.ret is Empty) {
                    with_error(
                        st,
                        s.span,
                        quoted("bare return in function expecting '"@, view_text(st.ret)),
                    )
                } else {
                    st
                },
            ),
        },
        _ => Some(st),
    }
}

/// A binary operation as a statement: its operands are checked against an
/// overload of the operator, if a class operand has one.
#[verifier::opaque]
pub open spec fn tc_binop_stmt(st: TcState, s: SAst) -> Option<TcState>
    decreases s, 2int,
{
    match s.node {
        AstNode::BinaryOperation { op, left, right } => match tc_infer(st, *left) {
            None => None,
            Some((lt, s1)) => match tc_infer(s1, *right) {
                None => None,
                Some((rt, s2)) => match overload_of(s2, lt, rt, op) {
                    None => None,
                    Some(ov) => match ov {
                        Some(f) => if f.params.len() == 2 {
                            let s3 = assignable(s2, f.params[0], inner_of(lt), left.span);
                            Some(assignable(s3, f.params[1], inner_of(rt), right.span))
                        } else {
                            Some(with_error(s2, left.span, overload_arity_msg(op)))
                        },
                        None => Some(s2),
                    },
                },
            },
        },
        _ => Some(st),
    }
}

/// A class definition: the class is added and its name defined; its fields
/// and method signatures recorded; then each method and operator body is
/// checked in a scope with `self`, with the class as the current one.
#[verifier::opaque]
pub open spec fn tc_class(st: TcState, s: SAst) -> Option<TcState>
    decreases s, 1int,
{
    match s.node {
        AstNode::ClassDefinition { name, members } => {
            let id: int = st.classes.len() as int;
            let s1 = TcState {
                classes: st.classes.push(
                    SpecClass {
                        name: name@,
                        fields: Seq::empty(),
                        field_index_map: Seq::empty(),
                        methods: Seq::empty(),
                        operators: Seq::empty(),
                    },
                ),
                ..st
            };
            match def_type(s1, name@, SpecType::Class(id as usize)) {
                None => None,
                Some(s2) => {
                    let (fs, fm, mt) = collect_members(s2.scopes, members@);
                    let c = SpecClass {
                        fields: fs,
                        field_index_map: fm,
                        methods: mt,
                        ..s2.classes[id]
                    };
                    let s3 = TcState {
                        classes: s2.classes.update(id, c),
                        current_class: Some(name@),
                        ..s2
                    };
                    match def_local(push_scope(s3), "self"@, SpecType::Class(id as usize), false) {
                        None => None,
                        Some(s4) => match class_bodies(s4, id as usize, members@, members@.len()) {
                            None => None,
                            Some(s5) => Some(
                                TcState {
                                    current_class: s2.current_class,
                                    ret: s2.ret,
                                    ..pop_scope(s5)
                                },
                            ),
                        },
                    }
                },
            }
        },
        _ => Some(st),
    }
}

/// The bodies of the first `n` members of class `id`.
#[verifier::opaque]
pub open spec fn class_bodies(st: TcState, id: usize, ms: Seq<ClassMember>, n: nat) -> Option<
    TcState,
>
    decreases ms, n,
{
    if n == 0 || n > ms.len() {
        Some(st)
    } else {
        match class_bodies(st, id, ms, (n - 1) as nat) {
            None => None,
            Some(s1) => match ms[n - 1] {
                ClassMember::Method { name, params, body, .. } => if id < s1.classes.len() {
                    match alist_get(s1.classes[id as int].methods, name@) {
                        None => None,
                        Some(m) => match def_local(
                            s1,
                            name@,
                            SpecType::Function(Box::new(m.2)),
                            false,
                        ) {
                            None => None,
                            Some(s2) => match def_local(
                                push_scope(TcState { ret: *m.2.ret, ..s2 }),
                                "self"@,
                                SpecType::Class(id),
                                false,
                            ) {
                                None => None,
                                Some(s3) => match tc_params(s3, params@) {
                                    None => None,
                                    Some(s4) => match tc_stmts(s4, body@, body@.len()) {
                                        None => None,
                                        Some(s5) => Some(pop_scope(s5)),
                                    },
                                },
                            },
                        },
                    }
                } else {
                    None
                },
                ClassMember::OperatorOverload { op, params, return_type, body } => {
                    let s2 = if params@.len() != 2 {
                        with_error(s1, Span { start: 0, end: 0 }, overload_arity_msg(op))
                    } else {
                        s1
                    };
                    let s3 = push_scope(
                        TcState { ret: compile_type_in(s2.scopes, return_type), ..s2 },
                    );
                    match tc_params(s3, params@) {
                        None => None,
                        Some(s4) => match tc_stmts(s4, body@, body@.len()) {
                            None => None,
                            Some(s5) => Some(pop_scope(s5)),
                        },
                    }
                },
                _ => Some(s1),
            },
        }
    }
}

/// A run of the first `n` statements that does not stop does not stop on
/// fewer.
pub proof fn lemma_stmts_prefix(st: TcState, ss: Seq<SAst>, n: nat, m: nat)
    requires
        n <= ss.len(),
        m <= n,
        tc_stmts(st, ss, n) is Some,
    ensures
        tc_stmts(st, ss, m) is Some,
    decreases n,
{
    reveal(tc_stmts);
    if m < n {
        lemma_stmts_prefix(st, ss, (n - 1) as nat, m);
    }
}

pub proof fn lemma_call_pairs_prefix(
    st: TcState,
    args: Seq<SAst>,
    params: Seq<SpecType>,
    n: nat,
    m: nat,
)
    requires
        n <= args.len(),
        n <= params.len(),
        m <= n,
        call_pairs(st, args, params, n) is Some,
    ensures
        call_pairs(st, args, params, m) is Some,
    decreases n,
{
    reveal(call_pairs);
    if m < n {
        lemma_call_pairs_prefix(st, args, params, (n - 1) as nat, m);
    }
}

pub proof fn lemma_lit_fields_prefix(
    st: TcState,
    id: usize,
    cname: Seq<char>,
    fs: Seq<(String, SAst)>,
    n: nat,
    m: nat,
)
    requires
        n <= fs.len(),
        m <= n,
        lit_fields(st, id, cname, fs, n) is Some,
    ensures
        lit_fields(st, id, cname, fs, m) is Some,
    decreases n,
{
    reveal(lit_fields);
    if m < n {
        lemma_lit_fields_prefix(st, id, cname, fs, (n - 1) as nat, m);
    }
}

pub proof fn lemma_arms_prefix(st: TcState, mt: SpecType, arms: Seq<MatchArm>, n: nat, m: nat)
    requires
        n <= arms.len(),
        m <= n,
        tc_arms(st, mt, arms, n) is Some,
    ensures
        tc_arms(st, mt, arms, m) is Some,
    decreases n,
{
    reveal(tc_arms);
    if m < n {
        lemma_arms_prefix(st, mt, arms, (n - 1) as nat, m);
    }
}

pub proof fn lemma_class_bodies_prefix(st: TcState, id: usize, ms: Seq<ClassMember>, n: nat, m: nat)
    requires
        n <= ms.len(),
        m <= n,
        class_bodies(st, id, ms, n) is Some,
    ensures
        class_bodies(st, id, ms, m) is Some,
    decreases n,
{
    reveal(class_bodies);
    if m < n {
        lemma_class_bodies_prefix(st, id, ms, (n - 1) as nat, m);
    }
}

} // verus!
