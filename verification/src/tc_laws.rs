//! What type checking keeps: it only adds errors and classes, and it leaves
//! the number of open scopes, the current class and the return type as they
//! were.
use vstd::prelude::*;
use crate::span::Span;
use crate::ty::SpecType;
use crate::scopes::{SpecScope, mark_moved_in};
use crate::parser::{AstNode, SAst, BindingNode, MatchPattern, MatchArm, ClassMember};
use crate::tc_spec::{
    TcState, with_error, def_local, def_type, push_scope, pop_scope, assignable, plain_assignable,
    define_params, named_params, tc_params, report_unknown, define_locals_all, define_types_all,
    use_split, tc_use, infer_ident, member_of, method_of, arg_check, tc_infer, tc_moved, tc_binop,
    tc_dot, tc_method_call, tc_class_literal, lit_fields, tc_call, call_pairs, tc_stmts, tc_stmt,
    tc_var_decl, tc_assign, tc_fn_decl, tc_cond, tc_while, tc_for, tc_match, tc_arms, tc_return,
    tc_binop_stmt, tc_class, class_bodies, overload_of, arith_result, inner_of,
};

verus! {

/// The state after an inference that did not stop.
pub open spec fn state_after(r: Option<(SpecType, TcState)>) -> TcState {
    match r {
        Some(p) => p.1,
        None => arbitrary(),
    }
}

/// The type found by an inference that did not stop.
pub open spec fn type_after(r: Option<(SpecType, TcState)>) -> SpecType {
    match r {
        Some(p) => p.0,
        None => arbitrary(),
    }
}

/// `b` has the errors and classes of `a`, in the same places, and maybe more.
pub open spec fn adds(a: TcState, b: TcState) -> bool {
    &&& a.errors.len() <= b.errors.len()
    &&& forall|i: int| 0 <= i < a.errors.len() ==> #[trigger] b.errors[i] == a.errors[i]
    &&& a.classes.len() <= b.classes.len()
    &&& forall|i: int| 0 <= i < a.classes.len() ==> #[trigger] b.classes[i] == a.classes[i]
}

/// `b` adds to `a`, with as many scopes open, the same current class and the
/// same return type.
pub open spec fn keeps(a: TcState, b: TcState) -> bool {
    &&& adds(a, b)
    &&& b.scopes.len() == a.scopes.len()
    &&& b.current_class == a.current_class
    &&& b.ret == a.ret
}

pub proof fn lemma_mark_moved_len(scopes: Seq<SpecScope>, name: Seq<char>)
    ensures
        mark_moved_in(scopes, name).len() == scopes.len(),
    decreases scopes.len(),
{
    if scopes.len() > 0 {
        lemma_mark_moved_len(scopes.drop_last(), name);
    }
}

/// Reporting a mismatch, or none, only adds errors.
pub proof fn lemma_assignable(st: TcState, lhs: SpecType, rhs: SpecType, span: Span)
    ensures
        keeps(st, assignable(st, lhs, rhs, span)),
    decreases lhs,
{
    match lhs {
        SpecType::Qualified { inner: li, borrowed: lb, moved: lm, .. } => {
            match rhs {
                SpecType::Qualified { inner: ri, .. } => {
                    lemma_assignable(st, *li, *ri, span);
                },
                _ => {},
            }
        },
        _ => {},
    }
}

pub proof fn lemma_define_params(st: TcState, ps: Seq<(Seq<char>, SpecType)>)
    requires
        define_params(st, ps) is Some,
    ensures
        keeps(st, define_params(st, ps)->0),
    decreases ps.len(),
{
    if ps.len() > 0 {
        lemma_define_params(st, ps.drop_last());
    }
}

pub proof fn lemma_tc_params(st: TcState, ps: Seq<BindingNode>)
    requires
        tc_params(st, ps) is Some,
    ensures
        keeps(st, tc_params(st, ps)->0),
{
    lemma_define_params(st, named_params(st.scopes, ps));
}

pub proof fn lemma_report_unknown(st: TcState, span: Span, us: Seq<Seq<char>>)
    ensures
        keeps(st, report_unknown(st, span, us)),
    decreases us.len(),
{
    if us.len() > 0 {
        lemma_report_unknown(st, span, us.drop_last());
    }
}

pub proof fn lemma_define_locals_all(st: TcState, ls: Seq<(Seq<char>, SpecType)>)
    requires
        define_locals_all(st, ls) is Some,
    ensures
        keeps(st, define_locals_all(st, ls)->0),
    decreases ls.len(),
{
    if ls.len() > 0 {
        lemma_define_locals_all(st, ls.drop_last());
    }
}

pub proof fn lemma_define_types_all(st: TcState, ts: Seq<(Seq<char>, SpecType)>)
    requires
        define_types_all(st, ts) is Some,
    ensures
        keeps(st, define_types_all(st, ts)->0),
    decreases ts.len(),
{
    if ts.len() > 0 {
        lemma_define_types_all(st, ts.drop_last());
    }
}

pub proof fn lemma_tc_use(st: TcState, base: AstNode, used: Seq<(String, String)>, span: Span)
    requires
        tc_use(st, base, used, span) is Some,
    ensures
        keeps(st, tc_use(st, base, used, span)->0),
{
    match crate::tc_spec::namespace_at(st.scopes, base) {
        None => {},
        Some(ns) => {
            let (ls, ts, us) = use_split(ns, used);
            let s0 = report_unknown(st, span, us);
            lemma_report_unknown(st, span, us);
            lemma_define_locals_all(s0, ls);
            let s1 = define_locals_all(s0, ls)->0;
            lemma_define_types_all(s1, ts);
        },
    }
}

pub proof fn lemma_arg_check(st: TcState, arg: SAst, at: SpecType, param: SpecType)
    ensures
        keeps(st, arg_check(st, arg, at, param)),
{
    lemma_assignable(st, param, at, arg.span);
}

/// Inferring the type of an expression only adds errors.
pub proof fn lemma_infer_keeps(st: TcState, e: SAst)
    requires
        tc_infer(st, e) is Some,
    ensures
        keeps(st, state_after(tc_infer(st, e))),
    decreases e, 3int,
{
    reveal(tc_infer);
    reveal(tc_moved);
    reveal(tc_binop);
    reveal(tc_call);
    reveal(tc_dot);
    reveal(tc_method_call);
    reveal(tc_class_literal);
    match e.node {
        AstNode::Borrowed(inner) => {
            lemma_infer_keeps(st, *inner);
        },
        AstNode::Moved(_) => {
            lemma_moved_keeps(st, e);
        },
        AstNode::BinaryOperation { .. } => {
            lemma_binop_keeps(st, e);
        },
        AstNode::FunctionCall { .. } => {
            lemma_call_keeps(st, e);
        },
        AstNode::DotIndex { .. } => {
            lemma_dot_keeps(st, e);
        },
        AstNode::MethodCall { .. } => {
            lemma_method_call_keeps(st, e);
        },
        AstNode::ClassLiteral { .. } => {
            lemma_class_literal_keeps(st, e);
        },
        AstNode::TypeCast { left, .. } => {
            lemma_infer_keeps(st, *left);
        },
        AstNode::Typeof(inner) => {
            lemma_infer_keeps(st, *inner);
        },
        _ => {},
    }
}

pub proof fn lemma_moved_keeps(st: TcState, e: SAst)
    requires
        tc_moved(st, e) is Some,
    ensures
        keeps(st, state_after(tc_moved(st, e))),
    decreases e, 2int,
{
    reveal(tc_moved);
    reveal(tc_infer);
    match e.node {
        AstNode::Moved(inner) => match inner.node {
            AstNode::Identifier(name) => {
                lemma_mark_moved_len(st.scopes, name@);
            },
            _ => {
                lemma_infer_keeps(st, *inner);
            },
        },
        _ => {},
    }
}

pub proof fn lemma_binop_keeps(st: TcState, e: SAst)
    requires
        tc_binop(st, e) is Some,
    ensures
        keeps(st, state_after(tc_binop(st, e))),
    decreases e, 2int,
{
    reveal(tc_binop);
    reveal(tc_infer);
    match e.node {
        AstNode::BinaryOperation { op, left, right } => {
            lemma_infer_keeps(st, *left);
            let s1 = state_after(tc_infer(st, *left));
            let lt = type_after(tc_infer(st, *left));
            lemma_infer_keeps(s1, *right);
            let s2 = state_after(tc_infer(s1, *right));
            let rt = type_after(tc_infer(s1, *right));
            match overload_of(s2, lt, rt, op)->0 {
                Some(f) => if f.params.len() == 2 {
                    let s3 = assignable(s2, f.params[0], crate::tc_spec::inner_of(lt), left.span);
                    lemma_assignable(s2, f.params[0], crate::tc_spec::inner_of(lt), left.span);
                    lemma_assignable(s3, f.params[1], crate::tc_spec::inner_of(rt), right.span);
                },
                None => {},
            }
        },
        _ => {},
    }
}

pub proof fn lemma_dot_keeps(st: TcState, e: SAst)
    requires
        tc_dot(st, e) is Some,
    ensures
        keeps(st, state_after(tc_dot(st, e))),
    decreases e, 2int,
{
    reveal(tc_dot);
    reveal(tc_infer);
    match e.node {
        AstNode::DotIndex { indexee, index } => {
            if tc_infer(st, *indexee) is Some {
                lemma_infer_keeps(st, *indexee);
            }
        },
        _ => {},
    }
}

pub proof fn lemma_method_call_keeps(st: TcState, e: SAst)
    requires
        tc_method_call(st, e) is Some,
    ensures
        keeps(st, state_after(tc_method_call(st, e))),
    decreases e, 2int,
{
    reveal(tc_method_call);
    reveal(tc_infer);
    match e.node {
        AstNode::MethodCall { indexee, .. } => {
            lemma_infer_keeps(st, *indexee);
        },
        _ => {},
    }
}

pub proof fn lemma_class_literal_keeps(st: TcState, e: SAst)
    requires
        tc_class_literal(st, e) is Some,
    ensures
        keeps(st, state_after(tc_class_literal(st, e))),
    decreases e, 2int,
{
    reveal(tc_class_literal);
    reveal(lit_fields);
    match e.node {
        AstNode::ClassLiteral { ty, fields } => {
            let cn: Option<Seq<char>> = match ty.node {
                AstNode::Identifier(s) => Some(s@),
                AstNode::SelfExpr => Some(
                    match st.current_class {
                        Some(c) => c,
                        None => Seq::empty(),
                    },
                ),
                _ => None,
            };
            match cn {
                Some(cname) => match crate::scopes::resolve_type_in(st.scopes, cname) {
                    Some(ct) => match ct {
                        SpecType::Class(id) => {
                            lemma_lit_fields_keeps(st, id, cname, fields@, fields@.len());
                        },
                        _ => {},
                    },
                    None => {},
                },
                None => {},
            }
        },
        _ => {},
    }
}

pub proof fn lemma_lit_fields_keeps(
    st: TcState,
    id: usize,
    cname: Seq<char>,
    fs: Seq<(String, SAst)>,
    n: nat,
)
    requires
        lit_fields(st, id, cname, fs, n) is Some,
    ensures
        keeps(st, lit_fields(st, id, cname, fs, n)->0),
    decreases fs, n,
{
    reveal(lit_fields);
    reveal(tc_infer);
    if n > 0 && n <= fs.len() {
        lemma_lit_fields_keeps(st, id, cname, fs, (n - 1) as nat);
        let s1 = lit_fields(st, id, cname, fs, (n - 1) as nat)->0;
        lemma_infer_keeps(s1, fs[n - 1].1);
        let s2 = state_after(tc_infer(s1, fs[n - 1].1));
        let at = type_after(tc_infer(s1, fs[n - 1].1));
        if id < s2.classes.len() {
            let c = s2.classes[id as int];
            let fi = crate::scopes::first_index(crate::ty::field_names(c.fields), fs[n - 1].0@);
            if 0 <= fi < c.fields.len() {
                lemma_assignable(s2, c.fields[fi].1, at, fs[n - 1].1.span);
            }
        }
    }
}

pub proof fn lemma_call_keeps(st: TcState, e: SAst)
    requires
        tc_call(st, e) is Some,
    ensures
        keeps(st, state_after(tc_call(st, e))),
    decreases e, 1int,
{
    reveal(tc_call);
    reveal(tc_infer);
    reveal(call_pairs);
    match e.node {
        AstNode::FunctionCall { callee, args } => {
            lemma_infer_keeps(st, *callee);
            let s1 = state_after(tc_infer(st, *callee));
            match type_after(tc_infer(st, *callee)) {
                SpecType::Function(f) => {
                    let params = f.params;
                    let s2 = if args@.len() != params.len() {
                        with_error(
                            s1,
                            e.span,
                            "expected "@ + crate::text::decimal(params.len())
                                + " argument(s), got "@ + crate::text::decimal(args@.len()),
                        )
                    } else {
                        s1
                    };
                    let n = if args@.len() < params.len() {
                        args@.len()
                    } else {
                        params.len()
                    };
                    lemma_call_pairs_keeps(s2, args@, params, n);
                },
                _ => {},
            }
        },
        _ => {},
    }
}

pub proof fn lemma_call_pairs_keeps(st: TcState, args: Seq<SAst>, params: Seq<SpecType>, n: nat)
    requires
        call_pairs(st, args, params, n) is Some,
    ensures
        keeps(st, call_pairs(st, args, params, n)->0),
    decreases args, n,
{
    reveal(call_pairs);
    reveal(tc_infer);
    if n > 0 && n <= args.len() && n <= params.len() {
        lemma_call_pairs_keeps(st, args, params, (n - 1) as nat);
        let s1 = call_pairs(st, args, params, (n - 1) as nat)->0;
        lemma_infer_keeps(s1, args[n - 1]);
        let s2 = state_after(tc_infer(s1, args[n - 1]));
        lemma_arg_check(s2, args[n - 1], type_after(tc_infer(s1, args[n - 1])), params[n - 1]);
    }
}

/// Checking statements in order only adds errors and classes.
pub proof fn lemma_stmts_keeps(st: TcState, ss: Seq<SAst>, n: nat)
    requires
        tc_stmts(st, ss, n) is Some,
    ensures
        keeps(st, tc_stmts(st, ss, n)->0),
    decreases ss, n,
{
    reveal(tc_stmts);
    reveal(tc_stmt);
    if n > 0 && n <= ss.len() {
        lemma_stmts_keeps(st, ss, (n - 1) as nat);
        let s1 = tc_stmts(st, ss, (n - 1) as nat)->0;
        lemma_stmt_keeps(s1, ss[n - 1]);
    }
}

/// Checking a statement only adds errors and classes: as many scopes are
/// open after it as before, and the current class and the return type are
/// as they were.
pub proof fn lemma_stmt_keeps(st: TcState, s: SAst)
    requires
        tc_stmt(st, s) is Some,
    ensures
        keeps(st, tc_stmt(st, s)->0),
    decreases s, 3int,
{
    reveal(tc_stmt);
    reveal(tc_stmts);
    reveal(tc_var_decl);
    reveal(tc_assign);
    reveal(tc_fn_decl);
    reveal(tc_class);
    reveal(tc_cond);
    reveal(tc_while);
    reveal(tc_for);
    reveal(tc_match);
    reveal(tc_return);
    reveal(tc_call);
    reveal(tc_binop_stmt);
    match s.node {
        AstNode::Program(stmts) => {
            lemma_stmts_keeps(st, stmts@, stmts@.len());
        },
        AstNode::Public(inner) => {
            lemma_stmt_keeps(st, *inner);
        },
        AstNode::UseStmt { base_path, used } => {
            lemma_tc_use(st, base_path.node, used@, s.span);
        },
        AstNode::VarDeclaration { .. } => {
            lemma_var_decl_keeps(st, s);
        },
        AstNode::Assignment { .. } => {
            lemma_assign_keeps(st, s);
        },
        AstNode::FunctionDeclaration { .. } => {
            lemma_fn_decl_keeps(st, s);
        },
        AstNode::ClassDefinition { .. } => {
            lemma_class_keeps(st, s);
        },
        AstNode::ConditionalBranch { .. } => {
            lemma_cond_keeps(st, s);
        },
        AstNode::WhileLoop { .. } => {
            lemma_while_keeps(st, s);
        },
        AstNode::ForLoop { .. } => {
            lemma_for_keeps(st, s);
        },
        AstNode::MatchStmt { .. } => {
            lemma_match_keeps(st, s);
        },
        AstNode::ReturnStmt { .. } => {
            lemma_return_keeps(st, s);
        },
        AstNode::FunctionCall { .. } => {
            lemma_call_keeps(st, s);
        },
        AstNode::BinaryOperation { .. } => {
            lemma_binop_stmt_keeps(st, s);
        },
        _ => {},
    }
}

pub proof fn lemma_var_decl_keeps(st: TcState, s: SAst)
    requires
        tc_var_decl(st, s) is Some,
    ensures
        keeps(st, tc_var_decl(st, s)->0),
    decreases s, 2int,
{
    reveal(tc_var_decl);
    reveal(tc_infer);
    match s.node {
        AstNode::VarDeclaration { binding, init_value } => match binding {
            BindingNode::IdentifierBinding { name, ty } => {
                let declared = crate::tc_spec::compile_type_in(st.scopes, ty);
                match init_value {
                    Some(v) => {
                        lemma_infer_keeps(st, *v);
                        let s1 = state_after(tc_infer(st, *v));
                        let inferred = type_after(tc_infer(st, *v));
                        lemma_assignable(s1, declared, inferred, s.span);
                    },
                    None => {},
                }
            },
            _ => {},
        },
        _ => {},
    }
}

pub proof fn lemma_assign_keeps(st: TcState, s: SAst)
    requires
        tc_assign(st, s) is Some,
    ensures
        keeps(st, tc_assign(st, s)->0),
    decreases s, 2int,
{
    reveal(tc_assign);
    reveal(tc_infer);
    match s.node {
        AstNode::Assignment { left, right } => {
            lemma_infer_keeps(st, *right);
            let s1 = state_after(tc_infer(st, *right));
            let rt = type_after(tc_infer(st, *right));
            match left.node {
                AstNode::Identifier(name) => match crate::scopes::resolve_local_in(s1.scopes, name@) {
                    Some(l) => {
                        let s2 = if !l.mutable {
                            with_error(
                                s1,
                                s.span,
                                crate::tc_spec::quoted("cannot assign to immutable variable '"@, name@),
                            )
                        } else {
                            s1
                        };
                        lemma_assignable(s2, l.ty, rt, s.span);
                    },
                    None => {},
                },
                AstNode::DotIndex { indexee, index } => {
                    lemma_infer_keeps(s1, *indexee);
                    let s2 = state_after(tc_infer(s1, *indexee));
                    match index.node {
                        AstNode::Identifier(f) => match type_after(tc_infer(s1, *indexee)) {
                            SpecType::Class(id) => if id < s2.classes.len() {
                                let c = s2.classes[id as int];
                                let fi = crate::scopes::first_index(crate::ty::field_names(c.fields), f@);
                                if 0 <= fi < c.fields.len() {
                                    lemma_assignable(s2, c.fields[fi].1, rt, s.span);
                                }
                            },
                            _ => {},
                        },
                        _ => {},
                    }
                },
                _ => {},
            }
        },
        _ => {},
    }
}

pub proof fn lemma_fn_decl_keeps(st: TcState, s: SAst)
    requires
        tc_fn_decl(st, s) is Some,
    ensures
        keeps(st, tc_fn_decl(st, s)->0),
    decreases s, 2int,
{
    reveal(tc_fn_decl);
    reveal(tc_stmts);
    match s.node {
        AstNode::FunctionDeclaration { name, params, return_type, body, .. } => {
            let f = crate::tc_spec::fn_type_in(st.scopes, params@, return_type);
            let s1 = def_local(st, name@, SpecType::Function(Box::new(f)), false)->0;
            let s2 = push_scope(TcState { ret: *f.ret, ..s1 });
            lemma_tc_params(s2, params@);
            let s3 = tc_params(s2, params@)->0;
            lemma_stmts_keeps(s3, body@, body@.len());
        },
        _ => {},
    }
}

pub proof fn lemma_cond_keeps(st: TcState, s: SAst)
    requires
        tc_cond(st, s) is Some,
    ensures
        keeps(st, tc_cond(st, s)->0),
    decreases s, 2int,
{
    reveal(tc_cond);
    reveal(tc_infer);
    reveal(tc_stmts);
    reveal(tc_stmt);
    match s.node {
        AstNode::ConditionalBranch { condition, body, next } => {
            let s1 = match condition {
                Some(c) => {
                    lemma_infer_keeps(st, *c);
                    state_after(tc_infer(st, *c))
                },
                None => st,
            };
            lemma_stmts_keeps(push_scope(s1), body@, body@.len());
            let s2 = tc_stmts(push_scope(s1), body@, body@.len())->0;
            match next {
                Some(nx) => {
                    lemma_stmt_keeps(pop_scope(s2), *nx);
                },
                None => {},
            }
        },
        _ => {},
    }
}

pub proof fn lemma_while_keeps(st: TcState, s: SAst)
    requires
        tc_while(st, s) is Some,
    ensures
        keeps(st, tc_while(st, s)->0),
    decreases s, 2int,
{
    reveal(tc_while);
    reveal(tc_infer);
    reveal(tc_stmts);
    match s.node {
        AstNode::WhileLoop { condition, body } => {
            lemma_infer_keeps(st, *condition);
            let s1 = state_after(tc_infer(st, *condition));
            lemma_stmts_keeps(push_scope(s1), body@, body@.len());
        },
        _ => {},
    }
}

pub proof fn lemma_for_keeps(st: TcState, s: SAst)
    requires
        tc_for(st, s) is Some,
    ensures
        keeps(st, tc_for(st, s)->0),
    decreases s, 2int,
{
    reveal(tc_for);
    reveal(tc_infer);
    reveal(tc_stmts);
    match s.node {
        AstNode::ForLoop { binding, iterator, body } => {
            lemma_infer_keeps(st, *iterator);
            let s1 = state_after(tc_infer(st, *iterator));
            let s2 = push_scope(s1);
            let s3 = match binding {
                BindingNode::IdentifierBinding { name, ty } => def_local(
                    s2,
                    name@,
                    crate::tc_spec::compile_type_in(s2.scopes, ty),
                    false,
                )->0,
                _ => s2,
            };
            lemma_stmts_keeps(s3, body@, body@.len());
        },
        _ => {},
    }
}

pub proof fn lemma_match_keeps(st: TcState, s: SAst)
    requires
        tc_match(st, s) is Some,
    ensures
        keeps(st, tc_match(st, s)->0),
    decreases s, 2int,
{
    reveal(tc_match);
    reveal(tc_infer);
    reveal(tc_arms);
    match s.node {
        AstNode::MatchStmt { matchee, arms } => {
            lemma_infer_keeps(st, *matchee);
            let s1 = state_after(tc_infer(st, *matchee));
            lemma_arms_keeps(s1, type_after(tc_infer(st, *matchee)), arms@, arms@.len());
        },
        _ => {},
    }
}

pub proof fn lemma_arms_keeps(st: TcState, mt: SpecType, arms: Seq<MatchArm>, n: nat)
    requires
        tc_arms(st, mt, arms, n) is Some,
    ensures
        keeps(st, tc_arms(st, mt, arms, n)->0),
    decreases arms, n,
{
    reveal(tc_arms);
    reveal(tc_infer);
    reveal(tc_stmts);
    if n > 0 && n <= arms.len() {
        lemma_arms_keeps(st, mt, arms, (n - 1) as nat);
        let s1 = tc_arms(st, mt, arms, (n - 1) as nat)->0;
        let s2 = push_scope(s1);
        let s3 = match arms[n - 1].pattern {
            MatchPattern::Expr(x) => {
                lemma_infer_keeps(s2, x);
                let s = state_after(tc_infer(s2, x));
                lemma_assignable(s, mt, type_after(tc_infer(s2, x)), x.span);
                assignable(s, mt, type_after(tc_infer(s2, x)), x.span)
            },
            MatchPattern::Binding(b) => match b {
                BindingNode::IdentifierBinding { name, ty } => def_local(
                    s2,
                    name@,
                    crate::tc_spec::compile_type_in(s2.scopes, ty),
                    false,
                )->0,
                _ => s2,
            },
            _ => s2,
        };
        lemma_stmts_keeps(s3, arms[n - 1].body@, arms[n - 1].body@.len());
    }
}

pub proof fn lemma_return_keeps(st: TcState, s: SAst)
    requires
        tc_return(st, s) is Some,
    ensures
        keeps(st, tc_return(st, s)->0),
    decreases s, 2int,
{
    reveal(tc_return);
    reveal(tc_infer);
    match s.node {
        AstNode::ReturnStmt { value } => match value {
            Some(x) => {
                lemma_infer_keeps(st, *x);
                let s1 = state_after(tc_infer(st, *x));
                lemma_assignable(s1, s1.ret, type_after(tc_infer(st, *x)), x.span);
            },
            None => {},
        },
        _ => {},
    }
}

pub proof fn lemma_binop_stmt_keeps(st: TcState, s: SAst)
    requires
        tc_binop_stmt(st, s) is Some,
    ensures
        keeps(st, tc_binop_stmt(st, s)->0),
    decreases s, 2int,
{
    reveal(tc_binop_stmt);
    reveal(tc_infer);
    match s.node {
        AstNode::BinaryOperation { op, left, right } => {
            lemma_infer_keeps(st, *left);
            let s1 = state_after(tc_infer(st, *left));
            let lt = type_after(tc_infer(st, *left));
            lemma_infer_keeps(s1, *right);
            let s2 = state_after(tc_infer(s1, *right));
            let rt = type_after(tc_infer(s1, *right));
            match overload_of(s2, lt, rt, op)->0 {
                Some(f) => if f.params.len() == 2 {
                    let s3 = assignable(s2, f.params[0], crate::tc_spec::inner_of(lt), left.span);
                    lemma_assignable(s2, f.params[0], crate::tc_spec::inner_of(lt), left.span);
                    lemma_assignable(s3, f.params[1], crate::tc_spec::inner_of(rt), right.span);
                },
                None => {},
            }
        },
        _ => {},
    }
}

/// Checking a class definition adds its class after the others and leaves
/// the scopes, the current class and the return type as they were.
pub proof fn lemma_class_keeps(st: TcState, s: SAst)
    requires
        tc_class(st, s) is Some,
    ensures
        keeps(st, tc_class(st, s)->0),
    decreases s, 1int,
{
    reveal(tc_class);
    reveal(class_bodies);
    match s.node {
        AstNode::ClassDefinition { name, members } => {
            let id: int = st.classes.len() as int;
            let s1 = TcState {
                classes: st.classes.push(
                    crate::ty::SpecClass {
                        name: name@,
                        fields: Seq::empty(),
                        field_index_map: Seq::empty(),
                        methods: Seq::empty(),
                        operators: Seq::empty(),
                    },
                ),
                ..st
            };
            let s2 = def_type(s1, name@, SpecType::Class(id as usize))->0;
            let (fs, fm, mt) = crate::tc_spec::collect_members(s2.scopes, members@);
            let c = crate::ty::SpecClass {
                fields: fs,
                field_index_map: fm,
                methods: mt,
                ..s2.classes[id]
            };
            let s3 = TcState {
                classes: s2.classes.update(id, c),
                current_class: Some(name@),
                ..s2
            };
            let s4 = def_local(push_scope(s3), "self"@, SpecType::Class(id as usize), false)->0;
            lemma_class_bodies_adds(s4, id as usize, members@, members@.len());
        },
        _ => {},
    }
}

/// The bodies of a class's members only add errors and classes, with as
/// many scopes open after them as before and the same current class.
pub proof fn lemma_class_bodies_adds(st: TcState, id: usize, ms: Seq<ClassMember>, n: nat)
    requires
        class_bodies(st, id, ms, n) is Some,
    ensures
        adds(st, class_bodies(st, id, ms, n)->0),
        class_bodies(st, id, ms, n)->0.scopes.len() == st.scopes.len(),
        class_bodies(st, id, ms, n)->0.current_class == st.current_class,
    decreases ms, n,
{
    reveal(class_bodies);
    reveal(tc_stmts);
    if n > 0 && n <= ms.len() {
        lemma_class_bodies_adds(st, id, ms, (n - 1) as nat);
        let s1 = class_bodies(st, id, ms, (n - 1) as nat)->0;
        match ms[n - 1] {
            ClassMember::Method { name, params, body, .. } => {
                let m = crate::scopes::alist_get(s1.classes[id as int].methods, name@)->0;
                let s2 = def_local(s1, name@, SpecType::Function(Box::new(m.2)), false)->0;
                let s3 = def_local(
                    push_scope(TcState { ret: *m.2.ret, ..s2 }),
                    "self"@,
                    SpecType::Class(id),
                    false,
                )->0;
                lemma_tc_params(s3, params@);
                let s4 = tc_params(s3, params@)->0;
                lemma_stmts_keeps(s4, body@, body@.len());
            },
            ClassMember::OperatorOverload { op, params, return_type, body } => {
                let s2 = if params@.len() != 2 {
                    with_error(s1, Span { start: 0, end: 0 }, crate::tc_spec::overload_arity_msg(op))
                } else {
                    s1
                };
                let s3 = push_scope(
                    TcState { ret: crate::tc_spec::compile_type_in(s2.scopes, return_type), ..s2 },
                );
                lemma_tc_params(s3, params@);
                let s4 = tc_params(s3, params@)->0;
                lemma_stmts_keeps(s4, body@, body@.len());
            },
            _ => {},
        }
    }
}


/// Arithmetic is a float whenever either operand is one, whichever side it
/// is on: the result is `f64` exactly when an operand is `f64`, and else
/// `f32` when an operand is `f32`.
pub proof fn lemma_arith_f64(lt: SpecType, rt: SpecType)
    ensures
        (arith_result(lt, rt) is F64) <==> (lt is F64 || rt is F64),
        (arith_result(lt, rt) is F64) == (arith_result(rt, lt) is F64),
        !(lt is F64 || rt is F64) && (lt is F32 || rt is F32) ==> arith_result(lt, rt) is F32,
{
}

/// A binary operation with no overload in play, one of whose operands is an
/// `f64`, has type `f64`, whichever side the `f64` is on; checking it adds
/// nothing to the state after its operands.
pub proof fn lemma_binop_f64(
    st: TcState,
    e: SAst,
    op: crate::operator::Operator,
    left: Box<SAst>,
    right: Box<SAst>,
)
    requires
        e.node == (AstNode::BinaryOperation { op, left, right }),
        tc_infer(st, *left) is Some,
        tc_infer(state_after(tc_infer(st, *left)), *right) is Some,
        ({
            let lt = type_after(tc_infer(st, *left));
            let rt = type_after(tc_infer(state_after(tc_infer(st, *left)), *right));
            (lt is F64 && !(inner_of(rt) is Class)) || (rt is F64 && !(inner_of(lt) is Class))
        }),
    ensures
        tc_binop(st, e) == Some(
            (SpecType::F64, state_after(tc_infer(state_after(tc_infer(st, *left)), *right))),
        ),
{
    reveal(tc_binop);
    reveal(tc_infer);
}

} // verus!
