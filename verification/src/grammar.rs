//! What parsing statements and expressions means.
//!
//! A parse that may not return is described by an `Option`: `None` stands for
//! the inputs on which the parser never comes back. That happens when the
//! input ends inside the arguments of a call, inside an array literal, or
//! inside a `{ ... }` block of a match arm: there the parser keeps asking for
//! one more expression at the end of the input.
use vstd::prelude::*;
use crate::span::Span;
use crate::operator::Operator;
use crate::lexer_spec::SpecToken;
use crate::lexer::token_debug;
use crate::parser::binding_power;
use crate::parser_spec::{
    PTok, PState, SpecCtx, SpecSAst, SpecAstNode, SpecTypeNode, SpecBindingNode,
    SpecMatchPattern, SpecMatchArm, SpecClassMember, SpecCategoryVariant, SpecNamedTupleDef,
    SpecFmtPart, peek_some, peek_span, consume, push_err, expect_any, expect_tok, after,
    after_progress, at_pos, dummy_span, p_type, p_binding, p_macro_invocation, p_consume_end,
    p_module, p_use, p_macro_definition, p_class_field, p_type_params, p_params, p_type_list,
    p_variant_fields,
};

verus! {

/// The result of a parse that returns: the value and the state after it.
pub type Parsed<X> = Option<(X, PState)>;

/// The operator of an infix token that has one.
pub open spec fn binop_operator(tok: SpecToken) -> Option<Operator> {
    match tok {
        SpecToken::BINOP(s) => if s == "+"@ {
            Some(Operator::Add)
        } else if s == "-"@ {
            Some(Operator::Sub)
        } else if s == "*"@ {
            Some(Operator::Mul)
        } else if s == "/"@ {
            Some(Operator::Div)
        } else if s == "%"@ {
            Some(Operator::Mod)
        } else if s == "^"@ {
            Some(Operator::Pow)
        } else if s == "<<"@ {
            Some(Operator::BLShift)
        } else if s == ">>"@ {
            Some(Operator::BRShift)
        } else if s == "&&"@ {
            Some(Operator::LAnd)
        } else if s == "||"@ {
            Some(Operator::LOr)
        } else if s == "|"@ {
            Some(Operator::BOr)
        } else if s == "=="@ {
            Some(Operator::Eq)
        } else if s == "!="@ {
            Some(Operator::NEq)
        } else if s == "<"@ {
            Some(Operator::Lt)
        } else if s == ">"@ {
            Some(Operator::Gt)
        } else if s == "<="@ {
            Some(Operator::Le)
        } else if s == ">="@ {
            Some(Operator::Ge)
        } else {
            None
        },
        SpecToken::AND => Some(Operator::BAnd),
        _ => None,
    }
}

/// The operator that an overload names.
pub open spec fn overload_operator(op: Seq<char>) -> Option<Operator> {
    if op == "+"@ {
        Some(Operator::Add)
    } else if op == "-"@ {
        Some(Operator::Sub)
    } else if op == "/"@ {
        Some(Operator::Div)
    } else if op == "*"@ {
        Some(Operator::Mul)
    } else {
        None
    }
}

pub open spec fn push_some<X>(acc: Seq<X>, x: Option<X>) -> Seq<X> {
    match x {
        Some(v) => acc.push(v),
        None => acc,
    }
}

/// The span of the last node, or `dflt` when there is none.
pub open spec fn last_span(v: Seq<SpecSAst>, dflt: Span) -> Span {
    if v.len() > 0 {
        v.last().1
    } else {
        dflt
    }
}

/// The context inside the body of the class (or tuple, or category) `name`.
pub open spec fn class_ctx(ctx: SpecCtx, name: Seq<char>) -> SpecCtx {
    SpecCtx { no_fn_body: ctx.no_fn_body, current_class: Some(name) }
}

/// Type arguments after `.<`, up to `>`; stops at one that is not a type.
pub open spec fn p_type_args(t: Seq<PTok>, s: PState, ctx: SpecCtx, acc: Seq<SpecTypeNode>) -> (
    Seq<SpecTypeNode>,
    PState,
)
    decreases t.len() - s.pos,
{
    if !(0 <= s.pos <= t.len()) {
        (acc, s)
    } else {
        let nx = peek_some(t, s);
        if nx == SpecToken::BINOP(">"@) {
            (acc, at_pos(s, s.pos + 1))
        } else if nx == SpecToken::PUNCT(","@) {
            p_type_args(t, at_pos(s, s.pos + 1), ctx, acc)
        } else {
            let (ty, s1) = p_type(t, s, ctx);
            match ty {
                None => (acc, s1),
                Some(ty) => if s.pos < t.len() {
                    p_type_args(t, after_progress(t, s, s1), ctx, acc.push(ty))
                } else {
                    (acc, s1)
                },
            }
        }
    }
}

/// The path of a category variant in a pattern after its first name:
/// `.name` segments.
pub open spec fn p_variant_path(t: Seq<PTok>, s: PState, acc: Seq<Seq<char>>) -> (
    Seq<Seq<char>>,
    PState,
)
    decreases t.len() - s.pos,
{
    if !(0 <= s.pos <= t.len()) {
        (acc, s)
    } else if peek_some(t, s) == SpecToken::PUNCT("."@) {
        let (tok, s2) = expect_any(t, at_pos(s, s.pos + 1));
        match tok {
            None => (acc, s2),
            Some((tk, sp)) => match tk {
                SpecToken::IDENT(n) => if s.pos < t.len() {
                    p_variant_path(t, s2, acc.push(n))
                } else {
                    (acc, s2)
                },
                other => (
                    acc,
                    push_err(s2, "Expected variant name after '::', got "@ + token_debug(other), sp),
                ),
            },
        }
    } else {
        (acc, s)
    }
}

/// Parses a statement.
#[verifier::opaque]
pub open spec fn g_stmt(t: Seq<PTok>, s: PState, ctx: SpecCtx) -> Parsed<SpecSAst>
    decreases t.len() - s.pos, 60int,
{
    if !(0 <= s.pos <= t.len()) {
        None
    } else {
        let start = peek_span(t, s);
        let s1 = at_pos(s, s.pos + 1);
        match peek_some(t, s) {
            SpecToken::FN => g_fun_decl(t, s1, ctx),
            SpecToken::DECLARE => g_var_decl(t, s1, ctx),
            SpecToken::FOR => g_for(t, s1, ctx),
            SpecToken::RETURN => g_ret(t, s1, ctx),
            SpecToken::MODULE => Some(p_module(t, s1)),
            SpecToken::USE => Some(p_use(t, s1)),
            SpecToken::PUB => g_public(t, s1, ctx),
            SpecToken::CLASS => g_class_def(t, s1, ctx),
            SpecToken::WHILE => g_while(t, s1, ctx),
            SpecToken::IF => g_cond(t, s1, ctx),
            SpecToken::MATCH => g_match(t, s1, ctx),
            SpecToken::MACRO => Some(p_macro_definition(t, s1)),
            SpecToken::TUPLE => g_named_tuple(t, s1, ctx),
            SpecToken::CATEGORY => g_category(t, s1, ctx),
            SpecToken::THROW => match g_expr(t, s1, ctx) {
                None => None,
                Some((v, s2)) => Some(((SpecAstNode::Throw(Box::new(v)), start.spec_merge(v.1)), s2)),
            },
            _ => g_expr(t, s, ctx),
        }
    }
}

/// Statements up to `end` (which is taken), or to the end of input.
#[verifier::opaque]
pub open spec fn g_body(t: Seq<PTok>, s: PState, ctx: SpecCtx, acc: Seq<SpecSAst>) -> Parsed<
    Seq<SpecSAst>,
>
    decreases t.len() - s.pos, 62int,
{
    if !(0 <= s.pos <= t.len()) {
        None
    } else if peek_some(t, s) == SpecToken::END {
        Some((acc, consume(t, s).1))
    } else if s.pos < t.len() {
        match g_stmt(t, s, ctx) {
            None => None,
            Some((st, s1)) => g_body(t, after_progress(t, s, s1), ctx, acc.push(st)),
        }
    } else {
        None
    }
}

/// Parses an expression.
#[verifier::opaque]
pub open spec fn g_expr(t: Seq<PTok>, s: PState, ctx: SpecCtx) -> Parsed<SpecSAst>
    decreases t.len() - s.pos, 50int,
{
    if !(0 <= s.pos <= t.len()) {
        None
    } else {
        g_expr_bp(t, s, ctx, 0)
    }
}

/// Parses an expression whose infix operators bind tighter than `min_bp`.
#[verifier::opaque]
pub open spec fn g_expr_bp(t: Seq<PTok>, s: PState, ctx: SpecCtx, min_bp: u8) -> Parsed<SpecSAst>
    decreases t.len() - s.pos, 48int,
{
    if !(0 <= s.pos <= t.len()) {
        None
    } else {
        match g_primary(t, s, ctx) {
            None => None,
            Some((l, s1)) => match g_postfix(t, after(t, s, s1), ctx, l) {
                None => None,
                Some((l2, s2)) => g_bp_loop(t, after(t, s, s2), ctx, l2, min_bp),
            },
        }
    }
}

/// Infix operators after `left` that bind tighter than `min_bp`.
#[verifier::opaque]
pub open spec fn g_bp_loop(t: Seq<PTok>, s: PState, ctx: SpecCtx, left: SpecSAst, min_bp: u8) -> Parsed<
    SpecSAst,
>
    decreases t.len() - s.pos, 46int,
{
    if !(0 <= s.pos < t.len()) {
        if 0 <= s.pos <= t.len() {
            Some((left, s))
        } else {
            None
        }
    } else {
        match binding_power(t[s.pos].0) {
            None => Some((left, s)),
            Some(bp) => if bp <= min_bp {
                Some((left, s))
            } else {
                let op = t[s.pos].0;
                let op_span = t[s.pos].1;
                let s1 = at_pos(s, s.pos + 1);
                if op == SpecToken::BINOP("::"@) {
                    let (ty, s2) = p_type(t, s1, ctx);
                    match ty {
                        None => Some((left, s2)),
                        Some(ty) => g_bp_loop(
                            t,
                            after_progress(t, s, s2),
                            ctx,
                            (
                                SpecAstNode::TypeCast { left: Box::new(left), right: ty },
                                left.1.spec_merge(op_span),
                            ),
                            min_bp,
                        ),
                    }
                } else if op == SpecToken::BINOP("="@) {
                    match g_expr_bp(t, s1, ctx, 0) {
                        None => None,
                        Some((r, s2)) => g_bp_loop(
                            t,
                            after_progress(t, s, s2),
                            ctx,
                            (
                                SpecAstNode::Assignment { left: Box::new(left), right: Box::new(r) },
                                left.1.spec_merge(r.1),
                            ),
                            min_bp,
                        ),
                    }
                } else {
                    match binop_operator(op) {
                        None => Some(
                            (
                                left,
                                push_err(s1, "Unknown binary operator: "@ + token_debug(op), op_span),
                            ),
                        ),
                        Some(o) => match g_expr_bp(t, s1, ctx, bp) {
                            None => None,
                            Some((r, s2)) => match g_postfix(
                                t,
                                after_progress(t, s, s2),
                                ctx,
                                (
                                    SpecAstNode::BinaryOperation {
                                        op: o,
                                        left: Box::new(left),
                                        right: Box::new(r),
                                    },
                                    left.1.spec_merge(r.1),
                                ),
                            ) {
                                None => None,
                                Some((l3, s3)) => g_bp_loop(
                                    t,
                                    after_progress(t, s, s3),
                                    ctx,
                                    l3,
                                    min_bp,
                                ),
                            },
                        },
                    }
                }
            },
        }
    }
}

/// Postfix forms after `left`: calls `(...)`, indexing `[...]`, method
/// names `:name`, member names `.name`, type arguments `.<...>`, and class
/// literals `{...}`.
#[verifier::opaque]
pub open spec fn g_postfix(t: Seq<PTok>, s: PState, ctx: SpecCtx, left: SpecSAst) -> Parsed<SpecSAst>
    decreases t.len() - s.pos, 44int,
{
    if !(0 <= s.pos < t.len()) {
        if 0 <= s.pos <= t.len() {
            Some((left, s))
        } else {
            None
        }
    } else {
        let tk = t[s.pos].0;
        let tsp = t[s.pos].1;
        let s1 = at_pos(s, s.pos + 1);
        if tk == SpecToken::PAREN("("@) {
            match g_call_args(t, s1, ctx, seq![]) {
                None => None,
                Some((args, s2)) => g_postfix(
                    t,
                    after_progress(t, s, s2),
                    ctx,
                    (
                        SpecAstNode::FunctionCall { callee: Box::new(left), args },
                        left.1.spec_merge(last_span(args, tsp)),
                    ),
                ),
            }
        } else if tk == SpecToken::PAREN("["@) {
            match g_expr(t, s1, ctx) {
                None => None,
                Some((index, s2)) => {
                    let (c, s3) = expect_tok(
                        t,
                        after(t, s1, s2),
                        SpecToken::PAREN("]"@),
                        "Expected ']'"@,
                    );
                    match c {
                        None => Some((left, s3)),
                        Some((_, cs)) => g_postfix(
                            t,
                            after_progress(t, s, s3),
                            ctx,
                            (
                                SpecAstNode::ComputedIndex {
                                    indexee: Box::new(left),
                                    index: Box::new(index),
                                },
                                left.1.spec_merge(cs),
                            ),
                        ),
                    }
                },
            }
        } else if tk == SpecToken::PUNCT(":"@) {
            match peek_some(t, s1) {
                SpecToken::IDENT(name) => {
                    let seg_span = peek_span(t, s1);
                    g_postfix(
                        t,
                        at_pos(s1, s1.pos + 1),
                        ctx,
                        (
                            SpecAstNode::MethodCall {
                                indexee: Box::new(left),
                                index: Box::new((SpecAstNode::Identifier(name), seg_span)),
                            },
                            left.1.spec_merge(seg_span),
                        ),
                    )
                },
                other => Some(
                    (
                        left,
                        push_err(
                            s1,
                            "Expected ident after ':', got "@ + token_debug(other),
                            peek_span(t, s1),
                        ),
                    ),
                ),
            }
        } else if tk == SpecToken::PUNCT("."@) {
            let nx = peek_some(t, s1);
            if nx == SpecToken::BINOP("<"@) {
                let (targs, s2) = p_type_args(t, at_pos(s1, s1.pos + 1), ctx, seq![]);
                g_postfix(
                    t,
                    after_progress(t, s, s2),
                    ctx,
                    (SpecAstNode::TypeInstantiation { callee: Box::new(left), type_args: targs }, left.1),
                )
            } else {
                match nx {
                    SpecToken::IDENT(name) => {
                        let seg_span = peek_span(t, s1);
                        g_postfix(
                            t,
                            at_pos(s1, s1.pos + 1),
                            ctx,
                            (
                                SpecAstNode::DotIndex {
                                    indexee: Box::new(left),
                                    index: Box::new((SpecAstNode::Identifier(name), seg_span)),
                                },
                                left.1.spec_merge(seg_span),
                            ),
                        )
                    },
                    other => Some(
                        (
                            left,
                            push_err(
                                s1,
                                "Expected ident or '<' after '::', got "@ + token_debug(other),
                                peek_span(t, s1),
                            ),
                        ),
                    ),
                }
            }
        } else if tk == SpecToken::PAREN("{"@) {
            match g_class_literal(t, s, ctx, left) {
                None => None,
                Some((l2, s2)) => g_postfix(t, after_progress(t, s, s2), ctx, l2),
            }
        } else {
            Some((left, s))
        }
    }
}

/// A class literal `{ name = value, ... }` after the expression `ty`.
#[verifier::opaque]
pub open spec fn g_class_literal(t: Seq<PTok>, s: PState, ctx: SpecCtx, ty: SpecSAst) -> Parsed<
    SpecSAst,
>
    decreases t.len() - s.pos, 42int,
{
    if !(0 <= s.pos <= t.len()) {
        None
    } else {
        let start = ty.1;
        let (o, s1) = expect_tok(t, s, SpecToken::PAREN("{"@), "Expected '{'"@);
        match o {
            None => Some(((SpecAstNode::Error, start), s1)),
            Some(_) => match g_class_literal_fields(t, s1, ctx, seq![], start) {
                None => None,
                Some(((fields, end), s2)) => Some(
                    (
                        (SpecAstNode::ClassLiteral { ty: Box::new(ty), fields }, start.spec_merge(end)),
                        s2,
                    ),
                ),
            },
        }
    }
}

/// The fields of a class literal, up to `}`.
#[verifier::opaque]
pub open spec fn g_class_literal_fields(
    t: Seq<PTok>,
    s: PState,
    ctx: SpecCtx,
    acc: Seq<(Seq<char>, SpecSAst)>,
    end: Span,
) -> Parsed<(Seq<(Seq<char>, SpecSAst)>, Span)>
    decreases t.len() - s.pos, 41int,
{
    if !(0 <= s.pos <= t.len()) {
        None
    } else {
        let nx = peek_some(t, s);
        if nx == SpecToken::PAREN("}"@) {
            let (e, s1) = p_consume_end(t, s, end);
            Some(((acc, e), s1))
        } else if nx == SpecToken::PUNCT(","@) {
            g_class_literal_fields(t, at_pos(s, s.pos + 1), ctx, acc, end)
        } else {
            match nx {
                SpecToken::IDENT(name) => {
                    let (e, s2) = expect_tok(
                        t,
                        at_pos(s, s.pos + 1),
                        SpecToken::BINOP("="@),
                        "Expected '=' after field name"@,
                    );
                    match e {
                        None => Some(((acc, end), s2)),
                        Some(_) => match g_expr(t, s2, ctx) {
                            None => None,
                            Some((v, s3)) => g_class_literal_fields(
                                t,
                                after_progress(t, s, s3),
                                ctx,
                                acc.push((name, v)),
                                v.1,
                            ),
                        },
                    }
                },
                other => Some(
                    (
                        (acc, end),
                        push_err(
                            s,
                            "Expected field or '}' in struct literal, got "@ + token_debug(other),
                            peek_span(t, s),
                        ),
                    ),
                ),
            }
        }
    }
}

/// The arguments of a call after `(`, up to `)`.
#[verifier::opaque]
pub open spec fn g_call_args(t: Seq<PTok>, s: PState, ctx: SpecCtx, acc: Seq<SpecSAst>) -> Parsed<
    Seq<SpecSAst>,
>
    decreases t.len() - s.pos, 52int,
{
    if !(0 <= s.pos <= t.len()) {
        None
    } else {
        let nx = peek_some(t, s);
        if nx == SpecToken::PAREN(")"@) {
            Some((acc, at_pos(s, s.pos + 1)))
        } else if nx == SpecToken::PUNCT(","@) {
            g_call_args(t, at_pos(s, s.pos + 1), ctx, acc)
        } else if s.pos < t.len() {
            match g_expr(t, s, ctx) {
                None => None,
                Some((e, s1)) => g_call_args(t, after_progress(t, s, s1), ctx, acc.push(e)),
            }
        } else {
            None
        }
    }
}

/// The members of an array literal after `[`, up to `]`.
#[verifier::opaque]
pub open spec fn g_array_items(
    t: Seq<PTok>,
    s: PState,
    ctx: SpecCtx,
    acc: Seq<SpecSAst>,
    end: Span,
) -> Parsed<(Seq<SpecSAst>, Span)>
    decreases t.len() - s.pos, 52int,
{
    if !(0 <= s.pos <= t.len()) {
        None
    } else {
        let nx = peek_some(t, s);
        if nx == SpecToken::PAREN("]"@) {
            let (e, s1) = p_consume_end(t, s, end);
            Some(((acc, e), s1))
        } else if nx == SpecToken::PUNCT(","@) {
            g_array_items(t, at_pos(s, s.pos + 1), ctx, acc, end)
        } else if s.pos < t.len() {
            match g_expr(t, s, ctx) {
                None => None,
                Some((e, s1)) => g_array_items(t, after_progress(t, s, s1), ctx, acc.push(e), end),
            }
        } else {
            None
        }
    }
}

/// The pairs `key: value` of a hashmap literal after `{`, up to `}`.
#[verifier::opaque]
pub open spec fn g_map_items(
    t: Seq<PTok>,
    s: PState,
    ctx: SpecCtx,
    acc: Seq<(SpecSAst, SpecSAst)>,
    end: Span,
) -> Parsed<(Seq<(SpecSAst, SpecSAst)>, Span)>
    decreases t.len() - s.pos, 52int,
{
    if !(0 <= s.pos <= t.len()) {
        None
    } else {
        let nx = peek_some(t, s);
        if nx == SpecToken::PAREN("}"@) {
            let (e, s1) = p_consume_end(t, s, end);
            Some(((acc, e), s1))
        } else if nx == SpecToken::PUNCT(","@) {
            g_map_items(t, at_pos(s, s.pos + 1), ctx, acc, end)
        } else {
            match g_expr(t, s, ctx) {
                None => None,
                Some((k, s1)) => {
                    let (c, s2) = expect_tok(
                        t,
                        after(t, s, s1),
                        SpecToken::PUNCT(":"@),
                        "Expected ':' after hashmap key"@,
                    );
                    match c {
                        None => Some(((acc, end), s2)),
                        Some(_) => match g_expr(t, s2, ctx) {
                            None => None,
                            Some((v, s3)) => g_map_items(
                                t,
                                after_progress(t, s, s3),
                                ctx,
                                acc.push((k, v)),
                                v.1,
                            ),
                        },
                    }
                },
            }
        }
    }
}

/// The parts of a format string after its start: text chunks and embedded
/// expressions. The loop goes on after the closing token.
#[verifier::opaque]
pub open spec fn g_fstring_parts(
    t: Seq<PTok>,
    s: PState,
    ctx: SpecCtx,
    acc: Seq<SpecFmtPart>,
    end: Span,
) -> Parsed<(Seq<SpecFmtPart>, Span)>
    decreases t.len() - s.pos, 40int,
{
    if !(0 <= s.pos <= t.len()) {
        None
    } else {
        match peek_some(t, s) {
            SpecToken::FSTRING_END => {
                let (e, s1) = p_consume_end(t, s, end);
                if s.pos < t.len() {
                    g_fstring_parts(t, s1, ctx, acc, e)
                } else {
                    None
                }
            },
            SpecToken::FSTRING_CHUNK(c) => g_fstring_parts(
                t,
                at_pos(s, s.pos + 1),
                ctx,
                acc.push(SpecFmtPart::Literal(c)),
                end,
            ),
            SpecToken::FSTRING_EXPR_START => {
                let s1 = at_pos(s, s.pos + 1);
                match g_expr(t, s1, ctx) {
                    None => None,
                    Some((e, s2)) => {
                        let (c, s3) = expect_tok(
                            t,
                            after(t, s1, s2),
                            SpecToken::FSTRING_EXPR_END,
                            "Expected '}}' after fstring expression"@,
                        );
                        match c {
                            None => Some(((acc, end), s3)),
                            Some(_) => g_fstring_parts(
                                t,
                                after_progress(t, s, s3),
                                ctx,
                                acc.push(SpecFmtPart::Expr(e)),
                                end,
                            ),
                        }
                    },
                }
            },
            other => Some(
                (
                    (acc, end),
                    push_err(
                        s,
                        "Unexpected token inside fstring: "@ + token_debug(other),
                        peek_span(t, s),
                    ),
                ),
            ),
        }
    }
}

/// Parses a primary expression: a literal, a name or macro invocation,
/// `self`, `Self`, a prefix operator with its operand, an array, hashmap or
/// format-string literal, or an expression in parentheses.
#[verifier::opaque]
pub open spec fn g_primary(t: Seq<PTok>, s: PState, ctx: SpecCtx) -> Parsed<SpecSAst>
    decreases t.len() - s.pos, 40int,
{
    if !(0 <= s.pos <= t.len()) {
        None
    } else {
        let (tok, s1) = expect_any(t, s);
        match tok {
            None => Some(((SpecAstNode::Error, dummy_span()), s1)),
            Some((tk, span)) => match tk {
                SpecToken::INT(n) => Some(((SpecAstNode::IntLiteral(n as i32), span), s1)),
                SpecToken::FLOAT(f) => Some(((SpecAstNode::FloatLiteral(f), span), s1)),
                SpecToken::STRING(x) => Some(((SpecAstNode::StringLiteral(x), span), s1)),
                SpecToken::IDENT(name) => if peek_some(t, s1) == SpecToken::BANG {
                    Some(p_macro_invocation(t, s1, name, span))
                } else {
                    Some(((SpecAstNode::Identifier(name), span), s1))
                },
                SpecToken::SELF => Some(((SpecAstNode::SelfExpr, span), s1)),
                SpecToken::SELFTYPE => match ctx.current_class {
                    Some(n) => Some(((SpecAstNode::Identifier(n), span), s1)),
                    None => Some(
                        (
                            (SpecAstNode::Error, span),
                            push_err(s1, "'Self' used outside a class body"@, span),
                        ),
                    ),
                },
                SpecToken::TYPEOF => match g_expr(t, s1, ctx) {
                    None => None,
                    Some((o, s2)) => Some(
                        ((SpecAstNode::Typeof(Box::new(o)), span.spec_merge(o.1)), s2),
                    ),
                },
                SpecToken::AND => match g_primary(t, s1, ctx) {
                    None => None,
                    Some((o, s2)) => Some(
                        ((SpecAstNode::Borrowed(Box::new(o)), span.spec_merge(o.1)), s2),
                    ),
                },
                SpecToken::ARROW => match g_primary(t, s1, ctx) {
                    None => None,
                    Some((o, s2)) => Some(((SpecAstNode::Moved(Box::new(o)), span.spec_merge(o.1)), s2)),
                },
                SpecToken::BANG => match g_primary(t, s1, ctx) {
                    None => None,
                    Some((o, s2)) => Some(
                        (
                            (
                                SpecAstNode::UnaryOperation { op: Operator::LNot, right: Box::new(o) },
                                span.spec_merge(o.1),
                            ),
                            s2,
                        ),
                    ),
                },
                SpecToken::UNARY(u) => if u == "-"@ || u == "~"@ {
                    match g_primary(t, s1, ctx) {
                        None => None,
                        Some((o, s2)) => Some(
                            (
                                (
                                    SpecAstNode::UnaryOperation {
                                        op: if u == "-"@ {
                                            Operator::Neg
                                        } else {
                                            Operator::BNot
                                        },
                                        right: Box::new(o),
                                    },
                                    span.spec_merge(o.1),
                                ),
                                s2,
                            ),
                        ),
                    }
                } else {
                    Some(
                        (
                            (SpecAstNode::Error, span),
                            push_err(s1, "Unexpected token in expression: "@ + token_debug(tk), span),
                        ),
                    )
                },
                SpecToken::PAREN(p) => if p == "["@ {
                    match g_array_items(t, s1, ctx, seq![], span) {
                        None => None,
                        Some(((m, e), s2)) => Some(
                            ((SpecAstNode::ArrayLiteral(m), span.spec_merge(e)), s2),
                        ),
                    }
                } else if p == "{"@ {
                    match g_map_items(t, s1, ctx, seq![], span) {
                        None => None,
                        Some(((m, e), s2)) => Some(
                            ((SpecAstNode::HashMapLiteral(m), span.spec_merge(e)), s2),
                        ),
                    }
                } else if p == "("@ {
                    match g_expr(t, s1, ctx) {
                        None => None,
                        Some((e, s2)) => {
                            let (c, s3) = expect_tok(
                                t,
                                after(t, s1, s2),
                                SpecToken::PAREN(")"@),
                                "Expected ')'"@,
                            );
                            let close = match c {
                                Some((_, cs)) => cs,
                                None => e.1,
                            };
                            Some(((e.0, span.spec_merge(close)), s3))
                        },
                    }
                } else {
                    Some(
                        (
                            (SpecAstNode::Error, span),
                            push_err(s1, "Unexpected token in expression: "@ + token_debug(tk), span),
                        ),
                    )
                },
                SpecToken::FSTRING_START => match g_fstring_parts(t, s1, ctx, seq![], span) {
                    None => None,
                    Some(((parts, e), s2)) => Some(
                        ((SpecAstNode::FmtStringLiteral(parts), span.spec_merge(e)), s2),
                    ),
                },
                other => Some(
                    (
                        (SpecAstNode::Error, span),
                        push_err(s1, "Unexpected token in expression: "@ + token_debug(other), span),
                    ),
                ),
            },
        }
    }
}

/// Parses a variable declaration after `let`: a binding and an optional
/// `= value`.
#[verifier::opaque]
pub open spec fn g_var_decl(t: Seq<PTok>, s: PState, ctx: SpecCtx) -> Parsed<SpecSAst>
    decreases t.len() - s.pos, 56int,
{
    if !(0 <= s.pos <= t.len()) {
        None
    } else {
        let start = peek_span(t, s);
        let (b, s1) = p_binding(t, s, ctx);
        let s1 = after(t, s, s1);
        match b {
            None => Some(((SpecAstNode::Error, start), s1)),
            Some(binding) => if peek_some(t, s1) == SpecToken::BINOP("="@) {
                match g_expr(t, at_pos(s1, s1.pos + 1), ctx) {
                    None => None,
                    Some((v, s2)) => Some(
                        (
                            (
                                SpecAstNode::VarDeclaration { binding, init_value: Some(Box::new(v)) },
                                start.spec_merge(v.1),
                            ),
                            s2,
                        ),
                    ),
                }
            } else {
                Some(
                    (
                        (
                            SpecAstNode::VarDeclaration { binding, init_value: None },
                            start.spec_merge(start),
                        ),
                        s1,
                    ),
                )
            },
        }
    }
}

/// Parses a return statement after `return`: a value unless `}` or `end`
/// follows.
#[verifier::opaque]
pub open spec fn g_ret(t: Seq<PTok>, s: PState, ctx: SpecCtx) -> Parsed<SpecSAst>
    decreases t.len() - s.pos, 56int,
{
    if !(0 <= s.pos <= t.len()) {
        None
    } else {
        let start = peek_span(t, s);
        let nx = peek_some(t, s);
        if nx == SpecToken::PAREN("}"@) || nx == SpecToken::END {
            Some(((SpecAstNode::ReturnStmt { value: None }, start), s))
        } else {
            match g_expr(t, s, ctx) {
                None => None,
                Some((v, s1)) => Some(
                    (
                        (SpecAstNode::ReturnStmt { value: Some(Box::new(v)) }, start.spec_merge(v.1)),
                        s1,
                    ),
                ),
            }
        }
    }
}

/// Parses a function declaration after `fn`: a name, optional type
/// parameters, parameters, an optional `: return type`, and a body unless
/// declarations have none here.
#[verifier::opaque]
pub open spec fn g_fun_decl(t: Seq<PTok>, s: PState, ctx: SpecCtx) -> Parsed<SpecSAst>
    decreases t.len() - s.pos, 56int,
{
    if !(0 <= s.pos <= t.len()) {
        None
    } else {
        let start = peek_span(t, s);
        let (nm, s1) = expect_any(t, s);
        match nm {
            None => Some(((SpecAstNode::Error, start), s1)),
            Some((tk, span)) => match tk {
                SpecToken::IDENT(name) => {
                    let (tp, s2) = if peek_some(t, s1) == SpecToken::BINOP("<"@) {
                        p_type_params(t, at_pos(s1, s1.pos + 1), ctx, seq![])
                    } else {
                        (Some(seq![]), s1)
                    };
                    match tp {
                        None => Some(((SpecAstNode::Error, start), s2)),
                        Some(type_params) => {
                            let (o, s3) = expect_tok(
                                t,
                                s2,
                                SpecToken::PAREN("("@),
                                "Expected '(' after function name"@,
                            );
                            match o {
                                None => Some(((SpecAstNode::Error, start), s3)),
                                Some(_) => {
                                    let (ps, s4) = p_params(t, s3, ctx, seq![]);
                                    match ps {
                                        None => Some(((SpecAstNode::Error, start), s4)),
                                        Some(params) => {
                                            let (rt, s5) = if peek_some(t, s4) == SpecToken::PUNCT(
                                                ":"@,
                                            ) {
                                                p_type(t, at_pos(s4, s4.pos + 1), ctx)
                                            } else {
                                                (Some(SpecTypeNode::Inferred), s4)
                                            };
                                            match rt {
                                                None => Some(((SpecAstNode::Error, start), s5)),
                                                Some(return_type) => {
                                                    let body_res = if ctx.no_fn_body {
                                                        Some((Seq::<SpecSAst>::empty(), s5))
                                                    } else {
                                                        g_body(t, after(t, s1, s5), ctx, seq![])
                                                    };
                                                    match body_res {
                                                        None => None,
                                                        Some((body, s6)) => Some(
                                                            (
                                                                (
                                                                    SpecAstNode::FunctionDeclaration {
                                                                        name,
                                                                        type_params,
                                                                        params,
                                                                        return_type,
                                                                        body,
                                                                    },
                                                                    start.spec_merge(
                                                                        last_span(body, start),
                                                                    ),
                                                                ),
                                                                s6,
                                                            ),
                                                        ),
                                                    }
                                                },
                                            }
                                        },
                                    }
                                },
                            }
                        },
                    }
                },
                other => Some(
                    (
                        (SpecAstNode::Error, span),
                        push_err(s1, "Expected function name, got "@ + token_debug(other), span),
                    ),
                ),
            },
        }
    }
}

/// Parses a for loop after `for`: `(binding in iterator)` and a body.
#[verifier::opaque]
pub open spec fn g_for(t: Seq<PTok>, s: PState, ctx: SpecCtx) -> Parsed<SpecSAst>
    decreases t.len() - s.pos, 56int,
{
    if !(0 <= s.pos <= t.len()) {
        None
    } else {
        let start = peek_span(t, s);
        let (o, s1) = expect_tok(t, s, SpecToken::PAREN("("@), "Expected '(' after for"@);
        match o {
            None => Some(((SpecAstNode::Error, start), s1)),
            Some(_) => {
                let (b, s2) = p_binding(t, s1, ctx);
                match b {
                    None => Some(((SpecAstNode::Error, start), s2)),
                    Some(binding) => {
                        let (i, s3) = expect_tok(
                            t,
                            s2,
                            SpecToken::IN,
                            "Expected 'in' after for-loop binding"@,
                        );
                        match i {
                            None => Some(((SpecAstNode::Error, start), s3)),
                            Some(_) => match g_expr(t, after(t, s1, s3), ctx) {
                                None => None,
                                Some((iter, s4)) => {
                                    let (c, s5) = expect_tok(
                                        t,
                                        s4,
                                        SpecToken::PAREN(")"@),
                                        "Expected ')' after for loop head"@,
                                    );
                                    match c {
                                        None => Some(((SpecAstNode::Error, start), s5)),
                                        Some(_) => match g_body(t, after(t, s1, s5), ctx, seq![]) {
                                            None => None,
                                            Some((body, s6)) => Some(
                                                (
                                                    (
                                                        SpecAstNode::ForLoop {
                                                            binding,
                                                            iterator: Box::new(iter),
                                                            body,
                                                        },
                                                        start.spec_merge(last_span(body, start)),
                                                    ),
                                                    s6,
                                                ),
                                            ),
                                        },
                                    }
                                },
                            },
                        }
                    },
                }
            },
        }
    }
}

/// Parses a while loop after `while`: `(condition)` and a body.
#[verifier::opaque]
pub open spec fn g_while(t: Seq<PTok>, s: PState, ctx: SpecCtx) -> Parsed<SpecSAst>
    decreases t.len() - s.pos, 56int,
{
    if !(0 <= s.pos <= t.len()) {
        None
    } else {
        let start = peek_span(t, s);
        let (o, s1) = expect_tok(t, s, SpecToken::PAREN("("@), "Expected '(' after while"@);
        match o {
            None => Some(((SpecAstNode::Error, start), s1)),
            Some(_) => match g_expr(t, s1, ctx) {
                None => None,
                Some((cond, s2)) => {
                    let (c, s3) = expect_tok(
                        t,
                        after(t, s1, s2),
                        SpecToken::PAREN(")"@),
                        "Expected ')' after while condition"@,
                    );
                    match c {
                        None => Some(((SpecAstNode::Error, start), s3)),
                        Some(_) => match g_body(t, after(t, s1, s3), ctx, seq![]) {
                            None => None,
                            Some((body, s4)) => Some(
                                (
                                    (
                                        SpecAstNode::WhileLoop { condition: Box::new(cond), body },
                                        start.spec_merge(last_span(body, start)),
                                    ),
                                    s4,
                                ),
                            ),
                        },
                    }
                },
            },
        }
    }
}

/// Parses a conditional after `if` (or `elseif`): `(condition)`, a body,
/// and an `else` body or an `elseif` branch.
#[verifier::opaque]
pub open spec fn g_cond(t: Seq<PTok>, s: PState, ctx: SpecCtx) -> Parsed<SpecSAst>
    decreases t.len() - s.pos, 56int,
{
    if !(0 <= s.pos <= t.len()) {
        None
    } else {
        let start = peek_span(t, s);
        let (o, s1) = expect_tok(t, s, SpecToken::PAREN("("@), "Expected '(' after if"@);
        match o {
            None => Some(((SpecAstNode::Error, start), s1)),
            Some(_) => match g_expr(t, s1, ctx) {
                None => None,
                Some((cond, s2)) => {
                    let (c, s3) = expect_tok(
                        t,
                        after(t, s1, s2),
                        SpecToken::PAREN(")"@),
                        "Expected ')' after if condition"@,
                    );
                    match c {
                        None => Some(((SpecAstNode::Error, start), s3)),
                        Some(_) => match g_cond_rest(t, after(t, s1, s3), ctx, seq![], start) {
                            None => None,
                            Some(((body, next, end), s4)) => Some(
                                (
                                    (
                                        SpecAstNode::ConditionalBranch {
                                            condition: Some(Box::new(cond)),
                                            body,
                                            next,
                                        },
                                        start.spec_merge(end),
                                    ),
                                    s4,
                                ),
                            ),
                        },
                    }
                },
            },
        }
    }
}

/// The body of a conditional, up to `end`, `else` (with its body) or
/// `elseif` (with its branch).
#[verifier::opaque]
pub open spec fn g_cond_rest(
    t: Seq<PTok>,
    s: PState,
    ctx: SpecCtx,
    body: Seq<SpecSAst>,
    end: Span,
) -> Parsed<(Seq<SpecSAst>, Option<Box<SpecSAst>>, Span)>
    decreases t.len() - s.pos, 62int,
{
    if !(0 <= s.pos <= t.len()) {
        None
    } else {
        let nx = peek_some(t, s);
        if nx == SpecToken::END {
            let (e, s1) = p_consume_end(t, s, end);
            Some(((body, None, e), s1))
        } else if nx == SpecToken::ELSE {
            let else_start = peek_span(t, s);
            match g_else_body(t, at_pos(s, s.pos + 1), ctx, seq![], end) {
                None => None,
                Some(((eb, e), s2)) => Some(
                    (
                        (
                            body,
                            Some(
                                Box::new(
                                    (
                                        SpecAstNode::ConditionalBranch {
                                            condition: None,
                                            body: eb,
                                            next: None,
                                        },
                                        else_start.spec_merge(last_span(eb, else_start)),
                                    ),
                                ),
                            ),
                            e,
                        ),
                        s2,
                    ),
                ),
            }
        } else if nx == SpecToken::ELSEIF {
            match g_cond(t, at_pos(s, s.pos + 1), ctx) {
                None => None,
                Some((br, s2)) => Some(((body, Some(Box::new(br)), br.1), s2)),
            }
        } else if s.pos < t.len() {
            match g_stmt(t, s, ctx) {
                None => None,
                Some((st, s1)) => g_cond_rest(t, after_progress(t, s, s1), ctx, body.push(st), end),
            }
        } else {
            None
        }
    }
}

/// The body after `else`, up to `end`.
#[verifier::opaque]
pub open spec fn g_else_body(
    t: Seq<PTok>,
    s: PState,
    ctx: SpecCtx,
    acc: Seq<SpecSAst>,
    end: Span,
) -> Parsed<(Seq<SpecSAst>, Span)>
    decreases t.len() - s.pos, 62int,
{
    if !(0 <= s.pos <= t.len()) {
        None
    } else if peek_some(t, s) == SpecToken::END {
        let (e, s1) = p_consume_end(t, s, end);
        Some(((acc, e), s1))
    } else if s.pos < t.len() {
        match g_stmt(t, s, ctx) {
            None => None,
            Some((st, s1)) => g_else_body(t, after_progress(t, s, s1), ctx, acc.push(st), end),
        }
    } else {
        None
    }
}

/// Parses a match statement after `match`: `(value)` and arms up to `end`.
#[verifier::opaque]
pub open spec fn g_match(t: Seq<PTok>, s: PState, ctx: SpecCtx) -> Parsed<SpecSAst>
    decreases t.len() - s.pos, 56int,
{
    if !(0 <= s.pos <= t.len()) {
        None
    } else {
        let start = peek_span(t, s);
        let (o, s1) = expect_tok(t, s, SpecToken::PAREN("("@), "Expected '(' after match"@);
        match o {
            None => Some(((SpecAstNode::Error, start), s1)),
            Some(_) => match g_expr(t, s1, ctx) {
                None => None,
                Some((matchee, s2)) => {
                    let (c, s3) = expect_tok(
                        t,
                        after(t, s1, s2),
                        SpecToken::PAREN(")"@),
                        "Expected ')' after match head"@,
                    );
                    match c {
                        None => Some(((SpecAstNode::Error, start), s3)),
                        Some(_) => match g_arms(t, after(t, s1, s3), ctx, seq![], start) {
                            None => None,
                            Some((res, s4)) => match res {
                                Err(sp) => Some(((SpecAstNode::Error, sp), s4)),
                                Ok((arms, end)) => Some(
                                    (
                                        (
                                            SpecAstNode::MatchStmt {
                                                matchee: Box::new(matchee),
                                                arms,
                                            },
                                            start.spec_merge(end),
                                        ),
                                        s4,
                                    ),
                                ),
                            },
                        },
                    }
                },
            },
        }
    }
}

/// The arms of a match, up to `end`; `Err(span)` when an arm has neither
/// `=>` nor `do`, which makes the whole statement an error node.
#[verifier::opaque]
pub open spec fn g_arms(
    t: Seq<PTok>,
    s: PState,
    ctx: SpecCtx,
    acc: Seq<SpecMatchArm>,
    end: Span,
) -> Parsed<Result<(Seq<SpecMatchArm>, Span), Span>>
    decreases t.len() - s.pos, 62int,
{
    if !(0 <= s.pos <= t.len()) {
        None
    } else {
        let nx = peek_some(t, s);
        if nx == SpecToken::END {
            let (e, s1) = p_consume_end(t, s, end);
            Some((Ok((acc, e)), s1))
        } else if nx == SpecToken::PUNCT(","@) {
            g_arms(t, at_pos(s, s.pos + 1), ctx, acc, end)
        } else if s.pos < t.len() {
            match g_match_pattern(t, s, ctx) {
                None => None,
                Some((pattern, s1)) => match g_arm_body(t, after_progress(t, s, s1), ctx) {
                    None => None,
                    Some((res, s2)) => match res {
                        Err(sp) => Some((Err(sp), s2)),
                        Ok(body) => g_arms(
                            t,
                            after_progress(t, s, s2),
                            ctx,
                            acc.push(SpecMatchArm { pattern, body }),
                            last_span(body, end),
                        ),
                    },
                },
            }
        } else {
            None
        }
    }
}

/// The body of a match arm after its pattern: `=> { stmts }`, `=> stmt`, or
/// `do stmts end`.
#[verifier::opaque]
pub open spec fn g_arm_body(t: Seq<PTok>, s: PState, ctx: SpecCtx) -> Parsed<
    Result<Seq<SpecSAst>, Span>,
>
    decreases t.len() - s.pos, 62int,
{
    if !(0 <= s.pos <= t.len()) {
        None
    } else {
        let nb = peek_some(t, s);
        if nb == SpecToken::FATARROW {
            let s2 = at_pos(s, s.pos + 1);
            if peek_some(t, s2) == SpecToken::PAREN("{"@) {
                match g_brace_block(t, at_pos(s2, s2.pos + 1), ctx, seq![]) {
                    None => None,
                    Some((b, s3)) => Some((Ok(b), s3)),
                }
            } else {
                match g_stmt(t, s2, ctx) {
                    None => None,
                    Some((st, s3)) => Some((Ok(seq![st]), s3)),
                }
            }
        } else if nb == SpecToken::DO {
            match g_do_block(t, at_pos(s, s.pos + 1), ctx, seq![]) {
                None => None,
                Some((b, s3)) => Some((Ok(b), s3)),
            }
        } else {
            Some(
                (
                    Err(peek_span(t, s)),
                    push_err(
                        s,
                        "Expected '=>' or 'do' after match pattern, got "@ + token_debug(nb),
                        peek_span(t, s),
                    ),
                ),
            )
        }
    }
}

/// Statements up to `}` (which is taken).
#[verifier::opaque]
pub open spec fn g_brace_block(t: Seq<PTok>, s: PState, ctx: SpecCtx, acc: Seq<SpecSAst>) -> Parsed<
    Seq<SpecSAst>,
>
    decreases t.len() - s.pos, 62int,
{
    if !(0 <= s.pos <= t.len()) {
        None
    } else if peek_some(t, s) == SpecToken::PAREN("}"@) {
        Some((acc, at_pos(s, s.pos + 1)))
    } else if s.pos < t.len() {
        match g_stmt(t, s, ctx) {
            None => None,
            Some((st, s1)) => g_brace_block(t, after_progress(t, s, s1), ctx, acc.push(st)),
        }
    } else {
        None
    }
}

/// Statements up to `end` (which is taken), or to the end of input.
#[verifier::opaque]
pub open spec fn g_do_block(t: Seq<PTok>, s: PState, ctx: SpecCtx, acc: Seq<SpecSAst>) -> Parsed<
    Seq<SpecSAst>,
>
    decreases t.len() - s.pos, 62int,
{
    if !(0 <= s.pos <= t.len()) {
        None
    } else if peek_some(t, s) == SpecToken::END {
        Some((acc, consume(t, s).1))
    } else if s.pos < t.len() {
        match g_stmt(t, s, ctx) {
            None => None,
            Some((st, s1)) => g_do_block(t, after_progress(t, s, s1), ctx, acc.push(st)),
        }
    } else {
        None
    }
}

/// Parses the pattern of a match arm: `_`, `default [name]`, a binding list,
/// a category variant path `A.B[(bindings)]`, a name, or an expression.
#[verifier::opaque]
pub open spec fn g_match_pattern(t: Seq<PTok>, s: PState, ctx: SpecCtx) -> Parsed<SpecMatchPattern>
    decreases t.len() - s.pos, 58int,
{
    if !(0 <= s.pos <= t.len()) {
        None
    } else {
        let nx = peek_some(t, s);
        let s1 = at_pos(s, s.pos + 1);
        if nx == SpecToken::IDENT("_"@) {
            Some((SpecMatchPattern::Wildcard, s1))
        } else if nx == SpecToken::DEFAULT {
            match peek_some(t, s1) {
                SpecToken::IDENT(n) => Some((SpecMatchPattern::Default(Some(n)), at_pos(s1, s1.pos + 1))),
                _ => Some((SpecMatchPattern::Default(None), s1)),
            }
        } else if nx == SpecToken::PAREN("("@) {
            let (b, s2) = p_binding(t, s, ctx);
            Some(
                (
                    SpecMatchPattern::Binding(
                        match b {
                            Some(b) => b,
                            None => SpecBindingNode::OrderedBinding { bindings: seq![] },
                        },
                    ),
                    s2,
                ),
            )
        } else if nx == SpecToken::PAREN("{"@) {
            let (b, s2) = p_binding(t, s, ctx);
            Some(
                (
                    SpecMatchPattern::Binding(
                        match b {
                            Some(b) => b,
                            None => SpecBindingNode::UnorderedBinding { bindings: seq![] },
                        },
                    ),
                    s2,
                ),
            )
        } else {
            match nx {
                SpecToken::IDENT(first) => if peek_some(t, s1) == SpecToken::PUNCT("."@) {
                    let (path, s2) = p_variant_path(t, s1, seq![first]);
                    let (binding, s3) = if peek_some(t, s2) == SpecToken::PAREN("("@) {
                        p_binding(t, s2, ctx)
                    } else {
                        (None, s2)
                    };
                    Some((SpecMatchPattern::CategoryVariant { path, binding }, s3))
                } else {
                    Some(
                        (
                            SpecMatchPattern::Binding(
                                SpecBindingNode::IdentifierBinding {
                                    name: first,
                                    ty: SpecTypeNode::Inferred,
                                },
                            ),
                            s1,
                        ),
                    )
                },
                _ => match g_expr(t, s, ctx) {
                    None => None,
                    Some((e, s2)) => Some((SpecMatchPattern::Expr(e), s2)),
                },
            }
        }
    }
}

/// Wraps an exported statement.
pub open spec fn public_of(start: Span, r: Parsed<SpecSAst>) -> Parsed<SpecSAst> {
    match r {
        None => None,
        Some((inner, s)) => Some(((SpecAstNode::Public(Box::new(inner)), start.spec_merge(inner.1)), s)),
    }
}

/// Parses an exported statement after `pub`.
#[verifier::opaque]
pub open spec fn g_public(t: Seq<PTok>, s: PState, ctx: SpecCtx) -> Parsed<SpecSAst>
    decreases t.len() - s.pos, 58int,
{
    if !(0 <= s.pos <= t.len()) {
        None
    } else {
        let start = peek_span(t, s);
        let s1 = at_pos(s, s.pos + 1);
        match peek_some(t, s) {
            SpecToken::CLASS => public_of(start, g_class_def(t, s1, ctx)),
            SpecToken::CATEGORY => public_of(start, g_category(t, s1, ctx)),
            SpecToken::TUPLE => public_of(start, g_named_tuple(t, s1, ctx)),
            SpecToken::MACRO => public_of(start, Some(p_macro_definition(t, s1))),
            SpecToken::IDENT(_) => public_of(start, g_var_decl(t, s, ctx)),
            SpecToken::FN => public_of(start, g_fun_decl(t, s1, ctx)),
            other => Some(
                (
                    (SpecAstNode::Error, start),
                    push_err(s, "Cannot export this statement as public: "@ + token_debug(other), start),
                ),
            ),
        }
    }
}

/// Parses a class definition after `class`: a name and members up to `end`.
#[verifier::opaque]
pub open spec fn g_class_def(t: Seq<PTok>, s: PState, ctx: SpecCtx) -> Parsed<SpecSAst>
    decreases t.len() - s.pos, 56int,
{
    if !(0 <= s.pos <= t.len()) {
        None
    } else {
        let start = peek_span(t, s);
        let (nm, s1) = expect_any(t, s);
        match nm {
            None => Some(((SpecAstNode::Error, start), s1)),
            Some((tk, span)) => match tk {
                SpecToken::IDENT(name) => match g_members(
                    t,
                    s1,
                    class_ctx(ctx, name),
                    seq![],
                    start,
                ) {
                    None => None,
                    Some((res, s2)) => match res {
                        Err(sp) => Some(((SpecAstNode::Error, sp), s2)),
                        Ok((members, end)) => Some(
                            (
                                (SpecAstNode::ClassDefinition { name, members }, start.spec_merge(end)),
                                s2,
                            ),
                        ),
                    },
                },
                other => Some(
                    (
                        (SpecAstNode::Error, span),
                        push_err(s1, "Expected class name, got "@ + token_debug(other), span),
                    ),
                ),
            },
        }
    }
}

/// The members of a class body, up to `end`; `Err(span)` at a token that
/// starts no member, which makes the whole definition an error node.
#[verifier::opaque]
pub open spec fn g_members(
    t: Seq<PTok>,
    s: PState,
    ctx: SpecCtx,
    acc: Seq<SpecClassMember>,
    end: Span,
) -> Parsed<Result<(Seq<SpecClassMember>, Span), Span>>
    decreases t.len() - s.pos, 62int,
{
    if !(0 <= s.pos <= t.len()) {
        None
    } else {
        let nx = peek_some(t, s);
        let s1 = at_pos(s, s.pos + 1);
        if nx == SpecToken::END {
            let (e, s2) = p_consume_end(t, s, end);
            Some((Ok((acc, e)), s2))
        } else if nx == SpecToken::PUB {
            let n2 = peek_some(t, s1);
            if n2 == SpecToken::FN {
                match g_class_method(t, at_pos(s1, s1.pos + 1), ctx, true) {
                    None => None,
                    Some((m, s2)) => g_members(t, after_progress(t, s, s2), ctx, push_some(acc, m), end),
                }
            } else {
                match n2 {
                    SpecToken::IDENT(_) => {
                        let (m, s2) = p_class_field(t, s1, ctx, true);
                        g_members(t, after_progress(t, s, s2), ctx, push_some(acc, m), end)
                    },
                    other => Some(
                        (
                            Err(peek_span(t, s1)),
                            push_err(
                                s1,
                                "Expected fn or field after pub in class, got "@ + token_debug(other),
                                peek_span(t, s1),
                            ),
                        ),
                    ),
                }
            }
        } else if nx == SpecToken::OPERATOR {
            match g_operator_overload(t, s1, ctx) {
                None => None,
                Some((m, s2)) => g_members(t, after_progress(t, s, s2), ctx, push_some(acc, m), end),
            }
        } else if nx == SpecToken::FN {
            match g_class_method(t, s1, ctx, false) {
                None => None,
                Some((m, s2)) => g_members(t, after_progress(t, s, s2), ctx, push_some(acc, m), end),
            }
        } else {
            match nx {
                SpecToken::IDENT(_) => {
                    let (m, s2) = p_class_field(t, s, ctx, false);
                    if s.pos < t.len() {
                        g_members(t, after_progress(t, s, s2), ctx, push_some(acc, m), end)
                    } else {
                        None
                    }
                },
                other => Some(
                    (
                        Err(peek_span(t, s)),
                        push_err(
                            s,
                            "Unexpected token in class body: "@ + token_debug(other),
                            peek_span(t, s),
                        ),
                    ),
                ),
            }
        }
    }
}

/// Parses a method after `fn`: a name, optional type parameters, `(`, an
/// optional `self`, parameters, an optional `: return type`, and a body.
#[verifier::opaque]
pub open spec fn g_class_method(t: Seq<PTok>, s: PState, ctx: SpecCtx, is_public: bool) -> Parsed<
    Option<SpecClassMember>,
>
    decreases t.len() - s.pos, 56int,
{
    if !(0 <= s.pos <= t.len()) {
        None
    } else {
        let (nm, s1) = expect_any(t, s);
        match nm {
            None => Some((None, s1)),
            Some((tk, span)) => match tk {
                SpecToken::IDENT(name) => {
                    let (tp, s2) = if peek_some(t, s1) == SpecToken::BINOP("<"@) {
                        p_type_params(t, at_pos(s1, s1.pos + 1), ctx, seq![])
                    } else {
                        (Some(seq![]), s1)
                    };
                    match tp {
                        None => Some((None, s2)),
                        Some(type_params) => {
                            let (o, s3) = expect_tok(
                                t,
                                s2,
                                SpecToken::PAREN("("@),
                                "Expected '(' after method name"@,
                            );
                            match o {
                                None => Some((None, s3)),
                                Some(_) => {
                                    let has_self = peek_some(t, s3) == SpecToken::SELF;
                                    let s4 = if has_self {
                                        let sa = at_pos(s3, s3.pos + 1);
                                        if peek_some(t, sa) == SpecToken::PUNCT(","@) {
                                            at_pos(sa, sa.pos + 1)
                                        } else {
                                            sa
                                        }
                                    } else {
                                        s3
                                    };
                                    let (ps, s5) = p_params(t, s4, ctx, seq![]);
                                    match ps {
                                        None => Some((None, s5)),
                                        Some(params) => {
                                            let (rt, s6) = if peek_some(t, s5) == SpecToken::PUNCT(
                                                ":"@,
                                            ) {
                                                p_type(t, at_pos(s5, s5.pos + 1), ctx)
                                            } else {
                                                (Some(SpecTypeNode::Inferred), s5)
                                            };
                                            match rt {
                                                None => Some((None, s6)),
                                                Some(return_type) => match g_body(
                                                    t,
                                                    after(t, s1, s6),
                                                    ctx,
                                                    seq![],
                                                ) {
                                                    None => None,
                                                    Some((body, s7)) => Some(
                                                        (
                                                            Some(
                                                                SpecClassMember::Method {
                                                                    name,
                                                                    type_params,
                                                                    has_self,
                                                                    params,
                                                                    return_type,
                                                                    body,
                                                                    is_public,
                                                                },
                                                            ),
                                                            s7,
                                                        ),
                                                    ),
                                                },
                                            }
                                        },
                                    }
                                },
                            }
                        },
                    }
                },
                other => Some(
                    (None, push_err(s1, "Expected method name, got "@ + token_debug(other), span)),
                ),
            },
        }
    }
}

/// Parses an operator overload after `operator`: the operator, parameters,
/// an optional `: return type`, and a body.
#[verifier::opaque]
pub open spec fn g_operator_overload(t: Seq<PTok>, s: PState, ctx: SpecCtx) -> Parsed<
    Option<SpecClassMember>,
>
    decreases t.len() - s.pos, 56int,
{
    if !(0 <= s.pos <= t.len()) {
        None
    } else {
        let (ot, s1) = expect_any(t, s);
        match ot {
            None => Some((None, s1)),
            Some((tk, span)) => {
                let op_str = match tk {
                    SpecToken::BINOP(x) => Some(x),
                    SpecToken::UNARY(x) => Some(x),
                    _ => None,
                };
                match op_str {
                    None => Some(
                        (None, push_err(s1, "Unknown operator "@ + token_debug(tk), span)),
                    ),
                    Some(op) => {
                        let (o, s2) = expect_tok(
                            t,
                            s1,
                            SpecToken::PAREN("("@),
                            "Expected '(' after operator"@,
                        );
                        match o {
                            None => Some((None, s2)),
                            Some(_) => {
                                let (ps, s3) = p_params(t, s2, ctx, seq![]);
                                match ps {
                                    None => Some((None, s3)),
                                    Some(params) => {
                                        let (rt, s4) = if peek_some(t, s3) == SpecToken::PUNCT(
                                            ":"@,
                                        ) {
                                            p_type(t, at_pos(s3, s3.pos + 1), ctx)
                                        } else {
                                            (Some(SpecTypeNode::Inferred), s3)
                                        };
                                        match rt {
                                            None => Some((None, s4)),
                                            Some(return_type) => match g_body(
                                                t,
                                                after(t, s1, s4),
                                                ctx,
                                                seq![],
                                            ) {
                                                None => None,
                                                Some((body, s5)) => match overload_operator(op) {
                                                    Some(o) => Some(
                                                        (
                                                            Some(
                                                                SpecClassMember::OperatorOverload {
                                                                    op: o,
                                                                    params,
                                                                    return_type,
                                                                    body,
                                                                },
                                                            ),
                                                            s5,
                                                        ),
                                                    ),
                                                    None => Some(
                                                        (
                                                            None,
                                                            push_err(
                                                                s5,
                                                                "Unknown operator '"@ + op + "'"@,
                                                                span,
                                                            ),
                                                        ),
                                                    ),
                                                },
                                            },
                                        }
                                    },
                                }
                            },
                        }
                    },
                }
            },
        }
    }
}

/// Parses a named tuple after `tuple`: a name, field types in `( )`, and an
/// optional block of methods.
#[verifier::opaque]
pub open spec fn g_named_tuple(t: Seq<PTok>, s: PState, ctx: SpecCtx) -> Parsed<SpecSAst>
    decreases t.len() - s.pos, 56int,
{
    if !(0 <= s.pos <= t.len()) {
        None
    } else {
        let start = peek_span(t, s);
        let (nm, s1) = expect_any(t, s);
        match nm {
            None => Some(((SpecAstNode::Error, start), s1)),
            Some((tk, span)) => match tk {
                SpecToken::IDENT(name) => {
                    let (o, s2) = expect_tok(
                        t,
                        s1,
                        SpecToken::PAREN("("@),
                        "Expected '(' after tuple name"@,
                    );
                    match o {
                        None => Some(((SpecAstNode::Error, start), s2)),
                        Some(_) => {
                            let (fs, s3) = p_type_list(t, s2, ctx, seq![]);
                            match fs {
                                None => Some(((SpecAstNode::Error, start), s3)),
                                Some(fields) => match g_method_block(
                                    t,
                                    after(t, s1, s3),
                                    class_ctx(ctx, name),
                                    seq![],
                                ) {
                                    None => None,
                                    Some((methods, s4)) => Some(
                                        (
                                            (
                                                SpecAstNode::NamedTupleDefinition(
                                                    SpecNamedTupleDef { name, fields, methods },
                                                ),
                                                start.spec_merge(peek_span(t, s4)),
                                            ),
                                            s4,
                                        ),
                                    ),
                                },
                            }
                        },
                    }
                },
                other => Some(
                    (
                        (SpecAstNode::Error, span),
                        push_err(s1, "Expected tuple name, got "@ + token_debug(other), span),
                    ),
                ),
            },
        }
    }
}

/// An optional block of methods: `fn` and `pub fn` methods, up to `end`
/// or the first token that starts none.
#[verifier::opaque]
pub open spec fn g_method_block(t: Seq<PTok>, s: PState, ctx: SpecCtx, acc: Seq<SpecClassMember>) -> Parsed<
    Seq<SpecClassMember>,
>
    decreases t.len() - s.pos, 56int,
{
    if !(0 <= s.pos <= t.len()) {
        None
    } else {
        let nx = peek_some(t, s);
        let s1 = at_pos(s, s.pos + 1);
        if nx == SpecToken::FN {
            match g_class_method(t, s1, ctx, false) {
                None => None,
                Some((m, s2)) => g_method_block(t, after_progress(t, s, s2), ctx, push_some(acc, m)),
            }
        } else if nx == SpecToken::PUB {
            let n2 = peek_some(t, s1);
            if n2 == SpecToken::FN {
                match g_class_method(t, at_pos(s1, s1.pos + 1), ctx, true) {
                    None => None,
                    Some((m, s2)) => g_method_block(
                        t,
                        after_progress(t, s, s2),
                        ctx,
                        push_some(acc, m),
                    ),
                }
            } else {
                Some(
                    (
                        acc,
                        push_err(
                            s1,
                            "Expected 'fn' after 'pub' in method block, got "@ + token_debug(n2),
                            peek_span(t, s1),
                        ),
                    ),
                )
            }
        } else if nx == SpecToken::END {
            Some((acc, consume(t, s).1))
        } else {
            Some((acc, s))
        }
    }
}

/// Parses a category after `category`: a name and variants up to `end`.
#[verifier::opaque]
pub open spec fn g_category(t: Seq<PTok>, s: PState, ctx: SpecCtx) -> Parsed<SpecSAst>
    decreases t.len() - s.pos, 56int,
{
    if !(0 <= s.pos <= t.len()) {
        None
    } else {
        let start = peek_span(t, s);
        let (nm, s1) = expect_any(t, s);
        match nm {
            None => Some(((SpecAstNode::Error, start), s1)),
            Some((tk, span)) => match tk {
                SpecToken::IDENT(name) => match g_variants(
                    t,
                    s1,
                    class_ctx(ctx, name),
                    seq![],
                    start,
                ) {
                    None => None,
                    Some((res, s2)) => match res {
                        Err(sp) => Some(((SpecAstNode::Error, sp), s2)),
                        Ok((variants, end)) => Some(
                            (
                                (
                                    SpecAstNode::CategoryDefinition { name, variants },
                                    start.spec_merge(end),
                                ),
                                s2,
                            ),
                        ),
                    },
                },
                other => Some(
                    (
                        (SpecAstNode::Error, span),
                        push_err(s1, "Expected category name, got "@ + token_debug(other), span),
                    ),
                ),
            },
        }
    }
}

/// The variants of a category, up to `end`; a variant that fails ends the
/// list, and `Err(span)` at a token that starts no variant.
#[verifier::opaque]
pub open spec fn g_variants(
    t: Seq<PTok>,
    s: PState,
    ctx: SpecCtx,
    acc: Seq<SpecCategoryVariant>,
    end: Span,
) -> Parsed<Result<(Seq<SpecCategoryVariant>, Span), Span>>
    decreases t.len() - s.pos, 56int,
{
    if !(0 <= s.pos <= t.len()) {
        None
    } else {
        let nx = peek_some(t, s);
        let s1 = at_pos(s, s.pos + 1);
        if nx == SpecToken::END {
            let (e, s2) = p_consume_end(t, s, end);
            Some((Ok((acc, e)), s2))
        } else if nx == SpecToken::TUPLE {
            match g_tuple_variant(t, s1, ctx) {
                None => None,
                Some((v, s2)) => match v {
                    None => Some((Ok((acc, end)), s2)),
                    Some(v) => g_variants(t, after_progress(t, s, s2), ctx, acc.push(v), end),
                },
            }
        } else if nx == SpecToken::CLASS {
            match g_class_variant(t, s1, ctx) {
                None => None,
                Some((v, s2)) => match v {
                    None => Some((Ok((acc, end)), s2)),
                    Some(v) => g_variants(t, after_progress(t, s, s2), ctx, acc.push(v), end),
                },
            }
        } else {
            match nx {
                SpecToken::IDENT(vname) => g_variants(
                    t,
                    s1,
                    ctx,
                    acc.push(SpecCategoryVariant::Unit { name: vname }),
                    end,
                ),
                other => Some(
                    (
                        Err(peek_span(t, s)),
                        push_err(
                            s,
                            "Unexpected token in category body: "@ + token_debug(other),
                            peek_span(t, s),
                        ),
                    ),
                ),
            }
        }
    }
}

/// The methods after a variant: a block of them after `:`, or none.
#[verifier::opaque]
pub open spec fn g_variant_methods(t: Seq<PTok>, s: PState, ctx: SpecCtx) -> Parsed<
    Seq<SpecClassMember>,
>
    decreases t.len() - s.pos, 57int,
{
    if !(0 <= s.pos <= t.len()) {
        None
    } else if peek_some(t, s) == SpecToken::PUNCT(":"@) {
        g_method_block(t, at_pos(s, s.pos + 1), ctx, seq![])
    } else {
        Some((seq![], s))
    }
}

/// A tuple variant after `tuple`: a name, field types in `( )`, and
/// optional methods after `:`.
#[verifier::opaque]
pub open spec fn g_tuple_variant(t: Seq<PTok>, s: PState, ctx: SpecCtx) -> Parsed<
    Option<SpecCategoryVariant>,
>
    decreases t.len() - s.pos, 58int,
{
    if !(0 <= s.pos <= t.len()) {
        None
    } else {
        let (nm, s1) = expect_any(t, s);
        match nm {
            None => Some((None, s1)),
            Some((tk, span)) => match tk {
                SpecToken::IDENT(name) => {
                    let (o, s2) = expect_tok(
                        t,
                        s1,
                        SpecToken::PAREN("("@),
                        "Expected '(' after tuple variant name"@,
                    );
                    match o {
                        None => Some((None, s2)),
                        Some(_) => {
                            let (fs, s3) = p_type_list(t, s2, ctx, seq![]);
                            match fs {
                                None => Some((None, s3)),
                                Some(fields) => match g_variant_methods(t, after(t, s1, s3), ctx) {
                                    None => None,
                                    Some((methods, s4)) => Some(
                                        (
                                            Some(
                                                SpecCategoryVariant::Tuple { name, fields, methods },
                                            ),
                                            s4,
                                        ),
                                    ),
                                },
                            }
                        },
                    }
                },
                other => Some(
                    (None, push_err(s1, "Expected variant name, got "@ + token_debug(other), span)),
                ),
            },
        }
    }
}

/// A struct variant after `class`: a name, named fields in `{ }`, and
/// optional methods after `:`.
#[verifier::opaque]
pub open spec fn g_class_variant(t: Seq<PTok>, s: PState, ctx: SpecCtx) -> Parsed<
    Option<SpecCategoryVariant>,
>
    decreases t.len() - s.pos, 58int,
{
    if !(0 <= s.pos <= t.len()) {
        None
    } else {
        let (nm, s1) = expect_any(t, s);
        match nm {
            None => Some((None, s1)),
            Some((tk, span)) => match tk {
                SpecToken::IDENT(name) => {
                    let (o, s2) = expect_tok(
                        t,
                        s1,
                        SpecToken::PAREN("{"@),
                        "Expected '{' after struct variant name"@,
                    );
                    match o {
                        None => Some((None, s2)),
                        Some(_) => {
                            let (fs, s3) = p_variant_fields(t, s2, ctx, seq![]);
                            match fs {
                                None => Some((None, s3)),
                                Some(fields) => match g_variant_methods(t, after(t, s1, s3), ctx) {
                                    None => None,
                                    Some((methods, s4)) => Some(
                                        (
                                            Some(
                                                SpecCategoryVariant::Class { name, fields, methods },
                                            ),
                                            s4,
                                        ),
                                    ),
                                },
                            }
                        },
                    }
                },
                other => Some(
                    (None, push_err(s1, "Expected variant name, got "@ + token_debug(other), span)),
                ),
            },
        }
    }
}

/// The context at the top of a file.
pub open spec fn top_ctx() -> SpecCtx {
    SpecCtx { no_fn_body: false, current_class: None }
}

/// Statements up to the end of input.
#[verifier::opaque]
pub open spec fn g_file_stmts(t: Seq<PTok>, s: PState, acc: Seq<SpecSAst>) -> Parsed<Seq<SpecSAst>>
    decreases t.len() - s.pos,
{
    if !(0 <= s.pos <= t.len()) {
        None
    } else if s.pos < t.len() {
        match g_stmt(t, s, top_ctx()) {
            None => None,
            Some((st, s1)) => g_file_stmts(t, after_progress(t, s, s1), acc.push(st)),
        }
    } else {
        Some((acc, s))
    }
}

/// Parses a whole file: its statements as a program.
#[verifier::opaque]
pub open spec fn g_file(t: Seq<PTok>, s: PState) -> Parsed<SpecSAst> {
    let start = peek_span(t, s);
    match g_file_stmts(t, s, seq![]) {
        None => None,
        Some((stmts, s1)) => Some(
            ((SpecAstNode::Program(stmts), start.spec_merge(last_span(stmts, start))), s1),
        ),
    }
}


/// An infix operator token parses to the operator it spells, and every
/// binary operator written out parses back to itself (`&` comes as its own
/// token, `AND`).
pub proof fn lemma_binop_operator_spelling(s: Seq<char>, op: Operator)
    ensures
        binop_operator(SpecToken::BINOP(s)) == Some(op) ==> crate::operator::op_spelling(op) == s
            && crate::operator::is_binary(op),
        crate::operator::is_binary(op) && !(op is BAnd) ==> binop_operator(
            SpecToken::BINOP(crate::operator::op_spelling(op)),
        ) == Some(op),
        binop_operator(SpecToken::AND) == Some(Operator::BAnd),
{
    reveal_strlit("+");
    reveal_strlit("-");
    reveal_strlit("*");
    reveal_strlit("/");
    reveal_strlit("%");
    reveal_strlit("^");
    reveal_strlit("<<");
    reveal_strlit(">>");
    reveal_strlit("&&");
    reveal_strlit("||");
    reveal_strlit("|");
    reveal_strlit("==");
    reveal_strlit("!=");
    reveal_strlit("<");
    reveal_strlit(">");
    reveal_strlit("<=");
    reveal_strlit(">=");
    assert("+"@[0] == '+');
    assert("-"@[0] == '-');
    assert("*"@[0] == '*');
    assert("/"@[0] == '/');
    assert("%"@[0] == '%');
    assert("^"@[0] == '^');
    assert("<<"@[0] == '<');
    assert("<<"@[1] == '<');
    assert(">>"@[0] == '>');
    assert(">>"@[1] == '>');
    assert("&&"@[0] == '&');
    assert("&&"@[1] == '&');
    assert("||"@[0] == '|');
    assert("||"@[1] == '|');
    assert("|"@[0] == '|');
    assert("=="@[0] == '=');
    assert("=="@[1] == '=');
    assert("!="@[0] == '!');
    assert("!="@[1] == '=');
    assert("<"@[0] == '<');
    assert(">"@[0] == '>');
    assert("<="@[0] == '<');
    assert("<="@[1] == '=');
    assert(">="@[0] == '>');
    assert(">="@[1] == '=');
    assert("+"@.len() == 1);
    assert("-"@.len() == 1);
    assert("*"@.len() == 1);
    assert("/"@.len() == 1);
    assert("%"@.len() == 1);
    assert("^"@.len() == 1);
    assert("<<"@.len() == 2);
    assert(">>"@.len() == 2);
    assert("&&"@.len() == 2);
    assert("||"@.len() == 2);
    assert("|"@.len() == 1);
    assert("=="@.len() == 2);
    assert("!="@.len() == 2);
    assert("<"@.len() == 1);
    assert(">"@.len() == 1);
    assert("<="@.len() == 2);
    assert(">="@.len() == 2);
    match op {
        Operator::Add => {
            assert(binop_operator(SpecToken::BINOP("+"@)) == Some(Operator::Add));
        },
        Operator::Sub => {
            assert("-"@ != "+"@);
            assert(binop_operator(SpecToken::BINOP("-"@)) == Some(Operator::Sub));
        },
        Operator::Mul => {
            assert("*"@ != "+"@);
            assert("*"@ != "-"@);
            assert(binop_operator(SpecToken::BINOP("*"@)) == Some(Operator::Mul));
        },
        Operator::Div => {
            assert("/"@ != "+"@);
            assert("/"@ != "-"@);
            assert("/"@ != "*"@);
            assert(binop_operator(SpecToken::BINOP("/"@)) == Some(Operator::Div));
        },
        Operator::Pow => {
            assert("^"@ != "+"@);
            assert("^"@ != "-"@);
            assert("^"@ != "*"@);
            assert("^"@ != "/"@);
            assert("^"@ != "%"@);
            assert(binop_operator(SpecToken::BINOP("^"@)) == Some(Operator::Pow));
        },
        Operator::Mod => {
            assert("%"@ != "+"@);
            assert("%"@ != "-"@);
            assert("%"@ != "*"@);
            assert("%"@ != "/"@);
            assert(binop_operator(SpecToken::BINOP("%"@)) == Some(Operator::Mod));
        },
        Operator::LOr => {
            assert("||"@ != "+"@);
            assert("||"@ != "-"@);
            assert("||"@ != "*"@);
            assert("||"@ != "/"@);
            assert("||"@ != "%"@);
            assert("||"@ != "^"@);
            assert("||"@ != "<<"@);
            assert("||"@ != ">>"@);
            assert("||"@ != "&&"@);
            assert(binop_operator(SpecToken::BINOP("||"@)) == Some(Operator::LOr));
        },
        Operator::LAnd => {
            assert("&&"@ != "+"@);
            assert("&&"@ != "-"@);
            assert("&&"@ != "*"@);
            assert("&&"@ != "/"@);
            assert("&&"@ != "%"@);
            assert("&&"@ != "^"@);
            assert("&&"@ != "<<"@);
            assert("&&"@ != ">>"@);
            assert(binop_operator(SpecToken::BINOP("&&"@)) == Some(Operator::LAnd));
        },
        Operator::BOr => {
            assert("|"@ != "+"@);
            assert("|"@ != "-"@);
            assert("|"@ != "*"@);
            assert("|"@ != "/"@);
            assert("|"@ != "%"@);
            assert("|"@ != "^"@);
            assert("|"@ != "<<"@);
            assert("|"@ != ">>"@);
            assert("|"@ != "&&"@);
            assert("|"@ != "||"@);
            assert(binop_operator(SpecToken::BINOP("|"@)) == Some(Operator::BOr));
        },
        Operator::BLShift => {
            assert("<<"@ != "+"@);
            assert("<<"@ != "-"@);
            assert("<<"@ != "*"@);
            assert("<<"@ != "/"@);
            assert("<<"@ != "%"@);
            assert("<<"@ != "^"@);
            assert(binop_operator(SpecToken::BINOP("<<"@)) == Some(Operator::BLShift));
        },
        Operator::BRShift => {
            assert(">>"@ != "+"@);
            assert(">>"@ != "-"@);
            assert(">>"@ != "*"@);
            assert(">>"@ != "/"@);
            assert(">>"@ != "%"@);
            assert(">>"@ != "^"@);
            assert(">>"@ != "<<"@);
            assert(binop_operator(SpecToken::BINOP(">>"@)) == Some(Operator::BRShift));
        },
        Operator::Eq => {
            assert("=="@ != "+"@);
            assert("=="@ != "-"@);
            assert("=="@ != "*"@);
            assert("=="@ != "/"@);
            assert("=="@ != "%"@);
            assert("=="@ != "^"@);
            assert("=="@ != "<<"@);
            assert("=="@ != ">>"@);
            assert("=="@ != "&&"@);
            assert("=="@ != "||"@);
            assert("=="@ != "|"@);
            assert(binop_operator(SpecToken::BINOP("=="@)) == Some(Operator::Eq));
        },
        Operator::NEq => {
            assert("!="@ != "+"@);
            assert("!="@ != "-"@);
            assert("!="@ != "*"@);
            assert("!="@ != "/"@);
            assert("!="@ != "%"@);
            assert("!="@ != "^"@);
            assert("!="@ != "<<"@);
            assert("!="@ != ">>"@);
            assert("!="@ != "&&"@);
            assert("!="@ != "||"@);
            assert("!="@ != "|"@);
            assert("!="@ != "=="@);
            assert(binop_operator(SpecToken::BINOP("!="@)) == Some(Operator::NEq));
        },
        Operator::Le => {
            assert("<="@ != "+"@);
            assert("<="@ != "-"@);
            assert("<="@ != "*"@);
            assert("<="@ != "/"@);
            assert("<="@ != "%"@);
            assert("<="@ != "^"@);
            assert("<="@ != "<<"@);
            assert("<="@ != ">>"@);
            assert("<="@ != "&&"@);
            assert("<="@ != "||"@);
            assert("<="@ != "|"@);
            assert("<="@ != "=="@);
            assert("<="@ != "!="@);
            assert("<="@ != "<"@);
            assert("<="@ != ">"@);
            assert(binop_operator(SpecToken::BINOP("<="@)) == Some(Operator::Le));
        },
        Operator::Lt => {
            assert("<"@ != "+"@);
            assert("<"@ != "-"@);
            assert("<"@ != "*"@);
            assert("<"@ != "/"@);
            assert("<"@ != "%"@);
            assert("<"@ != "^"@);
            assert("<"@ != "<<"@);
            assert("<"@ != ">>"@);
            assert("<"@ != "&&"@);
            assert("<"@ != "||"@);
            assert("<"@ != "|"@);
            assert("<"@ != "=="@);
            assert("<"@ != "!="@);
            assert(binop_operator(SpecToken::BINOP("<"@)) == Some(Operator::Lt));
        },
        Operator::Ge => {
            assert(">="@ != "+"@);
            assert(">="@ != "-"@);
            assert(">="@ != "*"@);
            assert(">="@ != "/"@);
            assert(">="@ != "%"@);
            assert(">="@ != "^"@);
            assert(">="@ != "<<"@);
            assert(">="@ != ">>"@);
            assert(">="@ != "&&"@);
            assert(">="@ != "||"@);
            assert(">="@ != "|"@);
            assert(">="@ != "=="@);
            assert(">="@ != "!="@);
            assert(">="@ != "<"@);
            assert(">="@ != ">"@);
            assert(">="@ != "<="@);
            assert(binop_operator(SpecToken::BINOP(">="@)) == Some(Operator::Ge));
        },
        Operator::Gt => {
            assert(">"@ != "+"@);
            assert(">"@ != "-"@);
            assert(">"@ != "*"@);
            assert(">"@ != "/"@);
            assert(">"@ != "%"@);
            assert(">"@ != "^"@);
            assert(">"@ != "<<"@);
            assert(">"@ != ">>"@);
            assert(">"@ != "&&"@);
            assert(">"@ != "||"@);
            assert(">"@ != "|"@);
            assert(">"@ != "=="@);
            assert(">"@ != "!="@);
            assert(">"@ != "<"@);
            assert(binop_operator(SpecToken::BINOP(">"@)) == Some(Operator::Gt));
        },
        _ => {},
    }
}

} // verus!
