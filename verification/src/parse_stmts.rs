//! Parsing of statements, declarations and whole files.
use vstd::prelude::*;
use crate::span::{Span, Spanned};
use crate::lexer::Token;
use crate::parser::{
    LucyParser, ParsingContext, TypeNode, BindingNode, MatchPattern, MatchArm, ClassMember,
    CategoryVariant, NamedTupleDef, AstNode, SAst, ctx_view, message,
};
use crate::parse_items::{opt_member_view};
use crate::parse_exprs::{lemma_sasts_push, last_span_of};
use crate::parser_spec::{
    sast_view, vec_sast_view, vec_match_arm_view, match_arm_view, match_pattern_view,
    vec_class_member_view, class_member_view, vec_category_variant_view, category_variant_view,
    vec_string_view, vec_pair_type_node_opt_type_node_view, opt_box_sast_view,
};
use crate::grammar::{
    g_stmt, g_body, g_var_decl, g_ret, g_fun_decl, g_for, g_while, g_cond, g_cond_rest,
    g_else_body, g_match, g_arms, g_arm_body, g_brace_block, g_do_block, g_match_pattern,
    p_variant_path, g_public, g_class_def, g_members, g_class_method, g_operator_overload,
    g_named_tuple, g_method_block, g_category, g_variants, g_variant_methods, g_tuple_variant,
    g_class_variant, g_file_stmts, g_file, top_ctx, class_ctx, overload_operator,
};

verus! {

pub proof fn lemma_arms_push(v: Seq<MatchArm>, x: MatchArm)
    ensures
        vec_match_arm_view(v.push(x)) == vec_match_arm_view(v).push(match_arm_view(x)),
{
    assert(v.push(x).drop_last() =~= v);
}

pub proof fn lemma_members_push(v: Seq<ClassMember>, x: ClassMember)
    ensures
        vec_class_member_view(v.push(x)) == vec_class_member_view(v).push(class_member_view(x)),
{
    assert(v.push(x).drop_last() =~= v);
}

pub proof fn lemma_variants_push(v: Seq<CategoryVariant>, x: CategoryVariant)
    ensures
        vec_category_variant_view(v.push(x)) == vec_category_variant_view(v).push(
            category_variant_view(x),
        ),
{
    assert(v.push(x).drop_last() =~= v);
}

pub proof fn lemma_strings_push(v: Seq<String>, x: String)
    ensures
        vec_string_view(v.push(x)) == vec_string_view(v).push(x@),
{
    assert(v.push(x).drop_last() =~= v);
}

pub open spec fn arm_body_view(r: Result<Vec<SAst>, Span>) -> Result<
    Seq<crate::parser_spec::SpecSAst>,
    Span,
> {
    match r {
        Ok(b) => Ok(vec_sast_view(b@)),
        Err(sp) => Err(sp),
    }
}

pub open spec fn arms_view(r: Result<(Vec<MatchArm>, Span), Span>) -> Result<
    (Seq<crate::parser_spec::SpecMatchArm>, Span),
    Span,
> {
    match r {
        Ok((a, e)) => Ok((vec_match_arm_view(a@), e)),
        Err(sp) => Err(sp),
    }
}

pub open spec fn members_view(r: Result<(Vec<ClassMember>, Span), Span>) -> Result<
    (Seq<crate::parser_spec::SpecClassMember>, Span),
    Span,
> {
    match r {
        Ok((a, e)) => Ok((vec_class_member_view(a@), e)),
        Err(sp) => Err(sp),
    }
}

pub open spec fn variants_view(r: Result<(Vec<CategoryVariant>, Span), Span>) -> Result<
    (Seq<crate::parser_spec::SpecCategoryVariant>, Span),
    Span,
> {
    match r {
        Ok((a, e)) => Ok((vec_category_variant_view(a@), e)),
        Err(sp) => Err(sp),
    }
}

pub open spec fn opt_variant_view(r: Option<CategoryVariant>) -> Option<
    crate::parser_spec::SpecCategoryVariant,
> {
    match r {
        Some(x) => Some(category_variant_view(x)),
        None => None,
    }
}

/// The context inside the body of the class (or tuple, or category) `name`.
pub(crate) fn class_context(ctx: &ParsingContext, name: &String) -> (r: ParsingContext)
    ensures
        ctx_view(&r) == class_ctx(ctx_view(ctx), name@),
{
    ParsingContext { no_fn_body: ctx.no_fn_body, current_class: Some(name.clone()) }
}

/// The operator that an overload names.
pub(crate) fn overload_operator_of(op: &str) -> (r: Option<crate::operator::Operator>)
    ensures
        r == overload_operator(op@),
{
    if crate::text::str_eq(op, "+") {
        Some(crate::operator::Operator::Add)
    } else if crate::text::str_eq(op, "-") {
        Some(crate::operator::Operator::Sub)
    } else if crate::text::str_eq(op, "/") {
        Some(crate::operator::Operator::Div)
    } else if crate::text::str_eq(op, "*") {
        Some(crate::operator::Operator::Mul)
    } else {
        None
    }
}

} // verus!
