use lucy_lang::compiler::{span_to_location, collect_dot_chain, CompilingCtx, RegisterAllocator};
use lucy_lang::parser::{AstNode, SAst};
use lucy_lang::lucy_mod::LucyConfig;
use lucy_lang::parser::{get_bp, ParsingContext};
use lucy_lang::lexer::Token;
use lucy_lang::span::Span;

#[test]
fn locations() {
    assert_eq!(span_to_location("a\nbc", Span::new(3, 4)), "2:2");
    assert_eq!(span_to_location("abc", Span::new(1, 2)), "1:2");
    assert_eq!(span_to_location("abc", Span::dummy()), "<unknown location>");
    assert_eq!(span_to_location("abc", Span::new(0, 1)), "1:1");
    assert_eq!(span_to_location("a\n\n\nb", Span::new(40, 41)), "4:37");
}

#[test]
fn registers() {
    let mut r = RegisterAllocator { current_top: 3 };
    assert_eq!(r.alloc_register(), 3);
    assert_eq!(r.alloc_register(), 4);
    assert_eq!(r.current_top, 5);
    r.free_to(2);
    assert_eq!(r.alloc_register(), 2);
}

#[test]
fn contexts() {
    let c = CompilingCtx::new();
    assert!(!c.is_public && c.current_class.is_none() && !c.is_inside_vararg);
    let p = ParsingContext::new();
    assert!(!p.no_fn_body && p.current_class.is_none());
    assert_eq!(LucyConfig::default().lib_path, "./src");
}

#[test]
fn binding_powers() {
    assert_eq!(get_bp(&Token::BINOP("=")), Some(1));
    assert_eq!(get_bp(&Token::BINOP("||")), Some(2));
    assert_eq!(get_bp(&Token::AND), Some(5));
    assert_eq!(get_bp(&Token::BINOP("<=")), Some(6));
    assert_eq!(get_bp(&Token::BINOP(">>")), Some(8));
    assert_eq!(get_bp(&Token::BINOP("-")), Some(10));
    assert_eq!(get_bp(&Token::BINOP("%")), Some(20));
    assert_eq!(get_bp(&Token::BINOP("^")), Some(25));
    assert_eq!(get_bp(&Token::BINOP("::")), Some(30));
    assert_eq!(get_bp(&Token::BINOP("+=")), None);
    assert_eq!(get_bp(&Token::PUNCT(",")), None);
}

#[test]
fn spans_merge() {
    assert_eq!(Span::new(3, 5).merge(Span::new(1, 4)), Span::new(1, 5));
}

fn dot_ident(n: &str) -> SAst {
    SAst { node: AstNode::Identifier(n.to_string()), span: Span::new(0, 1) }
}

fn dot(a: SAst, b: SAst) -> SAst {
    SAst { node: AstNode::DotIndex { indexee: Box::new(a), index: Box::new(b) }, span: Span::new(0, 1) }
}

#[test]
fn dotted_paths() {
    let path = dot(dot(dot_ident("std"), dot_ident("io")), dot_ident("println"));
    let mut out = vec!["x".to_string()];
    collect_dot_chain(&path.node, &mut out);
    assert_eq!(out, vec!["x", "std", "io", "println"]);
    let mut none = Vec::new();
    collect_dot_chain(&AstNode::IntLiteral(3), &mut none);
    assert!(none.is_empty());
    let odd = dot(dot_ident("a"), SAst { node: AstNode::IntLiteral(1), span: Span::new(0, 1) });
    let mut only_root = Vec::new();
    collect_dot_chain(&odd.node, &mut only_root);
    assert_eq!(only_root, vec!["a"]);
}
