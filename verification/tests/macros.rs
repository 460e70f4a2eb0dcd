use lucy_lang::lexer::Token;
use lucy_lang::macro_expand::{
    delimiter_tokens, designator_matches, expand_macro, expand_macro_to_ast, expand_trees,
    flatten_tts_to_tokens, match_trees, rep_capture_count, str_to_sep_token, token_matches_sep,
    tokens_equal,
};
use lucy_lang::operator::Operator;
use lucy_lang::parser::{
    AstNode, MacroArm, MacroDefinition, MacroDesignator, MacroTokenTree, RepQuantifier, SymbolTable,
};
use lucy_lang::span::Span;

fn tok(t: Token, a: usize) -> MacroTokenTree {
    MacroTokenTree::Token(t, Span::new(a, a + 1))
}

fn var(n: &str, d: MacroDesignator) -> MacroTokenTree {
    MacroTokenTree::Metavar { name: n.to_string(), designator: d }
}

fn paren(trees: Vec<MacroTokenTree>) -> MacroTokenTree {
    MacroTokenTree::Group { delimiter: '(', trees }
}

fn table_with(name: &str, arms: Vec<MacroArm>) -> SymbolTable {
    let mut t = SymbolTable::new();
    t.define_macro(name.to_string(), MacroDefinition { name: name.to_string(), arms });
    t
}

fn twice() -> SymbolTable {
    table_with(
        "twice",
        vec![MacroArm {
            pattern: vec![paren(vec![var("x", MacroDesignator::Expr)])],
            template: vec![var("x", MacroDesignator::Expr), tok(Token::BINOP("+"), 50), var("x", MacroDesignator::Expr)],
        }],
    )
}

#[test]
fn expansion_fills_variables() {
    let t = twice();
    let args = vec![paren(vec![tok(Token::INT(1), 7)])];
    let out = expand_macro(&t, "twice", &args);
    assert_eq!(out, vec![tok(Token::INT(1), 7), tok(Token::BINOP("+"), 50), tok(Token::INT(1), 7)]);
}

#[test]
fn expansion_parses_to_statements() {
    let t = twice();
    let args = vec![paren(vec![tok(Token::INT(1), 7)])];
    let stmts = expand_macro_to_ast(&t, "twice", &args, Span::dummy());
    assert_eq!(stmts.len(), 1);
    match &stmts[0].node {
        AstNode::BinaryOperation { op, left, right } => {
            assert_eq!(*op, Operator::Add);
            assert_eq!(left.node, AstNode::IntLiteral(1));
            assert_eq!(right.node, AstNode::IntLiteral(1));
        },
        other => panic!("{:?}", other),
    }
}

#[test]
fn repetitions_match_and_expand_with_separators() {
    let t = table_with(
        "list",
        vec![MacroArm {
            pattern: vec![paren(vec![MacroTokenTree::Repetition {
                trees: vec![var("a", MacroDesignator::Tt)],
                separator: Some(",".to_string()),
                quantifier: RepQuantifier::ZeroOrMore,
            }])],
            template: vec![MacroTokenTree::Repetition {
                trees: vec![var("a", MacroDesignator::Tt)],
                separator: Some(";".to_string()),
                quantifier: RepQuantifier::ZeroOrMore,
            }],
        }],
    );
    let args = vec![paren(vec![
        tok(Token::INT(1), 1),
        tok(Token::PUNCT(","), 2),
        tok(Token::INT(2), 3),
        tok(Token::PUNCT(","), 4),
        tok(Token::INT(3), 5),
    ])];
    let out = expand_macro(&t, "list", &args);
    assert_eq!(
        out,
        vec![
            tok(Token::INT(1), 1),
            MacroTokenTree::Token(Token::PUNCT(";"), Span::dummy()),
            tok(Token::INT(2), 3),
            MacroTokenTree::Token(Token::PUNCT(";"), Span::dummy()),
            tok(Token::INT(3), 5),
        ]
    );
    let empty = vec![paren(vec![])];
    assert_eq!(expand_macro(&t, "list", &empty), Vec::<MacroTokenTree>::new());
}

#[test]
fn first_matching_arm_is_used() {
    let t = table_with(
        "pick",
        vec![
            MacroArm { pattern: vec![tok(Token::IDENT("a".to_string()), 0)], template: vec![tok(Token::INT(1), 0)] },
            MacroArm { pattern: vec![var("x", MacroDesignator::Ident)], template: vec![tok(Token::INT(2), 0)] },
        ],
    );
    let a = vec![tok(Token::IDENT("a".to_string()), 9)];
    let b = vec![tok(Token::IDENT("b".to_string()), 9)];
    assert_eq!(expand_macro(&t, "pick", &a), vec![tok(Token::INT(1), 0)]);
    assert_eq!(expand_macro(&t, "pick", &b), vec![tok(Token::INT(2), 0)]);
}

#[test]
fn matching_follows_designators_and_quantifiers() {
    let mut b = Vec::new();
    assert!(!match_trees(&vec![var("s", MacroDesignator::Str)], &vec![tok(Token::INT(1), 0)], &mut b));
    let mut b = Vec::new();
    assert!(match_trees(&vec![var("s", MacroDesignator::Literal)], &vec![tok(Token::INT(1), 0)], &mut b));
    assert_eq!(b, vec![("s".to_string(), tok(Token::INT(1), 0))]);
    let one_or_more = vec![MacroTokenTree::Repetition {
        trees: vec![var("a", MacroDesignator::Int)],
        separator: None,
        quantifier: RepQuantifier::OneOrMore,
    }];
    let mut b = Vec::new();
    assert!(!match_trees(&one_or_more, &vec![], &mut b));
    let mut b = Vec::new();
    assert!(match_trees(&one_or_more, &vec![tok(Token::INT(4), 0), tok(Token::INT(5), 1)], &mut b));
    assert_eq!(b.len(), 2);
    let mut b = Vec::new();
    assert!(!match_trees(&vec![tok(Token::INT(1), 0)], &vec![tok(Token::INT(1), 0), tok(Token::INT(2), 1)], &mut b));
}

#[test]
fn token_comparison() {
    assert!(tokens_equal(&Token::IDENT("a".to_string()), &Token::IDENT("a".to_string())));
    assert!(!tokens_equal(&Token::IDENT("a".to_string()), &Token::IDENT("b".to_string())));
    assert!(tokens_equal(&Token::PAREN("("), &Token::PAREN(")")));
    assert!(!tokens_equal(&Token::INT(1), &Token::INT(2)));
    assert!(tokens_equal(&Token::END, &Token::END));
    assert!(!tokens_equal(&Token::END, &Token::IF));
    assert!(token_matches_sep(&Token::PUNCT(","), ","));
    assert!(token_matches_sep(&Token::IDENT("and".to_string()), "and"));
    assert!(!token_matches_sep(&Token::INT(1), "1"));
    assert!(designator_matches(&MacroDesignator::Ident, &tok(Token::IDENT("x".to_string()), 0)));
    assert!(!designator_matches(&MacroDesignator::Float, &tok(Token::INT(1), 0)));
    assert!(designator_matches(&MacroDesignator::Expr, &tok(Token::INT(1), 0)));
}

#[test]
fn separator_tokens() {
    assert_eq!(str_to_sep_token(","), Token::PUNCT(","));
    assert_eq!(str_to_sep_token(";"), Token::PUNCT(";"));
    assert_eq!(str_to_sep_token("|"), Token::BINOP("|"));
    assert_eq!(str_to_sep_token("+"), Token::BINOP("+"));
    assert_eq!(str_to_sep_token("=>"), Token::PUNCT("=>"));
}

#[test]
fn capture_counts_and_filling() {
    let b = vec![
        ("a".to_string(), tok(Token::INT(1), 0)),
        ("a".to_string(), tok(Token::INT(2), 1)),
        ("b".to_string(), tok(Token::INT(3), 2)),
    ];
    assert_eq!(rep_capture_count(&vec![var("b", MacroDesignator::Tt)], &b), 1);
    assert_eq!(rep_capture_count(&vec![paren(vec![var("a", MacroDesignator::Tt)])], &b), 2);
    assert_eq!(rep_capture_count(&vec![var("z", MacroDesignator::Tt)], &b), 0);
    let filled = expand_trees(&vec![paren(vec![var("a", MacroDesignator::Tt)]), var("z", MacroDesignator::Tt)], &b);
    assert_eq!(filled, vec![paren(vec![tok(Token::INT(1), 0), tok(Token::INT(2), 1)])]);
}

#[test]
fn flattening_adds_delimiters() {
    let tts = vec![MacroTokenTree::Group { delimiter: '[', trees: vec![tok(Token::INT(1), 3)] }, tok(Token::END, 5)];
    assert_eq!(
        flatten_tts_to_tokens(&tts),
        vec![
            (Token::PAREN("["), Span::dummy()),
            (Token::INT(1), Span::new(3, 4)),
            (Token::PAREN("]"), Span::dummy()),
            (Token::END, Span::new(5, 6)),
        ]
    );
    assert_eq!(delimiter_tokens('{'), (Token::PAREN("{"), Token::PAREN("}")));
}
