use lucy_lang::lexer::{tokenize, SpannedToken, Token};
use lucy_lang::operator::Operator;
use lucy_lang::parser::{
    AstNode, BindingNode, CategoryVariant, ClassMember, FmtPart, LucyParser, MacroDesignator,
    MacroTokenTree, MatchPattern, ParsingContext, RepQuantifier, SAst, SymbolTable, TypeNode,
};
use lucy_lang::span::{Span, Spanned};

fn parse(src: &str) -> (SAst, LucyParser) {
    let mut p = LucyParser::new(tokenize(src.to_string()));
    let ast = p.parse_file_source();
    (ast, p)
}

fn stmts(ast: &SAst) -> &Vec<SAst> {
    match &ast.node {
        AstNode::Program(s) => s,
        other => panic!("not a program: {:?}", other),
    }
}

fn messages(p: &LucyParser) -> Vec<String> {
    p.errors.iter().map(|e| e.message.clone()).collect()
}

fn sp(node: AstNode, a: usize, b: usize) -> SAst {
    Spanned::new(node, Span::new(a, b))
}

fn ident(n: &str, a: usize, b: usize) -> SAst {
    sp(AstNode::Identifier(n.to_string()), a, b)
}

fn int_lit(v: i32, a: usize, b: usize) -> SAst {
    sp(AstNode::IntLiteral(v), a, b)
}

fn named(n: &str) -> TypeNode {
    TypeNode::NominalType { name: n.to_string(), generics: vec![] }
}

#[test]
fn precedence_of_infix_operators() {
    let (ast, p) = parse("let x = 1 + 2 * 3");
    assert!(p.ok());
    let mul = sp(
        AstNode::BinaryOperation {
            op: Operator::Mul,
            left: Box::new(int_lit(2, 12, 13)),
            right: Box::new(int_lit(3, 16, 17)),
        },
        12,
        17,
    );
    let add = sp(
        AstNode::BinaryOperation { op: Operator::Add, left: Box::new(int_lit(1, 8, 9)), right: Box::new(mul) },
        8,
        17,
    );
    let decl = sp(
        AstNode::VarDeclaration {
            binding: BindingNode::IdentifierBinding { name: "x".to_string(), ty: TypeNode::Inferred },
            init_value: Some(Box::new(add)),
        },
        4,
        17,
    );
    assert_eq!(ast, sp(AstNode::Program(vec![decl]), 0, 17));
    assert_eq!(p.pos, p.tokens.len());
}

#[test]
fn left_associative_subtraction() {
    let (ast, p) = parse("a - b - c");
    assert!(p.ok());
    let first = sp(
        AstNode::BinaryOperation {
            op: Operator::Sub,
            left: Box::new(ident("a", 0, 1)),
            right: Box::new(ident("b", 4, 5)),
        },
        0,
        5,
    );
    let whole = sp(
        AstNode::BinaryOperation { op: Operator::Sub, left: Box::new(first), right: Box::new(ident("c", 8, 9)) },
        0,
        9,
    );
    assert_eq!(stmts(&ast), &vec![whole]);
}

#[test]
fn assignment_binds_loosest() {
    let (ast, p) = parse("x = y == 1");
    assert!(p.ok());
    match &stmts(&ast)[0].node {
        AstNode::Assignment { left, right } => {
            assert_eq!(**left, ident("x", 0, 1));
            assert!(matches!(right.node, AstNode::BinaryOperation { op: Operator::Eq, .. }));
        },
        other => panic!("{:?}", other),
    }
}

#[test]
fn calls_members_and_indexing() {
    let (ast, p) = parse("a.b(1, 2)[0]:c");
    assert!(p.ok());
    let dot = sp(
        AstNode::DotIndex { indexee: Box::new(ident("a", 0, 1)), index: Box::new(ident("b", 2, 3)) },
        0,
        3,
    );
    let call = sp(
        AstNode::FunctionCall { callee: Box::new(dot), args: vec![int_lit(1, 4, 5), int_lit(2, 7, 8)] },
        0,
        8,
    );
    let index = sp(
        AstNode::ComputedIndex { indexee: Box::new(call), index: Box::new(int_lit(0, 10, 11)) },
        0,
        12,
    );
    let method = sp(
        AstNode::MethodCall { indexee: Box::new(index), index: Box::new(ident("c", 13, 14)) },
        0,
        14,
    );
    assert_eq!(stmts(&ast), &vec![method]);
}

#[test]
fn call_without_arguments_ends_at_its_paren() {
    let (ast, p) = parse("f()");
    assert!(p.ok());
    let call = sp(AstNode::FunctionCall { callee: Box::new(ident("f", 0, 1)), args: vec![] }, 0, 2);
    assert_eq!(stmts(&ast), &vec![call]);
}

#[test]
fn prefix_operators_and_literals() {
    let one = |src: &str| {
        let (ast, p) = parse(src);
        assert!(p.ok(), "{:?}", messages(&p));
        match ast.node {
            AstNode::Program(mut s) => {
                assert_eq!(s.len(), 1);
                s.remove(0)
            },
            other => panic!("not a program: {:?}", other),
        }
    };
    assert_eq!(
        one("-x"),
        sp(AstNode::UnaryOperation { op: Operator::Neg, right: Box::new(ident("x", 1, 2)) }, 0, 2)
    );
    assert_eq!(
        one("!y"),
        sp(AstNode::UnaryOperation { op: Operator::LNot, right: Box::new(ident("y", 1, 2)) }, 0, 2)
    );
    assert_eq!(one("&z"), sp(AstNode::Borrowed(Box::new(ident("z", 1, 2))), 0, 2));
    assert_eq!(one("->z"), sp(AstNode::Moved(Box::new(ident("z", 2, 3))), 0, 3));
    assert_eq!(one("[1, 2]"), sp(AstNode::ArrayLiteral(vec![int_lit(1, 1, 2), int_lit(2, 4, 5)]), 0, 6));
    assert_eq!(one("(3)"), sp(AstNode::IntLiteral(3), 0, 3));
    assert_eq!(one("\"s\""), sp(AstNode::StringLiteral("s".to_string()), 0, 3));
    assert_eq!(one("{}"), sp(AstNode::HashMapLiteral(vec![]), 0, 2));
    assert_eq!(one("self"), sp(AstNode::SelfExpr, 0, 4));
}

#[test]
fn hashmap_key_takes_the_colon_as_a_method_call() {
    let (ast, p) = parse("{1: 2}");
    assert_eq!(
        messages(&p),
        vec![
            "Expected ident after ':', got INT(2)".to_string(),
            "Expected PUNCT(\":\"), got INT(2): Expected ':' after hashmap key".to_string(),
            "Unexpected token in expression: PAREN(\"}\")".to_string(),
        ]
    );
    assert_eq!(stmts(&ast)[0], sp(AstNode::HashMapLiteral(vec![]), 0, 1));
}

#[test]
fn class_literal() {
    let (ast, p) = parse("Point{x = 1, y = 2}");
    assert!(p.ok(), "{:?}", messages(&p));
    let lit = sp(
        AstNode::ClassLiteral {
            ty: Box::new(ident("Point", 0, 5)),
            fields: vec![("x".to_string(), int_lit(1, 10, 11)), ("y".to_string(), int_lit(2, 17, 18))],
        },
        0,
        19,
    );
    assert_eq!(stmts(&ast), &vec![lit]);
}

#[test]
fn type_cast_and_type_instantiation() {
    let (ast, p) = parse("x :: u8 f.<i32>");
    assert!(p.ok());
    let s = stmts(&ast);
    assert_eq!(
        s[0],
        sp(AstNode::TypeCast { left: Box::new(ident("x", 0, 1)), right: named("u8") }, 0, 4)
    );
    assert_eq!(
        s[1],
        sp(
            AstNode::TypeInstantiation { callee: Box::new(ident("f", 8, 9)), type_args: vec![named("i32")] },
            8,
            9,
        )
    );
}

#[test]
fn function_declaration() {
    let (ast, p) = parse("func add(a: i32, b: i32): i32 return a + b end");
    assert!(p.ok(), "{:?}", messages(&p));
    match &stmts(&ast)[0].node {
        AstNode::FunctionDeclaration { name, type_params, params, return_type, body } => {
            assert_eq!(name, "add");
            assert!(type_params.is_empty());
            assert_eq!(
                params,
                &vec![
                    BindingNode::IdentifierBinding { name: "a".to_string(), ty: named("i32") },
                    BindingNode::IdentifierBinding { name: "b".to_string(), ty: named("i32") },
                ]
            );
            assert_eq!(return_type, &named("i32"));
            assert_eq!(body.len(), 1);
            assert!(matches!(body[0].node, AstNode::ReturnStmt { value: Some(_) }));
        },
        other => panic!("{:?}", other),
    }
    assert_eq!(stmts(&ast)[0].span, Span::new(5, 42));
}

#[test]
fn generic_function_with_constraint() {
    let (ast, p) = parse("func id<T: Show>(x: T): T return x end");
    assert!(p.ok(), "{:?}", messages(&p));
    match &stmts(&ast)[0].node {
        AstNode::FunctionDeclaration { type_params, .. } => {
            assert_eq!(type_params, &vec![(named("T"), Some(named("Show")))]);
        },
        other => panic!("{:?}", other),
    }
}

#[test]
fn qualified_and_container_types() {
    let mut p = LucyParser::new(tokenize("mut &[{[string]: u8}]".to_string()));
    let ty = p.parse_type(&ParsingContext::new());
    assert!(p.ok());
    let map = TypeNode::HashMapType { key_type: Box::new(named("string")), value_type: Box::new(named("u8")) };
    assert_eq!(
        ty,
        Some(TypeNode::Qualified {
            inner: Box::new(TypeNode::ArrayType { elem_type: Box::new(map) }),
            mutable: true,
            borrowed: true,
            moved: false,
        })
    );
}

#[test]
fn self_type_outside_a_class_is_an_error() {
    let mut p = LucyParser::new(tokenize("Self".to_string()));
    assert_eq!(p.parse_type(&ParsingContext::new()), None);
    assert_eq!(messages(&p), vec!["'Self' used outside of a class body".to_string()]);
    let ctx = ParsingContext { no_fn_body: false, current_class: Some("Point".to_string()) };
    let mut q = LucyParser::new(tokenize("Self".to_string()));
    assert_eq!(q.parse_type(&ctx), Some(named("Point")));
}

#[test]
fn conditional_with_else() {
    let (ast, p) = parse("if (a) b else c end");
    assert!(p.ok(), "{:?}", messages(&p));
    let else_branch = sp(
        AstNode::ConditionalBranch { condition: None, body: vec![ident("c", 14, 15)], next: None },
        9,
        15,
    );
    let branch = sp(
        AstNode::ConditionalBranch {
            condition: Some(Box::new(ident("a", 4, 5))),
            body: vec![ident("b", 7, 8)],
            next: Some(Box::new(else_branch)),
        },
        3,
        19,
    );
    assert_eq!(stmts(&ast), &vec![branch]);
}

#[test]
fn conditional_with_elseif() {
    let (ast, p) = parse("if (a) b elseif (c) d end");
    assert!(p.ok(), "{:?}", messages(&p));
    match &stmts(&ast)[0].node {
        AstNode::ConditionalBranch { next: Some(next), .. } => {
            assert!(matches!(next.node, AstNode::ConditionalBranch { condition: Some(_), .. }));
        },
        other => panic!("{:?}", other),
    }
}

#[test]
fn loops() {
    let (ast, p) = parse("while (x) y end for (i in xs) z end");
    assert!(p.ok(), "{:?}", messages(&p));
    let s = stmts(&ast);
    assert_eq!(
        s[0],
        sp(AstNode::WhileLoop { condition: Box::new(ident("x", 7, 8)), body: vec![ident("y", 10, 11)] }, 6, 11)
    );
    assert_eq!(
        s[1],
        sp(
            AstNode::ForLoop {
                binding: BindingNode::IdentifierBinding { name: "i".to_string(), ty: TypeNode::Inferred },
                iterator: Box::new(ident("xs", 26, 28)),
                body: vec![ident("z", 30, 31)],
            },
            20,
            31,
        )
    );
}

#[test]
fn match_arms_and_patterns() {
    let (ast, p) = parse("match (v) 1 => a, _ => b, default => c, Shape.Circle(r) => d, n do e end end");
    assert!(p.ok(), "{:?}", messages(&p));
    match &stmts(&ast)[0].node {
        AstNode::MatchStmt { arms, .. } => {
            assert_eq!(arms.len(), 5);
            assert_eq!(arms[0].pattern, MatchPattern::Expr(int_lit(1, 10, 11)));
            assert_eq!(arms[0].body, vec![ident("a", 15, 16)]);
            assert_eq!(arms[1].pattern, MatchPattern::Wildcard);
            assert_eq!(arms[2].pattern, MatchPattern::Default(None));
            assert_eq!(
                arms[3].pattern,
                MatchPattern::CategoryVariant {
                    path: vec!["Shape".to_string(), "Circle".to_string()],
                    binding: Some(BindingNode::OrderedBinding {
                        bindings: vec![BindingNode::IdentifierBinding {
                            name: "r".to_string(),
                            ty: TypeNode::Inferred,
                        }],
                    }),
                }
            );
            assert_eq!(
                arms[4].pattern,
                MatchPattern::Binding(BindingNode::IdentifierBinding {
                    name: "n".to_string(),
                    ty: TypeNode::Inferred,
                })
            );
            assert_eq!(arms[4].body.len(), 1);
        },
        other => panic!("{:?}", other),
    }
}

#[test]
fn match_arm_without_arrow_makes_an_error_node() {
    let (ast, p) = parse("match (v) 1 a end");
    assert_eq!(stmts(&ast)[0].node, AstNode::Error);
    assert_eq!(
        messages(&p)[0],
        "Expected '=>' or 'do' after match pattern, got IDENT(\"a\")".to_string()
    );
}

#[test]
fn class_with_fields_methods_and_operator() {
    let src = "class P pub x: i32 y: i32 func get(self): i32 return self.x end operator +(a: P, b: P): P return a end end";
    let (ast, p) = parse(src);
    assert!(p.ok(), "{:?}", messages(&p));
    match &stmts(&ast)[0].node {
        AstNode::ClassDefinition { name, members } => {
            assert_eq!(name, "P");
            assert_eq!(members.len(), 4);
            assert_eq!(members[0], ClassMember::Field { name: "x".to_string(), ty: named("i32"), is_public: true });
            assert_eq!(members[1], ClassMember::Field { name: "y".to_string(), ty: named("i32"), is_public: false });
            match &members[2] {
                ClassMember::Method { name, has_self, params, is_public, .. } => {
                    assert_eq!(name, "get");
                    assert!(*has_self);
                    assert!(params.is_empty());
                    assert!(!*is_public);
                },
                other => panic!("{:?}", other),
            }
            match &members[3] {
                ClassMember::OperatorOverload { op, params, .. } => {
                    assert_eq!(*op, Operator::Add);
                    assert_eq!(params.len(), 2);
                },
                other => panic!("{:?}", other),
            }
        },
        other => panic!("{:?}", other),
    }
}

#[test]
fn unknown_overloaded_operator_is_an_error() {
    let (_, p) = parse("class P operator %(a: P, b: P) return a end end");
    assert_eq!(messages(&p), vec!["Unknown operator '%'".to_string()]);
}

#[test]
fn category_and_named_tuple() {
    let (ast, p) = parse("category Shape Empty tuple Circle(u32) class Rect { w: u32, h: u32 } end tuple Pair(i32, i32)");
    assert!(p.ok(), "{:?}", messages(&p));
    let s = stmts(&ast);
    match &s[0].node {
        AstNode::CategoryDefinition { name, variants } => {
            assert_eq!(name, "Shape");
            assert_eq!(
                variants,
                &vec![
                    CategoryVariant::Unit { name: "Empty".to_string() },
                    CategoryVariant::Tuple { name: "Circle".to_string(), fields: vec![named("u32")], methods: vec![] },
                    CategoryVariant::Class {
                        name: "Rect".to_string(),
                        fields: vec![("w".to_string(), named("u32")), ("h".to_string(), named("u32"))],
                        methods: vec![],
                    },
                ]
            );
        },
        other => panic!("{:?}", other),
    }
    match &s[1].node {
        AstNode::NamedTupleDefinition(def) => {
            assert_eq!(def.name, "Pair");
            assert_eq!(def.fields, vec![named("i32"), named("i32")]);
            assert!(def.methods.is_empty());
        },
        other => panic!("{:?}", other),
    }
}

#[test]
fn use_statements() {
    let (ast, p) = parse("use std.io.{read, write :: w} use a.b :: c use m");
    assert!(p.ok(), "{:?}", messages(&p));
    let s = stmts(&ast);
    match &s[0].node {
        AstNode::UseStmt { base_path, used } => {
            assert_eq!(
                **base_path,
                sp(
                    AstNode::DotIndex { indexee: Box::new(ident("std", 4, 7)), index: Box::new(ident("io", 8, 10)) },
                    4,
                    10,
                )
            );
            assert_eq!(
                used,
                &vec![("read".to_string(), "read".to_string()), ("write".to_string(), "w".to_string())]
            );
        },
        other => panic!("{:?}", other),
    }
    match &s[1].node {
        AstNode::UseStmt { base_path, used } => {
            assert_eq!(**base_path, ident("a", 34, 35));
            assert_eq!(used, &vec![("b".to_string(), "c".to_string())]);
        },
        other => panic!("{:?}", other),
    }
    match &s[2].node {
        AstNode::UseStmt { base_path, used } => {
            assert_eq!(**base_path, ident("m", 47, 48));
            assert!(used.is_empty());
        },
        other => panic!("{:?}", other),
    }
}

#[test]
fn public_and_module_statements() {
    let (ast, p) = parse("module app pub func f() end pub x");
    assert!(p.ok(), "{:?}", messages(&p));
    let s = stmts(&ast);
    assert_eq!(s[0], sp(AstNode::ModuleStmt { name: "app".to_string() }, 7, 10));
    assert!(matches!(&s[1].node, AstNode::Public(inner) if matches!(inner.node, AstNode::FunctionDeclaration { .. })));
    assert!(matches!(&s[2].node, AstNode::Public(inner) if matches!(inner.node, AstNode::VarDeclaration { .. })));
}

#[test]
fn exporting_a_loop_is_an_error() {
    let (_, p) = parse("pub while (x) end");
    assert_eq!(messages(&p)[0], "Cannot export this statement as public: WHILE".to_string());
}

#[test]
fn return_without_value() {
    let (ast, p) = parse("func f() return end");
    assert!(p.ok(), "{:?}", messages(&p));
    match &stmts(&ast)[0].node {
        AstNode::FunctionDeclaration { body, .. } => {
            assert_eq!(body, &vec![sp(AstNode::ReturnStmt { value: None }, 16, 19)]);
        },
        other => panic!("{:?}", other),
    }
}

#[test]
fn throw_statement() {
    let (ast, p) = parse("throw e");
    assert!(p.ok());
    assert_eq!(stmts(&ast), &vec![sp(AstNode::Throw(Box::new(ident("e", 6, 7))), 0, 7)]);
}

#[test]
fn binding_errors_and_recovery() {
    let (ast, p) = parse("let = 5");
    assert_eq!(
        messages(&p),
        vec![
            "Unknown binding initializer: BINOP(\"=\")".to_string(),
            "Unexpected token in expression: BINOP(\"=\")".to_string(),
        ]
    );
    let s = stmts(&ast);
    assert_eq!(s, &vec![sp(AstNode::Error, 4, 5), sp(AstNode::Error, 4, 5), int_lit(5, 6, 7)]);
}

#[test]
fn missing_paren_after_while() {
    let (ast, p) = parse("while x");
    assert_eq!(messages(&p)[0], "Expected PAREN(\"(\"), got IDENT(\"x\"): Expected '(' after while".to_string());
    assert_eq!(stmts(&ast)[0], sp(AstNode::Error, 6, 7));
}

#[test]
fn input_ending_inside_a_type() {
    let (_, p) = parse("let x:");
    assert_eq!(messages(&p), vec!["Unexpected end of input".to_string()]);
}

#[test]
fn unterminated_block_reports_no_token() {
    let (_, p) = parse("if (a) b");
    assert_eq!(messages(&p), vec!["No token".to_string()]);
}

#[test]
fn format_string_parts() {
    let tokens: Vec<SpannedToken> = vec![
        (Token::FSTRING_START, Span::new(0, 1)),
        (Token::FSTRING_CHUNK("a".to_string()), Span::new(1, 2)),
        (Token::FSTRING_EXPR_START, Span::new(2, 3)),
        (Token::IDENT("x".to_string()), Span::new(3, 4)),
        (Token::FSTRING_EXPR_END, Span::new(4, 5)),
        (Token::FSTRING_END, Span::new(5, 6)),
        (Token::FSTRING_END, Span::new(6, 7)),
    ];
    let mut p = LucyParser::new(tokens);
    let ast = p.parse_file_source();
    let lit = sp(
        AstNode::FmtStringLiteral(vec![
            FmtPart::Literal("a".to_string()),
            FmtPart::Expr(ident("x", 3, 4)),
        ]),
        0,
        7,
    );
    assert_eq!(stmts(&ast), &vec![lit]);
    assert_eq!(messages(&p), vec!["Unexpected token inside fstring: END".to_string()]);
}

#[test]
fn macro_definition_is_recorded() {
    let (ast, p) = parse("macro twice! ($x:expr) => { $x + $x } end");
    assert!(p.ok(), "{:?}", messages(&p));
    match &stmts(&ast)[0].node {
        AstNode::MacroDefinitionNode(def) => {
            assert_eq!(def.name, "twice");
            assert_eq!(def.arms.len(), 1);
            assert_eq!(
                def.arms[0].pattern,
                vec![MacroTokenTree::Group {
                    delimiter: '(',
                    trees: vec![MacroTokenTree::Metavar { name: "x".to_string(), designator: MacroDesignator::Expr }],
                }]
            );
        },
        other => panic!("{:?}", other),
    }
    let def = p.symbols.lookup_macro("twice").expect("recorded");
    assert_eq!(def.arms.len(), 1);
    assert!(p.symbols.lookup_macro("thrice").is_none());
}

#[test]
fn macro_repetition_and_invocation() {
    let (ast, p) = parse("m!($($a),*)");
    assert!(p.ok(), "{:?}", messages(&p));
    match &stmts(&ast)[0].node {
        AstNode::MacroInvocation { name, args } => {
            assert_eq!(name, "m");
            assert_eq!(
                args,
                &vec![MacroTokenTree::Group {
                    delimiter: '(',
                    trees: vec![MacroTokenTree::Repetition {
                        trees: vec![MacroTokenTree::Metavar { name: "a".to_string(), designator: MacroDesignator::Tt }],
                        separator: Some(",".to_string()),
                        quantifier: RepQuantifier::ZeroOrMore,
                    }],
                }]
            );
        },
        other => panic!("{:?}", other),
    }
}

#[test]
fn unknown_designator_is_an_error() {
    let (_, p) = parse("m!($x:bogus)");
    assert_eq!(messages(&p)[0], "Unknown macro designator: IDENT(\"bogus\")".to_string());
}

#[test]
fn redefining_a_macro_replaces_it() {
    let mut table = SymbolTable::new();
    let (_, p1) = parse("macro m! (a) => b end");
    let (_, p2) = parse("macro m! (c) => d e end");
    let d1 = p1.symbols.lookup_macro("m").unwrap();
    let d2 = p2.symbols.lookup_macro("m").unwrap();
    table.define_macro("m".to_string(), lucy_lang::parse_macros::clone_macro_definition(d1));
    table.define_macro("m".to_string(), lucy_lang::parse_macros::clone_macro_definition(d2));
    assert_eq!(table.macros.len(), 1);
    assert_eq!(table.lookup_macro("m").unwrap().arms[0].template.len(), 2);
}

#[test]
fn empty_input_is_an_empty_program() {
    let (ast, p) = parse("");
    assert!(p.ok());
    assert_eq!(ast, sp(AstNode::Program(vec![]), 0, 0));
}
