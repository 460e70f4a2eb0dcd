use lucy_lang::lexer::tokenize;
use lucy_lang::parser::{AstNode, LucyParser, SAst, TypeNode};
use lucy_lang::scopes::{Namespace, NamespaceBuilder, ScopeStack};
use lucy_lang::span::{Span, Spanned};
use lucy_lang::operator::Operator;
use lucy_lang::ty::{ClassType, FunctionType, Type, TypeId};
use lucy_lang::typechecker::TypeChecker;

fn parse(src: &str) -> SAst {
    let mut p = LucyParser::new(tokenize(src.to_string()));
    let ast = p.parse_file_source();
    assert!(p.ok(), "syntax errors in {:?}: {:?}", src, p.errors);
    ast
}

fn messages(tc: &TypeChecker) -> Vec<String> {
    tc.errors.iter().map(|e| e.message.clone()).collect()
}

fn check(src: &str) -> Vec<String> {
    let ast = parse(src);
    let mut tc = TypeChecker::new();
    tc.check_program(&ast);
    messages(&tc)
}

fn named(n: &str) -> TypeNode {
    TypeNode::NominalType { name: n.to_string(), generics: vec![] }
}

#[test]
fn well_typed_program_has_no_errors() {
    let src = "let x: i32 = 1 + 2 func add(a: i32, b: i32): i32 return a + b end let y: i32 = add(x, 3)";
    assert_eq!(check(src), Vec::<String>::new());
}

#[test]
fn declared_type_must_match_initializer() {
    assert_eq!(check("let x: u8 = \"hi\""), vec!["expected 'u8', got 'string'".to_string()]);
    assert_eq!(check("let s: string = 1 + 2"), vec!["expected 'string', got 'i32'".to_string()]);
}

#[test]
fn assignment_rules() {
    assert_eq!(check("let x = 1 x = 2"), vec!["cannot assign to immutable variable 'x'".to_string()]);
    assert_eq!(check("let x: mut i32 = 1 x = \"s\""), vec!["expected 'mut i32', got 'string'".to_string()]);
    assert_eq!(check("let x: mut i32 = 1 x = 2"), Vec::<String>::new());
    assert_eq!(check("y = 1"), vec!["undefined variable 'y'".to_string()]);
}

#[test]
fn calls_check_arity_and_argument_types() {
    assert_eq!(
        check("func add(a: i32, b: i32): i32 return a + b end add(1)"),
        vec!["expected 2 argument(s), got 1".to_string()]
    );
    assert_eq!(
        check("func f(a: i32): i32 return a end f(\"s\")"),
        vec!["expected 'i32', got 'string'".to_string()]
    );
    assert_eq!(check("let a = 1 a()"), vec!["attempt to call non-function".to_string()]);
    assert_eq!(
        check("func f(): string return \"s\" end let x: i32 = f()"),
        vec!["expected 'i32', got 'string'".to_string()]
    );
}

#[test]
fn return_statements() {
    assert_eq!(
        check("func f(a: i32): i32 return \"s\" end"),
        vec!["expected 'i32', got 'string'".to_string()]
    );
    assert_eq!(check("func f(): i32 return end"), vec!["bare return in function expecting 'i32'".to_string()]);
    assert_eq!(check("func f() return end"), Vec::<String>::new());
    assert_eq!(check("func f(a) end"), vec!["parameter 'a' must have an explicit type".to_string()]);
}

#[test]
fn moves_and_borrows() {
    let src = "func take(v: ->i32): i32 return 0 end let a: i32 = 1 take(a) take(->a) let b = a";
    assert_eq!(
        check(src),
        vec![
            "variable 'a' must be explicitly moved (use '->a')".to_string(),
            "use of moved variable 'a'".to_string(),
        ]
    );
    let src = "func look(v: &i32): i32 return 0 end let a: i32 = 1 look(a) look(&a)";
    assert_eq!(check(src), vec!["variable 'a' must be explicitly borrowed (use '&a')".to_string()]);
    assert_eq!(
        check("let a: i32 = 1 let b = ->a let c = ->a"),
        vec!["use of already-moved variable 'a'".to_string()]
    );
    assert_eq!(check("let c = ->q"), vec!["undefined variable 'q'".to_string()]);
}

#[test]
fn class_members_and_privacy() {
    let src = "class P x: i32 pub y: i32 func get(self): i32 return self.x end end \
               let p = P{x = 1, y = 2} let a = p.x let b: i32 = p.y";
    assert_eq!(check(src), vec!["field 'x' of 'P' is private".to_string()]);
    let src = "class P pub x: i32 end let p = P{z = 1}";
    assert_eq!(check(src), vec!["class 'P' has no field 'z'".to_string()]);
    let src = "class P pub x: i32 end let p = P{x = \"s\"}";
    assert_eq!(check(src), vec!["expected 'i32', got 'string'".to_string()]);
    let src = "class P pub x: i32 end let p = P{x = 1} p.x = \"s\" p.q = 1";
    assert_eq!(
        check(src),
        vec!["expected 'i32', got 'string'".to_string(), "class has no field 'q'".to_string()]
    );
    let src = "class P pub x: i32 end let p = P{x = 1} let z = p.w";
    assert_eq!(check(src), vec!["type has no member 'w'".to_string()]);
}

#[test]
fn methods() {
    let src = "class P pub func get(self): i32 return 1 end end let p = P{} let a: i32 = p.get() p.nope() let m = p:nope";
    assert_eq!(
        check(src),
        vec!["type has no member 'nope'".to_string(), "unknown method 'nope'".to_string()]
    );
    let src = "class P func get(self): i32 return 1 end end let p = P{} let a: i32 = p.get() let g = p:get";
    assert_eq!(
        check(src),
        vec!["method 'get' of 'P' is private".to_string(), "method 'get' of 'P' is private".to_string()]
    );
    assert_eq!(check("let a: i32 = 1 let m = a:m"), vec!["attempt to call method on non-class".to_string()]);
    assert_eq!(check("let a: i32 = 1 let b = a.x"), vec!["attempt to index non-class value".to_string()]);
    assert_eq!(check("let q = Q{}"), vec!["unknown type 'Q'".to_string()]);
}

#[test]
fn the_class_is_recorded() {
    let ast = parse("class P x: i32 pub y: string func get(self): i32 return 1 end end");
    let mut tc = TypeChecker::new();
    tc.check_program(&ast);
    assert_eq!(tc.type_arena.classes.len(), 1);
    let c = tc.type_arena.get_class(TypeId(0));
    assert_eq!(c.name, "P");
    assert_eq!(c.fields.len(), 2);
    assert_eq!(c.fields[0].0, "x");
    assert_eq!(c.fields[0].1, Type::I32);
    assert!(!c.fields[0].2);
    assert!(c.fields[1].2);
    assert_eq!(c.field_index_map, vec![("x".to_string(), 0), ("y".to_string(), 1)]);
    assert_eq!(c.methods.len(), 1);
    assert_eq!(c.methods[0].0, "get");
    assert_eq!(
        c.methods[0].1 .2,
        FunctionType { params: vec![], return_type: Box::new(Type::I32) }
    );
    assert_eq!(tc.scopes.resolve_type("P"), Some(&Type::Class(TypeId(0))));
    assert_eq!(tc.current_class, None);
    assert_eq!(tc.scopes.scopes.len(), 1);
}

#[test]
fn casts_and_match_patterns() {
    assert_eq!(
        check("let a: i32 = 1 let b: string = a :: u8"),
        vec!["expected 'string', got 'u8'".to_string()]
    );
    assert_eq!(
        check("let v: i32 = 1 match (v) \"s\" => 1 end"),
        vec!["expected 'i32', got 'string'".to_string()]
    );
}

#[test]
fn blocks_have_their_own_scope() {
    assert_eq!(check("if (1) let z = 1 end let w = z"), vec!["undefined variable 'z'".to_string()]);
    assert_eq!(check("while (1) let z = 1 end let w = z"), vec!["undefined variable 'z'".to_string()]);
}

#[test]
fn use_brings_in_namespace_members() {
    let mut tc = TypeChecker::new();
    let ns = NamespaceBuilder::construct(|b| b.member("read", Type::I32));
    tc.scopes.define_namespace("io".to_string(), ns);
    tc.check_program(&parse("use io.{read, write :: w}"));
    assert_eq!(messages(&tc), vec!["unknown import 'write'".to_string()]);
    let read = tc.scopes.resolve_local("read").unwrap();
    assert_eq!(read.ty, Type::I32);
    assert!(!read.mutable);
    assert_eq!(check("use nope.{x}"), vec!["unknown namespace".to_string()]);
}

#[test]
fn namespace_paths() {
    let mut tc = TypeChecker::new();
    let mut outer = Namespace::new();
    let inner = NamespaceBuilder::construct(|b| b.member("v", Type::Bool));
    outer.children.push(("inner".to_string(), inner));
    tc.scopes.define_namespace("outer".to_string(), outer);
    let path = AstNode::DotIndex {
        indexee: Box::new(Spanned::new(AstNode::Identifier("outer".to_string()), Span::new(0, 5))),
        index: Box::new(Spanned::new(AstNode::Identifier("inner".to_string()), Span::new(6, 11))),
    };
    let ns = tc.resolve_namespace_path(&path).unwrap();
    assert_eq!(ns.locals, vec![("v".to_string(), Type::Bool)]);
    assert!(tc.resolve_namespace_path(&AstNode::Identifier("none".to_string())).is_none());
    assert!(tc.resolve_namespace_path(&AstNode::IntLiteral(1)).is_none());
}

#[test]
fn compile_type_annotations() {
    let tc = TypeChecker::new();
    assert_eq!(tc.compile_type(&named("u8")), Type::U8);
    assert_eq!(tc.compile_type(&named("T")), Type::TypeVar("T".to_string()));
    assert_eq!(tc.compile_type(&TypeNode::Inferred), Type::Unknown);
    assert_eq!(
        tc.compile_type(&TypeNode::ArrayType { elem_type: Box::new(named("bool")) }),
        Type::Array(Box::new(Type::Bool))
    );
    assert_eq!(
        tc.compile_type(&TypeNode::NominalType { name: "Map".to_string(), generics: vec![named("string"), named("i64")] }),
        Type::Generic { name: "Map".to_string(), args: vec![Type::String, Type::I64] }
    );
    assert_eq!(
        tc.compile_type(&TypeNode::Qualified { inner: Box::new(named("i32")), mutable: true, borrowed: false, moved: false }),
        Type::Qualified { inner: Box::new(Type::I32), mutable: true, borrowed: false, moved: false }
    );
    assert_eq!(
        tc.compile_type(&TypeNode::HashMapType { key_type: Box::new(named("u8")), value_type: Box::new(named("u8")) }),
        Type::Unknown
    );
    assert_eq!(TypeChecker::resolve_builtin("i64"), Some(Type::I64));
    assert_eq!(TypeChecker::resolve_builtin("f32"), None);
}

#[test]
fn assignability() {
    let mut tc = TypeChecker::new();
    let borrowed = Type::Qualified { inner: Box::new(Type::I32), mutable: false, borrowed: true, moved: false };
    let moved = Type::Qualified { inner: Box::new(Type::I32), mutable: false, borrowed: false, moved: true };
    tc.assert_assignable(&borrowed, &Type::I32, Span::new(1, 2));
    tc.assert_assignable(&moved, &Type::I32, Span::new(3, 4));
    tc.assert_assignable(&borrowed, &borrowed, Span::new(5, 6));
    tc.assert_assignable(&Type::I32, &moved, Span::new(7, 8));
    tc.assert_assignable(&Type::Unknown, &Type::Bool, Span::new(9, 10));
    tc.assert_assignable(&Type::Bool, &Type::U8, Span::new(11, 12));
    assert_eq!(
        messages(&tc),
        vec![
            "expected borrowed '&i32', got 'i32'".to_string(),
            "expected moved 'move i32', got 'i32'".to_string(),
            "expected 'bool', got 'u8'".to_string(),
        ]
    );
    assert_eq!(tc.errors[0].span, Span::new(1, 2));
    assert_eq!(tc.errors[2].span, Span::new(11, 12));
}

#[test]
fn scope_stack_operations() {
    let mut s = ScopeStack::new();
    s.push();
    s.define_local("a".to_string(), Type::I32, true);
    s.push();
    s.define_local("a".to_string(), Type::Bool, false);
    assert_eq!(s.resolve_local("a").unwrap().ty, Type::Bool);
    s.mark_moved("a");
    assert!(s.resolve_local("a").unwrap().moved);
    s.pop();
    let outer = s.resolve_local("a").unwrap();
    assert_eq!(outer.ty, Type::I32);
    assert!(!outer.moved);
    assert!(outer.mutable);
    s.resolve_local_mut("a").unwrap().moved = true;
    assert!(s.resolve_local("a").unwrap().moved);
    assert!(s.resolve_local_mut("b").is_none());
    s.define_type("T".to_string(), Type::U8);
    assert_eq!(s.resolve_type("T"), Some(&Type::U8));
    assert!(s.resolve_namespace("T").is_none());
    s.pop();
    assert!(s.resolve_local("a").is_none());
    s.pop();
    assert_eq!(s.scopes.len(), 0);
}

#[test]
fn errors_are_recorded_in_order() {
    let mut tc = TypeChecker::new();
    tc.error(Span::new(0, 1), "first".to_string());
    tc.error(Span::dummy(), "second".to_string());
    assert_eq!(messages(&tc), vec!["first".to_string(), "second".to_string()]);
    assert_eq!(tc.errors[1].span, Span::dummy());
}

#[test]
fn operator_overloads_decide_binary_operations() {
    let mut tc = TypeChecker::new();
    let v = Type::Class(TypeId(0));
    let id = tc.type_arena.alloc_class(ClassType {
        name: "V".to_string(),
        fields: vec![],
        field_index_map: vec![],
        methods: vec![],
        operators: vec![(
            Operator::Add,
            (0, FunctionType { params: vec![v.clone(), v.clone()], return_type: Box::new(Type::Bool) }),
        )],
    });
    assert_eq!(id, TypeId(0));
    tc.scopes.define_type("V".to_string(), Type::Class(id));
    tc.scopes.define_local("a".to_string(), Type::Class(id), false);
    tc.check_program(&parse("let b: bool = a + a let c: i32 = a + 1 a + 1"));
    assert_eq!(
        messages(&tc),
        vec![
            "expected 'TypeId(0)', got 'i32'".to_string(),
            "expected 'i32', got 'bool'".to_string(),
            "expected 'TypeId(0)', got 'i32'".to_string(),
        ]
    );
}

#[test]
fn operator_overload_arity_in_a_class() {
    assert_eq!(
        check("class P operator +(a: P): P return a end end"),
        vec!["operator 'Add' overload must take exactly 2 parameters".to_string()]
    );
}

#[test]
fn a_new_checker_checks_nested_definitions_through() {
    let src = "class Outer pub func make(self): i32 \
                 class Inner pub v: i32 end \
                 let i = Inner{v = 1} \
                 while (1) let q = i.v end \
                 return i.v end end \
               func f(a: i32): i32 class Local end if (a) return 1 else return 2 end end \
               let o = Outer{} let n: i32 = o.make() let m: string = f(1)";
    let ast = parse(src);
    let mut tc = TypeChecker::new();
    tc.check_program(&ast);
    assert_eq!(messages(&tc), vec!["expected 'string', got 'i32'".to_string()]);
    assert_eq!(tc.type_arena.classes.len(), 3);
    assert_eq!(tc.type_arena.get_class(TypeId(0)).name, "Outer");
    assert_eq!(tc.type_arena.get_class(TypeId(1)).name, "Inner");
    assert_eq!(tc.type_arena.get_class(TypeId(2)).name, "Local");
    assert_eq!(tc.scopes.scopes.len(), 1);
    assert_eq!(tc.current_class, None);
    assert_eq!(tc.current_return_ty, Type::Unknown);
}
