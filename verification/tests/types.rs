use lucy_lang::ty::{resolve_builtin, FunctionType, Type, TypeId};

#[test]
fn type_text() {
    assert_eq!(Type::U8.to_string(), "u8");
    assert_eq!(Type::Unknown.to_string(), "<inferred>");
    assert_eq!(Type::Array(Box::new(Type::I64)).to_string(), "[i64]");
    assert_eq!(Type::TypeVar("T".to_string()).to_string(), "T");
    assert_eq!(Type::Class(TypeId(12)).to_string(), "TypeId(12)");
    let f = Type::Function(Box::new(FunctionType {
        params: vec![Type::U8, Type::Bool],
        return_type: Box::new(Type::String),
    }));
    assert_eq!(f.to_string(), "fn(u8, bool) -> string");
    let g = Type::Function(Box::new(FunctionType { params: vec![], return_type: Box::new(Type::Empty) }));
    assert_eq!(g.to_string(), "fn() -> empty");
    let q = Type::Qualified { inner: Box::new(Type::I32), mutable: true, borrowed: true, moved: true };
    assert_eq!(q.to_string(), "mut &move i32");
    let m = Type::Generic { name: "Map".to_string(), args: vec![Type::String, Type::F64] };
    assert_eq!(m.to_string(), "Map<string, f64>");
}

#[test]
fn type_queries() {
    assert!(Type::USize.is_numeric());
    assert!(!Type::F32.is_numeric());
    assert!(Type::F32.is_numeric_or_float());
    assert!(!Type::Bool.is_numeric_or_float());
    let q = Type::Qualified { inner: Box::new(Type::U16), mutable: true, borrowed: false, moved: false };
    assert_eq!(q.inner(), &Type::U16);
    assert!(q.is_mutable());
    assert_eq!(Type::U16.inner(), &Type::U16);
    assert!(!Type::U16.is_mutable());
}

#[test]
fn builtin_names() {
    assert_eq!(resolve_builtin("u8"), Some(Type::U8));
    assert_eq!(resolve_builtin("usize"), Some(Type::USize));
    assert_eq!(resolve_builtin("string"), Some(Type::String));
    assert_eq!(resolve_builtin("empty"), Some(Type::Empty));
    assert_eq!(resolve_builtin("f64"), None);
    assert_eq!(resolve_builtin("Foo"), None);
}

#[test]
fn clone_is_equal() {
    let m = Type::Generic { name: "Map".to_string(), args: vec![Type::String, Type::Array(Box::new(Type::U8))] };
    assert_eq!(m.clone(), m);
}
