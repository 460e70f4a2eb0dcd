use lucy_lang::lib_std::stdio_module;
use lucy_lang::lucy_mod::{lucy_config_module, LucyConfig};
use lucy_lang::module::{Module, ModuleClass};
use lucy_lang::ty::{FunctionType, Type};

fn reader(params: Vec<Type>) -> FunctionType {
    FunctionType { params, return_type: Box::new(Type::String) }
}

#[test]
fn module_namespace_holds_functions_and_classes() {
    let m = Module::new("io")
        .function("read", 0, reader(vec![]))
        .function("read", 1, reader(vec![Type::I32]))
        .function("close", 0, FunctionType { params: vec![], return_type: Box::new(Type::Empty) })
        .class(ModuleClass { name: "File", fields: vec![], methods: vec![] });
    assert_eq!(m.functions.len(), 3);
    let ns = m.as_type_namespace();
    assert_eq!(
        ns.locals,
        vec![
            ("read".to_string(), Type::Function(Box::new(reader(vec![Type::I32])))),
            (
                "close".to_string(),
                Type::Function(Box::new(FunctionType { params: vec![], return_type: Box::new(Type::Empty) }))
            ),
        ]
    );
    assert_eq!(ns.types, vec![("File".to_string(), Type::TypeVar("File".to_string()))]);
    assert!(ns.children.is_empty());
}

#[test]
fn lucy_module_and_default_config() {
    let m = lucy_config_module();
    assert_eq!(m.name, "Lucy");
    assert!(m.functions.is_empty());
    assert_eq!(m.classes.len(), 1);
    assert_eq!(m.classes[0].name, "LucyConfig");
    assert_eq!(m.classes[0].fields[0].name, "lib_path");
    assert_eq!(m.classes[0].fields[0].ty, Type::String);
    assert!(m.classes[0].fields[0].is_public);
    assert_eq!(LucyConfig::default().lib_path, "./src");
    let ns = m.as_type_namespace();
    assert_eq!(ns.types, vec![("LucyConfig".to_string(), Type::TypeVar("LucyConfig".to_string()))]);
}

#[test]
fn stdio_has_println_and_print() {
    let m = stdio_module();
    assert_eq!(m.name, "stdio");
    assert!(m.classes.is_empty());
    let names: Vec<&str> = m.functions.iter().map(|f| f.name).collect();
    assert_eq!(names, vec!["println", "print"]);
    for f in &m.functions {
        assert_eq!(f.arity, 1);
        assert_eq!(f.ty, FunctionType { params: vec![Type::Unknown], return_type: Box::new(Type::Empty) });
    }
    let ns = m.as_type_namespace();
    assert_eq!(ns.locals.len(), 2);
    assert_eq!(ns.locals[0].0, "println");
    assert!(ns.types.is_empty());
}
