//! The standard native modules.
use vstd::prelude::*;
use crate::ty::{Type, FunctionType};
use crate::module::Module;

verus! {

/// The module `stdio`: `println` and `print`, each taking one argument of
/// any type and returning nothing.
pub fn stdio_module() -> (r: Module)
    ensures
        r.name == "stdio",
        r.classes@.len() == 0,
        r.functions@.len() == 2,
        r.functions@[0].name == "println",
        r.functions@[1].name == "print",
        forall|i: int|
            0 <= i < 2 ==> {
                &&& #[trigger] r.functions@[i].arity == 1
                &&& r.functions@[i].ty.params@ == seq![Type::Unknown]
                &&& *r.functions@[i].ty.return_type == Type::Empty
            },
{
    let mut p1: Vec<Type> = Vec::new();
    p1.push(Type::Unknown);
    let mut p2: Vec<Type> = Vec::new();
    p2.push(Type::Unknown);
    Module::new("stdio")
        .function("println", 1, FunctionType { params: p1, return_type: Box::new(Type::Empty) })
        .function("print", 1, FunctionType { params: p2, return_type: Box::new(Type::Empty) })
}

} // verus!
