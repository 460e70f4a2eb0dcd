//! Descriptions of classes that the runtime provides.
use vstd::prelude::*;
use crate::ty::Type;

verus! {

/// A field of a built-in class.
pub struct BuiltinField {
    pub name: String,
    pub ty: Type,
    pub is_public: bool,
}

/// A method of a built-in class, with its named parameters.
pub struct BuiltinMethod {
    pub name: String,
    pub params: Vec<(String, Type)>,
    pub return_type: Type,
    pub is_public: bool,
}

/// A class that the runtime provides.
pub struct BuiltinClass {
    pub name: String,
    pub fields: Vec<BuiltinField>,
    pub methods: Vec<BuiltinMethod>,
}

} // verus!
