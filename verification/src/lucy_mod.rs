//! The project configuration that `Lucy.luc` describes.
use vstd::prelude::*;
use crate::text::{chars_of, string_from_chars};
use crate::ty::Type;
use crate::module::{Module, ModuleClass, ModuleField};

verus! {

/// Settings of a Lucy project.
#[derive(Debug, Clone)]
pub struct LucyConfig {
    /// Directory of the project's modules.
    pub lib_path: String,
}

impl Default for LucyConfig {
    /// Modules live in `./src`.
    fn default() -> (r: Self)
        ensures
            r.lib_path@ == "./src"@,
    {
        let path = chars_of("./src");
        LucyConfig { lib_path: string_from_chars(&path) }
    }
}


/// The native module `Lucy`: the class `LucyConfig` with its public
/// `lib_path` string field.
pub fn lucy_config_module() -> (r: Module)
    ensures
        r.name == "Lucy",
        r.functions@.len() == 0,
        r.classes@.len() == 1,
        r.classes@[0].name == "LucyConfig",
        r.classes@[0].methods@.len() == 0,
        r.classes@[0].fields@.len() == 1,
        r.classes@[0].fields@[0].name == "lib_path",
        r.classes@[0].fields@[0].ty == Type::String,
        r.classes@[0].fields@[0].is_public,
{
    let mut fields: Vec<ModuleField> = Vec::new();
    fields.push(ModuleField { name: "lib_path", ty: Type::String, is_public: true });
    Module::new("Lucy").class(ModuleClass { name: "LucyConfig", fields, methods: Vec::new() })
}

} // verus!
