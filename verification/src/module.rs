//! Native modules: the functions and classes that a module made outside
//! Lucy offers, and the namespace the type checker sees of it. The code of a
//! native function is the virtual machine's business; here a function is its
//! name, its arity and its type.
use vstd::prelude::*;
use crate::ty::{Type, FunctionType, SpecType, type_view, fn_type_view, clone_function_type};
use crate::scopes::{
    Namespace, SpecNamespace, namespace_view, typed_view, alist_set, alist_insert, str_names,
    lemma_typed_names, lemma_index_from, empty_namespace,
};

verus! {

/// A function of a native module: its name, how many arguments it takes and
/// its type.
pub struct ModuleFunction {
    pub name: &'static str,
    pub arity: u8,
    pub ty: FunctionType,
}

/// A field of a native class: its name, its type, and whether it is
/// visible outside the class.
pub struct ModuleField {
    pub name: &'static str,
    pub ty: Type,
    pub is_public: bool,
}

/// A class of a native module.
pub struct ModuleClass {
    pub name: &'static str,
    pub fields: Vec<ModuleField>,
    pub methods: Vec<ModuleFunction>,
}

/// A native module: its name, its functions and its classes, in the order
/// they were added.
pub struct Module {
    pub name: &'static str,
    pub functions: Vec<ModuleFunction>,
    pub classes: Vec<ModuleClass>,
}

/// The values of a module's namespace after its first `n` functions: each
/// function by name, with its type; a later one replaces an earlier one of
/// the same name.
pub open spec fn function_locals(fs: Seq<ModuleFunction>, n: int) -> Seq<(Seq<char>, SpecType)>
    decreases n,
{
    if n <= 0 || n > fs.len() {
        Seq::empty()
    } else {
        alist_set(
            function_locals(fs, n - 1),
            fs[n - 1].name@,
            SpecType::Function(Box::new(fn_type_view(fs[n - 1].ty))),
        )
    }
}

/// The types of a module's namespace after its first `n` classes: each class
/// by name, as a type variable of that name.
pub open spec fn class_types(cs: Seq<ModuleClass>, n: int) -> Seq<(Seq<char>, SpecType)>
    decreases n,
{
    if n <= 0 || n > cs.len() {
        Seq::empty()
    } else {
        alist_set(class_types(cs, n - 1), cs[n - 1].name@, SpecType::TypeVar(cs[n - 1].name@))
    }
}

impl Module {
    /// A module with no functions and no classes.
    pub fn new(name: &'static str) -> (r: Self)
        ensures
            r.name == name,
            r.functions@.len() == 0,
            r.classes@.len() == 0,
    {
        Self { name, functions: Vec::new(), classes: Vec::new() }
    }

    /// The module with one more function.
    pub fn function(self, name: &'static str, arity: u8, ty: FunctionType) -> (r: Self)
        ensures
            r.name == self.name,
            r.functions@ == self.functions@.push(ModuleFunction { name, arity, ty }),
            r.classes@ == self.classes@,
    {
        let mut m = self;
        m.functions.push(ModuleFunction { name, arity, ty });
        m
    }

    /// The module with one more class.
    pub fn class(self, class: ModuleClass) -> (r: Self)
        ensures
            r.name == self.name,
            r.functions@ == self.functions@,
            r.classes@ == self.classes@.push(class),
    {
        let mut m = self;
        m.classes.push(class);
        m
    }

    /// The namespace the type checker sees of this module: its functions as
    /// values of their function types, its classes as type variables named
    /// after them.
    pub fn as_type_namespace(&self) -> (r: Namespace)
        ensures
            namespace_view(r) == (SpecNamespace {
                children: Seq::empty(),
                locals: function_locals(self.functions@, self.functions@.len() as int),
                types: class_types(self.classes@, self.classes@.len() as int),
            }),
    {
        let mut ns = Namespace::new();
        let mut k: usize = 0;
        while k < self.functions.len()
            invariant
                k <= self.functions@.len(),
                namespace_view(ns).children == Seq::<(Seq<char>, SpecNamespace)>::empty(),
                typed_view(ns.locals@) == function_locals(self.functions@, k as int),
                typed_view(ns.types@) == Seq::<(Seq<char>, SpecType)>::empty(),
            decreases self.functions@.len() - k,
        {
            let f = &self.functions[k];
            let ghost before = ns.locals@;
            let ty = Type::Function(Box::new(clone_function_type(&f.ty)));
            proof {
                lemma_typed_names(before);
                lemma_index_from(str_names(before), f.name@, 0);
            }
            let ghost tv = type_view(ty);
            alist_insert(&mut ns.locals, f.name.to_owned(), ty);
            assert(typed_view(ns.locals@) =~= alist_set(typed_view(before), f.name@, tv));
            k = k + 1;
        }
        let mut k: usize = 0;
        while k < self.classes.len()
            invariant
                k <= self.classes@.len(),
                namespace_view(ns).children == Seq::<(Seq<char>, SpecNamespace)>::empty(),
                typed_view(ns.locals@) == function_locals(self.functions@, self.functions@.len() as int),
                typed_view(ns.types@) == class_types(self.classes@, k as int),
            decreases self.classes@.len() - k,
        {
            let c = &self.classes[k];
            let ghost before = ns.types@;
            proof {
                lemma_typed_names(before);
                lemma_index_from(str_names(before), c.name@, 0);
            }
            let ty = Type::TypeVar(c.name.to_owned());
            let ghost tv = type_view(ty);
            alist_insert(&mut ns.types, c.name.to_owned(), ty);
            assert(typed_view(ns.types@) =~= alist_set(typed_view(before), c.name@, tv));
            k = k + 1;
        }
        ns
    }
}

} // verus!
