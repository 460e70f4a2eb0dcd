//! The types of Lucy values, as the type checker and compiler see them.
use vstd::prelude::*;
use crate::text::{str_eq, decimal, push_decimal, push_str, string_from_chars};
use crate::operator::Operator;
use crate::scopes::{first_index};

verus! {

/// Index of a class in a type arena.
#[derive(Debug, Clone, Copy, PartialEq, Eq, Structural)]
pub struct TypeId(pub usize);

/// A Lucy type. `F32` and `F64` name the float types.
#[derive(Debug, PartialEq)]
pub enum Type {
    U8,
    I8,
    U16,
    I16,
    U32,
    I32,
    U64,
    I64,
    F32,
    F64,
    USize,
    String,
    Bool,
    Empty,
    Array(Box<Type>),
    TypeVar(String),
    Generic { name: String, args: Vec<Type> },
    Qualified { inner: Box<Type>, mutable: bool, borrowed: bool, moved: bool },
    Class(TypeId),
    Function(Box<FunctionType>),
    Unknown,
}

/// The type of a function: its parameter types and its return type.
#[derive(Debug, PartialEq)]
pub struct FunctionType {
    pub params: Vec<Type>,
    pub return_type: Box<Type>,
}

impl Type {
    pub open spec fn spec_is_numeric(&self) -> bool {
        match self {
            Type::U8 | Type::I8 | Type::U16 | Type::I16 | Type::U32 | Type::I32 | Type::U64
            | Type::I64 | Type::USize => true,
            _ => false,
        }
    }

    pub open spec fn spec_inner(&self) -> &Type {
        match self {
            Type::Qualified { inner, .. } => &**inner,
            _ => self,
        }
    }

    /// Whether this is one of the integer types.
    pub fn is_numeric(&self) -> (r: bool)
        ensures
            r == self.spec_is_numeric(),
    {
        match self {
            Type::U8 | Type::I8 | Type::U16 | Type::I16 | Type::U32 | Type::I32 | Type::U64
            | Type::I64 | Type::USize => true,
            _ => false,
        }
    }

    /// Whether this is an integer or a float type.
    pub fn is_numeric_or_float(&self) -> (r: bool)
        ensures
            r == (self.spec_is_numeric() || *self == Type::F32 || *self == Type::F64),
    {
        self.is_numeric() || match self {
            Type::F32 | Type::F64 => true,
            _ => false,
        }
    }

    /// The type under the qualifiers of a qualified type; any other type itself.
    pub fn inner(&self) -> (r: &Type)
        ensures
            r == self.spec_inner(),
    {
        match self {
            Type::Qualified { inner, .. } => &**inner,
            other => other,
        }
    }

    /// Whether this is a `mut` qualified type.
    pub fn is_mutable(&self) -> (r: bool)
        ensures
            r == (match self {
                Type::Qualified { mutable, .. } => *mutable,
                _ => false,
            }),
    {
        match self {
            Type::Qualified { mutable, .. } => *mutable,
            _ => false,
        }
    }
}

/// The type that a built-in type name stands for.
pub open spec fn builtin_type(name: Seq<char>) -> Option<Type> {
    if name == "u8"@ {
        Some(Type::U8)
    } else if name == "i8"@ {
        Some(Type::I8)
    } else if name == "u16"@ {
        Some(Type::U16)
    } else if name == "i16"@ {
        Some(Type::I16)
    } else if name == "u32"@ {
        Some(Type::U32)
    } else if name == "i32"@ {
        Some(Type::I32)
    } else if name == "u64"@ {
        Some(Type::U64)
    } else if name == "i64"@ {
        Some(Type::I64)
    } else if name == "usize"@ {
        Some(Type::USize)
    } else if name == "bool"@ {
        Some(Type::Bool)
    } else if name == "string"@ {
        Some(Type::String)
    } else if name == "empty"@ {
        Some(Type::Empty)
    } else {
        None
    }
}

/// What a type stands for, with its names as characters.
pub enum SpecType {
    U8,
    I8,
    U16,
    I16,
    U32,
    I32,
    U64,
    I64,
    F32,
    F64,
    USize,
    String,
    Bool,
    Empty,
    Array(Box<SpecType>),
    TypeVar(Seq<char>),
    Generic { name: Seq<char>, args: Seq<SpecType> },
    Qualified { inner: Box<SpecType>, mutable: bool, borrowed: bool, moved: bool },
    Class(usize),
    Function(Box<SpecFnType>),
    Unknown,
}

/// What a function type stands for.
pub struct SpecFnType {
    pub params: Seq<SpecType>,
    pub ret: Box<SpecType>,
}

pub open spec fn type_view(t: Type) -> SpecType
    decreases t,
{
    match t {
        Type::U8 => SpecType::U8,
        Type::I8 => SpecType::I8,
        Type::U16 => SpecType::U16,
        Type::I16 => SpecType::I16,
        Type::U32 => SpecType::U32,
        Type::I32 => SpecType::I32,
        Type::U64 => SpecType::U64,
        Type::I64 => SpecType::I64,
        Type::F32 => SpecType::F32,
        Type::F64 => SpecType::F64,
        Type::USize => SpecType::USize,
        Type::String => SpecType::String,
        Type::Bool => SpecType::Bool,
        Type::Empty => SpecType::Empty,
        Type::Array(inner) => SpecType::Array(Box::new(type_view(*inner))),
        Type::TypeVar(n) => SpecType::TypeVar(n@),
        Type::Generic { name, args } => SpecType::Generic { name: name@, args: types_view(args@) },
        Type::Qualified { inner, mutable, borrowed, moved } => SpecType::Qualified {
            inner: Box::new(type_view(*inner)),
            mutable,
            borrowed,
            moved,
        },
        Type::Class(id) => SpecType::Class(id.0),
        Type::Function(f) => SpecType::Function(Box::new(fn_type_view(*f))),
        Type::Unknown => SpecType::Unknown,
    }
}

pub open spec fn types_view(ts: Seq<Type>) -> Seq<SpecType>
    decreases ts,
{
    if ts.len() == 0 {
        Seq::empty()
    } else {
        types_view(ts.drop_last()).push(type_view(ts.last()))
    }
}

pub open spec fn fn_type_view(f: FunctionType) -> SpecFnType
    decreases f,
{
    SpecFnType { params: types_view(f.params@), ret: Box::new(type_view(*f.return_type)) }
}

pub proof fn lemma_types_view_push(ts: Seq<Type>, t: Type)
    ensures
        types_view(ts.push(t)) == types_view(ts).push(type_view(t)),
{
    assert(ts.push(t).drop_last() =~= ts);
}

/// The view of a sequence of types has the same length and the views of its
/// types.
pub proof fn lemma_types_view(ts: Seq<Type>)
    ensures
        types_view(ts).len() == ts.len(),
        forall|i: int| 0 <= i < ts.len() ==> #[trigger] types_view(ts)[i] == type_view(ts[i]),
    decreases ts.len(),
{
    if ts.len() > 0 {
        lemma_types_view(ts.drop_last());
        assert forall|i: int| 0 <= i < ts.len() implies #[trigger] types_view(ts)[i] == type_view(
            ts[i],
        ) by {
            if i < ts.len() - 1 {
                assert(types_view(ts.drop_last())[i] == type_view(ts.drop_last()[i]));
            }
        }
    }
}

/// A copy of `t`.
pub fn clone_type(t: &Type) -> (r: Type)
    ensures
        type_view(r) == type_view(*t),
    decreases t,
{
    match t {
        Type::U8 => Type::U8,
        Type::I8 => Type::I8,
        Type::U16 => Type::U16,
        Type::I16 => Type::I16,
        Type::U32 => Type::U32,
        Type::I32 => Type::I32,
        Type::U64 => Type::U64,
        Type::I64 => Type::I64,
        Type::F32 => Type::F32,
        Type::F64 => Type::F64,
        Type::USize => Type::USize,
        Type::String => Type::String,
        Type::Bool => Type::Bool,
        Type::Empty => Type::Empty,
        Type::Array(inner) => Type::Array(Box::new(clone_type(inner))),
        Type::TypeVar(name) => Type::TypeVar(name.clone()),
        Type::Generic { name, args } => Type::Generic { name: name.clone(), args: clone_types(args) },
        Type::Qualified { inner, mutable, borrowed, moved } => Type::Qualified {
            inner: Box::new(clone_type(inner)),
            mutable: *mutable,
            borrowed: *borrowed,
            moved: *moved,
        },
        Type::Class(id) => Type::Class(*id),
        Type::Function(ft) => Type::Function(Box::new(clone_function_type(ft))),
        Type::Unknown => Type::Unknown,
    }
}

/// A copy of `ts`.
pub fn clone_types(ts: &Vec<Type>) -> (r: Vec<Type>)
    ensures
        types_view(r@) == types_view(ts@),
    decreases ts,
{
    let mut r: Vec<Type> = Vec::new();
    let mut k: usize = 0;
    proof {
        assert(types_view(r@) =~= types_view(ts@.take(0)));
    }
    while k < ts.len()
        invariant
            k <= ts@.len(),
            types_view(r@) == types_view(ts@.take(k as int)),
        decreases ts@.len() - k,
    {
        proof {
            assert(decreases_to!(ts => ts@[k as int]));
        }
        let c = clone_type(&ts[k]);
        proof {
            lemma_types_view_push(r@, c);
            lemma_types_view_push(ts@.take(k as int), ts@[k as int]);
            assert(ts@.take(k + 1) =~= ts@.take(k as int).push(ts@[k as int]));
        }
        r.push(c);
        k = k + 1;
    }
    assert(ts@.take(k as int) =~= ts@);
    r
}

/// A copy of `f`.
pub fn clone_function_type(f: &FunctionType) -> (r: FunctionType)
    ensures
        fn_type_view(r) == fn_type_view(*f),
    decreases f,
{
    FunctionType { params: clone_types(&f.params), return_type: Box::new(clone_type(&f.return_type)) }
}

/// Whether two types are the same type.
pub fn type_eq(a: &Type, b: &Type) -> (r: bool)
    ensures
        r == (type_view(*a) == type_view(*b)),
    decreases a,
{
    match (a, b) {
        (Type::U8, Type::U8) => true,
        (Type::I8, Type::I8) => true,
        (Type::U16, Type::U16) => true,
        (Type::I16, Type::I16) => true,
        (Type::U32, Type::U32) => true,
        (Type::I32, Type::I32) => true,
        (Type::U64, Type::U64) => true,
        (Type::I64, Type::I64) => true,
        (Type::F32, Type::F32) => true,
        (Type::F64, Type::F64) => true,
        (Type::USize, Type::USize) => true,
        (Type::String, Type::String) => true,
        (Type::Bool, Type::Bool) => true,
        (Type::Empty, Type::Empty) => true,
        (Type::Unknown, Type::Unknown) => true,
        (Type::Array(x), Type::Array(y)) => type_eq(x, y),
        (Type::TypeVar(x), Type::TypeVar(y)) => str_eq(x.as_str(), y.as_str()),
        (Type::Generic { name: n1, args: a1 }, Type::Generic { name: n2, args: a2 }) => {
            str_eq(n1.as_str(), n2.as_str()) && types_eq(a1, a2)
        },
        (
            Type::Qualified { inner: i1, mutable: m1, borrowed: b1, moved: v1 },
            Type::Qualified { inner: i2, mutable: m2, borrowed: b2, moved: v2 },
        ) => *m1 == *m2 && *b1 == *b2 && *v1 == *v2 && type_eq(i1, i2),
        (Type::Class(x), Type::Class(y)) => x.0 == y.0,
        (Type::Function(f1), Type::Function(f2)) => {
            let r = types_eq(&f1.params, &f2.params) && type_eq(&f1.return_type, &f2.return_type);
            proof {
                assert(fn_type_view(**f1) == SpecFnType {
                    params: types_view(f1.params@),
                    ret: Box::new(type_view(*f1.return_type)),
                });
                assert(fn_type_view(**f2) == SpecFnType {
                    params: types_view(f2.params@),
                    ret: Box::new(type_view(*f2.return_type)),
                });
            }
            r
        },
        _ => false,
    }
}

/// Whether two sequences of types are the same, position by position.
pub fn types_eq(a: &Vec<Type>, b: &Vec<Type>) -> (r: bool)
    ensures
        r == (types_view(a@) == types_view(b@)),
    decreases a,
{
    proof {
        lemma_types_view(a@);
        lemma_types_view(b@);
    }
    if a.len() != b.len() {
        return false;
    }
    let mut k: usize = 0;
    while k < a.len()
        invariant
            k <= a@.len(),
            a@.len() == b@.len(),
            types_view(a@).len() == a@.len(),
            types_view(b@).len() == b@.len(),
            forall|i: int| 0 <= i < a@.len() ==> #[trigger] types_view(a@)[i] == type_view(a@[i]),
            forall|i: int| 0 <= i < b@.len() ==> #[trigger] types_view(b@)[i] == type_view(b@[i]),
            forall|i: int| 0 <= i < k ==> type_view(#[trigger] a@[i]) == type_view(b@[i]),
        decreases a@.len() - k,
    {
        proof {
            assert(decreases_to!(a => a@[k as int]));
        }
        if !type_eq(&a[k], &b[k]) {
            proof {
                assert(types_view(a@)[k as int] != types_view(b@)[k as int]);
            }
            return false;
        }
        k = k + 1;
    }
    proof {
        assert(types_view(a@) =~= types_view(b@)) by {
            assert forall|i: int| 0 <= i < a@.len() implies types_view(a@)[i] == types_view(
                b@,
            )[i] by {
                assert(type_view(a@[i]) == type_view(b@[i]));
            }
        }
    }
    true
}

impl Clone for Type {
    fn clone(&self) -> (r: Self)
        ensures
            type_view(r) == type_view(*self),
    {
        clone_type(self)
    }
}

impl Clone for FunctionType {
    fn clone(&self) -> (r: Self)
        ensures
            fn_type_view(r) == fn_type_view(*self),
    {
        clone_function_type(self)
    }
}

/// How a type is written in messages.
pub open spec fn type_text(t: Type) -> Seq<char>
    decreases t,
{
    match t {
        Type::U8 => "u8"@,
        Type::I8 => "i8"@,
        Type::U16 => "u16"@,
        Type::I16 => "i16"@,
        Type::U32 => "u32"@,
        Type::I32 => "i32"@,
        Type::U64 => "u64"@,
        Type::I64 => "i64"@,
        Type::F32 => "f32"@,
        Type::F64 => "f64"@,
        Type::USize => "usize"@,
        Type::Bool => "bool"@,
        Type::String => "string"@,
        Type::Empty => "empty"@,
        Type::Unknown => "<inferred>"@,
        Type::Array(inner) => "["@ + type_text(*inner) + "]"@,
        Type::TypeVar(n) => n@,
        Type::Class(id) => "TypeId("@ + decimal(id.0 as nat) + ")"@,
        Type::Function(ft) => "fn("@ + types_text(ft.params@) + ") -> "@ + type_text(
            *ft.return_type,
        ),
        Type::Qualified { inner, mutable, borrowed, moved } => (if mutable {
            "mut "@
        } else {
            Seq::empty()
        }) + (if borrowed {
            "&"@
        } else {
            Seq::empty()
        }) + (if moved {
            "move "@
        } else {
            Seq::empty()
        }) + type_text(*inner),
        Type::Generic { name, args } => name@ + "<"@ + types_text(args@) + ">"@,
    }
}

/// Types written one after another, separated by `, `.
pub open spec fn types_text(ts: Seq<Type>) -> Seq<char>
    decreases ts,
{
    if ts.len() == 0 {
        Seq::empty()
    } else if ts.len() == 1 {
        type_text(ts[0])
    } else {
        types_text(ts.drop_last()) + ", "@ + type_text(ts.last())
    }
}

/// How the type that `t` stands for is written in messages.
pub open spec fn view_text(t: SpecType) -> Seq<char>
    decreases t,
{
    match t {
        SpecType::U8 => "u8"@,
        SpecType::I8 => "i8"@,
        SpecType::U16 => "u16"@,
        SpecType::I16 => "i16"@,
        SpecType::U32 => "u32"@,
        SpecType::I32 => "i32"@,
        SpecType::U64 => "u64"@,
        SpecType::I64 => "i64"@,
        SpecType::F32 => "f32"@,
        SpecType::F64 => "f64"@,
        SpecType::USize => "usize"@,
        SpecType::Bool => "bool"@,
        SpecType::String => "string"@,
        SpecType::Empty => "empty"@,
        SpecType::Unknown => "<inferred>"@,
        SpecType::Array(inner) => "["@ + view_text(*inner) + "]"@,
        SpecType::TypeVar(n) => n,
        SpecType::Class(id) => "TypeId("@ + decimal(id as nat) + ")"@,
        SpecType::Function(ft) => "fn("@ + views_text(ft.params) + ") -> "@ + view_text(*ft.ret),
        SpecType::Qualified { inner, mutable, borrowed, moved } => (if mutable {
            "mut "@
        } else {
            Seq::empty()
        }) + (if borrowed {
            "&"@
        } else {
            Seq::empty()
        }) + (if moved {
            "move "@
        } else {
            Seq::empty()
        }) + view_text(*inner),
        SpecType::Generic { name, args } => name + "<"@ + views_text(args) + ">"@,
    }
}

/// Types written one after another, separated by `, `.
pub open spec fn views_text(ts: Seq<SpecType>) -> Seq<char>
    decreases ts,
{
    if ts.len() == 0 {
        Seq::empty()
    } else if ts.len() == 1 {
        view_text(ts[0])
    } else {
        views_text(ts.drop_last()) + ", "@ + view_text(ts.last())
    }
}

/// How a type is written depends on what it stands for alone.
pub proof fn lemma_type_text_view(t: Type)
    ensures
        type_text(t) == view_text(type_view(t)),
    decreases t,
{
    match t {
        Type::Array(inner) => {
            lemma_type_text_view(*inner);
            assert(type_text(t) == view_text(type_view(t)));
        },
        Type::Generic { name, args } => {
            lemma_types_text_view(args@);
            assert(type_text(t) == view_text(type_view(t)));
        },
        Type::Qualified { inner, .. } => {
            lemma_type_text_view(*inner);
            assert(type_text(t) == view_text(type_view(t)));
        },
        Type::Function(f) => {
            lemma_types_text_view(f.params@);
            lemma_type_text_view(*f.return_type);
            assert(fn_type_view(*f) == SpecFnType {
                params: types_view(f.params@),
                ret: Box::new(type_view(*f.return_type)),
            });
            assert(type_text(t) == view_text(type_view(t)));
        },
        Type::Class(id) => {
            assert(type_text(t) == view_text(type_view(t)));
        },
        Type::TypeVar(n) => {
            assert(type_text(t) == view_text(type_view(t)));
        },
        _ => {
            assert(type_text(t) == view_text(type_view(t)));
        },
    }
}

pub proof fn lemma_types_text_view(ts: Seq<Type>)
    ensures
        types_text(ts) == views_text(types_view(ts)),
    decreases ts,
{
    if ts.len() > 0 {
        assert(decreases_to!(ts => ts[ts.len() - 1]));
        lemma_type_text_view(ts.last());
        lemma_types_view(ts);
        if ts.len() == 1 {
            assert(types_view(ts)[0] == type_view(ts[0]));
        } else {
            lemma_types_text_view(ts.drop_last());
            assert(types_view(ts).drop_last() == types_view(ts.drop_last()));
            assert(types_view(ts).last() == type_view(ts.last()));
        }
    }
}

/// Appends how `t` is written.
fn write_type(t: &Type, out: &mut Vec<char>)
    ensures
        final(out)@ == old(out)@ + type_text(*t),
    decreases t,
{
    match t {
        Type::U8 => push_str(out, "u8"),
        Type::I8 => push_str(out, "i8"),
        Type::U16 => push_str(out, "u16"),
        Type::I16 => push_str(out, "i16"),
        Type::U32 => push_str(out, "u32"),
        Type::I32 => push_str(out, "i32"),
        Type::U64 => push_str(out, "u64"),
        Type::I64 => push_str(out, "i64"),
        Type::F32 => push_str(out, "f32"),
        Type::F64 => push_str(out, "f64"),
        Type::USize => push_str(out, "usize"),
        Type::Bool => push_str(out, "bool"),
        Type::String => push_str(out, "string"),
        Type::Empty => push_str(out, "empty"),
        Type::Unknown => push_str(out, "<inferred>"),
        Type::Array(inner) => {
            push_str(out, "[");
            write_type(inner, out);
            push_str(out, "]");
        },
        Type::TypeVar(n) => push_str(out, n.as_str()),
        Type::Class(id) => {
            push_str(out, "TypeId(");
            push_decimal(out, id.0);
            push_str(out, ")");
        },
        Type::Function(ft) => {
            push_str(out, "fn(");
            write_types(&ft.params, out);
            push_str(out, ") -> ");
            write_type(&ft.return_type, out);
        },
        Type::Qualified { inner, mutable, borrowed, moved } => {
            if *mutable {
                push_str(out, "mut ");
            }
            if *borrowed {
                push_str(out, "&");
            }
            if *moved {
                push_str(out, "move ");
            }
            write_type(inner, out);
        },
        Type::Generic { name, args } => {
            push_str(out, name.as_str());
            push_str(out, "<");
            write_types(args, out);
            push_str(out, ">");
        },
    }
    proof {
        assert(out@ =~= old(out)@ + type_text(*t));
    }
}

/// Appends how the types of `ts` are written, separated by `, `.
fn write_types(ts: &Vec<Type>, out: &mut Vec<char>)
    ensures
        final(out)@ == old(out)@ + types_text(ts@),
    decreases ts,
{
    let mut k: usize = 0;
    while k < ts.len()
        invariant
            k <= ts@.len(),
            out@ == old(out)@ + types_text(ts@.take(k as int)),
        decreases ts@.len() - k,
    {
        let ghost before = out@;
        proof {
            assert(decreases_to!(ts => ts@[k as int]));
        }
        if k > 0 {
            push_str(out, ", ");
        }
        write_type(&ts[k], out);
        proof {
            let t1 = ts@.take(k + 1);
            assert(t1.drop_last() =~= ts@.take(k as int));
            if k == 0 {
                assert(out@ =~= old(out)@ + types_text(t1));
            } else {
                assert(out@ =~= old(out)@ + types_text(t1));
            }
        }
        k = k + 1;
    }
    assert(ts@.take(k as int) =~= ts@);
}

impl Type {
    /// How this type is written in messages, such as `[u8]`, `mut &i32`,
    /// `fn(u8, bool) -> string` or `Map<string, i64>`.
    pub fn to_string(&self) -> (r: String)
        ensures
            r@ == type_text(*self),
    {
        let mut out: Vec<char> = Vec::new();
        write_type(self, &mut out);
        proof {
            assert(out@ =~= type_text(*self));
        }
        string_from_chars(&out)
    }
}

/// The type that a built-in type name (`u8` ... `i64`, `usize`, `bool`,
/// `string`, `empty`) stands for; `None` for other names.
pub fn resolve_builtin(name: &str) -> (r: Option<Type>)
    ensures
        r == builtin_type(name@),
{
    if str_eq(name, "u8") {
        Some(Type::U8)
    } else if str_eq(name, "i8") {
        Some(Type::I8)
    } else if str_eq(name, "u16") {
        Some(Type::U16)
    } else if str_eq(name, "i16") {
        Some(Type::I16)
    } else if str_eq(name, "u32") {
        Some(Type::U32)
    } else if str_eq(name, "i32") {
        Some(Type::I32)
    } else if str_eq(name, "u64") {
        Some(Type::U64)
    } else if str_eq(name, "i64") {
        Some(Type::I64)
    } else if str_eq(name, "usize") {
        Some(Type::USize)
    } else if str_eq(name, "bool") {
        Some(Type::Bool)
    } else if str_eq(name, "string") {
        Some(Type::String)
    } else if str_eq(name, "empty") {
        Some(Type::Empty)
    } else {
        None
    }
}


/// A class: its name, its fields (name, type, whether public) in order, the
/// index of each field by name, its methods by name (two slots of the
/// compiler, the method's type, whether public) and its operator overloads.
pub struct ClassType {
    pub name: String,
    pub fields: Vec<(String, Type, bool)>,
    pub field_index_map: Vec<(String, usize)>,
    pub methods: Vec<(String, (usize, usize, FunctionType, bool))>,
    pub operators: Vec<(Operator, (usize, FunctionType))>,
}

/// What a `ClassType` stands for.
pub struct SpecClass {
    pub name: Seq<char>,
    pub fields: Seq<(Seq<char>, SpecType, bool)>,
    pub field_index_map: Seq<(Seq<char>, usize)>,
    pub methods: Seq<(Seq<char>, (usize, usize, SpecFnType, bool))>,
    pub operators: Seq<(Operator, (usize, SpecFnType))>,
}

pub open spec fn fields_view(s: Seq<(String, Type, bool)>) -> Seq<(Seq<char>, SpecType, bool)> {
    s.map_values(|f: (String, Type, bool)| (f.0@, type_view(f.1), f.2))
}

pub open spec fn field_map_view(s: Seq<(String, usize)>) -> Seq<(Seq<char>, usize)> {
    s.map_values(|f: (String, usize)| (f.0@, f.1))
}

pub open spec fn methods_view(s: Seq<(String, (usize, usize, FunctionType, bool))>) -> Seq<
    (Seq<char>, (usize, usize, SpecFnType, bool)),
> {
    s.map_values(
        |m: (String, (usize, usize, FunctionType, bool))|
            (m.0@, (m.1.0, m.1.1, fn_type_view(m.1.2), m.1.3)),
    )
}

pub open spec fn operators_view(s: Seq<(Operator, (usize, FunctionType))>) -> Seq<
    (Operator, (usize, SpecFnType)),
> {
    s.map_values(|o: (Operator, (usize, FunctionType))| (o.0, (o.1.0, fn_type_view(o.1.1))))
}

pub open spec fn class_view(c: ClassType) -> SpecClass {
    SpecClass {
        name: c.name@,
        fields: fields_view(c.fields@),
        field_index_map: field_map_view(c.field_index_map@),
        methods: methods_view(c.methods@),
        operators: operators_view(c.operators@),
    }
}

/// The names of a list of fields.
pub open spec fn field_names(s: Seq<(Seq<char>, SpecType, bool)>) -> Seq<Seq<char>> {
    s.map_values(|f: (Seq<char>, SpecType, bool)| f.0)
}

/// The index of the first overload of `op` in `ops` at or after `i`; `-1` if none.
pub open spec fn op_index_from(ops: Seq<(Operator, (usize, SpecFnType))>, op: Operator, i: int) -> int
    decreases ops.len() - i,
{
    if i < 0 || i >= ops.len() {
        -1
    } else if ops[i].0 == op {
        i
    } else {
        op_index_from(ops, op, i + 1)
    }
}

/// Finds the first field named `name`.
pub fn find_field(fields: &Vec<(String, Type, bool)>, name: &str) -> (r: Option<usize>)
    ensures
        match r {
            Some(i) => i < fields@.len() && i == first_index(
                field_names(fields_view(fields@)),
                name@,
            ),
            None => first_index(field_names(fields_view(fields@)), name@) == -1,
        },
{
    let ghost keys = field_names(fields_view(fields@));
    let mut i: usize = 0;
    while i < fields.len()
        invariant
            i <= fields@.len(),
            keys == field_names(fields_view(fields@)),
            keys.len() == fields@.len(),
            crate::scopes::index_from(keys, name@, i as int) == first_index(keys, name@),
        decreases fields@.len() - i,
    {
        assert(keys[i as int] == fields@[i as int].0@);
        if str_eq(fields[i].0.as_str(), name) {
            return Some(i);
        }
        i = i + 1;
    }
    None
}

/// Finds the first overload of `op`.
pub fn find_operator(ops: &Vec<(Operator, (usize, FunctionType))>, op: Operator) -> (r: Option<usize>)
    ensures
        match r {
            Some(i) => i < ops@.len() && i == op_index_from(operators_view(ops@), op, 0),
            None => op_index_from(operators_view(ops@), op, 0) == -1,
        },
{
    let ghost v = operators_view(ops@);
    let mut i: usize = 0;
    while i < ops.len()
        invariant
            i <= ops@.len(),
            v == operators_view(ops@),
            v.len() == ops@.len(),
            op_index_from(v, op, i as int) == op_index_from(v, op, 0),
        decreases ops@.len() - i,
    {
        assert(v[i as int].0 == ops@[i as int].0);
        if ops[i].0 == op {
            return Some(i);
        }
        i = i + 1;
    }
    None
}

/// The classes known to a type checker or compiler, indexed by `TypeId`.
pub struct TypeArena {
    pub classes: Vec<ClassType>,
}

impl TypeArena {
    pub open spec fn view(&self) -> Seq<SpecClass> {
        self.classes@.map_values(|c: ClassType| class_view(c))
    }

    /// No classes.
    pub fn new() -> (r: Self)
        ensures
            r.classes@.len() == 0,
    {
        Self { classes: Vec::new() }
    }

    /// Adds `class`; its id is the number of classes before it.
    pub fn alloc_class(&mut self, class: ClassType) -> (id: TypeId)
        ensures
            id.0 == old(self).classes@.len(),
            final(self).classes@ == old(self).classes@.push(class),
    {
        let id = TypeId(self.classes.len());
        self.classes.push(class);
        id
    }

    /// The class with id `id`.
    pub fn get_class(&self, id: TypeId) -> (r: &ClassType)
        requires
            id.0 < self.classes@.len(),
        ensures
            *r == self.classes@[id.0 as int],
    {
        &self.classes[id.0]
    }

    /// The class with id `id`, to be changed in place.
    pub fn get_class_mut(&mut self, id: TypeId) -> (r: &mut ClassType)
        requires
            id.0 < old(self).classes@.len(),
        ensures
            *r == old(self).classes@[id.0 as int],
            final(self).classes@ == old(self).classes@.update(id.0 as int, *final(r)),
    {
        &mut self.classes[id.0]
    }
}

} // verus!
