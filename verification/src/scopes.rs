//! Scopes of the type checker: locals, type names and namespaces, with the
//! lists of named entries that hold them.
use vstd::prelude::*;
use crate::ty::{Type, SpecType, type_view, clone_type};
use crate::text::str_eq;

verus! {

/// The index of the first `k` in `keys` at or after `i`; `-1` if none.
pub open spec fn index_from(keys: Seq<Seq<char>>, k: Seq<char>, i: int) -> int
    decreases keys.len() - i,
{
    if i < 0 || i >= keys.len() {
        -1
    } else if keys[i] == k {
        i
    } else {
        index_from(keys, k, i + 1)
    }
}

/// The index of the first `k` in `keys`; `-1` if none.
pub open spec fn first_index(keys: Seq<Seq<char>>, k: Seq<char>) -> int {
    index_from(keys, k, 0)
}

/// The names of a list of named entries.
pub open spec fn names<V>(s: Seq<(Seq<char>, V)>) -> Seq<Seq<char>> {
    s.map_values(|p: (Seq<char>, V)| p.0)
}

/// The names of a list of entries named by strings.
pub open spec fn str_names<V>(s: Seq<(String, V)>) -> Seq<Seq<char>> {
    s.map_values(|p: (String, V)| p.0@)
}

/// The value of the first entry named `k`.
pub open spec fn alist_get<V>(s: Seq<(Seq<char>, V)>, k: Seq<char>) -> Option<V> {
    let i = first_index(names(s), k);
    if 0 <= i < s.len() {
        Some(s[i].1)
    } else {
        None
    }
}

/// The list with the first entry named `k` set to `v`, or with `(k, v)`
/// added at the end when there is none.
pub open spec fn alist_set<V>(s: Seq<(Seq<char>, V)>, k: Seq<char>, v: V) -> Seq<(Seq<char>, V)> {
    let i = first_index(names(s), k);
    if 0 <= i < s.len() {
        s.update(i, (k, v))
    } else {
        s.push((k, v))
    }
}

/// What `index_from` finds lies in range and holds `k`, with no `k` before it
/// from `i` on; `-1` means no `k` from `i` on.
pub proof fn lemma_index_from(keys: Seq<Seq<char>>, k: Seq<char>, i: int)
    requires
        0 <= i,
    ensures
        ({
            let r = index_from(keys, k, i);
            &&& (r == -1 || (i <= r < keys.len() && keys[r] == k))
            &&& (r == -1 ==> forall|j: int| i <= j < keys.len() ==> keys[j] != k)
            &&& (r != -1 ==> forall|j: int| i <= j < r ==> keys[j] != k)
        }),
    decreases keys.len() - i,
{
    if i < keys.len() && keys[i] != k {
        lemma_index_from(keys, k, i + 1);
    }
}

/// Finds the first entry named `k`.
pub fn find_name<V>(v: &Vec<(String, V)>, k: &str) -> (r: Option<usize>)
    ensures
        match r {
            Some(i) => i < v@.len() && i == first_index(str_names(v@), k@),
            None => first_index(str_names(v@), k@) == -1,
        },
{
    let ghost keys = str_names(v@);
    let mut i: usize = 0;
    while i < v.len()
        invariant
            i <= v@.len(),
            keys == str_names(v@),
            keys.len() == v@.len(),
            index_from(keys, k@, i as int) == first_index(keys, k@),
        decreases v@.len() - i,
    {
        assert(keys[i as int] == v@[i as int].0@);
        if str_eq(v[i].0.as_str(), k) {
            return Some(i);
        }
        i = i + 1;
    }
    None
}


/// Sets the first entry named `k` to `val`, or adds `(k, val)` at the end
/// when there is none.
pub fn alist_insert<V>(v: &mut Vec<(String, V)>, k: String, val: V)
    ensures
        ({
            let i = first_index(str_names(old(v)@), k@);
            if 0 <= i < old(v)@.len() {
                final(v)@ == old(v)@.update(i, (k, val))
            } else {
                final(v)@ == old(v)@.push((k, val))
            }
        }),
{
    match find_name(v, k.as_str()) {
        Some(i) => {
            v.set(i, (k, val));
        },
        None => {
            v.push((k, val));
        },
    }
}

/// A variable in scope: its type, whether it may be assigned, and whether
/// it has been moved.
#[derive(Debug, Clone)]
pub struct Local {
    pub ty: Type,
    pub mutable: bool,
    pub moved: bool,
}

/// What a `Local` stands for.
pub struct SpecLocal {
    pub ty: SpecType,
    pub mutable: bool,
    pub moved: bool,
}

pub open spec fn local_view(l: Local) -> SpecLocal {
    SpecLocal { ty: type_view(l.ty), mutable: l.mutable, moved: l.moved }
}

/// A namespace: nested namespaces, values and type names, each by name.
#[derive(Debug)]
pub struct Namespace {
    pub children: Vec<(String, Namespace)>,
    pub locals: Vec<(String, Type)>,
    pub types: Vec<(String, Type)>,
}

/// What a `Namespace` stands for.
pub struct SpecNamespace {
    pub children: Seq<(Seq<char>, SpecNamespace)>,
    pub locals: Seq<(Seq<char>, SpecType)>,
    pub types: Seq<(Seq<char>, SpecType)>,
}

pub open spec fn typed_view(s: Seq<(String, Type)>) -> Seq<(Seq<char>, SpecType)> {
    s.map_values(|p: (String, Type)| (p.0@, type_view(p.1)))
}

pub open spec fn namespace_view(n: Namespace) -> SpecNamespace
    decreases n,
{
    SpecNamespace {
        children: namespaces_view(n.children@),
        locals: typed_view(n.locals@),
        types: typed_view(n.types@),
    }
}

pub open spec fn namespaces_view(s: Seq<(String, Namespace)>) -> Seq<(Seq<char>, SpecNamespace)>
    decreases s,
{
    if s.len() == 0 {
        Seq::empty()
    } else {
        namespaces_view(s.drop_last()).push((s.last().0@, namespace_view(s.last().1)))
    }
}

/// The view of a list of namespaces keeps the names and views each one.
pub proof fn lemma_namespaces_view(s: Seq<(String, Namespace)>)
    ensures
        namespaces_view(s).len() == s.len(),
        forall|i: int|
            0 <= i < s.len() ==> #[trigger] namespaces_view(s)[i] == (s[i].0@, namespace_view(
                s[i].1,
            )),
        names(namespaces_view(s)) == str_names(s),
    decreases s.len(),
{
    if s.len() > 0 {
        lemma_namespaces_view(s.drop_last());
        assert forall|i: int| 0 <= i < s.len() implies #[trigger] namespaces_view(s)[i] == (
        s[i].0@, namespace_view(s[i].1)) by {
            if i < s.len() - 1 {
                assert(namespaces_view(s.drop_last())[i] == (s.drop_last()[i].0@, namespace_view(
                    s.drop_last()[i].1,
                )));
            }
        }
    }
    assert(names(namespaces_view(s)) =~= str_names(s));
}

pub proof fn lemma_typed_names(s: Seq<(String, Type)>)
    ensures
        names(typed_view(s)) == str_names(s),
        typed_view(s).len() == s.len(),
{
    assert(names(typed_view(s)) =~= str_names(s));
}

/// A copy of a namespace.
pub fn clone_namespace(n: &Namespace) -> (r: Namespace)
    ensures
        namespace_view(r) == namespace_view(*n),
    decreases n,
{
    let mut children: Vec<(String, Namespace)> = Vec::new();
    let mut k: usize = 0;
    proof {
        assert(namespaces_view(children@) =~= namespaces_view(n.children@.take(0)));
    }
    while k < n.children.len()
        invariant
            k <= n.children@.len(),
            namespaces_view(children@) == namespaces_view(n.children@.take(k as int)),
        decreases n.children@.len() - k,
    {
        proof {
            assert(decreases_to!(n => n.children));
            assert(decreases_to!(n.children => n.children@[k as int]));
            assert(decreases_to!(n.children@[k as int] => n.children@[k as int].1));
        }
        let c = clone_namespace(&n.children[k].1);
        let entry = (n.children[k].0.clone(), c);
        proof {
            assert(children@.push(entry).drop_last() =~= children@);
            assert(n.children@.take(k + 1).drop_last() =~= n.children@.take(k as int));
        }
        children.push(entry);
        k = k + 1;
    }
    assert(n.children@.take(k as int) =~= n.children@);
    Namespace { children, locals: clone_typed(&n.locals), types: clone_typed(&n.types) }
}

impl Clone for Namespace {
    fn clone(&self) -> (r: Self)
        ensures
            namespace_view(r) == namespace_view(*self),
    {
        clone_namespace(self)
    }
}

/// A copy of a list of named types.
pub fn clone_typed(v: &Vec<(String, Type)>) -> (r: Vec<(String, Type)>)
    ensures
        typed_view(r@) == typed_view(v@),
{
    let mut r: Vec<(String, Type)> = Vec::new();
    let mut k: usize = 0;
    while k < v.len()
        invariant
            k <= v@.len(),
            r@.len() == k,
            forall|i: int| 0 <= i < k ==> r@[i].0@ == v@[i].0@ && type_view(r@[i].1) == type_view(
                v@[i].1,
            ),
        decreases v@.len() - k,
    {
        r.push((v[k].0.clone(), clone_type(&v[k].1)));
        k = k + 1;
    }
    assert(typed_view(r@) =~= typed_view(v@));
    r
}


/// The namespace with nothing in it.
pub open spec fn empty_namespace() -> SpecNamespace {
    SpecNamespace { children: Seq::empty(), locals: Seq::empty(), types: Seq::empty() }
}

impl Namespace {
    /// An empty namespace.
    pub fn new() -> (r: Self)
        ensures
            namespace_view(r) == empty_namespace(),
    {
        let r = Self { children: Vec::new(), locals: Vec::new(), types: Vec::new() };
        assert(namespaces_view(r.children@) =~= Seq::empty());
        assert(typed_view(r.locals@) =~= Seq::empty());
        assert(typed_view(r.types@) =~= Seq::empty());
        r
    }
}

/// Builds a namespace of values one member at a time.
pub struct NamespaceBuilder {
    namespace: Namespace,
}

impl NamespaceBuilder {
    /// The namespace built so far.
    pub closed spec fn view(&self) -> SpecNamespace {
        namespace_view(self.namespace)
    }

    /// A builder of an empty namespace.
    pub fn new() -> (r: Self)
        ensures
            r.view() == empty_namespace(),
    {
        Self { namespace: Namespace::new() }
    }

    /// Runs `build` on a builder of an empty namespace and returns what it
    /// built.
    pub fn construct(build: impl FnOnce(NamespaceBuilder) -> NamespaceBuilder) -> (r: Namespace)
        requires
            forall|b: NamespaceBuilder| call_requires(build, (b,)),
        ensures
            exists|b0: NamespaceBuilder, b1: NamespaceBuilder|
                b0.view() == empty_namespace() && call_ensures(build, (b0,), b1)
                    && namespace_view(r) == b1.view(),
    {
        let b0 = NamespaceBuilder::new();
        let ghost g0 = b0;
        let b1 = build(b0);
        let r = b1.build();
        assert(g0.view() == empty_namespace() && call_ensures(build, (g0,), b1) && namespace_view(r)
            == b1.view());
        r
    }

    /// Adds the value `name` of type `ty`, replacing one of that name.
    pub fn member(self, name: &str, ty: Type) -> (r: Self)
        ensures
            r.view() == (SpecNamespace {
                locals: alist_set(self.view().locals, name@, type_view(ty)),
                ..self.view()
            }),
    {
        let mut ns = self.namespace;
        let ghost before = ns.locals@;
        let ghost tv = type_view(ty);
        proof {
            lemma_typed_names(before);
            lemma_index_from(str_names(before), name@, 0);
        }
        alist_insert(&mut ns.locals, name.to_owned(), ty);
        assert(typed_view(ns.locals@) =~= alist_set(typed_view(before), name@, tv));
        Self { namespace: ns }
    }

    /// The namespace built.
    pub fn build(self) -> (r: Namespace)
        ensures
            namespace_view(r) == self.view(),
    {
        self.namespace
    }
}

/// One level of scope: locals, type names and namespaces, each by name.
#[derive(Debug)]
pub struct Scope {
    pub locals: Vec<(String, Local)>,
    pub types: Vec<(String, Type)>,
    pub namespaces: Vec<(String, Namespace)>,
}

/// What a `Scope` stands for.
pub struct SpecScope {
    pub locals: Seq<(Seq<char>, SpecLocal)>,
    pub types: Seq<(Seq<char>, SpecType)>,
    pub namespaces: Seq<(Seq<char>, SpecNamespace)>,
}

pub open spec fn locals_view(s: Seq<(String, Local)>) -> Seq<(Seq<char>, SpecLocal)> {
    s.map_values(|p: (String, Local)| (p.0@, local_view(p.1)))
}

pub open spec fn scope_view(s: Scope) -> SpecScope {
    SpecScope {
        locals: locals_view(s.locals@),
        types: typed_view(s.types@),
        namespaces: namespaces_view(s.namespaces@),
    }
}

/// An empty scope.
pub open spec fn empty_scope() -> SpecScope {
    SpecScope { locals: Seq::empty(), types: Seq::empty(), namespaces: Seq::empty() }
}

/// The local named `name` in the innermost scope that has one.
pub open spec fn resolve_local_in(scopes: Seq<SpecScope>, name: Seq<char>) -> Option<SpecLocal>
    decreases scopes.len(),
{
    if scopes.len() == 0 {
        None
    } else {
        match alist_get(scopes.last().locals, name) {
            Some(l) => Some(l),
            None => resolve_local_in(scopes.drop_last(), name),
        }
    }
}

/// The type named `name` in the innermost scope that has one.
pub open spec fn resolve_type_in(scopes: Seq<SpecScope>, name: Seq<char>) -> Option<SpecType>
    decreases scopes.len(),
{
    if scopes.len() == 0 {
        None
    } else {
        match alist_get(scopes.last().types, name) {
            Some(t) => Some(t),
            None => resolve_type_in(scopes.drop_last(), name),
        }
    }
}

/// The namespace named `name` in the innermost scope that has one.
pub open spec fn resolve_namespace_in(scopes: Seq<SpecScope>, name: Seq<char>) -> Option<
    SpecNamespace,
>
    decreases scopes.len(),
{
    if scopes.len() == 0 {
        None
    } else {
        match alist_get(scopes.last().namespaces, name) {
            Some(n) => Some(n),
            None => resolve_namespace_in(scopes.drop_last(), name),
        }
    }
}

/// The scopes with the local `name` of the innermost scope that has one
/// marked as moved.
pub open spec fn mark_moved_in(scopes: Seq<SpecScope>, name: Seq<char>) -> Seq<SpecScope>
    decreases scopes.len(),
{
    if scopes.len() == 0 {
        scopes
    } else {
        let top = scopes.last();
        match alist_get(top.locals, name) {
            Some(l) => scopes.update(
                scopes.len() - 1,
                SpecScope {
                    locals: alist_set(
                        top.locals,
                        name,
                        SpecLocal { ty: l.ty, mutable: l.mutable, moved: true },
                    ),
                    ..top
                },
            ),
            None => mark_moved_in(scopes.drop_last(), name).push(top),
        }
    }
}


/// The scopes with the local `name` of the innermost scope that has one
/// replaced by `l`.
pub open spec fn set_local_in(scopes: Seq<SpecScope>, name: Seq<char>, l: SpecLocal) -> Seq<SpecScope>
    decreases scopes.len(),
{
    if scopes.len() == 0 {
        scopes
    } else {
        let top = scopes.last();
        match alist_get(top.locals, name) {
            Some(_) => scopes.update(
                scopes.len() - 1,
                SpecScope { locals: alist_set(top.locals, name, l), ..top },
            ),
            None => set_local_in(scopes.drop_last(), name, l).push(top),
        }
    }
}

/// The scopes with `name` defined in the innermost one.
pub open spec fn define_local_in(scopes: Seq<SpecScope>, name: Seq<char>, l: SpecLocal) -> Seq<
    SpecScope,
> {
    let top = scopes.last();
    scopes.update(scopes.len() - 1, SpecScope { locals: alist_set(top.locals, name, l), ..top })
}

pub open spec fn define_type_in(scopes: Seq<SpecScope>, name: Seq<char>, t: SpecType) -> Seq<
    SpecScope,
> {
    let top = scopes.last();
    scopes.update(scopes.len() - 1, SpecScope { types: alist_set(top.types, name, t), ..top })
}

pub open spec fn define_namespace_in(
    scopes: Seq<SpecScope>,
    name: Seq<char>,
    n: SpecNamespace,
) -> Seq<SpecScope> {
    let top = scopes.last();
    scopes.update(
        scopes.len() - 1,
        SpecScope { namespaces: alist_set(top.namespaces, name, n), ..top },
    )
}

/// The scopes of a type checker, innermost last.
#[derive(Debug)]
pub struct ScopeStack {
    pub scopes: Vec<Scope>,
}

impl ScopeStack {
    pub open spec fn view(&self) -> Seq<SpecScope> {
        self.scopes@.map_values(|s: Scope| scope_view(s))
    }

    /// No scopes.
    pub fn new() -> (r: Self)
        ensures
            r.view() == Seq::<SpecScope>::empty(),
    {
        let r = Self { scopes: Vec::new() };
        assert(r.view() =~= Seq::<SpecScope>::empty());
        r
    }

    /// Opens a new innermost scope.
    pub fn push(&mut self)
        ensures
            final(self).view() == old(self).view().push(empty_scope()),
    {
        let s = Scope { locals: Vec::new(), types: Vec::new(), namespaces: Vec::new() };
        proof {
            assert(locals_view(s.locals@) =~= Seq::empty());
            assert(typed_view(s.types@) =~= Seq::empty());
            assert(namespaces_view(s.namespaces@) =~= Seq::empty());
        }
        self.scopes.push(s);
        assert(self.view() =~= old(self).view().push(empty_scope()));
    }

    /// Closes the innermost scope, if any.
    pub fn pop(&mut self)
        ensures
            final(self).view() == if old(self).view().len() > 0 {
                old(self).view().drop_last()
            } else {
                old(self).view()
            },
    {
        if self.scopes.len() > 0 {
            self.scopes.pop();
            assert(self.view() =~= old(self).view().drop_last());
        }
    }

    /// Defines `name` as a local of type `ty` in the innermost scope; it is
    /// not moved.
    pub fn define_local(&mut self, name: String, ty: Type, mutable: bool)
        requires
            old(self).view().len() > 0,
        ensures
            final(self).view() == define_local_in(
                old(self).view(),
                name@,
                SpecLocal { ty: type_view(ty), mutable, moved: false },
            ),
    {
        let ghost nm = name@;
        let ghost l = SpecLocal { ty: type_view(ty), mutable, moved: false };
        let last = self.scopes.len() - 1;
        let mut top = self.scopes.remove(last);
        let ghost before = top.locals@;
        proof {
            lemma_locals_names(before);
        }
        match find_name(&top.locals, name.as_str()) {
            Some(i) => {
                top.locals.set(i, (name, Local { ty, mutable, moved: false }));
            },
            None => {
                top.locals.push((name, Local { ty, mutable, moved: false }));
            },
        }
        proof {
            assert(locals_view(top.locals@) =~= alist_set(locals_view(before), nm, l));
        }
        self.scopes.push(top);
        assert(self.view() =~= define_local_in(old(self).view(), nm, l));
    }

    /// Defines `name` as the type `ty` in the innermost scope.
    pub fn define_type(&mut self, name: String, ty: Type)
        requires
            old(self).view().len() > 0,
        ensures
            final(self).view() == define_type_in(old(self).view(), name@, type_view(ty)),
    {
        let ghost nm = name@;
        let ghost tv = type_view(ty);
        let last = self.scopes.len() - 1;
        let mut top = self.scopes.remove(last);
        let ghost before = top.types@;
        proof {
            lemma_typed_names(before);
        }
        match find_name(&top.types, name.as_str()) {
            Some(i) => {
                top.types.set(i, (name, ty));
            },
            None => {
                top.types.push((name, ty));
            },
        }
        proof {
            assert(typed_view(top.types@) =~= alist_set(typed_view(before), nm, tv));
        }
        self.scopes.push(top);
        assert(self.view() =~= define_type_in(old(self).view(), nm, tv));
    }

    /// Defines `name` as the namespace `ns` in the innermost scope.
    pub fn define_namespace(&mut self, name: String, ns: Namespace)
        requires
            old(self).view().len() > 0,
        ensures
            final(self).view() == define_namespace_in(old(self).view(), name@, namespace_view(ns)),
    {
        let ghost nm = name@;
        let ghost nv = namespace_view(ns);
        let last = self.scopes.len() - 1;
        let mut top = self.scopes.remove(last);
        let ghost before = top.namespaces@;
        proof {
            lemma_namespaces_view(before);
        }
        match find_name(&top.namespaces, name.as_str()) {
            Some(i) => {
                top.namespaces.set(i, (name, ns));
                proof {
                    let after = top.namespaces@;
                    lemma_namespaces_view(after);
                    assert(namespaces_view(after) =~= namespaces_view(before).update(
                        i as int,
                        (nm, nv),
                    ));
                }
            },
            None => {
                top.namespaces.push((name, ns));
                proof {
                    assert(top.namespaces@.drop_last() =~= before);
                }
            },
        }
        proof {
            assert(namespaces_view(top.namespaces@) =~= alist_set(namespaces_view(before), nm, nv));
        }
        self.scopes.push(top);
        assert(self.view() =~= define_namespace_in(old(self).view(), nm, nv));
    }

    /// The local `name` of the innermost scope that has one.
    pub fn resolve_local(&self, name: &str) -> (r: Option<&Local>)
        ensures
            match r {
                Some(l) => resolve_local_in(self.view(), name@) == Some(local_view(*l)),
                None => resolve_local_in(self.view(), name@) is None,
            },
    {
        let mut k = self.scopes.len();
        assert(self.view().take(k as int) =~= self.view());
        while k > 0
            invariant
                k <= self.scopes@.len(),
                resolve_local_in(self.view(), name@) == resolve_local_in(
                    self.view().take(k as int),
                    name@,
                ),
            decreases k,
        {
            let ghost sv = self.view().take(k as int);
            proof {
                lemma_locals_names(self.scopes@[k - 1].locals@);
                assert(sv.drop_last() =~= self.view().take(k - 1));
            }
            match find_name(&self.scopes[k - 1].locals, name) {
                Some(i) => {
                    return Some(&self.scopes[k - 1].locals[i].1);
                },
                None => {},
            }
            k = k - 1;
        }
        None
    }


    /// The local `name` of the innermost scope that has one, to be changed
    /// in place.
    pub fn resolve_local_mut(&mut self, name: &str) -> (r: Option<&mut Local>)
        ensures
            match r {
                Some(l) => resolve_local_in(old(self).view(), name@) == Some(local_view(*l))
                    && final(self).view() == set_local_in(old(self).view(), name@, local_view(*final(l))),
                None => resolve_local_in(old(self).view(), name@) is None && final(self).view()
                    == old(self).view(),
            },
    {
        let ghost v0 = self.view();
        let mut k = self.scopes.len();
        assert(v0.take(k as int) =~= v0);
        assert forall|l: SpecLocal| set_local_in(v0, name@, l) == #[trigger] set_local_in(v0.take(k as int), name@, l) + v0.skip(k as int) by {
            assert(set_local_in(v0.take(k as int), name@, l) + v0.skip(k as int) =~= set_local_in(v0.take(k as int), name@, l));
        }
        while k > 0
            invariant
                k <= self.scopes@.len(),
                self.view() == v0,
                v0 == old(self).view(),
                self.scopes@ == old(self).scopes@,
                self.scopes@.len() == v0.len(),
                resolve_local_in(v0, name@) == resolve_local_in(v0.take(k as int), name@),
                forall|l: SpecLocal| set_local_in(v0, name@, l) == #[trigger] set_local_in(v0.take(k as int), name@, l) + v0.skip(k as int),
            decreases k,
        {
            proof {
                lemma_locals_names(self.scopes@[k - 1].locals@);
                assert(v0.take(k as int).drop_last() =~= v0.take(k - 1));
                assert(v0.take(k as int).last() == v0[k - 1]);
            }
            match find_name(&self.scopes[k - 1].locals, name) {
                Some(i) => {
                    proof {
                        lemma_index_from(str_names(self.scopes@[k - 1].locals@), name@, 0);
                    }
                    let ghost old_locals = self.scopes@[k - 1].locals@;
                    let ghost top = v0[k - 1];
                    let sc = &mut self.scopes[k - 1];
                    let ghost fsc = *final(sc);
                    let entry = &mut sc.locals[i];
                    let ghost fen = *final(entry);
                    let l = &mut entry.1;
                    proof {
                        let fl = *final(l);
                        assert(old_locals[i as int].0@ == name@);
                        assert(top.locals == locals_view(old_locals));
                        assert(fen == (old_locals[i as int].0, fl));
                        assert(fsc.locals@ == old_locals.update(i as int, (old_locals[i as int].0, fl)));
                        assert(locals_view(fsc.locals@) =~= alist_set(top.locals, name@, local_view(fl)));
                        let nt = SpecScope { locals: alist_set(top.locals, name@, local_view(fl)), ..top };
                        assert(scope_view(fsc) == nt);
                        assert(set_local_in(v0.take(k as int), name@, local_view(fl)) == v0.take(k as int).update(k - 1, nt));
                        assert(v0.take(k as int).update(k - 1, nt) + v0.skip(k as int) =~= v0.update(k - 1, nt));
                        assert(set_local_in(v0, name@, local_view(fl)) == set_local_in(v0.take(k as int), name@, local_view(fl)) + v0.skip(k as int));
                    }
                    return Some(l);
                },
                None => {
                    proof {
                        assert forall|l: SpecLocal| set_local_in(v0, name@, l) == #[trigger] set_local_in(v0.take(k - 1), name@, l) + v0.skip(k - 1) by {
                            assert(set_local_in(v0.take(k as int), name@, l) == set_local_in(v0.take(k - 1), name@, l).push(v0[k - 1]));
                            assert(set_local_in(v0.take(k - 1), name@, l).push(v0[k - 1]) + v0.skip(k as int) =~= set_local_in(v0.take(k - 1), name@, l) + v0.skip(k - 1));
                        }
                    }
                    k = k - 1;
                },
            }
        }
        proof {
            assert(v0.take(0) =~= Seq::<SpecScope>::empty());
        }
        None
    }

    /// The type named `name` in the innermost scope that has one.
    pub fn resolve_type(&self, name: &str) -> (r: Option<&Type>)
        ensures
            match r {
                Some(t) => resolve_type_in(self.view(), name@) == Some(type_view(*t)),
                None => resolve_type_in(self.view(), name@) is None,
            },
    {
        let mut k = self.scopes.len();
        assert(self.view().take(k as int) =~= self.view());
        while k > 0
            invariant
                k <= self.scopes@.len(),
                resolve_type_in(self.view(), name@) == resolve_type_in(
                    self.view().take(k as int),
                    name@,
                ),
            decreases k,
        {
            let ghost sv = self.view().take(k as int);
            proof {
                lemma_typed_names(self.scopes@[k - 1].types@);
                assert(sv.drop_last() =~= self.view().take(k - 1));
            }
            match find_name(&self.scopes[k - 1].types, name) {
                Some(i) => {
                    return Some(&self.scopes[k - 1].types[i].1);
                },
                None => {},
            }
            k = k - 1;
        }
        None
    }

    /// The namespace named `name` in the innermost scope that has one.
    pub fn resolve_namespace(&self, name: &str) -> (r: Option<&Namespace>)
        ensures
            match r {
                Some(n) => resolve_namespace_in(self.view(), name@) == Some(namespace_view(*n)),
                None => resolve_namespace_in(self.view(), name@) is None,
            },
    {
        let mut k = self.scopes.len();
        assert(self.view().take(k as int) =~= self.view());
        while k > 0
            invariant
                k <= self.scopes@.len(),
                resolve_namespace_in(self.view(), name@) == resolve_namespace_in(
                    self.view().take(k as int),
                    name@,
                ),
            decreases k,
        {
            let ghost sv = self.view().take(k as int);
            proof {
                lemma_namespaces_view(self.scopes@[k - 1].namespaces@);
                assert(sv.drop_last() =~= self.view().take(k - 1));
            }
            match find_name(&self.scopes[k - 1].namespaces, name) {
                Some(i) => {
                    return Some(&self.scopes[k - 1].namespaces[i].1);
                },
                None => {},
            }
            k = k - 1;
        }
        None
    }

    /// Marks the local `name` of the innermost scope that has one as moved.
    pub fn mark_moved(&mut self, name: &str)
        ensures
            final(self).view() == mark_moved_in(old(self).view(), name@),
    {
        let ghost v0 = self.view();
        let mut k = self.scopes.len();
        assert(v0.take(k as int) =~= v0);
        assert(v0.take(k as int) + v0.skip(k as int) =~= v0.take(k as int));
        while k > 0
            invariant
                k <= self.scopes@.len(),
                self.view() == v0,
                v0 == old(self).view(),
                self.scopes@.len() == v0.len(),
                mark_moved_in(v0, name@) == mark_moved_in(v0.take(k as int), name@) + v0.skip(
                    k as int,
                ),
            decreases k,
        {
            proof {
                lemma_locals_names(self.scopes@[k - 1].locals@);
                assert(v0.take(k as int).drop_last() =~= v0.take(k - 1));
                assert(v0.take(k as int).last() == v0[k - 1]);
            }
            match find_name(&self.scopes[k - 1].locals, name) {
                Some(i) => {
                    let ghost sk = v0[k - 1];
                    let mut top = self.scopes.remove(k - 1);
                    let ghost before = top.locals@;
                    let (nm, mut l) = top.locals.remove(i);
                    l.moved = true;
                    top.locals.insert(i, (nm, l));
                    let ghost newl = SpecLocal {
                        ty: type_view(l.ty),
                        mutable: l.mutable,
                        moved: true,
                    };
                    proof {
                        lemma_index_from(str_names(before), name@, 0);
                        assert(str_names(before)[i as int] == before[i as int].0@);
                        assert(before[i as int].0@ == name@);
                        assert(locals_view(top.locals@) =~= alist_set(
                            locals_view(before),
                            name@,
                            newl,
                        ));
                    }
                    self.scopes.insert(k - 1, top);
                    proof {
                        let nt = SpecScope { locals: alist_set(sk.locals, name@, newl), ..sk };
                        assert(scope_view(top) == nt);
                        assert(mark_moved_in(v0.take(k as int), name@) == v0.take(k as int).update(
                            k - 1,
                            nt,
                        ));
                        assert(self.view() =~= v0.update(k - 1, nt));
                        assert(v0.take(k as int).update(k - 1, nt) + v0.skip(k as int) =~= v0.update(
                            k - 1,
                            nt,
                        ));
                    }
                    return;
                },
                None => {
                    proof {
                        assert(mark_moved_in(v0.take(k as int), name@) == mark_moved_in(
                            v0.take(k - 1),
                            name@,
                        ).push(v0[k - 1]));
                        assert(mark_moved_in(v0.take(k - 1), name@).push(v0[k - 1]) + v0.skip(
                            k as int,
                        ) =~= mark_moved_in(v0.take(k - 1), name@) + v0.skip(k - 1));
                    }
                    k = k - 1;
                },
            }
        }
        proof {
            assert(v0.take(0) =~= Seq::<SpecScope>::empty());
            assert(mark_moved_in(v0.take(0), name@) + v0.skip(0) =~= v0);
        }
    }
}

pub proof fn lemma_locals_names(s: Seq<(String, Local)>)
    ensures
        names(locals_view(s)) == str_names(s),
        locals_view(s).len() == s.len(),
{
    assert(names(locals_view(s)) =~= str_names(s));
}

} // verus!
