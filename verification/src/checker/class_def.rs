//! A class definition.
#![allow(unused_imports)]
use vstd::prelude::*;
use crate::span::Span;
use crate::ty::{
    Type, FunctionType, ClassType, SpecType, SpecClass, type_view, fn_type_view, clone_type,
    clone_function_type, fields_view, field_map_view, methods_view, operators_view, class_view,
};
use crate::scopes::{find_name, alist_insert, alist_set, alist_get, first_index, str_names, names, lemma_index_from};
use crate::parser::{AstNode, SAst, ClassMember};
use crate::parser_spec::opt_string_view;
use crate::typechecker::{TypeChecker, arity_message, lemma_method_names};
use crate::tc_spec::{
    TcState, tc_class, class_bodies, collect_members, lemma_class_bodies_prefix, push_scope,
    pop_scope,
};

verus! {

pub proof fn lemma_field_map_names(s: Seq<(String, usize)>)
    ensures
        names(field_map_view(s)) == str_names(s),
        field_map_view(s).len() == s.len(),
{
    assert(names(field_map_view(s)) =~= str_names(s));
}

impl TypeChecker {
    /// A class definition: the class is added and its name defined; its
    /// fields and method signatures recorded; then each method and operator
    /// body is checked with `self` in scope and the class as the current one.
    #[verifier::loop_isolation(false)]
    pub(crate) fn check_class_definition(&mut self, s: &SAst)
        requires
            tc_class(old(self).view(), *s) is Some,
        ensures
            tc_class(old(self).view(), *s) == Some(final(self).view()),
        decreases s, 1int,
    {
        proof {
            reveal(tc_class);
        }
        match &s.node {
            AstNode::ClassDefinition { name, members } => {
                let ghost st0 = self.view();
                let class_id = self.type_arena.alloc_class(
                    ClassType {
                        name: name.clone(),
                        fields: Vec::new(),
                        field_index_map: Vec::new(),
                        methods: Vec::new(),
                        operators: Vec::new(),
                    },
                );
                proof {
                    let c0 = SpecClass {
                        name: name@,
                        fields: Seq::empty(),
                        field_index_map: Seq::empty(),
                        methods: Seq::empty(),
                        operators: Seq::empty(),
                    };
                    assert(class_view(self.type_arena.classes@.last()) == c0) by {
                        assert(fields_view(self.type_arena.classes@.last().fields@) =~= Seq::empty());
                        assert(field_map_view(self.type_arena.classes@.last().field_index_map@) =~= Seq::empty());
                        assert(methods_view(self.type_arena.classes@.last().methods@) =~= Seq::empty());
                        assert(operators_view(self.type_arena.classes@.last().operators@) =~= Seq::empty());
                    }
                    assert(self.type_arena.view() =~= st0.classes.push(c0));
                }
                self.scopes.define_type(name.clone(), Type::Class(class_id));
                let ghost s2 = self.view();
                let mut built_fields: Vec<(String, Type, bool)> = Vec::new();
                let mut built_map: Vec<(String, usize)> = Vec::new();
                let mut built_methods: Vec<(String, (usize, usize, FunctionType, bool))> = Vec::new();
                let mut k: usize = 0;
                proof {
                    assert(members@.take(0) =~= Seq::<ClassMember>::empty());
                    assert(fields_view(built_fields@) =~= Seq::empty());
                    assert(field_map_view(built_map@) =~= Seq::empty());
                    assert(methods_view(built_methods@) =~= Seq::empty());
                }
                while k < members.len()
                    invariant
                        k <= members@.len(),
                        self.view() == s2,
                        collect_members(s2.scopes, members@.take(k as int)) == (
                            fields_view(built_fields@),
                            field_map_view(built_map@),
                            methods_view(built_methods@),
                        ),
                    decreases members@.len() - k,
                {
                    assert(members@.take(k + 1).drop_last() =~= members@.take(k as int));
                    match &members[k] {
                        ClassMember::Field { name: fname, ty, is_public } => {
                            let compiled = self.compile_type(ty);
                            let idx = built_fields.len();
                            let ghost m0 = built_map@;
                            let ghost f0 = built_fields@;
                            proof {
                                lemma_field_map_names(m0);
                                lemma_index_from(str_names(m0), fname@, 0);
                            }
                            alist_insert(&mut built_map, fname.clone(), idx);
                            built_fields.push((fname.clone(), compiled, *is_public));
                            proof {
                                assert(field_map_view(built_map@) =~= alist_set(
                                    field_map_view(m0),
                                    fname@,
                                    idx,
                                ));
                                assert(fields_view(built_fields@) =~= fields_view(f0).push(
                                    (fname@, type_view(compiled), *is_public),
                                ));
                            }
                        },
                        ClassMember::Method { name: mname, params, return_type, is_public, .. } => {
                            let fnty = self.build_fn_type(params, return_type);
                            let ghost fv = fn_type_view(fnty);
                            let ghost t0 = built_methods@;
                            proof {
                                lemma_method_names(t0);
                                lemma_index_from(str_names(t0), mname@, 0);
                            }
                            alist_insert(&mut built_methods, mname.clone(), (0usize, 0usize, fnty, *is_public));
                            proof {
                                assert(methods_view(built_methods@) =~= alist_set(
                                    methods_view(t0),
                                    mname@,
                                    (0usize, 0usize, fv, *is_public),
                                ));
                            }
                        },
                        _ => {},
                    }
                    k = k + 1;
                }
                assert(members@.take(k as int) =~= members@);
                let ghost fs = fields_view(built_fields@);
                let ghost fm = field_map_view(built_map@);
                let ghost mt = methods_view(built_methods@);
                {
                    let class = self.type_arena.get_class_mut(class_id);
                    class.fields = built_fields;
                    class.field_index_map = built_map;
                    class.methods = built_methods;
                }
                proof {
                    let c = SpecClass {
                        fields: fs,
                        field_index_map: fm,
                        methods: mt,
                        ..s2.classes[class_id.0 as int]
                    };
                    assert(self.type_arena.view() =~= s2.classes.update(class_id.0 as int, c));
                }
                let prev_class: Option<String> = match &self.current_class {
                    Some(c) => Some(c.clone()),
                    None => None,
                };
                let prev_ret = clone_type(&self.current_return_ty);
                self.current_class = Some(name.clone());
                self.scopes.push();
                self.scopes.define_local("self".to_owned(), Type::Class(class_id), false);
                let ghost s4 = self.view();
                let mut k: usize = 0;
                proof {
                    reveal(class_bodies);
                }
                while k < members.len()
                    invariant
                        k <= members@.len(),
                        class_bodies(s4, class_id.0, members@, members@.len()) is Some,
                        class_bodies(s4, class_id.0, members@, k as nat) == Some(self.view()),
                    decreases members@.len() - k,
                {
                    proof {
                        reveal(class_bodies);
                        lemma_class_bodies_prefix(s4, class_id.0, members@, members@.len(), (k + 1) as nat);
                    }
                    match &members[k] {
                        ClassMember::Method { name: mname, params, body, .. } => {
                            let found: Option<FunctionType> = {
                                let class = self.type_arena.get_class(class_id);
                                proof {
                                    assert(self.view().classes[class_id.0 as int] == class_view(*class));
                                    lemma_method_names(class.methods@);
                                    lemma_index_from(str_names(class.methods@), mname@, 0);
                                }
                                match find_name(&class.methods, mname.as_str()) {
                                    Some(i) => Some(clone_function_type(&class.methods[i].1.2)),
                                    None => None,
                                }
                            };
                            if let Some(fn_ty) = found {
                                let ret = clone_type(&fn_ty.return_type);
                                self.scopes.define_local(mname.clone(), Type::Function(Box::new(fn_ty)), false);
                                self.current_return_ty = ret;
                                self.scopes.push();
                                self.scopes.define_local("self".to_owned(), Type::Class(class_id), false);
                                self.register_params(params);
                                self.check_stmts(body);
                                self.scopes.pop();
                            }
                        },
                        ClassMember::OperatorOverload { op, params, return_type, body } => {
                            if params.len() != 2 {
                                let m = arity_message(op);
                                self.error(Span::dummy(), m);
                            }
                            let ret_ty = self.compile_type(return_type);
                            self.current_return_ty = ret_ty;
                            self.scopes.push();
                            self.register_params(params);
                            self.check_stmts(body);
                            self.scopes.pop();
                        },
                        _ => {},
                    }
                    k = k + 1;
                }
                self.scopes.pop();
                self.current_class = prev_class;
                self.current_return_ty = prev_ret;
            },
            _ => {},
        }
    }
}

} // verus!
