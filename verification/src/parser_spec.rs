//! What parsing means: the syntax tree with its text as characters, and
//! the parse of a token sequence.
use vstd::prelude::*;
use crate::span::Span;
use crate::operator::Operator;
use crate::lexer_spec::SpecToken;
use crate::lexer::token_debug;
use crate::parser::{
    MacroDesignator, RepQuantifier, MacroTokenTree, MacroArm, MacroDefinition, TypeNode,
    BindingNode, MatchPattern, MatchArm, ClassMember, CategoryVariant, NamedTupleDef, FmtPart,
    AstNode, SAst,
};

verus! {

/// A node with the span of its source.
pub type SpecSAst = (SpecAstNode, Span);

/// What a `MacroTokenTree` stands for.
pub enum SpecMacroTokenTree {
    Token(SpecToken, Span),
    Metavar { name: Seq<char>, designator: MacroDesignator },
    Repetition { trees: Seq<SpecMacroTokenTree>, separator: Option<Seq<char>>, quantifier: RepQuantifier },
    Group { delimiter: char, trees: Seq<SpecMacroTokenTree> },
}

/// What a `MacroArm` stands for.
pub struct SpecMacroArm {
    pub pattern: Seq<SpecMacroTokenTree>,
    pub template: Seq<SpecMacroTokenTree>,
}

/// What a `MacroDefinition` stands for.
pub struct SpecMacroDefinition {
    pub name: Seq<char>,
    pub arms: Seq<SpecMacroArm>,
}

/// What a `TypeNode` stands for.
pub enum SpecTypeNode {
    NominalType { name: Seq<char>, generics: Seq<SpecTypeNode> },
    ArrayType { elem_type: Box<SpecTypeNode> },
    HashMapType { key_type: Box<SpecTypeNode>, value_type: Box<SpecTypeNode> },
    Qualified { inner: Box<SpecTypeNode>, mutable: bool, borrowed: bool, moved: bool },
    Inferred,
}

/// What a `BindingNode` stands for.
pub enum SpecBindingNode {
    IdentifierBinding { name: Seq<char>, ty: SpecTypeNode },
    OrderedBinding { bindings: Seq<SpecBindingNode> },
    UnorderedBinding { bindings: Seq<SpecBindingNode> },
}

/// What a `MatchPattern` stands for.
pub enum SpecMatchPattern {
    Binding(SpecBindingNode),
    Expr(SpecSAst),
    CategoryVariant { path: Seq<Seq<char>>, binding: Option<SpecBindingNode> },
    Default(Option<Seq<char>>),
    Wildcard,
}

/// What a `MatchArm` stands for.
pub struct SpecMatchArm {
    pub pattern: SpecMatchPattern,
    pub body: Seq<SpecSAst>,
}

/// What a `ClassMember` stands for.
pub enum SpecClassMember {
    Field { name: Seq<char>, ty: SpecTypeNode, is_public: bool },
    Method { name: Seq<char>, type_params: Seq<(SpecTypeNode, Option<SpecTypeNode>)>, has_self: bool, params: Seq<SpecBindingNode>, return_type: SpecTypeNode, body: Seq<SpecSAst>, is_public: bool },
    OperatorOverload { op: Operator, params: Seq<SpecBindingNode>, return_type: SpecTypeNode, body: Seq<SpecSAst> },
}

/// What a `CategoryVariant` stands for.
pub enum SpecCategoryVariant {
    Unit { name: Seq<char> },
    Tuple { name: Seq<char>, fields: Seq<SpecTypeNode>, methods: Seq<SpecClassMember> },
    Class { name: Seq<char>, fields: Seq<(Seq<char>, SpecTypeNode)>, methods: Seq<SpecClassMember> },
}

/// What a `NamedTupleDef` stands for.
pub struct SpecNamedTupleDef {
    pub name: Seq<char>,
    pub fields: Seq<SpecTypeNode>,
    pub methods: Seq<SpecClassMember>,
}

/// What a `FmtPart` stands for.
pub enum SpecFmtPart {
    Literal(Seq<char>),
    Expr(SpecSAst),
}

/// What a `AstNode` stands for.
pub enum SpecAstNode {
    Identifier(Seq<char>),
    IntLiteral(i32),
    FloatLiteral(Seq<char>),
    StringLiteral(Seq<char>),
    FmtStringLiteral(Seq<SpecFmtPart>),
    ArrayLiteral(Seq<SpecSAst>),
    HashMapLiteral(Seq<(SpecSAst, SpecSAst)>),
    SelfExpr,
    VarDeclaration { binding: SpecBindingNode, init_value: Option<Box<SpecSAst>> },
    Assignment { left: Box<SpecSAst>, right: Box<SpecSAst> },
    FunctionDeclaration { name: Seq<char>, type_params: Seq<(SpecTypeNode, Option<SpecTypeNode>)>, params: Seq<SpecBindingNode>, return_type: SpecTypeNode, body: Seq<SpecSAst> },
    ReturnStmt { value: Option<Box<SpecSAst>> },
    ModuleStmt { name: Seq<char> },
    UseStmt { base_path: Box<SpecSAst>, used: Seq<(Seq<char>, Seq<char>)> },
    Public(Box<SpecSAst>),
    Borrowed(Box<SpecSAst>),
    Moved(Box<SpecSAst>),
    Typeof(Box<SpecSAst>),
    Throw(Box<SpecSAst>),
    BinaryOperation { op: Operator, left: Box<SpecSAst>, right: Box<SpecSAst> },
    UnaryOperation { op: Operator, right: Box<SpecSAst> },
    ComputedIndex { indexee: Box<SpecSAst>, index: Box<SpecSAst> },
    DotIndex { indexee: Box<SpecSAst>, index: Box<SpecSAst> },
    MethodCall { indexee: Box<SpecSAst>, index: Box<SpecSAst> },
    FunctionCall { callee: Box<SpecSAst>, args: Seq<SpecSAst> },
    ClassLiteral { ty: Box<SpecSAst>, fields: Seq<(Seq<char>, SpecSAst)> },
    TypeInstantiation { callee: Box<SpecSAst>, type_args: Seq<SpecTypeNode> },
    TypeCast { left: Box<SpecSAst>, right: SpecTypeNode },
    ConditionalBranch { condition: Option<Box<SpecSAst>>, body: Seq<SpecSAst>, next: Option<Box<SpecSAst>> },
    WhileLoop { condition: Box<SpecSAst>, body: Seq<SpecSAst> },
    MatchStmt { matchee: Box<SpecSAst>, arms: Seq<SpecMatchArm> },
    ForLoop { binding: SpecBindingNode, iterator: Box<SpecSAst>, body: Seq<SpecSAst> },
    ClassDefinition { name: Seq<char>, members: Seq<SpecClassMember> },
    NamedTupleDefinition(SpecNamedTupleDef),
    CategoryDefinition { name: Seq<char>, variants: Seq<SpecCategoryVariant> },
    MacroDefinitionNode(SpecMacroDefinition),
    MacroInvocation { name: Seq<char>, args: Seq<SpecMacroTokenTree> },
    Error,
    Program(Seq<SpecSAst>),
}

pub open spec fn macro_token_tree_view(x: MacroTokenTree) -> SpecMacroTokenTree
    decreases x,
{
    match x {
        MacroTokenTree::Token(a0, a1) => SpecMacroTokenTree::Token(a0@, a1),
        MacroTokenTree::Metavar { name, designator } => SpecMacroTokenTree::Metavar { name: name@, designator: designator },
        MacroTokenTree::Repetition { trees, separator, quantifier } => SpecMacroTokenTree::Repetition { trees: vec_macro_token_tree_view(trees@), separator: opt_string_view(separator), quantifier: quantifier },
        MacroTokenTree::Group { delimiter, trees } => SpecMacroTokenTree::Group { delimiter: delimiter, trees: vec_macro_token_tree_view(trees@) },
    }
}

pub open spec fn macro_arm_view(x: MacroArm) -> SpecMacroArm
    decreases x,
{
    SpecMacroArm { pattern: vec_macro_token_tree_view(x.pattern@), template: vec_macro_token_tree_view(x.template@) }
}

pub open spec fn macro_definition_view(x: MacroDefinition) -> SpecMacroDefinition
    decreases x,
{
    SpecMacroDefinition { name: x.name@, arms: vec_macro_arm_view(x.arms@) }
}

pub open spec fn type_node_view(x: TypeNode) -> SpecTypeNode
    decreases x,
{
    match x {
        TypeNode::NominalType { name, generics } => SpecTypeNode::NominalType { name: name@, generics: vec_type_node_view(generics@) },
        TypeNode::ArrayType { elem_type } => SpecTypeNode::ArrayType { elem_type: Box::new(type_node_view(*elem_type)) },
        TypeNode::HashMapType { key_type, value_type } => SpecTypeNode::HashMapType { key_type: Box::new(type_node_view(*key_type)), value_type: Box::new(type_node_view(*value_type)) },
        TypeNode::Qualified { inner, mutable, borrowed, moved } => SpecTypeNode::Qualified { inner: Box::new(type_node_view(*inner)), mutable: mutable, borrowed: borrowed, moved: moved },
        TypeNode::Inferred => SpecTypeNode::Inferred,
    }
}

pub open spec fn binding_node_view(x: BindingNode) -> SpecBindingNode
    decreases x,
{
    match x {
        BindingNode::IdentifierBinding { name, ty } => SpecBindingNode::IdentifierBinding { name: name@, ty: type_node_view(ty) },
        BindingNode::OrderedBinding { bindings } => SpecBindingNode::OrderedBinding { bindings: vec_binding_node_view(bindings@) },
        BindingNode::UnorderedBinding { bindings } => SpecBindingNode::UnorderedBinding { bindings: vec_binding_node_view(bindings@) },
    }
}

pub open spec fn match_pattern_view(x: MatchPattern) -> SpecMatchPattern
    decreases x,
{
    match x {
        MatchPattern::Binding(a0) => SpecMatchPattern::Binding(binding_node_view(a0)),
        MatchPattern::Expr(a0) => SpecMatchPattern::Expr(sast_view(a0)),
        MatchPattern::CategoryVariant { path, binding } => SpecMatchPattern::CategoryVariant { path: vec_string_view(path@), binding: opt_binding_node_view(binding) },
        MatchPattern::Default(a0) => SpecMatchPattern::Default(opt_string_view(a0)),
        MatchPattern::Wildcard => SpecMatchPattern::Wildcard,
    }
}

pub open spec fn match_arm_view(x: MatchArm) -> SpecMatchArm
    decreases x,
{
    SpecMatchArm { pattern: match_pattern_view(x.pattern), body: vec_sast_view(x.body@) }
}

pub open spec fn class_member_view(x: ClassMember) -> SpecClassMember
    decreases x,
{
    match x {
        ClassMember::Field { name, ty, is_public } => SpecClassMember::Field { name: name@, ty: type_node_view(ty), is_public: is_public },
        ClassMember::Method { name, type_params, has_self, params, return_type, body, is_public } => SpecClassMember::Method { name: name@, type_params: vec_pair_type_node_opt_type_node_view(type_params@), has_self: has_self, params: vec_binding_node_view(params@), return_type: type_node_view(return_type), body: vec_sast_view(body@), is_public: is_public },
        ClassMember::OperatorOverload { op, params, return_type, body } => SpecClassMember::OperatorOverload { op: op, params: vec_binding_node_view(params@), return_type: type_node_view(return_type), body: vec_sast_view(body@) },
    }
}

pub open spec fn category_variant_view(x: CategoryVariant) -> SpecCategoryVariant
    decreases x,
{
    match x {
        CategoryVariant::Unit { name } => SpecCategoryVariant::Unit { name: name@ },
        CategoryVariant::Tuple { name, fields, methods } => SpecCategoryVariant::Tuple { name: name@, fields: vec_type_node_view(fields@), methods: vec_class_member_view(methods@) },
        CategoryVariant::Class { name, fields, methods } => SpecCategoryVariant::Class { name: name@, fields: vec_pair_string_type_node_view(fields@), methods: vec_class_member_view(methods@) },
    }
}

pub open spec fn named_tuple_def_view(x: NamedTupleDef) -> SpecNamedTupleDef
    decreases x,
{
    SpecNamedTupleDef { name: x.name@, fields: vec_type_node_view(x.fields@), methods: vec_class_member_view(x.methods@) }
}

pub open spec fn fmt_part_view(x: FmtPart) -> SpecFmtPart
    decreases x,
{
    match x {
        FmtPart::Literal(a0) => SpecFmtPart::Literal(a0@),
        FmtPart::Expr(a0) => SpecFmtPart::Expr(sast_view(a0)),
    }
}

pub open spec fn ast_node_view(x: AstNode) -> SpecAstNode
    decreases x,
{
    match x {
        AstNode::Identifier(a0) => SpecAstNode::Identifier(a0@),
        AstNode::IntLiteral(a0) => SpecAstNode::IntLiteral(a0),
        AstNode::FloatLiteral(a0) => SpecAstNode::FloatLiteral(a0@),
        AstNode::StringLiteral(a0) => SpecAstNode::StringLiteral(a0@),
        AstNode::FmtStringLiteral(a0) => SpecAstNode::FmtStringLiteral(vec_fmt_part_view(a0@)),
        AstNode::ArrayLiteral(a0) => SpecAstNode::ArrayLiteral(vec_sast_view(a0@)),
        AstNode::HashMapLiteral(a0) => SpecAstNode::HashMapLiteral(vec_pair_sast_sast_view(a0@)),
        AstNode::SelfExpr => SpecAstNode::SelfExpr,
        AstNode::VarDeclaration { binding, init_value } => SpecAstNode::VarDeclaration { binding: binding_node_view(binding), init_value: opt_box_sast_view(init_value) },
        AstNode::Assignment { left, right } => SpecAstNode::Assignment { left: Box::new(sast_view(*left)), right: Box::new(sast_view(*right)) },
        AstNode::FunctionDeclaration { name, type_params, params, return_type, body } => SpecAstNode::FunctionDeclaration { name: name@, type_params: vec_pair_type_node_opt_type_node_view(type_params@), params: vec_binding_node_view(params@), return_type: type_node_view(return_type), body: vec_sast_view(body@) },
        AstNode::ReturnStmt { value } => SpecAstNode::ReturnStmt { value: opt_box_sast_view(value) },
        AstNode::ModuleStmt { name } => SpecAstNode::ModuleStmt { name: name@ },
        AstNode::UseStmt { base_path, used } => SpecAstNode::UseStmt { base_path: Box::new(sast_view(*base_path)), used: vec_pair_string_string_view(used@) },
        AstNode::Public(a0) => SpecAstNode::Public(Box::new(sast_view(*a0))),
        AstNode::Borrowed(a0) => SpecAstNode::Borrowed(Box::new(sast_view(*a0))),
        AstNode::Moved(a0) => SpecAstNode::Moved(Box::new(sast_view(*a0))),
        AstNode::Typeof(a0) => SpecAstNode::Typeof(Box::new(sast_view(*a0))),
        AstNode::Throw(a0) => SpecAstNode::Throw(Box::new(sast_view(*a0))),
        AstNode::BinaryOperation { op, left, right } => SpecAstNode::BinaryOperation { op: op, left: Box::new(sast_view(*left)), right: Box::new(sast_view(*right)) },
        AstNode::UnaryOperation { op, right } => SpecAstNode::UnaryOperation { op: op, right: Box::new(sast_view(*right)) },
        AstNode::ComputedIndex { indexee, index } => SpecAstNode::ComputedIndex { indexee: Box::new(sast_view(*indexee)), index: Box::new(sast_view(*index)) },
        AstNode::DotIndex { indexee, index } => SpecAstNode::DotIndex { indexee: Box::new(sast_view(*indexee)), index: Box::new(sast_view(*index)) },
        AstNode::MethodCall { indexee, index } => SpecAstNode::MethodCall { indexee: Box::new(sast_view(*indexee)), index: Box::new(sast_view(*index)) },
        AstNode::FunctionCall { callee, args } => SpecAstNode::FunctionCall { callee: Box::new(sast_view(*callee)), args: vec_sast_view(args@) },
        AstNode::ClassLiteral { ty, fields } => SpecAstNode::ClassLiteral { ty: Box::new(sast_view(*ty)), fields: vec_pair_string_sast_view(fields@) },
        AstNode::TypeInstantiation { callee, type_args } => SpecAstNode::TypeInstantiation { callee: Box::new(sast_view(*callee)), type_args: vec_type_node_view(type_args@) },
        AstNode::TypeCast { left, right } => SpecAstNode::TypeCast { left: Box::new(sast_view(*left)), right: type_node_view(right) },
        AstNode::ConditionalBranch { condition, body, next } => SpecAstNode::ConditionalBranch { condition: opt_box_sast_view(condition), body: vec_sast_view(body@), next: opt_box_sast_view(next) },
        AstNode::WhileLoop { condition, body } => SpecAstNode::WhileLoop { condition: Box::new(sast_view(*condition)), body: vec_sast_view(body@) },
        AstNode::MatchStmt { matchee, arms } => SpecAstNode::MatchStmt { matchee: Box::new(sast_view(*matchee)), arms: vec_match_arm_view(arms@) },
        AstNode::ForLoop { binding, iterator, body } => SpecAstNode::ForLoop { binding: binding_node_view(binding), iterator: Box::new(sast_view(*iterator)), body: vec_sast_view(body@) },
        AstNode::ClassDefinition { name, members } => SpecAstNode::ClassDefinition { name: name@, members: vec_class_member_view(members@) },
        AstNode::NamedTupleDefinition(a0) => SpecAstNode::NamedTupleDefinition(named_tuple_def_view(a0)),
        AstNode::CategoryDefinition { name, variants } => SpecAstNode::CategoryDefinition { name: name@, variants: vec_category_variant_view(variants@) },
        AstNode::MacroDefinitionNode(a0) => SpecAstNode::MacroDefinitionNode(macro_definition_view(a0)),
        AstNode::MacroInvocation { name, args } => SpecAstNode::MacroInvocation { name: name@, args: vec_macro_token_tree_view(args@) },
        AstNode::Error => SpecAstNode::Error,
        AstNode::Program(a0) => SpecAstNode::Program(vec_sast_view(a0@)),
    }
}

pub open spec fn vec_macro_token_tree_view(v: Seq<MacroTokenTree>) -> Seq<SpecMacroTokenTree>
    decreases v,
{
    if v.len() == 0 {
        Seq::empty()
    } else {
        vec_macro_token_tree_view(v.drop_last()).push(macro_token_tree_view(v.last()))
    }
}

pub open spec fn opt_string_view(o: Option<String>) -> Option<Seq<char>>
    decreases o,
{
    match o {
        Some(x) => Some(x@),
        None => None,
    }
}

pub open spec fn vec_macro_arm_view(v: Seq<MacroArm>) -> Seq<SpecMacroArm>
    decreases v,
{
    if v.len() == 0 {
        Seq::empty()
    } else {
        vec_macro_arm_view(v.drop_last()).push(macro_arm_view(v.last()))
    }
}

pub open spec fn vec_type_node_view(v: Seq<TypeNode>) -> Seq<SpecTypeNode>
    decreases v,
{
    if v.len() == 0 {
        Seq::empty()
    } else {
        vec_type_node_view(v.drop_last()).push(type_node_view(v.last()))
    }
}

pub open spec fn vec_binding_node_view(v: Seq<BindingNode>) -> Seq<SpecBindingNode>
    decreases v,
{
    if v.len() == 0 {
        Seq::empty()
    } else {
        vec_binding_node_view(v.drop_last()).push(binding_node_view(v.last()))
    }
}

pub open spec fn sast_view(s: SAst) -> SpecSAst
    decreases s,
{
    (ast_node_view(s.node), s.span)
}

pub open spec fn vec_string_view(v: Seq<String>) -> Seq<Seq<char>>
    decreases v,
{
    if v.len() == 0 {
        Seq::empty()
    } else {
        vec_string_view(v.drop_last()).push(v.last()@)
    }
}

pub open spec fn opt_binding_node_view(o: Option<BindingNode>) -> Option<SpecBindingNode>
    decreases o,
{
    match o {
        Some(x) => Some(binding_node_view(x)),
        None => None,
    }
}

pub open spec fn vec_sast_view(v: Seq<SAst>) -> Seq<SpecSAst>
    decreases v,
{
    if v.len() == 0 {
        Seq::empty()
    } else {
        vec_sast_view(v.drop_last()).push(sast_view(v.last()))
    }
}

pub open spec fn vec_pair_type_node_opt_type_node_view(v: Seq<(TypeNode, Option<TypeNode>)>) -> Seq<(SpecTypeNode, Option<SpecTypeNode>)>
    decreases v,
{
    if v.len() == 0 {
        Seq::empty()
    } else {
        vec_pair_type_node_opt_type_node_view(v.drop_last()).push(pair_type_node_opt_type_node_view(v.last()))
    }
}

pub open spec fn pair_type_node_opt_type_node_view(p: (TypeNode, Option<TypeNode>)) -> (SpecTypeNode, Option<SpecTypeNode>)
    decreases p,
{
    (type_node_view(p.0), opt_type_node_view(p.1))
}

pub open spec fn opt_type_node_view(o: Option<TypeNode>) -> Option<SpecTypeNode>
    decreases o,
{
    match o {
        Some(x) => Some(type_node_view(x)),
        None => None,
    }
}

pub open spec fn vec_class_member_view(v: Seq<ClassMember>) -> Seq<SpecClassMember>
    decreases v,
{
    if v.len() == 0 {
        Seq::empty()
    } else {
        vec_class_member_view(v.drop_last()).push(class_member_view(v.last()))
    }
}

pub open spec fn vec_pair_string_type_node_view(v: Seq<(String, TypeNode)>) -> Seq<(Seq<char>, SpecTypeNode)>
    decreases v,
{
    if v.len() == 0 {
        Seq::empty()
    } else {
        vec_pair_string_type_node_view(v.drop_last()).push(pair_string_type_node_view(v.last()))
    }
}

pub open spec fn pair_string_type_node_view(p: (String, TypeNode)) -> (Seq<char>, SpecTypeNode)
    decreases p,
{
    (p.0@, type_node_view(p.1))
}

pub open spec fn vec_fmt_part_view(v: Seq<FmtPart>) -> Seq<SpecFmtPart>
    decreases v,
{
    if v.len() == 0 {
        Seq::empty()
    } else {
        vec_fmt_part_view(v.drop_last()).push(fmt_part_view(v.last()))
    }
}

pub open spec fn vec_pair_sast_sast_view(v: Seq<(SAst, SAst)>) -> Seq<(SpecSAst, SpecSAst)>
    decreases v,
{
    if v.len() == 0 {
        Seq::empty()
    } else {
        vec_pair_sast_sast_view(v.drop_last()).push(pair_sast_sast_view(v.last()))
    }
}

pub open spec fn pair_sast_sast_view(p: (SAst, SAst)) -> (SpecSAst, SpecSAst)
    decreases p,
{
    (sast_view(p.0), sast_view(p.1))
}

pub open spec fn opt_box_sast_view(o: Option<Box<SAst>>) -> Option<Box<SpecSAst>>
    decreases o,
{
    match o {
        Some(x) => Some(Box::new(sast_view(*x))),
        None => None,
    }
}

pub open spec fn vec_pair_string_string_view(v: Seq<(String, String)>) -> Seq<(Seq<char>, Seq<char>)>
    decreases v,
{
    if v.len() == 0 {
        Seq::empty()
    } else {
        vec_pair_string_string_view(v.drop_last()).push(pair_string_string_view(v.last()))
    }
}

pub open spec fn pair_string_string_view(p: (String, String)) -> (Seq<char>, Seq<char>)
    decreases p,
{
    (p.0@, p.1@)
}

pub open spec fn vec_pair_string_sast_view(v: Seq<(String, SAst)>) -> Seq<(Seq<char>, SpecSAst)>
    decreases v,
{
    if v.len() == 0 {
        Seq::empty()
    } else {
        vec_pair_string_sast_view(v.drop_last()).push(pair_string_sast_view(v.last()))
    }
}

pub open spec fn pair_string_sast_view(p: (String, SAst)) -> (Seq<char>, SpecSAst)
    decreases p,
{
    (p.0@, sast_view(p.1))
}

pub open spec fn vec_match_arm_view(v: Seq<MatchArm>) -> Seq<SpecMatchArm>
    decreases v,
{
    if v.len() == 0 {
        Seq::empty()
    } else {
        vec_match_arm_view(v.drop_last()).push(match_arm_view(v.last()))
    }
}

pub open spec fn vec_category_variant_view(v: Seq<CategoryVariant>) -> Seq<SpecCategoryVariant>
    decreases v,
{
    if v.len() == 0 {
        Seq::empty()
    } else {
        vec_category_variant_view(v.drop_last()).push(category_variant_view(v.last()))
    }
}

/// A token as the parser sees it: what it means and its span.
pub type PTok = (SpecToken, Span);

/// A syntax error: its message and span.
pub type SpecParseError = (Seq<char>, Span);

/// What the parser knows about where it is.
pub struct SpecCtx {
    pub no_fn_body: bool,
    pub current_class: Option<Seq<char>>,
}

/// The state of a parse: the index of the next token, the errors so far,
/// and the macros defined so far.
pub struct PState {
    pub pos: int,
    pub errs: Seq<SpecParseError>,
    pub macros: Map<Seq<char>, SpecMacroDefinition>,
}

pub open spec fn dummy_span() -> Span {
    Span { start: 0, end: 0 }
}

pub open spec fn at_pos(s: PState, pos: int) -> PState {
    PState { pos, errs: s.errs, macros: s.macros }
}

/// The next token, if any.
pub open spec fn peek_tok(t: Seq<PTok>, s: PState) -> Option<SpecToken> {
    if 0 <= s.pos < t.len() {
        Some(t[s.pos].0)
    } else {
        None
    }
}

/// The next token; past the end, `END`.
pub open spec fn peek_some(t: Seq<PTok>, s: PState) -> SpecToken {
    if 0 <= s.pos < t.len() {
        t[s.pos].0
    } else {
        SpecToken::END
    }
}

/// The span of the next token; past the end, the placeholder span.
pub open spec fn peek_span(t: Seq<PTok>, s: PState) -> Span {
    if 0 <= s.pos < t.len() {
        t[s.pos].1
    } else {
        dummy_span()
    }
}

/// Takes the next token, if any.
pub open spec fn consume(t: Seq<PTok>, s: PState) -> (Option<PTok>, PState) {
    if 0 <= s.pos < t.len() {
        (Some(t[s.pos]), at_pos(s, s.pos + 1))
    } else {
        (None, s)
    }
}

/// Records an error.
pub open spec fn push_err(s: PState, msg: Seq<char>, span: Span) -> PState {
    PState { pos: s.pos, errs: s.errs.push((msg, span)), macros: s.macros }
}

/// Takes the next token; past the end, records `Unexpected end of input`.
pub open spec fn expect_any(t: Seq<PTok>, s: PState) -> (Option<PTok>, PState) {
    if 0 <= s.pos < t.len() {
        consume(t, s)
    } else {
        (None, push_err(s, "Unexpected end of input"@, dummy_span()))
    }
}

/// Takes the next token and checks that it is `expected`; records an error
/// naming both tokens and `msg` when it is not, or when the input has ended.
pub open spec fn expect_tok(t: Seq<PTok>, s: PState, expected: SpecToken, msg: Seq<char>) -> (
    Option<PTok>,
    PState,
) {
    if !(0 <= s.pos < t.len()) {
        (
            None,
            push_err(
                s,
                "Expected "@ + token_debug(expected) + " but got end of input: "@ + msg,
                dummy_span(),
            ),
        )
    } else if t[s.pos].0 != expected {
        (
            None,
            push_err(
                at_pos(s, s.pos + 1),
                "Expected "@ + token_debug(expected) + ", got "@ + token_debug(t[s.pos].0) + ": "@
                    + msg,
                t[s.pos].1,
            ),
        )
    } else {
        (Some(t[s.pos]), at_pos(s, s.pos + 1))
    }
}

/// Keeps the position of `out` within `[s.pos, t.len()]`.
pub open spec fn after(t: Seq<PTok>, s: PState, out: PState) -> PState {
    if out.pos < s.pos {
        at_pos(out, s.pos)
    } else if out.pos > t.len() {
        at_pos(out, t.len() as int)
    } else {
        out
    }
}

/// Keeps the position of `out` within `[s.pos + 1, t.len()]`, for a part
/// that read at least one token.
pub open spec fn after_progress(t: Seq<PTok>, s: PState, out: PState) -> PState {
    if out.pos <= s.pos {
        at_pos(out, s.pos + 1)
    } else if out.pos > t.len() {
        at_pos(out, t.len() as int)
    } else {
        out
    }
}

pub open spec fn wrap_qualifiers(base: SpecTypeNode, m: bool, b: bool, mv: bool) -> SpecTypeNode {
    if m || b || mv {
        SpecTypeNode::Qualified { inner: Box::new(base), mutable: m, borrowed: b, moved: mv }
    } else {
        base
    }
}

/// Parses a type: any of `mut`, `&`, `->`, then a name with optional
/// `<generics>`, `Self`, `[T]` or `{[K]: V}`.
pub open spec fn p_type(t: Seq<PTok>, s: PState, ctx: SpecCtx) -> (Option<SpecTypeNode>, PState)
    decreases t.len() - s.pos, 11int,
{
    p_type_quals(t, s, ctx, false, false, false)
}

pub open spec fn p_type_quals(
    t: Seq<PTok>,
    s: PState,
    ctx: SpecCtx,
    m: bool,
    b: bool,
    mv: bool,
) -> (Option<SpecTypeNode>, PState)
    decreases t.len() - s.pos, 10int,
{
    if !(0 <= s.pos <= t.len()) {
        (None, s)
    } else {
        match peek_some(t, s) {
            SpecToken::MUTABLE => p_type_quals(t, at_pos(s, s.pos + 1), ctx, true, b, mv),
            SpecToken::AND => p_type_quals(t, at_pos(s, s.pos + 1), ctx, m, true, mv),
            SpecToken::ARROW => p_type_quals(t, at_pos(s, s.pos + 1), ctx, m, b, true),
            _ => p_type_base(t, s, ctx, m, b, mv),
        }
    }
}

pub open spec fn p_type_base(
    t: Seq<PTok>,
    s: PState,
    ctx: SpecCtx,
    m: bool,
    b: bool,
    mv: bool,
) -> (Option<SpecTypeNode>, PState)
    decreases t.len() - s.pos, 9int,
{
    if !(0 <= s.pos <= t.len()) {
        (None, s)
    } else {
        let (tok, s1) = expect_any(t, s);
        match tok {
            None => (None, s1),
            Some((tk, span)) => match tk {
                SpecToken::IDENT(name) => if peek_some(t, s1) == SpecToken::BINOP("<"@) {
                    let (gs, s2) = p_generics(t, at_pos(s1, s1.pos + 1), ctx, seq![]);
                    match gs {
                        None => (None, s2),
                        Some(generics) => (
                            Some(
                                wrap_qualifiers(
                                    SpecTypeNode::NominalType { name, generics },
                                    m,
                                    b,
                                    mv,
                                ),
                            ),
                            s2,
                        ),
                    }
                } else {
                    (
                        Some(
                            wrap_qualifiers(
                                SpecTypeNode::NominalType { name, generics: seq![] },
                                m,
                                b,
                                mv,
                            ),
                        ),
                        s1,
                    )
                },
                SpecToken::SELFTYPE => match ctx.current_class {
                    Some(name) => (
                        Some(
                            wrap_qualifiers(
                                SpecTypeNode::NominalType { name, generics: seq![] },
                                m,
                                b,
                                mv,
                            ),
                        ),
                        s1,
                    ),
                    None => (None, push_err(s1, "'Self' used outside of a class body"@, span)),
                },
                SpecToken::PAREN(p) => if p == "["@ {
                    let (elem, s2) = p_type(t, s1, ctx);
                    match elem {
                        None => (None, s2),
                        Some(elem) => {
                            let (c, s3) = expect_tok(
                                t,
                                after(t, s1, s2),
                                SpecToken::PAREN("]"@),
                                "Expected ']' after array element type"@,
                            );
                            match c {
                                None => (None, s3),
                                Some(_) => (
                                    Some(
                                        wrap_qualifiers(
                                            SpecTypeNode::ArrayType { elem_type: Box::new(elem) },
                                            m,
                                            b,
                                            mv,
                                        ),
                                    ),
                                    s3,
                                ),
                            }
                        },
                    }
                } else if p == "{"@ {
                    p_hashmap_type(t, s1, ctx, m, b, mv)
                } else {
                    (None, push_err(s1, "Unhandled type token: "@ + token_debug(tk), span))
                },
                other => (None, push_err(s1, "Unhandled type token: "@ + token_debug(other), span)),
            },
        }
    }
}

/// The rest of a hashmap type after `{`: `[K]: V}`.
pub open spec fn p_hashmap_type(
    t: Seq<PTok>,
    s: PState,
    ctx: SpecCtx,
    m: bool,
    b: bool,
    mv: bool,
) -> (Option<SpecTypeNode>, PState)
    decreases t.len() - s.pos, 8int,
{
    if !(0 <= s.pos <= t.len()) {
        (None, s)
    } else {
        let (o, s1) = expect_tok(t, s, SpecToken::PAREN("["@), "Expected '[' after '{' in hashmap type"@);
        match o {
            None => (None, s1),
            Some(_) => {
                let (k, s2) = p_type(t, s1, ctx);
                match k {
                    None => (None, s2),
                    Some(key) => {
                        let (c1, s3) = expect_tok(
                            t,
                            after(t, s1, s2),
                            SpecToken::PAREN("]"@),
                            "Expected ']' after hashmap key type"@,
                        );
                        match c1 {
                            None => (None, s3),
                            Some(_) => {
                                let (c2, s4) = expect_tok(
                                    t,
                                    s3,
                                    SpecToken::PUNCT(":"@),
                                    "Expected ':' after hashmap key type"@,
                                );
                                match c2 {
                                    None => (None, s4),
                                    Some(_) => {
                                        let s4a = after(t, s1, s4);
                                        let (v, s5) = p_type(t, s4a, ctx);
                                        match v {
                                            None => (None, s5),
                                            Some(value) => {
                                                let (c3, s6) = expect_tok(
                                                    t,
                                                    after(t, s4a, s5),
                                                    SpecToken::PAREN("}"@),
                                                    "Expected '}' to close hashmap type"@,
                                                );
                                                match c3 {
                                                    None => (None, s6),
                                                    Some(_) => (
                                                        Some(
                                                            wrap_qualifiers(
                                                                SpecTypeNode::HashMapType {
                                                                    key_type: Box::new(key),
                                                                    value_type: Box::new(value),
                                                                },
                                                                m,
                                                                b,
                                                                mv,
                                                            ),
                                                        ),
                                                        s6,
                                                    ),
                                                }
                                            },
                                        }
                                    },
                                }
                            },
                        }
                    },
                }
            },
        }
    }
}

/// The generic arguments of a type name, after `<`, up to `>`.
pub open spec fn p_generics(t: Seq<PTok>, s: PState, ctx: SpecCtx, acc: Seq<SpecTypeNode>) -> (
    Option<Seq<SpecTypeNode>>,
    PState,
)
    decreases t.len() - s.pos, 12int,
{
    if !(0 <= s.pos <= t.len()) {
        (None, s)
    } else {
        let nx = peek_some(t, s);
        if nx == SpecToken::BINOP(">"@) {
            (Some(acc), at_pos(s, s.pos + 1))
        } else if nx == SpecToken::PUNCT(","@) {
            p_generics(t, at_pos(s, s.pos + 1), ctx, acc)
        } else {
            let (ty, s1) = p_type(t, s, ctx);
            match ty {
                None => (None, s1),
                Some(ty) => if s.pos < t.len() {
                    p_generics(t, after_progress(t, s, s1), ctx, acc.push(ty))
                } else {
                    (None, s1)
                },
            }
        }
    }
}

/// Parses a binding: a name (or `self`) with an optional `: type`, or a
/// list of bindings in `( )` (ordered) or `{ }` (unordered).
pub open spec fn p_binding(t: Seq<PTok>, s: PState, ctx: SpecCtx) -> (
    Option<SpecBindingNode>,
    PState,
)
    decreases t.len() - s.pos, 13int,
{
    if !(0 <= s.pos <= t.len()) {
        (None, s)
    } else {
        match peek_some(t, s) {
            SpecToken::IDENT(name) => p_binding_typed(t, at_pos(s, s.pos + 1), ctx, name),
            SpecToken::SELF => p_binding_typed(t, at_pos(s, s.pos + 1), ctx, "self"@),
            SpecToken::PAREN(p) => if p == "("@ {
                p_binding_list(t, at_pos(s, s.pos + 1), ctx, true, seq![])
            } else if p == "{"@ {
                p_binding_list(t, at_pos(s, s.pos + 1), ctx, false, seq![])
            } else {
                (
                    None,
                    push_err(
                        s,
                        "Unknown binding initializer: "@ + token_debug(peek_some(t, s)),
                        peek_span(t, s),
                    ),
                )
            },
            other => (
                None,
                push_err(s, "Unknown binding initializer: "@ + token_debug(other), peek_span(t, s)),
            ),
        }
    }
}

/// The optional `: type` after a bound name.
pub open spec fn p_binding_typed(t: Seq<PTok>, s: PState, ctx: SpecCtx, name: Seq<char>) -> (
    Option<SpecBindingNode>,
    PState,
)
    decreases t.len() - s.pos, 12int,
{
    if !(0 <= s.pos <= t.len()) {
        (None, s)
    } else if peek_some(t, s) == SpecToken::PUNCT(":"@) {
        let (ty, s1) = p_type(t, at_pos(s, s.pos + 1), ctx);
        match ty {
            None => (None, s1),
            Some(ty) => (Some(SpecBindingNode::IdentifierBinding { name, ty }), s1),
        }
    } else {
        (Some(SpecBindingNode::IdentifierBinding { name, ty: SpecTypeNode::Inferred }), s)
    }
}

/// The bindings of a list, up to `)` (ordered) or `}` (unordered).
pub open spec fn p_binding_list(
    t: Seq<PTok>,
    s: PState,
    ctx: SpecCtx,
    ordered: bool,
    acc: Seq<SpecBindingNode>,
) -> (Option<SpecBindingNode>, PState)
    decreases t.len() - s.pos, 14int,
{
    if !(0 <= s.pos <= t.len()) {
        (None, s)
    } else {
        let nx = peek_some(t, s);
        if (ordered && nx == SpecToken::PAREN(")"@)) || (!ordered && nx == SpecToken::PAREN("}"@)) {
            (
                Some(
                    if ordered {
                        SpecBindingNode::OrderedBinding { bindings: acc }
                    } else {
                        SpecBindingNode::UnorderedBinding { bindings: acc }
                    },
                ),
                at_pos(s, s.pos + 1),
            )
        } else if nx == SpecToken::PUNCT(","@) {
            p_binding_list(t, at_pos(s, s.pos + 1), ctx, ordered, acc)
        } else {
            let (bn, s1) = p_binding(t, s, ctx);
            match bn {
                None => (None, s1),
                Some(bn) => if s.pos < t.len() {
                    p_binding_list(t, after_progress(t, s, s1), ctx, ordered, acc.push(bn))
                } else {
                    (None, s1)
                },
            }
        }
    }
}

/// The designator that a name after `$var:` stands for.
pub open spec fn designator_named(name: Seq<char>) -> Option<MacroDesignator> {
    if name == "expr"@ {
        Some(MacroDesignator::Expr)
    } else if name == "stmt"@ {
        Some(MacroDesignator::Stmt)
    } else if name == "ty"@ {
        Some(MacroDesignator::Ty)
    } else if name == "pat"@ {
        Some(MacroDesignator::Pat)
    } else if name == "ident"@ {
        Some(MacroDesignator::Ident)
    } else if name == "block"@ {
        Some(MacroDesignator::Block)
    } else if name == "lifetime"@ {
        Some(MacroDesignator::Lifetime)
    } else if name == "vis"@ {
        Some(MacroDesignator::Vis)
    } else if name == "meta"@ {
        Some(MacroDesignator::Meta)
    } else if name == "tt"@ {
        Some(MacroDesignator::Tt)
    } else if name == "str"@ {
        Some(MacroDesignator::Str)
    } else if name == "int"@ {
        Some(MacroDesignator::Int)
    } else if name == "float"@ {
        Some(MacroDesignator::Float)
    } else if name == "literal"@ {
        Some(MacroDesignator::Literal)
    } else {
        None
    }
}

/// Parses the designator after `$name:`.
pub open spec fn p_designator(t: Seq<PTok>, s: PState) -> (Option<MacroDesignator>, PState) {
    let (tok, s1) = expect_any(t, s);
    match tok {
        None => (None, s1),
        Some((tk, span)) => {
            let d = match tk {
                SpecToken::IDENT(name) => designator_named(name),
                _ => None,
            };
            match d {
                Some(d) => (Some(d), s1),
                None => (None, push_err(s1, "Unknown macro designator: "@ + token_debug(tk), span)),
            }
        },
    }
}

/// The closing delimiter of a macro group, by its opening one.
pub open spec fn group_close(open: Seq<char>) -> Seq<char> {
    if open == "("@ {
        ")"@
    } else if open == "["@ {
        "]"@
    } else {
        "}"@
    }
}

/// Parses one token tree of a macro: a repetition `$( ... ) sep? *|+`, a
/// variable `$name[:designator]`, a group in brackets, or a single token.
pub open spec fn p_tree(t: Seq<PTok>, s: PState) -> (Option<SpecMacroTokenTree>, PState)
    decreases t.len() - s.pos, 2int,
{
    if !(0 <= s.pos <= t.len()) {
        (None, s)
    } else {
        match peek_some(t, s) {
            SpecToken::MACRO_REP_START => {
                let s1 = at_pos(s, s.pos + 1);
                let (inner, s2) = p_trees(t, s1, SpecToken::PAREN(")"@), seq![]);
                let s3 = consume(t, after(t, s1, s2)).1;
                let nx = peek_some(t, s3);
                let (sep, s4) = if nx == SpecToken::PUNCT(","@) || nx == SpecToken::PUNCT(";"@) {
                    (
                        Some(
                            match nx {
                                SpecToken::PUNCT(p) => p,
                                _ => seq![],
                            },
                        ),
                        consume(t, s3).1,
                    )
                } else {
                    (None, s3)
                };
                let nq = peek_some(t, s4);
                if nq == SpecToken::UNARY("*"@) || nq == SpecToken::BINOP("*"@) {
                    (
                        Some(
                            SpecMacroTokenTree::Repetition {
                                trees: inner,
                                separator: sep,
                                quantifier: RepQuantifier::ZeroOrMore,
                            },
                        ),
                        consume(t, s4).1,
                    )
                } else if nq == SpecToken::UNARY("+"@) || nq == SpecToken::BINOP("+"@) {
                    (
                        Some(
                            SpecMacroTokenTree::Repetition {
                                trees: inner,
                                separator: sep,
                                quantifier: RepQuantifier::OneOrMore,
                            },
                        ),
                        consume(t, s4).1,
                    )
                } else {
                    (
                        None,
                        push_err(
                            s4,
                            "Expected * or + after macro repetition, got "@ + token_debug(nq),
                            peek_span(t, s4),
                        ),
                    )
                }
            },
            SpecToken::MACRO_VAR(name) => {
                let s1 = at_pos(s, s.pos + 1);
                if peek_some(t, s1) == SpecToken::PUNCT(":"@) {
                    let (d, s2) = p_designator(t, at_pos(s1, s1.pos + 1));
                    match d {
                        None => (None, s2),
                        Some(d) => (Some(SpecMacroTokenTree::Metavar { name, designator: d }), s2),
                    }
                } else {
                    (Some(SpecMacroTokenTree::Metavar { name, designator: MacroDesignator::Tt }), s1)
                }
            },
            SpecToken::PAREN(p) => if p == "("@ || p == "["@ || p == "{"@ {
                let s1 = at_pos(s, s.pos + 1);
                let (inner, s2) = p_trees(t, s1, SpecToken::PAREN(group_close(p)), seq![]);
                let s3 = consume(t, after(t, s1, s2)).1;
                (
                    Some(
                        SpecMacroTokenTree::Group {
                            delimiter: if p == "("@ {
                                '('
                            } else if p == "["@ {
                                '['
                            } else {
                                '{'
                            },
                            trees: inner,
                        },
                    ),
                    s3,
                )
            } else {
                let (c, s1) = consume(t, s);
                match c {
                    Some((tok, span)) => (Some(SpecMacroTokenTree::Token(tok, span)), s1),
                    None => (None, s1),
                }
            },
            _ => {
                let (c, s1) = consume(t, s);
                match c {
                    Some((tok, span)) => (Some(SpecMacroTokenTree::Token(tok, span)), s1),
                    None => (None, s1),
                }
            },
        }
    }
}

/// Parses token trees up to the end of input or the token `stop`, which is
/// left in place; stops early at a tree that fails.
pub open spec fn p_trees(t: Seq<PTok>, s: PState, stop: SpecToken, acc: Seq<SpecMacroTokenTree>) -> (
    Seq<SpecMacroTokenTree>,
    PState,
)
    decreases t.len() - s.pos, 3int,
{
    if !(0 <= s.pos < t.len()) || t[s.pos].0 == stop {
        (acc, s)
    } else {
        let (tree, s1) = p_tree(t, s);
        match tree {
            None => (acc, s1),
            Some(tree) => p_trees(t, after_progress(t, s, s1), stop, acc.push(tree)),
        }
    }
}

/// Parses the rest of a macro invocation `name!tree`, after its name.
pub open spec fn p_macro_invocation(t: Seq<PTok>, s: PState, name: Seq<char>, span: Span) -> (
    SpecSAst,
    PState,
) {
    let nx = peek_some(t, s);
    if nx != SpecToken::BANG {
        (
            (SpecAstNode::Error, span),
            push_err(
                s,
                "Expected '!' after macro name '"@ + name + "', got "@ + token_debug(nx),
                span,
            ),
        )
    } else {
        let (tree, s1) = p_tree(t, at_pos(s, s.pos + 1));
        (
            (
                SpecAstNode::MacroInvocation {
                    name,
                    args: match tree {
                        Some(tr) => seq![tr],
                        None => seq![],
                    },
                },
                span,
            ),
            s1,
        )
    }
}

/// Takes a closing token, whose span becomes the end; past the end of
/// input, records `No token` and keeps `end`.
pub open spec fn p_consume_end(t: Seq<PTok>, s: PState, end: Span) -> (Span, PState) {
    if 0 <= s.pos < t.len() {
        (t[s.pos].1, at_pos(s, s.pos + 1))
    } else {
        (end, push_err(s, "No token"@, end))
    }
}

/// The arms of a macro definition, up to `end`.
pub open spec fn p_macro_arms(t: Seq<PTok>, s: PState, acc: Seq<SpecMacroArm>, end: Span) -> (
    Seq<SpecMacroArm>,
    Span,
    PState,
)
    decreases t.len() - s.pos,
{
    if !(0 <= s.pos <= t.len()) {
        (acc, end, s)
    } else {
        let nx = peek_some(t, s);
        if nx == SpecToken::END {
            let (e, s1) = p_consume_end(t, s, end);
            (acc, e, s1)
        } else if nx == SpecToken::PUNCT(","@) {
            p_macro_arms(t, at_pos(s, s.pos + 1), acc, end)
        } else if s.pos < t.len() {
            let (pattern, s1) = p_trees(t, s, SpecToken::FATARROW, seq![]);
            let (fa, s2) = expect_tok(
                t,
                after(t, s, s1),
                SpecToken::FATARROW,
                "Expected '=>' in macro arm"@,
            );
            match fa {
                None => p_macro_arms(t, after_progress(t, s, s2), acc, end),
                Some(_) => {
                    let (template, s3) = p_trees(t, s2, SpecToken::END, seq![]);
                    p_macro_arms(
                        t,
                        after_progress(t, s, s3),
                        acc.push(SpecMacroArm { pattern, template }),
                        end,
                    )
                },
            }
        } else {
            (acc, end, s)
        }
    }
}

/// Parses a macro definition after `macro`: a name, an optional `!`, and
/// arms `pattern => template` up to `end`; the macro is recorded.
pub open spec fn p_macro_definition(t: Seq<PTok>, s: PState) -> (SpecSAst, PState) {
    let start = peek_span(t, s);
    let (nm, s1) = expect_any(t, s);
    match nm {
        None => ((SpecAstNode::Error, start), s1),
        Some((tk, span)) => match tk {
            SpecToken::IDENT(name) => {
                let s2 = if peek_some(t, s1) == SpecToken::BANG {
                    at_pos(s1, s1.pos + 1)
                } else {
                    s1
                };
                let (arms, end, s3) = p_macro_arms(t, s2, seq![], start);
                let def = SpecMacroDefinition { name, arms };
                (
                    (SpecAstNode::MacroDefinitionNode(def), start.spec_merge(end)),
                    PState { pos: s3.pos, errs: s3.errs, macros: s3.macros.insert(name, def) },
                )
            },
            other => (
                (SpecAstNode::Error, span),
                push_err(s1, "Expected macro name, got "@ + token_debug(other), span),
            ),
        },
    }
}

/// Parses a module statement after `module`: a name.
pub open spec fn p_module(t: Seq<PTok>, s: PState) -> (SpecSAst, PState) {
    let start = peek_span(t, s);
    let (tok, s1) = expect_any(t, s);
    match tok {
        None => ((SpecAstNode::Error, start), s1),
        Some((tk, span)) => match tk {
            SpecToken::IDENT(name) => ((SpecAstNode::ModuleStmt { name }, start.spec_merge(span)), s1),
            other => (
                (SpecAstNode::Error, span),
                push_err(s1, "Expected identifier after 'namespace', got "@ + token_debug(other), span),
            ),
        },
    }
}

/// Parses a class field: a name, `:`, and a type.
pub open spec fn p_class_field(t: Seq<PTok>, s: PState, ctx: SpecCtx, is_public: bool) -> (
    Option<SpecClassMember>,
    PState,
) {
    let (tok, s1) = expect_any(t, s);
    match tok {
        None => (None, s1),
        Some((tk, span)) => match tk {
            SpecToken::IDENT(name) => {
                let (c, s2) = expect_tok(t, s1, SpecToken::PUNCT(":"@), "Expected ':' after field name"@);
                match c {
                    None => (None, s2),
                    Some(_) => {
                        let (ty, s3) = p_type(t, s2, ctx);
                        match ty {
                            None => (None, s3),
                            Some(ty) => (Some(SpecClassMember::Field { name, ty, is_public }), s3),
                        }
                    },
                }
            },
            other => (None, push_err(s1, "Expected field name, got "@ + token_debug(other), span)),
        },
    }
}

/// Type parameters after `<`, each with an optional `: constraint`, up to `>`.
pub open spec fn p_type_params(
    t: Seq<PTok>,
    s: PState,
    ctx: SpecCtx,
    acc: Seq<(SpecTypeNode, Option<SpecTypeNode>)>,
) -> (Option<Seq<(SpecTypeNode, Option<SpecTypeNode>)>>, PState)
    decreases t.len() - s.pos,
{
    if !(0 <= s.pos <= t.len()) {
        (None, s)
    } else {
        let nx = peek_some(t, s);
        if nx == SpecToken::BINOP(">"@) {
            (Some(acc), at_pos(s, s.pos + 1))
        } else if nx == SpecToken::PUNCT(","@) {
            p_type_params(t, at_pos(s, s.pos + 1), ctx, acc)
        } else {
            let (node, s1) = p_type(t, s, ctx);
            match node {
                None => (None, s1),
                Some(node) => if s.pos < t.len() {
                    if peek_some(t, s1) == SpecToken::PUNCT(":"@) {
                        let (c, s2) = p_type(t, at_pos(s1, s1.pos + 1), ctx);
                        match c {
                            None => (None, s2),
                            Some(c) => p_type_params(
                                t,
                                after_progress(t, s, s2),
                                ctx,
                                acc.push((node, Some(c))),
                            ),
                        }
                    } else {
                        p_type_params(t, after_progress(t, s, s1), ctx, acc.push((node, None)))
                    }
                } else {
                    (None, s1)
                },
            }
        }
    }
}

/// Parameters after `(`, up to `)`.
pub open spec fn p_params(t: Seq<PTok>, s: PState, ctx: SpecCtx, acc: Seq<SpecBindingNode>) -> (
    Option<Seq<SpecBindingNode>>,
    PState,
)
    decreases t.len() - s.pos,
{
    if !(0 <= s.pos <= t.len()) {
        (None, s)
    } else {
        let nx = peek_some(t, s);
        if nx == SpecToken::PAREN(")"@) {
            (Some(acc), at_pos(s, s.pos + 1))
        } else if nx == SpecToken::PUNCT(","@) {
            p_params(t, at_pos(s, s.pos + 1), ctx, acc)
        } else {
            let (b, s1) = p_binding(t, s, ctx);
            match b {
                None => (None, s1),
                Some(b) => if s.pos < t.len() {
                    p_params(t, after_progress(t, s, s1), ctx, acc.push(b))
                } else {
                    (None, s1)
                },
            }
        }
    }
}

/// Types after `(`, up to `)`.
pub open spec fn p_type_list(t: Seq<PTok>, s: PState, ctx: SpecCtx, acc: Seq<SpecTypeNode>) -> (
    Option<Seq<SpecTypeNode>>,
    PState,
)
    decreases t.len() - s.pos,
{
    if !(0 <= s.pos <= t.len()) {
        (None, s)
    } else {
        let nx = peek_some(t, s);
        if nx == SpecToken::PAREN(")"@) {
            (Some(acc), at_pos(s, s.pos + 1))
        } else if nx == SpecToken::PUNCT(","@) {
            p_type_list(t, at_pos(s, s.pos + 1), ctx, acc)
        } else {
            let (ty, s1) = p_type(t, s, ctx);
            match ty {
                None => (None, s1),
                Some(ty) => if s.pos < t.len() {
                    p_type_list(t, after_progress(t, s, s1), ctx, acc.push(ty))
                } else {
                    (None, s1)
                },
            }
        }
    }
}

/// Named fields `name: type` of a struct variant after `{`, up to `}`.
pub open spec fn p_variant_fields(
    t: Seq<PTok>,
    s: PState,
    ctx: SpecCtx,
    acc: Seq<(Seq<char>, SpecTypeNode)>,
) -> (Option<Seq<(Seq<char>, SpecTypeNode)>>, PState)
    decreases t.len() - s.pos,
{
    if !(0 <= s.pos <= t.len()) {
        (None, s)
    } else {
        let nx = peek_some(t, s);
        if nx == SpecToken::PAREN("}"@) {
            (Some(acc), at_pos(s, s.pos + 1))
        } else if nx == SpecToken::PUNCT(","@) {
            p_variant_fields(t, at_pos(s, s.pos + 1), ctx, acc)
        } else {
            match nx {
                SpecToken::IDENT(fname) => {
                    let s1 = at_pos(s, s.pos + 1);
                    let (c, s2) = expect_tok(
                        t,
                        s1,
                        SpecToken::PUNCT(":"@),
                        "Expected ':' after struct field name"@,
                    );
                    match c {
                        None => (None, s2),
                        Some(_) => {
                            let (ty, s3) = p_type(t, s2, ctx);
                            match ty {
                                None => (None, s3),
                                Some(ty) => p_variant_fields(
                                    t,
                                    after_progress(t, s, s3),
                                    ctx,
                                    acc.push((fname, ty)),
                                ),
                            }
                        },
                    }
                },
                other => (
                    None,
                    push_err(
                        s,
                        "Unexpected token in struct variant, got "@ + token_debug(other),
                        peek_span(t, s),
                    ),
                ),
            }
        }
    }
}

/// The names of a braced use list after `{`, each with an optional
/// `:: alias`, up to `}`; an error ends the list.
pub open spec fn p_use_list(t: Seq<PTok>, s: PState, acc: Seq<(Seq<char>, Seq<char>)>) -> (
    Seq<(Seq<char>, Seq<char>)>,
    PState,
)
    decreases t.len() - s.pos,
{
    if !(0 <= s.pos <= t.len()) {
        (acc, s)
    } else {
        let nx = peek_some(t, s);
        if nx == SpecToken::PAREN("}"@) {
            (acc, at_pos(s, s.pos + 1))
        } else if nx == SpecToken::PUNCT(","@) {
            p_use_list(t, at_pos(s, s.pos + 1), acc)
        } else {
            match nx {
                SpecToken::IDENT(actual) => {
                    let s1 = at_pos(s, s.pos + 1);
                    if peek_some(t, s1) == SpecToken::BINOP("::"@) {
                        let (a, s3) = expect_any(t, at_pos(s1, s1.pos + 1));
                        match a {
                            None => (acc, s3),
                            Some((tk, sp)) => match tk {
                                SpecToken::IDENT(alias) => p_use_list(
                                    t,
                                    after_progress(t, s, s3),
                                    acc.push((actual, alias)),
                                ),
                                other => (
                                    acc,
                                    push_err(
                                        s3,
                                        "Expected ident after 'as', got "@ + token_debug(other),
                                        sp,
                                    ),
                                ),
                            },
                        }
                    } else {
                        p_use_list(t, s1, acc.push((actual, actual)))
                    }
                },
                other => (
                    acc,
                    push_err(
                        s,
                        "Expected ident or '}' in use list, got "@ + token_debug(other),
                        peek_span(t, s),
                    ),
                ),
            }
        }
    }
}

/// The rest of a use path after its first segment: `.name` segments, then
/// `.{list}`, `.name :: alias`, `.name`, or nothing. `Err(span)` when the
/// statement fails and becomes an error node with that span.
pub open spec fn p_use_path(t: Seq<PTok>, s: PState, base: SpecSAst, start: Span) -> (
    Result<(SpecSAst, Seq<(Seq<char>, Seq<char>)>), Span>,
    PState,
)
    decreases t.len() - s.pos,
{
    if !(0 <= s.pos <= t.len()) {
        (Err(start), s)
    } else if peek_some(t, s) == SpecToken::PUNCT("."@) {
        let s1 = at_pos(s, s.pos + 1);
        let nx = peek_some(t, s1);
        if nx == SpecToken::PAREN("{"@) {
            let (used, s2) = p_use_list(t, at_pos(s1, s1.pos + 1), seq![]);
            (Ok((base, used)), s2)
        } else {
            match nx {
                SpecToken::IDENT(name) => {
                    let seg_span = peek_span(t, s1);
                    let s2 = at_pos(s1, s1.pos + 1);
                    if peek_some(t, s2) == SpecToken::PUNCT("."@) {
                        p_use_path(
                            t,
                            s2,
                            (
                                SpecAstNode::DotIndex {
                                    indexee: Box::new(base),
                                    index: Box::new((SpecAstNode::Identifier(name), seg_span)),
                                },
                                base.1.spec_merge(seg_span),
                            ),
                            start,
                        )
                    } else if peek_some(t, s2) == SpecToken::BINOP("::"@) {
                        let (a, s4) = expect_any(t, at_pos(s2, s2.pos + 1));
                        match a {
                            None => (Err(start), s4),
                            Some((tk, sp)) => match tk {
                                SpecToken::IDENT(alias) => (Ok((base, seq![(name, alias)])), s4),
                                other => (
                                    Err(start),
                                    push_err(
                                        s4,
                                        "Expected ident after 'as', got "@ + token_debug(other),
                                        sp,
                                    ),
                                ),
                            },
                        }
                    } else {
                        (Ok((base, seq![(name, name)])), s2)
                    }
                },
                other => (
                    Err(peek_span(t, s1)),
                    push_err(
                        s1,
                        "Expected ident or '{' after '::', got "@ + token_debug(other),
                        peek_span(t, s1),
                    ),
                ),
            }
        }
    } else {
        (Ok((base, seq![])), s)
    }
}

/// Parses a use statement after `use`: a path of names joined by `.`,
/// ending in `.{a, b :: c}`, `.name :: alias` or `.name`.
pub open spec fn p_use(t: Seq<PTok>, s: PState) -> (SpecSAst, PState) {
    let start = peek_span(t, s);
    let (ft, s1) = expect_any(t, s);
    match ft {
        None => ((SpecAstNode::Error, start), s1),
        Some((tk, fspan)) => match tk {
            SpecToken::IDENT(name) => {
                let (res, s2) = p_use_path(t, s1, (SpecAstNode::Identifier(name), fspan), start);
                match res {
                    Err(sp) => ((SpecAstNode::Error, sp), s2),
                    Ok((base, used)) => (
                        (
                            SpecAstNode::UseStmt { base_path: Box::new(base), used },
                            start.spec_merge(base.1),
                        ),
                        s2,
                    ),
                }
            },
            other => (
                (SpecAstNode::Error, fspan),
                push_err(
                    s1,
                    "Expected identifier at start of use path, got "@ + token_debug(other),
                    fspan,
                ),
            ),
        },
    }
}

} // verus!
