//! The parse tree as the walk reads it: for each production the children
//! that carry meaning, and the source text of each token.
//!
//! A production with alternatives is an enum with one variant for each. An
//! alternative that has no meaning assigned yet carries nothing. `Unrecognized`
//! stands for a node in which the parser found none of the alternatives, and
//! carries the node's text for the report.

use vstd::prelude::*;

verus! {

/// `type`: a label or a variable.
#[derive(Debug, Clone, PartialEq, Eq)]
pub enum TypeNode {
    Label(String),
    Variable(String),
}

/// `type_scoped`: a scoped label or a variable.
#[derive(Debug, Clone, PartialEq, Eq)]
pub enum TypeScopedNode {
    Label(String),
    Variable(String),
}

/// `type_any`: a variable, a label or a scoped label.
#[derive(Debug, Clone, PartialEq, Eq)]
pub enum TypeAnyNode {
    Variable(String),
    Type(TypeNode),
    Scoped(TypeScopedNode),
}

/// `label_any`: a label or a scoped label.
#[derive(Debug, Clone, PartialEq, Eq)]
pub enum LabelAnyNode {
    Label(String),
    Scoped(String),
}

/// `value`: a literal, by the kind of its token.
#[derive(Debug, Clone, PartialEq, Eq)]
pub enum ValueNode {
    String(String),
    Boolean(String),
    Long(String),
    Double(String),
    Date(String),
    DateTime(String),
}

/// `predicate_value`: what an explicit comparison compares with.
#[derive(Debug, Clone, PartialEq, Eq)]
pub enum PredicateValueNode {
    Value(ValueNode),
    Variable(String),
}

/// `predicate`: a bare value, a comparison, or a substring test.
#[derive(Debug, Clone, PartialEq, Eq)]
pub enum PredicateNode {
    Value(ValueNode),
    Comparison { operator: String, operand: PredicateValueNode },
    Substring,
}

/// `attribute`: one `has` clause. The parser fills in what it found.
#[derive(Debug, Clone, PartialEq, Eq)]
pub struct AttributeNode {
    pub text: String,
    pub label: Option<String>,
    pub var: Option<String>,
    pub predicate: Option<PredicateNode>,
}

/// The `isa` keyword as written, and the type that follows it.
#[derive(Debug, Clone, PartialEq, Eq)]
pub struct IsaNode {
    pub keyword: String,
    pub isa_type: TypeNode,
}

/// `role_player`: a player, with its role where one is written.
#[derive(Debug, Clone, PartialEq, Eq)]
pub struct RolePlayerNode {
    pub role: Option<TypeNode>,
    pub player: String,
}

/// `variable_thing`.
#[derive(Debug, Clone, PartialEq, Eq)]
pub struct VariableThingNode {
    pub var: String,
    pub iid: Option<String>,
    pub isa: Option<IsaNode>,
    pub attributes: Option<Vec<AttributeNode>>,
}

/// `variable_relation`.
#[derive(Debug, Clone, PartialEq, Eq)]
pub struct VariableRelationNode {
    pub var: Option<String>,
    pub relation: Vec<RolePlayerNode>,
    pub isa: Option<IsaNode>,
    pub attributes: Option<Vec<AttributeNode>>,
}

/// `variable_attribute`.
#[derive(Debug, Clone, PartialEq, Eq)]
pub struct VariableAttributeNode {
    pub var: Option<String>,
    pub predicate: PredicateNode,
    pub isa: Option<IsaNode>,
    pub attributes: Option<Vec<AttributeNode>>,
}

/// `variable_thing_any`.
#[derive(Debug, Clone, PartialEq, Eq)]
pub enum VariableThingAnyNode {
    Thing(VariableThingNode),
    Relation(VariableRelationNode),
    Attribute(VariableAttributeNode),
    Unrecognized { text: String },
}

/// `type_constraint`: one clause on a type variable.
#[derive(Debug, Clone, PartialEq, Eq)]
pub enum TypeConstraintNode {
    Abstract,
    Sub(TypeAnyNode),
    Owns { owned: TypeNode, overridden: Option<TypeNode>, is_key: bool },
    Relates { role: TypeNode, overridden: Option<TypeNode> },
    Plays { role: TypeScopedNode, overridden: Option<TypeNode> },
    ValueType,
    Regex(String),
    Type(LabelAnyNode),
}

/// `variable_type`: what the clauses constrain, then the clauses.
#[derive(Debug, Clone, PartialEq, Eq)]
pub struct VariableTypeNode {
    pub head: TypeAnyNode,
    pub constraints: Vec<TypeConstraintNode>,
}

/// `pattern_variable`.
#[derive(Debug, Clone, PartialEq, Eq)]
pub enum PatternVariableNode {
    ThingAny(VariableThingAnyNode),
    Type(VariableTypeNode),
    Concept,
    Unrecognized { text: String },
}

/// `pattern`.
#[derive(Debug, Clone, PartialEq, Eq)]
pub enum PatternNode {
    Variable(PatternVariableNode),
    Conjunction,
    Disjunction,
    Negation,
    Unrecognized { text: String },
}

/// `var_order`: a variable to sort by, and the direction where one is written.
#[derive(Debug, Clone, PartialEq, Eq)]
pub struct VarOrderNode {
    pub var: String,
    pub order: Option<String>,
}

/// `modifiers`: each modifier that the query carries.
#[derive(Debug, Clone, PartialEq, Eq)]
pub struct ModifiersNode {
    pub filter: Option<Vec<String>>,
    pub sort: Option<Vec<VarOrderNode>>,
    pub limit: Option<String>,
    pub offset: Option<String>,
}

/// `query_match`.
#[derive(Debug, Clone, PartialEq, Eq)]
pub struct QueryMatchNode {
    pub patterns: Vec<PatternNode>,
    pub modifiers: Option<ModifiersNode>,
}

/// `query`.
#[derive(Debug, Clone, PartialEq, Eq)]
pub enum QueryNode {
    Match(QueryMatchNode),
    Define,
    Undefine,
    Insert,
    DeleteOrUpdate,
    MatchAggregate,
    MatchGroup,
    MatchGroupAggregate,
    Unrecognized { text: String },
}

/// `definable`.
#[derive(Debug, Clone, PartialEq, Eq)]
pub struct DefinableNode {}

/// `schema_rule`.
#[derive(Debug, Clone, PartialEq, Eq)]
pub struct SchemaRuleNode {}

} // verus!
