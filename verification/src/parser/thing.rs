//! The assembly of thing variables: values, predicates, attribute ownership,
//! role players, and the three forms in which a thing variable is written.

use crate::error::{illegal_grammar, result_view, unsupported, Construct, Error, ErrorView};
use crate::list::{
    all_or_first_error, append_deep, lemma_all_or_first_error_prefix,
    lemma_all_or_first_error_step, push_deep,
};
use crate::parser::literal::{
    comparator_of, date_of, date_time_of, decode_var, get_comparator, get_date, get_date_time,
    get_string, string_of, variable_of,
};
use crate::parser::reference::{type_of, visit_type};
use crate::parser::tree::{
    AttributeNode, IsaNode, PredicateNode, PredicateValueNode, RolePlayerNode, TypeNode, ValueNode,
    VariableAttributeNode, VariableRelationNode, VariableThingAnyNode, VariableThingNode,
};
use crate::pattern::{
    Comparator, HasAttribute, HasAttributeView, HasConstraint, HasConstraintView, IsaConstraint,
    IsaConstraintView, Predicate, PredicateView, RelationConstraint, RelationConstraintView,
    RolePlayerConstraint, RolePlayerConstraintView, ThingVariable, ThingVariableView,
    UnboundVariable, UnboundVariableView, Value, ValueView,
};
use vstd::prelude::*;
use vstd::string::*;

verus! {

/// The value that a literal stands for. A date stands for the first instant
/// of its day.
pub open spec fn value_of(node: ValueNode) -> Result<ValueView, ErrorView> {
    match node {
        ValueNode::String(text) => match string_of(text@) {
            Ok(string) => Ok(ValueView::String(string)),
            Err(error) => Err(error),
        },
        ValueNode::DateTime(text) => match date_time_of(text@) {
            Ok(date_time) => Ok(ValueView::DateTime(date_time)),
            Err(error) => Err(error),
        },
        ValueNode::Date(text) => match date_of(text@) {
            Ok(date) => Ok(ValueView::DateTime(date.midnight_spec())),
            Err(error) => Err(error),
        },
        ValueNode::Boolean(_) => Err(unsupported(Construct::BooleanValue)),
        ValueNode::Long(_) => Err(unsupported(Construct::LongValue)),
        ValueNode::Double(_) => Err(unsupported(Construct::DoubleValue)),
    }
}

/// What an explicit comparison compares with: a variable.
pub open spec fn predicate_value_of(node: PredicateValueNode) -> Result<ValueView, ErrorView> {
    match node {
        PredicateValueNode::Value(_) => Err(unsupported(Construct::LiteralComparison)),
        PredicateValueNode::Variable(text) => match variable_of(text@) {
            Ok(var) => Ok(ValueView::Variable(var)),
            Err(error) => Err(error),
        },
    }
}

/// The predicate that is written: a bare value stands for equality with it; a
/// comparison is read operator first.
pub open spec fn predicate_of(node: PredicateNode) -> Result<PredicateView, ErrorView> {
    match node {
        PredicateNode::Value(value) => match value_of(value) {
            Ok(value) => Ok(PredicateView { comparator: Comparator::Eq, value }),
            Err(error) => Err(error),
        },
        PredicateNode::Comparison { operator, operand } => match comparator_of(operator@) {
            Ok(comparator) => match predicate_value_of(operand) {
                Ok(value) => Ok(PredicateView { comparator, value }),
                Err(error) => Err(error),
            },
            Err(error) => Err(error),
        },
        PredicateNode::Substring => Err(unsupported(Construct::SubstringPredicate)),
    }
}

/// The ownership that one `has` clause states: of an attribute of the type
/// `label`, known by a variable or, where no variable is written, by a
/// predicate.
pub open spec fn attribute_of(node: AttributeNode) -> Result<HasConstraintView, ErrorView> {
    match node.label {
        Some(label) => match node.var {
            Some(var) => match variable_of(var@) {
                Ok(var) => Ok(
                    HasConstraintView {
                        attribute_type: label@,
                        attribute: HasAttributeView::Variable(var),
                    },
                ),
                Err(error) => Err(error),
            },
            None => match node.predicate {
                Some(predicate) => match predicate_of(predicate) {
                    Ok(predicate) => Ok(
                        HasConstraintView {
                            attribute_type: label@,
                            attribute: HasAttributeView::Predicate(predicate),
                        },
                    ),
                    Err(error) => Err(error),
                },
                None => Err(illegal_grammar(node.text@)),
            },
        },
        None => match node.var {
            Some(_) => Err(unsupported(Construct::HasVariable)),
            None => Err(illegal_grammar(node.text@)),
        },
    }
}

/// What each clause of a list of `has` clauses states.
pub open spec fn attribute_results(nodes: Seq<AttributeNode>) -> Seq<
    Result<HasConstraintView, ErrorView>,
> {
    Seq::new(nodes.len(), |i: int| attribute_of(nodes[i]))
}

/// The ownerships that a list of `has` clauses states, in the order of the
/// clauses, or the error of the first clause that has one.
pub open spec fn attributes_of(nodes: Seq<AttributeNode>) -> Result<
    Seq<HasConstraintView>,
    ErrorView,
> {
    all_or_first_error(attribute_results(nodes))
}

/// The `isa` constraint with the type that is written.
pub open spec fn isa_of(isa_type: TypeNode) -> Result<IsaConstraintView, ErrorView> {
    match type_of(isa_type) {
        Ok(isa_type) => Ok(IsaConstraintView { isa_type }),
        Err(error) => Err(error),
    }
}

/// The role player that is written: the player is read first, then the role
/// where there is one.
pub open spec fn role_player_of(node: RolePlayerNode) -> Result<
    RolePlayerConstraintView,
    ErrorView,
> {
    match variable_of(node.player@) {
        Ok(player) => match node.role {
            Some(role) => match type_of(role) {
                Ok(role) => Ok(RolePlayerConstraintView { role: Some(role), player }),
                Err(error) => Err(error),
            },
            None => Ok(RolePlayerConstraintView { role: None, player }),
        },
        Err(error) => Err(error),
    }
}

/// What each role player of a list means.
pub open spec fn role_player_results(nodes: Seq<RolePlayerNode>) -> Seq<
    Result<RolePlayerConstraintView, ErrorView>,
> {
    Seq::new(nodes.len(), |i: int| role_player_of(nodes[i]))
}

/// The role players of a relation, in the order of the source, or the error of
/// the first that has one.
pub open spec fn role_players_of(nodes: Seq<RolePlayerNode>) -> Result<
    Seq<RolePlayerConstraintView>,
    ErrorView,
> {
    all_or_first_error(role_player_results(nodes))
}

/// The relation constraint of a list of role players.
pub open spec fn relation_of(nodes: Seq<RolePlayerNode>) -> Result<
    RelationConstraintView,
    ErrorView,
> {
    match role_players_of(nodes) {
        Ok(role_players) => Ok(RelationConstraintView { role_players }),
        Err(error) => Err(error),
    }
}

/// `var` with the `isa` constraint that is written, where one is.
pub open spec fn with_isa(var: ThingVariableView, isa: Option<IsaNode>) -> Result<
    ThingVariableView,
    ErrorView,
> {
    match isa {
        Some(isa) => match isa_of(isa.isa_type) {
            Ok(isa) => Ok(var.constrain_isa(isa)),
            Err(error) => Err(error),
        },
        None => Ok(var),
    }
}

/// `var` with the given ownerships added behind those it has.
pub open spec fn with_has(var: ThingVariableView, has: Seq<HasConstraintView>) -> ThingVariableView {
    ThingVariableView { has: var.has + has, ..var }
}

/// `var` with the ownerships that are written, where any are.
pub open spec fn with_attributes(
    var: ThingVariableView,
    attributes: Option<Vec<AttributeNode>>,
) -> Result<ThingVariableView, ErrorView> {
    match attributes {
        Some(attributes) => match attributes_of(attributes@) {
            Ok(has) => Ok(with_has(var, has)),
            Err(error) => Err(error),
        },
        None => Ok(var),
    }
}

/// `var` as it is where no ownership may be written: a list of `has` clauses
/// is reported as `construct`.
pub open spec fn without_attributes(
    var: ThingVariableView,
    attributes: Option<Vec<AttributeNode>>,
    construct: Construct,
) -> Result<ThingVariableView, ErrorView> {
    match attributes {
        Some(_) => Err(unsupported(construct)),
        None => Ok(var),
    }
}

/// `var` with the internal id that is written, where one is.
pub open spec fn with_iid(var: ThingVariableView, iid: Option<String>) -> ThingVariableView {
    match iid {
        Some(iid) => var.iid(iid@),
        None => var,
    }
}

/// The thing variable that is written with its name first: the name, then the
/// internal id, the `isa` constraint and the ownerships, each where it is
/// written.
pub open spec fn thing_variable_of(node: VariableThingNode) -> Result<
    ThingVariableView,
    ErrorView,
> {
    match variable_of(node.var@) {
        Ok(var) => match with_isa(with_iid(var.into_thing(), node.iid), node.isa) {
            Ok(var) => with_attributes(var, node.attributes),
            Err(error) => Err(error),
        },
        Err(error) => Err(error),
    }
}

/// The variable that owns a relation or an attribute: the one that is
/// written, else the hidden variable `hidden`.
pub open spec fn owner_of(var: Option<String>, hidden: nat) -> Result<
    UnboundVariableView,
    ErrorView,
> {
    match var {
        Some(text) => variable_of(text@),
        None => Ok(UnboundVariableView::Hidden(hidden)),
    }
}

/// The thing variable that is written as a relation: its owner, the role
/// players, then the `isa` constraint where one is written.
pub open spec fn relation_variable_of(node: VariableRelationNode, hidden: nat) -> Result<
    ThingVariableView,
    ErrorView,
> {
    match owner_of(node.var, hidden) {
        Ok(var) => match relation_of(node.relation@) {
            Ok(relation) => match with_isa(
                var.into_thing().constrain_relation(relation),
                node.isa,
            ) {
                Ok(var) => without_attributes(var, node.attributes, Construct::RelationAttributes),
                Err(error) => Err(error),
            },
            Err(error) => Err(error),
        },
        Err(error) => Err(error),
    }
}

/// The thing variable that is written as an attribute: its owner, the
/// predicate on its value, then the `isa` constraint where one is written.
pub open spec fn attribute_variable_of(node: VariableAttributeNode, hidden: nat) -> Result<
    ThingVariableView,
    ErrorView,
> {
    match owner_of(node.var, hidden) {
        Ok(var) => match predicate_of(node.predicate) {
            Ok(predicate) => match with_isa(
                var.into_thing().constrain_value(predicate),
                node.isa,
            ) {
                Ok(var) => without_attributes(
                    var,
                    node.attributes,
                    Construct::AttributeAttributes,
                ),
                Err(error) => Err(error),
            },
            Err(error) => Err(error),
        },
        Err(error) => Err(error),
    }
}

/// The thing variable that is written, in whichever of its three forms.
pub open spec fn thing_any_of(node: VariableThingAnyNode, hidden: nat) -> Result<
    ThingVariableView,
    ErrorView,
> {
    match node {
        VariableThingAnyNode::Thing(node) => thing_variable_of(node),
        VariableThingAnyNode::Relation(node) => relation_variable_of(node, hidden),
        VariableThingAnyNode::Attribute(node) => attribute_variable_of(node, hidden),
        VariableThingAnyNode::Unrecognized { text } => Err(illegal_grammar(text@)),
    }
}

/// Decodes a literal.
pub fn visit_value(node: &ValueNode) -> (result: Result<Value, Error>)
    ensures
        result_view(result) == value_of(*node),
{
    match node {
        ValueNode::String(text) => Ok(Value::String(get_string(text.as_str())?)),
        ValueNode::DateTime(text) => Ok(Value::DateTime(get_date_time(text.as_str())?)),
        ValueNode::Date(text) => Ok(Value::DateTime(get_date(text.as_str())?.midnight())),
        ValueNode::Boolean(_) => Err(Error::unsupported(Construct::BooleanValue)),
        ValueNode::Long(_) => Err(Error::unsupported(Construct::LongValue)),
        ValueNode::Double(_) => Err(Error::unsupported(Construct::DoubleValue)),
    }
}

/// Reads what an explicit comparison compares with.
pub fn visit_predicate_value(node: &PredicateValueNode) -> (result: Result<Value, Error>)
    ensures
        result_view(result) == predicate_value_of(*node),
{
    match node {
        PredicateValueNode::Value(_) => Err(Error::unsupported(Construct::LiteralComparison)),
        PredicateValueNode::Variable(text) => Ok(Value::Variable(decode_var(text.as_str())?)),
    }
}

/// Assembles a predicate.
pub fn visit_predicate(node: &PredicateNode) -> (result: Result<Predicate, Error>)
    ensures
        result_view(result) == predicate_of(*node),
{
    match node {
        PredicateNode::Value(value) => Ok(Predicate::new(Comparator::Eq, visit_value(value)?)),
        PredicateNode::Comparison { operator, operand } => {
            let comparator = get_comparator(operator.as_str())?;
            Ok(Predicate::new(comparator, visit_predicate_value(operand)?))
        },
        PredicateNode::Substring => Err(Error::unsupported(Construct::SubstringPredicate)),
    }
}

/// Assembles the ownership that one `has` clause states.
pub fn visit_attribute(node: &AttributeNode) -> (result: Result<HasConstraint, Error>)
    ensures
        result_view(result) == attribute_of(*node),
{
    if let Some(label) = &node.label {
        if let Some(var) = &node.var {
            let var = decode_var(var.as_str())?;
            Ok(HasConstraint { attribute_type: label.clone(), attribute: HasAttribute::Variable(var) })
        } else if let Some(predicate) = &node.predicate {
            let predicate = visit_predicate(predicate)?;
            Ok(
                HasConstraint {
                    attribute_type: label.clone(),
                    attribute: HasAttribute::Predicate(predicate),
                },
            )
        } else {
            Err(Error::illegal_grammar(node.text.as_str()))
        }
    } else if node.var.is_some() {
        Err(Error::unsupported(Construct::HasVariable))
    } else {
        Err(Error::illegal_grammar(node.text.as_str()))
    }
}

/// Assembles the ownerships that a list of `has` clauses states.
pub fn visit_attributes(nodes: &Vec<AttributeNode>) -> (result: Result<Vec<HasConstraint>, Error>)
    ensures
        result_view(result) == attributes_of(nodes@),
{
    let ghost results = attribute_results(nodes@);
    let mut constraints: Vec<HasConstraint> = Vec::new();
    let mut i: usize = 0;
    assert(constraints.deep_view() =~= Seq::empty());
    while i < nodes.len()
        invariant
            i <= nodes.len(),
            results == attribute_results(nodes@),
            all_or_first_error(results.take(i as int)) == Ok::<Seq<HasConstraintView>, ErrorView>(
                constraints.deep_view(),
            ),
        decreases nodes.len() - i,
    {
        proof {
            lemma_all_or_first_error_step(results, i as int);
        }
        match visit_attribute(&nodes[i]) {
            Ok(constraint) => {
                push_deep(&mut constraints, constraint);
            },
            Err(error) => {
                proof {
                    lemma_all_or_first_error_prefix(results, i + 1);
                }
                return Err(error);
            },
        }
        i += 1;
    }
    assert(results.take(i as int) =~= results);
    Ok(constraints)
}

/// Assembles an `isa` constraint from the keyword and the type behind it. The
/// keyword does not change the constraint.
pub fn get_isa_constraint(isa: &str, isa_type: &TypeNode) -> (result: Result<IsaConstraint, Error>)
    ensures
        result_view(result) == isa_of(*isa_type),
{
    Ok(IsaConstraint { isa_type: visit_type(isa_type)? })
}

/// Assembles one role player of a relation.
pub fn get_role_player_constraint(node: &RolePlayerNode) -> (result: Result<
    RolePlayerConstraint,
    Error,
>)
    ensures
        result_view(result) == role_player_of(*node),
{
    let player = decode_var(node.player.as_str())?;
    if let Some(role) = &node.role {
        Ok(RolePlayerConstraint { role: Some(visit_type(role)?), player })
    } else {
        Ok(RolePlayerConstraint { role: None, player })
    }
}

/// Assembles the role players of a relation.
pub fn get_role_players(nodes: &Vec<RolePlayerNode>) -> (result: Result<
    Vec<RolePlayerConstraint>,
    Error,
>)
    ensures
        result_view(result) == role_players_of(nodes@),
{
    let ghost results = role_player_results(nodes@);
    let mut role_players: Vec<RolePlayerConstraint> = Vec::new();
    let mut i: usize = 0;
    assert(role_players.deep_view() =~= Seq::empty());
    while i < nodes.len()
        invariant
            i <= nodes.len(),
            results == role_player_results(nodes@),
            all_or_first_error(results.take(i as int)) == Ok::<
                Seq<RolePlayerConstraintView>,
                ErrorView,
            >(role_players.deep_view()),
        decreases nodes.len() - i,
    {
        proof {
            lemma_all_or_first_error_step(results, i as int);
        }
        match get_role_player_constraint(&nodes[i]) {
            Ok(role_player) => {
                push_deep(&mut role_players, role_player);
            },
            Err(error) => {
                proof {
                    lemma_all_or_first_error_prefix(results, i + 1);
                }
                return Err(error);
            },
        }
        i += 1;
    }
    assert(results.take(i as int) =~= results);
    Ok(role_players)
}

/// Assembles the relation constraint of a list of role players.
pub fn visit_relation(nodes: &Vec<RolePlayerNode>) -> (result: Result<RelationConstraint, Error>)
    ensures
        result_view(result) == relation_of(nodes@),
{
    Ok(RelationConstraint::new(get_role_players(nodes)?))
}

/// Adds the `isa` constraint that is written, where one is.
fn constrain_isa(var: ThingVariable, isa: &Option<IsaNode>) -> (result: Result<
    ThingVariable,
    Error,
>)
    ensures
        result_view(result) == with_isa(var.deep_view(), *isa),
{
    if let Some(isa) = isa {
        Ok(var.constrain_isa(get_isa_constraint(isa.keyword.as_str(), &isa.isa_type)?))
    } else {
        Ok(var)
    }
}

/// The variable that owns a relation or an attribute.
fn get_owner(var: &Option<String>, hidden: usize) -> (result: Result<UnboundVariable, Error>)
    ensures
        result_view(result) == owner_of(*var, hidden as nat),
{
    match var {
        Some(text) => decode_var(text.as_str()),
        None => Ok(UnboundVariable::hidden(hidden)),
    }
}

/// Assembles a thing variable that is written with its name first.
pub fn visit_variable_thing(node: &VariableThingNode) -> (result: Result<ThingVariable, Error>)
    ensures
        result_view(result) == thing_variable_of(*node),
{
    let mut var_thing = decode_var(node.var.as_str())?.into_thing();
    if let Some(iid) = &node.iid {
        var_thing = var_thing.iid(iid.clone());
    }
    var_thing = constrain_isa(var_thing, &node.isa)?;
    if let Some(attributes) = &node.attributes {
        let has = visit_attributes(attributes)?;
        append_deep(&mut var_thing.has, has);
    }
    Ok(var_thing)
}

/// Assembles a thing variable that is written as a relation. Where the source
/// names no variable, the relation belongs to the hidden variable `hidden`.
pub fn visit_variable_relation(node: &VariableRelationNode, hidden: usize) -> (result: Result<
    ThingVariable,
    Error,
>)
    ensures
        result_view(result) == relation_variable_of(*node, hidden as nat),
{
    let owner = get_owner(&node.var, hidden)?;
    let relation = owner.into_thing().constrain_relation(visit_relation(&node.relation)?);
    let relation = constrain_isa(relation, &node.isa)?;
    if node.attributes.is_some() {
        return Err(Error::unsupported(Construct::RelationAttributes));
    }
    Ok(relation)
}

/// Assembles a thing variable that is written as an attribute. Where the
/// source names no variable, the attribute belongs to the hidden variable
/// `hidden`.
pub fn visit_variable_attribute(node: &VariableAttributeNode, hidden: usize) -> (result: Result<
    ThingVariable,
    Error,
>)
    ensures
        result_view(result) == attribute_variable_of(*node, hidden as nat),
{
    let owner = get_owner(&node.var, hidden)?;
    let attribute = owner.into_thing().constrain_value(visit_predicate(&node.predicate)?);
    let attribute = constrain_isa(attribute, &node.isa)?;
    if node.attributes.is_some() {
        return Err(Error::unsupported(Construct::AttributeAttributes));
    }
    Ok(attribute)
}

/// Assembles a thing variable in whichever of its three forms it is written.
pub fn visit_variable_thing_any(node: &VariableThingAnyNode, hidden: usize) -> (result: Result<
    ThingVariable,
    Error,
>)
    ensures
        result_view(result) == thing_any_of(*node, hidden as nat),
{
    match node {
        VariableThingAnyNode::Thing(node) => visit_variable_thing(node),
        VariableThingAnyNode::Relation(node) => visit_variable_relation(node, hidden),
        VariableThingAnyNode::Attribute(node) => visit_variable_attribute(node, hidden),
        VariableThingAnyNode::Unrecognized { text } => Err(Error::illegal_grammar(text.as_str())),
    }
}

} // verus!
