//! The assembly of type variables: what the clauses constrain, and the clauses
//! folded onto it in the order in which they are written.

use crate::error::{result_view, unsupported, Construct, Error, ErrorView};
use crate::parser::literal::{get_regex, regex_of};
use crate::parser::reference::{
    label_any_of, type_any_of, type_of, type_scoped_of, visit_label_any, visit_type,
    visit_type_any, visit_type_scoped,
};
use crate::parser::tree::{TypeAnyNode, TypeConstraintNode, VariableTypeNode};
use crate::pattern::{
    OwnsConstraint, OwnsConstraintView, TypeReference, TypeReferenceView, TypeVariable,
    TypeVariableView, UnboundVariable, UnboundVariableView,
};
use vstd::prelude::*;
use vstd::string::*;

verus! {

/// `var` with one clause more. An override is reported before the type that
/// it overrides is looked at.
pub open spec fn type_constraint_of(var: TypeVariableView, node: TypeConstraintNode) -> Result<
    TypeVariableView,
    ErrorView,
> {
    match node {
        TypeConstraintNode::Abstract => Err(unsupported(Construct::AbstractConstraint)),
        TypeConstraintNode::ValueType => Err(unsupported(Construct::ValueTypeConstraint)),
        TypeConstraintNode::Sub(supertype) => match type_any_of(supertype) {
            Ok(supertype) => Ok(var.constrain_sub(supertype)),
            Err(error) => Err(error),
        },
        TypeConstraintNode::Owns { owned, overridden, is_key } => if overridden is Some {
            Err(unsupported(Construct::OwnsOverride))
        } else {
            match type_of(owned) {
                Ok(attribute_type) => Ok(
                    var.constrain_owns(OwnsConstraintView { attribute_type, is_key }),
                ),
                Err(error) => Err(error),
            }
        },
        TypeConstraintNode::Relates { role, overridden } => if overridden is Some {
            Err(unsupported(Construct::RelatesOverride))
        } else {
            match type_of(role) {
                Ok(role) => Ok(var.constrain_relates(role)),
                Err(error) => Err(error),
            }
        },
        TypeConstraintNode::Plays { role, overridden } => if overridden is Some {
            Err(unsupported(Construct::PlaysOverride))
        } else {
            match type_scoped_of(role) {
                Ok(role) => Ok(var.constrain_plays(role)),
                Err(error) => Err(error),
            }
        },
        TypeConstraintNode::Regex(token) => match regex_of(token@) {
            Ok(regex) => Ok(var.regex(regex)),
            Err(error) => Err(error),
        },
        TypeConstraintNode::Type(label) => match label_any_of(label) {
            Ok(label) => Ok(var.type_(label)),
            Err(error) => Err(error),
        },
    }
}

/// `var` with the clauses folded onto it from the left; the first clause that
/// fails ends the fold with its error.
pub open spec fn type_constraints_of(
    var: TypeVariableView,
    nodes: Seq<TypeConstraintNode>,
) -> Result<TypeVariableView, ErrorView>
    decreases nodes.len(),
{
    if nodes.len() == 0 {
        Ok(var)
    } else {
        match type_constraints_of(var, nodes.drop_last()) {
            Ok(var) => type_constraint_of(var, nodes.last()),
            Err(error) => Err(error),
        }
    }
}

/// The variable that the clauses constrain: the variable that is written, or
/// the hidden variable `hidden` with the label that is written.
pub open spec fn type_head_of(node: TypeAnyNode, hidden: nat) -> Result<
    TypeVariableView,
    ErrorView,
> {
    match type_any_of(node) {
        Ok(TypeReferenceView::Variable(var)) => Ok(var.into_type()),
        Ok(TypeReferenceView::Label(label)) => Ok(
            UnboundVariableView::Hidden(hidden).into_type().type_(label),
        ),
        Err(error) => Err(error),
    }
}

/// The type variable that is written: what the clauses constrain, with the
/// clauses folded onto it.
pub open spec fn type_variable_of(node: VariableTypeNode, hidden: nat) -> Result<
    TypeVariableView,
    ErrorView,
> {
    match type_head_of(node.head, hidden) {
        Ok(var) => type_constraints_of(var, node.constraints@),
        Err(error) => Err(error),
    }
}

/// Unfolds `type_constraints_of` at the first `n + 1` clauses.
pub proof fn lemma_type_constraints_step(
    var: TypeVariableView,
    nodes: Seq<TypeConstraintNode>,
    n: int,
)
    requires
        0 <= n < nodes.len(),
    ensures
        type_constraints_of(var, nodes.take(n + 1)) == (match type_constraints_of(
            var,
            nodes.take(n),
        ) {
            Ok(var) => type_constraint_of(var, nodes[n]),
            Err(error) => Err(error),
        }),
{
    assert(nodes.take(n + 1).drop_last() =~= nodes.take(n));
}

/// Once the first `n` clauses have failed, all the clauses fail with the same
/// error.
pub proof fn lemma_type_constraints_prefix(
    var: TypeVariableView,
    nodes: Seq<TypeConstraintNode>,
    n: int,
)
    requires
        0 <= n <= nodes.len(),
        type_constraints_of(var, nodes.take(n)) is Err,
    ensures
        type_constraints_of(var, nodes) == type_constraints_of(var, nodes.take(n)),
    decreases nodes.len() - n,
{
    if n == nodes.len() {
        assert(nodes.take(n) =~= nodes);
    } else {
        lemma_type_constraints_step(var, nodes, n);
        lemma_type_constraints_prefix(var, nodes, n + 1);
    }
}

/// Adds one clause to a type variable.
pub fn visit_type_constraint(var: TypeVariable, node: &TypeConstraintNode) -> (result: Result<
    TypeVariable,
    Error,
>)
    ensures
        result_view(result) == type_constraint_of(var.deep_view(), *node),
{
    match node {
        TypeConstraintNode::Abstract => Err(Error::unsupported(Construct::AbstractConstraint)),
        TypeConstraintNode::ValueType => Err(Error::unsupported(Construct::ValueTypeConstraint)),
        TypeConstraintNode::Sub(supertype) => Ok(var.constrain_sub(visit_type_any(supertype)?)),
        TypeConstraintNode::Owns { owned, overridden, is_key } => {
            if overridden.is_some() {
                return Err(Error::unsupported(Construct::OwnsOverride));
            }
            let attribute_type = visit_type(owned)?;
            Ok(var.constrain_owns(OwnsConstraint { attribute_type, is_key: *is_key }))
        },
        TypeConstraintNode::Relates { role, overridden } => {
            if overridden.is_some() {
                return Err(Error::unsupported(Construct::RelatesOverride));
            }
            Ok(var.constrain_relates(visit_type(role)?))
        },
        TypeConstraintNode::Plays { role, overridden } => {
            if overridden.is_some() {
                return Err(Error::unsupported(Construct::PlaysOverride));
            }
            Ok(var.constrain_plays(visit_type_scoped(role)?))
        },
        TypeConstraintNode::Regex(token) => Ok(var.regex(get_regex(token.as_str())?)),
        TypeConstraintNode::Type(label) => Ok(var.type_(visit_label_any(label)?)),
    }
}

/// The variable that the clauses of a type variable constrain.
fn visit_type_head(node: &TypeAnyNode, hidden: usize) -> (result: Result<TypeVariable, Error>)
    ensures
        result_view(result) == type_head_of(*node, hidden as nat),
{
    match visit_type_any(node)? {
        TypeReference::Variable(var) => Ok(var.into_type()),
        TypeReference::Label(label) => Ok(UnboundVariable::hidden(hidden).into_type().type_(label)),
    }
}

/// Assembles a type variable. Where the source names a label in place of a
/// variable, the clauses constrain the hidden variable `hidden`.
pub fn visit_variable_type(node: &VariableTypeNode, hidden: usize) -> (result: Result<
    TypeVariable,
    Error,
>)
    ensures
        result_view(result) == type_variable_of(*node, hidden as nat),
{
    let mut var_type = visit_type_head(&node.head, hidden)?;
    let ghost head = var_type.deep_view();
    let ghost nodes = node.constraints@;
    let mut i: usize = 0;
    while i < node.constraints.len()
        invariant
            i <= node.constraints.len(),
            nodes == node.constraints@,
            type_head_of(node.head, hidden as nat) == Ok::<TypeVariableView, ErrorView>(head),
            type_constraints_of(head, nodes.take(i as int)) == Ok::<TypeVariableView, ErrorView>(
                var_type.deep_view(),
            ),
        decreases node.constraints.len() - i,
    {
        proof {
            lemma_type_constraints_step(head, nodes, i as int);
        }
        match visit_type_constraint(var_type, &node.constraints[i]) {
            Ok(var) => {
                var_type = var;
            },
            Err(error) => {
                proof {
                    lemma_type_constraints_prefix(head, nodes, i + 1);
                }
                return Err(error);
            },
        }
        i += 1;
    }
    assert(nodes.take(i as int) =~= nodes);
    Ok(var_type)
}

} // verus!
