//! Labels, and the places of the grammar that hold a label or a variable.

use crate::error::{illegal_grammar, result_view, Error, ErrorView};
use crate::parser::literal::{decode_var, variable_of};
use crate::parser::tree::{LabelAnyNode, TypeAnyNode, TypeNode, TypeScopedNode};
use crate::pattern::{Label, LabelView, TypeReference, TypeReferenceView};
use crate::text::{
    chars_of, count_char, find_char, lemma_occurrences_concat, lemma_occurrences_zero,
    lemma_position_bounds, occurrences, position, text_of,
};
use vstd::prelude::*;
use vstd::string::*;

verus! {

/// The label without a scope that `text` names.
pub open spec fn simple_label(text: Seq<char>) -> LabelView {
    LabelView { scope: None, name: text }
}

/// The scoped label that `text` denotes: the text holds one colon, with the
/// scope before it and the name behind it, neither of them empty. Any other
/// text is reported.
pub open spec fn scoped_label_of(text: Seq<char>) -> Result<LabelView, ErrorView> {
    let colon = position(text, ':');
    if occurrences(text, ':') == 1 && 0 < colon && colon + 1 < text.len() {
        Ok(LabelView { scope: Some(text.take(colon)), name: text.skip(colon + 1) })
    } else {
        Err(illegal_grammar(text))
    }
}

/// The label at a place that takes a label with or without a scope.
pub open spec fn label_any_of(node: LabelAnyNode) -> Result<LabelView, ErrorView> {
    match node {
        LabelAnyNode::Label(text) => Ok(simple_label(text@)),
        LabelAnyNode::Scoped(text) => scoped_label_of(text@),
    }
}

/// The reference that a label gives, where there is one.
pub open spec fn label_reference(label: Result<LabelView, ErrorView>) -> Result<
    TypeReferenceView,
    ErrorView,
> {
    match label {
        Ok(label) => Ok(TypeReferenceView::Label(label)),
        Err(error) => Err(error),
    }
}

/// The reference that the variable token `text` gives.
pub open spec fn variable_reference(text: Seq<char>) -> Result<TypeReferenceView, ErrorView> {
    match variable_of(text) {
        Ok(var) => Ok(TypeReferenceView::Variable(var)),
        Err(error) => Err(error),
    }
}

/// What a place for a label or a variable resolves to.
pub open spec fn type_of(node: TypeNode) -> Result<TypeReferenceView, ErrorView> {
    match node {
        TypeNode::Label(text) => Ok(TypeReferenceView::Label(simple_label(text@))),
        TypeNode::Variable(text) => variable_reference(text@),
    }
}

/// What a place for a scoped label or a variable resolves to.
pub open spec fn type_scoped_of(node: TypeScopedNode) -> Result<TypeReferenceView, ErrorView> {
    match node {
        TypeScopedNode::Label(text) => label_reference(scoped_label_of(text@)),
        TypeScopedNode::Variable(text) => variable_reference(text@),
    }
}

/// What a place for a label, a scoped label or a variable resolves to.
pub open spec fn type_any_of(node: TypeAnyNode) -> Result<TypeReferenceView, ErrorView> {
    match node {
        TypeAnyNode::Variable(text) => variable_reference(text@),
        TypeAnyNode::Type(node) => type_of(node),
        TypeAnyNode::Scoped(node) => type_scoped_of(node),
    }
}

/// Splits a scoped label at its colon.
pub fn visit_label_scoped(text: &str) -> (result: Result<Label, Error>)
    ensures
        result_view(result) == scoped_label_of(text@),
        result matches Ok(label) ==> label.deep_view().well_formed(),
{
    proof {
        lemma_scoped_label(text@);
    }
    let chars = chars_of(text);
    let colon = find_char(&chars, ':');
    if count_char(&chars, ':') == 1 && 0 < colon && colon < chars.len() && colon + 1
        < chars.len() {
        let scope = text_of(&chars, 0, colon);
        let name = text_of(&chars, colon + 1, chars.len());
        assert(chars@.subrange(0, colon as int) =~= chars@.take(colon as int));
        assert(chars@.subrange(colon + 1, chars@.len() as int) =~= chars@.skip(colon + 1));
        Ok(Label::scoped(scope, name))
    } else {
        Err(Error::illegal_grammar(text))
    }
}

/// The label at a place that takes a label with or without a scope.
pub fn visit_label_any(node: &LabelAnyNode) -> (result: Result<Label, Error>)
    ensures
        result_view(result) == label_any_of(*node),
{
    match node {
        LabelAnyNode::Label(text) => Ok(Label::simple(text.clone())),
        LabelAnyNode::Scoped(text) => visit_label_scoped(text.as_str()),
    }
}

/// The variable at a place that takes a type.
fn visit_type_variable(text: &str) -> (result: Result<TypeReference, Error>)
    ensures
        result_view(result) == variable_reference(text@),
{
    Ok(TypeReference::Variable(decode_var(text)?))
}

/// Resolves a place that takes a label or a variable.
pub fn visit_type(node: &TypeNode) -> (result: Result<TypeReference, Error>)
    ensures
        result_view(result) == type_of(*node),
{
    match node {
        TypeNode::Label(text) => Ok(TypeReference::Label(Label::simple(text.clone()))),
        TypeNode::Variable(text) => visit_type_variable(text.as_str()),
    }
}

/// Resolves a place that takes a scoped label or a variable.
pub fn visit_type_scoped(node: &TypeScopedNode) -> (result: Result<TypeReference, Error>)
    ensures
        result_view(result) == type_scoped_of(*node),
{
    match node {
        TypeScopedNode::Label(text) => Ok(TypeReference::Label(visit_label_scoped(text.as_str())?)),
        TypeScopedNode::Variable(text) => visit_type_variable(text.as_str()),
    }
}

/// Resolves a place that takes a label, a scoped label or a variable.
pub fn visit_type_any(node: &TypeAnyNode) -> (result: Result<TypeReference, Error>)
    ensures
        result_view(result) == type_any_of(*node),
{
    match node {
        TypeAnyNode::Variable(text) => visit_type_variable(text.as_str()),
        TypeAnyNode::Type(node) => visit_type(node),
        TypeAnyNode::Scoped(node) => visit_type_scoped(node),
    }
}

/// A scoped label that resolves has a scope and a name that are not empty and
/// hold no colon, and they are the text before and behind its one colon.
pub proof fn lemma_scoped_label(text: Seq<char>)
    ensures
        scoped_label_of(text) matches Ok(label) ==> {
            &&& label.well_formed()
            &&& label.scope is Some
            &&& text == label.scope->0 + seq![':'] + label.name
        },
        scoped_label_of(text) is Err ==> scoped_label_of(text) == Err::<LabelView, ErrorView>(
            illegal_grammar(text),
        ),
        occurrences(text, ':') != 1 ==> scoped_label_of(text) is Err,
{
    if scoped_label_of(text) is Ok {
        let colon = position(text, ':');
        let scope = text.take(colon);
        let name = text.skip(colon + 1);
        lemma_position_bounds(text, ':');
        assert(text =~= scope + seq![':'] + name);
        lemma_occurrences_concat(scope + seq![':'], name, ':');
        lemma_occurrences_concat(scope, seq![':'], ':');
        assert(seq![':'].drop_last() =~= Seq::<char>::empty());
        assert(occurrences(seq![':'], ':') == 1) by {
            reveal_with_fuel(occurrences, 2);
        }
        lemma_occurrences_zero(scope, ':');
        lemma_occurrences_zero(name, ':');
        assert(!scope.contains(':'));
        assert(!name.contains(':'));
    }
}

} // verus!
