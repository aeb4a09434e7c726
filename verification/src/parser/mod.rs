//! The walk from a parse tree to queries, patterns and variables.
//!
//! Each function reads one kind of node and returns what the node means, or
//! the first error that the walk over the node meets. For each of them a spec
//! function of the node says what that is.

pub mod laws;
pub mod literal;
pub mod reference;
pub mod thing;
pub mod tree;
pub mod type_variable;

use crate::error::{illegal_grammar, result_view, unsupported, Construct, Error, ErrorView};
use crate::list::{
    all_or_first_error, lemma_all_or_first_error_prefix, lemma_all_or_first_error_step, push_deep,
};
use crate::parser::laws::{
    lemma_match_query_well_formed, lemma_pattern_variable_well_formed, lemma_pattern_well_formed,
    lemma_patterns, lemma_query_well_formed,
};
use crate::parser::literal::{count_of, decode_var, get_count, variable_of};
use crate::parser::thing::{thing_any_of, visit_variable_thing_any};
use crate::parser::tree::{
    DefinableNode, ModifiersNode, PatternNode, PatternVariableNode, QueryMatchNode, QueryNode,
    SchemaRuleNode, VarOrderNode,
};
use crate::parser::type_variable::{type_variable_of, visit_variable_type};
use crate::pattern::{
    Pattern, PatternView, TypeVariable, UnboundVariable, UnboundVariableView, Variable,
    VariableView,
};
use crate::query::{
    MatchQuery, MatchQueryView, OrderedVariable, OrderedVariableView, Query, QueryView, Sorting,
    SortingView,
};
use vstd::prelude::*;
use vstd::string::*;

verus! {

/// What a schema definition holds. Schema definitions have no meaning
/// assigned yet, so no value of this type is ever made.
#[derive(Debug, Clone, PartialEq, Eq)]
pub struct Definable {}

impl DeepView for Definable {
    type V = Definable;

    open spec fn deep_view(&self) -> Definable {
        *self
    }
}

/// A list of patterns may lie below this many blocks and no deeper. The
/// blocks that nest pattern lists have no meaning assigned yet, so every list
/// that a walk reaches today lies at depth 0.
pub const MAX_NESTING_DEPTH: usize = 64;

/// The variable of a pattern, in whichever form it is written. `hidden` numbers
/// the hidden variable that stands in where the source names none.
pub open spec fn pattern_variable_of(node: PatternVariableNode, hidden: nat) -> Result<
    VariableView,
    ErrorView,
> {
    match node {
        PatternVariableNode::ThingAny(node) => match thing_any_of(node, hidden) {
            Ok(var) => Ok(VariableView::Thing(var)),
            Err(error) => Err(error),
        },
        PatternVariableNode::Type(node) => match type_variable_of(node, hidden) {
            Ok(var) => Ok(VariableView::Type(var)),
            Err(error) => Err(error),
        },
        PatternVariableNode::Concept => Err(unsupported(Construct::ConceptVariable)),
        PatternVariableNode::Unrecognized { text } => Err(illegal_grammar(text@)),
    }
}

/// What a pattern means: for now, only a single variable with its constraints
/// has a meaning.
pub open spec fn pattern_of(node: PatternNode, hidden: nat) -> Result<PatternView, ErrorView> {
    match node {
        PatternNode::Variable(node) => match pattern_variable_of(node, hidden) {
            Ok(var) => Ok(PatternView::Variable(var)),
            Err(error) => Err(error),
        },
        PatternNode::Conjunction => Err(unsupported(Construct::Conjunction)),
        PatternNode::Disjunction => Err(unsupported(Construct::Disjunction)),
        PatternNode::Negation => Err(unsupported(Construct::Negation)),
        PatternNode::Unrecognized { text } => Err(illegal_grammar(text@)),
    }
}

/// What each pattern of a list means. The pattern at index `i` gets `i` for
/// its hidden variable, so that no two patterns of the list share one.
pub open spec fn pattern_results(nodes: Seq<PatternNode>) -> Seq<Result<PatternView, ErrorView>> {
    Seq::new(nodes.len(), |i: int| pattern_of(nodes[i], i as nat))
}

/// The patterns of a list that lies below `depth` blocks, in the order of the
/// source, or the error of the first pattern that has one.
pub open spec fn patterns_of(nodes: Seq<PatternNode>, depth: nat) -> Result<
    Seq<PatternView>,
    ErrorView,
> {
    if depth >= MAX_NESTING_DEPTH {
        Err(ErrorView::TooDeeplyNested)
    } else {
        all_or_first_error(pattern_results(nodes))
    }
}

/// What each variable token of a list decodes to.
pub open spec fn variable_results(tokens: Seq<String>) -> Seq<
    Result<UnboundVariableView, ErrorView>,
> {
    Seq::new(tokens.len(), |i: int| variable_of(tokens[i]@))
}

/// The variables that a filter names, as they are written: in their order, and
/// with what occurs twice.
pub open spec fn filter_of(tokens: Seq<String>) -> Result<Seq<UnboundVariableView>, ErrorView> {
    all_or_first_error(variable_results(tokens))
}

/// A variable to sort by; the direction is the text that is written, if any.
pub open spec fn var_order_of(node: VarOrderNode) -> Result<OrderedVariableView, ErrorView> {
    match variable_of(node.var@) {
        Ok(var) => Ok(OrderedVariableView { var, order: node.order.deep_view() }),
        Err(error) => Err(error),
    }
}

/// What each entry of a sorting means.
pub open spec fn var_order_results(nodes: Seq<VarOrderNode>) -> Seq<
    Result<OrderedVariableView, ErrorView>,
> {
    Seq::new(nodes.len(), |i: int| var_order_of(nodes[i]))
}

/// The sorting that is written: its variables in the order of the source.
pub open spec fn sorting_of(nodes: Seq<VarOrderNode>) -> Result<SortingView, ErrorView> {
    match all_or_first_error(var_order_results(nodes)) {
        Ok(vars) => Ok(SortingView { vars }),
        Err(error) => Err(error),
    }
}

/// `query` with the filter that is written, where one is.
pub open spec fn with_filter(query: MatchQueryView, filter: Option<Vec<String>>) -> Result<
    MatchQueryView,
    ErrorView,
> {
    match filter {
        Some(tokens) => match filter_of(tokens@) {
            Ok(vars) => Ok(query.filter(vars)),
            Err(error) => Err(error),
        },
        None => Ok(query),
    }
}

/// `query` with the sorting that is written, where one is.
pub open spec fn with_sort(query: MatchQueryView, sort: Option<Vec<VarOrderNode>>) -> Result<
    MatchQueryView,
    ErrorView,
> {
    match sort {
        Some(nodes) => match sorting_of(nodes@) {
            Ok(sorting) => Ok(query.sort(sorting)),
            Err(error) => Err(error),
        },
        None => Ok(query),
    }
}

/// `query` with the limit that is written, where one is.
pub open spec fn with_limit(query: MatchQueryView, limit: Option<String>) -> Result<
    MatchQueryView,
    ErrorView,
> {
    match limit {
        Some(token) => match count_of(token@) {
            Ok(limit) => Ok(query.limit(limit)),
            Err(error) => Err(error),
        },
        None => Ok(query),
    }
}

/// `query` with the offset that is written, where one is.
pub open spec fn with_offset(query: MatchQueryView, offset: Option<String>) -> Result<
    MatchQueryView,
    ErrorView,
> {
    match offset {
        Some(token) => match count_of(token@) {
            Ok(offset) => Ok(query.offset(offset)),
            Err(error) => Err(error),
        },
        None => Ok(query),
    }
}

/// `query` with the modifiers applied one after the other: the filter, the
/// sorting, the limit, then the offset. The first that fails ends it.
pub open spec fn with_modifiers(query: MatchQueryView, modifiers: ModifiersNode) -> Result<
    MatchQueryView,
    ErrorView,
> {
    match with_filter(query, modifiers.filter) {
        Ok(query) => match with_sort(query, modifiers.sort) {
            Ok(query) => match with_limit(query, modifiers.limit) {
                Ok(query) => with_offset(query, modifiers.offset),
                Err(error) => Err(error),
            },
            Err(error) => Err(error),
        },
        Err(error) => Err(error),
    }
}

/// The match query that is written: its patterns, then its modifiers.
pub open spec fn match_query_of(node: QueryMatchNode) -> Result<MatchQueryView, ErrorView> {
    match patterns_of(node.patterns@, 0) {
        Ok(patterns) => match node.modifiers {
            Some(modifiers) => with_modifiers(MatchQueryView::new(patterns), modifiers),
            None => Ok(MatchQueryView::new(patterns)),
        },
        Err(error) => Err(error),
    }
}

/// What a query means: for now, only a match query has a meaning.
pub open spec fn query_of(node: QueryNode) -> Result<QueryView, ErrorView> {
    match node {
        QueryNode::Match(node) => match match_query_of(node) {
            Ok(query) => Ok(QueryView::Match(query)),
            Err(error) => Err(error),
        },
        QueryNode::Define => Err(unsupported(Construct::Define)),
        QueryNode::Undefine => Err(unsupported(Construct::Undefine)),
        QueryNode::Insert => Err(unsupported(Construct::Insert)),
        QueryNode::DeleteOrUpdate => Err(unsupported(Construct::DeleteOrUpdate)),
        QueryNode::MatchAggregate => Err(unsupported(Construct::MatchAggregate)),
        QueryNode::MatchGroup => Err(unsupported(Construct::MatchGroup)),
        QueryNode::MatchGroupAggregate => Err(unsupported(Construct::MatchGroupAggregate)),
        QueryNode::Unrecognized { text } => Err(illegal_grammar(text@)),
    }
}

/// What each query of a list means.
pub open spec fn query_results(nodes: Seq<QueryNode>) -> Seq<Result<QueryView, ErrorView>> {
    Seq::new(nodes.len(), |i: int| query_of(nodes[i]))
}

/// The queries of a list, in the order of the source, or the error of the first
/// query that has one.
pub open spec fn queries_of(nodes: Seq<QueryNode>) -> Result<Seq<QueryView>, ErrorView> {
    all_or_first_error(query_results(nodes))
}

/// A list of definables means nothing yet: it is reported unless it is empty.
pub open spec fn definables_of(nodes: Seq<DefinableNode>) -> Result<Seq<Definable>, ErrorView> {
    if nodes.len() == 0 {
        Ok(Seq::empty())
    } else {
        Err(unsupported(Construct::Definable))
    }
}

/// The root of a parse that holds one query.
pub fn visit_eof_query(query: &QueryNode) -> (result: Result<Query, Error>)
    ensures
        result_view(result) == query_of(*query),
        result matches Ok(query) ==> query.deep_view().well_formed(),
{
    proof {
        lemma_query_well_formed(*query);
    }
    visit_query(query)
}

/// The root of a parse that holds a list of queries. Each query numbers its
/// hidden variables on its own.
pub fn visit_eof_queries(queries: &Vec<QueryNode>) -> (result: Result<Vec<Query>, Error>)
    ensures
        result_view(result) == queries_of(queries@),
        result matches Ok(list) ==> forall|i: int|
            0 <= i < list.len() ==> (#[trigger] list.deep_view()[i]).well_formed(),
{
    let ghost results = query_results(queries@);
    let mut list: Vec<Query> = Vec::new();
    let mut i: usize = 0;
    assert(list.deep_view() =~= Seq::empty());
    while i < queries.len()
        invariant
            i <= queries.len(),
            results == query_results(queries@),
            all_or_first_error(results.take(i as int)) == Ok::<Seq<QueryView>, ErrorView>(
                list.deep_view(),
            ),
            forall|j: int| 0 <= j < list.len() ==> (#[trigger] list.deep_view()[j]).well_formed(),
        decreases queries.len() - i,
    {
        proof {
            lemma_all_or_first_error_step(results, i as int);
        }
        match visit_query(&queries[i]) {
            Ok(query) => {
                push_deep(&mut list, query);
            },
            Err(error) => {
                proof {
                    lemma_all_or_first_error_prefix(results, i + 1);
                }
                return Err(error);
            },
        }
        i += 1;
    }
    assert(results.take(i as int) =~= results);
    Ok(list)
}

/// The root of a parse that holds one pattern. Its hidden variable is the
/// first.
pub fn visit_eof_pattern(pattern: &PatternNode) -> (result: Result<Pattern, Error>)
    ensures
        result_view(result) == pattern_of(*pattern, 0),
        result matches Ok(pattern) ==> pattern.deep_view().well_formed(),
{
    proof {
        lemma_pattern_well_formed(*pattern, 0);
    }
    visit_pattern(pattern, 0)
}

/// The root of a parse that holds a list of patterns.
pub fn visit_eof_patterns(patterns: &Vec<PatternNode>) -> (result: Result<Vec<Pattern>, Error>)
    ensures
        result_view(result) == patterns_of(patterns@, 0),
        result matches Ok(patterns) ==> forall|i: int|
            0 <= i < patterns.len() ==> (#[trigger] patterns.deep_view()[i]).well_formed(),
{
    proof {
        lemma_patterns(patterns@, 0);
    }
    visit_patterns(patterns, 0)
}

/// The root of a parse that holds a list of definables.
pub fn visit_eof_definables(definables: &Vec<DefinableNode>) -> (result: Result<
    Vec<Definable>,
    Error,
>)
    ensures
        result_view(result) == definables_of(definables@),
{
    if definables.len() == 0 {
        let list: Vec<Definable> = Vec::new();
        assert(list.deep_view() =~= Seq::empty());
        Ok(list)
    } else {
        match visit_definable(&definables[0]) {
            Ok(definable) => Ok(vec![definable]),
            Err(error) => Err(error),
        }
    }
}

/// The root of a parse that holds one variable with its constraints. Its
/// hidden variable is the first.
pub fn visit_eof_variable(variable: &PatternVariableNode) -> (result: Result<Variable, Error>)
    ensures
        result_view(result) == pattern_variable_of(*variable, 0),
        result matches Ok(variable) ==> variable.deep_view().well_formed(),
{
    proof {
        lemma_pattern_variable_well_formed(*variable, 0);
    }
    visit_pattern_variable(variable, 0)
}

/// The root of a parse that holds one label: the label is its text.
pub fn visit_eof_label(label: &str) -> (result: Result<String, Error>)
    ensures
        result_view(result) == Ok::<Seq<char>, ErrorView>(label@),
{
    Ok(label.to_owned())
}

/// The root of a parse that holds one schema rule.
pub fn visit_eof_schema_rule(schema_rule: &SchemaRuleNode) -> (result: Result<(), Error>)
    ensures
        result matches Err(error) && error.deep_view() == unsupported(Construct::SchemaRule),
{
    visit_schema_rule(schema_rule)
}

/// Assembles a query.
pub fn visit_query(node: &QueryNode) -> (result: Result<Query, Error>)
    ensures
        result_view(result) == query_of(*node),
        result matches Ok(query) ==> query.deep_view().well_formed(),
{
    proof {
        lemma_query_well_formed(*node);
    }
    match node {
        QueryNode::Match(node) => Ok(visit_query_match(node)?.into_query()),
        QueryNode::Define => Err(Error::unsupported(Construct::Define)),
        QueryNode::Undefine => Err(Error::unsupported(Construct::Undefine)),
        QueryNode::Insert => Err(Error::unsupported(Construct::Insert)),
        QueryNode::DeleteOrUpdate => Err(Error::unsupported(Construct::DeleteOrUpdate)),
        QueryNode::MatchAggregate => Err(Error::unsupported(Construct::MatchAggregate)),
        QueryNode::MatchGroup => Err(Error::unsupported(Construct::MatchGroup)),
        QueryNode::MatchGroupAggregate => Err(Error::unsupported(Construct::MatchGroupAggregate)),
        QueryNode::Unrecognized { text } => Err(Error::illegal_grammar(text.as_str())),
    }
}

/// Assembles a match query: the patterns first, then the modifiers in their
/// fixed order.
pub fn visit_query_match(node: &QueryMatchNode) -> (result: Result<MatchQuery, Error>)
    ensures
        result_view(result) == match_query_of(*node),
        result matches Ok(query) ==> query.deep_view().well_formed(),
{
    proof {
        lemma_match_query_well_formed(*node);
    }
    let match_query = MatchQuery::new(visit_patterns(&node.patterns, 0)?);
    if let Some(modifiers) = &node.modifiers {
        visit_modifiers(match_query, modifiers)
    } else {
        Ok(match_query)
    }
}

/// Applies the modifiers to a match query: the filter, the sorting, the limit,
/// then the offset, each where it is written.
pub fn visit_modifiers(query: MatchQuery, node: &ModifiersNode) -> (result: Result<
    MatchQuery,
    Error,
>)
    ensures
        result_view(result) == with_modifiers(query.deep_view(), *node),
{
    let mut match_query = query;
    if let Some(filter) = &node.filter {
        match_query = match_query.filter(visit_filter(filter)?);
    }
    if let Some(sort) = &node.sort {
        match_query = match_query.sort(visit_sort(sort)?);
    }
    if let Some(limit) = &node.limit {
        match_query = match_query.limit(get_count(limit.as_str())?);
    }
    if let Some(offset) = &node.offset {
        match_query = match_query.offset(get_count(offset.as_str())?);
    }
    Ok(match_query)
}

/// Reads the variables of a filter.
pub fn visit_filter(tokens: &Vec<String>) -> (result: Result<Vec<UnboundVariable>, Error>)
    ensures
        result_view(result) == filter_of(tokens@),
{
    let ghost results = variable_results(tokens@);
    let mut vars: Vec<UnboundVariable> = Vec::new();
    let mut i: usize = 0;
    assert(vars.deep_view() =~= Seq::empty());
    while i < tokens.len()
        invariant
            i <= tokens.len(),
            results == variable_results(tokens@),
            all_or_first_error(results.take(i as int)) == Ok::<
                Seq<UnboundVariableView>,
                ErrorView,
            >(vars.deep_view()),
        decreases tokens.len() - i,
    {
        proof {
            lemma_all_or_first_error_step(results, i as int);
        }
        match decode_var(tokens[i].as_str()) {
            Ok(var) => {
                push_deep(&mut vars, var);
            },
            Err(error) => {
                proof {
                    lemma_all_or_first_error_prefix(results, i + 1);
                }
                return Err(error);
            },
        }
        i += 1;
    }
    assert(results.take(i as int) =~= results);
    Ok(vars)
}

/// Reads the sorting of a match query.
pub fn visit_sort(nodes: &Vec<VarOrderNode>) -> (result: Result<Sorting, Error>)
    ensures
        result_view(result) == sorting_of(nodes@),
{
    let ghost results = var_order_results(nodes@);
    let mut vars: Vec<OrderedVariable> = Vec::new();
    let mut i: usize = 0;
    assert(vars.deep_view() =~= Seq::empty());
    while i < nodes.len()
        invariant
            i <= nodes.len(),
            results == var_order_results(nodes@),
            all_or_first_error(results.take(i as int)) == Ok::<
                Seq<OrderedVariableView>,
                ErrorView,
            >(vars.deep_view()),
        decreases nodes.len() - i,
    {
        proof {
            lemma_all_or_first_error_step(results, i as int);
        }
        match visit_var_order(&nodes[i]) {
            Ok(var) => {
                push_deep(&mut vars, var);
            },
            Err(error) => {
                proof {
                    lemma_all_or_first_error_prefix(results, i + 1);
                }
                return Err(error);
            },
        }
        i += 1;
    }
    assert(results.take(i as int) =~= results);
    Ok(Sorting::new(vars))
}

/// Reads one variable of a sorting, with its direction where one is written.
pub fn visit_var_order(node: &VarOrderNode) -> (result: Result<OrderedVariable, Error>)
    ensures
        result_view(result) == var_order_of(*node),
{
    Ok(OrderedVariable { var: decode_var(node.var.as_str())?, order: node.order.clone() })
}

/// A definable means nothing yet.
pub fn visit_definable(node: &DefinableNode) -> (result: Result<Definable, Error>)
    ensures
        result matches Err(error) && error.deep_view() == unsupported(Construct::Definable),
{
    Err(Error::unsupported(Construct::Definable))
}

/// A schema rule means nothing yet.
pub fn visit_schema_rule(node: &SchemaRuleNode) -> (result: Result<(), Error>)
    ensures
        result matches Err(error) && error.deep_view() == unsupported(Construct::SchemaRule),
{
    Err(Error::unsupported(Construct::SchemaRule))
}

/// A variable bound to a concept means nothing yet.
pub fn visit_variable_concept() -> (result: Result<TypeVariable, Error>)
    ensures
        result matches Err(error) && error.deep_view() == unsupported(Construct::ConceptVariable),
{
    Err(Error::unsupported(Construct::ConceptVariable))
}

/// Assembles the patterns of a list that lies below `depth` blocks. The
/// pattern at index `i` gets `i` for its hidden variable.
pub fn visit_patterns(nodes: &Vec<PatternNode>, depth: usize) -> (result: Result<
    Vec<Pattern>,
    Error,
>)
    ensures
        result_view(result) == patterns_of(nodes@, depth as nat),
{
    if depth >= MAX_NESTING_DEPTH {
        return Err(Error::TooDeeplyNested);
    }
    let ghost results = pattern_results(nodes@);
    let mut patterns: Vec<Pattern> = Vec::new();
    let mut i: usize = 0;
    assert(patterns.deep_view() =~= Seq::empty());
    while i < nodes.len()
        invariant
            i <= nodes.len(),
            depth < MAX_NESTING_DEPTH,
            results == pattern_results(nodes@),
            all_or_first_error(results.take(i as int)) == Ok::<Seq<PatternView>, ErrorView>(
                patterns.deep_view(),
            ),
        decreases nodes.len() - i,
    {
        proof {
            lemma_all_or_first_error_step(results, i as int);
        }
        match visit_pattern(&nodes[i], i) {
            Ok(pattern) => {
                push_deep(&mut patterns, pattern);
            },
            Err(error) => {
                proof {
                    lemma_all_or_first_error_prefix(results, i + 1);
                }
                return Err(error);
            },
        }
        i += 1;
    }
    assert(results.take(i as int) =~= results);
    Ok(patterns)
}

/// Assembles a pattern. `hidden` is the hidden variable that the pattern may
/// use.
pub fn visit_pattern(node: &PatternNode, hidden: usize) -> (result: Result<Pattern, Error>)
    ensures
        result_view(result) == pattern_of(*node, hidden as nat),
{
    match node {
        PatternNode::Variable(node) => Ok(visit_pattern_variable(node, hidden)?.into_pattern()),
        PatternNode::Conjunction => Err(Error::unsupported(Construct::Conjunction)),
        PatternNode::Disjunction => Err(Error::unsupported(Construct::Disjunction)),
        PatternNode::Negation => Err(Error::unsupported(Construct::Negation)),
        PatternNode::Unrecognized { text } => Err(Error::illegal_grammar(text.as_str())),
    }
}

/// Assembles the variable of a pattern. `hidden` is the hidden variable that
/// stands in where the source names none.
pub fn visit_pattern_variable(node: &PatternVariableNode, hidden: usize) -> (result: Result<
    Variable,
    Error,
>)
    ensures
        result_view(result) == pattern_variable_of(*node, hidden as nat),
{
    match node {
        PatternVariableNode::ThingAny(node) => Ok(
            visit_variable_thing_any(node, hidden)?.into_variable(),
        ),
        PatternVariableNode::Type(node) => Ok(visit_variable_type(node, hidden)?.into_variable()),
        PatternVariableNode::Concept => match visit_variable_concept() {
            Ok(var) => Ok(var.into_variable()),
            Err(error) => Err(error),
        },
        PatternVariableNode::Unrecognized { text } => Err(Error::illegal_grammar(text.as_str())),
    }
}

} // verus!
