use typeql_parser::error::{Construct, Error};
use typeql_parser::list::{append_deep, push_deep};
use typeql_parser::parser::tree::{
    DefinableNode, ModifiersNode, PatternNode, PatternVariableNode, PredicateNode, QueryMatchNode,
    QueryNode, RolePlayerNode, SchemaRuleNode, TypeAnyNode, TypeNode, ValueNode, VarOrderNode,
    VariableAttributeNode, VariableRelationNode, VariableThingAnyNode, VariableThingNode,
    VariableTypeNode,
};
use typeql_parser::parser::{
    visit_definable, visit_eof_definables, visit_eof_label, visit_eof_pattern, visit_eof_patterns,
    visit_eof_queries, visit_eof_query, visit_eof_schema_rule, visit_eof_variable, visit_filter,
    visit_modifiers, visit_pattern, visit_pattern_variable, visit_patterns, visit_query,
    visit_query_match, visit_schema_rule, visit_sort, visit_var_order, visit_variable_concept,
    MAX_NESTING_DEPTH,
};
use typeql_parser::pattern::{
    Comparator, Label, Pattern, Predicate, RelationConstraint, RolePlayerConstraint,
    ThingVariable, TypeVariable, UnboundVariable, Value, Variable,
};
use typeql_parser::query::{MatchQuery, OrderedVariable, Query, Sorting};

fn s(text: &str) -> String {
    String::from(text)
}

fn illegal(text: &str) -> Error {
    Error::IllegalGrammar { text: s(text) }
}

fn unsupported(construct: Construct) -> Error {
    Error::Unsupported { construct }
}

fn named(name: &str) -> UnboundVariable {
    UnboundVariable::Named(s(name))
}

fn thing_node(var: &str) -> PatternNode {
    PatternNode::Variable(PatternVariableNode::ThingAny(VariableThingAnyNode::Thing(
        VariableThingNode { var: s(var), iid: None, isa: None, attributes: None },
    )))
}

fn relation_node(player: &str) -> PatternNode {
    PatternNode::Variable(PatternVariableNode::ThingAny(VariableThingAnyNode::Relation(
        VariableRelationNode {
            var: None,
            relation: vec![RolePlayerNode { role: None, player: s(player) }],
            isa: None,
            attributes: None,
        },
    )))
}

fn attribute_node(token: &str) -> PatternNode {
    PatternNode::Variable(PatternVariableNode::ThingAny(VariableThingAnyNode::Attribute(
        VariableAttributeNode {
            var: None,
            predicate: PredicateNode::Value(ValueNode::String(s(token))),
            isa: None,
            attributes: None,
        },
    )))
}

fn type_node(label: &str) -> PatternNode {
    PatternNode::Variable(PatternVariableNode::Type(VariableTypeNode {
        head: TypeAnyNode::Type(TypeNode::Label(s(label))),
        constraints: vec![],
    }))
}

fn thing(reference: UnboundVariable) -> ThingVariable {
    ThingVariable { reference, iid: None, isa: None, has: vec![], relation: None, value: None }
}

fn thing_pattern(name: &str) -> Pattern {
    Pattern::Variable(Variable::Thing(thing(named(name))))
}

fn relation_pattern(hidden: usize, player: &str) -> Pattern {
    Pattern::Variable(Variable::Thing(ThingVariable {
        relation: Some(RelationConstraint {
            role_players: vec![RolePlayerConstraint { role: None, player: named(player) }],
        }),
        ..thing(UnboundVariable::Hidden(hidden))
    }))
}

fn attribute_pattern(hidden: usize, value: &str) -> Pattern {
    Pattern::Variable(Variable::Thing(ThingVariable {
        value: Some(Predicate { comparator: Comparator::Eq, value: Value::String(s(value)) }),
        ..thing(UnboundVariable::Hidden(hidden))
    }))
}

fn type_pattern(hidden: usize, label: &str) -> Pattern {
    Pattern::Variable(Variable::Type(TypeVariable {
        reference: UnboundVariable::Hidden(hidden),
        label: Some(Label { scope: None, name: s(label) }),
        sub: None,
        owns: vec![],
        plays: vec![],
        relates: vec![],
        regex: None,
    }))
}

fn no_modifiers() -> ModifiersNode {
    ModifiersNode { filter: None, sort: None, limit: None, offset: None }
}

fn bare_query(patterns: Vec<Pattern>) -> MatchQuery {
    MatchQuery { patterns, filter: None, sorting: None, limit: None, offset: None }
}

#[test]
fn match_query_with_all_modifiers() {
    let node = QueryMatchNode {
        patterns: vec![thing_node("$x")],
        modifiers: Some(ModifiersNode {
            filter: Some(vec![s("$x")]),
            sort: Some(vec![VarOrderNode { var: s("$x"), order: Some(s("asc")) }]),
            limit: Some(s("10")),
            offset: Some(s("5")),
        }),
    };
    let expected = MatchQuery {
        patterns: vec![thing_pattern("x")],
        filter: Some(vec![named("x")]),
        sorting: Some(Sorting { vars: vec![OrderedVariable { var: named("x"), order: Some(s("asc")) }] }),
        limit: Some(10),
        offset: Some(5),
    };
    assert_eq!(visit_query_match(&node), Ok(expected.clone()));
    assert_eq!(visit_query(&QueryNode::Match(node.clone())), Ok(Query::Match(expected.clone())));
    assert_eq!(visit_eof_query(&QueryNode::Match(node)), Ok(Query::Match(expected)));
}

#[test]
fn match_query_builders_apply_in_the_fixed_order() {
    let sorting = Sorting::new(vec![OrderedVariable { var: named("x"), order: Some(s("asc")) }]);
    let built = MatchQuery::new(vec![thing_pattern("x")])
        .filter(vec![named("x")])
        .sort(sorting.clone())
        .limit(10)
        .offset(5);
    assert_eq!(
        built,
        MatchQuery {
            patterns: vec![thing_pattern("x")],
            filter: Some(vec![named("x")]),
            sorting: Some(sorting),
            limit: Some(10),
            offset: Some(5),
        }
    );
    assert_eq!(built.clone().into_query(), Query::Match(built));
}

#[test]
fn match_query_reports_the_first_modifier_that_fails() {
    let all_bad = ModifiersNode {
        filter: Some(vec![s("$x"), s("f")]),
        sort: Some(vec![VarOrderNode { var: s("o"), order: None }]),
        limit: Some(s("l")),
        offset: Some(s("-1")),
    };
    let query = bare_query(vec![]);
    assert_eq!(visit_modifiers(query.clone(), &all_bad), Err(illegal("f")));
    let node = ModifiersNode { filter: Some(vec![s("$x")]), ..all_bad };
    assert_eq!(visit_modifiers(query.clone(), &node), Err(illegal("o")));
    let node = ModifiersNode { sort: None, ..node };
    assert_eq!(visit_modifiers(query.clone(), &node), Err(illegal("l")));
    let node = ModifiersNode { limit: Some(s("3")), ..node };
    assert_eq!(visit_modifiers(query.clone(), &node), Err(illegal("-1")));
    let node = ModifiersNode { offset: Some(s("0")), ..node };
    assert_eq!(
        visit_modifiers(query, &node),
        Ok(MatchQuery {
            patterns: vec![],
            filter: Some(vec![named("x")]),
            sorting: None,
            limit: Some(3),
            offset: Some(0),
        })
    );
}

#[test]
fn match_query_reports_its_patterns_before_its_modifiers() {
    let node = QueryMatchNode {
        patterns: vec![thing_node("$x"), thing_node("y")],
        modifiers: Some(ModifiersNode { limit: Some(s("many")), ..no_modifiers() }),
    };
    assert_eq!(visit_query_match(&node), Err(illegal("y")));
}

#[test]
fn match_query_without_modifiers() {
    let node = QueryMatchNode { patterns: vec![thing_node("$x")], modifiers: None };
    assert_eq!(visit_query_match(&node), Ok(bare_query(vec![thing_pattern("x")])));
    let node = QueryMatchNode { patterns: vec![thing_node("$x")], modifiers: Some(no_modifiers()) };
    assert_eq!(visit_query_match(&node), Ok(bare_query(vec![thing_pattern("x")])));
}

#[test]
fn filter_keeps_order_and_duplicates() {
    assert_eq!(
        visit_filter(&vec![s("$b"), s("$a"), s("$b"), s("$_")]),
        Ok(vec![named("b"), named("a"), named("b"), UnboundVariable::Anonymous])
    );
    assert_eq!(visit_filter(&vec![]), Ok(vec![]));
    assert_eq!(visit_filter(&vec![s("$b"), s("a"), s("b")]), Err(illegal("a")));
}

#[test]
fn sort_passes_the_direction_through() {
    assert_eq!(
        visit_sort(&vec![
            VarOrderNode { var: s("$a"), order: Some(s("desc")) },
            VarOrderNode { var: s("$b"), order: None },
            VarOrderNode { var: s("$c"), order: Some(s("sideways")) },
        ]),
        Ok(Sorting {
            vars: vec![
                OrderedVariable { var: named("a"), order: Some(s("desc")) },
                OrderedVariable { var: named("b"), order: None },
                OrderedVariable { var: named("c"), order: Some(s("sideways")) },
            ]
        })
    );
    assert_eq!(
        visit_var_order(&VarOrderNode { var: s("$a"), order: Some(s("asc")) }),
        Ok(OrderedVariable { var: named("a"), order: Some(s("asc")) })
    );
    assert_eq!(visit_var_order(&VarOrderNode { var: s("a"), order: None }), Err(illegal("a")));
    assert_eq!(
        visit_sort(&vec![
            VarOrderNode { var: s("$a"), order: None },
            VarOrderNode { var: s("$"), order: None },
        ]),
        Err(illegal("$"))
    );
}

#[test]
fn limit_and_offset_are_counts() {
    let query = bare_query(vec![]);
    let node = ModifiersNode { limit: Some(s("-3")), ..no_modifiers() };
    assert_eq!(visit_modifiers(query.clone(), &node), Err(illegal("-3")));
    let node = ModifiersNode { offset: Some(s("1.5")), ..no_modifiers() };
    assert_eq!(visit_modifiers(query.clone(), &node), Err(illegal("1.5")));
    let node = ModifiersNode {
        limit: Some(s("9223372036854775807")),
        offset: Some(s("+2")),
        ..no_modifiers()
    };
    assert_eq!(
        visit_modifiers(query.clone(), &node),
        Ok(MatchQuery { limit: Some(9223372036854775807), offset: Some(2), ..query })
    );
}

#[test]
fn query_of_a_reserved_kind_is_unsupported() {
    assert_eq!(visit_query(&QueryNode::Define), Err(unsupported(Construct::Define)));
    assert_eq!(visit_query(&QueryNode::Undefine), Err(unsupported(Construct::Undefine)));
    assert_eq!(visit_query(&QueryNode::Insert), Err(unsupported(Construct::Insert)));
    assert_eq!(visit_query(&QueryNode::DeleteOrUpdate), Err(unsupported(Construct::DeleteOrUpdate)));
    assert_eq!(visit_query(&QueryNode::MatchAggregate), Err(unsupported(Construct::MatchAggregate)));
    assert_eq!(visit_query(&QueryNode::MatchGroup), Err(unsupported(Construct::MatchGroup)));
    assert_eq!(
        visit_eof_query(&QueryNode::MatchGroupAggregate),
        Err(unsupported(Construct::MatchGroupAggregate))
    );
    assert_eq!(
        visit_eof_query(&QueryNode::Unrecognized { text: s("matc $x;") }),
        Err(illegal("matc $x;"))
    );
}

#[test]
fn queries_are_walked_in_order() {
    let first = QueryNode::Match(QueryMatchNode { patterns: vec![relation_node("$a")], modifiers: None });
    let second = QueryNode::Match(QueryMatchNode { patterns: vec![relation_node("$b")], modifiers: None });
    assert_eq!(
        visit_eof_queries(&vec![first.clone(), second.clone()]),
        Ok(vec![
            Query::Match(bare_query(vec![relation_pattern(0, "a")])),
            Query::Match(bare_query(vec![relation_pattern(0, "b")])),
        ])
    );
    assert_eq!(visit_eof_queries(&vec![]), Ok(vec![]));
    assert_eq!(
        visit_eof_queries(&vec![first, QueryNode::Insert, QueryNode::Define, second]),
        Err(unsupported(Construct::Insert))
    );
}

#[test]
fn patterns_number_their_hidden_variables_by_index() {
    let nodes = vec![
        relation_node("$a"),
        thing_node("$x"),
        attribute_node("'v'"),
        type_node("person"),
        relation_node("$b"),
    ];
    let expected = vec![
        relation_pattern(0, "a"),
        thing_pattern("x"),
        attribute_pattern(2, "v"),
        type_pattern(3, "person"),
        relation_pattern(4, "b"),
    ];
    assert_eq!(visit_patterns(&nodes, 0), Ok(expected.clone()));
    assert_eq!(visit_eof_patterns(&nodes), Ok(expected.clone()));
    assert_eq!(visit_patterns(&nodes, 0), visit_patterns(&nodes, 0));
    assert_eq!(visit_patterns(&nodes, MAX_NESTING_DEPTH - 1), Ok(expected));
}

#[test]
fn patterns_stop_at_the_first_error() {
    let nodes = vec![thing_node("$x"), PatternNode::Negation, thing_node("y")];
    assert_eq!(visit_patterns(&nodes, 0), Err(unsupported(Construct::Negation)));
    let nodes = vec![thing_node("$x"), thing_node("y"), PatternNode::Negation];
    assert_eq!(visit_eof_patterns(&nodes), Err(illegal("y")));
    assert_eq!(visit_eof_patterns(&vec![]), Ok(vec![]));
}

#[test]
fn patterns_too_deep_are_reported() {
    let nodes = vec![thing_node("$x")];
    assert_eq!(visit_patterns(&nodes, MAX_NESTING_DEPTH), Err(Error::TooDeeplyNested));
    assert_eq!(visit_patterns(&nodes, usize::MAX), Err(Error::TooDeeplyNested));
    assert_eq!(visit_patterns(&vec![PatternNode::Negation], MAX_NESTING_DEPTH), Err(Error::TooDeeplyNested));
    assert_eq!(MAX_NESTING_DEPTH, 64);
}

#[test]
fn pattern_of_a_reserved_kind_is_unsupported() {
    assert_eq!(visit_pattern(&PatternNode::Conjunction, 0), Err(unsupported(Construct::Conjunction)));
    assert_eq!(visit_pattern(&PatternNode::Disjunction, 0), Err(unsupported(Construct::Disjunction)));
    assert_eq!(visit_eof_pattern(&PatternNode::Negation), Err(unsupported(Construct::Negation)));
    assert_eq!(
        visit_eof_pattern(&PatternNode::Unrecognized { text: s("{}") }),
        Err(illegal("{}"))
    );
    assert_eq!(
        visit_pattern_variable(&PatternVariableNode::Concept, 0),
        Err(unsupported(Construct::ConceptVariable))
    );
    assert_eq!(
        visit_eof_variable(&PatternVariableNode::Unrecognized { text: s("$x$y") }),
        Err(illegal("$x$y"))
    );
    assert_eq!(visit_variable_concept(), Err(unsupported(Construct::ConceptVariable)));
}

#[test]
fn single_pattern_and_variable_use_the_first_hidden_variable() {
    assert_eq!(visit_eof_pattern(&relation_node("$a")), Ok(relation_pattern(0, "a")));
    assert_eq!(visit_pattern(&relation_node("$a"), 12), Ok(relation_pattern(12, "a")));
    let node = PatternVariableNode::Type(VariableTypeNode {
        head: TypeAnyNode::Type(TypeNode::Label(s("person"))),
        constraints: vec![],
    });
    let Pattern::Variable(expected) = type_pattern(0, "person");
    assert_eq!(visit_eof_variable(&node), Ok(expected));
    assert_eq!(Variable::Thing(thing(named("x"))).into_pattern(), thing_pattern("x"));
}

#[test]
fn label_root_is_its_text() {
    assert_eq!(visit_eof_label("person"), Ok(s("person")));
    assert_eq!(visit_eof_label(""), Ok(s("")));
}

#[test]
fn definables_and_schema_rules_are_unsupported() {
    assert_eq!(visit_eof_definables(&vec![]), Ok(vec![]));
    assert_eq!(
        visit_eof_definables(&vec![DefinableNode {}, DefinableNode {}]),
        Err(unsupported(Construct::Definable))
    );
    assert_eq!(visit_definable(&DefinableNode {}), Err(unsupported(Construct::Definable)));
    assert_eq!(visit_eof_schema_rule(&SchemaRuleNode {}), Err(unsupported(Construct::SchemaRule)));
    assert_eq!(visit_schema_rule(&SchemaRuleNode {}), Err(unsupported(Construct::SchemaRule)));
}

#[test]
fn lists_grow_at_the_end() {
    let mut list = vec![1u8, 2];
    push_deep(&mut list, 3);
    assert_eq!(list, vec![1, 2, 3]);
    append_deep(&mut list, vec![4, 5]);
    assert_eq!(list, vec![1, 2, 3, 4, 5]);
    append_deep(&mut list, vec![]);
    assert_eq!(list, vec![1, 2, 3, 4, 5]);
}
