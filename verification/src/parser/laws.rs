//! What holds of every walk: whatever a walk returns is well formed, hidden
//! variables are told apart by the place of their pattern, the modifiers of a
//! match query apply in one fixed order, and a token decodes to the same value
//! whenever it is decoded.

use crate::error::{illegal_grammar, ErrorView};
use crate::list::lemma_all_or_first_error_ok;
use crate::parser::literal::{
    comparator_of, count_of, date_of, date_time_of, has_escaped_slash, is_variable_text, long_of,
    nanoseconds_of, padded_fraction, regex_of, string_of, unescaped, variable_named, variable_of,
};
use crate::parser::reference::{lemma_scoped_label, type_any_of, type_of, type_scoped_of};
use crate::parser::thing::{
    attribute_of, attribute_results, attributes_of, owner_of, predicate_of, relation_of,
    role_player_of, role_player_results, role_players_of, thing_any_of, value_of, with_has,
    with_iid, with_isa,
};
use crate::parser::tree::{
    AttributeNode, IsaNode, LabelAnyNode, ModifiersNode, PatternNode, PatternVariableNode,
    PredicateNode, PredicateValueNode, QueryMatchNode, QueryNode, RolePlayerNode, TypeAnyNode,
    TypeConstraintNode, TypeNode, TypeScopedNode, ValueNode, VarOrderNode, VariableThingAnyNode,
    VariableTypeNode,
};
use crate::parser::type_variable::{
    type_constraint_of, type_constraints_of, type_head_of, type_variable_of,
};
use crate::parser::{
    filter_of, match_query_of, pattern_of, pattern_results, pattern_variable_of, patterns_of,
    query_of, sorting_of, var_order_of, var_order_results, variable_results, with_filter,
    with_limit, with_modifiers, with_offset, with_sort, MAX_NESTING_DEPTH,
};
use crate::pattern::{
    HasConstraintView, PatternView, ThingVariableView, TypeVariableView, UnboundVariableView,
    ValueView, VariableView,
};
use crate::query::MatchQueryView;
use crate::temporal::{DateTime, NANOSECOND_BOUND};
use crate::text::{all_digits, digit_value, digits_value, is_digit};
use vstd::prelude::*;

verus! {

/// A variable that a token decodes to is well formed: where it has a name, the
/// name is not empty and is not the underscore.
pub proof fn lemma_variable_well_formed(text: Seq<char>)
    ensures
        variable_of(text) matches Ok(var) ==> var.well_formed(),
        is_variable_text(text) ==> variable_named(text).well_formed(),
{
    if is_variable_text(text) {
        assert(text.skip(1).len() == text.len() - 1);
    }
}

/// A reference that a place for a type resolves to is well formed.
pub proof fn lemma_type_well_formed(node: TypeNode)
    ensures
        type_of(node) matches Ok(reference) ==> reference.well_formed(),
{
    if let TypeNode::Variable(text) = node {
        lemma_variable_well_formed(text@);
    }
}

/// A reference that a place for a scoped type resolves to is well formed.
pub proof fn lemma_type_scoped_well_formed(node: TypeScopedNode)
    ensures
        type_scoped_of(node) matches Ok(reference) ==> reference.well_formed(),
{
    match node {
        TypeScopedNode::Label(text) => lemma_scoped_label(text@),
        TypeScopedNode::Variable(text) => lemma_variable_well_formed(text@),
    }
}

/// A reference that a place for any type resolves to is well formed.
pub proof fn lemma_type_any_well_formed(node: TypeAnyNode)
    ensures
        type_any_of(node) matches Ok(reference) ==> reference.well_formed(),
{
    match node {
        TypeAnyNode::Variable(text) => lemma_variable_well_formed(text@),
        TypeAnyNode::Type(node) => lemma_type_well_formed(node),
        TypeAnyNode::Scoped(node) => lemma_type_scoped_well_formed(node),
    }
}

/// A predicate that is assembled compares with a well-formed value.
pub proof fn lemma_predicate_well_formed(node: PredicateNode)
    ensures
        predicate_of(node) matches Ok(predicate) ==> predicate.value.well_formed(),
{
    if let PredicateNode::Comparison { operator, operand } = node {
        if let PredicateValueNode::Variable(text) = operand {
            lemma_variable_well_formed(text@);
        }
    }
}

/// An ownership that is assembled is well formed.
pub proof fn lemma_attribute_well_formed(node: AttributeNode)
    ensures
        attribute_of(node) matches Ok(has) ==> has.well_formed(),
{
    if node.label is Some {
        match node.var {
            Some(var) => lemma_variable_well_formed(var@),
            None => {
                if let Some(predicate) = node.predicate {
                    lemma_predicate_well_formed(predicate);
                }
            },
        }
    }
}

/// The ownerships of a list are as many as its clauses, and each is well
/// formed.
pub proof fn lemma_attributes_well_formed(nodes: Seq<AttributeNode>)
    ensures
        attributes_of(nodes) matches Ok(has) ==> has.len() == nodes.len() && forall|i: int|
            0 <= i < has.len() ==> (#[trigger] has[i]).well_formed(),
{
    let results = attribute_results(nodes);
    lemma_all_or_first_error_ok(results);
    if let Ok(has) = attributes_of(nodes) {
        assert forall|i: int| 0 <= i < has.len() implies (#[trigger] has[i]).well_formed() by {
            assert(results[i] == attribute_of(nodes[i]));
            lemma_attribute_well_formed(nodes[i]);
        }
    }
}

/// A role player that is assembled is well formed.
pub proof fn lemma_role_player_well_formed(node: RolePlayerNode)
    ensures
        role_player_of(node) matches Ok(role_player) ==> role_player.well_formed(),
{
    lemma_variable_well_formed(node.player@);
    if let Some(role) = node.role {
        lemma_type_well_formed(role);
    }
}

/// A relation has as many role players as are written, in the order in which
/// they are written, and each is well formed.
pub proof fn lemma_relation_well_formed(nodes: Seq<RolePlayerNode>)
    ensures
        relation_of(nodes) matches Ok(relation) ==> {
            &&& relation.well_formed()
            &&& relation.role_players.len() == nodes.len()
            &&& forall|i: int|
                0 <= i < nodes.len() ==> role_player_of(nodes[i]) == Ok::<_, ErrorView>(
                    #[trigger] relation.role_players[i],
                )
        },
{
    let results = role_player_results(nodes);
    lemma_all_or_first_error_ok(results);
    if let Ok(role_players) = role_players_of(nodes) {
        assert forall|i: int| 0 <= i < role_players.len() implies role_player_of(nodes[i]) == Ok::<
            _,
            ErrorView,
        >(#[trigger] role_players[i]) && role_players[i].well_formed() by {
            assert(results[i] == role_player_of(nodes[i]));
            lemma_role_player_well_formed(nodes[i]);
        }
    }
}

/// Adding the `isa` constraint that is written keeps a thing variable well
/// formed.
pub proof fn lemma_with_isa_well_formed(var: ThingVariableView, isa: Option<IsaNode>)
    requires
        var.well_formed(),
    ensures
        with_isa(var, isa) matches Ok(var) ==> var.well_formed(),
{
    if let Some(isa) = isa {
        lemma_type_well_formed(isa.isa_type);
    }
}

/// A thing variable that is assembled is well formed, in each of its three
/// forms.
pub proof fn lemma_thing_any_well_formed(node: VariableThingAnyNode, hidden: nat)
    ensures
        thing_any_of(node, hidden) matches Ok(var) ==> var.well_formed(),
{
    match node {
        VariableThingAnyNode::Thing(node) => {
            lemma_variable_well_formed(node.var@);
            if let Ok(reference) = variable_of(node.var@) {
                let named = with_iid(reference.into_thing(), node.iid);
                lemma_with_isa_well_formed(named, node.isa);
                if let Ok(typed) = with_isa(named, node.isa) {
                    if let Some(attributes) = node.attributes {
                        lemma_attributes_well_formed(attributes@);
                        if let Ok(has) = attributes_of(attributes@) {
                            let var = with_has(typed, has);
                            assert forall|i: int| 0 <= i < var.has.len() implies (
                            #[trigger] var.has[i]).well_formed() by {
                                if i < typed.has.len() {
                                    assert(var.has[i] == typed.has[i]);
                                } else {
                                    assert(var.has[i] == has[i - typed.has.len()]);
                                }
                            }
                        }
                    }
                }
            }
        },
        VariableThingAnyNode::Relation(node) => {
            if let Some(text) = node.var {
                lemma_variable_well_formed(text@);
            }
            lemma_relation_well_formed(node.relation@);
            if let Ok(owner) = owner_of(node.var, hidden) {
                if let Ok(relation) = relation_of(node.relation@) {
                    lemma_with_isa_well_formed(
                        owner.into_thing().constrain_relation(relation),
                        node.isa,
                    );
                }
            }
        },
        VariableThingAnyNode::Attribute(node) => {
            if let Some(text) = node.var {
                lemma_variable_well_formed(text@);
            }
            lemma_predicate_well_formed(node.predicate);
            if let Ok(owner) = owner_of(node.var, hidden) {
                if let Ok(predicate) = predicate_of(node.predicate) {
                    lemma_with_isa_well_formed(
                        owner.into_thing().constrain_value(predicate),
                        node.isa,
                    );
                }
            }
        },
        VariableThingAnyNode::Unrecognized { text } => {},
    }
}

/// A clause keeps a type variable well formed.
pub proof fn lemma_type_constraint_well_formed(var: TypeVariableView, node: TypeConstraintNode)
    requires
        var.well_formed(),
    ensures
        type_constraint_of(var, node) matches Ok(var) ==> var.well_formed(),
{
    match node {
        TypeConstraintNode::Sub(supertype) => lemma_type_any_well_formed(supertype),
        TypeConstraintNode::Owns { owned, overridden, is_key } => {
            lemma_type_well_formed(owned);
            if let Ok(constrained) = type_constraint_of(var, node) {
                assert forall|i: int| 0 <= i < constrained.owns.len() implies (
                #[trigger] constrained.owns[i]).attribute_type.well_formed() by {
                    if i < var.owns.len() {
                        assert(constrained.owns[i] == var.owns[i]);
                    }
                }
            }
        },
        TypeConstraintNode::Relates { role, overridden } => {
            lemma_type_well_formed(role);
            if let Ok(constrained) = type_constraint_of(var, node) {
                assert forall|i: int| 0 <= i < constrained.relates.len() implies (
                #[trigger] constrained.relates[i]).well_formed() by {
                    if i < var.relates.len() {
                        assert(constrained.relates[i] == var.relates[i]);
                    }
                }
            }
        },
        TypeConstraintNode::Plays { role, overridden } => {
            lemma_type_scoped_well_formed(role);
            if let Ok(constrained) = type_constraint_of(var, node) {
                assert forall|i: int| 0 <= i < constrained.plays.len() implies (
                #[trigger] constrained.plays[i]).well_formed() by {
                    if i < var.plays.len() {
                        assert(constrained.plays[i] == var.plays[i]);
                    }
                }
            }
        },
        TypeConstraintNode::Type(label) => {
            if let LabelAnyNode::Scoped(text) = label {
                lemma_scoped_label(text@);
            }
        },
        _ => {},
    }
}

/// A list of clauses keeps a type variable well formed.
pub proof fn lemma_type_constraints_well_formed(
    var: TypeVariableView,
    nodes: Seq<TypeConstraintNode>,
)
    requires
        var.well_formed(),
    ensures
        type_constraints_of(var, nodes) matches Ok(var) ==> var.well_formed(),
    decreases nodes.len(),
{
    if nodes.len() > 0 {
        lemma_type_constraints_well_formed(var, nodes.drop_last());
        if let Ok(front) = type_constraints_of(var, nodes.drop_last()) {
            lemma_type_constraint_well_formed(front, nodes.last());
        }
    }
}

/// A type variable that is assembled is well formed.
pub proof fn lemma_type_variable_well_formed(node: VariableTypeNode, hidden: nat)
    ensures
        type_variable_of(node, hidden) matches Ok(var) ==> var.well_formed(),
{
    lemma_type_any_well_formed(node.head);
    if let Ok(head) = type_head_of(node.head, hidden) {
        lemma_type_constraints_well_formed(head, node.constraints@);
    }
}

/// A variable that is assembled is well formed.
pub proof fn lemma_pattern_variable_well_formed(node: PatternVariableNode, hidden: nat)
    ensures
        pattern_variable_of(node, hidden) matches Ok(var) ==> var.well_formed(),
{
    match node {
        PatternVariableNode::ThingAny(node) => lemma_thing_any_well_formed(node, hidden),
        PatternVariableNode::Type(node) => lemma_type_variable_well_formed(node, hidden),
        _ => {},
    }
}

/// A pattern that is assembled is well formed.
pub proof fn lemma_pattern_well_formed(node: PatternNode, hidden: nat)
    ensures
        pattern_of(node, hidden) matches Ok(pattern) ==> pattern.well_formed(),
{
    if let PatternNode::Variable(node) = node {
        lemma_pattern_variable_well_formed(node, hidden);
    }
}

/// The variable that a pattern is about.
pub open spec fn pattern_reference(pattern: PatternView) -> UnboundVariableView {
    match pattern {
        PatternView::Variable(VariableView::Thing(var)) => var.reference,
        PatternView::Variable(VariableView::Type(var)) => var.reference,
    }
}

/// A pattern is about a hidden variable only where the walk made one for it,
/// and then about the one that it was given.
pub proof fn lemma_pattern_hidden(node: PatternNode, hidden: nat)
    ensures
        pattern_of(node, hidden) matches Ok(pattern) ==> (pattern_reference(pattern)
            matches UnboundVariableView::Hidden(id) ==> id == hidden),
{
    if let PatternNode::Variable(node) = node {
        match node {
            PatternVariableNode::ThingAny(node) => {
                match node {
                    VariableThingAnyNode::Thing(node) => {
                        if let Ok(reference) = variable_of(node.var@) {
                            let named = with_iid(reference.into_thing(), node.iid);
                            assert(named.reference == reference);
                        }
                    },
                    _ => {},
                }
            },
            PatternVariableNode::Type(node) => {
                if let Ok(head) = type_head_of(node.head, hidden) {
                    lemma_type_constraints_reference(head, node.constraints@);
                }
            },
            _ => {},
        }
    }
}

/// Clauses do not change which variable they constrain.
pub proof fn lemma_type_constraints_reference(var: TypeVariableView, nodes: Seq<TypeConstraintNode>)
    ensures
        type_constraints_of(var, nodes) matches Ok(constrained) ==> constrained.reference
            == var.reference,
    decreases nodes.len(),
{
    if nodes.len() > 0 {
        lemma_type_constraints_reference(var, nodes.drop_last());
    }
}

/// The patterns of a list are as many as are written and stand in the order of
/// the source; each is well formed; and the hidden variable of the pattern at
/// index `i` is the one numbered `i`, so that no two patterns of a list share a
/// hidden variable.
pub proof fn lemma_patterns(nodes: Seq<PatternNode>, depth: nat)
    ensures
        patterns_of(nodes, depth) matches Ok(patterns) ==> {
            &&& patterns.len() == nodes.len()
            &&& forall|i: int|
                0 <= i < nodes.len() ==> {
                    &&& pattern_of(nodes[i], i as nat) == Ok::<_, ErrorView>(#[trigger] patterns[i])
                    &&& patterns[i].well_formed()
                    &&& (pattern_reference(patterns[i]) matches UnboundVariableView::Hidden(id)
                        ==> id == i)
                }
        },
        depth >= MAX_NESTING_DEPTH ==> patterns_of(nodes, depth) == Err::<
            Seq<PatternView>,
            ErrorView,
        >(ErrorView::TooDeeplyNested),
{
    if let Ok(patterns) = patterns_of(nodes, depth) {
        let results = pattern_results(nodes);
        lemma_all_or_first_error_ok(results);
        assert forall|i: int| 0 <= i < nodes.len() implies {
            &&& pattern_of(nodes[i], i as nat) == Ok::<_, ErrorView>(#[trigger] patterns[i])
            &&& patterns[i].well_formed()
            &&& (pattern_reference(patterns[i]) matches UnboundVariableView::Hidden(id) ==> id == i)
        } by {
            assert(results[i] == pattern_of(nodes[i], i as nat));
            lemma_pattern_hidden(nodes[i], i as nat);
            lemma_pattern_well_formed(nodes[i], i as nat);
        }
    }
}

/// The variables of a filter are those that are written, in their order, and
/// each is well formed.
pub proof fn lemma_filter(tokens: Seq<String>)
    ensures
        filter_of(tokens) matches Ok(vars) ==> vars.len() == tokens.len() && forall|i: int|
            0 <= i < tokens.len() ==> variable_of(tokens[i]@) == Ok::<_, ErrorView>(
                #[trigger] vars[i],
            ) && vars[i].well_formed(),
{
    let results = variable_results(tokens);
    lemma_all_or_first_error_ok(results);
    if let Ok(vars) = filter_of(tokens) {
        assert forall|i: int| 0 <= i < tokens.len() implies variable_of(tokens[i]@) == Ok::<
            _,
            ErrorView,
        >(#[trigger] vars[i]) && vars[i].well_formed() by {
            assert(results[i] == variable_of(tokens[i]@));
            lemma_variable_well_formed(tokens[i]@);
        }
    }
}

/// The variables of a sorting are those that are written, in their order, and
/// each is well formed.
pub proof fn lemma_sorting(nodes: Seq<VarOrderNode>)
    ensures
        sorting_of(nodes) matches Ok(sorting) ==> sorting.well_formed() && sorting.vars.len()
            == nodes.len() && forall|i: int|
            0 <= i < nodes.len() ==> var_order_of(nodes[i]) == Ok::<_, ErrorView>(
                #[trigger] sorting.vars[i],
            ),
{
    let results = var_order_results(nodes);
    lemma_all_or_first_error_ok(results);
    if let Ok(sorting) = sorting_of(nodes) {
        assert forall|i: int| 0 <= i < nodes.len() implies var_order_of(nodes[i]) == Ok::<
            _,
            ErrorView,
        >(#[trigger] sorting.vars[i]) && sorting.vars[i].var.well_formed() by {
            assert(results[i] == var_order_of(nodes[i]));
            lemma_variable_well_formed(nodes[i].var@);
        }
    }
}

/// The modifiers of a match query apply in one order, whatever the order in
/// which the source writes them: the filter, the sorting, the limit, then the
/// offset. So the report of a match query whose patterns are sound is that of
/// the first modifier in this order that fails; and where none fails, the
/// query holds each modifier that is written and no other.
pub proof fn lemma_modifiers_order(query: MatchQueryView, modifiers: ModifiersNode)
    ensures
        with_filter(query, modifiers.filter) matches Err(error) ==> with_modifiers(query, modifiers)
            == Err::<MatchQueryView, ErrorView>(error),
        with_filter(query, modifiers.filter) is Ok ==> (with_sort(query, modifiers.sort)
            matches Err(error) ==> with_modifiers(query, modifiers) == Err::<
            MatchQueryView,
            ErrorView,
        >(error)),
        with_filter(query, modifiers.filter) is Ok && with_sort(query, modifiers.sort) is Ok ==> (
        with_limit(query, modifiers.limit) matches Err(error) ==> with_modifiers(query, modifiers)
            == Err::<MatchQueryView, ErrorView>(error)),
        with_filter(query, modifiers.filter) is Ok && with_sort(query, modifiers.sort) is Ok
            && with_limit(query, modifiers.limit) is Ok ==> (with_offset(query, modifiers.offset)
            matches Err(error) ==> with_modifiers(query, modifiers) == Err::<
            MatchQueryView,
            ErrorView,
        >(error)),
        with_modifiers(query, modifiers) matches Ok(modified) ==> {
            &&& modified.patterns == query.patterns
            &&& modified.filter == (match modifiers.filter {
                Some(tokens) => Some(filter_of(tokens@)->Ok_0),
                None => query.filter,
            })
            &&& modified.sorting == (match modifiers.sort {
                Some(nodes) => Some(sorting_of(nodes@)->Ok_0),
                None => query.sorting,
            })
            &&& modified.limit == (match modifiers.limit {
                Some(token) => Some(count_of(token@)->Ok_0),
                None => query.limit,
            })
            &&& modified.offset == (match modifiers.offset {
                Some(token) => Some(count_of(token@)->Ok_0),
                None => query.offset,
            })
        },
{
}

/// A match query that is assembled is well formed and holds the patterns of
/// its list.
pub proof fn lemma_match_query_well_formed(node: QueryMatchNode)
    ensures
        match_query_of(node) matches Ok(query) ==> query.well_formed() && patterns_of(
            node.patterns@,
            0,
        ) == Ok::<_, ErrorView>(query.patterns),
        patterns_of(node.patterns@, 0) matches Err(error) ==> match_query_of(node) == Err::<
            MatchQueryView,
            ErrorView,
        >(error),
{
    lemma_patterns(node.patterns@, 0);
    if let Ok(patterns) = patterns_of(node.patterns@, 0) {
        let query = MatchQueryView::new(patterns);
        if let Some(modifiers) = node.modifiers {
            lemma_modifiers_order(query, modifiers);
            if let Some(tokens) = modifiers.filter {
                lemma_filter(tokens@);
            }
            if let Some(nodes) = modifiers.sort {
                lemma_sorting(nodes@);
            }
        }
    }
}

/// A query that is assembled is well formed: every name of a variable in it is
/// neither empty nor the underscore, and every scoped label in it has a scope
/// and a name that are not empty and hold no colon.
pub proof fn lemma_query_well_formed(node: QueryNode)
    ensures
        query_of(node) matches Ok(query) ==> query.well_formed(),
{
    if let QueryNode::Match(node) = node {
        lemma_match_query_well_formed(node);
    }
}

/// Decoding reads nothing but the characters of the token: two tokens of the
/// same characters decode to the same value, or fail with the same report.
pub proof fn lemma_decoding_is_deterministic(first: Seq<char>, second: Seq<char>)
    requires
        first =~= second,
    ensures
        string_of(first) == string_of(second),
        regex_of(first) == regex_of(second),
        long_of(first) == long_of(second),
        count_of(first) == count_of(second),
        date_of(first) == date_of(second),
        date_time_of(first) == date_time_of(second),
        variable_of(first) == variable_of(second),
        comparator_of(first) == comparator_of(second),
{
}

/// A decoder that fails reports the very text that it was given.
pub proof fn lemma_decoding_reports_the_text(text: Seq<char>)
    ensures
        string_of(text) is Err ==> string_of(text) == Err::<Seq<char>, ErrorView>(
            illegal_grammar(text),
        ),
        long_of(text) matches Err(error) ==> error == illegal_grammar(text),
        count_of(text) matches Err(error) ==> error == illegal_grammar(text),
        date_of(text) matches Err(error) ==> error == illegal_grammar(text),
        date_time_of(text) matches Err(error) ==> error == illegal_grammar(text),
        variable_of(text) matches Err(error) ==> error == illegal_grammar(text),
        comparator_of(text) matches Err(error) ==> error == illegal_grammar(text),
{
}

/// A text without an escaped slash is its own unescaped form.
pub proof fn lemma_unescaped_without_escape(text: Seq<char>)
    requires
        !has_escaped_slash(text),
    ensures
        unescaped(text) == text,
    decreases text.len(),
{
    if text.len() > 0 {
        if text.len() >= 2 && text[0] == '\\' && text[1] == '/' {
            assert(text[0int + 1] == '/');
        }
        let rest = text.skip(1);
        assert(!has_escaped_slash(rest)) by {
            if has_escaped_slash(rest) {
                let i = choose|i: int|
                    0 <= i && i + 1 < rest.len() && rest[i] == '\\' && #[trigger] rest[i + 1]
                        == '/';
                assert(text[i + 1] == '\\');
                assert(text[(i + 1) + 1] == '/');
            }
        }
        lemma_unescaped_without_escape(rest);
        assert(seq![text[0]] + rest =~= text);
    }
}

/// Unescaping goes through a text piece by piece: an escaped slash between two
/// pieces becomes a slash, and the pieces are unescaped each on its own.
pub proof fn lemma_unescaped_concat(before: Seq<char>, after: Seq<char>)
    ensures
        unescaped(before + seq!['\\', '/'] + after) == unescaped(before) + seq!['/'] + unescaped(
            after,
        ),
    decreases before.len(),
{
    let text = before + seq!['\\', '/'] + after;
    if before.len() == 0 {
        assert(text.skip(2) =~= after);
        assert(text[0] == '\\' && text[1] == '/');
        assert(unescaped(before) + seq!['/'] + unescaped(after) =~= seq!['/'] + unescaped(after));
    } else if before.len() >= 2 && before[0] == '\\' && before[1] == '/' {
        let rest = before.skip(2);
        assert(text[0] == before[0] && text[1] == before[1]);
        assert(text.skip(2) =~= rest + seq!['\\', '/'] + after);
        lemma_unescaped_concat(rest, after);
        assert(seq!['/'] + (unescaped(rest) + seq!['/'] + unescaped(after)) =~= (seq!['/']
            + unescaped(rest)) + seq!['/'] + unescaped(after));
    } else {
        let rest = before.skip(1);
        assert(text[0] == before[0]);
        if before.len() >= 2 {
            assert(text[1] == before[1]);
        } else {
            assert(text[1] == '\\');
        }
        assert(text.skip(1) =~= rest + seq!['\\', '/'] + after);
        lemma_unescaped_concat(rest, after);
        assert(seq![text[0]] + (unescaped(rest) + seq!['/'] + unescaped(after)) =~= (seq![
            before[0],
        ] + unescaped(rest)) + seq!['/'] + unescaped(after));
    }
}

/// Ten to the power of `n`.
pub open spec fn power_of_ten(n: nat) -> nat
    decreases n,
{
    if n == 0 {
        1
    } else {
        10 * power_of_ten((n - 1) as nat)
    }
}

/// A run of `n` digits denotes a number below ten to the power of `n`.
pub proof fn lemma_digits_value_bound(text: Seq<char>)
    requires
        all_digits(text),
    ensures
        digits_value(text) < power_of_ten(text.len()),
    decreases text.len(),
{
    if text.len() > 0 {
        let front = text.drop_last();
        assert forall|i: int| 0 <= i < front.len() implies is_digit(#[trigger] front[i]) by {
            assert(front[i] == text[i]);
        }
        lemma_digits_value_bound(front);
        assert(is_digit(text[text.len() - 1]));
        assert(digit_value(text.last()) <= 9);
    }
}

/// The nanoseconds that a fraction denotes stay below one second, so they can
/// replace the nanoseconds of any date-time.
pub proof fn lemma_nanoseconds_bound(fraction: Seq<char>, date_time: DateTime)
    ensures
        nanoseconds_of(fraction) matches Some(nanosecond) ==> {
            &&& nanosecond < 1_000_000_000
            &&& nanosecond < NANOSECOND_BOUND
            &&& date_time.with_nanosecond_spec(nanosecond) is Some
        },
{
    if let Some(nanosecond) = nanoseconds_of(fraction) {
        let padded = padded_fraction(fraction);
        assert(padded.len() == 9);
        let digits = if padded[0] == '+' {
            padded.skip(1)
        } else {
            padded
        };
        lemma_digits_value_bound(digits);
        assert(power_of_ten(8) == 100_000_000 && power_of_ten(9) == 1_000_000_000) by {
            reveal_with_fuel(power_of_ten, 10);
        }
    }
}

/// A date stands for the first instant of its day.
pub proof fn lemma_date_value_at_midnight(node: ValueNode)
    requires
        node is Date,
    ensures
        value_of(node) matches Ok(value) ==> {
            &&& value matches ValueView::DateTime(date_time)
            &&& date_of(node->Date_0@) == Ok::<_, ErrorView>(date_time.date_spec())
            &&& date_time.hour == 0
            &&& date_time.minute == 0
            &&& date_time.second == 0
            &&& date_time.nanosecond == 0
        },
{
}

/// Adding a list of ownerships is adding them one after the other.
pub proof fn lemma_with_has_push(
    var: ThingVariableView,
    has: Seq<HasConstraintView>,
    last: HasConstraintView,
)
    ensures
        with_has(var, Seq::empty()) == var,
        with_has(var, has.push(last)) == with_has(var, has).constrain_has(last),
{
    assert(var.has + Seq::<HasConstraintView>::empty() =~= var.has);
    assert(var.has + has.push(last) =~= (var.has + has).push(last));
}

/// Whether `longer` starts with all of `shorter`.
pub open spec fn starts_with<T>(longer: Seq<T>, shorter: Seq<T>) -> bool {
    shorter.len() <= longer.len() && forall|i: int|
        0 <= i < shorter.len() ==> longer[i] == shorter[i]
}

/// Clauses add to a type variable and take nothing away: the variable stays
/// the same, and what it owns, plays and relates stays at the front of what it
/// owns, plays and relates afterwards.
pub proof fn lemma_type_constraints_add(var: TypeVariableView, nodes: Seq<TypeConstraintNode>)
    ensures
        type_constraints_of(var, nodes) matches Ok(constrained) ==> {
            &&& constrained.reference == var.reference
            &&& starts_with(constrained.owns, var.owns)
            &&& starts_with(constrained.plays, var.plays)
            &&& starts_with(constrained.relates, var.relates)
            &&& constrained.owns.len() + constrained.plays.len() + constrained.relates.len()
                <= var.owns.len() + var.plays.len() + var.relates.len() + nodes.len()
        },
    decreases nodes.len(),
{
    if nodes.len() > 0 {
        lemma_type_constraints_add(var, nodes.drop_last());
    }
}

} // verus!
