//! Queries, and the modifiers that shape what a match query returns.

use crate::pattern::{Pattern, PatternView, UnboundVariable, UnboundVariableView};
use vstd::prelude::*;

verus! {

/// A variable to sort by, with the direction as the source writes it.
#[derive(Debug, Clone, PartialEq, Eq)]
pub struct OrderedVariable {
    pub var: UnboundVariable,
    pub order: Option<String>,
}

/// An `OrderedVariable` as a mathematical value.
pub struct OrderedVariableView {
    pub var: UnboundVariableView,
    pub order: Option<Seq<char>>,
}

impl DeepView for OrderedVariable {
    type V = OrderedVariableView;

    open spec fn deep_view(&self) -> OrderedVariableView {
        OrderedVariableView { var: self.var.deep_view(), order: self.order.deep_view() }
    }
}

/// The variables that a match query sorts its answers by, most significant
/// first.
#[derive(Debug, Clone, PartialEq, Eq)]
pub struct Sorting {
    pub vars: Vec<OrderedVariable>,
}

/// A `Sorting` as a mathematical value.
pub struct SortingView {
    pub vars: Seq<OrderedVariableView>,
}

impl DeepView for Sorting {
    type V = SortingView;

    open spec fn deep_view(&self) -> SortingView {
        SortingView { vars: self.vars.deep_view() }
    }
}

impl SortingView {
    /// Every variable to sort by is well formed.
    pub open spec fn well_formed(self) -> bool {
        forall|i: int| 0 <= i < self.vars.len() ==> (#[trigger] self.vars[i]).var.well_formed()
    }
}

impl Sorting {
    /// The sorting by `vars`, most significant first.
    pub fn new(vars: Vec<OrderedVariable>) -> (sorting: Sorting)
        ensures
            sorting.deep_view() == (SortingView { vars: vars.deep_view() }),
    {
        Sorting { vars }
    }
}

/// A query that matches patterns. Each modifier is `None` until it is set.
#[derive(Debug, Clone, PartialEq, Eq)]
pub struct MatchQuery {
    pub patterns: Vec<Pattern>,
    pub filter: Option<Vec<UnboundVariable>>,
    pub sorting: Option<Sorting>,
    pub limit: Option<u64>,
    pub offset: Option<u64>,
}

/// A `MatchQuery` as a mathematical value.
pub struct MatchQueryView {
    pub patterns: Seq<PatternView>,
    pub filter: Option<Seq<UnboundVariableView>>,
    pub sorting: Option<SortingView>,
    pub limit: Option<u64>,
    pub offset: Option<u64>,
}

impl DeepView for MatchQuery {
    type V = MatchQueryView;

    open spec fn deep_view(&self) -> MatchQueryView {
        MatchQueryView {
            patterns: self.patterns.deep_view(),
            filter: self.filter.deep_view(),
            sorting: self.sorting.deep_view(),
            limit: self.limit,
            offset: self.offset,
        }
    }
}

impl MatchQueryView {
    /// The query that matches `patterns`, without modifiers.
    pub open spec fn new(patterns: Seq<PatternView>) -> MatchQueryView {
        MatchQueryView { patterns, filter: None, sorting: None, limit: None, offset: None }
    }

    /// The query with its filter set to `vars`.
    pub open spec fn filter(self, vars: Seq<UnboundVariableView>) -> MatchQueryView {
        MatchQueryView { filter: Some(vars), ..self }
    }

    /// The query with its sorting set to `sorting`.
    pub open spec fn sort(self, sorting: SortingView) -> MatchQueryView {
        MatchQueryView { sorting: Some(sorting), ..self }
    }

    /// The query with its limit set to `limit`.
    pub open spec fn limit(self, limit: u64) -> MatchQueryView {
        MatchQueryView { limit: Some(limit), ..self }
    }

    /// The query with its offset set to `offset`.
    pub open spec fn offset(self, offset: u64) -> MatchQueryView {
        MatchQueryView { offset: Some(offset), ..self }
    }

    /// Every pattern and every variable of the filter and of the sorting is well
    /// formed.
    pub open spec fn well_formed(self) -> bool {
        &&& forall|i: int|
            0 <= i < self.patterns.len() ==> (#[trigger] self.patterns[i]).well_formed()
        &&& self.filter matches Some(vars) ==> forall|i: int|
            0 <= i < vars.len() ==> (#[trigger] vars[i]).well_formed()
        &&& self.sorting matches Some(sorting) ==> sorting.well_formed()
    }
}

impl MatchQuery {
    /// The query that matches `patterns`, without modifiers.
    pub fn new(patterns: Vec<Pattern>) -> (query: MatchQuery)
        ensures
            query.deep_view() == MatchQueryView::new(patterns.deep_view()),
    {
        MatchQuery { patterns, filter: None, sorting: None, limit: None, offset: None }
    }

    /// Restricts the answers to `vars`, which are kept as given: in their
    /// order, and with what occurs twice.
    pub fn filter(self, vars: Vec<UnboundVariable>) -> (query: MatchQuery)
        ensures
            query.deep_view() == self.deep_view().filter(vars.deep_view()),
    {
        let mut query = self;
        query.filter = Some(vars);
        query
    }

    /// Sorts the answers.
    pub fn sort(self, sorting: Sorting) -> (query: MatchQuery)
        ensures
            query.deep_view() == self.deep_view().sort(sorting.deep_view()),
    {
        let mut query = self;
        query.sorting = Some(sorting);
        query
    }

    /// Returns `limit` answers at most.
    pub fn limit(self, limit: u64) -> (query: MatchQuery)
        ensures
            query.deep_view() == self.deep_view().limit(limit),
    {
        let mut query = self;
        query.limit = Some(limit);
        query
    }

    /// Leaves out the first `offset` answers.
    pub fn offset(self, offset: u64) -> (query: MatchQuery)
        ensures
            query.deep_view() == self.deep_view().offset(offset),
    {
        let mut query = self;
        query.offset = Some(offset);
        query
    }

    /// The query as one of the kinds of query.
    pub fn into_query(self) -> (query: Query)
        ensures
            query.deep_view() == QueryView::Match(self.deep_view()),
    {
        Query::Match(self)
    }
}

/// A complete request: for now, a match query.
#[derive(Debug, Clone, PartialEq, Eq)]
pub enum Query {
    Match(MatchQuery),
}

/// A `Query` as a mathematical value.
pub enum QueryView {
    Match(MatchQueryView),
}

impl DeepView for Query {
    type V = QueryView;

    open spec fn deep_view(&self) -> QueryView {
        match self {
            Query::Match(query) => QueryView::Match(query.deep_view()),
        }
    }
}

impl QueryView {
    /// The query is well formed as a query of its kind.
    pub open spec fn well_formed(self) -> bool {
        match self {
            QueryView::Match(query) => query.well_formed(),
        }
    }
}

} // verus!
