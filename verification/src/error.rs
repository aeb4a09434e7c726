//! The errors that a walk over a parse tree can end in.

use vstd::prelude::*;
use vstd::string::*;

verus! {

/// A construct that the grammar recognises and that has no meaning assigned
/// yet.
#[derive(Debug, Clone, Copy, PartialEq, Eq)]
pub enum Construct {
    Define,
    Undefine,
    Insert,
    DeleteOrUpdate,
    MatchAggregate,
    MatchGroup,
    MatchGroupAggregate,
    Definable,
    SchemaRule,
    Conjunction,
    Disjunction,
    Negation,
    ConceptVariable,
    AbstractConstraint,
    ValueTypeConstraint,
    OwnsOverride,
    PlaysOverride,
    RelatesOverride,
    RelationAttributes,
    AttributeAttributes,
    HasVariable,
    LiteralComparison,
    SubstringPredicate,
    BooleanValue,
    LongValue,
    DoubleValue,
}

impl Construct {
    /// The words by which a message names the construct.
    pub open spec fn name_text(self) -> Seq<char> {
        match self {
            Construct::Define => "define query"@,
            Construct::Undefine => "undefine query"@,
            Construct::Insert => "insert query"@,
            Construct::DeleteOrUpdate => "delete or update query"@,
            Construct::MatchAggregate => "match aggregate query"@,
            Construct::MatchGroup => "match group query"@,
            Construct::MatchGroupAggregate => "match group aggregate query"@,
            Construct::Definable => "definable"@,
            Construct::SchemaRule => "schema rule"@,
            Construct::Conjunction => "pattern conjunction"@,
            Construct::Disjunction => "pattern disjunction"@,
            Construct::Negation => "pattern negation"@,
            Construct::ConceptVariable => "concept variable"@,
            Construct::AbstractConstraint => "abstract constraint"@,
            Construct::ValueTypeConstraint => "value type constraint"@,
            Construct::OwnsOverride => "override of an owns constraint"@,
            Construct::PlaysOverride => "override of a plays constraint"@,
            Construct::RelatesOverride => "override of a relates constraint"@,
            Construct::RelationAttributes => "attribute ownership on a relation variable"@,
            Construct::AttributeAttributes => "attribute ownership on an attribute variable"@,
            Construct::HasVariable => "attribute ownership by variable alone"@,
            Construct::LiteralComparison => "comparison with a literal value"@,
            Construct::SubstringPredicate => "substring predicate"@,
            Construct::BooleanValue => "boolean value"@,
            Construct::LongValue => "long value"@,
            Construct::DoubleValue => "double value"@,
        }
    }

    /// The words by which a message names the construct.
    pub fn name(&self) -> (name: &'static str)
        ensures
            name@ == self.name_text(),
    {
        match self {
            Construct::Define => "define query",
            Construct::Undefine => "undefine query",
            Construct::Insert => "insert query",
            Construct::DeleteOrUpdate => "delete or update query",
            Construct::MatchAggregate => "match aggregate query",
            Construct::MatchGroup => "match group query",
            Construct::MatchGroupAggregate => "match group aggregate query",
            Construct::Definable => "definable",
            Construct::SchemaRule => "schema rule",
            Construct::Conjunction => "pattern conjunction",
            Construct::Disjunction => "pattern disjunction",
            Construct::Negation => "pattern negation",
            Construct::ConceptVariable => "concept variable",
            Construct::AbstractConstraint => "abstract constraint",
            Construct::ValueTypeConstraint => "value type constraint",
            Construct::OwnsOverride => "override of an owns constraint",
            Construct::PlaysOverride => "override of a plays constraint",
            Construct::RelatesOverride => "override of a relates constraint",
            Construct::RelationAttributes => "attribute ownership on a relation variable",
            Construct::AttributeAttributes => "attribute ownership on an attribute variable",
            Construct::HasVariable => "attribute ownership by variable alone",
            Construct::LiteralComparison => "comparison with a literal value",
            Construct::SubstringPredicate => "substring predicate",
            Construct::BooleanValue => "boolean value",
            Construct::LongValue => "long value",
            Construct::DoubleValue => "double value",
        }
    }
}

/// Why a walk over a parse tree stopped.
#[derive(Debug, Clone, PartialEq, Eq)]
pub enum Error {
    /// The tree, or the text of one of its tokens, breaks a rule of the
    /// language; `text` is the source text of the offending part.
    IllegalGrammar { text: String },
    /// The tree holds a construct that has no meaning assigned yet.
    Unsupported { construct: Construct },
    /// A pattern list lies deeper than `MAX_NESTING_DEPTH` blocks allow.
    TooDeeplyNested,
}

/// An `Error` as a mathematical value.
pub enum ErrorView {
    IllegalGrammar { text: Seq<char> },
    Unsupported { construct: Construct },
    TooDeeplyNested,
}

impl DeepView for Error {
    type V = ErrorView;

    open spec fn deep_view(&self) -> ErrorView {
        match self {
            Error::IllegalGrammar { text } => ErrorView::IllegalGrammar { text: text@ },
            Error::Unsupported { construct } => ErrorView::Unsupported { construct: *construct },
            Error::TooDeeplyNested => ErrorView::TooDeeplyNested,
        }
    }
}

impl ErrorView {
    /// The message that reports the error.
    pub open spec fn message(self) -> Seq<char> {
        match self {
            ErrorView::IllegalGrammar { text } => "Illegal grammar: '"@ + text + "'"@,
            ErrorView::Unsupported { construct } => "Unsupported construct: "@
                + construct.name_text(),
            ErrorView::TooDeeplyNested => "Input too deeply nested"@,
        }
    }
}

/// The error for a part of the source that breaks a rule of the language.
pub open spec fn illegal_grammar(text: Seq<char>) -> ErrorView {
    ErrorView::IllegalGrammar { text }
}

/// The error for a construct that has no meaning assigned yet.
pub open spec fn unsupported(construct: Construct) -> ErrorView {
    ErrorView::Unsupported { construct }
}

/// A result as a mathematical value: the view of what it holds on either side.
pub open spec fn result_view<T: DeepView>(result: Result<T, Error>) -> Result<T::V, ErrorView> {
    match result {
        Ok(value) => Ok(value.deep_view()),
        Err(error) => Err(error.deep_view()),
    }
}

impl Error {
    /// The error for the source text `text`, which breaks a rule of the
    /// language.
    pub fn illegal_grammar(text: &str) -> (error: Error)
        ensures
            error.deep_view() == illegal_grammar(text@),
    {
        Error::IllegalGrammar { text: text.to_owned() }
    }

    /// The error for `construct`, which has no meaning assigned yet.
    pub fn unsupported(construct: Construct) -> (error: Error)
        ensures
            error.deep_view() == unsupported(construct),
    {
        Error::Unsupported { construct }
    }

    /// The message that reports the error, ready for display.
    pub fn message(&self) -> (message: String)
        ensures
            message@ == self.deep_view().message(),
    {
        match self {
            Error::IllegalGrammar { text } => {
                let mut message = String::from_str("Illegal grammar: '");
                message.append(text.as_str());
                message.append("'");
                message
            },
            Error::Unsupported { construct } => {
                let mut message = String::from_str("Unsupported construct: ");
                message.append(construct.name());
                message
            },
            Error::TooDeeplyNested => String::from_str("Input too deeply nested"),
        }
    }
}

} // verus!
