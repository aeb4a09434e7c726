//! Variables, labels and the constraints that a pattern attaches to a variable.
//!
//! Every type comes with a mathematical value, its `deep_view`, in which strings
//! are sequences of characters and vectors are sequences. A builder takes a
//! variable by value and returns it with one constraint more.

use crate::list::push_deep;
use crate::temporal::DateTime;
use vstd::prelude::*;

verus! {

/// A variable as it is written, before any constraint is attached.
#[derive(Debug, Clone, PartialEq, Eq)]
pub enum UnboundVariable {
    /// A variable with a name of its own.
    Named(String),
    /// The variable written as a lone underscore.
    Anonymous,
    /// A variable that the source does not write; `id` tells it from the other
    /// hidden variables of the same pattern list.
    Hidden(usize),
}

/// An `UnboundVariable` as a mathematical value.
pub enum UnboundVariableView {
    Named(Seq<char>),
    Anonymous,
    Hidden(nat),
}

impl DeepView for UnboundVariable {
    type V = UnboundVariableView;

    open spec fn deep_view(&self) -> UnboundVariableView {
        match self {
            UnboundVariable::Named(name) => UnboundVariableView::Named(name@),
            UnboundVariable::Anonymous => UnboundVariableView::Anonymous,
            UnboundVariable::Hidden(id) => UnboundVariableView::Hidden(*id as nat),
        }
    }
}

impl UnboundVariableView {
    /// A name is not empty and is not the underscore that stands for the
    /// anonymous variable.
    pub open spec fn well_formed(self) -> bool {
        self matches UnboundVariableView::Named(name) ==> name.len() > 0 && name != seq!['_']
    }

    /// The thing variable of this name without any constraint.
    pub open spec fn into_thing(self) -> ThingVariableView {
        ThingVariableView {
            reference: self,
            iid: None,
            isa: None,
            has: Seq::empty(),
            relation: None,
            value: None,
        }
    }

    /// The type variable of this name without any constraint.
    pub open spec fn into_type(self) -> TypeVariableView {
        TypeVariableView {
            reference: self,
            label: None,
            sub: None,
            owns: Seq::empty(),
            plays: Seq::empty(),
            relates: Seq::empty(),
            regex: None,
        }
    }
}

impl UnboundVariable {
    /// The variable with the name `name`.
    pub fn named(name: String) -> (var: UnboundVariable)
        ensures
            var.deep_view() == UnboundVariableView::Named(name@),
    {
        UnboundVariable::Named(name)
    }

    /// The anonymous variable.
    pub fn anonymous() -> (var: UnboundVariable)
        ensures
            var.deep_view() == UnboundVariableView::Anonymous,
    {
        UnboundVariable::Anonymous
    }

    /// The hidden variable numbered `id`.
    pub fn hidden(id: usize) -> (var: UnboundVariable)
        ensures
            var.deep_view() == UnboundVariableView::Hidden(id as nat),
    {
        UnboundVariable::Hidden(id)
    }

    /// The thing variable of this name without any constraint.
    pub fn into_thing(self) -> (var: ThingVariable)
        ensures
            var.deep_view() == self.deep_view().into_thing(),
    {
        let var = ThingVariable {
            reference: self,
            iid: None,
            isa: None,
            has: Vec::new(),
            relation: None,
            value: None,
        };
        assert(var.has.deep_view() =~= Seq::empty());
        var
    }

    /// The type variable of this name without any constraint.
    pub fn into_type(self) -> (var: TypeVariable)
        ensures
            var.deep_view() == self.deep_view().into_type(),
    {
        let var = TypeVariable {
            reference: self,
            label: None,
            sub: None,
            owns: Vec::new(),
            plays: Vec::new(),
            relates: Vec::new(),
            regex: None,
        };
        assert(var.owns.deep_view() =~= Seq::empty());
        assert(var.plays.deep_view() =~= Seq::empty());
        assert(var.relates.deep_view() =~= Seq::empty());
        var
    }
}

/// The name of a type, with the scope that qualifies it where it has one.
#[derive(Debug, Clone, PartialEq, Eq)]
pub struct Label {
    pub scope: Option<String>,
    pub name: String,
}

/// A `Label` as a mathematical value.
pub struct LabelView {
    pub scope: Option<Seq<char>>,
    pub name: Seq<char>,
}

impl DeepView for Label {
    type V = LabelView;

    open spec fn deep_view(&self) -> LabelView {
        LabelView { scope: self.scope.deep_view(), name: self.name@ }
    }
}

impl LabelView {
    /// The two parts of a scoped label are not empty and hold no colon.
    pub open spec fn well_formed(self) -> bool {
        self.scope matches Some(scope) ==> {
            &&& scope.len() > 0
            &&& self.name.len() > 0
            &&& !scope.contains(':')
            &&& !self.name.contains(':')
        }
    }
}

impl Label {
    /// The label `name` without a scope.
    pub fn simple(name: String) -> (label: Label)
        ensures
            label.deep_view() == (LabelView { scope: None, name: name@ }),
    {
        Label { scope: None, name }
    }

    /// The label `name` within `scope`.
    pub fn scoped(scope: String, name: String) -> (label: Label)
        ensures
            label.deep_view() == (LabelView { scope: Some(scope@), name: name@ }),
    {
        Label { scope: Some(scope), name }
    }
}

/// What stands where a type is expected: the type's label, or a variable.
#[derive(Debug, Clone, PartialEq, Eq)]
pub enum TypeReference {
    Label(Label),
    Variable(UnboundVariable),
}

/// A `TypeReference` as a mathematical value.
pub enum TypeReferenceView {
    Label(LabelView),
    Variable(UnboundVariableView),
}

impl DeepView for TypeReference {
    type V = TypeReferenceView;

    open spec fn deep_view(&self) -> TypeReferenceView {
        match self {
            TypeReference::Label(label) => TypeReferenceView::Label(label.deep_view()),
            TypeReference::Variable(var) => TypeReferenceView::Variable(var.deep_view()),
        }
    }
}

impl TypeReferenceView {
    /// A label is well formed as a label, a variable as a variable.
    pub open spec fn well_formed(self) -> bool {
        match self {
            TypeReferenceView::Label(label) => label.well_formed(),
            TypeReferenceView::Variable(var) => var.well_formed(),
        }
    }
}

/// The type may own attributes of `attribute_type`, as a key where `is_key`.
#[derive(Debug, Clone, PartialEq, Eq)]
pub struct OwnsConstraint {
    pub attribute_type: TypeReference,
    pub is_key: bool,
}

/// An `OwnsConstraint` as a mathematical value.
pub struct OwnsConstraintView {
    pub attribute_type: TypeReferenceView,
    pub is_key: bool,
}

impl DeepView for OwnsConstraint {
    type V = OwnsConstraintView;

    open spec fn deep_view(&self) -> OwnsConstraintView {
        OwnsConstraintView {
            attribute_type: self.attribute_type.deep_view(),
            is_key: self.is_key,
        }
    }
}

/// A variable that stands for a type, with the constraints on that type.
///
/// `owns`, `plays` and `relates` grow by one entry with every clause, in the
/// order of the clauses. `label`, `sub` and `regex` hold one value at most: a
/// later clause of the same kind replaces an earlier one.
#[derive(Debug, Clone, PartialEq, Eq)]
pub struct TypeVariable {
    pub reference: UnboundVariable,
    pub label: Option<Label>,
    pub sub: Option<TypeReference>,
    pub owns: Vec<OwnsConstraint>,
    pub plays: Vec<TypeReference>,
    pub relates: Vec<TypeReference>,
    pub regex: Option<String>,
}

/// A `TypeVariable` as a mathematical value.
pub struct TypeVariableView {
    pub reference: UnboundVariableView,
    pub label: Option<LabelView>,
    pub sub: Option<TypeReferenceView>,
    pub owns: Seq<OwnsConstraintView>,
    pub plays: Seq<TypeReferenceView>,
    pub relates: Seq<TypeReferenceView>,
    pub regex: Option<Seq<char>>,
}

impl DeepView for TypeVariable {
    type V = TypeVariableView;

    open spec fn deep_view(&self) -> TypeVariableView {
        TypeVariableView {
            reference: self.reference.deep_view(),
            label: self.label.deep_view(),
            sub: self.sub.deep_view(),
            owns: self.owns.deep_view(),
            plays: self.plays.deep_view(),
            relates: self.relates.deep_view(),
            regex: self.regex.deep_view(),
        }
    }
}

impl TypeVariableView {
    /// The variable and every label and variable in its constraints is well formed.
    pub open spec fn well_formed(self) -> bool {
        &&& self.reference.well_formed()
        &&& self.label matches Some(label) ==> label.well_formed()
        &&& self.sub matches Some(sub) ==> sub.well_formed()
        &&& forall|i: int|
            0 <= i < self.owns.len() ==> (#[trigger] self.owns[i]).attribute_type.well_formed()
        &&& forall|i: int| 0 <= i < self.plays.len() ==> (#[trigger] self.plays[i]).well_formed()
        &&& forall|i: int|
            0 <= i < self.relates.len() ==> (#[trigger] self.relates[i]).well_formed()
    }

    /// The variable with its own label set to `label`.
    pub open spec fn type_(self, label: LabelView) -> TypeVariableView {
        TypeVariableView { label: Some(label), ..self }
    }

    /// The variable with its supertype set to `sub`.
    pub open spec fn constrain_sub(self, sub: TypeReferenceView) -> TypeVariableView {
        TypeVariableView { sub: Some(sub), ..self }
    }

    /// The variable with `owns` behind what it owns already.
    pub open spec fn constrain_owns(self, owns: OwnsConstraintView) -> TypeVariableView {
        TypeVariableView { owns: self.owns.push(owns), ..self }
    }

    /// The variable with `plays` behind what it plays already.
    pub open spec fn constrain_plays(self, plays: TypeReferenceView) -> TypeVariableView {
        TypeVariableView { plays: self.plays.push(plays), ..self }
    }

    /// The variable with `relates` behind what it relates already.
    pub open spec fn constrain_relates(self, relates: TypeReferenceView) -> TypeVariableView {
        TypeVariableView { relates: self.relates.push(relates), ..self }
    }

    /// The variable with its regular expression set to `regex`.
    pub open spec fn regex(self, regex: Seq<char>) -> TypeVariableView {
        TypeVariableView { regex: Some(regex), ..self }
    }
}

impl TypeVariable {
    /// Sets the label of the type itself.
    pub fn type_(self, label: Label) -> (var: TypeVariable)
        ensures
            var.deep_view() == self.deep_view().type_(label.deep_view()),
    {
        let mut var = self;
        var.label = Some(label);
        var
    }

    /// Sets the supertype.
    pub fn constrain_sub(self, sub: TypeReference) -> (var: TypeVariable)
        ensures
            var.deep_view() == self.deep_view().constrain_sub(sub.deep_view()),
    {
        let mut var = self;
        var.sub = Some(sub);
        var
    }

    /// Adds an attribute type that the type may own.
    pub fn constrain_owns(self, owns: OwnsConstraint) -> (var: TypeVariable)
        ensures
            var.deep_view() == self.deep_view().constrain_owns(owns.deep_view()),
    {
        let mut var = self;
        push_deep(&mut var.owns, owns);
        var
    }

    /// Adds a role that the type may play.
    pub fn constrain_plays(self, plays: TypeReference) -> (var: TypeVariable)
        ensures
            var.deep_view() == self.deep_view().constrain_plays(plays.deep_view()),
    {
        let mut var = self;
        push_deep(&mut var.plays, plays);
        var
    }

    /// Adds a role that the type relates.
    pub fn constrain_relates(self, relates: TypeReference) -> (var: TypeVariable)
        ensures
            var.deep_view() == self.deep_view().constrain_relates(relates.deep_view()),
    {
        let mut var = self;
        push_deep(&mut var.relates, relates);
        var
    }

    /// Sets the regular expression that values of the type must match.
    pub fn regex(self, regex: String) -> (var: TypeVariable)
        ensures
            var.deep_view() == self.deep_view().regex(regex@),
    {
        let mut var = self;
        var.regex = Some(regex);
        var
    }

    /// The variable as one of the two kinds of variable.
    pub fn into_variable(self) -> (var: Variable)
        ensures
            var.deep_view() == VariableView::Type(self.deep_view()),
    {
        Variable::Type(self)
    }
}

/// A literal, or a variable standing for a value.
#[derive(Debug, Clone, PartialEq, Eq)]
pub enum Value {
    String(String),
    Long(i64),
    DateTime(DateTime),
    Variable(UnboundVariable),
}

/// A `Value` as a mathematical value.
pub enum ValueView {
    String(Seq<char>),
    Long(int),
    DateTime(DateTime),
    Variable(UnboundVariableView),
}

impl DeepView for Value {
    type V = ValueView;

    open spec fn deep_view(&self) -> ValueView {
        match self {
            Value::String(text) => ValueView::String(text@),
            Value::Long(number) => ValueView::Long(*number as int),
            Value::DateTime(date_time) => ValueView::DateTime(*date_time),
            Value::Variable(var) => ValueView::Variable(var.deep_view()),
        }
    }
}

impl ValueView {
    /// A variable that stands for a value is well formed.
    pub open spec fn well_formed(self) -> bool {
        self matches ValueView::Variable(var) ==> var.well_formed()
    }
}

/// A way to compare two values.
#[derive(Debug, Clone, Copy, PartialEq, Eq)]
pub enum Comparator {
    Eq,
    Neq,
    Gt,
    Gte,
    Lt,
    Lte,
}

impl DeepView for Comparator {
    type V = Comparator;

    open spec fn deep_view(&self) -> Comparator {
        *self
    }
}

/// A comparison against a value.
#[derive(Debug, Clone, PartialEq, Eq)]
pub struct Predicate {
    pub comparator: Comparator,
    pub value: Value,
}

/// A `Predicate` as a mathematical value.
pub struct PredicateView {
    pub comparator: Comparator,
    pub value: ValueView,
}

impl DeepView for Predicate {
    type V = PredicateView;

    open spec fn deep_view(&self) -> PredicateView {
        PredicateView { comparator: self.comparator, value: self.value.deep_view() }
    }
}

impl Predicate {
    /// The comparison of `comparator` against `value`.
    pub fn new(comparator: Comparator, value: Value) -> (predicate: Predicate)
        ensures
            predicate.deep_view() == (PredicateView { comparator, value: value.deep_view() }),
    {
        Predicate { comparator, value }
    }
}

/// The thing is an instance of the type.
#[derive(Debug, Clone, PartialEq, Eq)]
pub struct IsaConstraint {
    pub isa_type: TypeReference,
}

/// An `IsaConstraint` as a mathematical value.
pub struct IsaConstraintView {
    pub isa_type: TypeReferenceView,
}

impl DeepView for IsaConstraint {
    type V = IsaConstraintView;

    open spec fn deep_view(&self) -> IsaConstraintView {
        IsaConstraintView { isa_type: self.isa_type.deep_view() }
    }
}

/// What an owned attribute is known by: a variable bound to it, or a
/// comparison that its value meets.
#[derive(Debug, Clone, PartialEq, Eq)]
pub enum HasAttribute {
    Variable(UnboundVariable),
    Predicate(Predicate),
}

/// A `HasAttribute` as a mathematical value.
pub enum HasAttributeView {
    Variable(UnboundVariableView),
    Predicate(PredicateView),
}

impl DeepView for HasAttribute {
    type V = HasAttributeView;

    open spec fn deep_view(&self) -> HasAttributeView {
        match self {
            HasAttribute::Variable(var) => HasAttributeView::Variable(var.deep_view()),
            HasAttribute::Predicate(predicate) => HasAttributeView::Predicate(
                predicate.deep_view(),
            ),
        }
    }
}

/// The thing owns an attribute of the type named `attribute_type`.
#[derive(Debug, Clone, PartialEq, Eq)]
pub struct HasConstraint {
    pub attribute_type: String,
    pub attribute: HasAttribute,
}

/// A `HasConstraint` as a mathematical value.
pub struct HasConstraintView {
    pub attribute_type: Seq<char>,
    pub attribute: HasAttributeView,
}

impl DeepView for HasConstraint {
    type V = HasConstraintView;

    open spec fn deep_view(&self) -> HasConstraintView {
        HasConstraintView {
            attribute_type: self.attribute_type@,
            attribute: self.attribute.deep_view(),
        }
    }
}

impl HasConstraintView {
    /// The variable, or the variable that the predicate compares with, is well
    /// formed.
    pub open spec fn well_formed(self) -> bool {
        match self.attribute {
            HasAttributeView::Variable(var) => var.well_formed(),
            HasAttributeView::Predicate(predicate) => predicate.value.well_formed(),
        }
    }
}

/// One player of a relation, with the role it plays where the source gives
/// one. Without a role the pair is untyped.
#[derive(Debug, Clone, PartialEq, Eq)]
pub struct RolePlayerConstraint {
    pub role: Option<TypeReference>,
    pub player: UnboundVariable,
}

/// A `RolePlayerConstraint` as a mathematical value.
pub struct RolePlayerConstraintView {
    pub role: Option<TypeReferenceView>,
    pub player: UnboundVariableView,
}

impl DeepView for RolePlayerConstraint {
    type V = RolePlayerConstraintView;

    open spec fn deep_view(&self) -> RolePlayerConstraintView {
        RolePlayerConstraintView { role: self.role.deep_view(), player: self.player.deep_view() }
    }
}

impl RolePlayerConstraintView {
    /// The player and the role, where there is one, are well formed.
    pub open spec fn well_formed(self) -> bool {
        &&& self.player.well_formed()
        &&& self.role matches Some(role) ==> role.well_formed()
    }
}

/// The thing is a relation with these role players, in the order of the
/// source.
#[derive(Debug, Clone, PartialEq, Eq)]
pub struct RelationConstraint {
    pub role_players: Vec<RolePlayerConstraint>,
}

/// A `RelationConstraint` as a mathematical value.
pub struct RelationConstraintView {
    pub role_players: Seq<RolePlayerConstraintView>,
}

impl DeepView for RelationConstraint {
    type V = RelationConstraintView;

    open spec fn deep_view(&self) -> RelationConstraintView {
        RelationConstraintView { role_players: self.role_players.deep_view() }
    }
}

impl RelationConstraintView {
    /// Every role player is well formed.
    pub open spec fn well_formed(self) -> bool {
        forall|i: int|
            0 <= i < self.role_players.len() ==> (#[trigger] self.role_players[i]).well_formed()
    }
}

impl RelationConstraint {
    /// The relation with the given role players.
    pub fn new(role_players: Vec<RolePlayerConstraint>) -> (relation: RelationConstraint)
        ensures
            relation.deep_view() == (RelationConstraintView {
                role_players: role_players.deep_view(),
            }),
    {
        RelationConstraint { role_players }
    }
}

/// A variable that stands for a thing, with the constraints on that thing.
///
/// `has` grows by one entry with every ownership clause, in the order of the
/// clauses. The other constraints hold one value at most: a later one of the
/// same kind replaces an earlier one.
#[derive(Debug, Clone, PartialEq, Eq)]
pub struct ThingVariable {
    pub reference: UnboundVariable,
    pub iid: Option<String>,
    pub isa: Option<IsaConstraint>,
    pub has: Vec<HasConstraint>,
    pub relation: Option<RelationConstraint>,
    pub value: Option<Predicate>,
}

/// A `ThingVariable` as a mathematical value.
pub struct ThingVariableView {
    pub reference: UnboundVariableView,
    pub iid: Option<Seq<char>>,
    pub isa: Option<IsaConstraintView>,
    pub has: Seq<HasConstraintView>,
    pub relation: Option<RelationConstraintView>,
    pub value: Option<PredicateView>,
}

impl DeepView for ThingVariable {
    type V = ThingVariableView;

    open spec fn deep_view(&self) -> ThingVariableView {
        ThingVariableView {
            reference: self.reference.deep_view(),
            iid: self.iid.deep_view(),
            isa: self.isa.deep_view(),
            has: self.has.deep_view(),
            relation: self.relation.deep_view(),
            value: self.value.deep_view(),
        }
    }
}

impl ThingVariableView {
    /// The variable and every label and variable in its constraints is well formed.
    pub open spec fn well_formed(self) -> bool {
        &&& self.reference.well_formed()
        &&& self.isa matches Some(isa) ==> isa.isa_type.well_formed()
        &&& forall|i: int| 0 <= i < self.has.len() ==> (#[trigger] self.has[i]).well_formed()
        &&& self.relation matches Some(relation) ==> relation.well_formed()
        &&& self.value matches Some(predicate) ==> predicate.value.well_formed()
    }

    /// The variable with its internal id set to `iid`.
    pub open spec fn iid(self, iid: Seq<char>) -> ThingVariableView {
        ThingVariableView { iid: Some(iid), ..self }
    }

    /// The variable with its `isa` constraint set to `isa`.
    pub open spec fn constrain_isa(self, isa: IsaConstraintView) -> ThingVariableView {
        ThingVariableView { isa: Some(isa), ..self }
    }

    /// The variable with `has` behind what it owns already.
    pub open spec fn constrain_has(self, has: HasConstraintView) -> ThingVariableView {
        ThingVariableView { has: self.has.push(has), ..self }
    }

    /// The variable with its relation constraint set to `relation`.
    pub open spec fn constrain_relation(
        self,
        relation: RelationConstraintView,
    ) -> ThingVariableView {
        ThingVariableView { relation: Some(relation), ..self }
    }

    /// The variable with its value constraint set to `value`.
    pub open spec fn constrain_value(self, value: PredicateView) -> ThingVariableView {
        ThingVariableView { value: Some(value), ..self }
    }
}

impl ThingVariable {
    /// Sets the internal id of the thing.
    pub fn iid(self, iid: String) -> (var: ThingVariable)
        ensures
            var.deep_view() == self.deep_view().iid(iid@),
    {
        let mut var = self;
        var.iid = Some(iid);
        var
    }

    /// Sets the type that the thing is an instance of.
    pub fn constrain_isa(self, isa: IsaConstraint) -> (var: ThingVariable)
        ensures
            var.deep_view() == self.deep_view().constrain_isa(isa.deep_view()),
    {
        let mut var = self;
        var.isa = Some(isa);
        var
    }

    /// Adds an attribute that the thing owns.
    pub fn constrain_has(self, has: HasConstraint) -> (var: ThingVariable)
        ensures
            var.deep_view() == self.deep_view().constrain_has(has.deep_view()),
    {
        let mut var = self;
        push_deep(&mut var.has, has);
        var
    }

    /// Makes the thing a relation with the given role players.
    pub fn constrain_relation(self, relation: RelationConstraint) -> (var: ThingVariable)
        ensures
            var.deep_view() == self.deep_view().constrain_relation(relation.deep_view()),
    {
        let mut var = self;
        var.relation = Some(relation);
        var
    }

    /// Makes the thing an attribute whose value meets the comparison.
    pub fn constrain_value(self, value: Predicate) -> (var: ThingVariable)
        ensures
            var.deep_view() == self.deep_view().constrain_value(value.deep_view()),
    {
        let mut var = self;
        var.value = Some(value);
        var
    }

    /// The variable as one of the two kinds of variable.
    pub fn into_variable(self) -> (var: Variable)
        ensures
            var.deep_view() == VariableView::Thing(self.deep_view()),
    {
        Variable::Thing(self)
    }
}

/// A variable with its constraints: of a thing, or of a type.
#[derive(Debug, Clone, PartialEq, Eq)]
pub enum Variable {
    Thing(ThingVariable),
    Type(TypeVariable),
}

/// A `Variable` as a mathematical value.
pub enum VariableView {
    Thing(ThingVariableView),
    Type(TypeVariableView),
}

impl DeepView for Variable {
    type V = VariableView;

    open spec fn deep_view(&self) -> VariableView {
        match self {
            Variable::Thing(var) => VariableView::Thing(var.deep_view()),
            Variable::Type(var) => VariableView::Type(var.deep_view()),
        }
    }
}

impl VariableView {
    /// The variable is well formed as a variable of its kind.
    pub open spec fn well_formed(self) -> bool {
        match self {
            VariableView::Thing(var) => var.well_formed(),
            VariableView::Type(var) => var.well_formed(),
        }
    }
}

impl Variable {
    /// The pattern that holds this variable alone.
    pub fn into_pattern(self) -> (pattern: Pattern)
        ensures
            pattern.deep_view() == PatternView::Variable(self.deep_view()),
    {
        Pattern::Variable(self)
    }
}

/// A clause that a query matches: for now, one variable with its constraints.
#[derive(Debug, Clone, PartialEq, Eq)]
pub enum Pattern {
    Variable(Variable),
}

/// A `Pattern` as a mathematical value.
pub enum PatternView {
    Variable(VariableView),
}

impl DeepView for Pattern {
    type V = PatternView;

    open spec fn deep_view(&self) -> PatternView {
        match self {
            Pattern::Variable(var) => PatternView::Variable(var.deep_view()),
        }
    }
}

impl PatternView {
    /// The variable of the pattern is well formed.
    pub open spec fn well_formed(self) -> bool {
        match self {
            PatternView::Variable(var) => var.well_formed(),
        }
    }
}

} // verus!
