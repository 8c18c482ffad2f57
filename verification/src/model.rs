//! The mathematical values that contracts speak of.
//!
//! An expression tree as it lives in memory holds strings, vectors and shared
//! pointers. Its view replaces them by character sequences, sequences and plain
//! values, so that two trees have the same view exactly when they are equal
//! field by field.

use crate::math_node::{
    BracketSize, BracketStyle, DifferentialStyle, DivisionStyle, Identifier, MathNode,
    MathNodeContent, QuantificationNode, RefinedAddOrSubOperator, RefinedMulOrDivOperation,
    RelationOperatorNode, ScientificNotationStyle, ScriptNode, SpecialMiddleScriptContentTypeNode,
    SpecialMiddleScriptNode, UnaryRelationOperatorNode,
};
use std::sync::Arc;
use vstd::prelude::*;

verus! {

/// The mathematical value of a [`MathNode`].
pub ghost struct NodeModel {
    pub id: Seq<char>,
    pub content: ContentModel,
}

/// The mathematical value of a [`MathNodeContent`]: strings are character
/// sequences, vectors are sequences, shared children are plain values.
pub ghost enum ContentModel {
    Empty,
    Text(Seq<char>),
    String(Seq<char>),
    Bracketed { inner: Box<NodeModel>, style: BracketStyle, size: BracketSize },
    Matrix { rows: Seq<Seq<NodeModel>> },
    Multiplications { terms: Seq<(RefinedMulOrDivOperation, NodeModel)> },
    Additions { terms: Seq<(RefinedAddOrSubOperator, NodeModel)> },
    Division { numerator: Box<NodeModel>, denominator: Box<NodeModel>, style: DivisionStyle },
    SumNotation {
        summand: Box<NodeModel>,
        variable: Option<Box<NodeModel>>,
        lower_limit: Option<Box<NodeModel>>,
        upper_limit: Option<Box<NodeModel>>,
    },
    ProductNotation {
        multiplicand: Box<NodeModel>,
        variable: Option<Box<NodeModel>>,
        lower_limit: Option<Box<NodeModel>>,
        upper_limit: Option<Box<NodeModel>>,
    },
    Fraction { numerator: Box<NodeModel>, denominator: Box<NodeModel> },
    Power { base: Box<NodeModel>, exponent: Box<NodeModel> },
    UnaryPostfixOperation { parameter: Box<NodeModel>, operator: Box<NodeModel> },
    UnaryPrefixOperation { parameter: Box<NodeModel>, operator: Box<NodeModel> },
    Abs { parameter: Box<NodeModel> },
    FunctionCall { name: Box<NodeModel>, parameters: Seq<NodeModel> },
    Quantity {
        number: Seq<char>,
        scientific_notation: Option<Box<NodeModel>>,
        unit: Option<Box<NodeModel>>,
    },
    ScientificNotation { magnitude: Box<NodeModel>, style: ScientificNotationStyle },
    Identifier(IdentifierModel),
    Unit { original_form: Box<NodeModel>, flattened_form: Box<NodeModel> },
    Relationship { lhs: Box<NodeModel>, rhs: Box<NodeModel>, operator: RelationOperatorModel },
    UnaryRelationship { subject: Box<NodeModel>, predicate: UnaryRelationOperatorModel },
    VariableDefinition { name: Box<NodeModel>, definition: Option<Box<NodeModel>> },
    FunctionDefinition { custom_function: Box<NodeModel>, definition: Option<Box<NodeModel>> },
    Limit { function: Box<NodeModel>, variable: Seq<char>, approaching_value: Box<NodeModel> },
    Differential { target: Box<NodeModel>, order: Box<NodeModel>, diff_style: DifferentialStyle },
    Integration {
        integrand: Box<NodeModel>,
        differentials: Seq<(NodeModel, Option<Box<NodeModel>>, Option<Box<NodeModel>>)>,
        domain: Option<Box<NodeModel>>,
    },
    QuantifiedExpression {
        quantifier: QuantificationNode,
        variables: Seq<NodeModel>,
        domain: Option<Box<NodeModel>>,
        predicate: Option<Box<NodeModel>>,
    },
    And(Seq<NodeModel>),
    Or(Seq<NodeModel>),
    Not(Box<NodeModel>),
    True,
    False,
}

/// The mathematical value of an [`Identifier`].
pub ghost struct IdentifierModel {
    pub body: Seq<char>,
    pub pre_script: Option<ScriptModel>,
    pub mid_script: Option<MidScriptModel>,
    pub post_script: Option<ScriptModel>,
    pub primes: usize,
    pub is_function: bool,
}

/// The mathematical value of a [`ScriptNode`].
pub ghost struct ScriptModel {
    pub subscripts: Seq<NodeModel>,
    pub superscripts: Seq<NodeModel>,
}

/// The mathematical value of a [`SpecialMiddleScriptNode`].
pub ghost struct MidScriptModel {
    pub super_script: Seq<SpecialMiddleScriptContentTypeNode>,
    pub sub_script: Seq<SpecialMiddleScriptContentTypeNode>,
}

impl IdentifierModel {
    /// The bare symbol `body`.
    pub open spec fn plain(body: Seq<char>) -> IdentifierModel {
        IdentifierModel {
            body,
            pre_script: None,
            mid_script: None,
            post_script: None,
            primes: 0,
            is_function: false,
        }
    }

    /// The symbol `body` with the single trailing subscript `subscript`.
    pub open spec fn with_subscript(body: Seq<char>, subscript: NodeModel) -> IdentifierModel {
        IdentifierModel {
            body,
            pre_script: None,
            mid_script: None,
            post_script: Some(
                ScriptModel { subscripts: seq![subscript], superscripts: Seq::empty() },
            ),
            primes: 0,
            is_function: false,
        }
    }

    /// The marker for "no identifier": an empty body and no decoration at all.
    pub open spec fn is_empty_marker(self) -> bool {
        self == Self::plain(Seq::empty())
    }

    /// An identifier has a body, unless it is the empty marker.
    pub open spec fn well_formed(self) -> bool {
        self.body.len() > 0 || self.is_empty_marker()
    }
}

/// The mathematical value of a [`RelationOperatorNode`].
pub ghost enum RelationOperatorModel {
    // Basic equality and inequality
    IsEqual,
    Equal,
    NotEqual,
    Greater,
    Less,
    GreaterEqual,
    LessEqual,
    // Geometry
    Collinear,
    Perpendicular,
    Equivalent,
    Similar,
    Congruent,
    // Set theory
    ElementOf,
    NotElementOf,
    SubsetOf,
    ProperSubsetOf,
    SupersetOf,
    ProperSupersetOf,
    Disjoint,
    Union,
    Intersection,
    CartesianProduct,
    SameCardinality,
    // Number theory
    Divides,
    NotDivides,
    CongruentMod,
    NotCongruentMod,
    AreCoprime,
    // Group theory
    IsSubgroupOf,
    IsNormalSubgroupOf,
    IsIsomorphicTo,
    IsHomomorphicTo,
    IsQuotientOf,
    IsInCenterOf,
    AreConjugateIn,
    // Ring theory
    IsSubringOf,
    IsIdealOf,
    // Topology
    IsOpenIn,
    IsClosedIn,
    IsHomeomorphicTo,
    IsDense,
    // Category theory
    IsMorphismBetween,
    IsIsomorphismIn,
    IsMonomorphismIn,
    IsEpimorphismIn,
    IsNaturalTransformationBetween,
    IsAdjunctionBetween,
    ComposesTo,
    // Logic
    Implies,
    Iff,
    /// A relation outside the fixed vocabulary.
    Custom(Seq<char>),
}

/// The mathematical value of a [`UnaryRelationOperatorNode`].
pub ghost enum UnaryRelationOperatorModel {
    // Number theory
    IsPrime,
    IsComposite,
    // Group theory
    HasOrderInGroup,
    HasUniqueInverse,
    // Ring theory
    IsPrimeIdeal,
    IsMaximalIdeal,
    IsPrincipalIdeal,
    IsUnit,
    IsIrreducible,
    IsPrimeElement,
    IsField,
    IsIntegralDomain,
    IsUFD,
    IsPID,
    // Topology
    IsCompact,
    IsConnected,
    IsContinuous,
    Converges,
    IsHausdorff,
    // Category theory
    IsObjectIn,
    IsEndomorphismIn,
    IsAutomorphismIn,
    // Set theory
    Complement,
    PowerSet,
    /// A property outside the fixed vocabulary.
    Custom(Seq<char>),
}

impl View for MathNode {
    type V = NodeModel;

    open spec fn view(&self) -> NodeModel {
        node_view(*self)
    }
}

impl View for MathNodeContent {
    type V = ContentModel;

    open spec fn view(&self) -> ContentModel {
        content_view(*self)
    }
}

impl View for Identifier {
    type V = IdentifierModel;

    open spec fn view(&self) -> IdentifierModel {
        identifier_view(*self)
    }
}

impl View for ScriptNode {
    type V = ScriptModel;

    open spec fn view(&self) -> ScriptModel {
        script_view(*self)
    }
}

impl View for SpecialMiddleScriptNode {
    type V = MidScriptModel;

    open spec fn view(&self) -> MidScriptModel {
        MidScriptModel { super_script: self.super_script@, sub_script: self.sub_script@ }
    }
}

impl View for RelationOperatorNode {
    type V = RelationOperatorModel;

    open spec fn view(&self) -> RelationOperatorModel {
        match self {
            RelationOperatorNode::IsEqual => RelationOperatorModel::IsEqual,
            RelationOperatorNode::Equal => RelationOperatorModel::Equal,
            RelationOperatorNode::NotEqual => RelationOperatorModel::NotEqual,
            RelationOperatorNode::Greater => RelationOperatorModel::Greater,
            RelationOperatorNode::Less => RelationOperatorModel::Less,
            RelationOperatorNode::GreaterEqual => RelationOperatorModel::GreaterEqual,
            RelationOperatorNode::LessEqual => RelationOperatorModel::LessEqual,
            RelationOperatorNode::Collinear => RelationOperatorModel::Collinear,
            RelationOperatorNode::Perpendicular => RelationOperatorModel::Perpendicular,
            RelationOperatorNode::Equivalent => RelationOperatorModel::Equivalent,
            RelationOperatorNode::Similar => RelationOperatorModel::Similar,
            RelationOperatorNode::Congruent => RelationOperatorModel::Congruent,
            RelationOperatorNode::ElementOf => RelationOperatorModel::ElementOf,
            RelationOperatorNode::NotElementOf => RelationOperatorModel::NotElementOf,
            RelationOperatorNode::SubsetOf => RelationOperatorModel::SubsetOf,
            RelationOperatorNode::ProperSubsetOf => RelationOperatorModel::ProperSubsetOf,
            RelationOperatorNode::SupersetOf => RelationOperatorModel::SupersetOf,
            RelationOperatorNode::ProperSupersetOf => RelationOperatorModel::ProperSupersetOf,
            RelationOperatorNode::Disjoint => RelationOperatorModel::Disjoint,
            RelationOperatorNode::Union => RelationOperatorModel::Union,
            RelationOperatorNode::Intersection => RelationOperatorModel::Intersection,
            RelationOperatorNode::CartesianProduct => RelationOperatorModel::CartesianProduct,
            RelationOperatorNode::SameCardinality => RelationOperatorModel::SameCardinality,
            RelationOperatorNode::Divides => RelationOperatorModel::Divides,
            RelationOperatorNode::NotDivides => RelationOperatorModel::NotDivides,
            RelationOperatorNode::CongruentMod => RelationOperatorModel::CongruentMod,
            RelationOperatorNode::NotCongruentMod => RelationOperatorModel::NotCongruentMod,
            RelationOperatorNode::AreCoprime => RelationOperatorModel::AreCoprime,
            RelationOperatorNode::IsSubgroupOf => RelationOperatorModel::IsSubgroupOf,
            RelationOperatorNode::IsNormalSubgroupOf => RelationOperatorModel::IsNormalSubgroupOf,
            RelationOperatorNode::IsIsomorphicTo => RelationOperatorModel::IsIsomorphicTo,
            RelationOperatorNode::IsHomomorphicTo => RelationOperatorModel::IsHomomorphicTo,
            RelationOperatorNode::IsQuotientOf => RelationOperatorModel::IsQuotientOf,
            RelationOperatorNode::IsInCenterOf => RelationOperatorModel::IsInCenterOf,
            RelationOperatorNode::AreConjugateIn => RelationOperatorModel::AreConjugateIn,
            RelationOperatorNode::IsSubringOf => RelationOperatorModel::IsSubringOf,
            RelationOperatorNode::IsIdealOf => RelationOperatorModel::IsIdealOf,
            RelationOperatorNode::IsOpenIn => RelationOperatorModel::IsOpenIn,
            RelationOperatorNode::IsClosedIn => RelationOperatorModel::IsClosedIn,
            RelationOperatorNode::IsHomeomorphicTo => RelationOperatorModel::IsHomeomorphicTo,
            RelationOperatorNode::IsDense => RelationOperatorModel::IsDense,
            RelationOperatorNode::IsMorphismBetween => RelationOperatorModel::IsMorphismBetween,
            RelationOperatorNode::IsIsomorphismIn => RelationOperatorModel::IsIsomorphismIn,
            RelationOperatorNode::IsMonomorphismIn => RelationOperatorModel::IsMonomorphismIn,
            RelationOperatorNode::IsEpimorphismIn => RelationOperatorModel::IsEpimorphismIn,
            RelationOperatorNode::IsNaturalTransformationBetween => {
                RelationOperatorModel::IsNaturalTransformationBetween
            },
            RelationOperatorNode::IsAdjunctionBetween => RelationOperatorModel::IsAdjunctionBetween,
            RelationOperatorNode::ComposesTo => RelationOperatorModel::ComposesTo,
            RelationOperatorNode::Implies => RelationOperatorModel::Implies,
            RelationOperatorNode::Iff => RelationOperatorModel::Iff,
            RelationOperatorNode::Custom(text) => RelationOperatorModel::Custom(text@),
        }
    }
}

impl View for UnaryRelationOperatorNode {
    type V = UnaryRelationOperatorModel;

    open spec fn view(&self) -> UnaryRelationOperatorModel {
        match self {
            UnaryRelationOperatorNode::IsPrime => UnaryRelationOperatorModel::IsPrime,
            UnaryRelationOperatorNode::IsComposite => UnaryRelationOperatorModel::IsComposite,
            UnaryRelationOperatorNode::HasOrderInGroup => {
                UnaryRelationOperatorModel::HasOrderInGroup
            },
            UnaryRelationOperatorNode::HasUniqueInverse => {
                UnaryRelationOperatorModel::HasUniqueInverse
            },
            UnaryRelationOperatorNode::IsPrimeIdeal => UnaryRelationOperatorModel::IsPrimeIdeal,
            UnaryRelationOperatorNode::IsMaximalIdeal => UnaryRelationOperatorModel::IsMaximalIdeal,
            UnaryRelationOperatorNode::IsPrincipalIdeal => {
                UnaryRelationOperatorModel::IsPrincipalIdeal
            },
            UnaryRelationOperatorNode::IsUnit => UnaryRelationOperatorModel::IsUnit,
            UnaryRelationOperatorNode::IsIrreducible => UnaryRelationOperatorModel::IsIrreducible,
            UnaryRelationOperatorNode::IsPrimeElement => UnaryRelationOperatorModel::IsPrimeElement,
            UnaryRelationOperatorNode::IsField => UnaryRelationOperatorModel::IsField,
            UnaryRelationOperatorNode::IsIntegralDomain => {
                UnaryRelationOperatorModel::IsIntegralDomain
            },
            UnaryRelationOperatorNode::IsUFD => UnaryRelationOperatorModel::IsUFD,
            UnaryRelationOperatorNode::IsPID => UnaryRelationOperatorModel::IsPID,
            UnaryRelationOperatorNode::IsCompact => UnaryRelationOperatorModel::IsCompact,
            UnaryRelationOperatorNode::IsConnected => UnaryRelationOperatorModel::IsConnected,
            UnaryRelationOperatorNode::IsContinuous => UnaryRelationOperatorModel::IsContinuous,
            UnaryRelationOperatorNode::Converges => UnaryRelationOperatorModel::Converges,
            UnaryRelationOperatorNode::IsHausdorff => UnaryRelationOperatorModel::IsHausdorff,
            UnaryRelationOperatorNode::IsObjectIn => UnaryRelationOperatorModel::IsObjectIn,
            UnaryRelationOperatorNode::IsEndomorphismIn => {
                UnaryRelationOperatorModel::IsEndomorphismIn
            },
            UnaryRelationOperatorNode::IsAutomorphismIn => {
                UnaryRelationOperatorModel::IsAutomorphismIn
            },
            UnaryRelationOperatorNode::Complement => UnaryRelationOperatorModel::Complement,
            UnaryRelationOperatorNode::PowerSet => UnaryRelationOperatorModel::PowerSet,
            UnaryRelationOperatorNode::Custom(text) => UnaryRelationOperatorModel::Custom(text@),
        }
    }
}

/// The value of a node: the value of its id and of its content.
pub open spec fn node_view(node: MathNode) -> NodeModel
    decreases node,
{
    NodeModel { id: node.id@, content: content_view(*node.content) }
}

/// The value of an optional child held by value.
pub open spec fn opt_view(slot: Option<MathNode>) -> Option<Box<NodeModel>>
    decreases slot,
{
    match slot {
        Some(node) => Some(Box::new(node_view(node))),
        None => None,
    }
}

/// The value of an optional shared child.
pub open spec fn opt_arc_view(slot: Option<Arc<MathNode>>) -> Option<Box<NodeModel>>
    decreases slot,
{
    match slot {
        Some(node) => Some(Box::new(node_view(*node))),
        None => None,
    }
}

/// The values of a vector of children, in order.
pub open spec fn nodes_view(nodes: Vec<MathNode>) -> Seq<NodeModel>
    decreases nodes,
{
    Seq::new(
        nodes.len() as nat,
        |i: int|
            if 0 <= i < nodes.len() {
                node_view(nodes[i])
            } else {
                arbitrary()
            },
    )
}

/// The values of the rows of a matrix.
pub open spec fn rows_view(rows: Vec<Vec<MathNode>>) -> Seq<Seq<NodeModel>>
    decreases rows,
{
    Seq::new(
        rows.len() as nat,
        |i: int|
            if 0 <= i < rows.len() {
                nodes_view(rows[i])
            } else {
                arbitrary()
            },
    )
}

/// The values of the terms of a product chain.
pub open spec fn mul_terms_view(terms: Vec<(RefinedMulOrDivOperation, MathNode)>) -> Seq<
    (RefinedMulOrDivOperation, NodeModel),
>
    decreases terms,
{
    Seq::new(
        terms.len() as nat,
        |i: int|
            if 0 <= i < terms.len() {
                (terms[i].0, node_view(terms[i].1))
            } else {
                arbitrary()
            },
    )
}

/// The values of the terms of a sum chain.
pub open spec fn add_terms_view(terms: Vec<(RefinedAddOrSubOperator, MathNode)>) -> Seq<
    (RefinedAddOrSubOperator, NodeModel),
>
    decreases terms,
{
    Seq::new(
        terms.len() as nat,
        |i: int|
            if 0 <= i < terms.len() {
                (terms[i].0, node_view(terms[i].1))
            } else {
                arbitrary()
            },
    )
}

/// The values of the differentials of an integral, each with its bounds.
pub open spec fn diffs_view(
    diffs: Vec<(Arc<MathNode>, Option<Arc<MathNode>>, Option<Arc<MathNode>>)>,
) -> Seq<(NodeModel, Option<Box<NodeModel>>, Option<Box<NodeModel>>)>
    decreases diffs,
{
    Seq::new(
        diffs.len() as nat,
        |i: int|
            if 0 <= i < diffs.len() {
                (node_view(*diffs[i].0), opt_arc_view(diffs[i].1), opt_arc_view(diffs[i].2))
            } else {
                arbitrary()
            },
    )
}

/// The value of a script group.
pub open spec fn script_view(script: ScriptNode) -> ScriptModel
    decreases script,
{
    ScriptModel {
        subscripts: nodes_view(script.subscripts),
        superscripts: nodes_view(script.superscripts),
    }
}

/// The value of an optional script group.
pub open spec fn opt_script_view(slot: Option<ScriptNode>) -> Option<ScriptModel>
    decreases slot,
{
    match slot {
        Some(script) => Some(script_view(script)),
        None => None,
    }
}

/// The value of an optional group of marks.
pub open spec fn opt_mid_script_view(slot: Option<SpecialMiddleScriptNode>) -> Option<
    MidScriptModel,
> {
    match slot {
        Some(marks) => Some(marks@),
        None => None,
    }
}

/// The value of an identifier.
pub open spec fn identifier_view(identifier: Identifier) -> IdentifierModel
    decreases identifier,
{
    IdentifierModel {
        body: identifier.body@,
        pre_script: opt_script_view(identifier.pre_script),
        mid_script: opt_mid_script_view(identifier.mid_script),
        post_script: opt_script_view(identifier.post_script),
        primes: identifier.primes,
        is_function: identifier.is_function,
    }
}

/// The value of a content: each field by its own value.
pub open spec fn content_view(c: MathNodeContent) -> ContentModel
    decreases c,
{
    match c {
        MathNodeContent::Empty => ContentModel::Empty,
        MathNodeContent::Text(value) => ContentModel::Text(value@),
        MathNodeContent::String(value) => ContentModel::String(value@),
        MathNodeContent::Bracketed { inner, style, size } => ContentModel::Bracketed {
            inner: Box::new(node_view(*inner)),
            style,
            size,
        },
        MathNodeContent::Matrix { rows } => ContentModel::Matrix { rows: rows_view(rows) },
        MathNodeContent::Multiplications { terms } => ContentModel::Multiplications {
            terms: mul_terms_view(terms),
        },
        MathNodeContent::Additions { terms } => ContentModel::Additions {
            terms: add_terms_view(terms),
        },
        MathNodeContent::Division { numerator, denominator, style } => ContentModel::Division {
            numerator: Box::new(node_view(*numerator)),
            denominator: Box::new(node_view(*denominator)),
            style,
        },
        MathNodeContent::SumNotation { summand, variable, lower_limit, upper_limit } => {
            ContentModel::SumNotation {
                summand: Box::new(node_view(*summand)),
                variable: opt_view(variable),
                lower_limit: opt_arc_view(lower_limit),
                upper_limit: opt_arc_view(upper_limit),
            }
        },
        MathNodeContent::ProductNotation { multiplicand, variable, lower_limit, upper_limit } => {
            ContentModel::ProductNotation {
                multiplicand: Box::new(node_view(*multiplicand)),
                variable: opt_view(variable),
                lower_limit: opt_arc_view(lower_limit),
                upper_limit: opt_arc_view(upper_limit),
            }
        },
        MathNodeContent::Fraction { numerator, denominator } => ContentModel::Fraction {
            numerator: Box::new(node_view(*numerator)),
            denominator: Box::new(node_view(*denominator)),
        },
        MathNodeContent::Power { base, exponent } => ContentModel::Power {
            base: Box::new(node_view(*base)),
            exponent: Box::new(node_view(*exponent)),
        },
        MathNodeContent::UnaryPostfixOperation { parameter, operator } => {
            ContentModel::UnaryPostfixOperation {
                parameter: Box::new(node_view(*parameter)),
                operator: Box::new(node_view(*operator)),
            }
        },
        MathNodeContent::UnaryPrefixOperation { parameter, operator } => {
            ContentModel::UnaryPrefixOperation {
                parameter: Box::new(node_view(*parameter)),
                operator: Box::new(node_view(*operator)),
            }
        },
        MathNodeContent::Abs { parameter } => ContentModel::Abs {
            parameter: Box::new(node_view(*parameter)),
        },
        MathNodeContent::FunctionCall { name, parameters } => ContentModel::FunctionCall {
            name: Box::new(node_view(*name)),
            parameters: nodes_view(parameters),
        },
        MathNodeContent::Quantity { number, scientific_notation, unit } => ContentModel::Quantity {
            number: number@,
            scientific_notation: opt_view(scientific_notation),
            unit: opt_view(unit),
        },
        MathNodeContent::ScientificNotation { magnitude, style } => {
            ContentModel::ScientificNotation {
                magnitude: Box::new(node_view(*magnitude)),
                style,
            }
        },
        MathNodeContent::Identifier(identifier) => {
            ContentModel::Identifier(
                identifier_view(identifier),
            )
        },
        MathNodeContent::Unit { original_form, flattened_form } => ContentModel::Unit {
            original_form: Box::new(node_view(*original_form)),
            flattened_form: Box::new(node_view(*flattened_form)),
        },
        MathNodeContent::Relationship { lhs, rhs, operator } => ContentModel::Relationship {
            lhs: Box::new(node_view(*lhs)),
            rhs: Box::new(node_view(*rhs)),
            operator: operator@,
        },
        MathNodeContent::UnaryRelationship { subject, predicate } => {
            ContentModel::UnaryRelationship {
                subject: Box::new(node_view(*subject)),
                predicate: predicate@,
            }
        },
        MathNodeContent::VariableDefinition { name, definition } => {
            ContentModel::VariableDefinition {
                name: Box::new(node_view(*name)),
                definition: opt_view(definition),
            }
        },
        MathNodeContent::FunctionDefinition { custom_function, definition } => {
            ContentModel::FunctionDefinition {
                custom_function: Box::new(node_view(*custom_function)),
                definition: opt_view(definition),
            }
        },
        MathNodeContent::Limit { function, variable, approaching_value } => ContentModel::Limit {
            function: Box::new(node_view(*function)),
            variable: variable@,
            approaching_value: Box::new(node_view(*approaching_value)),
        },
        MathNodeContent::Differential { target, order, diff_style } => ContentModel::Differential {
            target: Box::new(node_view(*target)),
            order: Box::new(node_view(*order)),
            diff_style,
        },
        MathNodeContent::Integration { integrand, differentials, domain } => {
            ContentModel::Integration {
                integrand: Box::new(node_view(*integrand)),
                differentials: diffs_view(differentials),
                domain: opt_arc_view(domain),
            }
        },
        MathNodeContent::QuantifiedExpression { quantifier, variables, domain, predicate } => {
            ContentModel::QuantifiedExpression {
                quantifier,
                variables: nodes_view(variables),
                domain: opt_arc_view(domain),
                predicate: opt_arc_view(predicate),
            }
        },
        MathNodeContent::And(operands) => ContentModel::And(nodes_view(operands)),
        MathNodeContent::Or(operands) => ContentModel::Or(nodes_view(operands)),
        MathNodeContent::Not(operand) => ContentModel::Not(Box::new(node_view(*operand))),
        MathNodeContent::True => ContentModel::True,
        MathNodeContent::False => ContentModel::False,
    }
}

} // verus!
