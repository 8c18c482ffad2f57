//! The expression tree: a node is an `id` and a content, and the content is one
//! case of a closed set of expression kinds that own their children.

use crate::model::{identifier_view, node_view, ContentModel, IdentifierModel, NodeModel};
use std::sync::Arc;
use vstd::prelude::*;

verus! {

/// One node of an expression tree.
///
/// `id` is a key for rendering and cross-reference. It need not be unique in a
/// tree. The content is shared by reference counting and never changes once
/// the node is built.
#[derive(Debug, PartialEq, Eq, Hash)]
pub struct MathNode {
    pub id: String,
    pub content: Arc<MathNodeContent>,
}

impl Clone for MathNode {
    /// A second handle on the same tree: the id is copied, the content is
    /// shared.
    fn clone(&self) -> (copy: Self)
        ensures
            copy == *self,
    {
        MathNode { id: self.id.clone(), content: self.content.clone() }
    }
}

impl MathNode {
    /// The placeholder node: an empty id and the `Empty` content.
    pub fn empty() -> (node: MathNode)
        ensures
            node@ == (NodeModel { id: Seq::empty(), content: ContentModel::Empty }),
    {
        proof {
            reveal_with_fuel(node_view, 2);
        }
        MathNode { id: String::new(), content: Arc::new(MathNodeContent::Empty) }
    }

    /// Whether the node is a quantity.
    pub fn is_quantity(&self) -> (yes: bool)
        ensures
            yes == (self@.content is Quantity),
    {
        proof {
            reveal_with_fuel(node_view, 2);
        }
        matches!(*self.content, MathNodeContent::Quantity { .. })
    }

    /// Whether the node is a bracketed expression, of any style.
    pub fn is_expression_in_bracket(&self) -> (yes: bool)
        ensures
            yes == (self@.content is Bracketed),
    {
        proof {
            reveal_with_fuel(node_view, 2);
        }
        matches!(*self.content, MathNodeContent::Bracketed { .. })
    }

    /// Whether the node is an expression in round brackets.
    pub fn is_expression_in_round_bracket(&self) -> (yes: bool)
        ensures
            yes == (self@.content matches ContentModel::Bracketed { style, .. } && style
                == BracketStyle::Round),
    {
        proof {
            reveal_with_fuel(node_view, 2);
        }
        matches!(*self.content, MathNodeContent::Bracketed { style: BracketStyle::Round, .. })
    }

    /// A node that holds `input`; its id is the identifier's body.
    pub fn identifier(input: Identifier) -> (node: MathNode)
        ensures
            node@ == (NodeModel { id: input@.body, content: ContentModel::Identifier(input@) }),
    {
        proof {
            reveal_with_fuel(node_view, 2);
        }
        MathNode { id: input.body.clone(), content: Arc::new(MathNodeContent::Identifier(input)) }
    }

    /// A math-font token; its id is the token itself.
    pub fn string(input: String) -> (node: MathNode)
        ensures
            node@ == (NodeModel { id: input@, content: ContentModel::String(input@) }),
    {
        proof {
            reveal_with_fuel(node_view, 2);
        }
        MathNode { id: input.clone(), content: Arc::new(MathNodeContent::String(input)) }
    }

    /// A piece of prose; its id is the text itself.
    pub fn text(input: String) -> (node: MathNode)
        ensures
            node@ == (NodeModel { id: input@, content: ContentModel::Text(input@) }),
    {
        proof {
            reveal_with_fuel(node_view, 2);
        }
        MathNode { id: input.clone(), content: Arc::new(MathNodeContent::Text(input)) }
    }
}

/// What a node is: one case per kind of expression.
#[derive(Debug, Clone, PartialEq, Eq, Hash)]
pub enum MathNodeContent {
    /// A placeholder for a slot that must be filled but means nothing.
    Empty,
    /// Prose, set in the running font and never evaluated.
    Text(String),
    /// An atomic token, set in the math font.
    String(String),
    /// An expression inside a pair of brackets.
    Bracketed {
        inner: Arc<MathNode>,
        style: BracketStyle,
        size: BracketSize,
    },
    /// A matrix, row by row. Rows of unequal length are kept as they are.
    Matrix {
        rows: Vec<Vec<MathNode>>,
    },
    /// A product or quotient chain; each term carries the operator in front of it.
    Multiplications {
        terms: Vec<(RefinedMulOrDivOperation, MathNode)>,
    },
    /// A sum or difference chain; each term carries the sign in front of it.
    Additions {
        terms: Vec<(RefinedAddOrSubOperator, MathNode)>,
    },
    /// A division of two operands with a chosen layout.
    Division {
        numerator: Arc<MathNode>,
        denominator: Arc<MathNode>,
        style: DivisionStyle,
    },
    /// A sum written with the capital sigma.
    SumNotation {
        summand: Arc<MathNode>,
        variable: Option<MathNode>,
        lower_limit: Option<Arc<MathNode>>,
        upper_limit: Option<Arc<MathNode>>,
    },
    /// A product written with the capital pi.
    ProductNotation {
        multiplicand: Arc<MathNode>,
        variable: Option<MathNode>,
        lower_limit: Option<Arc<MathNode>>,
        upper_limit: Option<Arc<MathNode>>,
    },
    /// A plain fraction; kept apart from `Division` with the fraction layout.
    Fraction {
        numerator: Arc<MathNode>,
        denominator: Arc<MathNode>,
    },
    /// A base raised to an exponent.
    Power {
        base: Arc<MathNode>,
        exponent: Arc<MathNode>,
    },
    /// An operator written after its operand, such as `!`, `T` or `%`.
    UnaryPostfixOperation {
        parameter: Arc<MathNode>,
        operator: Arc<MathNode>,
    },
    /// An operator written before its operand, such as `-`, `∇` or `∇²`.
    UnaryPrefixOperation {
        parameter: Arc<MathNode>,
        operator: Arc<MathNode>,
    },
    /// An absolute value written `|x|`, as opposed to a call of a function named `abs`.
    Abs {
        parameter: Arc<MathNode>,
    },
    /// A function applied to its arguments.
    FunctionCall {
        name: Arc<MathNode>,
        parameters: Vec<MathNode>,
    },
    /// A number with an optional power of ten and an optional unit. The number stays text.
    Quantity {
        number: String,
        scientific_notation: Option<MathNode>,
        unit: Option<MathNode>,
    },
    /// The power-of-ten part of a quantity.
    ScientificNotation {
        magnitude: Arc<MathNode>,
        style: ScientificNotationStyle,
    },
    /// A named symbol.
    Identifier(Identifier),
    /// A unit as written and as reduced to base units; both forms are products.
    Unit {
        original_form: Arc<MathNode>,
        flattened_form: Arc<MathNode>,
    },
    /// A relation between two expressions.
    Relationship {
        lhs: Arc<MathNode>,
        rhs: Arc<MathNode>,
        operator: RelationOperatorNode,
    },
    /// A property stated of one expression.
    UnaryRelationship {
        subject: Arc<MathNode>,
        predicate: UnaryRelationOperatorNode,
    },
    /// A variable with an optional defining expression. The name has to be an identifier.
    VariableDefinition {
        name: Arc<MathNode>,
        definition: Option<MathNode>,
    },
    /// A function with an optional defining expression. The head has to be a function call.
    FunctionDefinition {
        custom_function: Arc<MathNode>,
        definition: Option<MathNode>,
    },
    /// A limit of a function as a variable approaches a value.
    Limit {
        function: Arc<MathNode>,
        variable: String,
        approaching_value: Arc<MathNode>,
    },
    /// A differential of a target, of a given order.
    Differential {
        target: Arc<MathNode>,
        order: Arc<MathNode>,
        diff_style: DifferentialStyle,
    },
    /// An integral over one or more differentials with optional bounds, and an optional region.
    Integration {
        integrand: Arc<MathNode>,
        differentials: Vec<(Arc<MathNode>, Option<Arc<MathNode>>, Option<Arc<MathNode>>)>,
        domain: Option<Arc<MathNode>>,
    },
    /// A quantifier over variables, with an optional domain and an optional predicate.
    QuantifiedExpression {
        quantifier: QuantificationNode,
        variables: Vec<MathNode>,
        domain: Option<Arc<MathNode>>,
        predicate: Option<Arc<MathNode>>,
    },
    /// A conjunction.
    And(Vec<MathNode>),
    /// A disjunction.
    Or(Vec<MathNode>),
    /// A negation.
    Not(Arc<MathNode>),
    /// The constant true.
    True,
    /// The constant false.
    False,
}

/// A named symbol with its decorations.
///
/// The body is the base glyph or name. Scripts before and after the body hold
/// whole sub-expressions; marks over and under the body are a fixed set of
/// diacritics. `is_function` only affects spacing when the symbol is drawn.
#[derive(Debug, Clone, PartialEq, Eq, Hash)]
pub struct Identifier {
    pub body: String,
    pub pre_script: Option<ScriptNode>,
    pub mid_script: Option<SpecialMiddleScriptNode>,
    pub post_script: Option<ScriptNode>,
    pub primes: usize,
    pub is_function: bool,
}

impl Identifier {
    /// The bare symbol `body`, with no decoration.
    pub fn new_simple(body: String) -> (identifier: Self)
        ensures
            identifier@ == IdentifierModel::plain(body@),
    {
        Identifier {
            body,
            pre_script: None,
            mid_script: None,
            post_script: None,
            primes: 0,
            is_function: false,
        }
    }

    /// `name` with one subscript, the math-font token `subscript`.
    pub fn simple_string_subscript(name: String, subscript: String) -> (identifier: Self)
        ensures
            identifier@ == IdentifierModel::with_subscript(
                name@,
                NodeModel { id: subscript@, content: ContentModel::String(subscript@) },
            ),
    {
        let node = MathNode::string(subscript);
        Self::with_one_subscript(name, node)
    }

    /// `name` with one subscript, the prose `subscript`.
    pub fn simple_text_subscript(name: String, subscript: String) -> (identifier: Self)
        ensures
            identifier@ == IdentifierModel::with_subscript(
                name@,
                NodeModel { id: subscript@, content: ContentModel::Text(subscript@) },
            ),
    {
        let node = MathNode::text(subscript);
        Self::with_one_subscript(name, node)
    }

    /// `name` with one subscript, the identifier `subscript`.
    pub fn simple_identifier_subscript(name: String, subscript: Identifier) -> (identifier: Self)
        ensures
            identifier@ == IdentifierModel::with_subscript(
                name@,
                NodeModel { id: subscript@.body, content: ContentModel::Identifier(subscript@) },
            ),
    {
        let node = MathNode::identifier(subscript);
        Self::with_one_subscript(name, node)
    }

    fn with_one_subscript(name: String, subscript: MathNode) -> (identifier: Self)
        ensures
            identifier@ == IdentifierModel::with_subscript(name@, subscript@),
    {
        let mut subscripts: Vec<MathNode> = Vec::new();
        subscripts.push(subscript);
        let identifier = Identifier {
            body: name,
            pre_script: None,
            mid_script: None,
            post_script: Some(ScriptNode { subscripts, superscripts: Vec::new() }),
            primes: 0,
            is_function: false,
        };
        proof {
            reveal_with_fuel(identifier_view, 3);
            let script = identifier@.post_script->Some_0;
            assert(script.subscripts =~= seq![subscript@]);
            assert(script.superscripts =~= Seq::empty());
        }
        identifier
    }

    /// The text that stands for the identifier where only a name is wanted:
    /// its body.
    pub fn to_display_string(&self) -> (text: String)
        ensures
            text@ == self@.body,
    {
        self.body.clone()
    }
}

/// Scripts attached to one side of an identifier; each entry is a whole
/// sub-expression.
#[derive(Debug, Clone, PartialEq, Eq, Hash)]
pub struct ScriptNode {
    pub subscripts: Vec<MathNode>,
    pub superscripts: Vec<MathNode>,
}

/// The marks drawn directly over and under an identifier's body.
#[derive(Debug, Clone, PartialEq, Eq, Hash)]
pub struct SpecialMiddleScriptNode {
    pub super_script: Vec<SpecialMiddleScriptContentTypeNode>,
    pub sub_script: Vec<SpecialMiddleScriptContentTypeNode>,
}

/// One mark over or under an identifier's body.
#[derive(Debug, Clone, Copy, PartialEq, Eq, Hash, Structural)]
pub enum SpecialMiddleScriptContentTypeNode {
    Hat,
    /// That many dots side by side.
    Dot(usize),
    Tilde,
    Bar,
}

/// How large a bracket pair is drawn.
#[derive(Debug, Clone, Copy, PartialEq, Eq, Hash, Structural)]
pub enum BracketSize {
    Normal,
    /// Grows with what it encloses.
    Auto,
    /// A fixed step; steps 1 to 4 exist.
    Sized(u8),
}

/// The operator in front of one term of a product chain.
#[derive(Debug, Clone, Copy, PartialEq, Eq, Hash, Structural)]
pub enum RefinedMulOrDivOperation {
    Multiplication(MulSymbol),
    Division(DivSymbol),
    /// No operator; by convention the first term carries this.
    NoOperator,
}

/// The glyph pair drawn around a bracketed expression.
#[derive(Debug, Clone, Copy, PartialEq, Eq, Hash, Structural)]
pub enum BracketStyle {
    /// `( )`
    Round,
    /// `[ ]`
    Square,
    /// `{ }`
    Curly,
    /// `⟨ ⟩`
    Angle,
    /// `| |`
    Vertical,
    /// `∥ ∥`
    DoubleVertical,
    /// `⌈ ⌉`
    Ceiling,
    /// `⌊ ⌋`
    Floor,
    /// No glyphs: the pair only groups, to fix precedence in the tree.
    Invisible,
}

/// The glyph that joins two factors.
#[derive(Debug, Clone, Copy, PartialEq, Eq, Hash, Structural)]
pub enum MulSymbol {
    /// `×`, between numbers.
    Times,
    /// A centred dot, between symbols.
    Dot,
    /// A thin space, between bracketed expressions.
    LittleSpace,
}

/// The glyph that joins dividend and divisor inside a product.
#[derive(Debug, Clone, Copy, PartialEq, Eq, Hash, Structural)]
pub enum DivSymbol {
    /// `/`
    Slash,
    /// `÷`
    Divide,
}

/// How a two-operand division is laid out.
#[derive(Debug, Clone, Copy, PartialEq, Eq, Hash, Structural)]
pub enum DivisionStyle {
    /// Numerator over denominator.
    Fraction,
    /// `a/b`
    Inline,
    /// `a÷b`
    Division,
}

/// The sign in front of one term of a sum.
#[derive(Debug, Clone, Copy, PartialEq, Eq, Hash, Structural)]
pub enum RefinedAddOrSubOperator {
    /// `+`
    Addition,
    /// `-`
    Subtraction,
    /// No sign; by convention the first term carries this.
    NoOperator,
}

/// How the power of ten of a quantity is written.
#[derive(Debug, Clone, Copy, PartialEq, Eq, Hash, Structural)]
pub enum ScientificNotationStyle {
    /// `1.5e3`
    LowerCaseE,
    /// `1.5E3`
    UpperCaseE,
    /// `1.5 × 10³`
    TimesTenPower,
}

/// Which derivative sign a differential uses.
#[derive(Debug, Clone, Copy, PartialEq, Eq, Hash, Structural)]
pub enum DifferentialStyle {
    /// `∂`
    Partial,
    /// `d`
    Total,
}

/// The quantifier that binds the variables of a quantified expression.
#[derive(Debug, Clone, Copy, PartialEq, Eq, Hash, Structural)]
pub enum QuantificationNode {
    /// Universal quantification (∀).
    Universal,
    /// Existential quantification (∃).
    Existential,
    /// Unique existential quantification (∃!).
    UniqueExistential,
    /// An object defined in terms of others.
    Defined,
    /// An arbitrary but fixed object.
    Fixed,
}

/// The sign of a two-operand sum.
#[derive(Debug, Clone, Copy, PartialEq, Eq, Hash, Structural)]
pub enum AdditionOperator {
    /// `+`
    Plus,
    /// `-`
    Minus,
}

/// How many integral signs an integral shows.
#[derive(Debug, Clone, Copy, PartialEq, Eq, Hash, Structural)]
pub enum IntegralType {
    /// Single integral: ∫
    Single,
    /// Double integral: ∫∫
    Double,
    /// Triple integral: ∫∫∫
    Triple,
}

/// The region an integral ranges over.
#[derive(Debug, Clone, PartialEq, Eq, Hash)]
pub enum IntegralDomain {
    /// No region is written.
    Regular,
    /// A geometric region, as in ∫[C] or ∫[D].
    Geometric(Arc<MathNode>),
    /// A path with parameters, each with its own domain, as in ∫[C|t:R].
    ParametricGeometric { path: Arc<MathNode>, parameters: Vec<(Arc<MathNode>, Arc<MathNode>)> },
}

/// A unit, either a base unit with an optional prefix or a product of powers
/// of units.
#[derive(Debug, PartialEq, Eq, Hash)]
pub enum UnitComponent {
    BaseUnit { name: BaseUnitTypeNode, prefix: Option<String> },
    /// Units paired with their exponents.
    CompoundUnit { components: Vec<(UnitComponent, MathNode)> },
}

/// A copy of a unit, component by component: a compound unit keeps the number
/// of its components and the exponent of each.
fn unit_copy(unit: &UnitComponent) -> (copy: UnitComponent)
    ensures
        unit is BaseUnit ==> copy is BaseUnit,
        unit is CompoundUnit ==> copy is CompoundUnit && copy->components.len()
            == unit->components.len() && forall|i: int|
            0 <= i < unit->components.len() ==> (#[trigger] copy->components[i]).1
                == unit->components[i].1,
    decreases unit,
{
    match unit {
        UnitComponent::BaseUnit { name, prefix } => UnitComponent::BaseUnit {
            name: name.clone(),
            prefix: prefix.clone(),
        },
        UnitComponent::CompoundUnit { components } => {
            let mut copies: Vec<(UnitComponent, MathNode)> = Vec::new();
            let mut i: usize = 0;
            while i < components.len()
                invariant
                    i <= components.len(),
                    copies.len() == i,
                    *unit is CompoundUnit && unit->components == *components,
                    forall|j: int| 0 <= j < i ==> (#[trigger] copies[j]).1 == components[j].1,
                decreases components.len() - i,
            {
                assert(decreases_to!(*components => components[i as int]));
                let part = unit_copy(&components[i].0);
                copies.push((part, components[i].1.clone()));
                i += 1;
            }
            UnitComponent::CompoundUnit { components: copies }
        },
    }
}

impl Clone for UnitComponent {
    fn clone(&self) -> Self {
        unit_copy(self)
    }
}

/// The base and derived units that have a name of their own.
#[derive(Debug, Clone, PartialEq, Eq, Hash)]
pub enum BaseUnitTypeNode {
    Unitless,
    Meter,
    Second,
    Gram,
    Ampere,
    Mole,
    Kelvin,
    Candela,
    Newton,
    Joul,
    Hertz,
    Pascal,
    Volt,
    Ohm,
    Steradian,
    Watt,
    Coulumb,
    Siemens,
    Lux,
    Lumen,
    Weber,
    Tesla,
    Decibel,
    Henry,
    Hour,
    Minute,
    Custom(String),
}

/// The relation that joins the two sides of a `Relationship`.
#[derive(Debug, Clone, PartialEq, Eq, Hash)]
pub enum RelationOperatorNode {
    // Basic equality and inequality
    IsEqual,
    Equal,
    NotEqual,
    Greater,
    Less,
    GreaterEqual,
    LessEqual,
    // Geometry
    Collinear,
    Perpendicular,
    /// Equivalence of expressions.
    Equivalent,
    Similar,
    /// Geometric congruence.
    Congruent,
    // Set theory
    /// ∈
    ElementOf,
    /// ∉
    NotElementOf,
    /// ⊆
    SubsetOf,
    /// ⊂
    ProperSubsetOf,
    /// ⊇
    SupersetOf,
    /// ⊃
    ProperSupersetOf,
    /// A ∩ B = ∅
    Disjoint,
    /// ∪
    Union,
    /// ∩
    Intersection,
    /// ×
    CartesianProduct,
    /// |A| = |B|
    SameCardinality,
    // Number theory
    /// |
    Divides,
    /// ∤
    NotDivides,
    /// ≡ (modular congruence)
    CongruentMod,
    /// ≢
    NotCongruentMod,
    AreCoprime,
    // Group theory
    IsSubgroupOf,
    IsNormalSubgroupOf,
    /// ≅
    IsIsomorphicTo,
    IsHomomorphicTo,
    IsQuotientOf,
    IsInCenterOf,
    AreConjugateIn,
    // Ring theory
    IsSubringOf,
    IsIdealOf,
    // Topology
    IsOpenIn,
    IsClosedIn,
    IsHomeomorphicTo,
    IsDense,
    // Category theory
    IsMorphismBetween,
    IsIsomorphismIn,
    IsMonomorphismIn,
    IsEpimorphismIn,
    IsNaturalTransformationBetween,
    IsAdjunctionBetween,
    ComposesTo,
    // Logic
    /// →
    Implies,
    /// ↔
    Iff,
    /// A relation outside the fixed vocabulary, named by its own text.
    Custom(String),
}

/// The property that a `UnaryRelationship` states of its subject.
#[derive(Debug, Clone, PartialEq, Eq, Hash)]
pub enum UnaryRelationOperatorNode {
    // Number theory
    IsPrime,
    IsComposite,
    // Group theory
    HasOrderInGroup,
    HasUniqueInverse,
    // Ring theory
    IsPrimeIdeal,
    IsMaximalIdeal,
    IsPrincipalIdeal,
    IsUnit,
    IsIrreducible,
    IsPrimeElement,
    IsField,
    IsIntegralDomain,
    /// Unique factorization domain.
    IsUFD,
    /// Principal ideal domain.
    IsPID,
    // Topology
    IsCompact,
    IsConnected,
    IsContinuous,
    Converges,
    IsHausdorff,
    // Category theory
    IsObjectIn,
    IsEndomorphismIn,
    IsAutomorphismIn,
    // Set theory
    /// `^c`
    Complement,
    /// `P()`
    PowerSet,
    /// A property outside the fixed vocabulary, named by its own text.
    Custom(String),
}

/// Turns a value into the expression tree that displays it.
pub trait ToTurnMath {
    fn to_turn_math(&self, master_id: String) -> MathNode;
}

} // verus!
