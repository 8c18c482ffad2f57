//! The plain records that describe how logical statements and proofs are
//! shown.

use crate::math_node::MathNode;
use std::collections::HashMap;
use vstd::prelude::*;

verus! {

#[derive(Debug, Eq, PartialEq, Hash)]
pub enum LogicalNode {
    /// Vertically aligned.
    And(Vec<LogicalNode>),
    /// Horizontally aligned.
    Or(Vec<LogicalNode>),
    Atomic(MathNode),

    True,
    False,
}

pub trait ToLogicalNode {
    fn to_logical_node(&self) -> LogicalNode;
}

#[derive(Debug, Clone, Eq, PartialEq, Hash)]
pub enum QuantifierType {
    Universal,
    Existential,
    UniqueExistential,
}

#[derive(Debug, Clone, Eq, PartialEq, Hash)]
pub enum TheoremLikeKind {
    Theorem,
    Lemma,
    Proposition,
    Corollary,
    Conjecture,
    Principle,
    Axiom,
}

/// Display container for tactic information
#[derive(Debug, Clone, PartialEq)]
pub struct TacticDisplay {
    pub tactic_name: String,
    pub tactic_type: String,
    pub description: String,
    pub interactive_elements: Vec<String>,
    pub workflow_stage: TransformationWorkflowStage,
    pub visual_style: TacticVisualStyle,
}

/// Configuration for proof visualization
#[derive(Debug, Clone, PartialEq)]
pub struct ProofVisualConfig {
    pub layout_type: ProofLayoutType,
    pub visual_style: ProofVisualStyle,
    pub animation_enabled: bool,
    pub show_connections: bool,
    pub show_interactive_elements: bool,
    pub color_scheme: ProofColorScheme,
}

/// Configuration for proof interactions
#[derive(Debug, Clone, PartialEq)]
pub struct ProofInteractionConfig {
    pub allow_click_interactions: bool,
    pub allow_hover_interactions: bool,
    pub allow_drag_interactions: bool,
    pub allow_selection: bool,
    pub allow_highlighting: bool,
    pub interaction_handlers: Vec<InteractionHandler>,
}

/// Layout types for proof visualization
#[derive(Debug, Clone, PartialEq)]
pub enum ProofLayoutType {
    Tree,
    Linear,
    Graph,
    Timeline,
    OmniOutliner,
}

/// Visual styles for proof elements
#[derive(Debug, Clone, PartialEq)]
pub enum ProofVisualStyle {
    Minimal,
    Standard,
    Detailed,
    Interactive,
    Animated,
}

/// Visual state of a proof node
#[derive(Debug, Clone, PartialEq)]
pub enum ProofNodeVisualState {
    Normal,
    Highlighted,
    Selected,
    Active,
    Completed,
    Error,
}

/// Visual styles for tactics
#[derive(Debug, Clone, PartialEq)]
pub enum TacticVisualStyle {
    Default,
    Introduction,
    Elimination,
    Structure,
    Completion,
    Automated,
}

/// Visual styles for goals
#[derive(Debug, Clone, PartialEq)]
pub enum GoalVisualStyle {
    Standard,
    Highlighted,
    Focused,
    Completed,
}

/// Color scheme for proof visualization
#[derive(Debug, Clone, PartialEq)]
pub struct ProofColorScheme {
    pub primary_color: String,
    pub secondary_color: String,
    pub accent_color: String,
    pub success_color: String,
    pub error_color: String,
    pub warning_color: String,
    pub info_color: String,
}

/// Animation configuration for transformations
#[derive(Debug, Clone, PartialEq)]
pub struct TransformationAnimationConfig {
    pub duration_ms: u32,
    pub easing: String,
    pub show_progress: bool,
    pub highlight_source: bool,
    pub highlight_target: bool,
    pub show_connections: bool,
}

/// Represents the workflow stages in a proof transformation
#[derive(Debug, Clone, PartialEq)]
pub enum TransformationWorkflowStage {
    /// Prescribing what to transform.
    Prescribe,
    /// Searching for applicable rules/patterns.
    Search,
    /// Instantiating variables.
    Instantiate,
    /// Replacing expressions.
    Replace,
    /// Verifying the transformation.
    Verify,
}

/// Represents a single expression that can be interacted with
#[derive(Debug, Clone, PartialEq)]
pub struct InteractiveExpression {
    pub id: String,
    pub expression: MathNode,
    pub position: ExpressionPosition,
    pub interaction_type: ProofExpressionInteractionType,
    pub metadata: HashMap<String, String>,
}

/// Position of an expression within a proof node
#[derive(Debug, Clone, PartialEq)]
pub struct ExpressionPosition {
    pub node_id: String,
    /// "goal", "hypothesis", "premise", etc.
    pub context_type: ContextType,
    pub index: Option<usize>,
    /// E.g., ["left", "operand", "0"] for nested expressions.
    pub path: Vec<String>,
}

/// Types of interaction available for expressions
#[derive(Debug, Clone, PartialEq)]
pub enum ProofExpressionInteractionType {
    Highlightable,
    Selectable,
    PatternMatchable,
    Transformable,
    Clickable,
    Draggable,
}

/// Context where an expression appears
#[derive(Debug, Clone, PartialEq)]
pub enum ContextType {
    Goal,
    Hypothesis,
    Premise,
    Axiom,
    Theorem,
    Definition,
    Assumption,
}

/// Represents an instantiation map for variable substitution
#[derive(Debug, Clone, PartialEq)]
pub struct InstantiationMap {
    pub variable_name: String,
    pub instantiated_value: MathNode,
    pub source_expression: String,
    pub target_expression: String,
    pub direction: InstantiationDirection,
}

/// Direction of instantiation
#[derive(Debug, Clone, PartialEq)]
pub enum InstantiationDirection {
    /// From pattern to target.
    Forward,
    /// From target to pattern.
    Backward,
    Bidirectional,
}

/// Represents an interactive element that can be highlighted or selected
#[derive(Debug, Clone, PartialEq)]
pub struct InteractiveElement {
    pub id: String,
    pub element_type: InteractiveElementType,
    pub expression: Option<MathNode>,
    pub text: Option<String>,
    pub position: ExpressionPosition,
    pub interaction_handlers: Vec<InteractionHandler>,
}

/// Types of interactive elements
#[derive(Debug, Clone, PartialEq)]
pub enum InteractiveElementType {
    Variable,
    Expression,
    Hypothesis,
    Goal,
    Tactic,
    Axiom,
    Theorem,
    Pattern,
    Instantiation,
}

/// Represents an interaction handler for an element
#[derive(Debug, Clone, PartialEq)]
pub struct InteractionHandler {
    pub handler_type: HandlerType,
    pub action: String,
    pub parameters: HashMap<String, String>,
}

/// Types of interaction handlers
#[derive(Debug, Clone, PartialEq)]
pub enum HandlerType {
    Click,
    Hover,
    Select,
    Drag,
    Transform,
    Highlight,
}

/// Represents a visual connection between elements in a transformation
#[derive(Debug, Clone, PartialEq)]
pub struct VisualConnection {
    pub from: String,
    pub to: String,
    pub connection_type: String,
    pub style: String,
}

/// Represents the visual flow of a tactic transformation
#[derive(Debug, Clone)]
pub struct TransformationFlow {
    pub tactic_type: String,
    pub direction: String,
    pub source_elements: Vec<String>,
    pub target_elements: Vec<String>,
    pub transformation_type: String,
    pub visual_connections: Vec<VisualConnection>,
}

/// The mathematical value of a [`LogicalNode`].
pub ghost enum LogicalModel {
    And(Seq<LogicalModel>),
    Or(Seq<LogicalModel>),
    Atomic(crate::model::NodeModel),
    True,
    False,
}

/// The values of some statements, in order.
pub open spec fn logical_views(nodes: Vec<LogicalNode>) -> Seq<LogicalModel>
    decreases nodes,
{
    Seq::new(
        nodes.len() as nat,
        |i: int|
            if 0 <= i < nodes.len() {
                logical_view(nodes[i])
            } else {
                arbitrary()
            },
    )
}

/// The value of a statement.
pub open spec fn logical_view(node: LogicalNode) -> LogicalModel
    decreases node,
{
    match node {
        LogicalNode::And(parts) => LogicalModel::And(logical_views(parts)),
        LogicalNode::Or(parts) => LogicalModel::Or(logical_views(parts)),
        LogicalNode::Atomic(atom) => LogicalModel::Atomic(atom@),
        LogicalNode::True => LogicalModel::True,
        LogicalNode::False => LogicalModel::False,
    }
}

impl View for LogicalNode {
    type V = LogicalModel;

    open spec fn view(&self) -> LogicalModel {
        logical_view(*self)
    }
}

fn logical_copies(nodes: &Vec<LogicalNode>) -> (copies: Vec<LogicalNode>)
    ensures
        logical_views(copies) == logical_views(*nodes),
    decreases nodes, 1nat,
{
    let mut copies: Vec<LogicalNode> = Vec::new();
    let mut i: usize = 0;
    while i < nodes.len()
        invariant
            i <= nodes.len(),
            copies.len() == i,
            forall|j: int| 0 <= j < i ==> (#[trigger] copies[j])@ == nodes[j]@,
        decreases nodes.len() - i,
    {
        let copy = logical_copy(&nodes[i]);
        copies.push(copy);
        i += 1;
    }
    assert(logical_views(copies) =~= logical_views(*nodes));
    copies
}

fn logical_copy(node: &LogicalNode) -> (copy: LogicalNode)
    ensures
        copy@ == node@,
    decreases node, 0nat,
{
    match node {
        LogicalNode::And(parts) => LogicalNode::And(logical_copies(parts)),
        LogicalNode::Or(parts) => LogicalNode::Or(logical_copies(parts)),
        LogicalNode::Atomic(atom) => LogicalNode::Atomic(atom.clone()),
        LogicalNode::True => LogicalNode::True,
        LogicalNode::False => LogicalNode::False,
    }
}

impl Clone for LogicalNode {
    /// A copy with the same value.
    fn clone(&self) -> (copy: Self)
        ensures
            copy@ == self@,
    {
        logical_copy(self)
    }
}

} // verus!
