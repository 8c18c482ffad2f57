//! The plain records that describe how the sections of a document are laid
//! out and what their blocks look like.

use crate::math_node::MathNode;
use crate::rich_text::TextAlignment;
use std::collections::BTreeMap;
use vstd::prelude::*;

verus! {

/// Types of branching containers
#[derive(Debug, Clone, PartialEq)]
pub enum ContainerType {
    /// Mathematical proof exploration.
    ProofForest,
    /// Narrative storyboard.
    Storyboard,
    /// Parallel universe/timeline structure.
    Multiverse,
    /// Decision-making tree.
    DecisionTree,
    /// Process workflow.
    Workflow,
    /// Conceptual mind map.
    MindMap,
    /// Chronological timeline.
    Timeline,
    /// Custom container type.
    Custom(String),
}

/// Types of nodes in branching containers
#[derive(Debug, Clone, PartialEq)]
pub enum NodeType {
    // Proof-specific
    ProofGoal,
    ProofStep,
    ProofManager,
    ProofCompleted,
    ProofDisproved,

    // Narrative-specific
    StoryScene,
    Character,
    Event,
    Timeline,

    // Generic
    Branch,
    Leaf,
    Decision,
    Outcome,
    Custom(String),
}

/// State of a branching node
#[derive(Debug, Clone, PartialEq)]
pub enum NodeState {
    /// Currently being worked on.
    Active,
    /// Successfully completed.
    Completed,
    /// Failed/abandoned.
    Failed,
    /// Waiting for input.
    Pending,
    /// Proven false (for proofs)
    Disproved,
    /// Temporarily paused.
    Suspended,
    /// Custom state.
    Custom(String),
}

/// Layout configuration for branching containers
#[derive(Debug, Clone, PartialEq)]
pub struct ContainerLayout {
    pub layout_type: LayoutType,
    pub direction: LayoutDirection,
    /// CSS spacing.
    pub spacing: Option<String>,
    pub alignment: Option<LayoutAlignment>,
    /// Maximum depth to show.
    pub max_depth: Option<usize>,
    /// Auto-collapse long branches.
    pub collapse_branches: Option<bool>,
}

/// Types of layout for branching containers
#[derive(Debug, Clone, PartialEq)]
pub enum LayoutType {
    /// Traditional tree layout.
    Tree,
    /// Radial tree layout.
    Radial,
    /// Horizontal timeline.
    Timeline,
    /// Grid layout.
    Grid,
    /// Flowchart style.
    Flow,
    /// Mind map style.
    MindMap,
    /// Custom layout.
    Custom(String),
}

/// Direction for layout
#[derive(Debug, Clone, PartialEq)]
pub enum LayoutDirection {
    /// Root at top, children below.
    TopDown,
    /// Root at bottom, children above.
    BottomUp,
    /// Root at left, children to right.
    LeftRight,
    /// Root at right, children to left.
    RightLeft,
    /// Radial from center.
    Radial,
}

/// Alignment within layout
#[derive(Debug, Clone, PartialEq)]
pub enum LayoutAlignment {
    /// Align to start.
    Start,
    /// Center align.
    Center,
    /// Align to end.
    End,
    /// Justify content.
    Justify,
    /// Stretch to fill.
    Stretch,
}

#[derive(Debug, Clone, PartialEq)]
pub struct SideBySideConfig {
    /// E.g., "50%", "300px".
    pub left_width: Option<String>,
    pub right_width: Option<String>,
    pub gap: Option<String>,
    /// Switch to vertical on small screens.
    pub responsive_breakpoint: Option<String>,
}

#[derive(Debug, Clone, PartialEq)]
pub enum PanelLayoutType {
    Tabs,
    Accordion,
    Grid { columns: usize },
    Sidebar { main_panel_id: String },
    FloatingPanels,
}

#[derive(Debug, Clone, PartialEq)]
pub enum PanelRole {
    MainContent,
    ComparisonLeft,
    ComparisonRight,
    SourceTheory,
    TargetTheory,
    TypeAnnotations,
    ResourceBank,
    Navigation,
    ControlPanel,
    InfoBox,
}

#[derive(Debug, Clone, PartialEq)]
pub struct PanelControls {
    pub allow_minimize: Option<bool>,
    pub allow_close: Option<bool>,
    pub allow_reorder: Option<bool>,
}

#[derive(Debug, Clone, PartialEq)]
pub enum AnnotationType {
    TypeInfo,
    Definition,
    Explanation,
    Animation,
    Highlight,
    Warning,
    Step,
}

#[derive(Debug, Clone, PartialEq)]
pub enum OverlayStyle {
    Tooltip,
    Popover,
    Inline,
    Sidebar,
    Highlight,
}

#[derive(Debug, Clone, PartialEq)]
pub enum PositionAnchor {
    TopLeft,
    TopRight,
    BottomLeft,
    BottomRight,
    Center,
}

#[derive(Debug, Clone, PartialEq)]
pub enum ControlLayout {
    Horizontal,
    Vertical,
    Grid { columns: usize },
    Floating,
}

#[derive(Debug, Clone, PartialEq)]
pub struct AbstractionMetadata {
    pub level: Option<u8>,
    /// Link to the L1/L2 blueprint or source template for this object/definition.
    pub source_template_id: Option<String>,
    /// For L2/L3/L4, parameters that have been specified or concretized.
    pub specified_parameters: Vec<(String, MathNode)>,
    /// For L2, properties that are universally quantified (or "any valid option").
    pub universally_quantified_properties: Vec<String>,
}

#[derive(Debug, Clone, PartialEq)]
pub enum ListStyle {
    Unordered(UnorderedListStyle),
    Ordered(OrderedListStyle),
}

#[derive(Debug, Clone, PartialEq)]
pub enum UnorderedListStyle {
    /// Default bullet.
    Disc,
    Circle,
    Square,
    Unmarked,
}

#[derive(Debug, Clone, PartialEq)]
pub enum OrderedListStyle {
    /// 1, 2, 3.
    Decimal,
    /// A, b, c.
    AlphaLower,
    /// A, B, C.
    AlphaUpper,
    /// I, ii, iii.
    RomanLower,
    /// I, II, III.
    RomanUpper,
}

#[derive(Debug, Clone, PartialEq)]
pub enum TableCellType {
    Header,
    Data,
}

#[derive(Debug, Clone, PartialEq)]
pub struct ColumnStyle {
    /// E.g., "20%", "100px".
    pub width: Option<String>,
    pub alignment: Option<TextAlignment>,
}

#[derive(Debug, Clone, PartialEq)]
pub struct TableStyleOptions {
    /// Show all borders.
    pub borders: Option<bool>,
    pub striped_rows: Option<bool>,
}

#[derive(Debug, Clone, PartialEq)]
pub enum HorizontalAlignment {
    Left,
    Center,
    Right,
}

#[derive(Debug, Clone, PartialEq)]
pub struct ThematicBreakNode;

#[derive(Debug, Clone, PartialEq)]
pub enum AlertBoxStyle {
    Information,
    Success,
    Warning,
    Error,
    Note,
    Tip,
}

#[derive(Debug, Clone, PartialEq)]
pub struct SectionDisplayOptions {
    pub show_title_numbering: Option<bool>,
}

/// Represents a property that can have selectable variants in the UI.
#[derive(Debug, Clone, PartialEq, Eq, Hash)]
pub struct SelectableProperty {
    pub name: String,
    pub current_variant: String,
    pub all_variants: Vec<String>,
    pub description: Option<String>,
    pub variant_descriptions: Option<BTreeMap<String, String>>,
    pub property_type_def_id: Option<String>,
}

/// Represents a quantified mathematical object in structured form
#[derive(Debug, Clone, PartialEq)]
pub struct QuantifiedObject {
    pub variable: String,
    pub quantification: QuantifierType,
    /// Could be expanded to a full type system.
    pub object_type: String,
    pub constraints: Vec<MathNode>,
    pub description: Option<String>,
}

/// Types of quantification
#[derive(Debug, Clone, PartialEq)]
pub enum QuantifierType {
    /// ∀.
    Universal,
    /// ∃.
    Existential,
    /// ∃!
    UniqueExistential,
    /// Defined in terms of.
    Defined,
    /// Arbitrary but fixed.
    Fixed,
}

/// Represents a variable binding in structured form
#[derive(Debug, Clone, PartialEq)]
pub struct VariableBinding {
    pub variable_name: String,
    pub value: MathNode,
    pub binding_type: BindingType,
}

/// Types of variable bindings
#[derive(Debug, Clone, PartialEq)]
pub enum BindingType {
    Assumption,
    Definition,
    Hypothesis,
    Given,
    Let,
}

/// Types of inequality relations
#[derive(Debug, Clone, PartialEq)]
pub enum InequalityType {
    LessThan,
    LessThanOrEqual,
    GreaterThan,
    GreaterThanOrEqual,
    NotEqual,
}

/// Types of numbers
#[derive(Debug, Clone, PartialEq)]
pub enum NumberType {
    Integer,
    Rational,
    Real,
    Complex,
    Natural,
}

/// Types of mathematical operations
#[derive(Debug, Clone, PartialEq)]
pub enum OperationType {
    Addition,
    Subtraction,
    Multiplication,
    Division,
    Power,
    Inverse,
    Composition,
    GroupOperation,
    SetUnion,
    SetIntersection,
    SetDifference,
}

/// Types of sets
#[derive(Debug, Clone, PartialEq)]
pub enum SetType {
    /// {1, 2, 3}.
    Explicit,
    /// {x | P(x)}.
    Implicit,
    /// ℕ, ℤ, ℝ, etc.
    Standard,
    Empty,
}

/// The values of some pairs of texts, in order.
pub open spec fn pairs_view(pairs: Seq<(String, String)>) -> Seq<(Seq<char>, Seq<char>)> {
    pairs.map_values(|pair: (String, String)| (pair.0@, pair.1@))
}

/// The values of some texts, in order.
pub open spec fn texts_view(texts: Seq<String>) -> Seq<Seq<char>> {
    texts.map_values(|text: String| text@)
}

/// The metadata pair that marks a section as the default rendering of a
/// schema, made from the ordinary rendering for want of a better one.
pub open spec fn default_rendering_warning() -> (Seq<char>, Seq<char>) {
    ("warning"@, "Default L1 schema rendering used"@)
}

/// The title of a schema document made from a section: the plain texts of the
/// segments of the section's title joined together, or a fixed title where
/// the section has none.
pub open spec fn schema_title_text(segments: Option<Seq<Seq<char>>>) -> Seq<char> {
    match segments {
        Some(texts) => texts.flatten(),
        None => "Schema Document"@,
    }
}

/// Marks the metadata of a section as that of a default schema rendering: the
/// warning pair is added after the pairs that are there.
pub fn add_default_rendering_warning(metadata: &mut Vec<(String, String)>)
    ensures
        pairs_view(final(metadata)@) == pairs_view(old(metadata)@).push(
            default_rendering_warning(),
        ),
{
    metadata.push(("warning".to_owned(), "Default L1 schema rendering used".to_owned()));
    assert(pairs_view(metadata@) =~= pairs_view(old(metadata)@).push(default_rendering_warning()));
}

/// The id of the main section of a schema document: the prefix and `-main`.
pub fn schema_section_id(id_prefix: &str) -> (id: String)
    ensures
        id@ == id_prefix@ + "-main"@,
{
    id_prefix.to_owned().concat("-main")
}

/// The id of a schema document: the prefix and `-l1-doc`.
pub fn schema_document_id(id_prefix: &str) -> (id: String)
    ensures
        id@ == id_prefix@ + "-l1-doc"@,
{
    id_prefix.to_owned().concat("-l1-doc")
}

/// The title of a schema document, from the plain texts of the segments of
/// its main section's title.
pub fn schema_title(segments: Option<&Vec<String>>) -> (title: String)
    ensures
        title@ == schema_title_text(
            match segments {
                Some(texts) => Some(texts_view(texts@)),
                None => None,
            },
        ),
{
    match segments {
        Some(texts) => {
            let ghost all = texts_view(texts@);
            let mut title = String::new();
            let mut i: usize = 0;
            assert(all.take(0).flatten() =~= Seq::<char>::empty());
            while i < texts.len()
                invariant
                    i <= texts.len(),
                    all == texts_view(texts@),
                    title@ == all.take(i as int).flatten(),
                decreases texts.len() - i,
            {
                title.append(texts[i].as_str());
                proof {
                    assert(all.take(i + 1) =~= all.take(i as int).push(all[i as int]));
                    all.take(i as int).lemma_flatten_push(all[i as int]);
                }
                i += 1;
            }
            assert(all.take(i as int) =~= all);
            title
        },
        None => "Schema Document".to_owned(),
    }
}

} // verus!
