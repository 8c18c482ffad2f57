//! The plain records that describe a document around its expressions:
//! metadata, interaction, resources and references.

use vstd::prelude::*;

verus! {

#[derive(Debug, Clone, PartialEq)]
pub enum CompletenessLevel {
    Stub,
    Basic,
    Comprehensive,
    Complete,
    Authoritative,
}

#[derive(Debug, Clone, PartialEq)]
pub struct ContentMetadata {
    pub language: Option<String>,
    pub version: Option<String>,
    pub created_at: Option<String>,
    pub last_modified: Option<String>,
    pub content_hash: Option<String>,
}

#[derive(Debug, Clone, PartialEq)]
pub enum DerivationMethod {
    ManualSummarization,
    AutomaticExtraction,
    ConceptualSimplification,
    ExampleFocus,
    AnalogicalMapping,
}

#[derive(Debug, Clone, PartialEq)]
pub enum SummarizationLevel {
    KeyDefinitionsOnly,
    MainTheoremsOnly,
    ConceptualOverview,
    DetailedSummary,
    FullDetail,
}

#[derive(Debug, Clone, PartialEq)]
pub enum InteractionType {
    PauseForClick,
    RequireHover,
    WaitForInput,
    BranchingChoice { options: Vec<String> },
    ParameterAdjustment { parameter_name: String },
}

#[derive(Debug, Clone, PartialEq)]
pub enum UserAction {
    Click,
    Hover,
    KeyPress { key: String },
    TextInput,
    SliderAdjust,
    Selection { from_options: Vec<String> },
}

#[derive(Debug, Clone, PartialEq)]
pub enum ConceptRelationType {
    Defines,
    Uses,
    Extends,
    Contradicts,
    Supports,
    Examples,
    Applications,
}

#[derive(Debug, Clone, PartialEq)]
pub enum ImportanceLevel {
    Critical,
    Important,
    Helpful,
    Supplementary,
}

#[derive(Debug, Clone, PartialEq)]
pub enum CourseLevel {
    HighSchool,
    UndergraduateIntro,
    UndergraduateAdvanced,
    Graduate,
    PostGraduate,
    Research,
}

#[derive(Debug, Clone, PartialEq)]
pub enum WritingStyle {
    Formal,
    Conversational,
    Tutorial,
    Explanatory,
    Narrative,
}

#[derive(Debug, Clone, PartialEq)]
pub enum RelationshipType {
    Equivalence,
    Implication,
    Specialization,
    Generalization,
    Application,
    Analogy,
}

#[derive(Debug, Clone, PartialEq)]
pub enum InteractionLevel {
    ReadOnly,
    BasicInteraction,
    FullInteraction,
    EditingAllowed,
}

#[derive(Debug, Clone, PartialEq)]
pub struct AcademicMetadata {
    pub authors: Vec<String>,
    pub date_published: Option<String>,
    pub date_modified: Option<String>,
    pub venue: Option<String>,
    pub doi: Option<String>,
    pub keywords: Vec<String>,
}

#[derive(Debug, Clone, PartialEq)]
pub struct ChapterInfo {
    pub chapter_number: Option<u32>,
    pub chapter_title: String,
    pub prerequisites: Vec<String>,
    pub learning_objectives: Vec<String>,
}

#[derive(Debug, Clone, PartialEq)]
pub enum PaperType {
    Research,
    Survey,
    Tutorial,
    Conference,
    Journal,
    Preprint,
}

#[derive(Debug, Clone, PartialEq)]
pub enum NoteStyle {
    Formal,
    Casual,
    Outline,
    MindMap,
    Cornell,
}

#[derive(Debug, Clone, PartialEq)]
pub struct EventHandler {
    pub event_type: String,
    pub target_selector: String,
    pub action: InteractionAction,
}

#[derive(Debug, Clone, PartialEq)]
pub enum InteractionAction {
    UpdateParameter { parameter: String, value: String },
    TriggerAnimation { animation_id: String },
    NavigateToSlide { slide_index: usize },
    ShowTooltip { content: String },
    HighlightElement { element_id: String },
}

#[derive(Debug, Clone, PartialEq)]
pub struct StateVariable {
    pub name: String,
    pub initial_value: String,
    pub variable_type: StateVariableType,
}

#[derive(Debug, Clone, PartialEq)]
pub enum StateVariableType {
    Number,
    Text,
    Boolean,
    Color,
    Position,
}

#[derive(Debug, Clone, PartialEq)]
pub enum ParameterType {
    Continuous,
    Discrete,
    Integer,
    Boolean,
    Categorical { options: Vec<String> },
}

#[derive(Debug, Clone, PartialEq)]
pub struct Constraint {
    pub constraint_type: ConstraintType,
    pub parameters_involved: Vec<String>,
    pub formula: String,
}

#[derive(Debug, Clone, PartialEq)]
pub enum ConstraintType {
    Equality,
    Inequality,
    Custom,
}

#[derive(Debug, Clone, PartialEq)]
pub enum VisualizationType {
    Plot2D,
    Plot3D,
    Vector,
    Matrix,
    Graph,
    Tree,
    Diagram,
}

#[derive(Debug, Clone, PartialEq)]
pub struct MappingVisualization {
    pub visualization_type: VisualizationType,
    pub source_elements: Vec<String>,
    pub target_elements: Vec<String>,
    pub mapping_arrows: Vec<MappingArrow>,
}

#[derive(Debug, Clone, PartialEq)]
pub struct MappingArrow {
    pub from: String,
    pub to: String,
    pub arrow_style: ArrowStyle,
    pub label: Option<String>,
}

#[derive(Debug, Clone, PartialEq)]
pub enum ArrowStyle {
    Solid,
    Dashed,
    Dotted,
    Bidirectional,
}

#[derive(Debug, Clone, PartialEq)]
pub struct ResourceCategory {
    pub name: String,
    pub icon: Option<String>,
    pub color: Option<String>,
    pub items: Vec<ResourceItem>,
}

#[derive(Debug, Clone, PartialEq)]
pub struct ResourceItem {
    pub id: String,
    pub title: String,
    pub description: Option<String>,
    pub resource_type: ResourceType,
    pub link: Option<String>,
}

#[derive(Debug, Clone, PartialEq)]
pub enum ResourceType {
    Definition,
    Theorem,
    Example,
    Exercise,
    Reference,
    Tool,
}

#[derive(Debug, Clone, PartialEq)]
pub struct SearchCapabilities {
    pub full_text_search: bool,
    pub semantic_search: bool,
    pub filter_by_type: bool,
    pub sort_options: Vec<SortOption>,
}

#[derive(Debug, Clone, PartialEq)]
pub enum SortOption {
    Alphabetical,
    ByType,
    ByRelevance,
    ByDate,
    ByImportance,
}

#[derive(Debug, Clone, PartialEq)]
pub struct FilterOption {
    pub name: String,
    pub filter_type: FilterType,
    pub options: Vec<String>,
}

#[derive(Debug, Clone, PartialEq)]
pub enum FilterType {
    Checkbox,
    Radio,
    Dropdown,
    Range,
}

#[derive(Debug, Clone, PartialEq)]
pub struct TheoryReference {
    pub theory_id: String,
    pub theory_name: String,
    pub version: Option<String>,
}

#[derive(Debug, Clone, PartialEq)]
pub enum ComparisonLayout {
    SideBySide,
    Tabbed,
    Overlaid,
    Sequential,
}

#[derive(Debug, Clone, PartialEq)]
pub struct TransformationType {
    pub transformation_id: String,
    pub name: String,
    pub description: Option<String>,
    pub reversible: bool,
}

#[derive(Debug, Clone, PartialEq)]
pub struct AlignmentType {
    pub alignment_id: String,
    pub name: String,
    pub description: Option<String>,
    pub precision_level: AlignmentPrecision,
}

#[derive(Debug, Clone, PartialEq)]
pub enum AlignmentPrecision {
    Exact,
    Approximate,
    Conceptual,
    Analogical,
}

#[derive(Debug, Clone, PartialEq)]
pub enum CorrespondenceType {
    Identical,
    Similar,
    Analogous,
    Opposite,
    Related,
}

#[derive(Debug, Clone, PartialEq)]
pub enum ScrollBehavior {
    Auto,
    Smooth,
    Instant,
    Disabled,
}

#[derive(Debug, Clone, PartialEq)]
pub struct AllowedInteraction {
    pub interaction_type: String,
    pub permissions: Vec<String>,
    pub restrictions: Option<Vec<String>>,
}

#[derive(Debug, Clone, PartialEq)]
pub struct ContextPreservationLevel {
    pub level_name: String,
    pub preserve_structure: bool,
    pub preserve_formatting: bool,
    pub preserve_links: bool,
    pub preserve_metadata: bool,
}

#[derive(Debug, Clone, PartialEq)]
pub struct SandboxPermission {
    pub permission_type: String,
    pub allowed: bool,
    pub restrictions: Option<Vec<String>>,
}

#[derive(Debug, Clone, PartialEq)]
pub struct ConceptRelationship {
    pub source_concept: String,
    pub target_concept: String,
    pub relationship_type: ConceptRelationType,
    pub description: Option<String>,
}

#[derive(Debug, Clone, PartialEq)]
pub struct SyncGroup {
    pub group_id: String,
    pub elements: Vec<String>,
    pub sync_type: SyncType,
}

#[derive(Debug, Clone, PartialEq)]
pub enum SyncType {
    Timeline,
    State,
    Animation,
    Scroll,
}

#[derive(Debug, Clone, PartialEq)]
pub enum EasingType {
    Linear,
    EaseIn,
    EaseOut,
    EaseInOut,
    Cubic,
    Bounce,
    Elastic,
}

#[derive(Debug, Clone, PartialEq)]
pub enum DirectionType {
    Up,
    Down,
    Left,
    Right,
    Custom,
}

#[derive(Debug, Clone, PartialEq)]
pub struct CrossReference {
    pub reference_id: String,
    pub target_id: String,
    pub reference_type: CrossReferenceType,
    pub display_text: Option<String>,
}

#[derive(Debug, Clone, PartialEq)]
pub enum CrossReferenceType {
    Citation,
    SeeAlso,
    Definition,
    Theorem,
    Example,
    Figure,
}

#[derive(Debug, Clone, PartialEq)]
pub struct DependencyNode {
    pub node_id: String,
    pub content_id: String,
    pub node_type: DependencyNodeType,
}

#[derive(Debug, Clone, PartialEq)]
pub enum DependencyNodeType {
    Concept,
    Definition,
    Theorem,
    Example,
    Section,
}

#[derive(Debug, Clone, PartialEq)]
pub enum DependencyType {
    Requires,
    Builds,
    References,
    Extends,
    Contradicts,
}

#[derive(Debug, PartialEq)]
pub struct TocNode {
    /// E.g., "1. Introduction".
    pub title: String,
    /// ID of the Section.
    pub target_id: String,
    pub children: Vec<TocNode>,
}

#[derive(Debug, Clone, PartialEq)]
pub struct BibEntry {
    /// E.g., "article", "book", "inproceedings".
    pub entry_type: String,
    /// BibTeX-like fields (author, title, year, journal, etc.)
    pub fields: Vec<(String, String)>,
}

#[derive(Debug, Clone, PartialEq)]
pub enum AudienceLevel {
    Expert,
    Graduate,
    Undergraduate,
    HighSchool,
    GeneralPublic,
    Mathematician,
    Student,
}

#[derive(Debug, Clone, PartialEq)]
pub enum LayoutStyle {
    SingleColumn,
    TwoColumn,
    MultiPanel,
    Sidebar,
    Dashboard,
    Presentation,
    Compact,
}

#[derive(Debug, Clone, PartialEq)]
pub enum InteractionFeature {
    ClickableLinks,
    HoverTooltips,
    ExpandableProofs,
    InteractiveControls,
    Animations,
    TypeAnnotations,
    HighlightCorrespondence,
    ParameterAdjustment,
}

#[derive(Debug, Clone, PartialEq)]
pub enum FormalityLevel {
    FullyFormal,
    SemiFormal,
    Intuitive,
    Conversational,
    Sketchy,
}

impl ContentMetadata {
    /// The metadata of a schema document: American English, version 1.0, and
    /// nothing else known.
    pub fn schema_default() -> (metadata: Self)
        ensures
            metadata.language matches Some(language) && language@ == "en-US"@,
            metadata.version matches Some(version) && version@ == "1.0"@,
            metadata.created_at is None,
            metadata.last_modified is None,
            metadata.content_hash is None,
    {
        ContentMetadata {
            language: Some("en-US".to_owned()),
            version: Some("1.0".to_owned()),
            created_at: None,
            last_modified: None,
            content_hash: None,
        }
    }
}

impl AcademicMetadata {
    /// The metadata of a document that was never published: no author, no
    /// date, no venue, no keyword.
    pub fn unpublished() -> (metadata: Self)
        ensures
            metadata.authors@.len() == 0,
            metadata.date_published is None,
            metadata.date_modified is None,
            metadata.venue is None,
            metadata.doi is None,
            metadata.keywords@.len() == 0,
    {
        AcademicMetadata {
            authors: Vec::new(),
            date_published: None,
            date_modified: None,
            venue: None,
            doi: None,
            keywords: Vec::new(),
        }
    }
}

/// The mathematical value of a [`TocNode`].
pub ghost struct TocModel {
    pub title: Seq<char>,
    pub target_id: Seq<char>,
    pub children: Seq<TocModel>,
}

/// The value of a node of a table of contents: its texts and the values of
/// the nodes below it.
pub open spec fn toc_view(node: TocNode) -> TocModel
    decreases node,
{
    TocModel {
        title: node.title@,
        target_id: node.target_id@,
        children: Seq::new(
            node.children.len() as nat,
            |i: int|
                if 0 <= i < node.children.len() {
                    toc_view(node.children[i])
                } else {
                    arbitrary()
                },
        ),
    }
}

impl View for TocNode {
    type V = TocModel;

    open spec fn view(&self) -> TocModel {
        toc_view(*self)
    }
}

fn toc_copy(node: &TocNode) -> (copy: TocNode)
    ensures
        copy@ == node@,
    decreases node,
{
    let mut children: Vec<TocNode> = Vec::new();
    let mut i: usize = 0;
    while i < node.children.len()
        invariant
            i <= node.children.len(),
            children.len() == i,
            forall|j: int| 0 <= j < i ==> (#[trigger] children[j])@ == node.children[j]@,
        decreases node.children.len() - i,
    {
        assert(decreases_to!(node.children => node.children[i as int]));
        let child = toc_copy(&node.children[i]);
        children.push(child);
        i += 1;
    }
    let copy = TocNode { title: node.title.clone(), target_id: node.target_id.clone(), children };
    assert(copy@.children =~= node@.children);
    copy
}

impl Clone for TocNode {
    /// A copy with the same value.
    fn clone(&self) -> (copy: Self)
        ensures
            copy@ == self@,
    {
        toc_copy(self)
    }
}

} // verus!
