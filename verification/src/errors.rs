//! The ways in which handling a tree can fail, and the structural rules whose
//! breach is one of them.

use vstd::prelude::*;

verus! {

/// A structural rule that the types of the tree do not enforce.
#[derive(Debug, Clone, Copy, PartialEq, Eq, Hash, Structural)]
pub enum TreeConstraint {
    /// The name of a variable definition has to be an identifier.
    NameIsIdentifier,
    /// The head of a function definition has to be a function call.
    HeadIsFunctionCall,
    /// An identifier has a body, unless it is the empty marker.
    IdentifierHasBody,
    /// The rows of a matrix have one length.
    MatrixIsRectangular,
    /// A fixed bracket step is one of the steps 1 to 4.
    BracketStepExists,
}

impl TreeConstraint {
    /// Whether a tree that breaks the rule cannot be written at all. The other
    /// rules are for the reader to know about: the tree is written as it is.
    pub open spec fn fatal(self) -> bool {
        match self {
            TreeConstraint::NameIsIdentifier => true,
            TreeConstraint::HeadIsFunctionCall => true,
            TreeConstraint::IdentifierHasBody => true,
            TreeConstraint::MatrixIsRectangular => false,
            TreeConstraint::BracketStepExists => false,
        }
    }

    /// Whether a tree that breaks the rule cannot be written at all.
    pub fn is_fatal(&self) -> (yes: bool)
        ensures
            yes == self.fatal(),
    {
        match self {
            TreeConstraint::NameIsIdentifier => true,
            TreeConstraint::HeadIsFunctionCall => true,
            TreeConstraint::IdentifierHasBody => true,
            TreeConstraint::MatrixIsRectangular => false,
            TreeConstraint::BracketStepExists => false,
        }
    }
}

/// A rule broken at a node.
#[derive(Debug, Clone, PartialEq, Eq, Hash)]
pub struct Violation {
    /// The id of the node at which the rule is broken.
    pub node_id: String,
    /// The rule.
    pub constraint: TreeConstraint,
}

/// The mathematical value of a [`Violation`].
pub ghost struct ViolationModel {
    pub node_id: Seq<char>,
    pub constraint: TreeConstraint,
}

impl View for Violation {
    type V = ViolationModel;

    open spec fn view(&self) -> ViolationModel {
        ViolationModel { node_id: self.node_id@, constraint: self.constraint }
    }
}

/// The values of some violations, in order.
pub open spec fn violations_view(found: Seq<Violation>) -> Seq<ViolationModel> {
    found.map_values(|v: Violation| v@)
}

/// Why a tree could not be built, checked or written.
#[derive(Debug, Clone, PartialEq, Eq, Hash)]
pub enum TreeError {
    /// The tree breaks a fatal structural rule at the node named. The rest of
    /// the tree, beside that node, is not affected.
    MalformedTree(Violation),
    /// A case of a vocabulary has no word. Every case has one, so nothing in
    /// this library gives this error; it is kept for callers that match on all
    /// the reasons a writer can have.
    UnmappedVariant,
    /// The tree has more levels than the limit allows. A caller may try again
    /// with a higher limit.
    DepthExceeded,
}

/// The mathematical value of a [`TreeError`].
pub ghost enum TreeErrorModel {
    MalformedTree(ViolationModel),
    UnmappedVariant,
    DepthExceeded,
}

impl View for TreeError {
    type V = TreeErrorModel;

    open spec fn view(&self) -> TreeErrorModel {
        match self {
            TreeError::MalformedTree(violation) => TreeErrorModel::MalformedTree(violation@),
            TreeError::UnmappedVariant => TreeErrorModel::UnmappedVariant,
            TreeError::DepthExceeded => TreeErrorModel::DepthExceeded,
        }
    }
}

/// Why a value could not be read as a tree.
#[derive(Debug, Clone, Copy, PartialEq, Eq, Hash, Structural)]
pub enum DeserializeError {
    /// The value is not the interchange form of any tree.
    NotCanonical,
    /// The value nests deeper than the limit allows.
    DepthExceeded,
}

} // verus!
