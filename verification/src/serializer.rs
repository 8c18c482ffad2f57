//! The canonical serializer and its inverse.
//!
//! Writing a tree is all or nothing. The tree is first measured, then checked
//! against the structural rules, and only then written; a tree that is too
//! deep or breaks a fatal rule gives an error and no output at all.

use crate::decoding::{decode, read_node};
use crate::encoding::{encode, write_node};
use crate::errors::{DeserializeError, TreeError, TreeErrorModel, Violation};
use crate::interchange::{InterchangeValue, Json};
use crate::math_node::MathNode;
use crate::model::NodeModel;
use crate::validation::{depth, find_first_fatal, first_fatal, violations};
use vstd::prelude::*;

verus! {

/// The number of levels up to which [`serialize`] follows a tree.
pub const DEFAULT_MAX_DEPTH: usize = 128;

/// The number of levels up to which [`deserialize`] follows a value: as many
/// as the interchange form of a tree of [`DEFAULT_MAX_DEPTH`] levels can have.
pub const DEFAULT_READ_DEPTH: usize = 4 * DEFAULT_MAX_DEPTH + 2;

/// What writing `node` under the depth limit `limit` gives: the interchange
/// form of the whole tree, or the one reason why there is none. Depth is
/// judged first; among broken rules the first fatal one of a walk that visits
/// a node before its children is reported.
pub open spec fn serialized(node: NodeModel, limit: int) -> Result<Json, TreeErrorModel> {
    if depth(node) > limit {
        Err(TreeErrorModel::DepthExceeded)
    } else {
        match first_fatal(violations(node)) {
            Some(violation) => Err(TreeErrorModel::MalformedTree(violation)),
            None => Ok(encode(node)),
        }
    }
}

/// What reading `value` under the depth limit `limit` gives: the tree that the
/// value is the interchange form of, or the reason why there is none.
pub open spec fn deserialized(value: Json, limit: int) -> Result<NodeModel, DeserializeError> {
    if value.depth() > limit {
        Err(DeserializeError::DepthExceeded)
    } else {
        match decode(value) {
            Some(node) => Ok(node),
            None => Err(DeserializeError::NotCanonical),
        }
    }
}

/// The value of the outcome of writing.
pub open spec fn written_view(outcome: Result<InterchangeValue, TreeError>) -> Result<
    Json,
    TreeErrorModel,
> {
    match outcome {
        Ok(value) => Ok(value@),
        Err(error) => Err(error@),
    }
}

/// The value of the outcome of reading.
pub open spec fn read_view(outcome: Result<MathNode, DeserializeError>) -> Result<
    NodeModel,
    DeserializeError,
> {
    match outcome {
        Ok(node) => Ok(node@),
        Err(error) => Err(error),
    }
}

/// Writes a tree of at most `max_depth` levels in the interchange form.
pub fn serialize_with_limit(node: &MathNode, max_depth: usize) -> (outcome: Result<
    InterchangeValue,
    TreeError,
>)
    ensures
        written_view(outcome) == serialized(node@, max_depth as int),
        !(outcome matches Err(TreeError::UnmappedVariant)),
{
    let found = match node.validate(max_depth) {
        Ok(found) => found,
        Err(_) => {
            return Err(TreeError::DepthExceeded);
        },
    };
    match find_first_fatal(&found) {
        Some(violation) => Err(
            TreeError::MalformedTree(
                Violation { node_id: violation.node_id.clone(), constraint: violation.constraint },
            ),
        ),
        None => Ok(write_node(node)),
    }
}

/// Writes a tree of at most [`DEFAULT_MAX_DEPTH`] levels in the interchange
/// form.
pub fn serialize(node: &MathNode) -> (outcome: Result<InterchangeValue, TreeError>)
    ensures
        written_view(outcome) == serialized(node@, DEFAULT_MAX_DEPTH as int),
        !(outcome matches Err(TreeError::UnmappedVariant)),
{
    serialize_with_limit(node, DEFAULT_MAX_DEPTH)
}

/// Writes each tree of a batch on its own: a tree that cannot be written has
/// its error at its place, and the trees after it are written all the same.
pub fn serialize_batch(nodes: &Vec<MathNode>, max_depth: usize) -> (outcomes: Vec<
    Result<InterchangeValue, TreeError>,
>)
    ensures
        outcomes.len() == nodes.len(),
        forall|i: int|
            0 <= i < nodes.len() ==> written_view(#[trigger] outcomes[i]) == serialized(
                nodes[i]@,
                max_depth as int,
            ),
{
    let mut outcomes: Vec<Result<InterchangeValue, TreeError>> = Vec::new();
    let mut i: usize = 0;
    while i < nodes.len()
        invariant
            i <= nodes.len(),
            outcomes.len() == i,
            forall|j: int|
                0 <= j < i ==> written_view(#[trigger] outcomes[j]) == serialized(
                    nodes[j]@,
                    max_depth as int,
                ),
        decreases nodes.len() - i,
    {
        outcomes.push(serialize_with_limit(&nodes[i], max_depth));
        i += 1;
    }
    outcomes
}

/// Reads a tree from a value that nests at most `max_depth` levels.
pub fn deserialize_with_limit(value: &InterchangeValue, max_depth: usize) -> (outcome: Result<
    MathNode,
    DeserializeError,
>)
    ensures
        read_view(outcome) == deserialized(value@, max_depth as int),
{
    if !value.within_depth(max_depth) {
        return Err(DeserializeError::DepthExceeded);
    }
    match read_node(value) {
        Some(node) => Ok(node),
        None => Err(DeserializeError::NotCanonical),
    }
}

/// Reads a tree from a value that nests at most [`DEFAULT_READ_DEPTH`]
/// levels, which is enough for every value that [`serialize`] gives.
pub fn deserialize(value: &InterchangeValue) -> (outcome: Result<MathNode, DeserializeError>)
    ensures
        read_view(outcome) == deserialized(value@, DEFAULT_READ_DEPTH as int),
{
    deserialize_with_limit(value, DEFAULT_READ_DEPTH)
}

} // verus!
