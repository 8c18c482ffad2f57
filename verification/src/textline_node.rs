//! One line of text between expressions.

use crate::math_node::MathNode;
use vstd::prelude::*;

verus! {

#[derive(Debug, Clone, Eq, PartialEq, Hash)]
pub enum TurnTextLineNode {
    Math(MathNode, String),
    Phrase(String),
    Empty,
    Comment(String),
    Latex(String),
    PageLink(String),
    Image(String),
}

} // verus!
