//! Mathematical expression trees and their canonical interchange form.
//!
//! An expression is a tree of [`MathNode`]s. [`serializer::serialize`] writes a
//! tree as an [`InterchangeValue`], a small tree of tagged objects that any
//! consumer can read; [`serializer::deserialize`] reads it back. The remaining
//! modules hold the plain records that a document keeps around its expressions.

pub mod canonical;
pub mod decoding;
pub mod encoding;
pub mod errors;
pub mod identifier_order;
pub mod interchange;
pub mod laws;
pub mod math_document;
pub mod math_node;
pub mod model;
pub mod nesting;
pub mod order;
pub mod relations;
pub mod rich_text;
pub mod second_order_math_node;
pub mod section_node;
pub mod serializer;
pub mod text_order;
pub mod textline_node;
pub mod validation;
pub mod vocabulary;

pub use errors::{DeserializeError, TreeConstraint, TreeError, Violation};
pub use interchange::InterchangeValue;
pub use math_node::{
    AdditionOperator, BaseUnitTypeNode, BracketSize, BracketStyle, DifferentialStyle, DivSymbol,
    DivisionStyle, Identifier, IntegralDomain, IntegralType, MathNode, MathNodeContent, MulSymbol,
    QuantificationNode, RefinedAddOrSubOperator, RefinedMulOrDivOperation, RelationOperatorNode,
    ScientificNotationStyle, ScriptNode, SpecialMiddleScriptContentTypeNode,
    SpecialMiddleScriptNode, ToTurnMath, UnaryRelationOperatorNode, UnitComponent,
};
pub use serializer::{
    deserialize, deserialize_with_limit, serialize, serialize_batch, serialize_with_limit,
    DEFAULT_MAX_DEPTH, DEFAULT_READ_DEPTH,
};
