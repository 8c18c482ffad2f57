//! The fixed words of the interchange form: one word for each case of each
//! closed vocabulary, and the way back from a word to its case.

use crate::interchange::{str_eq, text_value, InterchangeValue, Json};
use crate::math_node::{
    BracketSize, BracketStyle, DifferentialStyle, DivSymbol, DivisionStyle, MathNodeContent,
    MulSymbol, QuantificationNode, RefinedAddOrSubOperator, RefinedMulOrDivOperation,
    ScientificNotationStyle,
};
use crate::model::ContentModel;
use vstd::prelude::*;

verus! {

/// The kind of a node: which case of the content it holds. Its word is the
/// `type` of the node's object in the interchange form.
#[derive(Debug, Clone, Copy, PartialEq, Eq, Hash, Structural)]
pub enum NodeKind {
    Empty,
    Text,
    String,
    Bracketed,
    Matrix,
    Multiplications,
    Additions,
    Division,
    SumNotation,
    ProductNotation,
    Fraction,
    Power,
    UnaryPostfixOperation,
    UnaryPrefixOperation,
    Abs,
    FunctionCall,
    Quantity,
    ScientificNotation,
    Identifier,
    Unit,
    Relationship,
    UnaryRelationship,
    VariableDefinition,
    FunctionDefinition,
    Limit,
    Differential,
    Integration,
    QuantifiedExpression,
    And,
    Or,
    Not,
    True,
    False,
}

impl ContentModel {
    /// The kind of the content.
    pub open spec fn kind(self) -> NodeKind {
        match self {
            ContentModel::Empty => NodeKind::Empty,
            ContentModel::Text(..) => NodeKind::Text,
            ContentModel::String(..) => NodeKind::String,
            ContentModel::Bracketed { .. } => NodeKind::Bracketed,
            ContentModel::Matrix { .. } => NodeKind::Matrix,
            ContentModel::Multiplications { .. } => NodeKind::Multiplications,
            ContentModel::Additions { .. } => NodeKind::Additions,
            ContentModel::Division { .. } => NodeKind::Division,
            ContentModel::SumNotation { .. } => NodeKind::SumNotation,
            ContentModel::ProductNotation { .. } => NodeKind::ProductNotation,
            ContentModel::Fraction { .. } => NodeKind::Fraction,
            ContentModel::Power { .. } => NodeKind::Power,
            ContentModel::UnaryPostfixOperation { .. } => NodeKind::UnaryPostfixOperation,
            ContentModel::UnaryPrefixOperation { .. } => NodeKind::UnaryPrefixOperation,
            ContentModel::Abs { .. } => NodeKind::Abs,
            ContentModel::FunctionCall { .. } => NodeKind::FunctionCall,
            ContentModel::Quantity { .. } => NodeKind::Quantity,
            ContentModel::ScientificNotation { .. } => NodeKind::ScientificNotation,
            ContentModel::Identifier(..) => NodeKind::Identifier,
            ContentModel::Unit { .. } => NodeKind::Unit,
            ContentModel::Relationship { .. } => NodeKind::Relationship,
            ContentModel::UnaryRelationship { .. } => NodeKind::UnaryRelationship,
            ContentModel::VariableDefinition { .. } => NodeKind::VariableDefinition,
            ContentModel::FunctionDefinition { .. } => NodeKind::FunctionDefinition,
            ContentModel::Limit { .. } => NodeKind::Limit,
            ContentModel::Differential { .. } => NodeKind::Differential,
            ContentModel::Integration { .. } => NodeKind::Integration,
            ContentModel::QuantifiedExpression { .. } => NodeKind::QuantifiedExpression,
            ContentModel::And(..) => NodeKind::And,
            ContentModel::Or(..) => NodeKind::Or,
            ContentModel::Not(..) => NodeKind::Not,
            ContentModel::True => NodeKind::True,
            ContentModel::False => NodeKind::False,
        }
    }
}

impl MathNodeContent {
    /// The kind of the content.
    pub fn kind(&self) -> (kind: NodeKind)
        ensures
            kind == self@.kind(),
    {
        match self {
            MathNodeContent::Empty => NodeKind::Empty,
            MathNodeContent::Text(..) => NodeKind::Text,
            MathNodeContent::String(..) => NodeKind::String,
            MathNodeContent::Bracketed { .. } => NodeKind::Bracketed,
            MathNodeContent::Matrix { .. } => NodeKind::Matrix,
            MathNodeContent::Multiplications { .. } => NodeKind::Multiplications,
            MathNodeContent::Additions { .. } => NodeKind::Additions,
            MathNodeContent::Division { .. } => NodeKind::Division,
            MathNodeContent::SumNotation { .. } => NodeKind::SumNotation,
            MathNodeContent::ProductNotation { .. } => NodeKind::ProductNotation,
            MathNodeContent::Fraction { .. } => NodeKind::Fraction,
            MathNodeContent::Power { .. } => NodeKind::Power,
            MathNodeContent::UnaryPostfixOperation { .. } => NodeKind::UnaryPostfixOperation,
            MathNodeContent::UnaryPrefixOperation { .. } => NodeKind::UnaryPrefixOperation,
            MathNodeContent::Abs { .. } => NodeKind::Abs,
            MathNodeContent::FunctionCall { .. } => NodeKind::FunctionCall,
            MathNodeContent::Quantity { .. } => NodeKind::Quantity,
            MathNodeContent::ScientificNotation { .. } => NodeKind::ScientificNotation,
            MathNodeContent::Identifier(..) => NodeKind::Identifier,
            MathNodeContent::Unit { .. } => NodeKind::Unit,
            MathNodeContent::Relationship { .. } => NodeKind::Relationship,
            MathNodeContent::UnaryRelationship { .. } => NodeKind::UnaryRelationship,
            MathNodeContent::VariableDefinition { .. } => NodeKind::VariableDefinition,
            MathNodeContent::FunctionDefinition { .. } => NodeKind::FunctionDefinition,
            MathNodeContent::Limit { .. } => NodeKind::Limit,
            MathNodeContent::Differential { .. } => NodeKind::Differential,
            MathNodeContent::Integration { .. } => NodeKind::Integration,
            MathNodeContent::QuantifiedExpression { .. } => NodeKind::QuantifiedExpression,
            MathNodeContent::And(..) => NodeKind::And,
            MathNodeContent::Or(..) => NodeKind::Or,
            MathNodeContent::Not(..) => NodeKind::Not,
            MathNodeContent::True => NodeKind::True,
            MathNodeContent::False => NodeKind::False,
        }
    }
}

impl NodeKind {
    /// The word that stands for the kind in the interchange form.
    pub open spec fn tag(self) -> Seq<char> {
        match self {
            NodeKind::Empty => "empty"@,
            NodeKind::Text => "text"@,
            NodeKind::String => "string"@,
            NodeKind::Bracketed => "bracketed"@,
            NodeKind::Matrix => "matrix"@,
            NodeKind::Multiplications => "multiplications"@,
            NodeKind::Additions => "additions"@,
            NodeKind::Division => "division"@,
            NodeKind::SumNotation => "sum_notation"@,
            NodeKind::ProductNotation => "product_notation"@,
            NodeKind::Fraction => "fraction"@,
            NodeKind::Power => "power"@,
            NodeKind::UnaryPostfixOperation => "unary_postfix_operation"@,
            NodeKind::UnaryPrefixOperation => "unary_prefix_operation"@,
            NodeKind::Abs => "abs"@,
            NodeKind::FunctionCall => "function_call"@,
            NodeKind::Quantity => "quantity"@,
            NodeKind::ScientificNotation => "scientific_notation"@,
            NodeKind::Identifier => "identifier"@,
            NodeKind::Unit => "unit"@,
            NodeKind::Relationship => "relationship"@,
            NodeKind::UnaryRelationship => "unary_relationship"@,
            NodeKind::VariableDefinition => "variable_definition"@,
            NodeKind::FunctionDefinition => "function_definition"@,
            NodeKind::Limit => "limit"@,
            NodeKind::Differential => "differential"@,
            NodeKind::Integration => "integration"@,
            NodeKind::QuantifiedExpression => "quantified_expression"@,
            NodeKind::And => "and"@,
            NodeKind::Or => "or"@,
            NodeKind::Not => "not"@,
            NodeKind::True => "true"@,
            NodeKind::False => "false"@,
        }
    }

    /// What `word` stands for, if it is one of the words of [`Self::tag`].
    pub open spec fn parse(word: Seq<char>) -> Option<NodeKind> {
        if word == "empty"@ {
            Some(NodeKind::Empty)
        } else if word == "text"@ {
            Some(NodeKind::Text)
        } else if word == "string"@ {
            Some(NodeKind::String)
        } else if word == "bracketed"@ {
            Some(NodeKind::Bracketed)
        } else if word == "matrix"@ {
            Some(NodeKind::Matrix)
        } else if word == "multiplications"@ {
            Some(NodeKind::Multiplications)
        } else if word == "additions"@ {
            Some(NodeKind::Additions)
        } else if word == "division"@ {
            Some(NodeKind::Division)
        } else if word == "sum_notation"@ {
            Some(NodeKind::SumNotation)
        } else if word == "product_notation"@ {
            Some(NodeKind::ProductNotation)
        } else if word == "fraction"@ {
            Some(NodeKind::Fraction)
        } else if word == "power"@ {
            Some(NodeKind::Power)
        } else if word == "unary_postfix_operation"@ {
            Some(NodeKind::UnaryPostfixOperation)
        } else if word == "unary_prefix_operation"@ {
            Some(NodeKind::UnaryPrefixOperation)
        } else if word == "abs"@ {
            Some(NodeKind::Abs)
        } else if word == "function_call"@ {
            Some(NodeKind::FunctionCall)
        } else if word == "quantity"@ {
            Some(NodeKind::Quantity)
        } else if word == "scientific_notation"@ {
            Some(NodeKind::ScientificNotation)
        } else if word == "identifier"@ {
            Some(NodeKind::Identifier)
        } else if word == "unit"@ {
            Some(NodeKind::Unit)
        } else if word == "relationship"@ {
            Some(NodeKind::Relationship)
        } else if word == "unary_relationship"@ {
            Some(NodeKind::UnaryRelationship)
        } else if word == "variable_definition"@ {
            Some(NodeKind::VariableDefinition)
        } else if word == "function_definition"@ {
            Some(NodeKind::FunctionDefinition)
        } else if word == "limit"@ {
            Some(NodeKind::Limit)
        } else if word == "differential"@ {
            Some(NodeKind::Differential)
        } else if word == "integration"@ {
            Some(NodeKind::Integration)
        } else if word == "quantified_expression"@ {
            Some(NodeKind::QuantifiedExpression)
        } else if word == "and"@ {
            Some(NodeKind::And)
        } else if word == "or"@ {
            Some(NodeKind::Or)
        } else if word == "not"@ {
            Some(NodeKind::Not)
        } else if word == "true"@ {
            Some(NodeKind::True)
        } else if word == "false"@ {
            Some(NodeKind::False)
        } else {
            None
        }
    }

    /// The word that stands for the kind in the interchange form.
    pub fn as_tag(&self) -> (word: &'static str)
        ensures
            word@ == self.tag(),
    {
        match self {
            NodeKind::Empty => "empty",
            NodeKind::Text => "text",
            NodeKind::String => "string",
            NodeKind::Bracketed => "bracketed",
            NodeKind::Matrix => "matrix",
            NodeKind::Multiplications => "multiplications",
            NodeKind::Additions => "additions",
            NodeKind::Division => "division",
            NodeKind::SumNotation => "sum_notation",
            NodeKind::ProductNotation => "product_notation",
            NodeKind::Fraction => "fraction",
            NodeKind::Power => "power",
            NodeKind::UnaryPostfixOperation => "unary_postfix_operation",
            NodeKind::UnaryPrefixOperation => "unary_prefix_operation",
            NodeKind::Abs => "abs",
            NodeKind::FunctionCall => "function_call",
            NodeKind::Quantity => "quantity",
            NodeKind::ScientificNotation => "scientific_notation",
            NodeKind::Identifier => "identifier",
            NodeKind::Unit => "unit",
            NodeKind::Relationship => "relationship",
            NodeKind::UnaryRelationship => "unary_relationship",
            NodeKind::VariableDefinition => "variable_definition",
            NodeKind::FunctionDefinition => "function_definition",
            NodeKind::Limit => "limit",
            NodeKind::Differential => "differential",
            NodeKind::Integration => "integration",
            NodeKind::QuantifiedExpression => "quantified_expression",
            NodeKind::And => "and",
            NodeKind::Or => "or",
            NodeKind::Not => "not",
            NodeKind::True => "true",
            NodeKind::False => "false",
        }
    }

    /// What `word` stands for, if it is one of the words of [`Self::as_tag`].
    pub fn from_tag(word: &str) -> (found: Option<NodeKind>)
        ensures
            found == Self::parse(word@),
    {
        if str_eq(word, "empty") {
            Some(NodeKind::Empty)
        } else if str_eq(word, "text") {
            Some(NodeKind::Text)
        } else if str_eq(word, "string") {
            Some(NodeKind::String)
        } else if str_eq(word, "bracketed") {
            Some(NodeKind::Bracketed)
        } else if str_eq(word, "matrix") {
            Some(NodeKind::Matrix)
        } else if str_eq(word, "multiplications") {
            Some(NodeKind::Multiplications)
        } else if str_eq(word, "additions") {
            Some(NodeKind::Additions)
        } else if str_eq(word, "division") {
            Some(NodeKind::Division)
        } else if str_eq(word, "sum_notation") {
            Some(NodeKind::SumNotation)
        } else if str_eq(word, "product_notation") {
            Some(NodeKind::ProductNotation)
        } else if str_eq(word, "fraction") {
            Some(NodeKind::Fraction)
        } else if str_eq(word, "power") {
            Some(NodeKind::Power)
        } else if str_eq(word, "unary_postfix_operation") {
            Some(NodeKind::UnaryPostfixOperation)
        } else if str_eq(word, "unary_prefix_operation") {
            Some(NodeKind::UnaryPrefixOperation)
        } else if str_eq(word, "abs") {
            Some(NodeKind::Abs)
        } else if str_eq(word, "function_call") {
            Some(NodeKind::FunctionCall)
        } else if str_eq(word, "quantity") {
            Some(NodeKind::Quantity)
        } else if str_eq(word, "scientific_notation") {
            Some(NodeKind::ScientificNotation)
        } else if str_eq(word, "identifier") {
            Some(NodeKind::Identifier)
        } else if str_eq(word, "unit") {
            Some(NodeKind::Unit)
        } else if str_eq(word, "relationship") {
            Some(NodeKind::Relationship)
        } else if str_eq(word, "unary_relationship") {
            Some(NodeKind::UnaryRelationship)
        } else if str_eq(word, "variable_definition") {
            Some(NodeKind::VariableDefinition)
        } else if str_eq(word, "function_definition") {
            Some(NodeKind::FunctionDefinition)
        } else if str_eq(word, "limit") {
            Some(NodeKind::Limit)
        } else if str_eq(word, "differential") {
            Some(NodeKind::Differential)
        } else if str_eq(word, "integration") {
            Some(NodeKind::Integration)
        } else if str_eq(word, "quantified_expression") {
            Some(NodeKind::QuantifiedExpression)
        } else if str_eq(word, "and") {
            Some(NodeKind::And)
        } else if str_eq(word, "or") {
            Some(NodeKind::Or)
        } else if str_eq(word, "not") {
            Some(NodeKind::Not)
        } else if str_eq(word, "true") {
            Some(NodeKind::True)
        } else if str_eq(word, "false") {
            Some(NodeKind::False)
        } else {
            None
        }
    }

    /// No two cases share a word: reading the word of a case gives that case
    /// back.
    pub proof fn lemma_parse_tag(self)
        ensures
            Self::parse(self.tag()) == Some(self),
    {
        reveal_strlit("empty");
        reveal_strlit("text");
        reveal_strlit("string");
        reveal_strlit("bracketed");
        reveal_strlit("matrix");
        reveal_strlit("multiplications");
        reveal_strlit("additions");
        reveal_strlit("division");
        reveal_strlit("sum_notation");
        reveal_strlit("product_notation");
        reveal_strlit("fraction");
        reveal_strlit("power");
        reveal_strlit("unary_postfix_operation");
        reveal_strlit("unary_prefix_operation");
        reveal_strlit("abs");
        reveal_strlit("function_call");
        reveal_strlit("quantity");
        reveal_strlit("scientific_notation");
        reveal_strlit("identifier");
        reveal_strlit("unit");
        reveal_strlit("relationship");
        reveal_strlit("unary_relationship");
        reveal_strlit("variable_definition");
        reveal_strlit("function_definition");
        reveal_strlit("limit");
        reveal_strlit("differential");
        reveal_strlit("integration");
        reveal_strlit("quantified_expression");
        reveal_strlit("and");
        reveal_strlit("or");
        reveal_strlit("not");
        reveal_strlit("true");
        reveal_strlit("false");
        assert("empty"@.len() == 5 && "empty"@[0] == 'e' && "empty"@[1] == 'm');
        assert("empty"@[2] == 'p' && "empty"@[3] == 't' && "empty"@[4] == 'y');
        assert("text"@.len() == 4 && "text"@[0] == 't' && "text"@[1] == 'e' && "text"@[2] == 'x');
        assert("text"@[3] == 't');
        assert("string"@.len() == 6 && "string"@[0] == 's' && "string"@[1] == 't');
        assert("string"@[2] == 'r' && "string"@[3] == 'i' && "string"@[4] == 'n');
        assert("string"@[5] == 'g');
        assert("bracketed"@.len() == 9 && "bracketed"@[0] == 'b' && "bracketed"@[1] == 'r');
        assert("bracketed"@[2] == 'a' && "bracketed"@[3] == 'c' && "bracketed"@[4] == 'k');
        assert("bracketed"@[5] == 'e' && "bracketed"@[6] == 't' && "bracketed"@[7] == 'e');
        assert("bracketed"@[8] == 'd');
        assert("matrix"@.len() == 6 && "matrix"@[0] == 'm' && "matrix"@[1] == 'a');
        assert("matrix"@[2] == 't' && "matrix"@[3] == 'r' && "matrix"@[4] == 'i');
        assert("matrix"@[5] == 'x');
        assert("multiplications"@.len() == 15 && "multiplications"@[0] == 'm');
        assert("multiplications"@[1] == 'u' && "multiplications"@[2] == 'l');
        assert("multiplications"@[3] == 't' && "multiplications"@[4] == 'i');
        assert("multiplications"@[5] == 'p' && "multiplications"@[6] == 'l');
        assert("multiplications"@[7] == 'i' && "multiplications"@[8] == 'c');
        assert("multiplications"@[9] == 'a' && "multiplications"@[10] == 't');
        assert("multiplications"@[11] == 'i' && "multiplications"@[12] == 'o');
        assert("multiplications"@[13] == 'n' && "multiplications"@[14] == 's');
        assert("additions"@.len() == 9 && "additions"@[0] == 'a' && "additions"@[1] == 'd');
        assert("additions"@[2] == 'd' && "additions"@[3] == 'i' && "additions"@[4] == 't');
        assert("additions"@[5] == 'i' && "additions"@[6] == 'o' && "additions"@[7] == 'n');
        assert("additions"@[8] == 's');
        assert("division"@.len() == 8 && "division"@[0] == 'd' && "division"@[1] == 'i');
        assert("division"@[2] == 'v' && "division"@[3] == 'i' && "division"@[4] == 's');
        assert("division"@[5] == 'i' && "division"@[6] == 'o' && "division"@[7] == 'n');
        assert("sum_notation"@.len() == 12 && "sum_notation"@[0] == 's');
        assert("sum_notation"@[1] == 'u' && "sum_notation"@[2] == 'm' && "sum_notation"@[3] == '_');
        assert("sum_notation"@[4] == 'n' && "sum_notation"@[5] == 'o' && "sum_notation"@[6] == 't');
        assert("sum_notation"@[7] == 'a' && "sum_notation"@[8] == 't' && "sum_notation"@[9] == 'i');
        assert("sum_notation"@[10] == 'o' && "sum_notation"@[11] == 'n');
        assert("product_notation"@.len() == 16 && "product_notation"@[0] == 'p');
        assert("product_notation"@[1] == 'r' && "product_notation"@[2] == 'o');
        assert("product_notation"@[3] == 'd' && "product_notation"@[4] == 'u');
        assert("product_notation"@[5] == 'c' && "product_notation"@[6] == 't');
        assert("product_notation"@[7] == '_' && "product_notation"@[8] == 'n');
        assert("product_notation"@[9] == 'o' && "product_notation"@[10] == 't');
        assert("product_notation"@[11] == 'a' && "product_notation"@[12] == 't');
        assert("product_notation"@[13] == 'i' && "product_notation"@[14] == 'o');
        assert("product_notation"@[15] == 'n');
        assert("fraction"@.len() == 8 && "fraction"@[0] == 'f' && "fraction"@[1] == 'r');
        assert("fraction"@[2] == 'a' && "fraction"@[3] == 'c' && "fraction"@[4] == 't');
        assert("fraction"@[5] == 'i' && "fraction"@[6] == 'o' && "fraction"@[7] == 'n');
        assert("power"@.len() == 5 && "power"@[0] == 'p' && "power"@[1] == 'o');
        assert("power"@[2] == 'w' && "power"@[3] == 'e' && "power"@[4] == 'r');
        assert("unary_postfix_operation"@.len() == 23 && "unary_postfix_operation"@[0] == 'u');
        assert("unary_postfix_operation"@[1] == 'n' && "unary_postfix_operation"@[2] == 'a');
        assert("unary_postfix_operation"@[3] == 'r' && "unary_postfix_operation"@[4] == 'y');
        assert("unary_postfix_operation"@[5] == '_' && "unary_postfix_operation"@[6] == 'p');
        assert("unary_postfix_operation"@[7] == 'o' && "unary_postfix_operation"@[8] == 's');
        assert("unary_postfix_operation"@[9] == 't' && "unary_postfix_operation"@[10] == 'f');
        assert("unary_postfix_operation"@[11] == 'i' && "unary_postfix_operation"@[12] == 'x');
        assert("unary_postfix_operation"@[13] == '_' && "unary_postfix_operation"@[14] == 'o');
        assert("unary_postfix_operation"@[15] == 'p' && "unary_postfix_operation"@[16] == 'e');
        assert("unary_postfix_operation"@[17] == 'r' && "unary_postfix_operation"@[18] == 'a');
        assert("unary_postfix_operation"@[19] == 't' && "unary_postfix_operation"@[20] == 'i');
        assert("unary_postfix_operation"@[21] == 'o' && "unary_postfix_operation"@[22] == 'n');
        assert("unary_prefix_operation"@.len() == 22 && "unary_prefix_operation"@[0] == 'u');
        assert("unary_prefix_operation"@[1] == 'n' && "unary_prefix_operation"@[2] == 'a');
        assert("unary_prefix_operation"@[3] == 'r' && "unary_prefix_operation"@[4] == 'y');
        assert("unary_prefix_operation"@[5] == '_' && "unary_prefix_operation"@[6] == 'p');
        assert("unary_prefix_operation"@[7] == 'r' && "unary_prefix_operation"@[8] == 'e');
        assert("unary_prefix_operation"@[9] == 'f' && "unary_prefix_operation"@[10] == 'i');
        assert("unary_prefix_operation"@[11] == 'x' && "unary_prefix_operation"@[12] == '_');
        assert("unary_prefix_operation"@[13] == 'o' && "unary_prefix_operation"@[14] == 'p');
        assert("unary_prefix_operation"@[15] == 'e' && "unary_prefix_operation"@[16] == 'r');
        assert("unary_prefix_operation"@[17] == 'a' && "unary_prefix_operation"@[18] == 't');
        assert("unary_prefix_operation"@[19] == 'i' && "unary_prefix_operation"@[20] == 'o');
        assert("unary_prefix_operation"@[21] == 'n');
        assert("abs"@.len() == 3 && "abs"@[0] == 'a' && "abs"@[1] == 'b' && "abs"@[2] == 's');
        assert("function_call"@.len() == 13 && "function_call"@[0] == 'f');
        assert("function_call"@[1] == 'u' && "function_call"@[2] == 'n');
        assert("function_call"@[3] == 'c' && "function_call"@[4] == 't');
        assert("function_call"@[5] == 'i' && "function_call"@[6] == 'o');
        assert("function_call"@[7] == 'n' && "function_call"@[8] == '_');
        assert("function_call"@[9] == 'c' && "function_call"@[10] == 'a');
        assert("function_call"@[11] == 'l' && "function_call"@[12] == 'l');
        assert("quantity"@.len() == 8 && "quantity"@[0] == 'q' && "quantity"@[1] == 'u');
        assert("quantity"@[2] == 'a' && "quantity"@[3] == 'n' && "quantity"@[4] == 't');
        assert("quantity"@[5] == 'i' && "quantity"@[6] == 't' && "quantity"@[7] == 'y');
        assert("scientific_notation"@.len() == 19 && "scientific_notation"@[0] == 's');
        assert("scientific_notation"@[1] == 'c' && "scientific_notation"@[2] == 'i');
        assert("scientific_notation"@[3] == 'e' && "scientific_notation"@[4] == 'n');
        assert("scientific_notation"@[5] == 't' && "scientific_notation"@[6] == 'i');
        assert("scientific_notation"@[7] == 'f' && "scientific_notation"@[8] == 'i');
        assert("scientific_notation"@[9] == 'c' && "scientific_notation"@[10] == '_');
        assert("scientific_notation"@[11] == 'n' && "scientific_notation"@[12] == 'o');
        assert("scientific_notation"@[13] == 't' && "scientific_notation"@[14] == 'a');
        assert("scientific_notation"@[15] == 't' && "scientific_notation"@[16] == 'i');
        assert("scientific_notation"@[17] == 'o' && "scientific_notation"@[18] == 'n');
        assert("identifier"@.len() == 10 && "identifier"@[0] == 'i' && "identifier"@[1] == 'd');
        assert("identifier"@[2] == 'e' && "identifier"@[3] == 'n' && "identifier"@[4] == 't');
        assert("identifier"@[5] == 'i' && "identifier"@[6] == 'f' && "identifier"@[7] == 'i');
        assert("identifier"@[8] == 'e' && "identifier"@[9] == 'r');
        assert("unit"@.len() == 4 && "unit"@[0] == 'u' && "unit"@[1] == 'n' && "unit"@[2] == 'i');
        assert("unit"@[3] == 't');
        assert("relationship"@.len() == 12 && "relationship"@[0] == 'r');
        assert("relationship"@[1] == 'e' && "relationship"@[2] == 'l' && "relationship"@[3] == 'a');
        assert("relationship"@[4] == 't' && "relationship"@[5] == 'i' && "relationship"@[6] == 'o');
        assert("relationship"@[7] == 'n' && "relationship"@[8] == 's' && "relationship"@[9] == 'h');
        assert("relationship"@[10] == 'i' && "relationship"@[11] == 'p');
        assert("unary_relationship"@.len() == 18 && "unary_relationship"@[0] == 'u');
        assert("unary_relationship"@[1] == 'n' && "unary_relationship"@[2] == 'a');
        assert("unary_relationship"@[3] == 'r' && "unary_relationship"@[4] == 'y');
        assert("unary_relationship"@[5] == '_' && "unary_relationship"@[6] == 'r');
        assert("unary_relationship"@[7] == 'e' && "unary_relationship"@[8] == 'l');
        assert("unary_relationship"@[9] == 'a' && "unary_relationship"@[10] == 't');
        assert("unary_relationship"@[11] == 'i' && "unary_relationship"@[12] == 'o');
        assert("unary_relationship"@[13] == 'n' && "unary_relationship"@[14] == 's');
        assert("unary_relationship"@[15] == 'h' && "unary_relationship"@[16] == 'i');
        assert("unary_relationship"@[17] == 'p');
        assert("variable_definition"@.len() == 19 && "variable_definition"@[0] == 'v');
        assert("variable_definition"@[1] == 'a' && "variable_definition"@[2] == 'r');
        assert("variable_definition"@[3] == 'i' && "variable_definition"@[4] == 'a');
        assert("variable_definition"@[5] == 'b' && "variable_definition"@[6] == 'l');
        assert("variable_definition"@[7] == 'e' && "variable_definition"@[8] == '_');
        assert("variable_definition"@[9] == 'd' && "variable_definition"@[10] == 'e');
        assert("variable_definition"@[11] == 'f' && "variable_definition"@[12] == 'i');
        assert("variable_definition"@[13] == 'n' && "variable_definition"@[14] == 'i');
        assert("variable_definition"@[15] == 't' && "variable_definition"@[16] == 'i');
        assert("variable_definition"@[17] == 'o' && "variable_definition"@[18] == 'n');
        assert("function_definition"@.len() == 19 && "function_definition"@[0] == 'f');
        assert("function_definition"@[1] == 'u' && "function_definition"@[2] == 'n');
        assert("function_definition"@[3] == 'c' && "function_definition"@[4] == 't');
        assert("function_definition"@[5] == 'i' && "function_definition"@[6] == 'o');
        assert("function_definition"@[7] == 'n' && "function_definition"@[8] == '_');
        assert("function_definition"@[9] == 'd' && "function_definition"@[10] == 'e');
        assert("function_definition"@[11] == 'f' && "function_definition"@[12] == 'i');
        assert("function_definition"@[13] == 'n' && "function_definition"@[14] == 'i');
        assert("function_definition"@[15] == 't' && "function_definition"@[16] == 'i');
        assert("function_definition"@[17] == 'o' && "function_definition"@[18] == 'n');
        assert("limit"@.len() == 5 && "limit"@[0] == 'l' && "limit"@[1] == 'i');
        assert("limit"@[2] == 'm' && "limit"@[3] == 'i' && "limit"@[4] == 't');
        assert("differential"@.len() == 12 && "differential"@[0] == 'd');
        assert("differential"@[1] == 'i' && "differential"@[2] == 'f' && "differential"@[3] == 'f');
        assert("differential"@[4] == 'e' && "differential"@[5] == 'r' && "differential"@[6] == 'e');
        assert("differential"@[7] == 'n' && "differential"@[8] == 't' && "differential"@[9] == 'i');
        assert("differential"@[10] == 'a' && "differential"@[11] == 'l');
        assert("integration"@.len() == 11 && "integration"@[0] == 'i' && "integration"@[1] == 'n');
        assert("integration"@[2] == 't' && "integration"@[3] == 'e' && "integration"@[4] == 'g');
        assert("integration"@[5] == 'r' && "integration"@[6] == 'a' && "integration"@[7] == 't');
        assert("integration"@[8] == 'i' && "integration"@[9] == 'o' && "integration"@[10] == 'n');
        assert("quantified_expression"@.len() == 21 && "quantified_expression"@[0] == 'q');
        assert("quantified_expression"@[1] == 'u' && "quantified_expression"@[2] == 'a');
        assert("quantified_expression"@[3] == 'n' && "quantified_expression"@[4] == 't');
        assert("quantified_expression"@[5] == 'i' && "quantified_expression"@[6] == 'f');
        assert("quantified_expression"@[7] == 'i' && "quantified_expression"@[8] == 'e');
        assert("quantified_expression"@[9] == 'd' && "quantified_expression"@[10] == '_');
        assert("quantified_expression"@[11] == 'e' && "quantified_expression"@[12] == 'x');
        assert("quantified_expression"@[13] == 'p' && "quantified_expression"@[14] == 'r');
        assert("quantified_expression"@[15] == 'e' && "quantified_expression"@[16] == 's');
        assert("quantified_expression"@[17] == 's' && "quantified_expression"@[18] == 'i');
        assert("quantified_expression"@[19] == 'o' && "quantified_expression"@[20] == 'n');
        assert("and"@.len() == 3 && "and"@[0] == 'a' && "and"@[1] == 'n' && "and"@[2] == 'd');
        assert("or"@.len() == 2 && "or"@[0] == 'o' && "or"@[1] == 'r');
        assert("not"@.len() == 3 && "not"@[0] == 'n' && "not"@[1] == 'o' && "not"@[2] == 't');
        assert("true"@.len() == 4 && "true"@[0] == 't' && "true"@[1] == 'r' && "true"@[2] == 'u');
        assert("true"@[3] == 'e');
        assert("false"@.len() == 5 && "false"@[0] == 'f' && "false"@[1] == 'a');
        assert("false"@[2] == 'l' && "false"@[3] == 's' && "false"@[4] == 'e');
    }
}

impl BracketStyle {
    /// The word that stands for the style in the interchange form.
    pub open spec fn tag(self) -> Seq<char> {
        match self {
            BracketStyle::Round => "round"@,
            BracketStyle::Square => "square"@,
            BracketStyle::Curly => "curly"@,
            BracketStyle::Angle => "angle"@,
            BracketStyle::Vertical => "vertical"@,
            BracketStyle::DoubleVertical => "double_vertical"@,
            BracketStyle::Ceiling => "ceiling"@,
            BracketStyle::Floor => "floor"@,
            BracketStyle::Invisible => "none"@,
        }
    }

    /// What `word` stands for, if it is one of the words of [`Self::tag`].
    pub open spec fn parse(word: Seq<char>) -> Option<BracketStyle> {
        if word == "round"@ {
            Some(BracketStyle::Round)
        } else if word == "square"@ {
            Some(BracketStyle::Square)
        } else if word == "curly"@ {
            Some(BracketStyle::Curly)
        } else if word == "angle"@ {
            Some(BracketStyle::Angle)
        } else if word == "vertical"@ {
            Some(BracketStyle::Vertical)
        } else if word == "double_vertical"@ {
            Some(BracketStyle::DoubleVertical)
        } else if word == "ceiling"@ {
            Some(BracketStyle::Ceiling)
        } else if word == "floor"@ {
            Some(BracketStyle::Floor)
        } else if word == "none"@ {
            Some(BracketStyle::Invisible)
        } else {
            None
        }
    }

    /// The word that stands for the style in the interchange form.
    pub fn as_tag(&self) -> (word: &'static str)
        ensures
            word@ == self.tag(),
    {
        match self {
            BracketStyle::Round => "round",
            BracketStyle::Square => "square",
            BracketStyle::Curly => "curly",
            BracketStyle::Angle => "angle",
            BracketStyle::Vertical => "vertical",
            BracketStyle::DoubleVertical => "double_vertical",
            BracketStyle::Ceiling => "ceiling",
            BracketStyle::Floor => "floor",
            BracketStyle::Invisible => "none",
        }
    }

    /// What `word` stands for, if it is one of the words of [`Self::as_tag`].
    pub fn from_tag(word: &str) -> (found: Option<BracketStyle>)
        ensures
            found == Self::parse(word@),
    {
        if str_eq(word, "round") {
            Some(BracketStyle::Round)
        } else if str_eq(word, "square") {
            Some(BracketStyle::Square)
        } else if str_eq(word, "curly") {
            Some(BracketStyle::Curly)
        } else if str_eq(word, "angle") {
            Some(BracketStyle::Angle)
        } else if str_eq(word, "vertical") {
            Some(BracketStyle::Vertical)
        } else if str_eq(word, "double_vertical") {
            Some(BracketStyle::DoubleVertical)
        } else if str_eq(word, "ceiling") {
            Some(BracketStyle::Ceiling)
        } else if str_eq(word, "floor") {
            Some(BracketStyle::Floor)
        } else if str_eq(word, "none") {
            Some(BracketStyle::Invisible)
        } else {
            None
        }
    }

    /// No two cases share a word: reading the word of a case gives that case
    /// back.
    pub proof fn lemma_parse_tag(self)
        ensures
            Self::parse(self.tag()) == Some(self),
    {
        reveal_strlit("round");
        reveal_strlit("square");
        reveal_strlit("curly");
        reveal_strlit("angle");
        reveal_strlit("vertical");
        reveal_strlit("double_vertical");
        reveal_strlit("ceiling");
        reveal_strlit("floor");
        reveal_strlit("none");
        assert("round"@.len() == 5 && "round"@[0] == 'r' && "round"@[1] == 'o');
        assert("round"@[2] == 'u' && "round"@[3] == 'n' && "round"@[4] == 'd');
        assert("square"@.len() == 6 && "square"@[0] == 's' && "square"@[1] == 'q');
        assert("square"@[2] == 'u' && "square"@[3] == 'a' && "square"@[4] == 'r');
        assert("square"@[5] == 'e');
        assert("curly"@.len() == 5 && "curly"@[0] == 'c' && "curly"@[1] == 'u');
        assert("curly"@[2] == 'r' && "curly"@[3] == 'l' && "curly"@[4] == 'y');
        assert("angle"@.len() == 5 && "angle"@[0] == 'a' && "angle"@[1] == 'n');
        assert("angle"@[2] == 'g' && "angle"@[3] == 'l' && "angle"@[4] == 'e');
        assert("vertical"@.len() == 8 && "vertical"@[0] == 'v' && "vertical"@[1] == 'e');
        assert("vertical"@[2] == 'r' && "vertical"@[3] == 't' && "vertical"@[4] == 'i');
        assert("vertical"@[5] == 'c' && "vertical"@[6] == 'a' && "vertical"@[7] == 'l');
        assert("double_vertical"@.len() == 15 && "double_vertical"@[0] == 'd');
        assert("double_vertical"@[1] == 'o' && "double_vertical"@[2] == 'u');
        assert("double_vertical"@[3] == 'b' && "double_vertical"@[4] == 'l');
        assert("double_vertical"@[5] == 'e' && "double_vertical"@[6] == '_');
        assert("double_vertical"@[7] == 'v' && "double_vertical"@[8] == 'e');
        assert("double_vertical"@[9] == 'r' && "double_vertical"@[10] == 't');
        assert("double_vertical"@[11] == 'i' && "double_vertical"@[12] == 'c');
        assert("double_vertical"@[13] == 'a' && "double_vertical"@[14] == 'l');
        assert("ceiling"@.len() == 7 && "ceiling"@[0] == 'c' && "ceiling"@[1] == 'e');
        assert("ceiling"@[2] == 'i' && "ceiling"@[3] == 'l' && "ceiling"@[4] == 'i');
        assert("ceiling"@[5] == 'n' && "ceiling"@[6] == 'g');
        assert("floor"@.len() == 5 && "floor"@[0] == 'f' && "floor"@[1] == 'l');
        assert("floor"@[2] == 'o' && "floor"@[3] == 'o' && "floor"@[4] == 'r');
        assert("none"@.len() == 4 && "none"@[0] == 'n' && "none"@[1] == 'o' && "none"@[2] == 'n');
        assert("none"@[3] == 'e');
    }

    /// How the style is written in the interchange form: as its word.
    pub open spec fn encode(self) -> Json {
        Json::Text(self.tag())
    }

    /// What an interchange value stands for, if it is a word of [`Self::tag`].
    pub open spec fn decode(value: Json) -> Option<BracketStyle> {
        match value {
            Json::Text(word) => Self::parse(word),
            _ => None,
        }
    }

    /// Writes the style in the interchange form.
    pub fn to_interchange(&self) -> (value: InterchangeValue)
        ensures
            value@ == self.encode(),
    {
        text_value(self.as_tag())
    }

    /// Reads the style from the interchange form.
    pub fn from_interchange(value: &InterchangeValue) -> (found: Option<BracketStyle>)
        ensures
            found == Self::decode(value@),
    {
        match value {
            InterchangeValue::Text(word) => Self::from_tag(word.as_str()),
            _ => None,
        }
    }

    /// Reading what was written gives the same value back.
    pub proof fn lemma_decode_encode(self)
        ensures
            Self::decode(self.encode()) == Some(self),
    {
        self.lemma_parse_tag();
    }

    /// Only what writing gives is read: a value that stands for the style is
    /// the very value that is written for it.
    pub proof fn lemma_encode_decode(value: Json)
        requires
            Self::decode(value) is Some,
        ensures
            Self::decode(value)->Some_0.encode() == value,
    {
    }
}

impl MulSymbol {
    /// The word that stands for the symbol in the interchange form.
    pub open spec fn tag(self) -> Seq<char> {
        match self {
            MulSymbol::Times => "times"@,
            MulSymbol::Dot => "dot"@,
            MulSymbol::LittleSpace => "little_space"@,
        }
    }

    /// What `word` stands for, if it is one of the words of [`Self::tag`].
    pub open spec fn parse(word: Seq<char>) -> Option<MulSymbol> {
        if word == "times"@ {
            Some(MulSymbol::Times)
        } else if word == "dot"@ {
            Some(MulSymbol::Dot)
        } else if word == "little_space"@ {
            Some(MulSymbol::LittleSpace)
        } else {
            None
        }
    }

    /// The word that stands for the symbol in the interchange form.
    pub fn as_tag(&self) -> (word: &'static str)
        ensures
            word@ == self.tag(),
    {
        match self {
            MulSymbol::Times => "times",
            MulSymbol::Dot => "dot",
            MulSymbol::LittleSpace => "little_space",
        }
    }

    /// What `word` stands for, if it is one of the words of [`Self::as_tag`].
    pub fn from_tag(word: &str) -> (found: Option<MulSymbol>)
        ensures
            found == Self::parse(word@),
    {
        if str_eq(word, "times") {
            Some(MulSymbol::Times)
        } else if str_eq(word, "dot") {
            Some(MulSymbol::Dot)
        } else if str_eq(word, "little_space") {
            Some(MulSymbol::LittleSpace)
        } else {
            None
        }
    }

    /// No two cases share a word: reading the word of a case gives that case
    /// back.
    pub proof fn lemma_parse_tag(self)
        ensures
            Self::parse(self.tag()) == Some(self),
    {
        reveal_strlit("times");
        reveal_strlit("dot");
        reveal_strlit("little_space");
        assert("times"@.len() == 5 && "times"@[0] == 't' && "times"@[1] == 'i');
        assert("times"@[2] == 'm' && "times"@[3] == 'e' && "times"@[4] == 's');
        assert("dot"@.len() == 3 && "dot"@[0] == 'd' && "dot"@[1] == 'o' && "dot"@[2] == 't');
        assert("little_space"@.len() == 12 && "little_space"@[0] == 'l');
        assert("little_space"@[1] == 'i' && "little_space"@[2] == 't' && "little_space"@[3] == 't');
        assert("little_space"@[4] == 'l' && "little_space"@[5] == 'e' && "little_space"@[6] == '_');
        assert("little_space"@[7] == 's' && "little_space"@[8] == 'p' && "little_space"@[9] == 'a');
        assert("little_space"@[10] == 'c' && "little_space"@[11] == 'e');
    }

    /// How the symbol is written in the interchange form: as its word.
    pub open spec fn encode(self) -> Json {
        Json::Text(self.tag())
    }

    /// What an interchange value stands for, if it is a word of [`Self::tag`].
    pub open spec fn decode(value: Json) -> Option<MulSymbol> {
        match value {
            Json::Text(word) => Self::parse(word),
            _ => None,
        }
    }

    /// Writes the symbol in the interchange form.
    pub fn to_interchange(&self) -> (value: InterchangeValue)
        ensures
            value@ == self.encode(),
    {
        text_value(self.as_tag())
    }

    /// Reads the symbol from the interchange form.
    pub fn from_interchange(value: &InterchangeValue) -> (found: Option<MulSymbol>)
        ensures
            found == Self::decode(value@),
    {
        match value {
            InterchangeValue::Text(word) => Self::from_tag(word.as_str()),
            _ => None,
        }
    }

    /// Reading what was written gives the same value back.
    pub proof fn lemma_decode_encode(self)
        ensures
            Self::decode(self.encode()) == Some(self),
    {
        self.lemma_parse_tag();
    }

    /// Only what writing gives is read: a value that stands for the symbol is
    /// the very value that is written for it.
    pub proof fn lemma_encode_decode(value: Json)
        requires
            Self::decode(value) is Some,
        ensures
            Self::decode(value)->Some_0.encode() == value,
    {
    }
}

impl DivSymbol {
    /// The word that stands for the symbol in the interchange form.
    pub open spec fn tag(self) -> Seq<char> {
        match self {
            DivSymbol::Slash => "slash"@,
            DivSymbol::Divide => "divide"@,
        }
    }

    /// What `word` stands for, if it is one of the words of [`Self::tag`].
    pub open spec fn parse(word: Seq<char>) -> Option<DivSymbol> {
        if word == "slash"@ {
            Some(DivSymbol::Slash)
        } else if word == "divide"@ {
            Some(DivSymbol::Divide)
        } else {
            None
        }
    }

    /// The word that stands for the symbol in the interchange form.
    pub fn as_tag(&self) -> (word: &'static str)
        ensures
            word@ == self.tag(),
    {
        match self {
            DivSymbol::Slash => "slash",
            DivSymbol::Divide => "divide",
        }
    }

    /// What `word` stands for, if it is one of the words of [`Self::as_tag`].
    pub fn from_tag(word: &str) -> (found: Option<DivSymbol>)
        ensures
            found == Self::parse(word@),
    {
        if str_eq(word, "slash") {
            Some(DivSymbol::Slash)
        } else if str_eq(word, "divide") {
            Some(DivSymbol::Divide)
        } else {
            None
        }
    }

    /// No two cases share a word: reading the word of a case gives that case
    /// back.
    pub proof fn lemma_parse_tag(self)
        ensures
            Self::parse(self.tag()) == Some(self),
    {
        reveal_strlit("slash");
        reveal_strlit("divide");
        assert("slash"@.len() == 5 && "slash"@[0] == 's' && "slash"@[1] == 'l');
        assert("slash"@[2] == 'a' && "slash"@[3] == 's' && "slash"@[4] == 'h');
        assert("divide"@.len() == 6 && "divide"@[0] == 'd' && "divide"@[1] == 'i');
        assert("divide"@[2] == 'v' && "divide"@[3] == 'i' && "divide"@[4] == 'd');
        assert("divide"@[5] == 'e');
    }

    /// How the symbol is written in the interchange form: as its word.
    pub open spec fn encode(self) -> Json {
        Json::Text(self.tag())
    }

    /// What an interchange value stands for, if it is a word of [`Self::tag`].
    pub open spec fn decode(value: Json) -> Option<DivSymbol> {
        match value {
            Json::Text(word) => Self::parse(word),
            _ => None,
        }
    }

    /// Writes the symbol in the interchange form.
    pub fn to_interchange(&self) -> (value: InterchangeValue)
        ensures
            value@ == self.encode(),
    {
        text_value(self.as_tag())
    }

    /// Reads the symbol from the interchange form.
    pub fn from_interchange(value: &InterchangeValue) -> (found: Option<DivSymbol>)
        ensures
            found == Self::decode(value@),
    {
        match value {
            InterchangeValue::Text(word) => Self::from_tag(word.as_str()),
            _ => None,
        }
    }

    /// Reading what was written gives the same value back.
    pub proof fn lemma_decode_encode(self)
        ensures
            Self::decode(self.encode()) == Some(self),
    {
        self.lemma_parse_tag();
    }

    /// Only what writing gives is read: a value that stands for the symbol is
    /// the very value that is written for it.
    pub proof fn lemma_encode_decode(value: Json)
        requires
            Self::decode(value) is Some,
        ensures
            Self::decode(value)->Some_0.encode() == value,
    {
    }
}

impl DivisionStyle {
    /// The word that stands for the layout in the interchange form.
    pub open spec fn tag(self) -> Seq<char> {
        match self {
            DivisionStyle::Fraction => "fraction"@,
            DivisionStyle::Inline => "inline"@,
            DivisionStyle::Division => "division"@,
        }
    }

    /// What `word` stands for, if it is one of the words of [`Self::tag`].
    pub open spec fn parse(word: Seq<char>) -> Option<DivisionStyle> {
        if word == "fraction"@ {
            Some(DivisionStyle::Fraction)
        } else if word == "inline"@ {
            Some(DivisionStyle::Inline)
        } else if word == "division"@ {
            Some(DivisionStyle::Division)
        } else {
            None
        }
    }

    /// The word that stands for the layout in the interchange form.
    pub fn as_tag(&self) -> (word: &'static str)
        ensures
            word@ == self.tag(),
    {
        match self {
            DivisionStyle::Fraction => "fraction",
            DivisionStyle::Inline => "inline",
            DivisionStyle::Division => "division",
        }
    }

    /// What `word` stands for, if it is one of the words of [`Self::as_tag`].
    pub fn from_tag(word: &str) -> (found: Option<DivisionStyle>)
        ensures
            found == Self::parse(word@),
    {
        if str_eq(word, "fraction") {
            Some(DivisionStyle::Fraction)
        } else if str_eq(word, "inline") {
            Some(DivisionStyle::Inline)
        } else if str_eq(word, "division") {
            Some(DivisionStyle::Division)
        } else {
            None
        }
    }

    /// No two cases share a word: reading the word of a case gives that case
    /// back.
    pub proof fn lemma_parse_tag(self)
        ensures
            Self::parse(self.tag()) == Some(self),
    {
        reveal_strlit("fraction");
        reveal_strlit("inline");
        reveal_strlit("division");
        assert("fraction"@.len() == 8 && "fraction"@[0] == 'f' && "fraction"@[1] == 'r');
        assert("fraction"@[2] == 'a' && "fraction"@[3] == 'c' && "fraction"@[4] == 't');
        assert("fraction"@[5] == 'i' && "fraction"@[6] == 'o' && "fraction"@[7] == 'n');
        assert("inline"@.len() == 6 && "inline"@[0] == 'i' && "inline"@[1] == 'n');
        assert("inline"@[2] == 'l' && "inline"@[3] == 'i' && "inline"@[4] == 'n');
        assert("inline"@[5] == 'e');
        assert("division"@.len() == 8 && "division"@[0] == 'd' && "division"@[1] == 'i');
        assert("division"@[2] == 'v' && "division"@[3] == 'i' && "division"@[4] == 's');
        assert("division"@[5] == 'i' && "division"@[6] == 'o' && "division"@[7] == 'n');
    }

    /// How the layout is written in the interchange form: as its word.
    pub open spec fn encode(self) -> Json {
        Json::Text(self.tag())
    }

    /// What an interchange value stands for, if it is a word of [`Self::tag`].
    pub open spec fn decode(value: Json) -> Option<DivisionStyle> {
        match value {
            Json::Text(word) => Self::parse(word),
            _ => None,
        }
    }

    /// Writes the layout in the interchange form.
    pub fn to_interchange(&self) -> (value: InterchangeValue)
        ensures
            value@ == self.encode(),
    {
        text_value(self.as_tag())
    }

    /// Reads the layout from the interchange form.
    pub fn from_interchange(value: &InterchangeValue) -> (found: Option<DivisionStyle>)
        ensures
            found == Self::decode(value@),
    {
        match value {
            InterchangeValue::Text(word) => Self::from_tag(word.as_str()),
            _ => None,
        }
    }

    /// Reading what was written gives the same value back.
    pub proof fn lemma_decode_encode(self)
        ensures
            Self::decode(self.encode()) == Some(self),
    {
        self.lemma_parse_tag();
    }

    /// Only what writing gives is read: a value that stands for the layout is
    /// the very value that is written for it.
    pub proof fn lemma_encode_decode(value: Json)
        requires
            Self::decode(value) is Some,
        ensures
            Self::decode(value)->Some_0.encode() == value,
    {
    }
}

impl RefinedAddOrSubOperator {
    /// The word that stands for the sign in the interchange form.
    pub open spec fn tag(self) -> Seq<char> {
        match self {
            RefinedAddOrSubOperator::Addition => "plus"@,
            RefinedAddOrSubOperator::Subtraction => "minus"@,
            RefinedAddOrSubOperator::NoOperator => "none"@,
        }
    }

    /// What `word` stands for, if it is one of the words of [`Self::tag`].
    pub open spec fn parse(word: Seq<char>) -> Option<RefinedAddOrSubOperator> {
        if word == "plus"@ {
            Some(RefinedAddOrSubOperator::Addition)
        } else if word == "minus"@ {
            Some(RefinedAddOrSubOperator::Subtraction)
        } else if word == "none"@ {
            Some(RefinedAddOrSubOperator::NoOperator)
        } else {
            None
        }
    }

    /// The word that stands for the sign in the interchange form.
    pub fn as_tag(&self) -> (word: &'static str)
        ensures
            word@ == self.tag(),
    {
        match self {
            RefinedAddOrSubOperator::Addition => "plus",
            RefinedAddOrSubOperator::Subtraction => "minus",
            RefinedAddOrSubOperator::NoOperator => "none",
        }
    }

    /// What `word` stands for, if it is one of the words of [`Self::as_tag`].
    pub fn from_tag(word: &str) -> (found: Option<RefinedAddOrSubOperator>)
        ensures
            found == Self::parse(word@),
    {
        if str_eq(word, "plus") {
            Some(RefinedAddOrSubOperator::Addition)
        } else if str_eq(word, "minus") {
            Some(RefinedAddOrSubOperator::Subtraction)
        } else if str_eq(word, "none") {
            Some(RefinedAddOrSubOperator::NoOperator)
        } else {
            None
        }
    }

    /// No two cases share a word: reading the word of a case gives that case
    /// back.
    pub proof fn lemma_parse_tag(self)
        ensures
            Self::parse(self.tag()) == Some(self),
    {
        reveal_strlit("plus");
        reveal_strlit("minus");
        reveal_strlit("none");
        assert("plus"@.len() == 4 && "plus"@[0] == 'p' && "plus"@[1] == 'l' && "plus"@[2] == 'u');
        assert("plus"@[3] == 's');
        assert("minus"@.len() == 5 && "minus"@[0] == 'm' && "minus"@[1] == 'i');
        assert("minus"@[2] == 'n' && "minus"@[3] == 'u' && "minus"@[4] == 's');
        assert("none"@.len() == 4 && "none"@[0] == 'n' && "none"@[1] == 'o' && "none"@[2] == 'n');
        assert("none"@[3] == 'e');
    }

    /// How the sign is written in the interchange form: as its word.
    pub open spec fn encode(self) -> Json {
        Json::Text(self.tag())
    }

    /// What an interchange value stands for, if it is a word of [`Self::tag`].
    pub open spec fn decode(value: Json) -> Option<RefinedAddOrSubOperator> {
        match value {
            Json::Text(word) => Self::parse(word),
            _ => None,
        }
    }

    /// Writes the sign in the interchange form.
    pub fn to_interchange(&self) -> (value: InterchangeValue)
        ensures
            value@ == self.encode(),
    {
        text_value(self.as_tag())
    }

    /// Reads the sign from the interchange form.
    pub fn from_interchange(value: &InterchangeValue) -> (found: Option<RefinedAddOrSubOperator>)
        ensures
            found == Self::decode(value@),
    {
        match value {
            InterchangeValue::Text(word) => Self::from_tag(word.as_str()),
            _ => None,
        }
    }

    /// Reading what was written gives the same value back.
    pub proof fn lemma_decode_encode(self)
        ensures
            Self::decode(self.encode()) == Some(self),
    {
        self.lemma_parse_tag();
    }

    /// Only what writing gives is read: a value that stands for the sign is
    /// the very value that is written for it.
    pub proof fn lemma_encode_decode(value: Json)
        requires
            Self::decode(value) is Some,
        ensures
            Self::decode(value)->Some_0.encode() == value,
    {
    }
}

impl ScientificNotationStyle {
    /// The word that stands for the style in the interchange form.
    pub open spec fn tag(self) -> Seq<char> {
        match self {
            ScientificNotationStyle::LowerCaseE => "lower_case_e"@,
            ScientificNotationStyle::UpperCaseE => "upper_case_e"@,
            ScientificNotationStyle::TimesTenPower => "times_ten_power"@,
        }
    }

    /// What `word` stands for, if it is one of the words of [`Self::tag`].
    pub open spec fn parse(word: Seq<char>) -> Option<ScientificNotationStyle> {
        if word == "lower_case_e"@ {
            Some(ScientificNotationStyle::LowerCaseE)
        } else if word == "upper_case_e"@ {
            Some(ScientificNotationStyle::UpperCaseE)
        } else if word == "times_ten_power"@ {
            Some(ScientificNotationStyle::TimesTenPower)
        } else {
            None
        }
    }

    /// The word that stands for the style in the interchange form.
    pub fn as_tag(&self) -> (word: &'static str)
        ensures
            word@ == self.tag(),
    {
        match self {
            ScientificNotationStyle::LowerCaseE => "lower_case_e",
            ScientificNotationStyle::UpperCaseE => "upper_case_e",
            ScientificNotationStyle::TimesTenPower => "times_ten_power",
        }
    }

    /// What `word` stands for, if it is one of the words of [`Self::as_tag`].
    pub fn from_tag(word: &str) -> (found: Option<ScientificNotationStyle>)
        ensures
            found == Self::parse(word@),
    {
        if str_eq(word, "lower_case_e") {
            Some(ScientificNotationStyle::LowerCaseE)
        } else if str_eq(word, "upper_case_e") {
            Some(ScientificNotationStyle::UpperCaseE)
        } else if str_eq(word, "times_ten_power") {
            Some(ScientificNotationStyle::TimesTenPower)
        } else {
            None
        }
    }

    /// No two cases share a word: reading the word of a case gives that case
    /// back.
    pub proof fn lemma_parse_tag(self)
        ensures
            Self::parse(self.tag()) == Some(self),
    {
        reveal_strlit("lower_case_e");
        reveal_strlit("upper_case_e");
        reveal_strlit("times_ten_power");
        assert("lower_case_e"@.len() == 12 && "lower_case_e"@[0] == 'l');
        assert("lower_case_e"@[1] == 'o' && "lower_case_e"@[2] == 'w' && "lower_case_e"@[3] == 'e');
        assert("lower_case_e"@[4] == 'r' && "lower_case_e"@[5] == '_' && "lower_case_e"@[6] == 'c');
        assert("lower_case_e"@[7] == 'a' && "lower_case_e"@[8] == 's' && "lower_case_e"@[9] == 'e');
        assert("lower_case_e"@[10] == '_' && "lower_case_e"@[11] == 'e');
        assert("upper_case_e"@.len() == 12 && "upper_case_e"@[0] == 'u');
        assert("upper_case_e"@[1] == 'p' && "upper_case_e"@[2] == 'p' && "upper_case_e"@[3] == 'e');
        assert("upper_case_e"@[4] == 'r' && "upper_case_e"@[5] == '_' && "upper_case_e"@[6] == 'c');
        assert("upper_case_e"@[7] == 'a' && "upper_case_e"@[8] == 's' && "upper_case_e"@[9] == 'e');
        assert("upper_case_e"@[10] == '_' && "upper_case_e"@[11] == 'e');
        assert("times_ten_power"@.len() == 15 && "times_ten_power"@[0] == 't');
        assert("times_ten_power"@[1] == 'i' && "times_ten_power"@[2] == 'm');
        assert("times_ten_power"@[3] == 'e' && "times_ten_power"@[4] == 's');
        assert("times_ten_power"@[5] == '_' && "times_ten_power"@[6] == 't');
        assert("times_ten_power"@[7] == 'e' && "times_ten_power"@[8] == 'n');
        assert("times_ten_power"@[9] == '_' && "times_ten_power"@[10] == 'p');
        assert("times_ten_power"@[11] == 'o' && "times_ten_power"@[12] == 'w');
        assert("times_ten_power"@[13] == 'e' && "times_ten_power"@[14] == 'r');
    }

    /// How the style is written in the interchange form: as its word.
    pub open spec fn encode(self) -> Json {
        Json::Text(self.tag())
    }

    /// What an interchange value stands for, if it is a word of [`Self::tag`].
    pub open spec fn decode(value: Json) -> Option<ScientificNotationStyle> {
        match value {
            Json::Text(word) => Self::parse(word),
            _ => None,
        }
    }

    /// Writes the style in the interchange form.
    pub fn to_interchange(&self) -> (value: InterchangeValue)
        ensures
            value@ == self.encode(),
    {
        text_value(self.as_tag())
    }

    /// Reads the style from the interchange form.
    pub fn from_interchange(value: &InterchangeValue) -> (found: Option<ScientificNotationStyle>)
        ensures
            found == Self::decode(value@),
    {
        match value {
            InterchangeValue::Text(word) => Self::from_tag(word.as_str()),
            _ => None,
        }
    }

    /// Reading what was written gives the same value back.
    pub proof fn lemma_decode_encode(self)
        ensures
            Self::decode(self.encode()) == Some(self),
    {
        self.lemma_parse_tag();
    }

    /// Only what writing gives is read: a value that stands for the style is
    /// the very value that is written for it.
    pub proof fn lemma_encode_decode(value: Json)
        requires
            Self::decode(value) is Some,
        ensures
            Self::decode(value)->Some_0.encode() == value,
    {
    }
}

impl DifferentialStyle {
    /// The word that stands for the style in the interchange form.
    pub open spec fn tag(self) -> Seq<char> {
        match self {
            DifferentialStyle::Partial => "partial"@,
            DifferentialStyle::Total => "total"@,
        }
    }

    /// What `word` stands for, if it is one of the words of [`Self::tag`].
    pub open spec fn parse(word: Seq<char>) -> Option<DifferentialStyle> {
        if word == "partial"@ {
            Some(DifferentialStyle::Partial)
        } else if word == "total"@ {
            Some(DifferentialStyle::Total)
        } else {
            None
        }
    }

    /// The word that stands for the style in the interchange form.
    pub fn as_tag(&self) -> (word: &'static str)
        ensures
            word@ == self.tag(),
    {
        match self {
            DifferentialStyle::Partial => "partial",
            DifferentialStyle::Total => "total",
        }
    }

    /// What `word` stands for, if it is one of the words of [`Self::as_tag`].
    pub fn from_tag(word: &str) -> (found: Option<DifferentialStyle>)
        ensures
            found == Self::parse(word@),
    {
        if str_eq(word, "partial") {
            Some(DifferentialStyle::Partial)
        } else if str_eq(word, "total") {
            Some(DifferentialStyle::Total)
        } else {
            None
        }
    }

    /// No two cases share a word: reading the word of a case gives that case
    /// back.
    pub proof fn lemma_parse_tag(self)
        ensures
            Self::parse(self.tag()) == Some(self),
    {
        reveal_strlit("partial");
        reveal_strlit("total");
        assert("partial"@.len() == 7 && "partial"@[0] == 'p' && "partial"@[1] == 'a');
        assert("partial"@[2] == 'r' && "partial"@[3] == 't' && "partial"@[4] == 'i');
        assert("partial"@[5] == 'a' && "partial"@[6] == 'l');
        assert("total"@.len() == 5 && "total"@[0] == 't' && "total"@[1] == 'o');
        assert("total"@[2] == 't' && "total"@[3] == 'a' && "total"@[4] == 'l');
    }

    /// How the style is written in the interchange form: as its word.
    pub open spec fn encode(self) -> Json {
        Json::Text(self.tag())
    }

    /// What an interchange value stands for, if it is a word of [`Self::tag`].
    pub open spec fn decode(value: Json) -> Option<DifferentialStyle> {
        match value {
            Json::Text(word) => Self::parse(word),
            _ => None,
        }
    }

    /// Writes the style in the interchange form.
    pub fn to_interchange(&self) -> (value: InterchangeValue)
        ensures
            value@ == self.encode(),
    {
        text_value(self.as_tag())
    }

    /// Reads the style from the interchange form.
    pub fn from_interchange(value: &InterchangeValue) -> (found: Option<DifferentialStyle>)
        ensures
            found == Self::decode(value@),
    {
        match value {
            InterchangeValue::Text(word) => Self::from_tag(word.as_str()),
            _ => None,
        }
    }

    /// Reading what was written gives the same value back.
    pub proof fn lemma_decode_encode(self)
        ensures
            Self::decode(self.encode()) == Some(self),
    {
        self.lemma_parse_tag();
    }

    /// Only what writing gives is read: a value that stands for the style is
    /// the very value that is written for it.
    pub proof fn lemma_encode_decode(value: Json)
        requires
            Self::decode(value) is Some,
        ensures
            Self::decode(value)->Some_0.encode() == value,
    {
    }
}

impl QuantificationNode {
    /// The word that stands for the quantifier in the interchange form.
    pub open spec fn tag(self) -> Seq<char> {
        match self {
            QuantificationNode::Universal => "universal"@,
            QuantificationNode::Existential => "existential"@,
            QuantificationNode::UniqueExistential => "unique_existential"@,
            QuantificationNode::Defined => "defined"@,
            QuantificationNode::Fixed => "fixed"@,
        }
    }

    /// What `word` stands for, if it is one of the words of [`Self::tag`].
    pub open spec fn parse(word: Seq<char>) -> Option<QuantificationNode> {
        if word == "universal"@ {
            Some(QuantificationNode::Universal)
        } else if word == "existential"@ {
            Some(QuantificationNode::Existential)
        } else if word == "unique_existential"@ {
            Some(QuantificationNode::UniqueExistential)
        } else if word == "defined"@ {
            Some(QuantificationNode::Defined)
        } else if word == "fixed"@ {
            Some(QuantificationNode::Fixed)
        } else {
            None
        }
    }

    /// The word that stands for the quantifier in the interchange form.
    pub fn as_tag(&self) -> (word: &'static str)
        ensures
            word@ == self.tag(),
    {
        match self {
            QuantificationNode::Universal => "universal",
            QuantificationNode::Existential => "existential",
            QuantificationNode::UniqueExistential => "unique_existential",
            QuantificationNode::Defined => "defined",
            QuantificationNode::Fixed => "fixed",
        }
    }

    /// What `word` stands for, if it is one of the words of [`Self::as_tag`].
    pub fn from_tag(word: &str) -> (found: Option<QuantificationNode>)
        ensures
            found == Self::parse(word@),
    {
        if str_eq(word, "universal") {
            Some(QuantificationNode::Universal)
        } else if str_eq(word, "existential") {
            Some(QuantificationNode::Existential)
        } else if str_eq(word, "unique_existential") {
            Some(QuantificationNode::UniqueExistential)
        } else if str_eq(word, "defined") {
            Some(QuantificationNode::Defined)
        } else if str_eq(word, "fixed") {
            Some(QuantificationNode::Fixed)
        } else {
            None
        }
    }

    /// No two cases share a word: reading the word of a case gives that case
    /// back.
    pub proof fn lemma_parse_tag(self)
        ensures
            Self::parse(self.tag()) == Some(self),
    {
        reveal_strlit("universal");
        reveal_strlit("existential");
        reveal_strlit("unique_existential");
        reveal_strlit("defined");
        reveal_strlit("fixed");
        assert("universal"@.len() == 9 && "universal"@[0] == 'u' && "universal"@[1] == 'n');
        assert("universal"@[2] == 'i' && "universal"@[3] == 'v' && "universal"@[4] == 'e');
        assert("universal"@[5] == 'r' && "universal"@[6] == 's' && "universal"@[7] == 'a');
        assert("universal"@[8] == 'l');
        assert("existential"@.len() == 11 && "existential"@[0] == 'e' && "existential"@[1] == 'x');
        assert("existential"@[2] == 'i' && "existential"@[3] == 's' && "existential"@[4] == 't');
        assert("existential"@[5] == 'e' && "existential"@[6] == 'n' && "existential"@[7] == 't');
        assert("existential"@[8] == 'i' && "existential"@[9] == 'a' && "existential"@[10] == 'l');
        assert("unique_existential"@.len() == 18 && "unique_existential"@[0] == 'u');
        assert("unique_existential"@[1] == 'n' && "unique_existential"@[2] == 'i');
        assert("unique_existential"@[3] == 'q' && "unique_existential"@[4] == 'u');
        assert("unique_existential"@[5] == 'e' && "unique_existential"@[6] == '_');
        assert("unique_existential"@[7] == 'e' && "unique_existential"@[8] == 'x');
        assert("unique_existential"@[9] == 'i' && "unique_existential"@[10] == 's');
        assert("unique_existential"@[11] == 't' && "unique_existential"@[12] == 'e');
        assert("unique_existential"@[13] == 'n' && "unique_existential"@[14] == 't');
        assert("unique_existential"@[15] == 'i' && "unique_existential"@[16] == 'a');
        assert("unique_existential"@[17] == 'l');
        assert("defined"@.len() == 7 && "defined"@[0] == 'd' && "defined"@[1] == 'e');
        assert("defined"@[2] == 'f' && "defined"@[3] == 'i' && "defined"@[4] == 'n');
        assert("defined"@[5] == 'e' && "defined"@[6] == 'd');
        assert("fixed"@.len() == 5 && "fixed"@[0] == 'f' && "fixed"@[1] == 'i');
        assert("fixed"@[2] == 'x' && "fixed"@[3] == 'e' && "fixed"@[4] == 'd');
    }

    /// How the quantifier is written in the interchange form: as its word.
    pub open spec fn encode(self) -> Json {
        Json::Text(self.tag())
    }

    /// What an interchange value stands for, if it is a word of [`Self::tag`].
    pub open spec fn decode(value: Json) -> Option<QuantificationNode> {
        match value {
            Json::Text(word) => Self::parse(word),
            _ => None,
        }
    }

    /// Writes the quantifier in the interchange form.
    pub fn to_interchange(&self) -> (value: InterchangeValue)
        ensures
            value@ == self.encode(),
    {
        text_value(self.as_tag())
    }

    /// Reads the quantifier from the interchange form.
    pub fn from_interchange(value: &InterchangeValue) -> (found: Option<QuantificationNode>)
        ensures
            found == Self::decode(value@),
    {
        match value {
            InterchangeValue::Text(word) => Self::from_tag(word.as_str()),
            _ => None,
        }
    }

    /// Reading what was written gives the same value back.
    pub proof fn lemma_decode_encode(self)
        ensures
            Self::decode(self.encode()) == Some(self),
    {
        self.lemma_parse_tag();
    }

    /// Only what writing gives is read: a value that stands for the quantifier is
    /// the very value that is written for it.
    pub proof fn lemma_encode_decode(value: Json)
        requires
            Self::decode(value) is Some,
        ensures
            Self::decode(value)->Some_0.encode() == value,
    {
    }
}

impl RefinedMulOrDivOperation {
    /// The word that stands for the operator in the interchange form: the word
    /// of its symbol, or `none`. The words of the two symbol vocabularies differ,
    /// so the word tells multiplication from division.
    pub open spec fn tag(self) -> Seq<char> {
        match self {
            RefinedMulOrDivOperation::Multiplication(symbol) => symbol.tag(),
            RefinedMulOrDivOperation::Division(symbol) => symbol.tag(),
            RefinedMulOrDivOperation::NoOperator => "none"@,
        }
    }

    /// What `word` stands for, if it is one of the words of [`Self::tag`].
    pub open spec fn parse(word: Seq<char>) -> Option<RefinedMulOrDivOperation> {
        if word == "none"@ {
            Some(RefinedMulOrDivOperation::NoOperator)
        } else {
            match MulSymbol::parse(word) {
                Some(symbol) => Some(RefinedMulOrDivOperation::Multiplication(symbol)),
                None => match DivSymbol::parse(word) {
                    Some(symbol) => Some(RefinedMulOrDivOperation::Division(symbol)),
                    None => None,
                },
            }
        }
    }

    /// The word that stands for the operator in the interchange form.
    pub fn as_tag(&self) -> (word: &'static str)
        ensures
            word@ == self.tag(),
    {
        match self {
            RefinedMulOrDivOperation::Multiplication(symbol) => symbol.as_tag(),
            RefinedMulOrDivOperation::Division(symbol) => symbol.as_tag(),
            RefinedMulOrDivOperation::NoOperator => "none",
        }
    }

    /// What `word` stands for, if it is one of the words of [`Self::as_tag`].
    pub fn from_tag(word: &str) -> (found: Option<RefinedMulOrDivOperation>)
        ensures
            found == Self::parse(word@),
    {
        if str_eq(word, "none") {
            Some(RefinedMulOrDivOperation::NoOperator)
        } else {
            match MulSymbol::from_tag(word) {
                Some(symbol) => Some(RefinedMulOrDivOperation::Multiplication(symbol)),
                None => match DivSymbol::from_tag(word) {
                    Some(symbol) => Some(RefinedMulOrDivOperation::Division(symbol)),
                    None => None,
                },
            }
        }
    }

    /// No two operators share a word: reading the word of an operator gives
    /// that operator back.
    pub proof fn lemma_parse_tag(self)
        ensures
            Self::parse(self.tag()) == Some(self),
    {
        reveal_strlit("none");
        reveal_strlit("times");
        reveal_strlit("dot");
        reveal_strlit("little_space");
        reveal_strlit("slash");
        reveal_strlit("divide");
        assert("none"@.len() == 4 && "none"@[0] == 'n' && "none"@[1] == 'o');
        assert("times"@.len() == 5 && "times"@[0] == 't');
        assert("dot"@.len() == 3);
        assert("little_space"@.len() == 12);
        assert("slash"@.len() == 5 && "slash"@[0] == 's');
        assert("divide"@.len() == 6);
        match self {
            RefinedMulOrDivOperation::Multiplication(symbol) => {
                symbol.lemma_parse_tag();
            },
            RefinedMulOrDivOperation::Division(symbol) => {
                symbol.lemma_parse_tag();
            },
            RefinedMulOrDivOperation::NoOperator => {},
        }
    }

    /// How the operator is written in the interchange form: as its word.
    pub open spec fn encode(self) -> Json {
        Json::Text(self.tag())
    }

    /// What an interchange value stands for, if it is a word of [`Self::tag`].
    pub open spec fn decode(value: Json) -> Option<RefinedMulOrDivOperation> {
        match value {
            Json::Text(word) => Self::parse(word),
            _ => None,
        }
    }

    /// Writes the operator in the interchange form.
    pub fn to_interchange(&self) -> (value: InterchangeValue)
        ensures
            value@ == self.encode(),
    {
        text_value(self.as_tag())
    }

    /// Reads the operator from the interchange form.
    pub fn from_interchange(value: &InterchangeValue) -> (found: Option<RefinedMulOrDivOperation>)
        ensures
            found == Self::decode(value@),
    {
        match value {
            InterchangeValue::Text(word) => Self::from_tag(word.as_str()),
            _ => None,
        }
    }

    /// Reading what was written gives the same value back.
    pub proof fn lemma_decode_encode(self)
        ensures
            Self::decode(self.encode()) == Some(self),
    {
        self.lemma_parse_tag();
    }

    /// Only what writing gives is read: a value that stands for the operator is
    /// the very value that is written for it.
    pub proof fn lemma_encode_decode(value: Json)
        requires
            Self::decode(value) is Some,
        ensures
            Self::decode(value)->Some_0.encode() == value,
    {
        let word = value->Text_0;
        if word != "none"@ {
            if MulSymbol::parse(word) is Some {
                MulSymbol::lemma_encode_decode(value);
            } else {
                DivSymbol::lemma_encode_decode(value);
            }
        }
    }
}

/// The character of a decimal digit.
pub open spec fn digit_char(digit: u8) -> char {
    if digit == 0 {
        '0'
    } else if digit == 1 {
        '1'
    } else if digit == 2 {
        '2'
    } else if digit == 3 {
        '3'
    } else if digit == 4 {
        '4'
    } else if digit == 5 {
        '5'
    } else if digit == 6 {
        '6'
    } else if digit == 7 {
        '7'
    } else if digit == 8 {
        '8'
    } else {
        '9'
    }
}

/// The digit that a character writes, if it writes one.
pub open spec fn digit_value(c: char) -> Option<u8> {
    if c == '0' {
        Some(0)
    } else if c == '1' {
        Some(1)
    } else if c == '2' {
        Some(2)
    } else if c == '3' {
        Some(3)
    } else if c == '4' {
        Some(4)
    } else if c == '5' {
        Some(5)
    } else if c == '6' {
        Some(6)
    } else if c == '7' {
        Some(7)
    } else if c == '8' {
        Some(8)
    } else if c == '9' {
        Some(9)
    } else {
        None
    }
}

/// A small number in decimal, without leading zeros.
pub open spec fn decimal(n: u8) -> Seq<char> {
    if n < 10 {
        Seq::empty().push(digit_char(n))
    } else if n < 100 {
        Seq::empty().push(digit_char(n / 10)).push(digit_char(n % 10))
    } else {
        Seq::empty().push(digit_char(n / 100)).push(digit_char((n / 10) % 10)).push(
            digit_char(n % 10),
        )
    }
}

/// The small number that `digits` writes in decimal without leading zeros, if
/// it writes one.
pub open spec fn parse_decimal(digits: Seq<char>) -> Option<u8> {
    if digits.len() == 1 {
        match digit_value(digits[0]) {
            Some(ones) => Some(ones),
            None => None,
        }
    } else if digits.len() == 2 {
        match (digit_value(digits[0]), digit_value(digits[1])) {
            (Some(tens), Some(ones)) => if tens >= 1 {
                Some((10 * tens + ones) as u8)
            } else {
                None
            },
            _ => None,
        }
    } else if digits.len() == 3 {
        match (digit_value(digits[0]), digit_value(digits[1]), digit_value(digits[2])) {
            (Some(hundreds), Some(tens), Some(ones)) => if hundreds >= 1 && 100 * hundreds + 10
                * tens + ones <= 255 {
                Some((100 * hundreds + 10 * tens + ones) as u8)
            } else {
                None
            },
            _ => None,
        }
    } else {
        None
    }
}

/// Reading a number as it was written gives the number back.
pub proof fn lemma_parse_decimal(n: u8)
    ensures
        parse_decimal(decimal(n)) == Some(n),
        1 <= decimal(n).len() <= 3,
{
}

/// What is read as a number is the number as it is written.
pub proof fn lemma_decimal_of_parsed(digits: Seq<char>)
    requires
        parse_decimal(digits) is Some,
    ensures
        decimal(parse_decimal(digits)->Some_0) == digits,
{
    let n = parse_decimal(digits)->Some_0;
    assert(decimal(n) =~= digits);
}

/// The one-character text of a decimal digit.
fn digit_text(digit: u8) -> (text: &'static str)
    requires
        digit < 10,
    ensures
        text@ == Seq::<char>::empty().push(digit_char(digit)),
{
    proof {
        reveal_strlit("0");
        reveal_strlit("1");
        reveal_strlit("2");
        reveal_strlit("3");
        reveal_strlit("4");
        reveal_strlit("5");
        reveal_strlit("6");
        reveal_strlit("7");
        reveal_strlit("8");
        reveal_strlit("9");
    }
    let text = if digit == 0 {
        "0"
    } else if digit == 1 {
        "1"
    } else if digit == 2 {
        "2"
    } else if digit == 3 {
        "3"
    } else if digit == 4 {
        "4"
    } else if digit == 5 {
        "5"
    } else if digit == 6 {
        "6"
    } else if digit == 7 {
        "7"
    } else if digit == 8 {
        "8"
    } else {
        "9"
    };
    assert(text@ =~= Seq::<char>::empty().push(digit_char(digit)));
    text
}

/// The digit that a character writes, if it writes one.
fn digit_of(c: char) -> (digit: Option<u8>)
    ensures
        digit is Some == digit_value(c) is Some,
        digit matches Some(d) ==> digit_value(c) == Some(d) && d < 10,
{
    if c == '0' {
        Some(0)
    } else if c == '1' {
        Some(1)
    } else if c == '2' {
        Some(2)
    } else if c == '3' {
        Some(3)
    } else if c == '4' {
        Some(4)
    } else if c == '5' {
        Some(5)
    } else if c == '6' {
        Some(6)
    } else if c == '7' {
        Some(7)
    } else if c == '8' {
        Some(8)
    } else if c == '9' {
        Some(9)
    } else {
        None
    }
}

/// Appends `n` in decimal, without leading zeros, to `text`.
fn append_decimal(text: String, n: u8) -> (longer: String)
    ensures
        longer@ == text@ + decimal(n),
{
    let longer = if n < 10 {
        text.concat(digit_text(n))
    } else if n < 100 {
        text.concat(digit_text(n / 10)).concat(digit_text(n % 10))
    } else {
        text.concat(digit_text(n / 100)).concat(digit_text((n / 10) % 10)).concat(
            digit_text(n % 10),
        )
    };
    assert(longer@ =~= text@ + decimal(n));
    longer
}

/// The small number that the characters of `word` from position `from` on
/// write in decimal without leading zeros, if they write one.
fn read_decimal(word: &str, from: usize) -> (number: Option<u8>)
    requires
        from <= word@.len(),
    ensures
        number == parse_decimal(word@.subrange(from as int, word@.len() as int)),
{
    let len = word.unicode_len();
    let ghost digits = word@.subrange(from as int, word@.len() as int);
    let count = len - from;
    if count == 1 {
        assert(digits[0] == word@[from as int]);
        digit_of(word.get_char(from))
    } else if count == 2 {
        assert(digits[0] == word@[from as int]);
        assert(digits[1] == word@[from + 1]);
        match (digit_of(word.get_char(from)), digit_of(word.get_char(from + 1))) {
            (Some(tens), Some(ones)) => if tens >= 1 {
                Some(10 * tens + ones)
            } else {
                None
            },
            _ => None,
        }
    } else if count == 3 {
        assert(digits[0] == word@[from as int]);
        assert(digits[1] == word@[from + 1]);
        assert(digits[2] == word@[from + 2]);
        match (
            digit_of(word.get_char(from)),
            digit_of(word.get_char(from + 1)),
            digit_of(word.get_char(from + 2)),
        ) {
            (Some(hundreds), Some(tens), Some(ones)) => {
                let value: u16 = 100 * (hundreds as u16) + 10 * (tens as u16) + (ones as u16);
                if hundreds >= 1 && value <= 255 {
                    Some(value as u8)
                } else {
                    None
                }
            },
            _ => None,
        }
    } else {
        None
    }
}

impl BracketSize {
    /// The word that stands for the size in the interchange form. A fixed step
    /// is written `sized_` and the step in decimal, so that every size is a
    /// word and none is a bare number.
    pub open spec fn tag(self) -> Seq<char> {
        match self {
            BracketSize::Normal => "normal"@,
            BracketSize::Auto => "auto"@,
            BracketSize::Sized(level) => "sized_"@ + decimal(level),
        }
    }

    /// What `word` stands for, if it is one of the words of [`Self::tag`].
    pub open spec fn parse(word: Seq<char>) -> Option<BracketSize> {
        if word == "normal"@ {
            Some(BracketSize::Normal)
        } else if word == "auto"@ {
            Some(BracketSize::Auto)
        } else if word.len() > 6 && word.subrange(0, 6) == "sized_"@ {
            match parse_decimal(word.subrange(6, word.len() as int)) {
                Some(level) => Some(BracketSize::Sized(level)),
                None => None,
            }
        } else {
            None
        }
    }

    /// Whether the size is one that can be drawn: `Normal`, `Auto`, or a fixed
    /// step from 1 to 4.
    pub open spec fn drawable(self) -> bool {
        match self {
            BracketSize::Sized(level) => 1 <= level <= 4,
            _ => true,
        }
    }

    /// Whether the size is one that can be drawn.
    pub fn is_drawable(&self) -> (yes: bool)
        ensures
            yes == self.drawable(),
    {
        match self {
            BracketSize::Sized(level) => 1 <= *level && *level <= 4,
            _ => true,
        }
    }

    /// The word that stands for the size in the interchange form.
    pub fn to_tag(&self) -> (word: String)
        ensures
            word@ == self.tag(),
    {
        match self {
            BracketSize::Normal => "normal".to_owned(),
            BracketSize::Auto => "auto".to_owned(),
            BracketSize::Sized(level) => append_decimal("sized_".to_owned(), *level),
        }
    }

    /// What `word` stands for, if it is one of the words of [`Self::to_tag`].
    pub fn from_tag(word: &str) -> (found: Option<BracketSize>)
        ensures
            found == Self::parse(word@),
    {
        if str_eq(word, "normal") {
            Some(BracketSize::Normal)
        } else if str_eq(word, "auto") {
            Some(BracketSize::Auto)
        } else if word.unicode_len() > 6 && str_eq(word.substring_char(0, 6), "sized_") {
            match read_decimal(word, 6) {
                Some(level) => Some(BracketSize::Sized(level)),
                None => None,
            }
        } else {
            None
        }
    }

    /// No two sizes share a word: reading the word of a size gives that size
    /// back.
    pub proof fn lemma_parse_tag(self)
        ensures
            Self::parse(self.tag()) == Some(self),
    {
        reveal_strlit("normal");
        reveal_strlit("auto");
        reveal_strlit("sized_");
        assert("normal"@.len() == 6 && "normal"@[0] == 'n');
        assert("auto"@.len() == 4 && "auto"@[0] == 'a');
        assert("sized_"@.len() == 6 && "sized_"@[0] == 's');
        match self {
            BracketSize::Sized(level) => {
                let word = self.tag();
                lemma_parse_decimal(level);
                assert(word[0] == 's');
                assert(word.subrange(0, 6) =~= "sized_"@);
                assert(word.subrange(6, word.len() as int) =~= decimal(level));
            },
            _ => {},
        }
    }

    /// How the size is written in the interchange form: as its word.
    pub open spec fn encode(self) -> Json {
        Json::Text(self.tag())
    }

    /// What an interchange value stands for, if it is a word of [`Self::tag`].
    pub open spec fn decode(value: Json) -> Option<BracketSize> {
        match value {
            Json::Text(word) => Self::parse(word),
            _ => None,
        }
    }

    /// Writes the size in the interchange form.
    pub fn to_interchange(&self) -> (value: InterchangeValue)
        ensures
            value@ == self.encode(),
    {
        InterchangeValue::Text(self.to_tag())
    }

    /// Reads the size from the interchange form.
    pub fn from_interchange(value: &InterchangeValue) -> (found: Option<BracketSize>)
        ensures
            found == Self::decode(value@),
    {
        match value {
            InterchangeValue::Text(word) => Self::from_tag(word.as_str()),
            _ => None,
        }
    }

    /// Reading what was written gives the same value back.
    pub proof fn lemma_decode_encode(self)
        ensures
            Self::decode(self.encode()) == Some(self),
    {
        self.lemma_parse_tag();
    }

    /// Only what writing gives is read: a value that stands for the size is
    /// the very value that is written for it.
    pub proof fn lemma_encode_decode(value: Json)
        requires
            Self::decode(value) is Some,
        ensures
            Self::decode(value)->Some_0.encode() == value,
    {
        let word = value->Text_0;
        match Self::decode(value)->Some_0 {
            BracketSize::Sized(level) => {
                reveal_strlit("normal");
                reveal_strlit("auto");
                reveal_strlit("sized_");
                let digits = word.subrange(6, word.len() as int);
                lemma_decimal_of_parsed(digits);
                assert(word =~= "sized_"@ + digits);
            },
            _ => {},
        }
    }
}

} // verus!
