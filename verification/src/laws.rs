//! What holds of the serializer as a whole.

use crate::decoding::{
    decode, decode_all, decode_differential, decode_differentials, decode_identifier, decode_mark,
    decode_mark_list, decode_marks, decode_opt, decode_product_term, decode_product_terms,
    decode_rows, decode_script, decode_sum_term, decode_sum_terms,
};
use crate::encoding::{
    encode, encode_all, encode_differentials, encode_identifier, encode_mark, encode_mark_list,
    encode_marks, encode_opt, encode_product_terms, encode_rows, encode_script, encode_sum_terms,
};
use crate::errors::{DeserializeError, TreeError, TreeErrorModel};
use crate::interchange::{InterchangeValue, Json};
use crate::math_node::{
    BracketSize, BracketStyle, DifferentialStyle, DivSymbol, DivisionStyle, MathNode, MulSymbol,
    QuantificationNode, RefinedAddOrSubOperator, RefinedMulOrDivOperation,
    ScientificNotationStyle, SpecialMiddleScriptContentTypeNode,
};
use crate::model::{
    ContentModel, IdentifierModel, MidScriptModel, NodeModel, RelationOperatorModel, ScriptModel,
    UnaryRelationOperatorModel,
};
use crate::nesting::lemma_encoded_depth;
use crate::order::lemma_relation_has_no_type_word;
use crate::serializer::{
    deserialized, serialized, written_view, DEFAULT_MAX_DEPTH, DEFAULT_READ_DEPTH,
};
use crate::validation::{depth, first_fatal, violations};
use crate::vocabulary::NodeKind;
use vstd::prelude::*;

verus! {

/// Reading the interchange form of a tree gives the tree back, whatever the
/// tree: the form loses nothing.
pub proof fn lemma_round_trip(node: NodeModel)
    ensures
        decode(encode(node)) == Some(node),
    decreases node, 1nat,
{
    match node.content.kind() {
        NodeKind::Empty => lemma_empty_node_round_trip(node),
        NodeKind::Text => lemma_text_node_round_trip(node),
        NodeKind::String => lemma_string_node_round_trip(node),
        NodeKind::Bracketed => lemma_bracketed_node_round_trip(node),
        NodeKind::Matrix => lemma_matrix_node_round_trip(node),
        NodeKind::Multiplications => lemma_multiplications_node_round_trip(node),
        NodeKind::Additions => lemma_additions_node_round_trip(node),
        NodeKind::Division => lemma_division_node_round_trip(node),
        NodeKind::SumNotation => lemma_sum_notation_node_round_trip(node),
        NodeKind::ProductNotation => lemma_product_notation_node_round_trip(node),
        NodeKind::Fraction => lemma_fraction_node_round_trip(node),
        NodeKind::Power => lemma_power_node_round_trip(node),
        NodeKind::UnaryPostfixOperation => lemma_unary_postfix_operation_node_round_trip(node),
        NodeKind::UnaryPrefixOperation => lemma_unary_prefix_operation_node_round_trip(node),
        NodeKind::Abs => lemma_abs_node_round_trip(node),
        NodeKind::FunctionCall => lemma_function_call_node_round_trip(node),
        NodeKind::Quantity => lemma_quantity_node_round_trip(node),
        NodeKind::ScientificNotation => lemma_scientific_notation_node_round_trip(node),
        NodeKind::Identifier => lemma_identifier_node_round_trip(node),
        NodeKind::Unit => lemma_unit_node_round_trip(node),
        NodeKind::Relationship => lemma_relationship_node_round_trip(node),
        NodeKind::UnaryRelationship => lemma_unary_relationship_node_round_trip(node),
        NodeKind::VariableDefinition => lemma_variable_definition_node_round_trip(node),
        NodeKind::FunctionDefinition => lemma_function_definition_node_round_trip(node),
        NodeKind::Limit => lemma_limit_node_round_trip(node),
        NodeKind::Differential => lemma_differential_node_round_trip(node),
        NodeKind::Integration => lemma_integration_node_round_trip(node),
        NodeKind::QuantifiedExpression => lemma_quantified_expression_node_round_trip(node),
        NodeKind::And => lemma_and_node_round_trip(node),
        NodeKind::Or => lemma_or_node_round_trip(node),
        NodeKind::Not => lemma_not_node_round_trip(node),
        NodeKind::True => lemma_true_node_round_trip(node),
        NodeKind::False => lemma_false_node_round_trip(node),
    }
}

proof fn lemma_empty_node_round_trip(node: NodeModel)
    requires
        node.content is Empty,
    ensures
        decode(encode(node)) == Some(node),
    decreases node, 0nat,
{
    node.content.kind().lemma_parse_tag();
}

proof fn lemma_text_node_round_trip(node: NodeModel)
    requires
        node.content is Text,
    ensures
        decode(encode(node)) == Some(node),
    decreases node, 0nat,
{
    node.content.kind().lemma_parse_tag();
}

proof fn lemma_string_node_round_trip(node: NodeModel)
    requires
        node.content is String,
    ensures
        decode(encode(node)) == Some(node),
    decreases node, 0nat,
{
    node.content.kind().lemma_parse_tag();
}

proof fn lemma_bracketed_node_round_trip(node: NodeModel)
    requires
        node.content is Bracketed,
    ensures
        decode(encode(node)) == Some(node),
    decreases node, 0nat,
{
    node.content.kind().lemma_parse_tag();
    match node.content {
        ContentModel::Bracketed { inner, style, size } => {
            lemma_round_trip(*inner);
            style.lemma_decode_encode();
            size.lemma_decode_encode();
        },
        _ => {},
    }
}

proof fn lemma_matrix_node_round_trip(node: NodeModel)
    requires
        node.content is Matrix,
    ensures
        decode(encode(node)) == Some(node),
    decreases node, 0nat,
{
    node.content.kind().lemma_parse_tag();
    match node.content {
        ContentModel::Matrix { rows } => {
            lemma_round_trip_rows(rows);
        },
        _ => {},
    }
}

proof fn lemma_multiplications_node_round_trip(node: NodeModel)
    requires
        node.content is Multiplications,
    ensures
        decode(encode(node)) == Some(node),
    decreases node, 0nat,
{
    node.content.kind().lemma_parse_tag();
    match node.content {
        ContentModel::Multiplications { terms } => {
            lemma_round_trip_product_terms(terms);
        },
        _ => {},
    }
}

proof fn lemma_additions_node_round_trip(node: NodeModel)
    requires
        node.content is Additions,
    ensures
        decode(encode(node)) == Some(node),
    decreases node, 0nat,
{
    node.content.kind().lemma_parse_tag();
    match node.content {
        ContentModel::Additions { terms } => {
            lemma_round_trip_sum_terms(terms);
        },
        _ => {},
    }
}

proof fn lemma_division_node_round_trip(node: NodeModel)
    requires
        node.content is Division,
    ensures
        decode(encode(node)) == Some(node),
    decreases node, 0nat,
{
    node.content.kind().lemma_parse_tag();
    match node.content {
        ContentModel::Division { numerator, denominator, style } => {
            lemma_round_trip(*numerator);
            lemma_round_trip(*denominator);
            style.lemma_decode_encode();
        },
        _ => {},
    }
}

proof fn lemma_sum_notation_node_round_trip(node: NodeModel)
    requires
        node.content is SumNotation,
    ensures
        decode(encode(node)) == Some(node),
    decreases node, 0nat,
{
    node.content.kind().lemma_parse_tag();
    match node.content {
        ContentModel::SumNotation { summand, variable, lower_limit, upper_limit } => {
            lemma_round_trip(*summand);
            lemma_round_trip_opt(variable);
            lemma_round_trip_opt(lower_limit);
            lemma_round_trip_opt(upper_limit);
        },
        _ => {},
    }
}

proof fn lemma_product_notation_node_round_trip(node: NodeModel)
    requires
        node.content is ProductNotation,
    ensures
        decode(encode(node)) == Some(node),
    decreases node, 0nat,
{
    node.content.kind().lemma_parse_tag();
    match node.content {
        ContentModel::ProductNotation { multiplicand, variable, lower_limit, upper_limit } => {
            lemma_round_trip(*multiplicand);
            lemma_round_trip_opt(variable);
            lemma_round_trip_opt(lower_limit);
            lemma_round_trip_opt(upper_limit);
        },
        _ => {},
    }
}

proof fn lemma_fraction_node_round_trip(node: NodeModel)
    requires
        node.content is Fraction,
    ensures
        decode(encode(node)) == Some(node),
    decreases node, 0nat,
{
    node.content.kind().lemma_parse_tag();
    match node.content {
        ContentModel::Fraction { numerator, denominator } => {
            lemma_round_trip(*numerator);
            lemma_round_trip(*denominator);
        },
        _ => {},
    }
}

proof fn lemma_power_node_round_trip(node: NodeModel)
    requires
        node.content is Power,
    ensures
        decode(encode(node)) == Some(node),
    decreases node, 0nat,
{
    node.content.kind().lemma_parse_tag();
    match node.content {
        ContentModel::Power { base, exponent } => {
            lemma_round_trip(*base);
            lemma_round_trip(*exponent);
        },
        _ => {},
    }
}

proof fn lemma_unary_postfix_operation_node_round_trip(node: NodeModel)
    requires
        node.content is UnaryPostfixOperation,
    ensures
        decode(encode(node)) == Some(node),
    decreases node, 0nat,
{
    node.content.kind().lemma_parse_tag();
    match node.content {
        ContentModel::UnaryPostfixOperation { parameter, operator } => {
            lemma_round_trip(*parameter);
            lemma_round_trip(*operator);
        },
        _ => {},
    }
}

proof fn lemma_unary_prefix_operation_node_round_trip(node: NodeModel)
    requires
        node.content is UnaryPrefixOperation,
    ensures
        decode(encode(node)) == Some(node),
    decreases node, 0nat,
{
    node.content.kind().lemma_parse_tag();
    match node.content {
        ContentModel::UnaryPrefixOperation { parameter, operator } => {
            lemma_round_trip(*parameter);
            lemma_round_trip(*operator);
        },
        _ => {},
    }
}

proof fn lemma_abs_node_round_trip(node: NodeModel)
    requires
        node.content is Abs,
    ensures
        decode(encode(node)) == Some(node),
    decreases node, 0nat,
{
    node.content.kind().lemma_parse_tag();
    match node.content {
        ContentModel::Abs { parameter } => {
            lemma_round_trip(*parameter);
        },
        _ => {},
    }
}

proof fn lemma_function_call_node_round_trip(node: NodeModel)
    requires
        node.content is FunctionCall,
    ensures
        decode(encode(node)) == Some(node),
    decreases node, 0nat,
{
    node.content.kind().lemma_parse_tag();
    match node.content {
        ContentModel::FunctionCall { name, parameters } => {
            lemma_round_trip(*name);
            lemma_round_trip_all(parameters);
        },
        _ => {},
    }
}

proof fn lemma_quantity_node_round_trip(node: NodeModel)
    requires
        node.content is Quantity,
    ensures
        decode(encode(node)) == Some(node),
    decreases node, 0nat,
{
    node.content.kind().lemma_parse_tag();
    match node.content {
        ContentModel::Quantity { scientific_notation, unit, .. } => {
            lemma_round_trip_opt(scientific_notation);
            lemma_round_trip_opt(unit);
        },
        _ => {},
    }
}

proof fn lemma_scientific_notation_node_round_trip(node: NodeModel)
    requires
        node.content is ScientificNotation,
    ensures
        decode(encode(node)) == Some(node),
    decreases node, 0nat,
{
    node.content.kind().lemma_parse_tag();
    match node.content {
        ContentModel::ScientificNotation { magnitude, style } => {
            lemma_round_trip(*magnitude);
            style.lemma_decode_encode();
        },
        _ => {},
    }
}

proof fn lemma_identifier_node_round_trip(node: NodeModel)
    requires
        node.content is Identifier,
    ensures
        decode(encode(node)) == Some(node),
    decreases node, 0nat,
{
    node.content.kind().lemma_parse_tag();
    match node.content {
        ContentModel::Identifier(identifier) => {
            lemma_round_trip_identifier(identifier);
        },
        _ => {},
    }
}

proof fn lemma_unit_node_round_trip(node: NodeModel)
    requires
        node.content is Unit,
    ensures
        decode(encode(node)) == Some(node),
    decreases node, 0nat,
{
    node.content.kind().lemma_parse_tag();
    match node.content {
        ContentModel::Unit { original_form, flattened_form } => {
            lemma_round_trip(*original_form);
            lemma_round_trip(*flattened_form);
        },
        _ => {},
    }
}

proof fn lemma_relationship_node_round_trip(node: NodeModel)
    requires
        node.content is Relationship,
    ensures
        decode(encode(node)) == Some(node),
    decreases node, 0nat,
{
    node.content.kind().lemma_parse_tag();
    match node.content {
        ContentModel::Relationship { lhs, rhs, operator } => {
            lemma_round_trip(*lhs);
            lemma_round_trip(*rhs);
            operator.lemma_decode_encode();
        },
        _ => {},
    }
}

proof fn lemma_unary_relationship_node_round_trip(node: NodeModel)
    requires
        node.content is UnaryRelationship,
    ensures
        decode(encode(node)) == Some(node),
    decreases node, 0nat,
{
    node.content.kind().lemma_parse_tag();
    match node.content {
        ContentModel::UnaryRelationship { subject, predicate } => {
            lemma_round_trip(*subject);
            predicate.lemma_decode_encode();
        },
        _ => {},
    }
}

proof fn lemma_variable_definition_node_round_trip(node: NodeModel)
    requires
        node.content is VariableDefinition,
    ensures
        decode(encode(node)) == Some(node),
    decreases node, 0nat,
{
    node.content.kind().lemma_parse_tag();
    match node.content {
        ContentModel::VariableDefinition { name, definition } => {
            lemma_round_trip(*name);
            lemma_round_trip_opt(definition);
        },
        _ => {},
    }
}

proof fn lemma_function_definition_node_round_trip(node: NodeModel)
    requires
        node.content is FunctionDefinition,
    ensures
        decode(encode(node)) == Some(node),
    decreases node, 0nat,
{
    node.content.kind().lemma_parse_tag();
    match node.content {
        ContentModel::FunctionDefinition { custom_function, definition } => {
            lemma_round_trip(*custom_function);
            lemma_round_trip_opt(definition);
        },
        _ => {},
    }
}

proof fn lemma_limit_node_round_trip(node: NodeModel)
    requires
        node.content is Limit,
    ensures
        decode(encode(node)) == Some(node),
    decreases node, 0nat,
{
    node.content.kind().lemma_parse_tag();
    match node.content {
        ContentModel::Limit { function, approaching_value, .. } => {
            lemma_round_trip(*function);
            lemma_round_trip(*approaching_value);
        },
        _ => {},
    }
}

proof fn lemma_differential_node_round_trip(node: NodeModel)
    requires
        node.content is Differential,
    ensures
        decode(encode(node)) == Some(node),
    decreases node, 0nat,
{
    node.content.kind().lemma_parse_tag();
    match node.content {
        ContentModel::Differential { target, order, diff_style } => {
            lemma_round_trip(*target);
            lemma_round_trip(*order);
            diff_style.lemma_decode_encode();
        },
        _ => {},
    }
}

proof fn lemma_integration_node_round_trip(node: NodeModel)
    requires
        node.content is Integration,
    ensures
        decode(encode(node)) == Some(node),
    decreases node, 0nat,
{
    node.content.kind().lemma_parse_tag();
    match node.content {
        ContentModel::Integration { integrand, differentials, domain } => {
            lemma_round_trip(*integrand);
            lemma_round_trip_differentials(differentials);
            lemma_round_trip_opt(domain);
        },
        _ => {},
    }
}

proof fn lemma_quantified_expression_node_round_trip(node: NodeModel)
    requires
        node.content is QuantifiedExpression,
    ensures
        decode(encode(node)) == Some(node),
    decreases node, 0nat,
{
    node.content.kind().lemma_parse_tag();
    match node.content {
        ContentModel::QuantifiedExpression { quantifier, variables, domain, predicate } => {
            quantifier.lemma_decode_encode();
            lemma_round_trip_all(variables);
            lemma_round_trip_opt(domain);
            lemma_round_trip_opt(predicate);
        },
        _ => {},
    }
}

proof fn lemma_and_node_round_trip(node: NodeModel)
    requires
        node.content is And,
    ensures
        decode(encode(node)) == Some(node),
    decreases node, 0nat,
{
    node.content.kind().lemma_parse_tag();
    match node.content {
        ContentModel::And(operands) => {
            lemma_round_trip_all(operands);
        },
        _ => {},
    }
}

proof fn lemma_or_node_round_trip(node: NodeModel)
    requires
        node.content is Or,
    ensures
        decode(encode(node)) == Some(node),
    decreases node, 0nat,
{
    node.content.kind().lemma_parse_tag();
    match node.content {
        ContentModel::Or(operands) => {
            lemma_round_trip_all(operands);
        },
        _ => {},
    }
}

proof fn lemma_not_node_round_trip(node: NodeModel)
    requires
        node.content is Not,
    ensures
        decode(encode(node)) == Some(node),
    decreases node, 0nat,
{
    node.content.kind().lemma_parse_tag();
    match node.content {
        ContentModel::Not(operand) => {
            lemma_round_trip(*operand);
        },
        _ => {},
    }
}

proof fn lemma_true_node_round_trip(node: NodeModel)
    requires
        node.content is True,
    ensures
        decode(encode(node)) == Some(node),
    decreases node, 0nat,
{
    node.content.kind().lemma_parse_tag();
}

proof fn lemma_false_node_round_trip(node: NodeModel)
    requires
        node.content is False,
    ensures
        decode(encode(node)) == Some(node),
    decreases node, 0nat,
{
    node.content.kind().lemma_parse_tag();
}

/// Reading what was written for an optional child gives it back.
pub proof fn lemma_round_trip_opt(slot: Option<Box<NodeModel>>)
    ensures
        decode_opt(encode_opt(slot)) == Some(slot),
    decreases slot, 1nat,
{
    match slot {
        Some(node) => {
            lemma_round_trip(*node);
        },
        None => {},
    }
}

/// Reading what was written for some children gives them back.
pub proof fn lemma_round_trip_all(nodes: Seq<NodeModel>)
    ensures
        decode_all(Json::List(encode_all(nodes))) == Some(nodes),
    decreases nodes, 1nat,
{
    assert forall|i: int| 0 <= i < nodes.len() implies decode(encode(#[trigger] nodes[i])) == Some(
        nodes[i],
    ) by {
        lemma_round_trip(nodes[i]);
    }
    assert(decode_all(Json::List(encode_all(nodes)))->Some_0 =~= nodes);
}

/// Reading what was written for the rows of a matrix gives them back, each
/// with its own length.
pub proof fn lemma_round_trip_rows(rows: Seq<Seq<NodeModel>>)
    ensures
        decode_rows(Json::List(encode_rows(rows))) == Some(rows),
    decreases rows, 2nat,
{
    assert forall|i: int| 0 <= i < rows.len() implies decode_all(
        Json::List(encode_all(#[trigger] rows[i])),
    ) == Some(rows[i]) by {
        lemma_round_trip_all(rows[i]);
    }
    assert(decode_rows(Json::List(encode_rows(rows)))->Some_0 =~= rows);
}

/// Reading what was written for the terms of a product chain gives them back.
pub proof fn lemma_round_trip_product_terms(terms: Seq<(RefinedMulOrDivOperation, NodeModel)>)
    ensures
        decode_product_terms(Json::List(encode_product_terms(terms))) == Some(terms),
    decreases terms, 1nat,
{
    let items = encode_product_terms(terms);
    assert forall|i: int| 0 <= i < terms.len() implies decode_product_term(#[trigger] items[i])
        == Some(terms[i]) by {
        lemma_round_trip(terms[i].1);
        terms[i].0.lemma_decode_encode();
    }
    assert(decode_product_terms(Json::List(items))->Some_0 =~= terms);
}

/// Reading what was written for the terms of a sum chain gives them back.
pub proof fn lemma_round_trip_sum_terms(terms: Seq<(RefinedAddOrSubOperator, NodeModel)>)
    ensures
        decode_sum_terms(Json::List(encode_sum_terms(terms))) == Some(terms),
    decreases terms, 1nat,
{
    let items = encode_sum_terms(terms);
    assert forall|i: int| 0 <= i < terms.len() implies decode_sum_term(#[trigger] items[i]) == Some(
        terms[i],
    ) by {
        lemma_round_trip(terms[i].1);
        terms[i].0.lemma_decode_encode();
    }
    assert(decode_sum_terms(Json::List(items))->Some_0 =~= terms);
}

/// Reading what was written for the differentials of an integral gives them
/// back.
pub proof fn lemma_round_trip_differentials(
    diffs: Seq<(NodeModel, Option<Box<NodeModel>>, Option<Box<NodeModel>>)>,
)
    ensures
        decode_differentials(Json::List(encode_differentials(diffs))) == Some(diffs),
    decreases diffs, 2nat,
{
    let items = encode_differentials(diffs);
    assert forall|i: int| 0 <= i < diffs.len() implies decode_differential(#[trigger] items[i])
        == Some(diffs[i]) by {
        lemma_round_trip(diffs[i].0);
        lemma_round_trip_opt(diffs[i].1);
        lemma_round_trip_opt(diffs[i].2);
    }
    assert(decode_differentials(Json::List(items))->Some_0 =~= diffs);
}

/// Reading what was written for an optional script group gives it back.
pub proof fn lemma_round_trip_script(slot: Option<ScriptModel>)
    ensures
        decode_script(encode_script(slot)) == Some(slot),
    decreases slot, 2nat,
{
    match slot {
        Some(script) => {
            lemma_round_trip_all(script.subscripts);
            lemma_round_trip_all(script.superscripts);
        },
        None => {},
    }
}

/// Reading what was written for a mark gives it back.
pub proof fn lemma_round_trip_mark(mark: SpecialMiddleScriptContentTypeNode)
    ensures
        decode_mark(encode_mark(mark)) == Some(mark),
{
    reveal_strlit("hat");
    reveal_strlit("tilde");
    reveal_strlit("bar");
    assert("hat"@.len() == 3 && "hat"@[0] == 'h');
    assert("tilde"@.len() == 5);
    assert("bar"@.len() == 3 && "bar"@[0] == 'b');
}

/// Reading what was written for an optional group of marks gives it back.
pub proof fn lemma_round_trip_marks(slot: Option<MidScriptModel>)
    ensures
        decode_marks(encode_marks(slot)) == Some(slot),
{
    match slot {
        Some(marks) => {
            lemma_round_trip_mark_list(marks.super_script);
            lemma_round_trip_mark_list(marks.sub_script);
        },
        None => {},
    }
}

/// Reading what was written for some marks gives them back.
pub proof fn lemma_round_trip_mark_list(marks: Seq<SpecialMiddleScriptContentTypeNode>)
    ensures
        decode_mark_list(Json::List(encode_mark_list(marks))) == Some(marks),
{
    let items = encode_mark_list(marks);
    assert forall|i: int| 0 <= i < marks.len() implies decode_mark(#[trigger] items[i]) == Some(
        marks[i],
    ) by {
        lemma_round_trip_mark(marks[i]);
    }
    assert(decode_mark_list(Json::List(items))->Some_0 =~= marks);
}

/// Reading what was written for an identifier gives it back.
pub proof fn lemma_round_trip_identifier(identifier: IdentifierModel)
    ensures
        decode_identifier(encode_identifier(identifier)) == Some(identifier),
    decreases identifier, 3nat,
{
    lemma_round_trip_script(identifier.pre_script);
    lemma_round_trip_marks(identifier.mid_script);
    lemma_round_trip_script(identifier.post_script);
}

/// The first `type` word of a node's interchange form is the word of the
/// node's own kind.
pub proof fn lemma_own_kind_comes_first(node: NodeModel)
    ensures
        encode(node).type_words().len() >= 1,
        encode(node).type_words()[0] == node.content.kind().tag(),
{
    let value = encode(node);
    assert(value.own_type_word() =~= Seq::empty().push(node.content.kind().tag()));
}

/// A parent comes before its children, and the children in their order: the
/// `type` words of a relationship are its own, then all those of its left side,
/// then all those of its right side. So the word of the left side's kind
/// stands before the word of the right side's.
pub proof fn lemma_relationship_order(
    id: Seq<char>,
    lhs: NodeModel,
    rhs: NodeModel,
    operator: RelationOperatorModel,
)
    ensures
        ({
            let node = NodeModel {
                id,
                content: ContentModel::Relationship {
                    lhs: Box::new(lhs),
                    rhs: Box::new(rhs),
                    operator,
                },
            };
            let words = encode(node).type_words();
            let left = encode(lhs).type_words();
            let right = encode(rhs).type_words();
            &&& words == Seq::empty().push("relationship"@) + left + right
            &&& words[0] == "relationship"@
            &&& words[1] == lhs.content.kind().tag()
            &&& words[1 + left.len() as int] == rhs.content.kind().tag()
        }),
{
    let node = NodeModel {
        id,
        content: ContentModel::Relationship { lhs: Box::new(lhs), rhs: Box::new(rhs), operator },
    };
    let value = encode(node);
    let left = encode(lhs).type_words();
    let right = encode(rhs).type_words();
    let none = Seq::<Seq<char>>::empty();
    lemma_relation_has_no_type_word(operator);
    lemma_own_kind_comes_first(lhs);
    lemma_own_kind_comes_first(rhs);
    assert(Json::Text("relationship"@).entry_type_words() =~= Seq::empty());
    assert(Json::Text("relationship"@).type_words() =~= none);
    assert(Json::Text(id).entry_type_words() =~= Seq::empty());
    assert(Json::Text(id).type_words() =~= none);
    let parts = Seq::<Seq<Seq<char>>>::empty().push(none).push(none).push(left).push(right).push(
        none,
    );
    assert(value.entry_type_words() =~= parts);
    Seq::<Seq<Seq<char>>>::empty().lemma_flatten_push(none);
    Seq::<Seq<Seq<char>>>::empty().push(none).lemma_flatten_push(none);
    Seq::<Seq<Seq<char>>>::empty().push(none).push(none).lemma_flatten_push(left);
    Seq::<Seq<Seq<char>>>::empty().push(none).push(none).push(left).lemma_flatten_push(right);
    Seq::<Seq<Seq<char>>>::empty().push(none).push(none).push(left).push(right).lemma_flatten_push(
        none,
    );
    assert(parts.flatten() =~= left + right);
    assert(value.own_type_word() =~= Seq::empty().push("relationship"@));
    assert(value.type_words() =~= Seq::empty().push("relationship"@) + left + right);
}

/// Every case of every vocabulary has a word, and no two cases of one
/// vocabulary share theirs: reading what stands for a case gives that case
/// back. Custom relations and properties are read back with their text.
pub proof fn lemma_every_case_has_its_own_word()
    ensures
        forall|kind: NodeKind| NodeKind::parse(#[trigger] kind.tag()) == Some(kind),
        forall|style: BracketStyle| BracketStyle::parse(#[trigger] style.tag()) == Some(style),
        forall|size: BracketSize| BracketSize::parse(#[trigger] size.tag()) == Some(size),
        forall|symbol: MulSymbol| MulSymbol::parse(#[trigger] symbol.tag()) == Some(symbol),
        forall|symbol: DivSymbol| DivSymbol::parse(#[trigger] symbol.tag()) == Some(symbol),
        forall|operator: RefinedMulOrDivOperation|
            RefinedMulOrDivOperation::parse(#[trigger] operator.tag()) == Some(operator),
        forall|operator: RefinedAddOrSubOperator|
            RefinedAddOrSubOperator::parse(#[trigger] operator.tag()) == Some(operator),
        forall|style: DivisionStyle| DivisionStyle::parse(#[trigger] style.tag()) == Some(style),
        forall|style: ScientificNotationStyle|
            ScientificNotationStyle::parse(#[trigger] style.tag()) == Some(style),
        forall|style: DifferentialStyle|
            DifferentialStyle::parse(#[trigger] style.tag()) == Some(style),
        forall|quantifier: QuantificationNode|
            QuantificationNode::parse(#[trigger] quantifier.tag()) == Some(quantifier),
        forall|operator: RelationOperatorModel|
            RelationOperatorModel::decode(#[trigger] operator.encode()) == Some(operator),
        forall|predicate: UnaryRelationOperatorModel|
            UnaryRelationOperatorModel::decode(#[trigger] predicate.encode()) == Some(predicate),
        forall|mark: SpecialMiddleScriptContentTypeNode|
            decode_mark(#[trigger] encode_mark(mark)) == Some(mark),
{
    assert forall|kind: NodeKind| NodeKind::parse(#[trigger] kind.tag()) == Some(kind) by {
        kind.lemma_parse_tag();
    }
    assert forall|style: BracketStyle| BracketStyle::parse(#[trigger] style.tag()) == Some(
        style,
    ) by {
        style.lemma_parse_tag();
    }
    assert forall|size: BracketSize| BracketSize::parse(#[trigger] size.tag()) == Some(size) by {
        size.lemma_parse_tag();
    }
    assert forall|symbol: MulSymbol| MulSymbol::parse(#[trigger] symbol.tag()) == Some(symbol) by {
        symbol.lemma_parse_tag();
    }
    assert forall|symbol: DivSymbol| DivSymbol::parse(#[trigger] symbol.tag()) == Some(symbol) by {
        symbol.lemma_parse_tag();
    }
    assert forall|operator: RefinedMulOrDivOperation|
        RefinedMulOrDivOperation::parse(#[trigger] operator.tag()) == Some(operator) by {
        operator.lemma_parse_tag();
    }
    assert forall|operator: RefinedAddOrSubOperator|
        RefinedAddOrSubOperator::parse(#[trigger] operator.tag()) == Some(operator) by {
        operator.lemma_parse_tag();
    }
    assert forall|style: DivisionStyle| DivisionStyle::parse(#[trigger] style.tag()) == Some(
        style,
    ) by {
        style.lemma_parse_tag();
    }
    assert forall|style: ScientificNotationStyle|
        ScientificNotationStyle::parse(#[trigger] style.tag()) == Some(style) by {
        style.lemma_parse_tag();
    }
    assert forall|style: DifferentialStyle|
        DifferentialStyle::parse(#[trigger] style.tag()) == Some(style) by {
        style.lemma_parse_tag();
    }
    assert forall|quantifier: QuantificationNode|
        QuantificationNode::parse(#[trigger] quantifier.tag()) == Some(quantifier) by {
        quantifier.lemma_parse_tag();
    }
    assert forall|operator: RelationOperatorModel|
        RelationOperatorModel::decode(#[trigger] operator.encode()) == Some(operator) by {
        operator.lemma_decode_encode();
    }
    assert forall|predicate: UnaryRelationOperatorModel|
        UnaryRelationOperatorModel::decode(#[trigger] predicate.encode()) == Some(predicate) by {
        predicate.lemma_decode_encode();
    }
    assert forall|mark: SpecialMiddleScriptContentTypeNode|
        decode_mark(#[trigger] encode_mark(mark)) == Some(mark) by {
        lemma_round_trip_mark(mark);
    }
}

/// No two trees have the same interchange form.
pub proof fn lemma_encode_injective(a: NodeModel, b: NodeModel)
    requires
        encode(a) == encode(b),
    ensures
        a == b,
{
    lemma_round_trip(a);
    lemma_round_trip(b);
}

/// Writing depends on the value of the tree and on the limit alone: whenever
/// the serializer is run on trees of the same value under the same limit, the
/// outcomes have the same value, be it what was written or the error.
pub proof fn lemma_serialize_deterministic(
    first_tree: MathNode,
    second_tree: MathNode,
    limit: int,
    first: Result<InterchangeValue, TreeError>,
    second: Result<InterchangeValue, TreeError>,
)
    requires
        first_tree@ == second_tree@,
        written_view(first) == serialized(first_tree@, limit),
        written_view(second) == serialized(second_tree@, limit),
    ensures
        written_view(first) == written_view(second),
        first is Ok == second is Ok,
{
}

/// Writing never fails for want of a word.
pub proof fn lemma_never_unmapped(node: NodeModel, limit: int)
    ensures
        serialized(node, limit) != Err::<Json, TreeErrorModel>(
            TreeErrorModel::UnmappedVariant,
        ),
{
}

/// When writing is owed: a tree is written exactly when it is within the limit
/// and breaks no fatal rule, and what is written is its interchange form.
pub proof fn lemma_serialize_succeeds(node: NodeModel, limit: int)
    ensures
        serialized(node, limit) is Ok <==> depth(node) <= limit && first_fatal(violations(node))
            is None,
        serialized(node, limit) is Ok ==> serialized(node, limit) == Ok::<
            Json,
            TreeErrorModel,
        >(encode(node)),
{
}

/// Reading what was written gives the tree back, provided the reader's limit
/// is four times the writer's and two more, or higher.
pub proof fn lemma_serialize_then_deserialize(node: NodeModel, limit: int, read_limit: int)
    requires
        serialized(node, limit) is Ok,
        read_limit >= 4 * limit + 2,
    ensures
        deserialized(serialized(node, limit)->Ok_0, read_limit) == Ok::<
            NodeModel,
            DeserializeError,
        >(node),
{
    lemma_round_trip(node);
    lemma_encoded_depth(node);
}

/// With the limits that [`crate::serializer::serialize`] and
/// [`crate::serializer::deserialize`] use, reading what was written gives the
/// tree back.
pub proof fn lemma_default_round_trip(node: NodeModel)
    requires
        serialized(node, DEFAULT_MAX_DEPTH as int) is Ok,
    ensures
        deserialized(serialized(node, DEFAULT_MAX_DEPTH as int)->Ok_0, DEFAULT_READ_DEPTH as int)
            == Ok::<NodeModel, DeserializeError>(node),
{
    lemma_serialize_then_deserialize(node, DEFAULT_MAX_DEPTH as int, DEFAULT_READ_DEPTH as int);
}

/// A tree that is written under a limit is written under every higher limit,
/// and to the same value.
pub proof fn lemma_higher_limit_admits_more(node: NodeModel, limit: int, higher: int)
    requires
        limit <= higher,
        serialized(node, limit) is Ok,
    ensures
        serialized(node, higher) == serialized(node, limit),
{
}

} // verus!
