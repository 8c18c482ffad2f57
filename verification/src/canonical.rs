//! Reading is strict: a value is read as a tree only if it is, field for
//! field, what writing that tree gives. So every tree has one interchange form
//! and no other value passes for it.

use crate::decoding::{
    decode, decode_all, decode_content, decode_differential, decode_differentials,
    decode_identifier, decode_mark, decode_mark_list, decode_marks, decode_opt,
    decode_product_term, decode_product_terms, decode_rows, decode_script, decode_sum_term,
    decode_sum_terms,
};
use crate::encoding::{
    encode, encode_all, encode_differentials, encode_identifier, encode_mark, encode_mark_list,
    encode_marks, encode_opt, encode_product_terms, encode_rows, encode_script, encode_sum_terms,
};
use crate::interchange::{has_header, Json};
use crate::laws::lemma_round_trip;
use crate::math_node::{
    BracketSize, BracketStyle, DifferentialStyle, DivisionStyle, QuantificationNode,
    RefinedAddOrSubOperator, RefinedMulOrDivOperation, ScientificNotationStyle,
};
use crate::model::{NodeModel, RelationOperatorModel, UnaryRelationOperatorModel};
use crate::vocabulary::NodeKind;
use vstd::prelude::*;

verus! {

/// The kind of a node that was read is the kind that the word under `type`
/// stands for, and that word is the word of the kind.
proof fn lemma_kind_of_decoded(value: Json)
    requires
        decode(value) is Some,
    ensures
        value is Object,
        has_header(value->Object_0),
        value->Object_0[0].1->Text_0 == decode(value)->Some_0.content.kind().tag(),
        value->Object_0[1].1->Text_0 == decode(value)->Some_0.id,
        decode_content(decode(value)->Some_0.content.kind(), value->Object_0) == Some(
            decode(value)->Some_0.content,
        ),
{
    let fields = value->Object_0;
    let kind = NodeKind::parse(fields[0].1->Text_0)->Some_0;
    assert(decode_content(kind, fields) is Some);
    assert(decode_content(kind, fields)->Some_0.kind() == kind);
}

/// A value that is read as a tree is the interchange form of that tree.
pub proof fn lemma_only_canonical(value: Json)
    requires
        decode(value) is Some,
    ensures
        encode(decode(value)->Some_0) == value,
    decreases value, 1nat,
{
    match decode(value)->Some_0.content.kind() {
        NodeKind::Empty => lemma_empty_node_only_canonical(value),
        NodeKind::Text => lemma_text_node_only_canonical(value),
        NodeKind::String => lemma_string_node_only_canonical(value),
        NodeKind::Bracketed => lemma_bracketed_node_only_canonical(value),
        NodeKind::Matrix => lemma_matrix_node_only_canonical(value),
        NodeKind::Multiplications => lemma_multiplications_node_only_canonical(value),
        NodeKind::Additions => lemma_additions_node_only_canonical(value),
        NodeKind::Division => lemma_division_node_only_canonical(value),
        NodeKind::SumNotation => lemma_sum_notation_node_only_canonical(value),
        NodeKind::ProductNotation => lemma_product_notation_node_only_canonical(value),
        NodeKind::Fraction => lemma_fraction_node_only_canonical(value),
        NodeKind::Power => lemma_power_node_only_canonical(value),
        NodeKind::UnaryPostfixOperation => lemma_unary_postfix_operation_node_only_canonical(value),
        NodeKind::UnaryPrefixOperation => lemma_unary_prefix_operation_node_only_canonical(value),
        NodeKind::Abs => lemma_abs_node_only_canonical(value),
        NodeKind::FunctionCall => lemma_function_call_node_only_canonical(value),
        NodeKind::Quantity => lemma_quantity_node_only_canonical(value),
        NodeKind::ScientificNotation => lemma_scientific_notation_node_only_canonical(value),
        NodeKind::Identifier => lemma_identifier_node_only_canonical(value),
        NodeKind::Unit => lemma_unit_node_only_canonical(value),
        NodeKind::Relationship => lemma_relationship_node_only_canonical(value),
        NodeKind::UnaryRelationship => lemma_unary_relationship_node_only_canonical(value),
        NodeKind::VariableDefinition => lemma_variable_definition_node_only_canonical(value),
        NodeKind::FunctionDefinition => lemma_function_definition_node_only_canonical(value),
        NodeKind::Limit => lemma_limit_node_only_canonical(value),
        NodeKind::Differential => lemma_differential_node_only_canonical(value),
        NodeKind::Integration => lemma_integration_node_only_canonical(value),
        NodeKind::QuantifiedExpression => lemma_quantified_expression_node_only_canonical(value),
        NodeKind::And => lemma_and_node_only_canonical(value),
        NodeKind::Or => lemma_or_node_only_canonical(value),
        NodeKind::Not => lemma_not_node_only_canonical(value),
        NodeKind::True => lemma_true_node_only_canonical(value),
        NodeKind::False => lemma_false_node_only_canonical(value),
    }
}

proof fn lemma_empty_node_only_canonical(value: Json)
    requires
        decode(value) is Some,
        decode(value)->Some_0.content is Empty,
    ensures
        encode(decode(value)->Some_0) == value,
    decreases value, 0nat,
{
    let fields = value->Object_0;
    let node = decode(value)->Some_0;
    lemma_kind_of_decoded(value);
    assert(encode(node)->Object_0 =~= fields);
}

proof fn lemma_text_node_only_canonical(value: Json)
    requires
        decode(value) is Some,
        decode(value)->Some_0.content is Text,
    ensures
        encode(decode(value)->Some_0) == value,
    decreases value, 0nat,
{
    let fields = value->Object_0;
    let node = decode(value)->Some_0;
    lemma_kind_of_decoded(value);
    assert(encode(node)->Object_0 =~= fields);
}

proof fn lemma_string_node_only_canonical(value: Json)
    requires
        decode(value) is Some,
        decode(value)->Some_0.content is String,
    ensures
        encode(decode(value)->Some_0) == value,
    decreases value, 0nat,
{
    let fields = value->Object_0;
    let node = decode(value)->Some_0;
    lemma_kind_of_decoded(value);
    assert(encode(node)->Object_0 =~= fields);
}

proof fn lemma_bracketed_node_only_canonical(value: Json)
    requires
        decode(value) is Some,
        decode(value)->Some_0.content is Bracketed,
    ensures
        encode(decode(value)->Some_0) == value,
    decreases value, 0nat,
{
    let fields = value->Object_0;
    let node = decode(value)->Some_0;
    lemma_kind_of_decoded(value);
    lemma_only_canonical(fields[2].1);
    BracketStyle::lemma_encode_decode(fields[3].1);
    BracketSize::lemma_encode_decode(fields[4].1);
    assert(encode(node)->Object_0 =~= fields);
}

proof fn lemma_matrix_node_only_canonical(value: Json)
    requires
        decode(value) is Some,
        decode(value)->Some_0.content is Matrix,
    ensures
        encode(decode(value)->Some_0) == value,
    decreases value, 0nat,
{
    let fields = value->Object_0;
    let node = decode(value)->Some_0;
    lemma_kind_of_decoded(value);
    lemma_rows_only_canonical(fields[2].1);
    assert(encode(node)->Object_0 =~= fields);
}

proof fn lemma_multiplications_node_only_canonical(value: Json)
    requires
        decode(value) is Some,
        decode(value)->Some_0.content is Multiplications,
    ensures
        encode(decode(value)->Some_0) == value,
    decreases value, 0nat,
{
    let fields = value->Object_0;
    let node = decode(value)->Some_0;
    lemma_kind_of_decoded(value);
    lemma_product_terms_only_canonical(fields[2].1);
    assert(encode(node)->Object_0 =~= fields);
}

proof fn lemma_additions_node_only_canonical(value: Json)
    requires
        decode(value) is Some,
        decode(value)->Some_0.content is Additions,
    ensures
        encode(decode(value)->Some_0) == value,
    decreases value, 0nat,
{
    let fields = value->Object_0;
    let node = decode(value)->Some_0;
    lemma_kind_of_decoded(value);
    lemma_sum_terms_only_canonical(fields[2].1);
    assert(encode(node)->Object_0 =~= fields);
}

proof fn lemma_division_node_only_canonical(value: Json)
    requires
        decode(value) is Some,
        decode(value)->Some_0.content is Division,
    ensures
        encode(decode(value)->Some_0) == value,
    decreases value, 0nat,
{
    let fields = value->Object_0;
    let node = decode(value)->Some_0;
    lemma_kind_of_decoded(value);
    lemma_only_canonical(fields[2].1);
    lemma_only_canonical(fields[3].1);
    DivisionStyle::lemma_encode_decode(fields[4].1);
    assert(encode(node)->Object_0 =~= fields);
}

proof fn lemma_sum_notation_node_only_canonical(value: Json)
    requires
        decode(value) is Some,
        decode(value)->Some_0.content is SumNotation,
    ensures
        encode(decode(value)->Some_0) == value,
    decreases value, 0nat,
{
    let fields = value->Object_0;
    let node = decode(value)->Some_0;
    lemma_kind_of_decoded(value);
    lemma_only_canonical(fields[2].1);
    lemma_opt_only_canonical(fields[3].1);
    lemma_opt_only_canonical(fields[4].1);
    lemma_opt_only_canonical(fields[5].1);
    assert(encode(node)->Object_0 =~= fields);
}

proof fn lemma_product_notation_node_only_canonical(value: Json)
    requires
        decode(value) is Some,
        decode(value)->Some_0.content is ProductNotation,
    ensures
        encode(decode(value)->Some_0) == value,
    decreases value, 0nat,
{
    let fields = value->Object_0;
    let node = decode(value)->Some_0;
    lemma_kind_of_decoded(value);
    lemma_only_canonical(fields[2].1);
    lemma_opt_only_canonical(fields[3].1);
    lemma_opt_only_canonical(fields[4].1);
    lemma_opt_only_canonical(fields[5].1);
    assert(encode(node)->Object_0 =~= fields);
}

proof fn lemma_fraction_node_only_canonical(value: Json)
    requires
        decode(value) is Some,
        decode(value)->Some_0.content is Fraction,
    ensures
        encode(decode(value)->Some_0) == value,
    decreases value, 0nat,
{
    let fields = value->Object_0;
    let node = decode(value)->Some_0;
    lemma_kind_of_decoded(value);
    lemma_only_canonical(fields[2].1);
    lemma_only_canonical(fields[3].1);
    assert(encode(node)->Object_0 =~= fields);
}

proof fn lemma_power_node_only_canonical(value: Json)
    requires
        decode(value) is Some,
        decode(value)->Some_0.content is Power,
    ensures
        encode(decode(value)->Some_0) == value,
    decreases value, 0nat,
{
    let fields = value->Object_0;
    let node = decode(value)->Some_0;
    lemma_kind_of_decoded(value);
    lemma_only_canonical(fields[2].1);
    lemma_only_canonical(fields[3].1);
    assert(encode(node)->Object_0 =~= fields);
}

proof fn lemma_unary_postfix_operation_node_only_canonical(value: Json)
    requires
        decode(value) is Some,
        decode(value)->Some_0.content is UnaryPostfixOperation,
    ensures
        encode(decode(value)->Some_0) == value,
    decreases value, 0nat,
{
    let fields = value->Object_0;
    let node = decode(value)->Some_0;
    lemma_kind_of_decoded(value);
    lemma_only_canonical(fields[2].1);
    lemma_only_canonical(fields[3].1);
    assert(encode(node)->Object_0 =~= fields);
}

proof fn lemma_unary_prefix_operation_node_only_canonical(value: Json)
    requires
        decode(value) is Some,
        decode(value)->Some_0.content is UnaryPrefixOperation,
    ensures
        encode(decode(value)->Some_0) == value,
    decreases value, 0nat,
{
    let fields = value->Object_0;
    let node = decode(value)->Some_0;
    lemma_kind_of_decoded(value);
    lemma_only_canonical(fields[2].1);
    lemma_only_canonical(fields[3].1);
    assert(encode(node)->Object_0 =~= fields);
}

proof fn lemma_abs_node_only_canonical(value: Json)
    requires
        decode(value) is Some,
        decode(value)->Some_0.content is Abs,
    ensures
        encode(decode(value)->Some_0) == value,
    decreases value, 0nat,
{
    let fields = value->Object_0;
    let node = decode(value)->Some_0;
    lemma_kind_of_decoded(value);
    lemma_only_canonical(fields[2].1);
    assert(encode(node)->Object_0 =~= fields);
}

proof fn lemma_function_call_node_only_canonical(value: Json)
    requires
        decode(value) is Some,
        decode(value)->Some_0.content is FunctionCall,
    ensures
        encode(decode(value)->Some_0) == value,
    decreases value, 0nat,
{
    let fields = value->Object_0;
    let node = decode(value)->Some_0;
    lemma_kind_of_decoded(value);
    lemma_only_canonical(fields[2].1);
    lemma_all_only_canonical(fields[3].1);
    assert(encode(node)->Object_0 =~= fields);
}

proof fn lemma_quantity_node_only_canonical(value: Json)
    requires
        decode(value) is Some,
        decode(value)->Some_0.content is Quantity,
    ensures
        encode(decode(value)->Some_0) == value,
    decreases value, 0nat,
{
    let fields = value->Object_0;
    let node = decode(value)->Some_0;
    lemma_kind_of_decoded(value);
    lemma_opt_only_canonical(fields[3].1);
    lemma_opt_only_canonical(fields[4].1);
    assert(encode(node)->Object_0 =~= fields);
}

proof fn lemma_scientific_notation_node_only_canonical(value: Json)
    requires
        decode(value) is Some,
        decode(value)->Some_0.content is ScientificNotation,
    ensures
        encode(decode(value)->Some_0) == value,
    decreases value, 0nat,
{
    let fields = value->Object_0;
    let node = decode(value)->Some_0;
    lemma_kind_of_decoded(value);
    lemma_only_canonical(fields[2].1);
    ScientificNotationStyle::lemma_encode_decode(fields[3].1);
    assert(encode(node)->Object_0 =~= fields);
}

proof fn lemma_identifier_node_only_canonical(value: Json)
    requires
        decode(value) is Some,
        decode(value)->Some_0.content is Identifier,
    ensures
        encode(decode(value)->Some_0) == value,
    decreases value, 0nat,
{
    let fields = value->Object_0;
    let node = decode(value)->Some_0;
    lemma_kind_of_decoded(value);
    lemma_identifier_only_canonical(fields[2].1);
    assert(encode(node)->Object_0 =~= fields);
}

proof fn lemma_unit_node_only_canonical(value: Json)
    requires
        decode(value) is Some,
        decode(value)->Some_0.content is Unit,
    ensures
        encode(decode(value)->Some_0) == value,
    decreases value, 0nat,
{
    let fields = value->Object_0;
    let node = decode(value)->Some_0;
    lemma_kind_of_decoded(value);
    lemma_only_canonical(fields[2].1);
    lemma_only_canonical(fields[3].1);
    assert(encode(node)->Object_0 =~= fields);
}

proof fn lemma_relationship_node_only_canonical(value: Json)
    requires
        decode(value) is Some,
        decode(value)->Some_0.content is Relationship,
    ensures
        encode(decode(value)->Some_0) == value,
    decreases value, 0nat,
{
    let fields = value->Object_0;
    let node = decode(value)->Some_0;
    lemma_kind_of_decoded(value);
    lemma_only_canonical(fields[2].1);
    lemma_only_canonical(fields[3].1);
    RelationOperatorModel::lemma_encode_decode(fields[4].1);
    assert(encode(node)->Object_0 =~= fields);
}

proof fn lemma_unary_relationship_node_only_canonical(value: Json)
    requires
        decode(value) is Some,
        decode(value)->Some_0.content is UnaryRelationship,
    ensures
        encode(decode(value)->Some_0) == value,
    decreases value, 0nat,
{
    let fields = value->Object_0;
    let node = decode(value)->Some_0;
    lemma_kind_of_decoded(value);
    lemma_only_canonical(fields[2].1);
    UnaryRelationOperatorModel::lemma_encode_decode(fields[3].1);
    assert(encode(node)->Object_0 =~= fields);
}

proof fn lemma_variable_definition_node_only_canonical(value: Json)
    requires
        decode(value) is Some,
        decode(value)->Some_0.content is VariableDefinition,
    ensures
        encode(decode(value)->Some_0) == value,
    decreases value, 0nat,
{
    let fields = value->Object_0;
    let node = decode(value)->Some_0;
    lemma_kind_of_decoded(value);
    lemma_only_canonical(fields[2].1);
    lemma_opt_only_canonical(fields[3].1);
    assert(encode(node)->Object_0 =~= fields);
}

proof fn lemma_function_definition_node_only_canonical(value: Json)
    requires
        decode(value) is Some,
        decode(value)->Some_0.content is FunctionDefinition,
    ensures
        encode(decode(value)->Some_0) == value,
    decreases value, 0nat,
{
    let fields = value->Object_0;
    let node = decode(value)->Some_0;
    lemma_kind_of_decoded(value);
    lemma_only_canonical(fields[2].1);
    lemma_opt_only_canonical(fields[3].1);
    assert(encode(node)->Object_0 =~= fields);
}

proof fn lemma_limit_node_only_canonical(value: Json)
    requires
        decode(value) is Some,
        decode(value)->Some_0.content is Limit,
    ensures
        encode(decode(value)->Some_0) == value,
    decreases value, 0nat,
{
    let fields = value->Object_0;
    let node = decode(value)->Some_0;
    lemma_kind_of_decoded(value);
    lemma_only_canonical(fields[2].1);
    lemma_only_canonical(fields[4].1);
    assert(encode(node)->Object_0 =~= fields);
}

proof fn lemma_differential_node_only_canonical(value: Json)
    requires
        decode(value) is Some,
        decode(value)->Some_0.content is Differential,
    ensures
        encode(decode(value)->Some_0) == value,
    decreases value, 0nat,
{
    let fields = value->Object_0;
    let node = decode(value)->Some_0;
    lemma_kind_of_decoded(value);
    lemma_only_canonical(fields[2].1);
    lemma_only_canonical(fields[3].1);
    DifferentialStyle::lemma_encode_decode(fields[4].1);
    assert(encode(node)->Object_0 =~= fields);
}

proof fn lemma_integration_node_only_canonical(value: Json)
    requires
        decode(value) is Some,
        decode(value)->Some_0.content is Integration,
    ensures
        encode(decode(value)->Some_0) == value,
    decreases value, 0nat,
{
    let fields = value->Object_0;
    let node = decode(value)->Some_0;
    lemma_kind_of_decoded(value);
    lemma_only_canonical(fields[2].1);
    lemma_differentials_only_canonical(fields[3].1);
    lemma_opt_only_canonical(fields[4].1);
    assert(encode(node)->Object_0 =~= fields);
}

proof fn lemma_quantified_expression_node_only_canonical(value: Json)
    requires
        decode(value) is Some,
        decode(value)->Some_0.content is QuantifiedExpression,
    ensures
        encode(decode(value)->Some_0) == value,
    decreases value, 0nat,
{
    let fields = value->Object_0;
    let node = decode(value)->Some_0;
    lemma_kind_of_decoded(value);
    QuantificationNode::lemma_encode_decode(fields[2].1);
    lemma_all_only_canonical(fields[3].1);
    lemma_opt_only_canonical(fields[4].1);
    lemma_opt_only_canonical(fields[5].1);
    assert(encode(node)->Object_0 =~= fields);
}

proof fn lemma_and_node_only_canonical(value: Json)
    requires
        decode(value) is Some,
        decode(value)->Some_0.content is And,
    ensures
        encode(decode(value)->Some_0) == value,
    decreases value, 0nat,
{
    let fields = value->Object_0;
    let node = decode(value)->Some_0;
    lemma_kind_of_decoded(value);
    lemma_all_only_canonical(fields[2].1);
    assert(encode(node)->Object_0 =~= fields);
}

proof fn lemma_or_node_only_canonical(value: Json)
    requires
        decode(value) is Some,
        decode(value)->Some_0.content is Or,
    ensures
        encode(decode(value)->Some_0) == value,
    decreases value, 0nat,
{
    let fields = value->Object_0;
    let node = decode(value)->Some_0;
    lemma_kind_of_decoded(value);
    lemma_all_only_canonical(fields[2].1);
    assert(encode(node)->Object_0 =~= fields);
}

proof fn lemma_not_node_only_canonical(value: Json)
    requires
        decode(value) is Some,
        decode(value)->Some_0.content is Not,
    ensures
        encode(decode(value)->Some_0) == value,
    decreases value, 0nat,
{
    let fields = value->Object_0;
    let node = decode(value)->Some_0;
    lemma_kind_of_decoded(value);
    lemma_only_canonical(fields[2].1);
    assert(encode(node)->Object_0 =~= fields);
}

proof fn lemma_true_node_only_canonical(value: Json)
    requires
        decode(value) is Some,
        decode(value)->Some_0.content is True,
    ensures
        encode(decode(value)->Some_0) == value,
    decreases value, 0nat,
{
    let fields = value->Object_0;
    let node = decode(value)->Some_0;
    lemma_kind_of_decoded(value);
    assert(encode(node)->Object_0 =~= fields);
}

proof fn lemma_false_node_only_canonical(value: Json)
    requires
        decode(value) is Some,
        decode(value)->Some_0.content is False,
    ensures
        encode(decode(value)->Some_0) == value,
    decreases value, 0nat,
{
    let fields = value->Object_0;
    let node = decode(value)->Some_0;
    lemma_kind_of_decoded(value);
    assert(encode(node)->Object_0 =~= fields);
}

proof fn lemma_opt_only_canonical(value: Json)
    requires
        decode_opt(value) is Some,
    ensures
        encode_opt(decode_opt(value)->Some_0) == value,
    decreases value, 2nat,
{
    if !(value is Null) {
        lemma_only_canonical(value);
    }
}

proof fn lemma_all_only_canonical(value: Json)
    requires
        decode_all(value) is Some,
    ensures
        Json::List(encode_all(decode_all(value)->Some_0)) == value,
    decreases value, 2nat,
{
    let items = value->List_0;
    let nodes = decode_all(value)->Some_0;
    assert forall|i: int| 0 <= i < items.len() implies encode(nodes[i]) == #[trigger] items[i] by {
        lemma_only_canonical(items[i]);
    }
    assert(encode_all(nodes) =~= items);
}

proof fn lemma_rows_only_canonical(value: Json)
    requires
        decode_rows(value) is Some,
    ensures
        Json::List(encode_rows(decode_rows(value)->Some_0)) == value,
    decreases value, 3nat,
{
    let items = value->List_0;
    let rows = decode_rows(value)->Some_0;
    assert forall|i: int| 0 <= i < items.len() implies Json::List(encode_all(rows[i]))
        == #[trigger] items[i] by {
        lemma_all_only_canonical(items[i]);
    }
    assert(encode_rows(rows) =~= items);
}

proof fn lemma_product_terms_only_canonical(value: Json)
    requires
        decode_product_terms(value) is Some,
    ensures
        Json::List(encode_product_terms(decode_product_terms(value)->Some_0)) == value,
    decreases value, 3nat,
{
    let items = value->List_0;
    let terms = decode_product_terms(value)->Some_0;
    assert forall|i: int| 0 <= i < items.len() implies encode_product_terms(terms)[i]
        == #[trigger] items[i] by {
        let fields = items[i]->Object_0;
        assert(decode_product_term(items[i]) is Some);
        RefinedMulOrDivOperation::lemma_encode_decode(fields[0].1);
        lemma_only_canonical(fields[1].1);
        assert(encode_product_terms(terms)[i]->Object_0 =~= fields);
    }
    assert(encode_product_terms(terms) =~= items);
}

proof fn lemma_sum_terms_only_canonical(value: Json)
    requires
        decode_sum_terms(value) is Some,
    ensures
        Json::List(encode_sum_terms(decode_sum_terms(value)->Some_0)) == value,
    decreases value, 3nat,
{
    let items = value->List_0;
    let terms = decode_sum_terms(value)->Some_0;
    assert forall|i: int| 0 <= i < items.len() implies encode_sum_terms(terms)[i]
        == #[trigger] items[i] by {
        let fields = items[i]->Object_0;
        assert(decode_sum_term(items[i]) is Some);
        RefinedAddOrSubOperator::lemma_encode_decode(fields[0].1);
        lemma_only_canonical(fields[1].1);
        assert(encode_sum_terms(terms)[i]->Object_0 =~= fields);
    }
    assert(encode_sum_terms(terms) =~= items);
}

proof fn lemma_differentials_only_canonical(value: Json)
    requires
        decode_differentials(value) is Some,
    ensures
        Json::List(encode_differentials(decode_differentials(value)->Some_0)) == value,
    decreases value, 4nat,
{
    let items = value->List_0;
    let diffs = decode_differentials(value)->Some_0;
    assert forall|i: int| 0 <= i < items.len() implies encode_differentials(diffs)[i]
        == #[trigger] items[i] by {
        let fields = items[i]->Object_0;
        assert(decode_differential(items[i]) is Some);
        lemma_only_canonical(fields[0].1);
        lemma_opt_only_canonical(fields[1].1);
        lemma_opt_only_canonical(fields[2].1);
        assert(encode_differentials(diffs)[i]->Object_0 =~= fields);
    }
    assert(encode_differentials(diffs) =~= items);
}

proof fn lemma_script_only_canonical(value: Json)
    requires
        decode_script(value) is Some,
    ensures
        encode_script(decode_script(value)->Some_0) == value,
    decreases value, 3nat,
{
    match value {
        Json::Object(fields) => {
            lemma_all_only_canonical(fields[0].1);
            lemma_all_only_canonical(fields[1].1);
            assert(encode_script(decode_script(value)->Some_0)->Object_0 =~= fields);
        },
        _ => {},
    }
}

proof fn lemma_mark_only_canonical(value: Json)
    requires
        decode_mark(value) is Some,
    ensures
        encode_mark(decode_mark(value)->Some_0) == value,
{
    match value {
        Json::Object(fields) => {
            assert(encode_mark(decode_mark(value)->Some_0)->Object_0 =~= fields);
        },
        _ => {},
    }
}

proof fn lemma_mark_list_only_canonical(value: Json)
    requires
        decode_mark_list(value) is Some,
    ensures
        Json::List(encode_mark_list(decode_mark_list(value)->Some_0)) == value,
{
    let items = value->List_0;
    let marks = decode_mark_list(value)->Some_0;
    assert forall|i: int| 0 <= i < items.len() implies encode_mark(marks[i])
        == #[trigger] items[i] by {
        lemma_mark_only_canonical(items[i]);
    }
    assert(encode_mark_list(marks) =~= items);
}

proof fn lemma_marks_only_canonical(value: Json)
    requires
        decode_marks(value) is Some,
    ensures
        encode_marks(decode_marks(value)->Some_0) == value,
{
    match value {
        Json::Object(fields) => {
            lemma_mark_list_only_canonical(fields[0].1);
            lemma_mark_list_only_canonical(fields[1].1);
            assert(encode_marks(decode_marks(value)->Some_0)->Object_0 =~= fields);
        },
        _ => {},
    }
}

proof fn lemma_identifier_only_canonical(value: Json)
    requires
        decode_identifier(value) is Some,
    ensures
        encode_identifier(decode_identifier(value)->Some_0) == value,
    decreases value, 4nat,
{
    let fields = value->Object_0;
    lemma_script_only_canonical(fields[1].1);
    lemma_marks_only_canonical(fields[2].1);
    lemma_script_only_canonical(fields[3].1);
    assert(encode_identifier(decode_identifier(value)->Some_0)->Object_0 =~= fields);
}

/// A value is read as a tree exactly when it is the interchange form of a
/// tree, and then it is read as that tree.
pub proof fn lemma_read_exactly_what_is_written(value: Json, node: NodeModel)
    ensures
        decode(value) == Some(node) <==> encode(node) == value,
{
    if decode(value) == Some(node) {
        lemma_only_canonical(value);
    }
    if encode(node) == value {
        lemma_round_trip(node);
    }
}

} // verus!
