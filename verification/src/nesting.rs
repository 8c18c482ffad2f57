//! How deep the interchange form nests.
//!
//! The interchange form wraps children in lists and in objects of their own,
//! so it nests deeper than the tree it stands for, but by a fixed factor: at
//! most four levels for each level of the tree, and two more. A reader whose
//! limit is that much above the writer's can read whatever the writer wrote.

use crate::encoding::{
    differential_object, encode, encode_all, encode_differentials, encode_identifier, encode_mark,
    encode_mark_list, encode_marks, encode_opt, encode_product_terms, encode_rows, encode_script,
    encode_sum_terms, term_object,
};
use crate::interchange::{header, Json};
use crate::math_node::{
    RefinedAddOrSubOperator, RefinedMulOrDivOperation, SpecialMiddleScriptContentTypeNode,
};
use crate::model::{
    ContentModel, IdentifierModel, MidScriptModel, NodeModel, RelationOperatorModel, ScriptModel,
    UnaryRelationOperatorModel,
};
use crate::validation::{
    children, depth, differential_children, differential_nodes, identifier_children,
    lemma_depth_bound, opt_children, product_term_nodes, script_children, sum_term_nodes,
};
use crate::vocabulary::NodeKind;
use vstd::prelude::*;

verus! {

/// Whether each of some trees has at most `limit` levels.
pub open spec fn all_within(nodes: Seq<NodeModel>, limit: int) -> bool {
    forall|i: int| 0 <= i < nodes.len() ==> depth(#[trigger] nodes[i]) <= limit
}

/// Whether the value of each of some fields nests at most `limit` levels.
pub open spec fn entries_within(fields: Seq<(Seq<char>, Json)>, limit: int) -> bool {
    forall|i: int| 0 <= i < fields.len() ==> (#[trigger] fields[i]).1.depth() <= limit
}

/// Whether each of some values nests at most `limit` levels.
pub open spec fn items_within(items: Seq<Json>, limit: int) -> bool {
    forall|i: int| 0 <= i < items.len() ==> (#[trigger] items[i]).depth() <= limit
}

/// Every child of a node has fewer levels than the node.
proof fn lemma_children_within(node: NodeModel)
    ensures
        all_within(children(node), depth(node) - 1),
        depth(node) >= 1,
{
    lemma_depth_bound(node, depth(node) as int);
}

proof fn lemma_within_push(nodes: Seq<NodeModel>, node: NodeModel, limit: int)
    requires
        all_within(nodes.push(node), limit),
    ensures
        all_within(nodes, limit),
        depth(node) <= limit,
{
    let more = nodes.push(node);
    assert(more[nodes.len() as int] == node);
    assert forall|i: int| 0 <= i < nodes.len() implies depth(#[trigger] nodes[i]) <= limit by {
        assert(more[i] == nodes[i]);
    }
}

proof fn lemma_within_concat(a: Seq<NodeModel>, b: Seq<NodeModel>, limit: int)
    requires
        all_within(a + b, limit),
    ensures
        all_within(a, limit),
        all_within(b, limit),
{
    let both = a + b;
    assert forall|i: int| 0 <= i < a.len() implies depth(#[trigger] a[i]) <= limit by {
        assert(both[i] == a[i]);
    }
    assert forall|i: int| 0 <= i < b.len() implies depth(#[trigger] b[i]) <= limit by {
        assert(both[a.len() + i] == b[i]);
    }
}

/// Where the entries of some rows taken together are within a limit, each row
/// is.
proof fn lemma_within_flatten<A>(rows: Seq<Seq<A>>, i: int, j: int) -> (k: int)
    requires
        0 <= i < rows.len(),
        0 <= j < rows[i].len(),
    ensures
        0 <= k < rows.flatten().len(),
        rows.flatten()[k] == rows[i][j],
    decreases rows.len(),
{
    let front = rows.drop_last();
    let last = rows.last();
    assert(rows =~= front.push(last));
    front.lemma_flatten_push(last);
    if i == rows.len() - 1 {
        front.flatten().len() + j
    } else {
        assert(front[i] == rows[i]);
        lemma_within_flatten(front, i, j)
    }
}

proof fn lemma_scalar_depth(value: Json)
    requires
        !(value is List),
        !(value is Object),
    ensures
        value.depth() == 1,
{
    value.lemma_depth_bound(1);
    value.lemma_depth_bound(0);
}

proof fn lemma_entries_push(fields: Seq<(Seq<char>, Json)>, key: Seq<char>, value: Json, limit: int)
    requires
        entries_within(fields, limit),
        value.depth() <= limit,
    ensures
        entries_within(fields.push((key, value)), limit),
{
    let more = fields.push((key, value));
    assert forall|i: int| 0 <= i < more.len() implies (#[trigger] more[i]).1.depth() <= limit by {
        if i < fields.len() {
            assert(more[i] == fields[i]);
        }
    }
}

proof fn lemma_object_depth(fields: Seq<(Seq<char>, Json)>, limit: int)
    requires
        entries_within(fields, limit),
        limit >= 0,
    ensures
        Json::Object(fields).depth() <= limit + 1,
{
    Json::Object(fields).lemma_depth_bound(limit + 1);
}

proof fn lemma_list_depth(items: Seq<Json>, limit: int)
    requires
        items_within(items, limit),
        limit >= 0,
    ensures
        Json::List(items).depth() <= limit + 1,
{
    Json::List(items).lemma_depth_bound(limit + 1);
}

proof fn lemma_header_depth(word: Seq<char>, id: Seq<char>, limit: int)
    requires
        limit >= 1,
    ensures
        entries_within(header(word, id), limit),
{
    let none = Seq::<(Seq<char>, Json)>::empty();
    lemma_scalar_depth(Json::Text(word));
    lemma_scalar_depth(Json::Text(id));
    lemma_entries_push(none, "type"@, Json::Text(word), limit);
    lemma_entries_push(none.push(("type"@, Json::Text(word))), "id"@, Json::Text(id), limit);
}

proof fn lemma_relation_depth(operator: RelationOperatorModel)
    ensures
        operator.encode().depth() <= 2,
{
    match operator {
        RelationOperatorModel::Custom(text) => {
            let none = Seq::<(Seq<char>, Json)>::empty();
            lemma_scalar_depth(Json::Text(text));
            lemma_entries_push(none, "custom"@, Json::Text(text), 1);
            lemma_object_depth(none.push(("custom"@, Json::Text(text))), 1);
        },
        _ => {
            lemma_scalar_depth(operator.encode());
        },
    }
}

proof fn lemma_property_depth(predicate: UnaryRelationOperatorModel)
    ensures
        predicate.encode().depth() <= 2,
{
    match predicate {
        UnaryRelationOperatorModel::Custom(text) => {
            let none = Seq::<(Seq<char>, Json)>::empty();
            lemma_scalar_depth(Json::Text(text));
            lemma_entries_push(none, "custom"@, Json::Text(text), 1);
            lemma_object_depth(none.push(("custom"@, Json::Text(text))), 1);
        },
        _ => {
            lemma_scalar_depth(predicate.encode());
        },
    }
}

/// The interchange form of a tree nests at most four levels for each level of
/// the tree, and two more.
pub proof fn lemma_encoded_depth(node: NodeModel)
    ensures
        encode(node).depth() <= 4 * depth(node) + 2,
    decreases node, 1nat,
{
    match node.content.kind() {
        NodeKind::Empty => lemma_empty_encoded_depth(node),
        NodeKind::Text => lemma_text_encoded_depth(node),
        NodeKind::String => lemma_string_encoded_depth(node),
        NodeKind::Bracketed => lemma_bracketed_encoded_depth(node),
        NodeKind::Matrix => lemma_matrix_encoded_depth(node),
        NodeKind::Multiplications => lemma_multiplications_encoded_depth(node),
        NodeKind::Additions => lemma_additions_encoded_depth(node),
        NodeKind::Division => lemma_division_encoded_depth(node),
        NodeKind::SumNotation => lemma_sum_notation_encoded_depth(node),
        NodeKind::ProductNotation => lemma_product_notation_encoded_depth(node),
        NodeKind::Fraction => lemma_fraction_encoded_depth(node),
        NodeKind::Power => lemma_power_encoded_depth(node),
        NodeKind::UnaryPostfixOperation => lemma_unary_postfix_operation_encoded_depth(node),
        NodeKind::UnaryPrefixOperation => lemma_unary_prefix_operation_encoded_depth(node),
        NodeKind::Abs => lemma_abs_encoded_depth(node),
        NodeKind::FunctionCall => lemma_function_call_encoded_depth(node),
        NodeKind::Quantity => lemma_quantity_encoded_depth(node),
        NodeKind::ScientificNotation => lemma_scientific_notation_encoded_depth(node),
        NodeKind::Identifier => lemma_identifier_encoded_depth(node),
        NodeKind::Unit => lemma_unit_encoded_depth(node),
        NodeKind::Relationship => lemma_relationship_encoded_depth(node),
        NodeKind::UnaryRelationship => lemma_unary_relationship_encoded_depth(node),
        NodeKind::VariableDefinition => lemma_variable_definition_encoded_depth(node),
        NodeKind::FunctionDefinition => lemma_function_definition_encoded_depth(node),
        NodeKind::Limit => lemma_limit_encoded_depth(node),
        NodeKind::Differential => lemma_differential_encoded_depth(node),
        NodeKind::Integration => lemma_integration_encoded_depth(node),
        NodeKind::QuantifiedExpression => lemma_quantified_expression_encoded_depth(node),
        NodeKind::And => lemma_and_encoded_depth(node),
        NodeKind::Or => lemma_or_encoded_depth(node),
        NodeKind::Not => lemma_not_encoded_depth(node),
        NodeKind::True => lemma_true_encoded_depth(node),
        NodeKind::False => lemma_false_encoded_depth(node),
    }
}

proof fn lemma_empty_encoded_depth(node: NodeModel)
    requires
        node.content is Empty,
    ensures
        encode(node).depth() <= 4 * depth(node) + 2,
    decreases node, 0nat,
{
    let d = depth(node) - 1;
    let bound = 4 * d + 5;
    let f0 = header(node.content.kind().tag(), node.id);
    let c0 = Seq::<NodeModel>::empty();
    lemma_children_within(node);
    lemma_header_depth(node.content.kind().tag(), node.id, bound);
    lemma_object_depth(f0, bound);
    assert(encode(node) == Json::Object(f0));
}

proof fn lemma_text_encoded_depth(node: NodeModel)
    requires
        node.content is Text,
    ensures
        encode(node).depth() <= 4 * depth(node) + 2,
    decreases node, 0nat,
{
    let d = depth(node) - 1;
    let bound = 4 * d + 5;
    let f0 = header(node.content.kind().tag(), node.id);
    let c0 = Seq::<NodeModel>::empty();
    lemma_children_within(node);
    lemma_header_depth(node.content.kind().tag(), node.id, bound);
    match node.content {
        ContentModel::Text(value) => {
            assert(children(node) == c0);
            lemma_scalar_depth(Json::Text(value));
            lemma_entries_push(f0, "value"@, Json::Text(value), bound);
            let f1 = f0.push(("value"@, Json::Text(value)));
            lemma_object_depth(f1, bound);
            assert(encode(node) == Json::Object(f1));
        },
        _ => {},
    }
}

proof fn lemma_string_encoded_depth(node: NodeModel)
    requires
        node.content is String,
    ensures
        encode(node).depth() <= 4 * depth(node) + 2,
    decreases node, 0nat,
{
    let d = depth(node) - 1;
    let bound = 4 * d + 5;
    let f0 = header(node.content.kind().tag(), node.id);
    let c0 = Seq::<NodeModel>::empty();
    lemma_children_within(node);
    lemma_header_depth(node.content.kind().tag(), node.id, bound);
    match node.content {
        ContentModel::String(value) => {
            assert(children(node) == c0);
            lemma_scalar_depth(Json::Text(value));
            lemma_entries_push(f0, "value"@, Json::Text(value), bound);
            let f1 = f0.push(("value"@, Json::Text(value)));
            lemma_object_depth(f1, bound);
            assert(encode(node) == Json::Object(f1));
        },
        _ => {},
    }
}

proof fn lemma_bracketed_encoded_depth(node: NodeModel)
    requires
        node.content is Bracketed,
    ensures
        encode(node).depth() <= 4 * depth(node) + 2,
    decreases node, 0nat,
{
    let d = depth(node) - 1;
    let bound = 4 * d + 5;
    let f0 = header(node.content.kind().tag(), node.id);
    let c0 = Seq::<NodeModel>::empty();
    lemma_children_within(node);
    lemma_header_depth(node.content.kind().tag(), node.id, bound);
    match node.content {
        ContentModel::Bracketed { inner, style, size } => {
            let c1 = c0.push(*inner);
            assert(children(node) == c1);
            lemma_within_push(c0, *inner, d);
            lemma_encoded_depth(*inner);
            lemma_entries_push(f0, "inner"@, encode(*inner), bound);
            let f1 = f0.push(("inner"@, encode(*inner)));
            lemma_scalar_depth(style.encode());
            lemma_entries_push(f1, "style"@, style.encode(), bound);
            let f2 = f1.push(("style"@, style.encode()));
            lemma_scalar_depth(size.encode());
            lemma_entries_push(f2, "size"@, size.encode(), bound);
            let f3 = f2.push(("size"@, size.encode()));
            lemma_object_depth(f3, bound);
            assert(encode(node) == Json::Object(f3));
        },
        _ => {},
    }
}

proof fn lemma_matrix_encoded_depth(node: NodeModel)
    requires
        node.content is Matrix,
    ensures
        encode(node).depth() <= 4 * depth(node) + 2,
    decreases node, 0nat,
{
    let d = depth(node) - 1;
    let bound = 4 * d + 5;
    let f0 = header(node.content.kind().tag(), node.id);
    let c0 = Seq::<NodeModel>::empty();
    lemma_children_within(node);
    lemma_header_depth(node.content.kind().tag(), node.id, bound);
    match node.content {
        ContentModel::Matrix { rows } => {
            let c1 = c0 + rows.flatten();
            assert(children(node) == c1);
            lemma_within_concat(c0, rows.flatten(), d);
            lemma_rows_depth(rows, d);
            lemma_entries_push(f0, "rows"@, Json::List(encode_rows(rows)), bound);
            let f1 = f0.push(("rows"@, Json::List(encode_rows(rows))));
            lemma_object_depth(f1, bound);
            assert(encode(node) == Json::Object(f1));
        },
        _ => {},
    }
}

proof fn lemma_multiplications_encoded_depth(node: NodeModel)
    requires
        node.content is Multiplications,
    ensures
        encode(node).depth() <= 4 * depth(node) + 2,
    decreases node, 0nat,
{
    let d = depth(node) - 1;
    let bound = 4 * d + 5;
    let f0 = header(node.content.kind().tag(), node.id);
    let c0 = Seq::<NodeModel>::empty();
    lemma_children_within(node);
    lemma_header_depth(node.content.kind().tag(), node.id, bound);
    match node.content {
        ContentModel::Multiplications { terms } => {
            let c1 = c0 + product_term_nodes(terms);
            assert(children(node) == c1);
            lemma_within_concat(c0, product_term_nodes(terms), d);
            lemma_product_terms_depth(terms, d);
            lemma_entries_push(f0, "terms"@, Json::List(encode_product_terms(terms)), bound);
            let f1 = f0.push(("terms"@, Json::List(encode_product_terms(terms))));
            lemma_object_depth(f1, bound);
            assert(encode(node) == Json::Object(f1));
        },
        _ => {},
    }
}

proof fn lemma_additions_encoded_depth(node: NodeModel)
    requires
        node.content is Additions,
    ensures
        encode(node).depth() <= 4 * depth(node) + 2,
    decreases node, 0nat,
{
    let d = depth(node) - 1;
    let bound = 4 * d + 5;
    let f0 = header(node.content.kind().tag(), node.id);
    let c0 = Seq::<NodeModel>::empty();
    lemma_children_within(node);
    lemma_header_depth(node.content.kind().tag(), node.id, bound);
    match node.content {
        ContentModel::Additions { terms } => {
            let c1 = c0 + sum_term_nodes(terms);
            assert(children(node) == c1);
            lemma_within_concat(c0, sum_term_nodes(terms), d);
            lemma_sum_terms_depth(terms, d);
            lemma_entries_push(f0, "terms"@, Json::List(encode_sum_terms(terms)), bound);
            let f1 = f0.push(("terms"@, Json::List(encode_sum_terms(terms))));
            lemma_object_depth(f1, bound);
            assert(encode(node) == Json::Object(f1));
        },
        _ => {},
    }
}

proof fn lemma_division_encoded_depth(node: NodeModel)
    requires
        node.content is Division,
    ensures
        encode(node).depth() <= 4 * depth(node) + 2,
    decreases node, 0nat,
{
    let d = depth(node) - 1;
    let bound = 4 * d + 5;
    let f0 = header(node.content.kind().tag(), node.id);
    let c0 = Seq::<NodeModel>::empty();
    lemma_children_within(node);
    lemma_header_depth(node.content.kind().tag(), node.id, bound);
    match node.content {
        ContentModel::Division { numerator, denominator, style } => {
            let c1 = c0.push(*numerator);
            let c2 = c1.push(*denominator);
            assert(children(node) == c2);
            lemma_within_push(c1, *denominator, d);
            lemma_within_push(c0, *numerator, d);
            lemma_encoded_depth(*numerator);
            lemma_entries_push(f0, "numerator"@, encode(*numerator), bound);
            let f1 = f0.push(("numerator"@, encode(*numerator)));
            lemma_encoded_depth(*denominator);
            lemma_entries_push(f1, "denominator"@, encode(*denominator), bound);
            let f2 = f1.push(("denominator"@, encode(*denominator)));
            lemma_scalar_depth(style.encode());
            lemma_entries_push(f2, "style"@, style.encode(), bound);
            let f3 = f2.push(("style"@, style.encode()));
            lemma_object_depth(f3, bound);
            assert(encode(node) == Json::Object(f3));
        },
        _ => {},
    }
}

proof fn lemma_sum_notation_encoded_depth(node: NodeModel)
    requires
        node.content is SumNotation,
    ensures
        encode(node).depth() <= 4 * depth(node) + 2,
    decreases node, 0nat,
{
    let d = depth(node) - 1;
    let bound = 4 * d + 5;
    let f0 = header(node.content.kind().tag(), node.id);
    let c0 = Seq::<NodeModel>::empty();
    lemma_children_within(node);
    lemma_header_depth(node.content.kind().tag(), node.id, bound);
    match node.content {
        ContentModel::SumNotation { summand, variable, lower_limit, upper_limit } => {
            let c1 = c0.push(*summand);
            let c2 = c1 + opt_children(variable);
            let c3 = c2 + opt_children(lower_limit);
            let c4 = c3 + opt_children(upper_limit);
            assert(children(node) == c4);
            lemma_within_concat(c3, opt_children(upper_limit), d);
            lemma_within_concat(c2, opt_children(lower_limit), d);
            lemma_within_concat(c1, opt_children(variable), d);
            lemma_within_push(c0, *summand, d);
            lemma_encoded_depth(*summand);
            lemma_entries_push(f0, "summand"@, encode(*summand), bound);
            let f1 = f0.push(("summand"@, encode(*summand)));
            lemma_opt_depth(variable, d);
            lemma_entries_push(f1, "variable"@, encode_opt(variable), bound);
            let f2 = f1.push(("variable"@, encode_opt(variable)));
            lemma_opt_depth(lower_limit, d);
            lemma_entries_push(f2, "lower_limit"@, encode_opt(lower_limit), bound);
            let f3 = f2.push(("lower_limit"@, encode_opt(lower_limit)));
            lemma_opt_depth(upper_limit, d);
            lemma_entries_push(f3, "upper_limit"@, encode_opt(upper_limit), bound);
            let f4 = f3.push(("upper_limit"@, encode_opt(upper_limit)));
            lemma_object_depth(f4, bound);
            assert(encode(node) == Json::Object(f4));
        },
        _ => {},
    }
}

proof fn lemma_product_notation_encoded_depth(node: NodeModel)
    requires
        node.content is ProductNotation,
    ensures
        encode(node).depth() <= 4 * depth(node) + 2,
    decreases node, 0nat,
{
    let d = depth(node) - 1;
    let bound = 4 * d + 5;
    let f0 = header(node.content.kind().tag(), node.id);
    let c0 = Seq::<NodeModel>::empty();
    lemma_children_within(node);
    lemma_header_depth(node.content.kind().tag(), node.id, bound);
    match node.content {
        ContentModel::ProductNotation { multiplicand, variable, lower_limit, upper_limit } => {
            let c1 = c0.push(*multiplicand);
            let c2 = c1 + opt_children(variable);
            let c3 = c2 + opt_children(lower_limit);
            let c4 = c3 + opt_children(upper_limit);
            assert(children(node) == c4);
            lemma_within_concat(c3, opt_children(upper_limit), d);
            lemma_within_concat(c2, opt_children(lower_limit), d);
            lemma_within_concat(c1, opt_children(variable), d);
            lemma_within_push(c0, *multiplicand, d);
            lemma_encoded_depth(*multiplicand);
            lemma_entries_push(f0, "multiplicand"@, encode(*multiplicand), bound);
            let f1 = f0.push(("multiplicand"@, encode(*multiplicand)));
            lemma_opt_depth(variable, d);
            lemma_entries_push(f1, "variable"@, encode_opt(variable), bound);
            let f2 = f1.push(("variable"@, encode_opt(variable)));
            lemma_opt_depth(lower_limit, d);
            lemma_entries_push(f2, "lower_limit"@, encode_opt(lower_limit), bound);
            let f3 = f2.push(("lower_limit"@, encode_opt(lower_limit)));
            lemma_opt_depth(upper_limit, d);
            lemma_entries_push(f3, "upper_limit"@, encode_opt(upper_limit), bound);
            let f4 = f3.push(("upper_limit"@, encode_opt(upper_limit)));
            lemma_object_depth(f4, bound);
            assert(encode(node) == Json::Object(f4));
        },
        _ => {},
    }
}

proof fn lemma_fraction_encoded_depth(node: NodeModel)
    requires
        node.content is Fraction,
    ensures
        encode(node).depth() <= 4 * depth(node) + 2,
    decreases node, 0nat,
{
    let d = depth(node) - 1;
    let bound = 4 * d + 5;
    let f0 = header(node.content.kind().tag(), node.id);
    let c0 = Seq::<NodeModel>::empty();
    lemma_children_within(node);
    lemma_header_depth(node.content.kind().tag(), node.id, bound);
    match node.content {
        ContentModel::Fraction { numerator, denominator } => {
            let c1 = c0.push(*numerator);
            let c2 = c1.push(*denominator);
            assert(children(node) == c2);
            lemma_within_push(c1, *denominator, d);
            lemma_within_push(c0, *numerator, d);
            lemma_encoded_depth(*numerator);
            lemma_entries_push(f0, "numerator"@, encode(*numerator), bound);
            let f1 = f0.push(("numerator"@, encode(*numerator)));
            lemma_encoded_depth(*denominator);
            lemma_entries_push(f1, "denominator"@, encode(*denominator), bound);
            let f2 = f1.push(("denominator"@, encode(*denominator)));
            lemma_object_depth(f2, bound);
            assert(encode(node) == Json::Object(f2));
        },
        _ => {},
    }
}

proof fn lemma_power_encoded_depth(node: NodeModel)
    requires
        node.content is Power,
    ensures
        encode(node).depth() <= 4 * depth(node) + 2,
    decreases node, 0nat,
{
    let d = depth(node) - 1;
    let bound = 4 * d + 5;
    let f0 = header(node.content.kind().tag(), node.id);
    let c0 = Seq::<NodeModel>::empty();
    lemma_children_within(node);
    lemma_header_depth(node.content.kind().tag(), node.id, bound);
    match node.content {
        ContentModel::Power { base, exponent } => {
            let c1 = c0.push(*base);
            let c2 = c1.push(*exponent);
            assert(children(node) == c2);
            lemma_within_push(c1, *exponent, d);
            lemma_within_push(c0, *base, d);
            lemma_encoded_depth(*base);
            lemma_entries_push(f0, "base"@, encode(*base), bound);
            let f1 = f0.push(("base"@, encode(*base)));
            lemma_encoded_depth(*exponent);
            lemma_entries_push(f1, "exponent"@, encode(*exponent), bound);
            let f2 = f1.push(("exponent"@, encode(*exponent)));
            lemma_object_depth(f2, bound);
            assert(encode(node) == Json::Object(f2));
        },
        _ => {},
    }
}

proof fn lemma_unary_postfix_operation_encoded_depth(node: NodeModel)
    requires
        node.content is UnaryPostfixOperation,
    ensures
        encode(node).depth() <= 4 * depth(node) + 2,
    decreases node, 0nat,
{
    let d = depth(node) - 1;
    let bound = 4 * d + 5;
    let f0 = header(node.content.kind().tag(), node.id);
    let c0 = Seq::<NodeModel>::empty();
    lemma_children_within(node);
    lemma_header_depth(node.content.kind().tag(), node.id, bound);
    match node.content {
        ContentModel::UnaryPostfixOperation { parameter, operator } => {
            let c1 = c0.push(*parameter);
            let c2 = c1.push(*operator);
            assert(children(node) == c2);
            lemma_within_push(c1, *operator, d);
            lemma_within_push(c0, *parameter, d);
            lemma_encoded_depth(*parameter);
            lemma_entries_push(f0, "parameter"@, encode(*parameter), bound);
            let f1 = f0.push(("parameter"@, encode(*parameter)));
            lemma_encoded_depth(*operator);
            lemma_entries_push(f1, "operator"@, encode(*operator), bound);
            let f2 = f1.push(("operator"@, encode(*operator)));
            lemma_object_depth(f2, bound);
            assert(encode(node) == Json::Object(f2));
        },
        _ => {},
    }
}

proof fn lemma_unary_prefix_operation_encoded_depth(node: NodeModel)
    requires
        node.content is UnaryPrefixOperation,
    ensures
        encode(node).depth() <= 4 * depth(node) + 2,
    decreases node, 0nat,
{
    let d = depth(node) - 1;
    let bound = 4 * d + 5;
    let f0 = header(node.content.kind().tag(), node.id);
    let c0 = Seq::<NodeModel>::empty();
    lemma_children_within(node);
    lemma_header_depth(node.content.kind().tag(), node.id, bound);
    match node.content {
        ContentModel::UnaryPrefixOperation { parameter, operator } => {
            let c1 = c0.push(*parameter);
            let c2 = c1.push(*operator);
            assert(children(node) == c2);
            lemma_within_push(c1, *operator, d);
            lemma_within_push(c0, *parameter, d);
            lemma_encoded_depth(*parameter);
            lemma_entries_push(f0, "parameter"@, encode(*parameter), bound);
            let f1 = f0.push(("parameter"@, encode(*parameter)));
            lemma_encoded_depth(*operator);
            lemma_entries_push(f1, "operator"@, encode(*operator), bound);
            let f2 = f1.push(("operator"@, encode(*operator)));
            lemma_object_depth(f2, bound);
            assert(encode(node) == Json::Object(f2));
        },
        _ => {},
    }
}

proof fn lemma_abs_encoded_depth(node: NodeModel)
    requires
        node.content is Abs,
    ensures
        encode(node).depth() <= 4 * depth(node) + 2,
    decreases node, 0nat,
{
    let d = depth(node) - 1;
    let bound = 4 * d + 5;
    let f0 = header(node.content.kind().tag(), node.id);
    let c0 = Seq::<NodeModel>::empty();
    lemma_children_within(node);
    lemma_header_depth(node.content.kind().tag(), node.id, bound);
    match node.content {
        ContentModel::Abs { parameter } => {
            let c1 = c0.push(*parameter);
            assert(children(node) == c1);
            lemma_within_push(c0, *parameter, d);
            lemma_encoded_depth(*parameter);
            lemma_entries_push(f0, "parameter"@, encode(*parameter), bound);
            let f1 = f0.push(("parameter"@, encode(*parameter)));
            lemma_object_depth(f1, bound);
            assert(encode(node) == Json::Object(f1));
        },
        _ => {},
    }
}

proof fn lemma_function_call_encoded_depth(node: NodeModel)
    requires
        node.content is FunctionCall,
    ensures
        encode(node).depth() <= 4 * depth(node) + 2,
    decreases node, 0nat,
{
    let d = depth(node) - 1;
    let bound = 4 * d + 5;
    let f0 = header(node.content.kind().tag(), node.id);
    let c0 = Seq::<NodeModel>::empty();
    lemma_children_within(node);
    lemma_header_depth(node.content.kind().tag(), node.id, bound);
    match node.content {
        ContentModel::FunctionCall { name, parameters } => {
            let c1 = c0.push(*name);
            let c2 = c1 + parameters;
            assert(children(node) == c2);
            lemma_within_concat(c1, parameters, d);
            lemma_within_push(c0, *name, d);
            lemma_encoded_depth(*name);
            lemma_entries_push(f0, "name"@, encode(*name), bound);
            let f1 = f0.push(("name"@, encode(*name)));
            lemma_all_depth(parameters, d);
            lemma_entries_push(f1, "parameters"@, Json::List(encode_all(parameters)), bound);
            let f2 = f1.push(("parameters"@, Json::List(encode_all(parameters))));
            lemma_object_depth(f2, bound);
            assert(encode(node) == Json::Object(f2));
        },
        _ => {},
    }
}

proof fn lemma_quantity_encoded_depth(node: NodeModel)
    requires
        node.content is Quantity,
    ensures
        encode(node).depth() <= 4 * depth(node) + 2,
    decreases node, 0nat,
{
    let d = depth(node) - 1;
    let bound = 4 * d + 5;
    let f0 = header(node.content.kind().tag(), node.id);
    let c0 = Seq::<NodeModel>::empty();
    lemma_children_within(node);
    lemma_header_depth(node.content.kind().tag(), node.id, bound);
    match node.content {
        ContentModel::Quantity { number, scientific_notation, unit } => {
            let c1 = c0 + opt_children(scientific_notation);
            let c2 = c1 + opt_children(unit);
            assert(children(node) == c2);
            lemma_within_concat(c1, opt_children(unit), d);
            lemma_within_concat(c0, opt_children(scientific_notation), d);
            lemma_scalar_depth(Json::Text(number));
            lemma_entries_push(f0, "number"@, Json::Text(number), bound);
            let f1 = f0.push(("number"@, Json::Text(number)));
            lemma_opt_depth(scientific_notation, d);
            lemma_entries_push(f1, "scientific_notation"@, encode_opt(scientific_notation), bound);
            let f2 = f1.push(("scientific_notation"@, encode_opt(scientific_notation)));
            lemma_opt_depth(unit, d);
            lemma_entries_push(f2, "unit"@, encode_opt(unit), bound);
            let f3 = f2.push(("unit"@, encode_opt(unit)));
            lemma_object_depth(f3, bound);
            assert(encode(node) == Json::Object(f3));
        },
        _ => {},
    }
}

proof fn lemma_scientific_notation_encoded_depth(node: NodeModel)
    requires
        node.content is ScientificNotation,
    ensures
        encode(node).depth() <= 4 * depth(node) + 2,
    decreases node, 0nat,
{
    let d = depth(node) - 1;
    let bound = 4 * d + 5;
    let f0 = header(node.content.kind().tag(), node.id);
    let c0 = Seq::<NodeModel>::empty();
    lemma_children_within(node);
    lemma_header_depth(node.content.kind().tag(), node.id, bound);
    match node.content {
        ContentModel::ScientificNotation { magnitude, style } => {
            let c1 = c0.push(*magnitude);
            assert(children(node) == c1);
            lemma_within_push(c0, *magnitude, d);
            lemma_encoded_depth(*magnitude);
            lemma_entries_push(f0, "magnitude"@, encode(*magnitude), bound);
            let f1 = f0.push(("magnitude"@, encode(*magnitude)));
            lemma_scalar_depth(style.encode());
            lemma_entries_push(f1, "style"@, style.encode(), bound);
            let f2 = f1.push(("style"@, style.encode()));
            lemma_object_depth(f2, bound);
            assert(encode(node) == Json::Object(f2));
        },
        _ => {},
    }
}

proof fn lemma_identifier_encoded_depth(node: NodeModel)
    requires
        node.content is Identifier,
    ensures
        encode(node).depth() <= 4 * depth(node) + 2,
    decreases node, 0nat,
{
    let d = depth(node) - 1;
    let bound = 4 * d + 5;
    let f0 = header(node.content.kind().tag(), node.id);
    let c0 = Seq::<NodeModel>::empty();
    lemma_children_within(node);
    lemma_header_depth(node.content.kind().tag(), node.id, bound);
    match node.content {
        ContentModel::Identifier(identifier) => {
            let c1 = c0 + identifier_children(identifier);
            assert(children(node) == c1);
            lemma_within_concat(c0, identifier_children(identifier), d);
            lemma_identifier_depth(identifier, d);
            lemma_entries_push(f0, "identifier"@, encode_identifier(identifier), bound);
            let f1 = f0.push(("identifier"@, encode_identifier(identifier)));
            lemma_object_depth(f1, bound);
            assert(encode(node) == Json::Object(f1));
        },
        _ => {},
    }
}

proof fn lemma_unit_encoded_depth(node: NodeModel)
    requires
        node.content is Unit,
    ensures
        encode(node).depth() <= 4 * depth(node) + 2,
    decreases node, 0nat,
{
    let d = depth(node) - 1;
    let bound = 4 * d + 5;
    let f0 = header(node.content.kind().tag(), node.id);
    let c0 = Seq::<NodeModel>::empty();
    lemma_children_within(node);
    lemma_header_depth(node.content.kind().tag(), node.id, bound);
    match node.content {
        ContentModel::Unit { original_form, flattened_form } => {
            let c1 = c0.push(*original_form);
            let c2 = c1.push(*flattened_form);
            assert(children(node) == c2);
            lemma_within_push(c1, *flattened_form, d);
            lemma_within_push(c0, *original_form, d);
            lemma_encoded_depth(*original_form);
            lemma_entries_push(f0, "original_form"@, encode(*original_form), bound);
            let f1 = f0.push(("original_form"@, encode(*original_form)));
            lemma_encoded_depth(*flattened_form);
            lemma_entries_push(f1, "flattened_form"@, encode(*flattened_form), bound);
            let f2 = f1.push(("flattened_form"@, encode(*flattened_form)));
            lemma_object_depth(f2, bound);
            assert(encode(node) == Json::Object(f2));
        },
        _ => {},
    }
}

proof fn lemma_relationship_encoded_depth(node: NodeModel)
    requires
        node.content is Relationship,
    ensures
        encode(node).depth() <= 4 * depth(node) + 2,
    decreases node, 0nat,
{
    let d = depth(node) - 1;
    let bound = 4 * d + 5;
    let f0 = header(node.content.kind().tag(), node.id);
    let c0 = Seq::<NodeModel>::empty();
    lemma_children_within(node);
    lemma_header_depth(node.content.kind().tag(), node.id, bound);
    match node.content {
        ContentModel::Relationship { lhs, rhs, operator } => {
            let c1 = c0.push(*lhs);
            let c2 = c1.push(*rhs);
            assert(children(node) == c2);
            lemma_within_push(c1, *rhs, d);
            lemma_within_push(c0, *lhs, d);
            lemma_encoded_depth(*lhs);
            lemma_entries_push(f0, "lhs"@, encode(*lhs), bound);
            let f1 = f0.push(("lhs"@, encode(*lhs)));
            lemma_encoded_depth(*rhs);
            lemma_entries_push(f1, "rhs"@, encode(*rhs), bound);
            let f2 = f1.push(("rhs"@, encode(*rhs)));
            lemma_relation_depth(operator);
            lemma_entries_push(f2, "operator"@, operator.encode(), bound);
            let f3 = f2.push(("operator"@, operator.encode()));
            lemma_object_depth(f3, bound);
            assert(encode(node) == Json::Object(f3));
        },
        _ => {},
    }
}

proof fn lemma_unary_relationship_encoded_depth(node: NodeModel)
    requires
        node.content is UnaryRelationship,
    ensures
        encode(node).depth() <= 4 * depth(node) + 2,
    decreases node, 0nat,
{
    let d = depth(node) - 1;
    let bound = 4 * d + 5;
    let f0 = header(node.content.kind().tag(), node.id);
    let c0 = Seq::<NodeModel>::empty();
    lemma_children_within(node);
    lemma_header_depth(node.content.kind().tag(), node.id, bound);
    match node.content {
        ContentModel::UnaryRelationship { subject, predicate } => {
            let c1 = c0.push(*subject);
            assert(children(node) == c1);
            lemma_within_push(c0, *subject, d);
            lemma_encoded_depth(*subject);
            lemma_entries_push(f0, "subject"@, encode(*subject), bound);
            let f1 = f0.push(("subject"@, encode(*subject)));
            lemma_property_depth(predicate);
            lemma_entries_push(f1, "predicate"@, predicate.encode(), bound);
            let f2 = f1.push(("predicate"@, predicate.encode()));
            lemma_object_depth(f2, bound);
            assert(encode(node) == Json::Object(f2));
        },
        _ => {},
    }
}

proof fn lemma_variable_definition_encoded_depth(node: NodeModel)
    requires
        node.content is VariableDefinition,
    ensures
        encode(node).depth() <= 4 * depth(node) + 2,
    decreases node, 0nat,
{
    let d = depth(node) - 1;
    let bound = 4 * d + 5;
    let f0 = header(node.content.kind().tag(), node.id);
    let c0 = Seq::<NodeModel>::empty();
    lemma_children_within(node);
    lemma_header_depth(node.content.kind().tag(), node.id, bound);
    match node.content {
        ContentModel::VariableDefinition { name, definition } => {
            let c1 = c0.push(*name);
            let c2 = c1 + opt_children(definition);
            assert(children(node) == c2);
            lemma_within_concat(c1, opt_children(definition), d);
            lemma_within_push(c0, *name, d);
            lemma_encoded_depth(*name);
            lemma_entries_push(f0, "name"@, encode(*name), bound);
            let f1 = f0.push(("name"@, encode(*name)));
            lemma_opt_depth(definition, d);
            lemma_entries_push(f1, "definition"@, encode_opt(definition), bound);
            let f2 = f1.push(("definition"@, encode_opt(definition)));
            lemma_object_depth(f2, bound);
            assert(encode(node) == Json::Object(f2));
        },
        _ => {},
    }
}

proof fn lemma_function_definition_encoded_depth(node: NodeModel)
    requires
        node.content is FunctionDefinition,
    ensures
        encode(node).depth() <= 4 * depth(node) + 2,
    decreases node, 0nat,
{
    let d = depth(node) - 1;
    let bound = 4 * d + 5;
    let f0 = header(node.content.kind().tag(), node.id);
    let c0 = Seq::<NodeModel>::empty();
    lemma_children_within(node);
    lemma_header_depth(node.content.kind().tag(), node.id, bound);
    match node.content {
        ContentModel::FunctionDefinition { custom_function, definition } => {
            let c1 = c0.push(*custom_function);
            let c2 = c1 + opt_children(definition);
            assert(children(node) == c2);
            lemma_within_concat(c1, opt_children(definition), d);
            lemma_within_push(c0, *custom_function, d);
            lemma_encoded_depth(*custom_function);
            lemma_entries_push(f0, "custom_function"@, encode(*custom_function), bound);
            let f1 = f0.push(("custom_function"@, encode(*custom_function)));
            lemma_opt_depth(definition, d);
            lemma_entries_push(f1, "definition"@, encode_opt(definition), bound);
            let f2 = f1.push(("definition"@, encode_opt(definition)));
            lemma_object_depth(f2, bound);
            assert(encode(node) == Json::Object(f2));
        },
        _ => {},
    }
}

proof fn lemma_limit_encoded_depth(node: NodeModel)
    requires
        node.content is Limit,
    ensures
        encode(node).depth() <= 4 * depth(node) + 2,
    decreases node, 0nat,
{
    let d = depth(node) - 1;
    let bound = 4 * d + 5;
    let f0 = header(node.content.kind().tag(), node.id);
    let c0 = Seq::<NodeModel>::empty();
    lemma_children_within(node);
    lemma_header_depth(node.content.kind().tag(), node.id, bound);
    match node.content {
        ContentModel::Limit { function, variable, approaching_value } => {
            let c1 = c0.push(*function);
            let c2 = c1.push(*approaching_value);
            assert(children(node) == c2);
            lemma_within_push(c1, *approaching_value, d);
            lemma_within_push(c0, *function, d);
            lemma_encoded_depth(*function);
            lemma_entries_push(f0, "function"@, encode(*function), bound);
            let f1 = f0.push(("function"@, encode(*function)));
            lemma_scalar_depth(Json::Text(variable));
            lemma_entries_push(f1, "variable"@, Json::Text(variable), bound);
            let f2 = f1.push(("variable"@, Json::Text(variable)));
            lemma_encoded_depth(*approaching_value);
            lemma_entries_push(f2, "approaching_value"@, encode(*approaching_value), bound);
            let f3 = f2.push(("approaching_value"@, encode(*approaching_value)));
            lemma_object_depth(f3, bound);
            assert(encode(node) == Json::Object(f3));
        },
        _ => {},
    }
}

proof fn lemma_differential_encoded_depth(node: NodeModel)
    requires
        node.content is Differential,
    ensures
        encode(node).depth() <= 4 * depth(node) + 2,
    decreases node, 0nat,
{
    let d = depth(node) - 1;
    let bound = 4 * d + 5;
    let f0 = header(node.content.kind().tag(), node.id);
    let c0 = Seq::<NodeModel>::empty();
    lemma_children_within(node);
    lemma_header_depth(node.content.kind().tag(), node.id, bound);
    match node.content {
        ContentModel::Differential { target, order, diff_style } => {
            let c1 = c0.push(*target);
            let c2 = c1.push(*order);
            assert(children(node) == c2);
            lemma_within_push(c1, *order, d);
            lemma_within_push(c0, *target, d);
            lemma_encoded_depth(*target);
            lemma_entries_push(f0, "target"@, encode(*target), bound);
            let f1 = f0.push(("target"@, encode(*target)));
            lemma_encoded_depth(*order);
            lemma_entries_push(f1, "order"@, encode(*order), bound);
            let f2 = f1.push(("order"@, encode(*order)));
            lemma_scalar_depth(diff_style.encode());
            lemma_entries_push(f2, "diff_style"@, diff_style.encode(), bound);
            let f3 = f2.push(("diff_style"@, diff_style.encode()));
            lemma_object_depth(f3, bound);
            assert(encode(node) == Json::Object(f3));
        },
        _ => {},
    }
}

proof fn lemma_integration_encoded_depth(node: NodeModel)
    requires
        node.content is Integration,
    ensures
        encode(node).depth() <= 4 * depth(node) + 2,
    decreases node, 0nat,
{
    let d = depth(node) - 1;
    let bound = 4 * d + 5;
    let f0 = header(node.content.kind().tag(), node.id);
    let c0 = Seq::<NodeModel>::empty();
    lemma_children_within(node);
    lemma_header_depth(node.content.kind().tag(), node.id, bound);
    match node.content {
        ContentModel::Integration { integrand, differentials, domain } => {
            let c1 = c0.push(*integrand);
            let c2 = c1 + differential_children(differentials);
            let c3 = c2 + opt_children(domain);
            assert(children(node) == c3);
            lemma_within_concat(c2, opt_children(domain), d);
            lemma_within_concat(c1, differential_children(differentials), d);
            lemma_within_push(c0, *integrand, d);
            lemma_encoded_depth(*integrand);
            lemma_entries_push(f0, "integrand"@, encode(*integrand), bound);
            let f1 = f0.push(("integrand"@, encode(*integrand)));
            lemma_differentials_depth(differentials, d);
            lemma_entries_push(
                f1,
                "differentials"@,
                Json::List(encode_differentials(differentials)),
                bound,
            );
            let f2 = f1.push(("differentials"@, Json::List(encode_differentials(differentials))));
            lemma_opt_depth(domain, d);
            lemma_entries_push(f2, "domain"@, encode_opt(domain), bound);
            let f3 = f2.push(("domain"@, encode_opt(domain)));
            lemma_object_depth(f3, bound);
            assert(encode(node) == Json::Object(f3));
        },
        _ => {},
    }
}

proof fn lemma_quantified_expression_encoded_depth(node: NodeModel)
    requires
        node.content is QuantifiedExpression,
    ensures
        encode(node).depth() <= 4 * depth(node) + 2,
    decreases node, 0nat,
{
    let d = depth(node) - 1;
    let bound = 4 * d + 5;
    let f0 = header(node.content.kind().tag(), node.id);
    let c0 = Seq::<NodeModel>::empty();
    lemma_children_within(node);
    lemma_header_depth(node.content.kind().tag(), node.id, bound);
    match node.content {
        ContentModel::QuantifiedExpression { quantifier, variables, domain, predicate } => {
            let c1 = c0 + variables;
            let c2 = c1 + opt_children(domain);
            let c3 = c2 + opt_children(predicate);
            assert(children(node) == c3);
            lemma_within_concat(c2, opt_children(predicate), d);
            lemma_within_concat(c1, opt_children(domain), d);
            lemma_within_concat(c0, variables, d);
            lemma_scalar_depth(quantifier.encode());
            lemma_entries_push(f0, "quantifier"@, quantifier.encode(), bound);
            let f1 = f0.push(("quantifier"@, quantifier.encode()));
            lemma_all_depth(variables, d);
            lemma_entries_push(f1, "variables"@, Json::List(encode_all(variables)), bound);
            let f2 = f1.push(("variables"@, Json::List(encode_all(variables))));
            lemma_opt_depth(domain, d);
            lemma_entries_push(f2, "domain"@, encode_opt(domain), bound);
            let f3 = f2.push(("domain"@, encode_opt(domain)));
            lemma_opt_depth(predicate, d);
            lemma_entries_push(f3, "predicate"@, encode_opt(predicate), bound);
            let f4 = f3.push(("predicate"@, encode_opt(predicate)));
            lemma_object_depth(f4, bound);
            assert(encode(node) == Json::Object(f4));
        },
        _ => {},
    }
}

proof fn lemma_and_encoded_depth(node: NodeModel)
    requires
        node.content is And,
    ensures
        encode(node).depth() <= 4 * depth(node) + 2,
    decreases node, 0nat,
{
    let d = depth(node) - 1;
    let bound = 4 * d + 5;
    let f0 = header(node.content.kind().tag(), node.id);
    let c0 = Seq::<NodeModel>::empty();
    lemma_children_within(node);
    lemma_header_depth(node.content.kind().tag(), node.id, bound);
    match node.content {
        ContentModel::And(operands) => {
            let c1 = c0 + operands;
            assert(children(node) == c1);
            lemma_within_concat(c0, operands, d);
            lemma_all_depth(operands, d);
            lemma_entries_push(f0, "operands"@, Json::List(encode_all(operands)), bound);
            let f1 = f0.push(("operands"@, Json::List(encode_all(operands))));
            lemma_object_depth(f1, bound);
            assert(encode(node) == Json::Object(f1));
        },
        _ => {},
    }
}

proof fn lemma_or_encoded_depth(node: NodeModel)
    requires
        node.content is Or,
    ensures
        encode(node).depth() <= 4 * depth(node) + 2,
    decreases node, 0nat,
{
    let d = depth(node) - 1;
    let bound = 4 * d + 5;
    let f0 = header(node.content.kind().tag(), node.id);
    let c0 = Seq::<NodeModel>::empty();
    lemma_children_within(node);
    lemma_header_depth(node.content.kind().tag(), node.id, bound);
    match node.content {
        ContentModel::Or(operands) => {
            let c1 = c0 + operands;
            assert(children(node) == c1);
            lemma_within_concat(c0, operands, d);
            lemma_all_depth(operands, d);
            lemma_entries_push(f0, "operands"@, Json::List(encode_all(operands)), bound);
            let f1 = f0.push(("operands"@, Json::List(encode_all(operands))));
            lemma_object_depth(f1, bound);
            assert(encode(node) == Json::Object(f1));
        },
        _ => {},
    }
}

proof fn lemma_not_encoded_depth(node: NodeModel)
    requires
        node.content is Not,
    ensures
        encode(node).depth() <= 4 * depth(node) + 2,
    decreases node, 0nat,
{
    let d = depth(node) - 1;
    let bound = 4 * d + 5;
    let f0 = header(node.content.kind().tag(), node.id);
    let c0 = Seq::<NodeModel>::empty();
    lemma_children_within(node);
    lemma_header_depth(node.content.kind().tag(), node.id, bound);
    match node.content {
        ContentModel::Not(operand) => {
            let c1 = c0.push(*operand);
            assert(children(node) == c1);
            lemma_within_push(c0, *operand, d);
            lemma_encoded_depth(*operand);
            lemma_entries_push(f0, "operand"@, encode(*operand), bound);
            let f1 = f0.push(("operand"@, encode(*operand)));
            lemma_object_depth(f1, bound);
            assert(encode(node) == Json::Object(f1));
        },
        _ => {},
    }
}

proof fn lemma_true_encoded_depth(node: NodeModel)
    requires
        node.content is True,
    ensures
        encode(node).depth() <= 4 * depth(node) + 2,
    decreases node, 0nat,
{
    let d = depth(node) - 1;
    let bound = 4 * d + 5;
    let f0 = header(node.content.kind().tag(), node.id);
    let c0 = Seq::<NodeModel>::empty();
    lemma_children_within(node);
    lemma_header_depth(node.content.kind().tag(), node.id, bound);
    lemma_object_depth(f0, bound);
    assert(encode(node) == Json::Object(f0));
}

proof fn lemma_false_encoded_depth(node: NodeModel)
    requires
        node.content is False,
    ensures
        encode(node).depth() <= 4 * depth(node) + 2,
    decreases node, 0nat,
{
    let d = depth(node) - 1;
    let bound = 4 * d + 5;
    let f0 = header(node.content.kind().tag(), node.id);
    let c0 = Seq::<NodeModel>::empty();
    lemma_children_within(node);
    lemma_header_depth(node.content.kind().tag(), node.id, bound);
    lemma_object_depth(f0, bound);
    assert(encode(node) == Json::Object(f0));
}

proof fn lemma_opt_depth(slot: Option<Box<NodeModel>>, d: int)
    requires
        d >= 0,
        all_within(opt_children(slot), d),
    ensures
        encode_opt(slot).depth() <= 4 * d + 2,
    decreases slot, 2nat,
{
    match slot {
        Some(node) => {
            assert(opt_children(slot)[0] == *node);
            lemma_encoded_depth(*node);
        },
        None => {
            lemma_scalar_depth(Json::Null);
        },
    }
}

proof fn lemma_all_depth(nodes: Seq<NodeModel>, d: int)
    requires
        d >= 0,
        all_within(nodes, d),
    ensures
        Json::List(encode_all(nodes)).depth() <= 4 * d + 3,
    decreases nodes, 2nat,
{
    let items = encode_all(nodes);
    assert forall|i: int| 0 <= i < items.len() implies (#[trigger] items[i]).depth() <= 4 * d
        + 2 by {
        assert(depth(nodes[i]) <= d);
        lemma_encoded_depth(nodes[i]);
    }
    lemma_list_depth(items, 4 * d + 2);
}

proof fn lemma_rows_depth(rows: Seq<Seq<NodeModel>>, d: int)
    requires
        d >= 0,
        all_within(rows.flatten(), d),
    ensures
        Json::List(encode_rows(rows)).depth() <= 4 * d + 4,
    decreases rows, 3nat,
{
    let items = encode_rows(rows);
    assert forall|i: int| 0 <= i < items.len() implies (#[trigger] items[i]).depth() <= 4 * d
        + 3 by {
        assert forall|j: int| 0 <= j < rows[i].len() implies depth(#[trigger] rows[i][j]) <= d by {
            let k = lemma_within_flatten(rows, i, j);
            assert(depth(rows.flatten()[k]) <= d);
        }
        lemma_all_depth(rows[i], d);
    }
    lemma_list_depth(items, 4 * d + 3);
}

proof fn lemma_term_depth(operator: Seq<char>, term: Json, limit: int)
    requires
        limit >= 1,
        term.depth() <= limit,
    ensures
        term_object(operator, term).depth() <= limit + 1,
{
    let none = Seq::<(Seq<char>, Json)>::empty();
    lemma_scalar_depth(Json::Text(operator));
    lemma_entries_push(none, "operator"@, Json::Text(operator), limit);
    lemma_entries_push(none.push(("operator"@, Json::Text(operator))), "term"@, term, limit);
    lemma_object_depth(
        none.push(("operator"@, Json::Text(operator))).push(("term"@, term)),
        limit,
    );
}

proof fn lemma_product_terms_depth(terms: Seq<(RefinedMulOrDivOperation, NodeModel)>, d: int)
    requires
        d >= 0,
        all_within(product_term_nodes(terms), d),
    ensures
        Json::List(encode_product_terms(terms)).depth() <= 4 * d + 4,
    decreases terms, 2nat,
{
    let items = encode_product_terms(terms);
    let nodes = product_term_nodes(terms);
    assert forall|i: int| 0 <= i < items.len() implies (#[trigger] items[i]).depth() <= 4 * d
        + 3 by {
        assert(decreases_to!(terms => terms[i]));
        assert(nodes[i] == terms[i].1);
        assert(depth(nodes[i]) <= d);
        lemma_encoded_depth(terms[i].1);
        lemma_term_depth(terms[i].0.tag(), encode(terms[i].1), 4 * d + 2);
    }
    lemma_list_depth(items, 4 * d + 3);
}

proof fn lemma_sum_terms_depth(terms: Seq<(RefinedAddOrSubOperator, NodeModel)>, d: int)
    requires
        d >= 0,
        all_within(sum_term_nodes(terms), d),
    ensures
        Json::List(encode_sum_terms(terms)).depth() <= 4 * d + 4,
    decreases terms, 2nat,
{
    let items = encode_sum_terms(terms);
    let nodes = sum_term_nodes(terms);
    assert forall|i: int| 0 <= i < items.len() implies (#[trigger] items[i]).depth() <= 4 * d
        + 3 by {
        assert(decreases_to!(terms => terms[i]));
        assert(nodes[i] == terms[i].1);
        assert(depth(nodes[i]) <= d);
        lemma_encoded_depth(terms[i].1);
        lemma_term_depth(terms[i].0.tag(), encode(terms[i].1), 4 * d + 2);
    }
    lemma_list_depth(items, 4 * d + 3);
}

proof fn lemma_differential_depth(differential: Json, lower: Json, upper: Json, limit: int)
    requires
        limit >= 0,
        differential.depth() <= limit,
        lower.depth() <= limit,
        upper.depth() <= limit,
    ensures
        differential_object(differential, lower, upper).depth() <= limit + 1,
{
    let none = Seq::<(Seq<char>, Json)>::empty();
    let f1 = none.push(("differential"@, differential));
    let f2 = f1.push(("lower_bound"@, lower));
    let f3 = f2.push(("upper_bound"@, upper));
    lemma_entries_push(none, "differential"@, differential, limit);
    lemma_entries_push(f1, "lower_bound"@, lower, limit);
    lemma_entries_push(f2, "upper_bound"@, upper, limit);
    lemma_object_depth(f3, limit);
}

proof fn lemma_differentials_depth(
    diffs: Seq<(NodeModel, Option<Box<NodeModel>>, Option<Box<NodeModel>>)>,
    d: int,
)
    requires
        d >= 0,
        all_within(differential_children(diffs), d),
    ensures
        Json::List(encode_differentials(diffs)).depth() <= 4 * d + 4,
    decreases diffs, 3nat,
{
    let items = encode_differentials(diffs);
    let parts = diffs.map_values(
        |d: (NodeModel, Option<Box<NodeModel>>, Option<Box<NodeModel>>)| differential_nodes(d),
    );
    assert forall|i: int| 0 <= i < items.len() implies (#[trigger] items[i]).depth() <= 4 * d
        + 3 by {
        let part = diffs[i];
        assert(decreases_to!(diffs => diffs[i]));
        assert forall|j: int| 0 <= j < parts[i].len() implies depth(#[trigger] parts[i][j])
            <= d by {
            let k = lemma_within_flatten(parts, i, j);
            assert(depth(parts.flatten()[k]) <= d);
        }
        assert(parts[i] == Seq::empty().push(part.0) + opt_children(part.1) + opt_children(part.2));
        lemma_within_concat(
            Seq::empty().push(part.0) + opt_children(part.1),
            opt_children(part.2),
            d,
        );
        lemma_within_concat(Seq::empty().push(part.0), opt_children(part.1), d);
        lemma_within_push(Seq::empty(), part.0, d);
        lemma_encoded_depth(part.0);
        lemma_opt_depth(part.1, d);
        lemma_opt_depth(part.2, d);
        lemma_differential_depth(encode(part.0), encode_opt(part.1), encode_opt(part.2), 4 * d + 2);
    }
    lemma_list_depth(items, 4 * d + 3);
}

proof fn lemma_script_depth(slot: Option<ScriptModel>, d: int)
    requires
        d >= 0,
        all_within(script_children(slot), d),
    ensures
        encode_script(slot).depth() <= 4 * d + 4,
    decreases slot, 3nat,
{
    match slot {
        Some(script) => {
            let none = Seq::<(Seq<char>, Json)>::empty();
            let below = Json::List(encode_all(script.subscripts));
            let above = Json::List(encode_all(script.superscripts));
            lemma_within_concat(script.subscripts, script.superscripts, d);
            lemma_all_depth(script.subscripts, d);
            lemma_all_depth(script.superscripts, d);
            lemma_entries_push(none, "subscripts"@, below, 4 * d + 3);
            lemma_entries_push(
                none.push(("subscripts"@, below)),
                "superscripts"@,
                above,
                4 * d + 3,
            );
            lemma_object_depth(
                none.push(("subscripts"@, below)).push(("superscripts"@, above)),
                4 * d + 3,
            );
        },
        None => {
            lemma_scalar_depth(Json::Null);
        },
    }
}

proof fn lemma_mark_depth(mark: SpecialMiddleScriptContentTypeNode)
    ensures
        encode_mark(mark).depth() <= 2,
{
    match mark {
        SpecialMiddleScriptContentTypeNode::Dot(count) => {
            let none = Seq::<(Seq<char>, Json)>::empty();
            lemma_scalar_depth(Json::Number(count as u64));
            lemma_entries_push(none, "dot"@, Json::Number(count as u64), 1);
            lemma_object_depth(none.push(("dot"@, Json::Number(count as u64))), 1);
        },
        _ => {
            lemma_scalar_depth(encode_mark(mark));
        },
    }
}

proof fn lemma_mark_list_depth(marks: Seq<SpecialMiddleScriptContentTypeNode>)
    ensures
        Json::List(encode_mark_list(marks)).depth() <= 3,
{
    let items = encode_mark_list(marks);
    assert forall|i: int| 0 <= i < items.len() implies (#[trigger] items[i]).depth() <= 2 by {
        lemma_mark_depth(marks[i]);
    }
    lemma_list_depth(items, 2);
}

proof fn lemma_marks_depth(slot: Option<MidScriptModel>)
    ensures
        encode_marks(slot).depth() <= 4,
{
    match slot {
        Some(marks) => {
            let none = Seq::<(Seq<char>, Json)>::empty();
            let over = Json::List(encode_mark_list(marks.super_script));
            let under = Json::List(encode_mark_list(marks.sub_script));
            lemma_mark_list_depth(marks.super_script);
            lemma_mark_list_depth(marks.sub_script);
            lemma_entries_push(none, "super_script"@, over, 3);
            lemma_entries_push(none.push(("super_script"@, over)), "sub_script"@, under, 3);
            lemma_object_depth(none.push(("super_script"@, over)).push(("sub_script"@, under)), 3);
        },
        None => {
            lemma_scalar_depth(Json::Null);
        },
    }
}

proof fn lemma_identifier_depth(identifier: IdentifierModel, d: int)
    requires
        d >= 0,
        all_within(identifier_children(identifier), d),
    ensures
        encode_identifier(identifier).depth() <= 4 * d + 5,
    decreases identifier, 4nat,
{
    let limit = 4 * d + 4;
    let none = Seq::<(Seq<char>, Json)>::empty();
    let body = Json::Text(identifier.body);
    let before = encode_script(identifier.pre_script);
    let marks = encode_marks(identifier.mid_script);
    let after = encode_script(identifier.post_script);
    let primes = Json::Number(identifier.primes as u64);
    let flag = Json::Bool(identifier.is_function);
    let f1 = none.push(("body"@, body));
    let f2 = f1.push(("pre_script"@, before));
    let f3 = f2.push(("mid_script"@, marks));
    let f4 = f3.push(("post_script"@, after));
    let f5 = f4.push(("primes"@, primes));
    let f6 = f5.push(("is_function"@, flag));
    lemma_within_concat(
        script_children(identifier.pre_script),
        script_children(identifier.post_script),
        d,
    );
    lemma_scalar_depth(body);
    lemma_script_depth(identifier.pre_script, d);
    lemma_marks_depth(identifier.mid_script);
    lemma_script_depth(identifier.post_script, d);
    lemma_scalar_depth(primes);
    lemma_scalar_depth(flag);
    lemma_entries_push(none, "body"@, body, limit);
    lemma_entries_push(f1, "pre_script"@, before, limit);
    lemma_entries_push(f2, "mid_script"@, marks, limit);
    lemma_entries_push(f3, "post_script"@, after, limit);
    lemma_entries_push(f4, "primes"@, primes, limit);
    lemma_entries_push(f5, "is_function"@, flag, limit);
    lemma_object_depth(f6, limit);
}

} // verus!
