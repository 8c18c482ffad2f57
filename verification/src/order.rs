//! The order of what is written: a node before its children, and the children
//! in their order.
//!
//! A reader that takes the interchange form as a stream meets the `type` words
//! of the objects one after another. They are exactly the kinds of the nodes
//! of the tree as a walk meets them that visits a node before its children.

use crate::encoding::{
    differential_object, encode, encode_all, encode_differentials, encode_identifier, encode_mark,
    encode_mark_list, encode_marks, encode_opt, encode_product_terms, encode_rows, encode_script,
    encode_sum_terms, term_object,
};
use crate::interchange::{header, Json};
use crate::math_node::{
    RefinedAddOrSubOperator, RefinedMulOrDivOperation, SpecialMiddleScriptContentTypeNode,
};
use crate::model::{
    ContentModel, IdentifierModel, MidScriptModel, NodeModel, RelationOperatorModel, ScriptModel,
    UnaryRelationOperatorModel,
};
use crate::validation::{
    children, differential_children, differential_nodes, identifier_children,
    lemma_children_decrease, opt_children, product_term_nodes, script_children, sum_term_nodes,
};
use crate::vocabulary::NodeKind;
use vstd::prelude::*;
use vstd::seq_lib::lemma_flatten_concat;

verus! {

/// The kinds met below each child of a node, child by child.
pub open spec fn child_kind_words(node: NodeModel) -> Seq<Seq<Seq<char>>>
    decreases node, 0nat,
{
    let kids = children(node);
    Seq::new(
        kids.len(),
        |i: int|
            if 0 <= i < kids.len() {
                proof {
                    lemma_children_decrease(node, i);
                }
                kind_words(kids[i])
            } else {
                Seq::empty()
            },
    )
}

/// The words of the kinds of the nodes of a tree, in the order of a walk that
/// visits a node before its children and the children in their order.
pub open spec fn kind_words(node: NodeModel) -> Seq<Seq<char>>
    decreases node, 1nat,
{
    Seq::empty().push(node.content.kind().tag()) + child_kind_words(node).flatten()
}

/// The kind words of some trees, one tree after the other.
pub open spec fn kind_words_of(nodes: Seq<NodeModel>) -> Seq<Seq<char>> {
    Seq::new(nodes.len(), |i: int| kind_words(nodes[i])).flatten()
}

/// The `type` words inside the values of some fields, field by field.
pub open spec fn entry_words(fields: Seq<(Seq<char>, Json)>) -> Seq<Seq<char>> {
    Seq::new(fields.len(), |i: int| fields[i].1.type_words()).flatten()
}

/// The `type` words inside some values, value by value.
pub open spec fn item_words(items: Seq<Json>) -> Seq<Seq<char>> {
    Seq::new(items.len(), |i: int| items[i].type_words()).flatten()
}

proof fn lemma_kind_words_unfold(node: NodeModel)
    ensures
        kind_words(node) == Seq::empty().push(node.content.kind().tag()) + kind_words_of(
            children(node),
        ),
{
    let kids = children(node);
    assert(child_kind_words(node) =~= Seq::new(kids.len(), |i: int| kind_words(kids[i])));
}

proof fn lemma_kinds_empty()
    ensures
        kind_words_of(Seq::empty()) == Seq::<Seq<char>>::empty(),
{
    let none = Seq::<NodeModel>::empty();
    assert(Seq::new(none.len(), |i: int| kind_words(none[i])) =~= Seq::<Seq<Seq<char>>>::empty());
}

proof fn lemma_kinds_push(nodes: Seq<NodeModel>, node: NodeModel)
    ensures
        kind_words_of(nodes.push(node)) == kind_words_of(nodes) + kind_words(node),
{
    let more = nodes.push(node);
    let parts = Seq::new(nodes.len(), |i: int| kind_words(nodes[i]));
    assert(Seq::new(more.len(), |i: int| kind_words(more[i])) =~= parts.push(kind_words(node)));
    parts.lemma_flatten_push(kind_words(node));
}

proof fn lemma_kinds_concat(a: Seq<NodeModel>, b: Seq<NodeModel>)
    ensures
        kind_words_of(a + b) == kind_words_of(a) + kind_words_of(b),
{
    let both = a + b;
    let left = Seq::new(a.len(), |i: int| kind_words(a[i]));
    let right = Seq::new(b.len(), |i: int| kind_words(b[i]));
    assert(Seq::new(both.len(), |i: int| kind_words(both[i])) =~= left + right);
    lemma_flatten_concat(left, right);
}

/// The kind words of the rows of a matrix, row after row, are those of its
/// entries taken as one sequence.
proof fn lemma_kinds_flatten(rows: Seq<Seq<NodeModel>>)
    ensures
        Seq::new(rows.len(), |i: int| kind_words_of(rows[i])).flatten() == kind_words_of(
            rows.flatten(),
        ),
    decreases rows.len(),
{
    let parts = Seq::new(rows.len(), |i: int| kind_words_of(rows[i]));
    if rows.len() == 0 {
        assert(parts =~= Seq::<Seq<Seq<char>>>::empty());
        assert(rows.flatten() =~= Seq::<NodeModel>::empty());
        lemma_kinds_empty();
    } else {
        let front = rows.drop_last();
        let last = rows.last();
        lemma_kinds_flatten(front);
        let front_parts = Seq::new(front.len(), |i: int| kind_words_of(front[i]));
        assert(parts =~= front_parts.push(kind_words_of(last)));
        front_parts.lemma_flatten_push(kind_words_of(last));
        assert(rows =~= front.push(last));
        front.lemma_flatten_push(last);
        lemma_kinds_concat(front.flatten(), last);
    }
}

/// Flattening parts that are all empty gives nothing.
proof fn lemma_flatten_of_empties<A>(parts: Seq<Seq<A>>)
    requires
        forall|i: int| 0 <= i < parts.len() ==> (#[trigger] parts[i]).len() == 0,
    ensures
        parts.flatten() == Seq::<A>::empty(),
    decreases parts.len(),
{
    if parts.len() > 0 {
        let front = parts.drop_last();
        assert forall|i: int| 0 <= i < front.len() implies (#[trigger] front[i]).len() == 0 by {
            assert(front[i] == parts[i]);
        }
        lemma_flatten_of_empties(front);
        assert(parts =~= front.push(parts.last()));
        front.lemma_flatten_push(parts.last());
        assert(parts.flatten() =~= Seq::<A>::empty());
    } else {
        assert(parts.flatten() =~= Seq::<A>::empty());
    }
}

/// A value that is neither a list nor an object holds no `type` word.
proof fn lemma_scalar_words(value: Json)
    requires
        !(value is List),
        !(value is Object),
    ensures
        value.type_words() == Seq::<Seq<char>>::empty(),
{
    assert(value.entry_type_words() =~= Seq::empty());
    assert(value.type_words() =~= Seq::<Seq<char>>::empty());
}

proof fn lemma_list_words(items: Seq<Json>)
    ensures
        Json::List(items).type_words() == item_words(items),
{
    let value = Json::List(items);
    assert(value.entry_type_words() =~= Seq::new(items.len(), |i: int| items[i].type_words()));
    assert(value.type_words() =~= item_words(items));
}

proof fn lemma_object_words(fields: Seq<(Seq<char>, Json)>)
    ensures
        Json::Object(fields).type_words() == Json::Object(fields).own_type_word() + entry_words(
            fields,
        ),
{
    let value = Json::Object(fields);
    assert(value.entry_type_words() =~= Seq::new(fields.len(), |i: int| fields[i].1.type_words()));
}

proof fn lemma_entry_words_empty()
    ensures
        entry_words(Seq::empty()) == Seq::<Seq<char>>::empty(),
{
    let none = Seq::<(Seq<char>, Json)>::empty();
    assert(Seq::new(none.len(), |i: int| none[i].1.type_words()) =~= Seq::<
        Seq<Seq<char>>,
    >::empty());
}

proof fn lemma_entry_words_push(fields: Seq<(Seq<char>, Json)>, key: Seq<char>, value: Json)
    ensures
        entry_words(fields.push((key, value))) == entry_words(fields) + value.type_words(),
{
    let more = fields.push((key, value));
    let parts = Seq::new(fields.len(), |i: int| fields[i].1.type_words());
    assert(Seq::new(more.len(), |i: int| more[i].1.type_words()) =~= parts.push(
        value.type_words(),
    ));
    parts.lemma_flatten_push(value.type_words());
}

proof fn lemma_header_words(word: Seq<char>, id: Seq<char>)
    ensures
        entry_words(header(word, id)) == Seq::<Seq<char>>::empty(),
{
    let none = Seq::<(Seq<char>, Json)>::empty();
    lemma_entry_words_empty();
    lemma_scalar_words(Json::Text(word));
    lemma_scalar_words(Json::Text(id));
    lemma_entry_words_push(none, "type"@, Json::Text(word));
    lemma_entry_words_push(none.push(("type"@, Json::Text(word))), "id"@, Json::Text(id));
}

/// The `type` words of the object of a node: the word of its kind, then those
/// inside its fields.
proof fn lemma_node_object_words(word: Seq<char>, id: Seq<char>, fields: Seq<(Seq<char>, Json)>)
    requires
        fields.len() >= 2,
        fields[0] == ("type"@, Json::Text(word)),
    ensures
        Json::Object(fields).type_words() == Seq::empty().push(word) + entry_words(fields),
{
    lemma_object_words(fields);
}

/// None of the objects that are not nodes starts with a field called `type`.
proof fn lemma_first_keys_are_not_type()
    ensures
        "operator"@ != "type"@,
        "differential"@ != "type"@,
        "body"@ != "type"@,
        "subscripts"@ != "type"@,
        "super_script"@ != "type"@,
        "dot"@ != "type"@,
        "custom"@ != "type"@,
{
    reveal_strlit("type");
    reveal_strlit("operator");
    reveal_strlit("differential");
    reveal_strlit("body");
    reveal_strlit("subscripts");
    reveal_strlit("super_script");
    reveal_strlit("dot");
    reveal_strlit("custom");
    assert("type"@.len() == 4 && "type"@[0] == 't');
    assert("operator"@.len() == 8);
    assert("differential"@.len() == 12);
    assert("body"@.len() == 4 && "body"@[0] == 'b');
    assert("subscripts"@.len() == 10);
    assert("super_script"@.len() == 12);
    assert("dot"@.len() == 3);
    assert("custom"@.len() == 6);
}

/// The `type` words of an object that is not a node are those inside its
/// fields.
proof fn lemma_plain_object_words(fields: Seq<(Seq<char>, Json)>)
    requires
        fields.len() == 0 || fields[0].0 != "type"@,
    ensures
        Json::Object(fields).type_words() == entry_words(fields),
{
    lemma_object_words(fields);
    assert(Json::Object(fields).own_type_word() =~= Seq::empty());
}

/// A relation is written without any `type` word.
pub proof fn lemma_relation_has_no_type_word(operator: RelationOperatorModel)
    ensures
        operator.encode().type_words() == Seq::<Seq<char>>::empty(),
{
    lemma_first_keys_are_not_type();
    match operator {
        RelationOperatorModel::Custom(text) => {
            let none = Seq::<(Seq<char>, Json)>::empty();
            lemma_entry_words_empty();
            lemma_scalar_words(Json::Text(text));
            lemma_entry_words_push(none, "custom"@, Json::Text(text));
            lemma_plain_object_words(none.push(("custom"@, Json::Text(text))));
        },
        _ => {
            lemma_scalar_words(operator.encode());
        },
    }
}

/// A property is written without any `type` word.
pub proof fn lemma_property_has_no_type_word(predicate: UnaryRelationOperatorModel)
    ensures
        predicate.encode().type_words() == Seq::<Seq<char>>::empty(),
{
    lemma_first_keys_are_not_type();
    match predicate {
        UnaryRelationOperatorModel::Custom(text) => {
            let none = Seq::<(Seq<char>, Json)>::empty();
            lemma_entry_words_empty();
            lemma_scalar_words(Json::Text(text));
            lemma_entry_words_push(none, "custom"@, Json::Text(text));
            lemma_plain_object_words(none.push(("custom"@, Json::Text(text))));
        },
        _ => {
            lemma_scalar_words(predicate.encode());
        },
    }
}

/// What is written is written parent first: the `type` words of the
/// interchange form of a tree, in the order of the stream, are the kinds of
/// the tree's nodes in the order of a walk that visits a node before its
/// children and the children in the order in which the node declares them.
pub proof fn lemma_parent_first(node: NodeModel)
    ensures
        encode(node).type_words() == kind_words(node),
    decreases node, 1nat,
{
    match node.content.kind() {
        NodeKind::Empty => lemma_empty_parent_first(node),
        NodeKind::Text => lemma_text_parent_first(node),
        NodeKind::String => lemma_string_parent_first(node),
        NodeKind::Bracketed => lemma_bracketed_parent_first(node),
        NodeKind::Matrix => lemma_matrix_parent_first(node),
        NodeKind::Multiplications => lemma_multiplications_parent_first(node),
        NodeKind::Additions => lemma_additions_parent_first(node),
        NodeKind::Division => lemma_division_parent_first(node),
        NodeKind::SumNotation => lemma_sum_notation_parent_first(node),
        NodeKind::ProductNotation => lemma_product_notation_parent_first(node),
        NodeKind::Fraction => lemma_fraction_parent_first(node),
        NodeKind::Power => lemma_power_parent_first(node),
        NodeKind::UnaryPostfixOperation => lemma_unary_postfix_operation_parent_first(node),
        NodeKind::UnaryPrefixOperation => lemma_unary_prefix_operation_parent_first(node),
        NodeKind::Abs => lemma_abs_parent_first(node),
        NodeKind::FunctionCall => lemma_function_call_parent_first(node),
        NodeKind::Quantity => lemma_quantity_parent_first(node),
        NodeKind::ScientificNotation => lemma_scientific_notation_parent_first(node),
        NodeKind::Identifier => lemma_identifier_parent_first(node),
        NodeKind::Unit => lemma_unit_parent_first(node),
        NodeKind::Relationship => lemma_relationship_parent_first(node),
        NodeKind::UnaryRelationship => lemma_unary_relationship_parent_first(node),
        NodeKind::VariableDefinition => lemma_variable_definition_parent_first(node),
        NodeKind::FunctionDefinition => lemma_function_definition_parent_first(node),
        NodeKind::Limit => lemma_limit_parent_first(node),
        NodeKind::Differential => lemma_differential_parent_first(node),
        NodeKind::Integration => lemma_integration_parent_first(node),
        NodeKind::QuantifiedExpression => lemma_quantified_expression_parent_first(node),
        NodeKind::And => lemma_and_parent_first(node),
        NodeKind::Or => lemma_or_parent_first(node),
        NodeKind::Not => lemma_not_parent_first(node),
        NodeKind::True => lemma_true_parent_first(node),
        NodeKind::False => lemma_false_parent_first(node),
    }
}

proof fn lemma_empty_parent_first(node: NodeModel)
    requires
        node.content is Empty,
    ensures
        encode(node).type_words() == kind_words(node),
    decreases node, 0nat,
{
    let word = node.content.kind().tag();
    let f0 = header(word, node.id);
    let c0 = Seq::<NodeModel>::empty();
    lemma_header_words(word, node.id);
    lemma_kinds_empty();
    lemma_kind_words_unfold(node);
    lemma_node_object_words(word, node.id, f0);
    assert(encode(node) == Json::Object(f0));
    assert(children(node) == c0);
    assert(encode(node).type_words() =~= kind_words(node));
}

proof fn lemma_text_parent_first(node: NodeModel)
    requires
        node.content is Text,
    ensures
        encode(node).type_words() == kind_words(node),
    decreases node, 0nat,
{
    let word = node.content.kind().tag();
    let f0 = header(word, node.id);
    let c0 = Seq::<NodeModel>::empty();
    lemma_header_words(word, node.id);
    lemma_kinds_empty();
    lemma_kind_words_unfold(node);
    match node.content {
        ContentModel::Text(value) => {
            lemma_scalar_words(Json::Text(value));
            lemma_entry_words_push(f0, "value"@, Json::Text(value));
            let f1 = f0.push(("value"@, Json::Text(value)));
            lemma_node_object_words(word, node.id, f1);
            assert(encode(node) == Json::Object(f1));
            assert(children(node) == c0);
            assert(encode(node).type_words() =~= kind_words(node));
        },
        _ => {},
    }
}

proof fn lemma_string_parent_first(node: NodeModel)
    requires
        node.content is String,
    ensures
        encode(node).type_words() == kind_words(node),
    decreases node, 0nat,
{
    let word = node.content.kind().tag();
    let f0 = header(word, node.id);
    let c0 = Seq::<NodeModel>::empty();
    lemma_header_words(word, node.id);
    lemma_kinds_empty();
    lemma_kind_words_unfold(node);
    match node.content {
        ContentModel::String(value) => {
            lemma_scalar_words(Json::Text(value));
            lemma_entry_words_push(f0, "value"@, Json::Text(value));
            let f1 = f0.push(("value"@, Json::Text(value)));
            lemma_node_object_words(word, node.id, f1);
            assert(encode(node) == Json::Object(f1));
            assert(children(node) == c0);
            assert(encode(node).type_words() =~= kind_words(node));
        },
        _ => {},
    }
}

proof fn lemma_bracketed_parent_first(node: NodeModel)
    requires
        node.content is Bracketed,
    ensures
        encode(node).type_words() == kind_words(node),
    decreases node, 0nat,
{
    let word = node.content.kind().tag();
    let f0 = header(word, node.id);
    let c0 = Seq::<NodeModel>::empty();
    lemma_header_words(word, node.id);
    lemma_kinds_empty();
    lemma_kind_words_unfold(node);
    match node.content {
        ContentModel::Bracketed { inner, style, size } => {
            lemma_parent_first(*inner);
            lemma_entry_words_push(f0, "inner"@, encode(*inner));
            let f1 = f0.push(("inner"@, encode(*inner)));
            lemma_kinds_push(c0, *inner);
            let c1 = c0.push(*inner);
            lemma_scalar_words(style.encode());
            lemma_entry_words_push(f1, "style"@, style.encode());
            let f2 = f1.push(("style"@, style.encode()));
            lemma_scalar_words(size.encode());
            lemma_entry_words_push(f2, "size"@, size.encode());
            let f3 = f2.push(("size"@, size.encode()));
            lemma_node_object_words(word, node.id, f3);
            assert(encode(node) == Json::Object(f3));
            assert(children(node) == c1);
            assert(encode(node).type_words() =~= kind_words(node));
        },
        _ => {},
    }
}

proof fn lemma_matrix_parent_first(node: NodeModel)
    requires
        node.content is Matrix,
    ensures
        encode(node).type_words() == kind_words(node),
    decreases node, 0nat,
{
    let word = node.content.kind().tag();
    let f0 = header(word, node.id);
    let c0 = Seq::<NodeModel>::empty();
    lemma_header_words(word, node.id);
    lemma_kinds_empty();
    lemma_kind_words_unfold(node);
    match node.content {
        ContentModel::Matrix { rows } => {
            lemma_rows_words(rows);
            lemma_entry_words_push(f0, "rows"@, Json::List(encode_rows(rows)));
            let f1 = f0.push(("rows"@, Json::List(encode_rows(rows))));
            lemma_kinds_concat(c0, rows.flatten());
            let c1 = c0 + rows.flatten();
            lemma_node_object_words(word, node.id, f1);
            assert(encode(node) == Json::Object(f1));
            assert(children(node) == c1);
            assert(encode(node).type_words() =~= kind_words(node));
        },
        _ => {},
    }
}

proof fn lemma_multiplications_parent_first(node: NodeModel)
    requires
        node.content is Multiplications,
    ensures
        encode(node).type_words() == kind_words(node),
    decreases node, 0nat,
{
    let word = node.content.kind().tag();
    let f0 = header(word, node.id);
    let c0 = Seq::<NodeModel>::empty();
    lemma_header_words(word, node.id);
    lemma_kinds_empty();
    lemma_kind_words_unfold(node);
    match node.content {
        ContentModel::Multiplications { terms } => {
            lemma_product_terms_words(terms);
            lemma_entry_words_push(f0, "terms"@, Json::List(encode_product_terms(terms)));
            let f1 = f0.push(("terms"@, Json::List(encode_product_terms(terms))));
            lemma_kinds_concat(c0, product_term_nodes(terms));
            let c1 = c0 + product_term_nodes(terms);
            lemma_node_object_words(word, node.id, f1);
            assert(encode(node) == Json::Object(f1));
            assert(children(node) == c1);
            assert(encode(node).type_words() =~= kind_words(node));
        },
        _ => {},
    }
}

proof fn lemma_additions_parent_first(node: NodeModel)
    requires
        node.content is Additions,
    ensures
        encode(node).type_words() == kind_words(node),
    decreases node, 0nat,
{
    let word = node.content.kind().tag();
    let f0 = header(word, node.id);
    let c0 = Seq::<NodeModel>::empty();
    lemma_header_words(word, node.id);
    lemma_kinds_empty();
    lemma_kind_words_unfold(node);
    match node.content {
        ContentModel::Additions { terms } => {
            lemma_sum_terms_words(terms);
            lemma_entry_words_push(f0, "terms"@, Json::List(encode_sum_terms(terms)));
            let f1 = f0.push(("terms"@, Json::List(encode_sum_terms(terms))));
            lemma_kinds_concat(c0, sum_term_nodes(terms));
            let c1 = c0 + sum_term_nodes(terms);
            lemma_node_object_words(word, node.id, f1);
            assert(encode(node) == Json::Object(f1));
            assert(children(node) == c1);
            assert(encode(node).type_words() =~= kind_words(node));
        },
        _ => {},
    }
}

proof fn lemma_division_parent_first(node: NodeModel)
    requires
        node.content is Division,
    ensures
        encode(node).type_words() == kind_words(node),
    decreases node, 0nat,
{
    let word = node.content.kind().tag();
    let f0 = header(word, node.id);
    let c0 = Seq::<NodeModel>::empty();
    lemma_header_words(word, node.id);
    lemma_kinds_empty();
    lemma_kind_words_unfold(node);
    match node.content {
        ContentModel::Division { numerator, denominator, style } => {
            lemma_parent_first(*numerator);
            lemma_entry_words_push(f0, "numerator"@, encode(*numerator));
            let f1 = f0.push(("numerator"@, encode(*numerator)));
            lemma_kinds_push(c0, *numerator);
            let c1 = c0.push(*numerator);
            lemma_parent_first(*denominator);
            lemma_entry_words_push(f1, "denominator"@, encode(*denominator));
            let f2 = f1.push(("denominator"@, encode(*denominator)));
            lemma_kinds_push(c1, *denominator);
            let c2 = c1.push(*denominator);
            lemma_scalar_words(style.encode());
            lemma_entry_words_push(f2, "style"@, style.encode());
            let f3 = f2.push(("style"@, style.encode()));
            lemma_node_object_words(word, node.id, f3);
            assert(encode(node) == Json::Object(f3));
            assert(children(node) == c2);
            assert(encode(node).type_words() =~= kind_words(node));
        },
        _ => {},
    }
}

proof fn lemma_sum_notation_parent_first(node: NodeModel)
    requires
        node.content is SumNotation,
    ensures
        encode(node).type_words() == kind_words(node),
    decreases node, 0nat,
{
    let word = node.content.kind().tag();
    let f0 = header(word, node.id);
    let c0 = Seq::<NodeModel>::empty();
    lemma_header_words(word, node.id);
    lemma_kinds_empty();
    lemma_kind_words_unfold(node);
    match node.content {
        ContentModel::SumNotation { summand, variable, lower_limit, upper_limit } => {
            lemma_parent_first(*summand);
            lemma_entry_words_push(f0, "summand"@, encode(*summand));
            let f1 = f0.push(("summand"@, encode(*summand)));
            lemma_kinds_push(c0, *summand);
            let c1 = c0.push(*summand);
            lemma_opt_words(variable);
            lemma_entry_words_push(f1, "variable"@, encode_opt(variable));
            let f2 = f1.push(("variable"@, encode_opt(variable)));
            lemma_kinds_concat(c1, opt_children(variable));
            let c2 = c1 + opt_children(variable);
            lemma_opt_words(lower_limit);
            lemma_entry_words_push(f2, "lower_limit"@, encode_opt(lower_limit));
            let f3 = f2.push(("lower_limit"@, encode_opt(lower_limit)));
            lemma_kinds_concat(c2, opt_children(lower_limit));
            let c3 = c2 + opt_children(lower_limit);
            lemma_opt_words(upper_limit);
            lemma_entry_words_push(f3, "upper_limit"@, encode_opt(upper_limit));
            let f4 = f3.push(("upper_limit"@, encode_opt(upper_limit)));
            lemma_kinds_concat(c3, opt_children(upper_limit));
            let c4 = c3 + opt_children(upper_limit);
            lemma_node_object_words(word, node.id, f4);
            assert(encode(node) == Json::Object(f4));
            assert(children(node) == c4);
            assert(encode(node).type_words() =~= kind_words(node));
        },
        _ => {},
    }
}

proof fn lemma_product_notation_parent_first(node: NodeModel)
    requires
        node.content is ProductNotation,
    ensures
        encode(node).type_words() == kind_words(node),
    decreases node, 0nat,
{
    let word = node.content.kind().tag();
    let f0 = header(word, node.id);
    let c0 = Seq::<NodeModel>::empty();
    lemma_header_words(word, node.id);
    lemma_kinds_empty();
    lemma_kind_words_unfold(node);
    match node.content {
        ContentModel::ProductNotation { multiplicand, variable, lower_limit, upper_limit } => {
            lemma_parent_first(*multiplicand);
            lemma_entry_words_push(f0, "multiplicand"@, encode(*multiplicand));
            let f1 = f0.push(("multiplicand"@, encode(*multiplicand)));
            lemma_kinds_push(c0, *multiplicand);
            let c1 = c0.push(*multiplicand);
            lemma_opt_words(variable);
            lemma_entry_words_push(f1, "variable"@, encode_opt(variable));
            let f2 = f1.push(("variable"@, encode_opt(variable)));
            lemma_kinds_concat(c1, opt_children(variable));
            let c2 = c1 + opt_children(variable);
            lemma_opt_words(lower_limit);
            lemma_entry_words_push(f2, "lower_limit"@, encode_opt(lower_limit));
            let f3 = f2.push(("lower_limit"@, encode_opt(lower_limit)));
            lemma_kinds_concat(c2, opt_children(lower_limit));
            let c3 = c2 + opt_children(lower_limit);
            lemma_opt_words(upper_limit);
            lemma_entry_words_push(f3, "upper_limit"@, encode_opt(upper_limit));
            let f4 = f3.push(("upper_limit"@, encode_opt(upper_limit)));
            lemma_kinds_concat(c3, opt_children(upper_limit));
            let c4 = c3 + opt_children(upper_limit);
            lemma_node_object_words(word, node.id, f4);
            assert(encode(node) == Json::Object(f4));
            assert(children(node) == c4);
            assert(encode(node).type_words() =~= kind_words(node));
        },
        _ => {},
    }
}

proof fn lemma_fraction_parent_first(node: NodeModel)
    requires
        node.content is Fraction,
    ensures
        encode(node).type_words() == kind_words(node),
    decreases node, 0nat,
{
    let word = node.content.kind().tag();
    let f0 = header(word, node.id);
    let c0 = Seq::<NodeModel>::empty();
    lemma_header_words(word, node.id);
    lemma_kinds_empty();
    lemma_kind_words_unfold(node);
    match node.content {
        ContentModel::Fraction { numerator, denominator } => {
            lemma_parent_first(*numerator);
            lemma_entry_words_push(f0, "numerator"@, encode(*numerator));
            let f1 = f0.push(("numerator"@, encode(*numerator)));
            lemma_kinds_push(c0, *numerator);
            let c1 = c0.push(*numerator);
            lemma_parent_first(*denominator);
            lemma_entry_words_push(f1, "denominator"@, encode(*denominator));
            let f2 = f1.push(("denominator"@, encode(*denominator)));
            lemma_kinds_push(c1, *denominator);
            let c2 = c1.push(*denominator);
            lemma_node_object_words(word, node.id, f2);
            assert(encode(node) == Json::Object(f2));
            assert(children(node) == c2);
            assert(encode(node).type_words() =~= kind_words(node));
        },
        _ => {},
    }
}

proof fn lemma_power_parent_first(node: NodeModel)
    requires
        node.content is Power,
    ensures
        encode(node).type_words() == kind_words(node),
    decreases node, 0nat,
{
    let word = node.content.kind().tag();
    let f0 = header(word, node.id);
    let c0 = Seq::<NodeModel>::empty();
    lemma_header_words(word, node.id);
    lemma_kinds_empty();
    lemma_kind_words_unfold(node);
    match node.content {
        ContentModel::Power { base, exponent } => {
            lemma_parent_first(*base);
            lemma_entry_words_push(f0, "base"@, encode(*base));
            let f1 = f0.push(("base"@, encode(*base)));
            lemma_kinds_push(c0, *base);
            let c1 = c0.push(*base);
            lemma_parent_first(*exponent);
            lemma_entry_words_push(f1, "exponent"@, encode(*exponent));
            let f2 = f1.push(("exponent"@, encode(*exponent)));
            lemma_kinds_push(c1, *exponent);
            let c2 = c1.push(*exponent);
            lemma_node_object_words(word, node.id, f2);
            assert(encode(node) == Json::Object(f2));
            assert(children(node) == c2);
            assert(encode(node).type_words() =~= kind_words(node));
        },
        _ => {},
    }
}

proof fn lemma_unary_postfix_operation_parent_first(node: NodeModel)
    requires
        node.content is UnaryPostfixOperation,
    ensures
        encode(node).type_words() == kind_words(node),
    decreases node, 0nat,
{
    let word = node.content.kind().tag();
    let f0 = header(word, node.id);
    let c0 = Seq::<NodeModel>::empty();
    lemma_header_words(word, node.id);
    lemma_kinds_empty();
    lemma_kind_words_unfold(node);
    match node.content {
        ContentModel::UnaryPostfixOperation { parameter, operator } => {
            lemma_parent_first(*parameter);
            lemma_entry_words_push(f0, "parameter"@, encode(*parameter));
            let f1 = f0.push(("parameter"@, encode(*parameter)));
            lemma_kinds_push(c0, *parameter);
            let c1 = c0.push(*parameter);
            lemma_parent_first(*operator);
            lemma_entry_words_push(f1, "operator"@, encode(*operator));
            let f2 = f1.push(("operator"@, encode(*operator)));
            lemma_kinds_push(c1, *operator);
            let c2 = c1.push(*operator);
            lemma_node_object_words(word, node.id, f2);
            assert(encode(node) == Json::Object(f2));
            assert(children(node) == c2);
            assert(encode(node).type_words() =~= kind_words(node));
        },
        _ => {},
    }
}

proof fn lemma_unary_prefix_operation_parent_first(node: NodeModel)
    requires
        node.content is UnaryPrefixOperation,
    ensures
        encode(node).type_words() == kind_words(node),
    decreases node, 0nat,
{
    let word = node.content.kind().tag();
    let f0 = header(word, node.id);
    let c0 = Seq::<NodeModel>::empty();
    lemma_header_words(word, node.id);
    lemma_kinds_empty();
    lemma_kind_words_unfold(node);
    match node.content {
        ContentModel::UnaryPrefixOperation { parameter, operator } => {
            lemma_parent_first(*parameter);
            lemma_entry_words_push(f0, "parameter"@, encode(*parameter));
            let f1 = f0.push(("parameter"@, encode(*parameter)));
            lemma_kinds_push(c0, *parameter);
            let c1 = c0.push(*parameter);
            lemma_parent_first(*operator);
            lemma_entry_words_push(f1, "operator"@, encode(*operator));
            let f2 = f1.push(("operator"@, encode(*operator)));
            lemma_kinds_push(c1, *operator);
            let c2 = c1.push(*operator);
            lemma_node_object_words(word, node.id, f2);
            assert(encode(node) == Json::Object(f2));
            assert(children(node) == c2);
            assert(encode(node).type_words() =~= kind_words(node));
        },
        _ => {},
    }
}

proof fn lemma_abs_parent_first(node: NodeModel)
    requires
        node.content is Abs,
    ensures
        encode(node).type_words() == kind_words(node),
    decreases node, 0nat,
{
    let word = node.content.kind().tag();
    let f0 = header(word, node.id);
    let c0 = Seq::<NodeModel>::empty();
    lemma_header_words(word, node.id);
    lemma_kinds_empty();
    lemma_kind_words_unfold(node);
    match node.content {
        ContentModel::Abs { parameter } => {
            lemma_parent_first(*parameter);
            lemma_entry_words_push(f0, "parameter"@, encode(*parameter));
            let f1 = f0.push(("parameter"@, encode(*parameter)));
            lemma_kinds_push(c0, *parameter);
            let c1 = c0.push(*parameter);
            lemma_node_object_words(word, node.id, f1);
            assert(encode(node) == Json::Object(f1));
            assert(children(node) == c1);
            assert(encode(node).type_words() =~= kind_words(node));
        },
        _ => {},
    }
}

proof fn lemma_function_call_parent_first(node: NodeModel)
    requires
        node.content is FunctionCall,
    ensures
        encode(node).type_words() == kind_words(node),
    decreases node, 0nat,
{
    let word = node.content.kind().tag();
    let f0 = header(word, node.id);
    let c0 = Seq::<NodeModel>::empty();
    lemma_header_words(word, node.id);
    lemma_kinds_empty();
    lemma_kind_words_unfold(node);
    match node.content {
        ContentModel::FunctionCall { name, parameters } => {
            lemma_parent_first(*name);
            lemma_entry_words_push(f0, "name"@, encode(*name));
            let f1 = f0.push(("name"@, encode(*name)));
            lemma_kinds_push(c0, *name);
            let c1 = c0.push(*name);
            lemma_all_words(parameters);
            lemma_entry_words_push(f1, "parameters"@, Json::List(encode_all(parameters)));
            let f2 = f1.push(("parameters"@, Json::List(encode_all(parameters))));
            lemma_kinds_concat(c1, parameters);
            let c2 = c1 + parameters;
            lemma_node_object_words(word, node.id, f2);
            assert(encode(node) == Json::Object(f2));
            assert(children(node) == c2);
            assert(encode(node).type_words() =~= kind_words(node));
        },
        _ => {},
    }
}

proof fn lemma_quantity_parent_first(node: NodeModel)
    requires
        node.content is Quantity,
    ensures
        encode(node).type_words() == kind_words(node),
    decreases node, 0nat,
{
    let word = node.content.kind().tag();
    let f0 = header(word, node.id);
    let c0 = Seq::<NodeModel>::empty();
    lemma_header_words(word, node.id);
    lemma_kinds_empty();
    lemma_kind_words_unfold(node);
    match node.content {
        ContentModel::Quantity { number, scientific_notation, unit } => {
            lemma_scalar_words(Json::Text(number));
            lemma_entry_words_push(f0, "number"@, Json::Text(number));
            let f1 = f0.push(("number"@, Json::Text(number)));
            lemma_opt_words(scientific_notation);
            lemma_entry_words_push(f1, "scientific_notation"@, encode_opt(scientific_notation));
            let f2 = f1.push(("scientific_notation"@, encode_opt(scientific_notation)));
            lemma_kinds_concat(c0, opt_children(scientific_notation));
            let c1 = c0 + opt_children(scientific_notation);
            lemma_opt_words(unit);
            lemma_entry_words_push(f2, "unit"@, encode_opt(unit));
            let f3 = f2.push(("unit"@, encode_opt(unit)));
            lemma_kinds_concat(c1, opt_children(unit));
            let c2 = c1 + opt_children(unit);
            lemma_node_object_words(word, node.id, f3);
            assert(encode(node) == Json::Object(f3));
            assert(children(node) == c2);
            assert(encode(node).type_words() =~= kind_words(node));
        },
        _ => {},
    }
}

proof fn lemma_scientific_notation_parent_first(node: NodeModel)
    requires
        node.content is ScientificNotation,
    ensures
        encode(node).type_words() == kind_words(node),
    decreases node, 0nat,
{
    let word = node.content.kind().tag();
    let f0 = header(word, node.id);
    let c0 = Seq::<NodeModel>::empty();
    lemma_header_words(word, node.id);
    lemma_kinds_empty();
    lemma_kind_words_unfold(node);
    match node.content {
        ContentModel::ScientificNotation { magnitude, style } => {
            lemma_parent_first(*magnitude);
            lemma_entry_words_push(f0, "magnitude"@, encode(*magnitude));
            let f1 = f0.push(("magnitude"@, encode(*magnitude)));
            lemma_kinds_push(c0, *magnitude);
            let c1 = c0.push(*magnitude);
            lemma_scalar_words(style.encode());
            lemma_entry_words_push(f1, "style"@, style.encode());
            let f2 = f1.push(("style"@, style.encode()));
            lemma_node_object_words(word, node.id, f2);
            assert(encode(node) == Json::Object(f2));
            assert(children(node) == c1);
            assert(encode(node).type_words() =~= kind_words(node));
        },
        _ => {},
    }
}

proof fn lemma_identifier_parent_first(node: NodeModel)
    requires
        node.content is Identifier,
    ensures
        encode(node).type_words() == kind_words(node),
    decreases node, 0nat,
{
    let word = node.content.kind().tag();
    let f0 = header(word, node.id);
    let c0 = Seq::<NodeModel>::empty();
    lemma_header_words(word, node.id);
    lemma_kinds_empty();
    lemma_kind_words_unfold(node);
    match node.content {
        ContentModel::Identifier(identifier) => {
            lemma_identifier_words(identifier);
            lemma_entry_words_push(f0, "identifier"@, encode_identifier(identifier));
            let f1 = f0.push(("identifier"@, encode_identifier(identifier)));
            lemma_kinds_concat(c0, identifier_children(identifier));
            let c1 = c0 + identifier_children(identifier);
            lemma_node_object_words(word, node.id, f1);
            assert(encode(node) == Json::Object(f1));
            assert(children(node) == c1);
            assert(encode(node).type_words() =~= kind_words(node));
        },
        _ => {},
    }
}

proof fn lemma_unit_parent_first(node: NodeModel)
    requires
        node.content is Unit,
    ensures
        encode(node).type_words() == kind_words(node),
    decreases node, 0nat,
{
    let word = node.content.kind().tag();
    let f0 = header(word, node.id);
    let c0 = Seq::<NodeModel>::empty();
    lemma_header_words(word, node.id);
    lemma_kinds_empty();
    lemma_kind_words_unfold(node);
    match node.content {
        ContentModel::Unit { original_form, flattened_form } => {
            lemma_parent_first(*original_form);
            lemma_entry_words_push(f0, "original_form"@, encode(*original_form));
            let f1 = f0.push(("original_form"@, encode(*original_form)));
            lemma_kinds_push(c0, *original_form);
            let c1 = c0.push(*original_form);
            lemma_parent_first(*flattened_form);
            lemma_entry_words_push(f1, "flattened_form"@, encode(*flattened_form));
            let f2 = f1.push(("flattened_form"@, encode(*flattened_form)));
            lemma_kinds_push(c1, *flattened_form);
            let c2 = c1.push(*flattened_form);
            lemma_node_object_words(word, node.id, f2);
            assert(encode(node) == Json::Object(f2));
            assert(children(node) == c2);
            assert(encode(node).type_words() =~= kind_words(node));
        },
        _ => {},
    }
}

proof fn lemma_relationship_parent_first(node: NodeModel)
    requires
        node.content is Relationship,
    ensures
        encode(node).type_words() == kind_words(node),
    decreases node, 0nat,
{
    let word = node.content.kind().tag();
    let f0 = header(word, node.id);
    let c0 = Seq::<NodeModel>::empty();
    lemma_header_words(word, node.id);
    lemma_kinds_empty();
    lemma_kind_words_unfold(node);
    match node.content {
        ContentModel::Relationship { lhs, rhs, operator } => {
            lemma_parent_first(*lhs);
            lemma_entry_words_push(f0, "lhs"@, encode(*lhs));
            let f1 = f0.push(("lhs"@, encode(*lhs)));
            lemma_kinds_push(c0, *lhs);
            let c1 = c0.push(*lhs);
            lemma_parent_first(*rhs);
            lemma_entry_words_push(f1, "rhs"@, encode(*rhs));
            let f2 = f1.push(("rhs"@, encode(*rhs)));
            lemma_kinds_push(c1, *rhs);
            let c2 = c1.push(*rhs);
            lemma_relation_has_no_type_word(operator);
            lemma_entry_words_push(f2, "operator"@, operator.encode());
            let f3 = f2.push(("operator"@, operator.encode()));
            lemma_node_object_words(word, node.id, f3);
            assert(encode(node) == Json::Object(f3));
            assert(children(node) == c2);
            assert(encode(node).type_words() =~= kind_words(node));
        },
        _ => {},
    }
}

proof fn lemma_unary_relationship_parent_first(node: NodeModel)
    requires
        node.content is UnaryRelationship,
    ensures
        encode(node).type_words() == kind_words(node),
    decreases node, 0nat,
{
    let word = node.content.kind().tag();
    let f0 = header(word, node.id);
    let c0 = Seq::<NodeModel>::empty();
    lemma_header_words(word, node.id);
    lemma_kinds_empty();
    lemma_kind_words_unfold(node);
    match node.content {
        ContentModel::UnaryRelationship { subject, predicate } => {
            lemma_parent_first(*subject);
            lemma_entry_words_push(f0, "subject"@, encode(*subject));
            let f1 = f0.push(("subject"@, encode(*subject)));
            lemma_kinds_push(c0, *subject);
            let c1 = c0.push(*subject);
            lemma_property_has_no_type_word(predicate);
            lemma_entry_words_push(f1, "predicate"@, predicate.encode());
            let f2 = f1.push(("predicate"@, predicate.encode()));
            lemma_node_object_words(word, node.id, f2);
            assert(encode(node) == Json::Object(f2));
            assert(children(node) == c1);
            assert(encode(node).type_words() =~= kind_words(node));
        },
        _ => {},
    }
}

proof fn lemma_variable_definition_parent_first(node: NodeModel)
    requires
        node.content is VariableDefinition,
    ensures
        encode(node).type_words() == kind_words(node),
    decreases node, 0nat,
{
    let word = node.content.kind().tag();
    let f0 = header(word, node.id);
    let c0 = Seq::<NodeModel>::empty();
    lemma_header_words(word, node.id);
    lemma_kinds_empty();
    lemma_kind_words_unfold(node);
    match node.content {
        ContentModel::VariableDefinition { name, definition } => {
            lemma_parent_first(*name);
            lemma_entry_words_push(f0, "name"@, encode(*name));
            let f1 = f0.push(("name"@, encode(*name)));
            lemma_kinds_push(c0, *name);
            let c1 = c0.push(*name);
            lemma_opt_words(definition);
            lemma_entry_words_push(f1, "definition"@, encode_opt(definition));
            let f2 = f1.push(("definition"@, encode_opt(definition)));
            lemma_kinds_concat(c1, opt_children(definition));
            let c2 = c1 + opt_children(definition);
            lemma_node_object_words(word, node.id, f2);
            assert(encode(node) == Json::Object(f2));
            assert(children(node) == c2);
            assert(encode(node).type_words() =~= kind_words(node));
        },
        _ => {},
    }
}

proof fn lemma_function_definition_parent_first(node: NodeModel)
    requires
        node.content is FunctionDefinition,
    ensures
        encode(node).type_words() == kind_words(node),
    decreases node, 0nat,
{
    let word = node.content.kind().tag();
    let f0 = header(word, node.id);
    let c0 = Seq::<NodeModel>::empty();
    lemma_header_words(word, node.id);
    lemma_kinds_empty();
    lemma_kind_words_unfold(node);
    match node.content {
        ContentModel::FunctionDefinition { custom_function, definition } => {
            lemma_parent_first(*custom_function);
            lemma_entry_words_push(f0, "custom_function"@, encode(*custom_function));
            let f1 = f0.push(("custom_function"@, encode(*custom_function)));
            lemma_kinds_push(c0, *custom_function);
            let c1 = c0.push(*custom_function);
            lemma_opt_words(definition);
            lemma_entry_words_push(f1, "definition"@, encode_opt(definition));
            let f2 = f1.push(("definition"@, encode_opt(definition)));
            lemma_kinds_concat(c1, opt_children(definition));
            let c2 = c1 + opt_children(definition);
            lemma_node_object_words(word, node.id, f2);
            assert(encode(node) == Json::Object(f2));
            assert(children(node) == c2);
            assert(encode(node).type_words() =~= kind_words(node));
        },
        _ => {},
    }
}

proof fn lemma_limit_parent_first(node: NodeModel)
    requires
        node.content is Limit,
    ensures
        encode(node).type_words() == kind_words(node),
    decreases node, 0nat,
{
    let word = node.content.kind().tag();
    let f0 = header(word, node.id);
    let c0 = Seq::<NodeModel>::empty();
    lemma_header_words(word, node.id);
    lemma_kinds_empty();
    lemma_kind_words_unfold(node);
    match node.content {
        ContentModel::Limit { function, variable, approaching_value } => {
            lemma_parent_first(*function);
            lemma_entry_words_push(f0, "function"@, encode(*function));
            let f1 = f0.push(("function"@, encode(*function)));
            lemma_kinds_push(c0, *function);
            let c1 = c0.push(*function);
            lemma_scalar_words(Json::Text(variable));
            lemma_entry_words_push(f1, "variable"@, Json::Text(variable));
            let f2 = f1.push(("variable"@, Json::Text(variable)));
            lemma_parent_first(*approaching_value);
            lemma_entry_words_push(f2, "approaching_value"@, encode(*approaching_value));
            let f3 = f2.push(("approaching_value"@, encode(*approaching_value)));
            lemma_kinds_push(c1, *approaching_value);
            let c2 = c1.push(*approaching_value);
            lemma_node_object_words(word, node.id, f3);
            assert(encode(node) == Json::Object(f3));
            assert(children(node) == c2);
            assert(encode(node).type_words() =~= kind_words(node));
        },
        _ => {},
    }
}

proof fn lemma_differential_parent_first(node: NodeModel)
    requires
        node.content is Differential,
    ensures
        encode(node).type_words() == kind_words(node),
    decreases node, 0nat,
{
    let word = node.content.kind().tag();
    let f0 = header(word, node.id);
    let c0 = Seq::<NodeModel>::empty();
    lemma_header_words(word, node.id);
    lemma_kinds_empty();
    lemma_kind_words_unfold(node);
    match node.content {
        ContentModel::Differential { target, order, diff_style } => {
            lemma_parent_first(*target);
            lemma_entry_words_push(f0, "target"@, encode(*target));
            let f1 = f0.push(("target"@, encode(*target)));
            lemma_kinds_push(c0, *target);
            let c1 = c0.push(*target);
            lemma_parent_first(*order);
            lemma_entry_words_push(f1, "order"@, encode(*order));
            let f2 = f1.push(("order"@, encode(*order)));
            lemma_kinds_push(c1, *order);
            let c2 = c1.push(*order);
            lemma_scalar_words(diff_style.encode());
            lemma_entry_words_push(f2, "diff_style"@, diff_style.encode());
            let f3 = f2.push(("diff_style"@, diff_style.encode()));
            lemma_node_object_words(word, node.id, f3);
            assert(encode(node) == Json::Object(f3));
            assert(children(node) == c2);
            assert(encode(node).type_words() =~= kind_words(node));
        },
        _ => {},
    }
}

proof fn lemma_integration_parent_first(node: NodeModel)
    requires
        node.content is Integration,
    ensures
        encode(node).type_words() == kind_words(node),
    decreases node, 0nat,
{
    let word = node.content.kind().tag();
    let f0 = header(word, node.id);
    let c0 = Seq::<NodeModel>::empty();
    lemma_header_words(word, node.id);
    lemma_kinds_empty();
    lemma_kind_words_unfold(node);
    match node.content {
        ContentModel::Integration { integrand, differentials, domain } => {
            lemma_parent_first(*integrand);
            lemma_entry_words_push(f0, "integrand"@, encode(*integrand));
            let f1 = f0.push(("integrand"@, encode(*integrand)));
            lemma_kinds_push(c0, *integrand);
            let c1 = c0.push(*integrand);
            lemma_differentials_words(differentials);
            lemma_entry_words_push(
                f1,
                "differentials"@,
                Json::List(encode_differentials(differentials)),
            );
            let f2 = f1.push(("differentials"@, Json::List(encode_differentials(differentials))));
            lemma_kinds_concat(c1, differential_children(differentials));
            let c2 = c1 + differential_children(differentials);
            lemma_opt_words(domain);
            lemma_entry_words_push(f2, "domain"@, encode_opt(domain));
            let f3 = f2.push(("domain"@, encode_opt(domain)));
            lemma_kinds_concat(c2, opt_children(domain));
            let c3 = c2 + opt_children(domain);
            lemma_node_object_words(word, node.id, f3);
            assert(encode(node) == Json::Object(f3));
            assert(children(node) == c3);
            assert(encode(node).type_words() =~= kind_words(node));
        },
        _ => {},
    }
}

proof fn lemma_quantified_expression_parent_first(node: NodeModel)
    requires
        node.content is QuantifiedExpression,
    ensures
        encode(node).type_words() == kind_words(node),
    decreases node, 0nat,
{
    let word = node.content.kind().tag();
    let f0 = header(word, node.id);
    let c0 = Seq::<NodeModel>::empty();
    lemma_header_words(word, node.id);
    lemma_kinds_empty();
    lemma_kind_words_unfold(node);
    match node.content {
        ContentModel::QuantifiedExpression { quantifier, variables, domain, predicate } => {
            lemma_scalar_words(quantifier.encode());
            lemma_entry_words_push(f0, "quantifier"@, quantifier.encode());
            let f1 = f0.push(("quantifier"@, quantifier.encode()));
            lemma_all_words(variables);
            lemma_entry_words_push(f1, "variables"@, Json::List(encode_all(variables)));
            let f2 = f1.push(("variables"@, Json::List(encode_all(variables))));
            lemma_kinds_concat(c0, variables);
            let c1 = c0 + variables;
            lemma_opt_words(domain);
            lemma_entry_words_push(f2, "domain"@, encode_opt(domain));
            let f3 = f2.push(("domain"@, encode_opt(domain)));
            lemma_kinds_concat(c1, opt_children(domain));
            let c2 = c1 + opt_children(domain);
            lemma_opt_words(predicate);
            lemma_entry_words_push(f3, "predicate"@, encode_opt(predicate));
            let f4 = f3.push(("predicate"@, encode_opt(predicate)));
            lemma_kinds_concat(c2, opt_children(predicate));
            let c3 = c2 + opt_children(predicate);
            lemma_node_object_words(word, node.id, f4);
            assert(encode(node) == Json::Object(f4));
            assert(children(node) == c3);
            assert(encode(node).type_words() =~= kind_words(node));
        },
        _ => {},
    }
}

proof fn lemma_and_parent_first(node: NodeModel)
    requires
        node.content is And,
    ensures
        encode(node).type_words() == kind_words(node),
    decreases node, 0nat,
{
    let word = node.content.kind().tag();
    let f0 = header(word, node.id);
    let c0 = Seq::<NodeModel>::empty();
    lemma_header_words(word, node.id);
    lemma_kinds_empty();
    lemma_kind_words_unfold(node);
    match node.content {
        ContentModel::And(operands) => {
            lemma_all_words(operands);
            lemma_entry_words_push(f0, "operands"@, Json::List(encode_all(operands)));
            let f1 = f0.push(("operands"@, Json::List(encode_all(operands))));
            lemma_kinds_concat(c0, operands);
            let c1 = c0 + operands;
            lemma_node_object_words(word, node.id, f1);
            assert(encode(node) == Json::Object(f1));
            assert(children(node) == c1);
            assert(encode(node).type_words() =~= kind_words(node));
        },
        _ => {},
    }
}

proof fn lemma_or_parent_first(node: NodeModel)
    requires
        node.content is Or,
    ensures
        encode(node).type_words() == kind_words(node),
    decreases node, 0nat,
{
    let word = node.content.kind().tag();
    let f0 = header(word, node.id);
    let c0 = Seq::<NodeModel>::empty();
    lemma_header_words(word, node.id);
    lemma_kinds_empty();
    lemma_kind_words_unfold(node);
    match node.content {
        ContentModel::Or(operands) => {
            lemma_all_words(operands);
            lemma_entry_words_push(f0, "operands"@, Json::List(encode_all(operands)));
            let f1 = f0.push(("operands"@, Json::List(encode_all(operands))));
            lemma_kinds_concat(c0, operands);
            let c1 = c0 + operands;
            lemma_node_object_words(word, node.id, f1);
            assert(encode(node) == Json::Object(f1));
            assert(children(node) == c1);
            assert(encode(node).type_words() =~= kind_words(node));
        },
        _ => {},
    }
}

proof fn lemma_not_parent_first(node: NodeModel)
    requires
        node.content is Not,
    ensures
        encode(node).type_words() == kind_words(node),
    decreases node, 0nat,
{
    let word = node.content.kind().tag();
    let f0 = header(word, node.id);
    let c0 = Seq::<NodeModel>::empty();
    lemma_header_words(word, node.id);
    lemma_kinds_empty();
    lemma_kind_words_unfold(node);
    match node.content {
        ContentModel::Not(operand) => {
            lemma_parent_first(*operand);
            lemma_entry_words_push(f0, "operand"@, encode(*operand));
            let f1 = f0.push(("operand"@, encode(*operand)));
            lemma_kinds_push(c0, *operand);
            let c1 = c0.push(*operand);
            lemma_node_object_words(word, node.id, f1);
            assert(encode(node) == Json::Object(f1));
            assert(children(node) == c1);
            assert(encode(node).type_words() =~= kind_words(node));
        },
        _ => {},
    }
}

proof fn lemma_true_parent_first(node: NodeModel)
    requires
        node.content is True,
    ensures
        encode(node).type_words() == kind_words(node),
    decreases node, 0nat,
{
    let word = node.content.kind().tag();
    let f0 = header(word, node.id);
    let c0 = Seq::<NodeModel>::empty();
    lemma_header_words(word, node.id);
    lemma_kinds_empty();
    lemma_kind_words_unfold(node);
    lemma_node_object_words(word, node.id, f0);
    assert(encode(node) == Json::Object(f0));
    assert(children(node) == c0);
    assert(encode(node).type_words() =~= kind_words(node));
}

proof fn lemma_false_parent_first(node: NodeModel)
    requires
        node.content is False,
    ensures
        encode(node).type_words() == kind_words(node),
    decreases node, 0nat,
{
    let word = node.content.kind().tag();
    let f0 = header(word, node.id);
    let c0 = Seq::<NodeModel>::empty();
    lemma_header_words(word, node.id);
    lemma_kinds_empty();
    lemma_kind_words_unfold(node);
    lemma_node_object_words(word, node.id, f0);
    assert(encode(node) == Json::Object(f0));
    assert(children(node) == c0);
    assert(encode(node).type_words() =~= kind_words(node));
}

proof fn lemma_opt_words(slot: Option<Box<NodeModel>>)
    ensures
        encode_opt(slot).type_words() == kind_words_of(opt_children(slot)),
    decreases slot, 2nat,
{
    lemma_kinds_empty();
    match slot {
        Some(node) => {
            lemma_parent_first(*node);
            lemma_kinds_push(Seq::empty(), *node);
        },
        None => {
            lemma_scalar_words(Json::Null);
        },
    }
}

proof fn lemma_all_words(nodes: Seq<NodeModel>)
    ensures
        Json::List(encode_all(nodes)).type_words() == kind_words_of(nodes),
    decreases nodes, 2nat,
{
    let items = encode_all(nodes);
    lemma_list_words(items);
    assert forall|i: int| 0 <= i < nodes.len() implies (#[trigger] items[i]).type_words()
        == kind_words(nodes[i]) by {
        lemma_parent_first(nodes[i]);
    }
    assert(Seq::new(items.len(), |i: int| items[i].type_words()) =~= Seq::new(
        nodes.len(),
        |i: int| kind_words(nodes[i]),
    ));
}

proof fn lemma_rows_words(rows: Seq<Seq<NodeModel>>)
    ensures
        Json::List(encode_rows(rows)).type_words() == kind_words_of(rows.flatten()),
    decreases rows, 3nat,
{
    let items = encode_rows(rows);
    lemma_list_words(items);
    assert forall|i: int| 0 <= i < rows.len() implies (#[trigger] items[i]).type_words()
        == kind_words_of(rows[i]) by {
        lemma_all_words(rows[i]);
    }
    assert(Seq::new(items.len(), |i: int| items[i].type_words()) =~= Seq::new(
        rows.len(),
        |i: int| kind_words_of(rows[i]),
    ));
    lemma_kinds_flatten(rows);
}

proof fn lemma_term_words(operator: Seq<char>, term: Json)
    ensures
        term_object(operator, term).type_words() == term.type_words(),
{
    let none = Seq::<(Seq<char>, Json)>::empty();
    lemma_first_keys_are_not_type();
    lemma_entry_words_empty();
    lemma_scalar_words(Json::Text(operator));
    lemma_entry_words_push(none, "operator"@, Json::Text(operator));
    lemma_entry_words_push(none.push(("operator"@, Json::Text(operator))), "term"@, term);
    lemma_plain_object_words(none.push(("operator"@, Json::Text(operator))).push(("term"@, term)));
}

proof fn lemma_product_terms_words(terms: Seq<(RefinedMulOrDivOperation, NodeModel)>)
    ensures
        Json::List(encode_product_terms(terms)).type_words() == kind_words_of(
            product_term_nodes(terms),
        ),
    decreases terms, 2nat,
{
    let items = encode_product_terms(terms);
    let nodes = product_term_nodes(terms);
    lemma_list_words(items);
    assert forall|i: int| 0 <= i < terms.len() implies (#[trigger] items[i]).type_words()
        == kind_words(nodes[i]) by {
        assert(decreases_to!(terms => terms[i]));
        lemma_parent_first(terms[i].1);
        lemma_term_words(terms[i].0.tag(), encode(terms[i].1));
    }
    assert(Seq::new(items.len(), |i: int| items[i].type_words()) =~= Seq::new(
        nodes.len(),
        |i: int| kind_words(nodes[i]),
    ));
}

proof fn lemma_sum_terms_words(terms: Seq<(RefinedAddOrSubOperator, NodeModel)>)
    ensures
        Json::List(encode_sum_terms(terms)).type_words() == kind_words_of(sum_term_nodes(terms)),
    decreases terms, 2nat,
{
    let items = encode_sum_terms(terms);
    let nodes = sum_term_nodes(terms);
    lemma_list_words(items);
    assert forall|i: int| 0 <= i < terms.len() implies (#[trigger] items[i]).type_words()
        == kind_words(nodes[i]) by {
        assert(decreases_to!(terms => terms[i]));
        lemma_parent_first(terms[i].1);
        lemma_term_words(terms[i].0.tag(), encode(terms[i].1));
    }
    assert(Seq::new(items.len(), |i: int| items[i].type_words()) =~= Seq::new(
        nodes.len(),
        |i: int| kind_words(nodes[i]),
    ));
}

proof fn lemma_differential_words(differential: Json, lower: Json, upper: Json)
    ensures
        differential_object(differential, lower, upper).type_words() == differential.type_words()
            + lower.type_words() + upper.type_words(),
{
    let none = Seq::<(Seq<char>, Json)>::empty();
    let f1 = none.push(("differential"@, differential));
    let f2 = f1.push(("lower_bound"@, lower));
    let f3 = f2.push(("upper_bound"@, upper));
    lemma_first_keys_are_not_type();
    lemma_entry_words_empty();
    lemma_entry_words_push(none, "differential"@, differential);
    lemma_entry_words_push(f1, "lower_bound"@, lower);
    lemma_entry_words_push(f2, "upper_bound"@, upper);
    lemma_plain_object_words(f3);
    assert(differential_object(differential, lower, upper).type_words()
        =~= differential.type_words() + lower.type_words() + upper.type_words());
}

proof fn lemma_differentials_words(
    diffs: Seq<(NodeModel, Option<Box<NodeModel>>, Option<Box<NodeModel>>)>,
)
    ensures
        Json::List(encode_differentials(diffs)).type_words() == kind_words_of(
            differential_children(diffs),
        ),
    decreases diffs, 3nat,
{
    let items = encode_differentials(diffs);
    let parts = diffs.map_values(
        |d: (NodeModel, Option<Box<NodeModel>>, Option<Box<NodeModel>>)| differential_nodes(d),
    );
    lemma_list_words(items);
    assert forall|i: int| 0 <= i < diffs.len() implies (#[trigger] items[i]).type_words()
        == kind_words_of(parts[i]) by {
        let d = diffs[i];
        assert(decreases_to!(diffs => diffs[i]));
        lemma_parent_first(d.0);
        lemma_opt_words(d.1);
        lemma_opt_words(d.2);
        lemma_differential_words(encode(d.0), encode_opt(d.1), encode_opt(d.2));
        lemma_kinds_empty();
        lemma_kinds_push(Seq::empty(), d.0);
        lemma_kinds_concat(Seq::empty().push(d.0), opt_children(d.1));
        lemma_kinds_concat(Seq::empty().push(d.0) + opt_children(d.1), opt_children(d.2));
    }
    assert(Seq::new(items.len(), |i: int| items[i].type_words()) =~= Seq::new(
        parts.len(),
        |i: int| kind_words_of(parts[i]),
    ));
    lemma_kinds_flatten(parts);
}

proof fn lemma_script_words(slot: Option<ScriptModel>)
    ensures
        encode_script(slot).type_words() == kind_words_of(script_children(slot)),
    decreases slot, 3nat,
{
    lemma_first_keys_are_not_type();
    match slot {
        Some(script) => {
            let none = Seq::<(Seq<char>, Json)>::empty();
            let below = Json::List(encode_all(script.subscripts));
            let above = Json::List(encode_all(script.superscripts));
            let f1 = none.push(("subscripts"@, below));
            let f2 = f1.push(("superscripts"@, above));
            lemma_all_words(script.subscripts);
            lemma_all_words(script.superscripts);
            lemma_entry_words_empty();
            lemma_entry_words_push(none, "subscripts"@, below);
            lemma_entry_words_push(f1, "superscripts"@, above);
            lemma_plain_object_words(f2);
            lemma_kinds_concat(script.subscripts, script.superscripts);
            assert(encode_script(slot).type_words() =~= kind_words_of(script_children(slot)));
        },
        None => {
            lemma_scalar_words(Json::Null);
            lemma_kinds_empty();
        },
    }
}

proof fn lemma_mark_words(mark: SpecialMiddleScriptContentTypeNode)
    ensures
        encode_mark(mark).type_words() == Seq::<Seq<char>>::empty(),
{
    lemma_first_keys_are_not_type();
    match mark {
        SpecialMiddleScriptContentTypeNode::Dot(count) => {
            let none = Seq::<(Seq<char>, Json)>::empty();
            lemma_entry_words_empty();
            lemma_scalar_words(Json::Number(count as u64));
            lemma_entry_words_push(none, "dot"@, Json::Number(count as u64));
            lemma_plain_object_words(none.push(("dot"@, Json::Number(count as u64))));
        },
        _ => {
            lemma_scalar_words(encode_mark(mark));
        },
    }
}

proof fn lemma_mark_list_words(marks: Seq<SpecialMiddleScriptContentTypeNode>)
    ensures
        Json::List(encode_mark_list(marks)).type_words() == Seq::<Seq<char>>::empty(),
{
    let items = encode_mark_list(marks);
    let parts = Seq::new(items.len(), |i: int| items[i].type_words());
    lemma_list_words(items);
    assert forall|i: int| 0 <= i < parts.len() implies (#[trigger] parts[i]).len() == 0 by {
        lemma_mark_words(marks[i]);
    }
    lemma_flatten_of_empties(parts);
}

proof fn lemma_marks_words(slot: Option<MidScriptModel>)
    ensures
        encode_marks(slot).type_words() == Seq::<Seq<char>>::empty(),
{
    lemma_first_keys_are_not_type();
    match slot {
        Some(marks) => {
            let none = Seq::<(Seq<char>, Json)>::empty();
            let over = Json::List(encode_mark_list(marks.super_script));
            let under = Json::List(encode_mark_list(marks.sub_script));
            let f1 = none.push(("super_script"@, over));
            let f2 = f1.push(("sub_script"@, under));
            lemma_mark_list_words(marks.super_script);
            lemma_mark_list_words(marks.sub_script);
            lemma_entry_words_empty();
            lemma_entry_words_push(none, "super_script"@, over);
            lemma_entry_words_push(f1, "sub_script"@, under);
            lemma_plain_object_words(f2);
            assert(encode_marks(slot).type_words() =~= Seq::<Seq<char>>::empty());
        },
        None => {
            lemma_scalar_words(Json::Null);
        },
    }
}

proof fn lemma_identifier_words(identifier: IdentifierModel)
    ensures
        encode_identifier(identifier).type_words() == kind_words_of(
            identifier_children(identifier),
        ),
    decreases identifier, 4nat,
{
    let none = Seq::<(Seq<char>, Json)>::empty();
    let body = Json::Text(identifier.body);
    let before = encode_script(identifier.pre_script);
    let marks = encode_marks(identifier.mid_script);
    let after = encode_script(identifier.post_script);
    let primes = Json::Number(identifier.primes as u64);
    let flag = Json::Bool(identifier.is_function);
    let f1 = none.push(("body"@, body));
    let f2 = f1.push(("pre_script"@, before));
    let f3 = f2.push(("mid_script"@, marks));
    let f4 = f3.push(("post_script"@, after));
    let f5 = f4.push(("primes"@, primes));
    let f6 = f5.push(("is_function"@, flag));
    lemma_first_keys_are_not_type();
    lemma_scalar_words(body);
    lemma_script_words(identifier.pre_script);
    lemma_marks_words(identifier.mid_script);
    lemma_script_words(identifier.post_script);
    lemma_scalar_words(primes);
    lemma_scalar_words(flag);
    lemma_entry_words_empty();
    lemma_entry_words_push(none, "body"@, body);
    lemma_entry_words_push(f1, "pre_script"@, before);
    lemma_entry_words_push(f2, "mid_script"@, marks);
    lemma_entry_words_push(f3, "post_script"@, after);
    lemma_entry_words_push(f4, "primes"@, primes);
    lemma_entry_words_push(f5, "is_function"@, flag);
    lemma_plain_object_words(f6);
    lemma_kinds_concat(
        script_children(identifier.pre_script),
        script_children(identifier.post_script),
    );
    assert(encode_identifier(identifier).type_words() =~= kind_words_of(
        identifier_children(identifier),
    ));
}

} // verus!
