//! From an expression tree to its interchange form.
//!
//! Every node becomes an object. The object starts with the node's kind under
//! `type` and its id under `id`; the fields of the content follow in the order
//! in which the content declares them. A child is written where its field
//! stands, so a parent's `type` always comes before those of its children, and
//! the children come in their own order. An optional field that is absent is
//! written as an explicit null.

use crate::interchange::{
    fields_view, finish_list, finish_object, header, items_view, push_field, start_object,
    text_value, InterchangeValue, Json,
};
use crate::math_node::{
    Identifier, MathNode, MathNodeContent, RefinedAddOrSubOperator, RefinedMulOrDivOperation,
    ScriptNode, SpecialMiddleScriptContentTypeNode, SpecialMiddleScriptNode,
};
use crate::model::{
    add_terms_view, diffs_view, identifier_view, mul_terms_view, nodes_view, opt_arc_view,
    opt_mid_script_view, opt_script_view, opt_view, rows_view, ContentModel, IdentifierModel,
    MidScriptModel, NodeModel, ScriptModel,
};
use crate::vocabulary::NodeKind;
use std::sync::Arc;
use vstd::prelude::*;

verus! {

/// The interchange form of a node.
pub open spec fn encode(node: NodeModel) -> Json
    decreases node,
{
    let start = header(node.content.kind().tag(), node.id);
    match node.content {
        ContentModel::Empty => Json::Object(start),
        ContentModel::Text(value) => Json::Object(
            start
                .push(("value"@, Json::Text(value))),
        ),
        ContentModel::String(value) => Json::Object(
            start
                .push(("value"@, Json::Text(value))),
        ),
        ContentModel::Bracketed { inner, style, size } => Json::Object(
            start
                .push(("inner"@, encode(*inner)))
                .push(("style"@, style.encode()))
                .push(("size"@, size.encode())),
        ),
        ContentModel::Matrix { rows } => Json::Object(
            start
                .push(("rows"@, Json::List(encode_rows(rows)))),
        ),
        ContentModel::Multiplications { terms } => Json::Object(
            start
                .push(("terms"@, Json::List(encode_product_terms(terms)))),
        ),
        ContentModel::Additions { terms } => Json::Object(
            start
                .push(("terms"@, Json::List(encode_sum_terms(terms)))),
        ),
        ContentModel::Division { numerator, denominator, style } => Json::Object(
            start
                .push(("numerator"@, encode(*numerator)))
                .push(("denominator"@, encode(*denominator)))
                .push(("style"@, style.encode())),
        ),
        ContentModel::SumNotation { summand, variable, lower_limit, upper_limit } => Json::Object(
            start
                .push(("summand"@, encode(*summand)))
                .push(("variable"@, encode_opt(variable)))
                .push(("lower_limit"@, encode_opt(lower_limit)))
                .push(("upper_limit"@, encode_opt(upper_limit))),
        ),
        ContentModel::ProductNotation {
            multiplicand,
            variable,
            lower_limit,
            upper_limit,
        } => Json::Object(
            start
                .push(("multiplicand"@, encode(*multiplicand)))
                .push(("variable"@, encode_opt(variable)))
                .push(("lower_limit"@, encode_opt(lower_limit)))
                .push(("upper_limit"@, encode_opt(upper_limit))),
        ),
        ContentModel::Fraction { numerator, denominator } => Json::Object(
            start
                .push(("numerator"@, encode(*numerator)))
                .push(("denominator"@, encode(*denominator))),
        ),
        ContentModel::Power { base, exponent } => Json::Object(
            start
                .push(("base"@, encode(*base)))
                .push(("exponent"@, encode(*exponent))),
        ),
        ContentModel::UnaryPostfixOperation { parameter, operator } => Json::Object(
            start
                .push(("parameter"@, encode(*parameter)))
                .push(("operator"@, encode(*operator))),
        ),
        ContentModel::UnaryPrefixOperation { parameter, operator } => Json::Object(
            start
                .push(("parameter"@, encode(*parameter)))
                .push(("operator"@, encode(*operator))),
        ),
        ContentModel::Abs { parameter } => Json::Object(
            start
                .push(("parameter"@, encode(*parameter))),
        ),
        ContentModel::FunctionCall { name, parameters } => Json::Object(
            start
                .push(("name"@, encode(*name)))
                .push(("parameters"@, Json::List(encode_all(parameters)))),
        ),
        ContentModel::Quantity { number, scientific_notation, unit } => Json::Object(
            start
                .push(("number"@, Json::Text(number)))
                .push(("scientific_notation"@, encode_opt(scientific_notation)))
                .push(("unit"@, encode_opt(unit))),
        ),
        ContentModel::ScientificNotation { magnitude, style } => Json::Object(
            start
                .push(("magnitude"@, encode(*magnitude)))
                .push(("style"@, style.encode())),
        ),
        ContentModel::Identifier(identifier) => Json::Object(
            start
                .push(("identifier"@, encode_identifier(identifier))),
        ),
        ContentModel::Unit { original_form, flattened_form } => Json::Object(
            start
                .push(("original_form"@, encode(*original_form)))
                .push(("flattened_form"@, encode(*flattened_form))),
        ),
        ContentModel::Relationship { lhs, rhs, operator } => Json::Object(
            start
                .push(("lhs"@, encode(*lhs)))
                .push(("rhs"@, encode(*rhs)))
                .push(("operator"@, operator.encode())),
        ),
        ContentModel::UnaryRelationship { subject, predicate } => Json::Object(
            start
                .push(("subject"@, encode(*subject)))
                .push(("predicate"@, predicate.encode())),
        ),
        ContentModel::VariableDefinition { name, definition } => Json::Object(
            start
                .push(("name"@, encode(*name)))
                .push(("definition"@, encode_opt(definition))),
        ),
        ContentModel::FunctionDefinition { custom_function, definition } => Json::Object(
            start
                .push(("custom_function"@, encode(*custom_function)))
                .push(("definition"@, encode_opt(definition))),
        ),
        ContentModel::Limit { function, variable, approaching_value } => Json::Object(
            start
                .push(("function"@, encode(*function)))
                .push(("variable"@, Json::Text(variable)))
                .push(("approaching_value"@, encode(*approaching_value))),
        ),
        ContentModel::Differential { target, order, diff_style } => Json::Object(
            start
                .push(("target"@, encode(*target)))
                .push(("order"@, encode(*order)))
                .push(("diff_style"@, diff_style.encode())),
        ),
        ContentModel::Integration { integrand, differentials, domain } => Json::Object(
            start
                .push(("integrand"@, encode(*integrand)))
                .push(("differentials"@, Json::List(encode_differentials(differentials))))
                .push(("domain"@, encode_opt(domain))),
        ),
        ContentModel::QuantifiedExpression {
            quantifier,
            variables,
            domain,
            predicate,
        } => Json::Object(
            start
                .push(("quantifier"@, quantifier.encode()))
                .push(("variables"@, Json::List(encode_all(variables))))
                .push(("domain"@, encode_opt(domain)))
                .push(("predicate"@, encode_opt(predicate))),
        ),
        ContentModel::And(operands) => Json::Object(
            start
                .push(("operands"@, Json::List(encode_all(operands)))),
        ),
        ContentModel::Or(operands) => Json::Object(
            start
                .push(("operands"@, Json::List(encode_all(operands)))),
        ),
        ContentModel::Not(operand) => Json::Object(
            start
                .push(("operand"@, encode(*operand))),
        ),
        ContentModel::True => Json::Object(start),
        ContentModel::False => Json::Object(start),
    }
}

/// The interchange form of an optional child: the child's, or null.
pub open spec fn encode_opt(slot: Option<Box<NodeModel>>) -> Json
    decreases slot,
{
    match slot {
        Some(node) => encode(*node),
        None => Json::Null,
    }
}

/// The interchange forms of some children, in order.
pub open spec fn encode_all(nodes: Seq<NodeModel>) -> Seq<Json>
    decreases nodes,
{
    Seq::new(
        nodes.len(),
        |i: int|
            if 0 <= i < nodes.len() {
                encode(nodes[i])
            } else {
                arbitrary()
            },
    )
}

/// The interchange forms of the rows of a matrix: each row a list of its own
/// length.
pub open spec fn encode_rows(rows: Seq<Seq<NodeModel>>) -> Seq<Json>
    decreases rows,
{
    Seq::new(
        rows.len(),
        |i: int|
            if 0 <= i < rows.len() {
                Json::List(encode_all(rows[i]))
            } else {
                arbitrary()
            },
    )
}

/// The interchange form of one term of a chain: the word of its operator, then
/// the term.
pub open spec fn term_object(operator: Seq<char>, term: Json) -> Json {
    Json::Object(Seq::empty().push(("operator"@, Json::Text(operator))).push(("term"@, term)))
}

/// The interchange forms of the terms of a product chain.
pub open spec fn encode_product_terms(terms: Seq<(RefinedMulOrDivOperation, NodeModel)>) -> Seq<
    Json,
>
    decreases terms,
{
    Seq::new(
        terms.len(),
        |i: int|
            if 0 <= i < terms.len() {
                term_object(terms[i].0.tag(), encode(terms[i].1))
            } else {
                arbitrary()
            },
    )
}

/// The interchange forms of the terms of a sum chain.
pub open spec fn encode_sum_terms(terms: Seq<(RefinedAddOrSubOperator, NodeModel)>) -> Seq<Json>
    decreases terms,
{
    Seq::new(
        terms.len(),
        |i: int|
            if 0 <= i < terms.len() {
                term_object(terms[i].0.tag(), encode(terms[i].1))
            } else {
                arbitrary()
            },
    )
}

/// The interchange form of one differential of an integral with its bounds.
pub open spec fn differential_object(differential: Json, lower: Json, upper: Json) -> Json {
    Json::Object(
        Seq::empty()
            .push(("differential"@, differential))
            .push(("lower_bound"@, lower))
            .push(("upper_bound"@, upper)),
    )
}

/// The interchange forms of the differentials of an integral.
pub open spec fn encode_differentials(
    diffs: Seq<(NodeModel, Option<Box<NodeModel>>, Option<Box<NodeModel>>)>,
) -> Seq<Json>
    decreases diffs,
{
    Seq::new(
        diffs.len(),
        |i: int|
            if 0 <= i < diffs.len() {
                differential_object(
                    encode(diffs[i].0),
                    encode_opt(diffs[i].1),
                    encode_opt(diffs[i].2),
                )
            } else {
                arbitrary()
            },
    )
}

/// The interchange form of an optional script group.
pub open spec fn encode_script(slot: Option<ScriptModel>) -> Json
    decreases slot,
{
    match slot {
        Some(script) => Json::Object(
            Seq::empty()
                .push(("subscripts"@, Json::List(encode_all(script.subscripts))))
                .push(("superscripts"@, Json::List(encode_all(script.superscripts)))),
        ),
        None => Json::Null,
    }
}

/// The interchange form of one mark: its word, or for dots an object that
/// holds their count.
pub open spec fn encode_mark(mark: SpecialMiddleScriptContentTypeNode) -> Json {
    match mark {
        SpecialMiddleScriptContentTypeNode::Hat => Json::Text("hat"@),
        SpecialMiddleScriptContentTypeNode::Dot(count) => Json::Object(
            Seq::empty().push(("dot"@, Json::Number(count as u64))),
        ),
        SpecialMiddleScriptContentTypeNode::Tilde => Json::Text("tilde"@),
        SpecialMiddleScriptContentTypeNode::Bar => Json::Text("bar"@),
    }
}

/// The interchange forms of some marks, in order.
pub open spec fn encode_mark_list(marks: Seq<SpecialMiddleScriptContentTypeNode>) -> Seq<Json> {
    marks.map_values(|mark: SpecialMiddleScriptContentTypeNode| encode_mark(mark))
}

/// The interchange form of an optional group of marks.
pub open spec fn encode_marks(slot: Option<MidScriptModel>) -> Json {
    match slot {
        Some(marks) => Json::Object(
            Seq::empty()
                .push(("super_script"@, Json::List(encode_mark_list(marks.super_script))))
                .push(("sub_script"@, Json::List(encode_mark_list(marks.sub_script)))),
        ),
        None => Json::Null,
    }
}

/// The interchange form of an identifier: an object of its six fields.
pub open spec fn encode_identifier(identifier: IdentifierModel) -> Json
    decreases identifier,
{
    Json::Object(
        Seq::empty()
            .push(("body"@, Json::Text(identifier.body)))
            .push(("pre_script"@, encode_script(identifier.pre_script)))
            .push(("mid_script"@, encode_marks(identifier.mid_script)))
            .push(("post_script"@, encode_script(identifier.post_script)))
            .push(("primes"@, Json::Number(identifier.primes as u64)))
            .push(("is_function"@, Json::Bool(identifier.is_function))),
    )
}

/// An object under construction with no field yet.
fn no_fields() -> (fields: Vec<(String, InterchangeValue)>)
    ensures
        fields_view(fields@) == Seq::<(Seq<char>, Json)>::empty(),
{
    let fields: Vec<(String, InterchangeValue)> = Vec::new();
    assert(fields_view(fields@) =~= Seq::<(Seq<char>, Json)>::empty());
    fields
}

/// Writes a node.
pub(crate) fn write_node(node: &MathNode) -> (value: InterchangeValue)
    ensures
        value@ == encode(node@),
    decreases node, 1nat,
{
    write_content(&node.id, &*node.content)
}

/// Writes a node, given its id and its content.
fn write_content(id: &String, content: &MathNodeContent) -> (value: InterchangeValue)
    ensures
        value@ == encode(NodeModel { id: id@, content: content@ }),
    decreases content, 0nat,
{
    match content {
        MathNodeContent::Empty => {
            let fields = start_object(NodeKind::Empty.as_tag(), id);
            finish_object(fields)
        },
        MathNodeContent::Text(value) => {
            let mut fields = start_object(NodeKind::Text.as_tag(), id);
            push_field(&mut fields, "value", text_value(value.as_str()));
            finish_object(fields)
        },
        MathNodeContent::String(value) => {
            let mut fields = start_object(NodeKind::String.as_tag(), id);
            push_field(&mut fields, "value", text_value(value.as_str()));
            finish_object(fields)
        },
        MathNodeContent::Bracketed { inner, style, size } => {
            let mut fields = start_object(NodeKind::Bracketed.as_tag(), id);
            push_field(&mut fields, "inner", write_node(inner));
            push_field(&mut fields, "style", style.to_interchange());
            push_field(&mut fields, "size", size.to_interchange());
            finish_object(fields)
        },
        MathNodeContent::Matrix { rows } => {
            let mut fields = start_object(NodeKind::Matrix.as_tag(), id);
            push_field(&mut fields, "rows", write_rows(rows));
            finish_object(fields)
        },
        MathNodeContent::Multiplications { terms } => {
            let mut fields = start_object(NodeKind::Multiplications.as_tag(), id);
            push_field(&mut fields, "terms", write_product_terms(terms));
            finish_object(fields)
        },
        MathNodeContent::Additions { terms } => {
            let mut fields = start_object(NodeKind::Additions.as_tag(), id);
            push_field(&mut fields, "terms", write_sum_terms(terms));
            finish_object(fields)
        },
        MathNodeContent::Division { numerator, denominator, style } => {
            let mut fields = start_object(NodeKind::Division.as_tag(), id);
            push_field(&mut fields, "numerator", write_node(numerator));
            push_field(&mut fields, "denominator", write_node(denominator));
            push_field(&mut fields, "style", style.to_interchange());
            finish_object(fields)
        },
        MathNodeContent::SumNotation { summand, variable, lower_limit, upper_limit } => {
            let mut fields = start_object(NodeKind::SumNotation.as_tag(), id);
            push_field(&mut fields, "summand", write_node(summand));
            push_field(&mut fields, "variable", write_opt(variable));
            push_field(&mut fields, "lower_limit", write_shared_opt(lower_limit));
            push_field(&mut fields, "upper_limit", write_shared_opt(upper_limit));
            finish_object(fields)
        },
        MathNodeContent::ProductNotation { multiplicand, variable, lower_limit, upper_limit } => {
            let mut fields = start_object(NodeKind::ProductNotation.as_tag(), id);
            push_field(&mut fields, "multiplicand", write_node(multiplicand));
            push_field(&mut fields, "variable", write_opt(variable));
            push_field(&mut fields, "lower_limit", write_shared_opt(lower_limit));
            push_field(&mut fields, "upper_limit", write_shared_opt(upper_limit));
            finish_object(fields)
        },
        MathNodeContent::Fraction { numerator, denominator } => {
            let mut fields = start_object(NodeKind::Fraction.as_tag(), id);
            push_field(&mut fields, "numerator", write_node(numerator));
            push_field(&mut fields, "denominator", write_node(denominator));
            finish_object(fields)
        },
        MathNodeContent::Power { base, exponent } => {
            let mut fields = start_object(NodeKind::Power.as_tag(), id);
            push_field(&mut fields, "base", write_node(base));
            push_field(&mut fields, "exponent", write_node(exponent));
            finish_object(fields)
        },
        MathNodeContent::UnaryPostfixOperation { parameter, operator } => {
            let mut fields = start_object(NodeKind::UnaryPostfixOperation.as_tag(), id);
            push_field(&mut fields, "parameter", write_node(parameter));
            push_field(&mut fields, "operator", write_node(operator));
            finish_object(fields)
        },
        MathNodeContent::UnaryPrefixOperation { parameter, operator } => {
            let mut fields = start_object(NodeKind::UnaryPrefixOperation.as_tag(), id);
            push_field(&mut fields, "parameter", write_node(parameter));
            push_field(&mut fields, "operator", write_node(operator));
            finish_object(fields)
        },
        MathNodeContent::Abs { parameter } => {
            let mut fields = start_object(NodeKind::Abs.as_tag(), id);
            push_field(&mut fields, "parameter", write_node(parameter));
            finish_object(fields)
        },
        MathNodeContent::FunctionCall { name, parameters } => {
            let mut fields = start_object(NodeKind::FunctionCall.as_tag(), id);
            push_field(&mut fields, "name", write_node(name));
            push_field(&mut fields, "parameters", write_nodes(parameters));
            finish_object(fields)
        },
        MathNodeContent::Quantity { number, scientific_notation, unit } => {
            let mut fields = start_object(NodeKind::Quantity.as_tag(), id);
            push_field(&mut fields, "number", text_value(number.as_str()));
            push_field(&mut fields, "scientific_notation", write_opt(scientific_notation));
            push_field(&mut fields, "unit", write_opt(unit));
            finish_object(fields)
        },
        MathNodeContent::ScientificNotation { magnitude, style } => {
            let mut fields = start_object(NodeKind::ScientificNotation.as_tag(), id);
            push_field(&mut fields, "magnitude", write_node(magnitude));
            push_field(&mut fields, "style", style.to_interchange());
            finish_object(fields)
        },
        MathNodeContent::Identifier(identifier) => {
            let mut fields = start_object(NodeKind::Identifier.as_tag(), id);
            push_field(&mut fields, "identifier", write_identifier(identifier));
            finish_object(fields)
        },
        MathNodeContent::Unit { original_form, flattened_form } => {
            let mut fields = start_object(NodeKind::Unit.as_tag(), id);
            push_field(&mut fields, "original_form", write_node(original_form));
            push_field(&mut fields, "flattened_form", write_node(flattened_form));
            finish_object(fields)
        },
        MathNodeContent::Relationship { lhs, rhs, operator } => {
            let mut fields = start_object(NodeKind::Relationship.as_tag(), id);
            push_field(&mut fields, "lhs", write_node(lhs));
            push_field(&mut fields, "rhs", write_node(rhs));
            push_field(&mut fields, "operator", operator.to_interchange());
            finish_object(fields)
        },
        MathNodeContent::UnaryRelationship { subject, predicate } => {
            let mut fields = start_object(NodeKind::UnaryRelationship.as_tag(), id);
            push_field(&mut fields, "subject", write_node(subject));
            push_field(&mut fields, "predicate", predicate.to_interchange());
            finish_object(fields)
        },
        MathNodeContent::VariableDefinition { name, definition } => {
            let mut fields = start_object(NodeKind::VariableDefinition.as_tag(), id);
            push_field(&mut fields, "name", write_node(name));
            push_field(&mut fields, "definition", write_opt(definition));
            finish_object(fields)
        },
        MathNodeContent::FunctionDefinition { custom_function, definition } => {
            let mut fields = start_object(NodeKind::FunctionDefinition.as_tag(), id);
            push_field(&mut fields, "custom_function", write_node(custom_function));
            push_field(&mut fields, "definition", write_opt(definition));
            finish_object(fields)
        },
        MathNodeContent::Limit { function, variable, approaching_value } => {
            let mut fields = start_object(NodeKind::Limit.as_tag(), id);
            push_field(&mut fields, "function", write_node(function));
            push_field(&mut fields, "variable", text_value(variable.as_str()));
            push_field(&mut fields, "approaching_value", write_node(approaching_value));
            finish_object(fields)
        },
        MathNodeContent::Differential { target, order, diff_style } => {
            let mut fields = start_object(NodeKind::Differential.as_tag(), id);
            push_field(&mut fields, "target", write_node(target));
            push_field(&mut fields, "order", write_node(order));
            push_field(&mut fields, "diff_style", diff_style.to_interchange());
            finish_object(fields)
        },
        MathNodeContent::Integration { integrand, differentials, domain } => {
            let mut fields = start_object(NodeKind::Integration.as_tag(), id);
            push_field(&mut fields, "integrand", write_node(integrand));
            push_field(&mut fields, "differentials", write_differentials(differentials));
            push_field(&mut fields, "domain", write_shared_opt(domain));
            finish_object(fields)
        },
        MathNodeContent::QuantifiedExpression { quantifier, variables, domain, predicate } => {
            let mut fields = start_object(NodeKind::QuantifiedExpression.as_tag(), id);
            push_field(&mut fields, "quantifier", quantifier.to_interchange());
            push_field(&mut fields, "variables", write_nodes(variables));
            push_field(&mut fields, "domain", write_shared_opt(domain));
            push_field(&mut fields, "predicate", write_shared_opt(predicate));
            finish_object(fields)
        },
        MathNodeContent::And(operands) => {
            let mut fields = start_object(NodeKind::And.as_tag(), id);
            push_field(&mut fields, "operands", write_nodes(operands));
            finish_object(fields)
        },
        MathNodeContent::Or(operands) => {
            let mut fields = start_object(NodeKind::Or.as_tag(), id);
            push_field(&mut fields, "operands", write_nodes(operands));
            finish_object(fields)
        },
        MathNodeContent::Not(operand) => {
            let mut fields = start_object(NodeKind::Not.as_tag(), id);
            push_field(&mut fields, "operand", write_node(operand));
            finish_object(fields)
        },
        MathNodeContent::True => {
            let fields = start_object(NodeKind::True.as_tag(), id);
            finish_object(fields)
        },
        MathNodeContent::False => {
            let fields = start_object(NodeKind::False.as_tag(), id);
            finish_object(fields)
        },
    }
}

/// Writes an optional child held by value.
pub(crate) fn write_opt(slot: &Option<MathNode>) -> (value: InterchangeValue)
    ensures
        value@ == encode_opt(opt_view(*slot)),
    decreases slot, 2nat,
{
    match slot {
        Some(node) => write_node(node),
        None => InterchangeValue::Null,
    }
}

/// Writes an optional shared child.
pub(crate) fn write_shared_opt(slot: &Option<Arc<MathNode>>) -> (value: InterchangeValue)
    ensures
        value@ == encode_opt(opt_arc_view(*slot)),
    decreases slot, 2nat,
{
    match slot {
        Some(node) => write_node(node),
        None => InterchangeValue::Null,
    }
}

/// Writes some children as a list.
pub(crate) fn write_nodes(nodes: &Vec<MathNode>) -> (value: InterchangeValue)
    ensures
        value@ == Json::List(encode_all(nodes_view(*nodes))),
    decreases nodes, 2nat,
{
    let mut items: Vec<InterchangeValue> = Vec::new();
    let mut i: usize = 0;
    while i < nodes.len()
        invariant
            i <= nodes.len(),
            items.len() == i,
            forall|j: int| 0 <= j < i ==> (#[trigger] items[j])@ == encode(nodes[j]@),
        decreases nodes.len() - i,
    {
        items.push(write_node(&nodes[i]));
        i += 1;
    }
    assert(items_view(items@) =~= encode_all(nodes_view(*nodes)));
    finish_list(items)
}

/// Writes the rows of a matrix as a list of lists.
pub(crate) fn write_rows(rows: &Vec<Vec<MathNode>>) -> (value: InterchangeValue)
    ensures
        value@ == Json::List(encode_rows(rows_view(*rows))),
    decreases rows, 2nat,
{
    let mut items: Vec<InterchangeValue> = Vec::new();
    let mut i: usize = 0;
    while i < rows.len()
        invariant
            i <= rows.len(),
            items.len() == i,
            forall|j: int|
                0 <= j < i ==> (#[trigger] items[j])@ == Json::List(
                    encode_all(nodes_view(rows[j])),
                ),
        decreases rows.len() - i,
    {
        items.push(write_nodes(&rows[i]));
        i += 1;
    }
    assert(items_view(items@) =~= encode_rows(rows_view(*rows)));
    finish_list(items)
}

/// Writes one term of a chain.
fn write_term(operator: &str, term: InterchangeValue) -> (value: InterchangeValue)
    ensures
        value@ == term_object(operator@, term@),
{
    let mut fields = no_fields();
    push_field(&mut fields, "operator", text_value(operator));
    push_field(&mut fields, "term", term);
    finish_object(fields)
}

/// Writes the terms of a product chain as a list.
pub(crate) fn write_product_terms(terms: &Vec<(RefinedMulOrDivOperation, MathNode)>) -> (value:
    InterchangeValue)
    ensures
        value@ == Json::List(encode_product_terms(mul_terms_view(*terms))),
    decreases terms, 2nat,
{
    let mut items: Vec<InterchangeValue> = Vec::new();
    let mut i: usize = 0;
    while i < terms.len()
        invariant
            i <= terms.len(),
            items.len() == i,
            forall|j: int|
                0 <= j < i ==> (#[trigger] items[j])@ == term_object(
                    terms[j].0.tag(),
                    encode(terms[j].1@),
                ),
        decreases terms.len() - i,
    {
        assert(decreases_to!(*terms => terms[i as int]));
        let term = write_node(&terms[i].1);
        items.push(write_term(terms[i].0.as_tag(), term));
        i += 1;
    }
    assert(items_view(items@) =~= encode_product_terms(mul_terms_view(*terms)));
    finish_list(items)
}

/// Writes the terms of a sum chain as a list.
pub(crate) fn write_sum_terms(terms: &Vec<(RefinedAddOrSubOperator, MathNode)>) -> (value:
    InterchangeValue)
    ensures
        value@ == Json::List(encode_sum_terms(add_terms_view(*terms))),
    decreases terms, 2nat,
{
    let mut items: Vec<InterchangeValue> = Vec::new();
    let mut i: usize = 0;
    while i < terms.len()
        invariant
            i <= terms.len(),
            items.len() == i,
            forall|j: int|
                0 <= j < i ==> (#[trigger] items[j])@ == term_object(
                    terms[j].0.tag(),
                    encode(terms[j].1@),
                ),
        decreases terms.len() - i,
    {
        assert(decreases_to!(*terms => terms[i as int]));
        let term = write_node(&terms[i].1);
        items.push(write_term(terms[i].0.as_tag(), term));
        i += 1;
    }
    assert(items_view(items@) =~= encode_sum_terms(add_terms_view(*terms)));
    finish_list(items)
}

/// Writes the differentials of an integral as a list.
pub(crate) fn write_differentials(
    diffs: &Vec<(Arc<MathNode>, Option<Arc<MathNode>>, Option<Arc<MathNode>>)>,
) -> (value: InterchangeValue)
    ensures
        value@ == Json::List(encode_differentials(diffs_view(*diffs))),
    decreases diffs, 2nat,
{
    let mut items: Vec<InterchangeValue> = Vec::new();
    let mut i: usize = 0;
    while i < diffs.len()
        invariant
            i <= diffs.len(),
            items.len() == i,
            forall|j: int|
                0 <= j < i ==> (#[trigger] items[j])@ == differential_object(
                    encode((*diffs[j].0)@),
                    encode_opt(opt_arc_view(diffs[j].1)),
                    encode_opt(opt_arc_view(diffs[j].2)),
                ),
        decreases diffs.len() - i,
    {
        assert(decreases_to!(*diffs => diffs[i as int]));
        let mut fields = no_fields();
        push_field(&mut fields, "differential", write_node(&diffs[i].0));
        push_field(&mut fields, "lower_bound", write_shared_opt(&diffs[i].1));
        push_field(&mut fields, "upper_bound", write_shared_opt(&diffs[i].2));
        items.push(finish_object(fields));
        i += 1;
    }
    assert(items_view(items@) =~= encode_differentials(diffs_view(*diffs)));
    finish_list(items)
}

/// Writes an optional script group.
pub(crate) fn write_script(slot: &Option<ScriptNode>) -> (value: InterchangeValue)
    ensures
        value@ == encode_script(opt_script_view(*slot)),
    decreases slot, 2nat,
{
    proof {
        reveal_with_fuel(opt_script_view, 2);
    }
    match slot {
        Some(script) => {
            let mut fields = no_fields();
            push_field(&mut fields, "subscripts", write_nodes(&script.subscripts));
            push_field(&mut fields, "superscripts", write_nodes(&script.superscripts));
            finish_object(fields)
        },
        None => InterchangeValue::Null,
    }
}

/// Writes one mark.
fn write_mark(mark: &SpecialMiddleScriptContentTypeNode) -> (value: InterchangeValue)
    ensures
        value@ == encode_mark(*mark),
{
    match mark {
        SpecialMiddleScriptContentTypeNode::Hat => text_value("hat"),
        SpecialMiddleScriptContentTypeNode::Dot(count) => {
            let mut fields = no_fields();
            push_field(&mut fields, "dot", InterchangeValue::Number(*count as u64));
            finish_object(fields)
        },
        SpecialMiddleScriptContentTypeNode::Tilde => text_value("tilde"),
        SpecialMiddleScriptContentTypeNode::Bar => text_value("bar"),
    }
}

/// Writes some marks as a list.
fn write_mark_list(marks: &Vec<SpecialMiddleScriptContentTypeNode>) -> (value: InterchangeValue)
    ensures
        value@ == Json::List(encode_mark_list(marks@)),
{
    let mut items: Vec<InterchangeValue> = Vec::new();
    let mut i: usize = 0;
    while i < marks.len()
        invariant
            i <= marks.len(),
            items.len() == i,
            forall|j: int| 0 <= j < i ==> (#[trigger] items[j])@ == encode_mark(marks[j]),
        decreases marks.len() - i,
    {
        items.push(write_mark(&marks[i]));
        i += 1;
    }
    assert(items_view(items@) =~= encode_mark_list(marks@));
    finish_list(items)
}

/// Writes an optional group of marks.
fn write_marks(slot: &Option<SpecialMiddleScriptNode>) -> (value: InterchangeValue)
    ensures
        value@ == encode_marks(opt_mid_script_view(*slot)),
{
    match slot {
        Some(marks) => {
            let mut fields = no_fields();
            push_field(&mut fields, "super_script", write_mark_list(&marks.super_script));
            push_field(&mut fields, "sub_script", write_mark_list(&marks.sub_script));
            finish_object(fields)
        },
        None => InterchangeValue::Null,
    }
}

/// Writes an identifier.
pub(crate) fn write_identifier(identifier: &Identifier) -> (value: InterchangeValue)
    ensures
        value@ == encode_identifier(identifier_view(*identifier)),
    decreases identifier, 2nat,
{
    let mut fields = no_fields();
    push_field(&mut fields, "body", text_value(identifier.body.as_str()));
    push_field(&mut fields, "pre_script", write_script(&identifier.pre_script));
    push_field(&mut fields, "mid_script", write_marks(&identifier.mid_script));
    push_field(&mut fields, "post_script", write_script(&identifier.post_script));
    push_field(&mut fields, "primes", InterchangeValue::Number(identifier.primes as u64));
    push_field(&mut fields, "is_function", InterchangeValue::Bool(identifier.is_function));
    finish_object(fields)
}

} // verus!
