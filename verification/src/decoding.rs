//! From the interchange form back to an expression tree.
//!
//! Reading is strict: a value is read only if it has exactly the shape that
//! writing gives, field for field and in the same order. Anything else is
//! refused as a whole.

use crate::interchange::{
    bool_at, bool_field, fields_view, has_header, items_view, key_is, number_at, number_field,
    text_at, text_field, InterchangeValue, Json,
};
use crate::math_node::{
    BracketSize, BracketStyle, DifferentialStyle, DivisionStyle, Identifier, MathNode,
    MathNodeContent, QuantificationNode, RefinedAddOrSubOperator, RefinedMulOrDivOperation,
    RelationOperatorNode, ScientificNotationStyle, ScriptNode, SpecialMiddleScriptContentTypeNode,
    SpecialMiddleScriptNode, UnaryRelationOperatorNode,
};
use crate::model::{
    add_terms_view, diffs_view, identifier_view, mul_terms_view, node_view, nodes_view,
    opt_arc_view, opt_mid_script_view, opt_script_view, opt_view, rows_view, ContentModel,
    IdentifierModel, MidScriptModel, NodeModel, RelationOperatorModel, ScriptModel,
    UnaryRelationOperatorModel,
};
use crate::vocabulary::NodeKind;
use std::sync::Arc;
use vstd::prelude::*;

verus! {

/// The node that an interchange value stands for, if it stands for one.
pub open spec fn decode(value: Json) -> Option<NodeModel>
    decreases value, 0nat,
{
    match value {
        Json::Object(fields) => if has_header(fields) {
            match NodeKind::parse(fields[0].1->Text_0) {
                Some(kind) => match decode_content(kind, fields) {
                    Some(content) => Some(NodeModel { id: fields[1].1->Text_0, content }),
                    None => None,
                },
                None => None,
            }
        } else {
            None
        },
        _ => None,
    }
}

/// The content of kind `kind` that the fields after the header stand for, if
/// they are exactly the fields of that kind.
pub open spec fn decode_content(kind: NodeKind, fields: Seq<(Seq<char>, Json)>) -> Option<
    ContentModel,
>
    decreases fields, 0nat,
{
    match kind {
        NodeKind::Empty => if fields.len() == 2 {
            Some(ContentModel::Empty)
        } else {
            None
        },
        NodeKind::Text => if fields.len() == 3
            && fields[2].0 == "value"@ {
            match decode_text(fields[2].1) {
                Some(value) => Some(ContentModel::Text(value)),
                None => None,
            }
        } else {
            None
        },
        NodeKind::String => if fields.len() == 3
            && fields[2].0 == "value"@ {
            match decode_text(fields[2].1) {
                Some(value) => Some(ContentModel::String(value)),
                None => None,
            }
        } else {
            None
        },
        NodeKind::Bracketed => if fields.len() == 5
            && fields[2].0 == "inner"@
            && fields[3].0 == "style"@
            && fields[4].0 == "size"@ {
            match (
                decode(fields[2].1),
                BracketStyle::decode(fields[3].1),
                BracketSize::decode(fields[4].1),
            ) {
                (Some(inner), Some(style), Some(size)) => Some(
                    ContentModel::Bracketed { inner: Box::new(inner), style, size },
                ),
                _ => None,
            }
        } else {
            None
        },
        NodeKind::Matrix => if fields.len() == 3
            && fields[2].0 == "rows"@ {
            match decode_rows(fields[2].1) {
                Some(rows) => Some(ContentModel::Matrix { rows }),
                None => None,
            }
        } else {
            None
        },
        NodeKind::Multiplications => if fields.len() == 3
            && fields[2].0 == "terms"@ {
            match decode_product_terms(fields[2].1) {
                Some(terms) => Some(ContentModel::Multiplications { terms }),
                None => None,
            }
        } else {
            None
        },
        NodeKind::Additions => if fields.len() == 3
            && fields[2].0 == "terms"@ {
            match decode_sum_terms(fields[2].1) {
                Some(terms) => Some(ContentModel::Additions { terms }),
                None => None,
            }
        } else {
            None
        },
        NodeKind::Division => if fields.len() == 5
            && fields[2].0 == "numerator"@
            && fields[3].0 == "denominator"@
            && fields[4].0 == "style"@ {
            match (
                decode(fields[2].1),
                decode(fields[3].1),
                DivisionStyle::decode(fields[4].1),
            ) {
                (Some(numerator), Some(denominator), Some(style)) => Some(
                    ContentModel::Division {
                        numerator: Box::new(numerator),
                        denominator: Box::new(denominator),
                        style,
                    },
                ),
                _ => None,
            }
        } else {
            None
        },
        NodeKind::SumNotation => if fields.len() == 6
            && fields[2].0 == "summand"@
            && fields[3].0 == "variable"@
            && fields[4].0 == "lower_limit"@
            && fields[5].0 == "upper_limit"@ {
            match (
                decode(fields[2].1),
                decode_opt(fields[3].1),
                decode_opt(fields[4].1),
                decode_opt(fields[5].1),
            ) {
                (Some(summand), Some(variable), Some(lower_limit), Some(upper_limit)) => Some(
                    ContentModel::SumNotation {
                        summand: Box::new(summand),
                        variable,
                        lower_limit,
                        upper_limit,
                    },
                ),
                _ => None,
            }
        } else {
            None
        },
        NodeKind::ProductNotation => if fields.len() == 6
            && fields[2].0 == "multiplicand"@
            && fields[3].0 == "variable"@
            && fields[4].0 == "lower_limit"@
            && fields[5].0 == "upper_limit"@ {
            match (
                decode(fields[2].1),
                decode_opt(fields[3].1),
                decode_opt(fields[4].1),
                decode_opt(fields[5].1),
            ) {
                (Some(multiplicand), Some(variable), Some(lower_limit), Some(upper_limit)) => Some(
                    ContentModel::ProductNotation {
                        multiplicand: Box::new(multiplicand),
                        variable,
                        lower_limit,
                        upper_limit,
                    },
                ),
                _ => None,
            }
        } else {
            None
        },
        NodeKind::Fraction => if fields.len() == 4
            && fields[2].0 == "numerator"@
            && fields[3].0 == "denominator"@ {
            match (
                decode(fields[2].1),
                decode(fields[3].1),
            ) {
                (Some(numerator), Some(denominator)) => Some(
                    ContentModel::Fraction {
                        numerator: Box::new(numerator),
                        denominator: Box::new(denominator),
                    },
                ),
                _ => None,
            }
        } else {
            None
        },
        NodeKind::Power => if fields.len() == 4
            && fields[2].0 == "base"@
            && fields[3].0 == "exponent"@ {
            match (
                decode(fields[2].1),
                decode(fields[3].1),
            ) {
                (Some(base), Some(exponent)) => Some(
                    ContentModel::Power { base: Box::new(base), exponent: Box::new(exponent) },
                ),
                _ => None,
            }
        } else {
            None
        },
        NodeKind::UnaryPostfixOperation => if fields.len() == 4
            && fields[2].0 == "parameter"@
            && fields[3].0 == "operator"@ {
            match (
                decode(fields[2].1),
                decode(fields[3].1),
            ) {
                (Some(parameter), Some(operator)) => Some(
                    ContentModel::UnaryPostfixOperation {
                        parameter: Box::new(parameter),
                        operator: Box::new(operator),
                    },
                ),
                _ => None,
            }
        } else {
            None
        },
        NodeKind::UnaryPrefixOperation => if fields.len() == 4
            && fields[2].0 == "parameter"@
            && fields[3].0 == "operator"@ {
            match (
                decode(fields[2].1),
                decode(fields[3].1),
            ) {
                (Some(parameter), Some(operator)) => Some(
                    ContentModel::UnaryPrefixOperation {
                        parameter: Box::new(parameter),
                        operator: Box::new(operator),
                    },
                ),
                _ => None,
            }
        } else {
            None
        },
        NodeKind::Abs => if fields.len() == 3
            && fields[2].0 == "parameter"@ {
            match decode(fields[2].1) {
                Some(parameter) => Some(ContentModel::Abs { parameter: Box::new(parameter) }),
                None => None,
            }
        } else {
            None
        },
        NodeKind::FunctionCall => if fields.len() == 4
            && fields[2].0 == "name"@
            && fields[3].0 == "parameters"@ {
            match (
                decode(fields[2].1),
                decode_all(fields[3].1),
            ) {
                (Some(name), Some(parameters)) => Some(
                    ContentModel::FunctionCall { name: Box::new(name), parameters },
                ),
                _ => None,
            }
        } else {
            None
        },
        NodeKind::Quantity => if fields.len() == 5
            && fields[2].0 == "number"@
            && fields[3].0 == "scientific_notation"@
            && fields[4].0 == "unit"@ {
            match (
                decode_text(fields[2].1),
                decode_opt(fields[3].1),
                decode_opt(fields[4].1),
            ) {
                (Some(number), Some(scientific_notation), Some(unit)) => Some(
                    ContentModel::Quantity { number, scientific_notation, unit },
                ),
                _ => None,
            }
        } else {
            None
        },
        NodeKind::ScientificNotation => if fields.len() == 4
            && fields[2].0 == "magnitude"@
            && fields[3].0 == "style"@ {
            match (
                decode(fields[2].1),
                ScientificNotationStyle::decode(fields[3].1),
            ) {
                (Some(magnitude), Some(style)) => Some(
                    ContentModel::ScientificNotation { magnitude: Box::new(magnitude), style },
                ),
                _ => None,
            }
        } else {
            None
        },
        NodeKind::Identifier => if fields.len() == 3
            && fields[2].0 == "identifier"@ {
            match decode_identifier(fields[2].1) {
                Some(identifier) => Some(ContentModel::Identifier(identifier)),
                None => None,
            }
        } else {
            None
        },
        NodeKind::Unit => if fields.len() == 4
            && fields[2].0 == "original_form"@
            && fields[3].0 == "flattened_form"@ {
            match (
                decode(fields[2].1),
                decode(fields[3].1),
            ) {
                (Some(original_form), Some(flattened_form)) => Some(
                    ContentModel::Unit {
                        original_form: Box::new(original_form),
                        flattened_form: Box::new(flattened_form),
                    },
                ),
                _ => None,
            }
        } else {
            None
        },
        NodeKind::Relationship => if fields.len() == 5
            && fields[2].0 == "lhs"@
            && fields[3].0 == "rhs"@
            && fields[4].0 == "operator"@ {
            match (
                decode(fields[2].1),
                decode(fields[3].1),
                RelationOperatorModel::decode(fields[4].1),
            ) {
                (Some(lhs), Some(rhs), Some(operator)) => Some(
                    ContentModel::Relationship { lhs: Box::new(lhs), rhs: Box::new(rhs), operator },
                ),
                _ => None,
            }
        } else {
            None
        },
        NodeKind::UnaryRelationship => if fields.len() == 4
            && fields[2].0 == "subject"@
            && fields[3].0 == "predicate"@ {
            match (
                decode(fields[2].1),
                UnaryRelationOperatorModel::decode(fields[3].1),
            ) {
                (Some(subject), Some(predicate)) => Some(
                    ContentModel::UnaryRelationship { subject: Box::new(subject), predicate },
                ),
                _ => None,
            }
        } else {
            None
        },
        NodeKind::VariableDefinition => if fields.len() == 4
            && fields[2].0 == "name"@
            && fields[3].0 == "definition"@ {
            match (
                decode(fields[2].1),
                decode_opt(fields[3].1),
            ) {
                (Some(name), Some(definition)) => Some(
                    ContentModel::VariableDefinition { name: Box::new(name), definition },
                ),
                _ => None,
            }
        } else {
            None
        },
        NodeKind::FunctionDefinition => if fields.len() == 4
            && fields[2].0 == "custom_function"@
            && fields[3].0 == "definition"@ {
            match (
                decode(fields[2].1),
                decode_opt(fields[3].1),
            ) {
                (Some(custom_function), Some(definition)) => Some(
                    ContentModel::FunctionDefinition {
                        custom_function: Box::new(custom_function),
                        definition,
                    },
                ),
                _ => None,
            }
        } else {
            None
        },
        NodeKind::Limit => if fields.len() == 5
            && fields[2].0 == "function"@
            && fields[3].0 == "variable"@
            && fields[4].0 == "approaching_value"@ {
            match (
                decode(fields[2].1),
                decode_text(fields[3].1),
                decode(fields[4].1),
            ) {
                (Some(function), Some(variable), Some(approaching_value)) => Some(
                    ContentModel::Limit {
                        function: Box::new(function),
                        variable,
                        approaching_value: Box::new(approaching_value),
                    },
                ),
                _ => None,
            }
        } else {
            None
        },
        NodeKind::Differential => if fields.len() == 5
            && fields[2].0 == "target"@
            && fields[3].0 == "order"@
            && fields[4].0 == "diff_style"@ {
            match (
                decode(fields[2].1),
                decode(fields[3].1),
                DifferentialStyle::decode(fields[4].1),
            ) {
                (Some(target), Some(order), Some(diff_style)) => Some(
                    ContentModel::Differential {
                        target: Box::new(target),
                        order: Box::new(order),
                        diff_style,
                    },
                ),
                _ => None,
            }
        } else {
            None
        },
        NodeKind::Integration => if fields.len() == 5
            && fields[2].0 == "integrand"@
            && fields[3].0 == "differentials"@
            && fields[4].0 == "domain"@ {
            match (
                decode(fields[2].1),
                decode_differentials(fields[3].1),
                decode_opt(fields[4].1),
            ) {
                (Some(integrand), Some(differentials), Some(domain)) => Some(
                    ContentModel::Integration {
                        integrand: Box::new(integrand),
                        differentials,
                        domain,
                    },
                ),
                _ => None,
            }
        } else {
            None
        },
        NodeKind::QuantifiedExpression => if fields.len() == 6
            && fields[2].0 == "quantifier"@
            && fields[3].0 == "variables"@
            && fields[4].0 == "domain"@
            && fields[5].0 == "predicate"@ {
            match (
                QuantificationNode::decode(fields[2].1),
                decode_all(fields[3].1),
                decode_opt(fields[4].1),
                decode_opt(fields[5].1),
            ) {
                (Some(quantifier), Some(variables), Some(domain), Some(predicate)) => Some(
                    ContentModel::QuantifiedExpression { quantifier, variables, domain, predicate },
                ),
                _ => None,
            }
        } else {
            None
        },
        NodeKind::And => if fields.len() == 3
            && fields[2].0 == "operands"@ {
            match decode_all(fields[2].1) {
                Some(operands) => Some(ContentModel::And(operands)),
                None => None,
            }
        } else {
            None
        },
        NodeKind::Or => if fields.len() == 3
            && fields[2].0 == "operands"@ {
            match decode_all(fields[2].1) {
                Some(operands) => Some(ContentModel::Or(operands)),
                None => None,
            }
        } else {
            None
        },
        NodeKind::Not => if fields.len() == 3
            && fields[2].0 == "operand"@ {
            match decode(fields[2].1) {
                Some(operand) => Some(ContentModel::Not(Box::new(operand))),
                None => None,
            }
        } else {
            None
        },
        NodeKind::True => if fields.len() == 2 {
            Some(ContentModel::True)
        } else {
            None
        },
        NodeKind::False => if fields.len() == 2 {
            Some(ContentModel::False)
        } else {
            None
        },
    }
}

/// The text that a value holds, if it holds text.
pub open spec fn decode_text(value: Json) -> Option<Seq<char>> {
    match value {
        Json::Text(text) => Some(text),
        _ => None,
    }
}

/// The optional child that a value stands for: none for null, else a node.
pub open spec fn decode_opt(value: Json) -> Option<Option<Box<NodeModel>>>
    decreases value, 1nat,
{
    match value {
        Json::Null => Some(None),
        _ => match decode(value) {
            Some(node) => Some(Some(Box::new(node))),
            None => None,
        },
    }
}

/// The children that a list stands for, if every item stands for a node.
pub open spec fn decode_all(value: Json) -> Option<Seq<NodeModel>>
    decreases value, 1nat,
{
    match value {
        Json::List(items) => if forall|i: int|
            0 <= i < items.len() ==> decode(#[trigger] items[i]) is Some {
            Some(
                Seq::new(
                    items.len(),
                    |i: int|
                        if 0 <= i < items.len() {
                            decode(items[i])->Some_0
                        } else {
                            arbitrary()
                        },
                ),
            )
        } else {
            None
        },
        _ => None,
    }
}

/// The rows that a list of lists stands for.
pub open spec fn decode_rows(value: Json) -> Option<Seq<Seq<NodeModel>>>
    decreases value, 1nat,
{
    match value {
        Json::List(items) => if forall|i: int|
            0 <= i < items.len() ==> decode_all(#[trigger] items[i]) is Some {
            Some(
                Seq::new(
                    items.len(),
                    |i: int|
                        if 0 <= i < items.len() {
                            decode_all(items[i])->Some_0
                        } else {
                            arbitrary()
                        },
                ),
            )
        } else {
            None
        },
        _ => None,
    }
}

/// Whether a value has the shape of one term of a chain.
pub open spec fn term_shape(item: Json) -> bool {
    &&& item is Object
    &&& item->Object_0.len() == 2
    &&& item->Object_0[0].0 == "operator"@
    &&& item->Object_0[1].0 == "term"@
}

/// The term of a product chain that a value stands for.
pub open spec fn decode_product_term(item: Json) -> Option<(RefinedMulOrDivOperation, NodeModel)>
    decreases item, 1nat,
{
    if term_shape(item) {
        match (
            RefinedMulOrDivOperation::decode(item->Object_0[0].1),
            decode(item->Object_0[1].1),
        ) {
            (Some(operator), Some(term)) => Some((operator, term)),
            _ => None,
        }
    } else {
        None
    }
}

/// The terms of a product chain that a list stands for.
pub open spec fn decode_product_terms(value: Json) -> Option<
    Seq<(RefinedMulOrDivOperation, NodeModel)>,
>
    decreases value, 2nat,
{
    match value {
        Json::List(items) => if forall|i: int|
            0 <= i < items.len() ==> decode_product_term(#[trigger] items[i]) is Some {
            Some(
                Seq::new(
                    items.len(),
                    |i: int|
                        if 0 <= i < items.len() {
                            decode_product_term(items[i])->Some_0
                        } else {
                            arbitrary()
                        },
                ),
            )
        } else {
            None
        },
        _ => None,
    }
}

/// The term of a sum chain that a value stands for.
pub open spec fn decode_sum_term(item: Json) -> Option<(RefinedAddOrSubOperator, NodeModel)>
    decreases item, 1nat,
{
    if term_shape(item) {
        match (RefinedAddOrSubOperator::decode(item->Object_0[0].1), decode(item->Object_0[1].1)) {
            (Some(operator), Some(term)) => Some((operator, term)),
            _ => None,
        }
    } else {
        None
    }
}

/// The terms of a sum chain that a list stands for.
pub open spec fn decode_sum_terms(value: Json) -> Option<Seq<(RefinedAddOrSubOperator, NodeModel)>>
    decreases value, 2nat,
{
    match value {
        Json::List(items) => if forall|i: int|
            0 <= i < items.len() ==> decode_sum_term(#[trigger] items[i]) is Some {
            Some(
                Seq::new(
                    items.len(),
                    |i: int|
                        if 0 <= i < items.len() {
                            decode_sum_term(items[i])->Some_0
                        } else {
                            arbitrary()
                        },
                ),
            )
        } else {
            None
        },
        _ => None,
    }
}

/// Whether a value has the shape of one differential with its bounds.
pub open spec fn differential_shape(item: Json) -> bool {
    &&& item is Object
    &&& item->Object_0.len() == 3
    &&& item->Object_0[0].0 == "differential"@
    &&& item->Object_0[1].0 == "lower_bound"@
    &&& item->Object_0[2].0 == "upper_bound"@
}

/// The differential with its bounds that a value stands for.
pub open spec fn decode_differential(item: Json) -> Option<
    (NodeModel, Option<Box<NodeModel>>, Option<Box<NodeModel>>),
>
    decreases item, 2nat,
{
    if differential_shape(item) {
        match (
            decode(item->Object_0[0].1),
            decode_opt(item->Object_0[1].1),
            decode_opt(item->Object_0[2].1),
        ) {
            (Some(differential), Some(lower), Some(upper)) => Some((differential, lower, upper)),
            _ => None,
        }
    } else {
        None
    }
}

/// The differentials of an integral that a list stands for.
pub open spec fn decode_differentials(value: Json) -> Option<
    Seq<(NodeModel, Option<Box<NodeModel>>, Option<Box<NodeModel>>)>,
>
    decreases value, 3nat,
{
    match value {
        Json::List(items) => if forall|i: int|
            0 <= i < items.len() ==> decode_differential(#[trigger] items[i]) is Some {
            Some(
                Seq::new(
                    items.len(),
                    |i: int|
                        if 0 <= i < items.len() {
                            decode_differential(items[i])->Some_0
                        } else {
                            arbitrary()
                        },
                ),
            )
        } else {
            None
        },
        _ => None,
    }
}

/// The optional script group that a value stands for.
pub open spec fn decode_script(value: Json) -> Option<Option<ScriptModel>>
    decreases value, 2nat,
{
    match value {
        Json::Null => Some(None),
        Json::Object(fields) => if fields.len() == 2 && fields[0].0 == "subscripts"@ && fields[1].0
            == "superscripts"@ {
            match (decode_all(fields[0].1), decode_all(fields[1].1)) {
                (Some(subscripts), Some(superscripts)) => Some(
                    Some(ScriptModel { subscripts, superscripts }),
                ),
                _ => None,
            }
        } else {
            None
        },
        _ => None,
    }
}

/// The mark that a value stands for.
pub open spec fn decode_mark(value: Json) -> Option<SpecialMiddleScriptContentTypeNode> {
    match value {
        Json::Text(word) => if word == "hat"@ {
            Some(SpecialMiddleScriptContentTypeNode::Hat)
        } else if word == "tilde"@ {
            Some(SpecialMiddleScriptContentTypeNode::Tilde)
        } else if word == "bar"@ {
            Some(SpecialMiddleScriptContentTypeNode::Bar)
        } else {
            None
        },
        Json::Object(fields) => if fields.len() == 1 && number_field(fields, 0, "dot"@)
            && fields[0].1->Number_0 <= usize::MAX {
            Some(SpecialMiddleScriptContentTypeNode::Dot(fields[0].1->Number_0 as usize))
        } else {
            None
        },
        _ => None,
    }
}

/// The marks that a list stands for.
pub open spec fn decode_mark_list(value: Json) -> Option<Seq<SpecialMiddleScriptContentTypeNode>> {
    match value {
        Json::List(items) => if forall|i: int|
            0 <= i < items.len() ==> decode_mark(#[trigger] items[i]) is Some {
            Some(Seq::new(items.len(), |i: int| decode_mark(items[i])->Some_0))
        } else {
            None
        },
        _ => None,
    }
}

/// The optional group of marks that a value stands for.
pub open spec fn decode_marks(value: Json) -> Option<Option<MidScriptModel>> {
    match value {
        Json::Null => Some(None),
        Json::Object(fields) => if fields.len() == 2 && fields[0].0 == "super_script"@
            && fields[1].0 == "sub_script"@ {
            match (decode_mark_list(fields[0].1), decode_mark_list(fields[1].1)) {
                (Some(super_script), Some(sub_script)) => Some(
                    Some(MidScriptModel { super_script, sub_script }),
                ),
                _ => None,
            }
        } else {
            None
        },
        _ => None,
    }
}

/// Whether the fields are those of an identifier, by name and by the kind of
/// the two scalars among them.
pub open spec fn identifier_shape(fields: Seq<(Seq<char>, Json)>) -> bool {
    &&& fields.len() == 6
    &&& text_field(fields, 0, "body"@)
    &&& fields[1].0 == "pre_script"@
    &&& fields[2].0 == "mid_script"@
    &&& fields[3].0 == "post_script"@
    &&& number_field(fields, 4, "primes"@)
    &&& fields[4].1->Number_0 <= usize::MAX
    &&& bool_field(fields, 5, "is_function"@)
}

/// The identifier that a value stands for.
pub open spec fn decode_identifier(value: Json) -> Option<IdentifierModel>
    decreases value, 3nat,
{
    match value {
        Json::Object(fields) => if identifier_shape(fields) {
            match (
                decode_script(fields[1].1),
                decode_marks(fields[2].1),
                decode_script(fields[3].1),
            ) {
                (Some(pre_script), Some(mid_script), Some(post_script)) => Some(
                    IdentifierModel {
                        body: fields[0].1->Text_0,
                        pre_script,
                        mid_script,
                        post_script,
                        primes: fields[4].1->Number_0 as usize,
                        is_function: fields[5].1->Bool_0,
                    },
                ),
                _ => None,
            }
        } else {
            None
        },
        _ => None,
    }
}

/// Reads a node.
pub(crate) fn read_node(value: &InterchangeValue) -> (found: Option<MathNode>)
    ensures
        found is Some == decode(value@) is Some,
        found matches Some(node) ==> decode(value@) == Some(node@),
    decreases value, 0nat,
{
    proof {
        reveal_with_fuel(node_view, 2);
    }
    match value {
        InterchangeValue::Object(fields) => {
            assert(value@->Object_0 =~= fields_view(fields@));
            let word = text_at(fields, 0, "type")?;
            let id = text_at(fields, 1, "id")?;
            let kind = NodeKind::from_tag(word.as_str())?;
            match read_content(kind, fields) {
                Some(content) => Some(MathNode { id: id.clone(), content: Arc::new(content) }),
                None => None,
            }
        },
        _ => None,
    }
}

/// Reads the content of kind `kind` from the fields after the header.
fn read_content(kind: NodeKind, fields: &Vec<(String, InterchangeValue)>) -> (found: Option<
    MathNodeContent,
>)
    ensures
        found is Some == decode_content(kind, fields_view(fields@)) is Some,
        found matches Some(content) ==> decode_content(kind, fields_view(fields@)) == Some(
            content@,
        ),
    decreases fields, 0nat,
{
    match kind {
        NodeKind::Empty => if fields.len() == 2 {
            Some(MathNodeContent::Empty)
        } else {
            None
        },
        NodeKind::Text => {
            if fields.len() != 3
                || !key_is(fields, 2, "value") {
                return None;
            }
            let value = read_text(&fields[2].1)?;
            Some(MathNodeContent::Text(value))
        },
        NodeKind::String => {
            if fields.len() != 3
                || !key_is(fields, 2, "value") {
                return None;
            }
            let value = read_text(&fields[2].1)?;
            Some(MathNodeContent::String(value))
        },
        NodeKind::Bracketed => {
            if fields.len() != 5
                || !key_is(fields, 2, "inner")
                || !key_is(fields, 3, "style")
                || !key_is(fields, 4, "size") {
                return None;
            }
            let inner = read_node(&fields[2].1)?;
            let style = BracketStyle::from_interchange(&fields[3].1)?;
            let size = BracketSize::from_interchange(&fields[4].1)?;
            Some(MathNodeContent::Bracketed { inner: Arc::new(inner), style, size })
        },
        NodeKind::Matrix => {
            if fields.len() != 3
                || !key_is(fields, 2, "rows") {
                return None;
            }
            let rows = read_rows(&fields[2].1)?;
            Some(MathNodeContent::Matrix { rows })
        },
        NodeKind::Multiplications => {
            if fields.len() != 3
                || !key_is(fields, 2, "terms") {
                return None;
            }
            let terms = read_product_terms(&fields[2].1)?;
            Some(MathNodeContent::Multiplications { terms })
        },
        NodeKind::Additions => {
            if fields.len() != 3
                || !key_is(fields, 2, "terms") {
                return None;
            }
            let terms = read_sum_terms(&fields[2].1)?;
            Some(MathNodeContent::Additions { terms })
        },
        NodeKind::Division => {
            if fields.len() != 5
                || !key_is(fields, 2, "numerator")
                || !key_is(fields, 3, "denominator")
                || !key_is(fields, 4, "style") {
                return None;
            }
            let numerator = read_node(&fields[2].1)?;
            let denominator = read_node(&fields[3].1)?;
            let style = DivisionStyle::from_interchange(&fields[4].1)?;
            Some(
                MathNodeContent::Division {
                    numerator: Arc::new(numerator),
                    denominator: Arc::new(denominator),
                    style,
                },
            )
        },
        NodeKind::SumNotation => {
            if fields.len() != 6
                || !key_is(fields, 2, "summand")
                || !key_is(fields, 3, "variable")
                || !key_is(fields, 4, "lower_limit")
                || !key_is(fields, 5, "upper_limit") {
                return None;
            }
            let summand = read_node(&fields[2].1)?;
            let variable = read_opt(&fields[3].1)?;
            let lower_limit = read_shared_opt(&fields[4].1)?;
            let upper_limit = read_shared_opt(&fields[5].1)?;
            Some(
                MathNodeContent::SumNotation {
                    summand: Arc::new(summand),
                    variable,
                    lower_limit,
                    upper_limit,
                },
            )
        },
        NodeKind::ProductNotation => {
            if fields.len() != 6
                || !key_is(fields, 2, "multiplicand")
                || !key_is(fields, 3, "variable")
                || !key_is(fields, 4, "lower_limit")
                || !key_is(fields, 5, "upper_limit") {
                return None;
            }
            let multiplicand = read_node(&fields[2].1)?;
            let variable = read_opt(&fields[3].1)?;
            let lower_limit = read_shared_opt(&fields[4].1)?;
            let upper_limit = read_shared_opt(&fields[5].1)?;
            Some(
                MathNodeContent::ProductNotation {
                    multiplicand: Arc::new(multiplicand),
                    variable,
                    lower_limit,
                    upper_limit,
                },
            )
        },
        NodeKind::Fraction => {
            if fields.len() != 4
                || !key_is(fields, 2, "numerator")
                || !key_is(fields, 3, "denominator") {
                return None;
            }
            let numerator = read_node(&fields[2].1)?;
            let denominator = read_node(&fields[3].1)?;
            Some(
                MathNodeContent::Fraction {
                    numerator: Arc::new(numerator),
                    denominator: Arc::new(denominator),
                },
            )
        },
        NodeKind::Power => {
            if fields.len() != 4
                || !key_is(fields, 2, "base")
                || !key_is(fields, 3, "exponent") {
                return None;
            }
            let base = read_node(&fields[2].1)?;
            let exponent = read_node(&fields[3].1)?;
            Some(MathNodeContent::Power { base: Arc::new(base), exponent: Arc::new(exponent) })
        },
        NodeKind::UnaryPostfixOperation => {
            if fields.len() != 4
                || !key_is(fields, 2, "parameter")
                || !key_is(fields, 3, "operator") {
                return None;
            }
            let parameter = read_node(&fields[2].1)?;
            let operator = read_node(&fields[3].1)?;
            Some(
                MathNodeContent::UnaryPostfixOperation {
                    parameter: Arc::new(parameter),
                    operator: Arc::new(operator),
                },
            )
        },
        NodeKind::UnaryPrefixOperation => {
            if fields.len() != 4
                || !key_is(fields, 2, "parameter")
                || !key_is(fields, 3, "operator") {
                return None;
            }
            let parameter = read_node(&fields[2].1)?;
            let operator = read_node(&fields[3].1)?;
            Some(
                MathNodeContent::UnaryPrefixOperation {
                    parameter: Arc::new(parameter),
                    operator: Arc::new(operator),
                },
            )
        },
        NodeKind::Abs => {
            if fields.len() != 3
                || !key_is(fields, 2, "parameter") {
                return None;
            }
            let parameter = read_node(&fields[2].1)?;
            Some(MathNodeContent::Abs { parameter: Arc::new(parameter) })
        },
        NodeKind::FunctionCall => {
            if fields.len() != 4
                || !key_is(fields, 2, "name")
                || !key_is(fields, 3, "parameters") {
                return None;
            }
            let name = read_node(&fields[2].1)?;
            let parameters = read_nodes(&fields[3].1)?;
            Some(MathNodeContent::FunctionCall { name: Arc::new(name), parameters })
        },
        NodeKind::Quantity => {
            if fields.len() != 5
                || !key_is(fields, 2, "number")
                || !key_is(fields, 3, "scientific_notation")
                || !key_is(fields, 4, "unit") {
                return None;
            }
            let number = read_text(&fields[2].1)?;
            let scientific_notation = read_opt(&fields[3].1)?;
            let unit = read_opt(&fields[4].1)?;
            Some(MathNodeContent::Quantity { number, scientific_notation, unit })
        },
        NodeKind::ScientificNotation => {
            if fields.len() != 4
                || !key_is(fields, 2, "magnitude")
                || !key_is(fields, 3, "style") {
                return None;
            }
            let magnitude = read_node(&fields[2].1)?;
            let style = ScientificNotationStyle::from_interchange(&fields[3].1)?;
            Some(MathNodeContent::ScientificNotation { magnitude: Arc::new(magnitude), style })
        },
        NodeKind::Identifier => {
            if fields.len() != 3
                || !key_is(fields, 2, "identifier") {
                return None;
            }
            let identifier = read_identifier(&fields[2].1)?;
            Some(MathNodeContent::Identifier(identifier))
        },
        NodeKind::Unit => {
            if fields.len() != 4
                || !key_is(fields, 2, "original_form")
                || !key_is(fields, 3, "flattened_form") {
                return None;
            }
            let original_form = read_node(&fields[2].1)?;
            let flattened_form = read_node(&fields[3].1)?;
            Some(
                MathNodeContent::Unit {
                    original_form: Arc::new(original_form),
                    flattened_form: Arc::new(flattened_form),
                },
            )
        },
        NodeKind::Relationship => {
            if fields.len() != 5
                || !key_is(fields, 2, "lhs")
                || !key_is(fields, 3, "rhs")
                || !key_is(fields, 4, "operator") {
                return None;
            }
            let lhs = read_node(&fields[2].1)?;
            let rhs = read_node(&fields[3].1)?;
            let operator = RelationOperatorNode::from_interchange(&fields[4].1)?;
            Some(MathNodeContent::Relationship { lhs: Arc::new(lhs), rhs: Arc::new(rhs), operator })
        },
        NodeKind::UnaryRelationship => {
            if fields.len() != 4
                || !key_is(fields, 2, "subject")
                || !key_is(fields, 3, "predicate") {
                return None;
            }
            let subject = read_node(&fields[2].1)?;
            let predicate = UnaryRelationOperatorNode::from_interchange(&fields[3].1)?;
            Some(MathNodeContent::UnaryRelationship { subject: Arc::new(subject), predicate })
        },
        NodeKind::VariableDefinition => {
            if fields.len() != 4
                || !key_is(fields, 2, "name")
                || !key_is(fields, 3, "definition") {
                return None;
            }
            let name = read_node(&fields[2].1)?;
            let definition = read_opt(&fields[3].1)?;
            Some(MathNodeContent::VariableDefinition { name: Arc::new(name), definition })
        },
        NodeKind::FunctionDefinition => {
            if fields.len() != 4
                || !key_is(fields, 2, "custom_function")
                || !key_is(fields, 3, "definition") {
                return None;
            }
            let custom_function = read_node(&fields[2].1)?;
            let definition = read_opt(&fields[3].1)?;
            Some(
                MathNodeContent::FunctionDefinition {
                    custom_function: Arc::new(custom_function),
                    definition,
                },
            )
        },
        NodeKind::Limit => {
            if fields.len() != 5
                || !key_is(fields, 2, "function")
                || !key_is(fields, 3, "variable")
                || !key_is(fields, 4, "approaching_value") {
                return None;
            }
            let function = read_node(&fields[2].1)?;
            let variable = read_text(&fields[3].1)?;
            let approaching_value = read_node(&fields[4].1)?;
            Some(
                MathNodeContent::Limit {
                    function: Arc::new(function),
                    variable,
                    approaching_value: Arc::new(approaching_value),
                },
            )
        },
        NodeKind::Differential => {
            if fields.len() != 5
                || !key_is(fields, 2, "target")
                || !key_is(fields, 3, "order")
                || !key_is(fields, 4, "diff_style") {
                return None;
            }
            let target = read_node(&fields[2].1)?;
            let order = read_node(&fields[3].1)?;
            let diff_style = DifferentialStyle::from_interchange(&fields[4].1)?;
            Some(
                MathNodeContent::Differential {
                    target: Arc::new(target),
                    order: Arc::new(order),
                    diff_style,
                },
            )
        },
        NodeKind::Integration => {
            if fields.len() != 5
                || !key_is(fields, 2, "integrand")
                || !key_is(fields, 3, "differentials")
                || !key_is(fields, 4, "domain") {
                return None;
            }
            let integrand = read_node(&fields[2].1)?;
            let differentials = read_differentials(&fields[3].1)?;
            let domain = read_shared_opt(&fields[4].1)?;
            Some(
                MathNodeContent::Integration {
                    integrand: Arc::new(integrand),
                    differentials,
                    domain,
                },
            )
        },
        NodeKind::QuantifiedExpression => {
            if fields.len() != 6
                || !key_is(fields, 2, "quantifier")
                || !key_is(fields, 3, "variables")
                || !key_is(fields, 4, "domain")
                || !key_is(fields, 5, "predicate") {
                return None;
            }
            let quantifier = QuantificationNode::from_interchange(&fields[2].1)?;
            let variables = read_nodes(&fields[3].1)?;
            let domain = read_shared_opt(&fields[4].1)?;
            let predicate = read_shared_opt(&fields[5].1)?;
            Some(MathNodeContent::QuantifiedExpression { quantifier, variables, domain, predicate })
        },
        NodeKind::And => {
            if fields.len() != 3
                || !key_is(fields, 2, "operands") {
                return None;
            }
            let operands = read_nodes(&fields[2].1)?;
            Some(MathNodeContent::And(operands))
        },
        NodeKind::Or => {
            if fields.len() != 3
                || !key_is(fields, 2, "operands") {
                return None;
            }
            let operands = read_nodes(&fields[2].1)?;
            Some(MathNodeContent::Or(operands))
        },
        NodeKind::Not => {
            if fields.len() != 3
                || !key_is(fields, 2, "operand") {
                return None;
            }
            let operand = read_node(&fields[2].1)?;
            Some(MathNodeContent::Not(Arc::new(operand)))
        },
        NodeKind::True => if fields.len() == 2 {
            Some(MathNodeContent::True)
        } else {
            None
        },
        NodeKind::False => if fields.len() == 2 {
            Some(MathNodeContent::False)
        } else {
            None
        },
    }
}

/// Reads text.
fn read_text(value: &InterchangeValue) -> (found: Option<String>)
    ensures
        found is Some == decode_text(value@) is Some,
        found matches Some(text) ==> decode_text(value@) == Some(text@),
{
    match value {
        InterchangeValue::Text(text) => Some(text.clone()),
        _ => None,
    }
}

/// Reads an optional child held by value.
pub(crate) fn read_opt(value: &InterchangeValue) -> (found: Option<Option<MathNode>>)
    ensures
        found is Some == decode_opt(value@) is Some,
        found matches Some(slot) ==> decode_opt(value@) == Some(opt_view(slot)),
    decreases value, 1nat,
{
    match value {
        InterchangeValue::Null => Some(None),
        _ => match read_node(value) {
            Some(node) => Some(Some(node)),
            None => None,
        },
    }
}

/// Reads an optional shared child.
pub(crate) fn read_shared_opt(value: &InterchangeValue) -> (found: Option<Option<Arc<MathNode>>>)
    ensures
        found is Some == decode_opt(value@) is Some,
        found matches Some(slot) ==> decode_opt(value@) == Some(opt_arc_view(slot)),
    decreases value, 1nat,
{
    match value {
        InterchangeValue::Null => Some(None),
        _ => match read_node(value) {
            Some(node) => Some(Some(Arc::new(node))),
            None => None,
        },
    }
}

/// Reads some children from a list.
pub(crate) fn read_nodes(value: &InterchangeValue) -> (found: Option<Vec<MathNode>>)
    ensures
        found is Some == decode_all(value@) is Some,
        found matches Some(nodes) ==> decode_all(value@) == Some(nodes_view(nodes)),
    decreases value, 1nat,
{
    match value {
        InterchangeValue::List(items) => {
            let ghost all = value@->List_0;
            assert(all =~= items_view(items@));
            let mut nodes: Vec<MathNode> = Vec::new();
            let mut i: usize = 0;
            while i < items.len()
                invariant
                    i <= items.len(),
                    nodes.len() == i,
                    *value is List && value->List_0 == *items,
                    value@ == Json::List(all),
                    all == items_view(items@),
                    forall|j: int|
                        #![trigger all[j]]
                        #![trigger nodes[j]]
                        0 <= j < i ==> decode(all[j]) == Some(nodes[j]@),
                decreases items.len() - i,
            {
                assert(decreases_to!(*items => items[i as int]));
                match read_node(&items[i]) {
                    Some(node) => {
                        nodes.push(node);
                    },
                    None => {
                        assert(decode(all[i as int]) is None);
                        return None;
                    },
                }
                i += 1;
            }
            assert(decode_all(value@)->Some_0 =~= nodes_view(nodes));
            Some(nodes)
        },
        _ => None,
    }
}

/// Reads the rows of a matrix from a list of lists.
pub(crate) fn read_rows(value: &InterchangeValue) -> (found: Option<Vec<Vec<MathNode>>>)
    ensures
        found is Some == decode_rows(value@) is Some,
        found matches Some(rows) ==> decode_rows(value@) == Some(rows_view(rows)),
    decreases value, 1nat,
{
    match value {
        InterchangeValue::List(items) => {
            let ghost all = value@->List_0;
            assert(all =~= items_view(items@));
            let mut rows: Vec<Vec<MathNode>> = Vec::new();
            let mut i: usize = 0;
            while i < items.len()
                invariant
                    i <= items.len(),
                    rows.len() == i,
                    *value is List && value->List_0 == *items,
                    value@ == Json::List(all),
                    all == items_view(items@),
                    forall|j: int|
                        #![trigger all[j]]
                        #![trigger rows[j]]
                        0 <= j < i ==> decode_all(all[j]) == Some(nodes_view(rows[j])),
                decreases items.len() - i,
            {
                assert(decreases_to!(*items => items[i as int]));
                match read_nodes(&items[i]) {
                    Some(row) => {
                        rows.push(row);
                    },
                    None => {
                        assert(decode_all(all[i as int]) is None);
                        return None;
                    },
                }
                i += 1;
            }
            assert(decode_rows(value@)->Some_0 =~= rows_view(rows));
            Some(rows)
        },
        _ => None,
    }
}

/// Reads one term of a product chain.
fn read_product_term(item: &InterchangeValue) -> (found: Option<
    (RefinedMulOrDivOperation, MathNode),
>)
    ensures
        found is Some == decode_product_term(item@) is Some,
        found matches Some(term) ==> decode_product_term(item@) == Some((term.0, term.1@)),
    decreases item, 1nat,
{
    match item {
        InterchangeValue::Object(fields) => {
            assert(item@->Object_0 =~= fields_view(fields@));
            if fields.len() != 2 || !key_is(fields, 0, "operator") || !key_is(fields, 1, "term") {
                return None;
            }
            match (
                RefinedMulOrDivOperation::from_interchange(&fields[0].1),
                read_node(&fields[1].1),
            ) {
                (Some(operator), Some(term)) => Some((operator, term)),
                _ => None,
            }
        },
        _ => None,
    }
}

/// Reads the terms of a product chain from a list.
pub(crate) fn read_product_terms(value: &InterchangeValue) -> (found: Option<
    Vec<(RefinedMulOrDivOperation, MathNode)>,
>)
    ensures
        found is Some == decode_product_terms(value@) is Some,
        found matches Some(terms) ==> decode_product_terms(value@) == Some(mul_terms_view(terms)),
    decreases value, 2nat,
{
    match value {
        InterchangeValue::List(items) => {
            let ghost all = value@->List_0;
            assert(all =~= items_view(items@));
            let mut terms: Vec<(RefinedMulOrDivOperation, MathNode)> = Vec::new();
            let mut i: usize = 0;
            while i < items.len()
                invariant
                    i <= items.len(),
                    terms.len() == i,
                    *value is List && value->List_0 == *items,
                    value@ == Json::List(all),
                    all == items_view(items@),
                    forall|j: int|
                        #![trigger all[j]]
                        #![trigger terms[j]]
                        0 <= j < i ==> decode_product_term(all[j]) == Some(
                            (terms[j].0, terms[j].1@),
                        ),
                decreases items.len() - i,
            {
                assert(decreases_to!(*items => items[i as int]));
                match read_product_term(&items[i]) {
                    Some(term) => {
                        terms.push(term);
                    },
                    None => {
                        assert(decode_product_term(all[i as int]) is None);
                        return None;
                    },
                }
                i += 1;
            }
            assert(decode_product_terms(value@)->Some_0 =~= mul_terms_view(terms));
            Some(terms)
        },
        _ => None,
    }
}

/// Reads one term of a sum chain.
fn read_sum_term(item: &InterchangeValue) -> (found: Option<(RefinedAddOrSubOperator, MathNode)>)
    ensures
        found is Some == decode_sum_term(item@) is Some,
        found matches Some(term) ==> decode_sum_term(item@) == Some((term.0, term.1@)),
    decreases item, 1nat,
{
    match item {
        InterchangeValue::Object(fields) => {
            assert(item@->Object_0 =~= fields_view(fields@));
            if fields.len() != 2 || !key_is(fields, 0, "operator") || !key_is(fields, 1, "term") {
                return None;
            }
            match (
                RefinedAddOrSubOperator::from_interchange(&fields[0].1),
                read_node(&fields[1].1),
            ) {
                (Some(operator), Some(term)) => Some((operator, term)),
                _ => None,
            }
        },
        _ => None,
    }
}

/// Reads the terms of a sum chain from a list.
pub(crate) fn read_sum_terms(value: &InterchangeValue) -> (found: Option<
    Vec<(RefinedAddOrSubOperator, MathNode)>,
>)
    ensures
        found is Some == decode_sum_terms(value@) is Some,
        found matches Some(terms) ==> decode_sum_terms(value@) == Some(add_terms_view(terms)),
    decreases value, 2nat,
{
    match value {
        InterchangeValue::List(items) => {
            let ghost all = value@->List_0;
            assert(all =~= items_view(items@));
            let mut terms: Vec<(RefinedAddOrSubOperator, MathNode)> = Vec::new();
            let mut i: usize = 0;
            while i < items.len()
                invariant
                    i <= items.len(),
                    terms.len() == i,
                    *value is List && value->List_0 == *items,
                    value@ == Json::List(all),
                    all == items_view(items@),
                    forall|j: int|
                        #![trigger all[j]]
                        #![trigger terms[j]]
                        0 <= j < i ==> decode_sum_term(all[j]) == Some((terms[j].0, terms[j].1@)),
                decreases items.len() - i,
            {
                assert(decreases_to!(*items => items[i as int]));
                match read_sum_term(&items[i]) {
                    Some(term) => {
                        terms.push(term);
                    },
                    None => {
                        assert(decode_sum_term(all[i as int]) is None);
                        return None;
                    },
                }
                i += 1;
            }
            assert(decode_sum_terms(value@)->Some_0 =~= add_terms_view(terms));
            Some(terms)
        },
        _ => None,
    }
}

/// Reads one differential with its bounds.
fn read_differential(item: &InterchangeValue) -> (found: Option<
    (Arc<MathNode>, Option<Arc<MathNode>>, Option<Arc<MathNode>>),
>)
    ensures
        found is Some == decode_differential(item@) is Some,
        found matches Some(d) ==> decode_differential(item@) == Some(
            ((*d.0)@, opt_arc_view(d.1), opt_arc_view(d.2)),
        ),
    decreases item, 2nat,
{
    match item {
        InterchangeValue::Object(fields) => {
            assert(item@->Object_0 =~= fields_view(fields@));
            if fields.len() != 3 || !key_is(fields, 0, "differential") || !key_is(
                fields,
                1,
                "lower_bound",
            ) || !key_is(fields, 2, "upper_bound") {
                return None;
            }
            match (
                read_node(&fields[0].1),
                read_shared_opt(&fields[1].1),
                read_shared_opt(&fields[2].1),
            ) {
                (Some(differential), Some(lower), Some(upper)) => Some(
                    (Arc::new(differential), lower, upper),
                ),
                _ => None,
            }
        },
        _ => None,
    }
}

/// Reads the differentials of an integral from a list.
pub(crate) fn read_differentials(value: &InterchangeValue) -> (found: Option<
    Vec<(Arc<MathNode>, Option<Arc<MathNode>>, Option<Arc<MathNode>>)>,
>)
    ensures
        found is Some == decode_differentials(value@) is Some,
        found matches Some(diffs) ==> decode_differentials(value@) == Some(diffs_view(diffs)),
    decreases value, 3nat,
{
    match value {
        InterchangeValue::List(items) => {
            let ghost all = value@->List_0;
            assert(all =~= items_view(items@));
            let mut diffs: Vec<(Arc<MathNode>, Option<Arc<MathNode>>, Option<Arc<MathNode>>)> =
                Vec::new();
            let mut i: usize = 0;
            while i < items.len()
                invariant
                    i <= items.len(),
                    diffs.len() == i,
                    *value is List && value->List_0 == *items,
                    value@ == Json::List(all),
                    all == items_view(items@),
                    forall|j: int|
                        #![trigger all[j]]
                        #![trigger diffs[j]]
                        0 <= j < i ==> decode_differential(all[j]) == Some(
                            ((*diffs[j].0)@, opt_arc_view(diffs[j].1), opt_arc_view(diffs[j].2)),
                        ),
                decreases items.len() - i,
            {
                assert(decreases_to!(*items => items[i as int]));
                match read_differential(&items[i]) {
                    Some(d) => {
                        diffs.push(d);
                    },
                    None => {
                        assert(decode_differential(all[i as int]) is None);
                        return None;
                    },
                }
                i += 1;
            }
            assert(decode_differentials(value@)->Some_0 =~= diffs_view(diffs));
            Some(diffs)
        },
        _ => None,
    }
}

/// Reads an optional script group.
pub(crate) fn read_script(value: &InterchangeValue) -> (found: Option<Option<ScriptNode>>)
    ensures
        found is Some == decode_script(value@) is Some,
        found matches Some(slot) ==> decode_script(value@) == Some(opt_script_view(slot)),
    decreases value, 2nat,
{
    proof {
        reveal_with_fuel(opt_script_view, 2);
    }
    match value {
        InterchangeValue::Null => Some(None),
        InterchangeValue::Object(fields) => {
            assert(value@->Object_0 =~= fields_view(fields@));
            if fields.len() != 2 || !key_is(fields, 0, "subscripts") || !key_is(
                fields,
                1,
                "superscripts",
            ) {
                return None;
            }
            match (read_nodes(&fields[0].1), read_nodes(&fields[1].1)) {
                (Some(subscripts), Some(superscripts)) => Some(
                    Some(ScriptNode { subscripts, superscripts }),
                ),
                _ => None,
            }
        },
        _ => None,
    }
}

/// Reads one mark.
fn read_mark(value: &InterchangeValue) -> (found: Option<SpecialMiddleScriptContentTypeNode>)
    ensures
        found == decode_mark(value@),
{
    match value {
        InterchangeValue::Text(word) => {
            if crate::interchange::str_eq(word.as_str(), "hat") {
                Some(SpecialMiddleScriptContentTypeNode::Hat)
            } else if crate::interchange::str_eq(word.as_str(), "tilde") {
                Some(SpecialMiddleScriptContentTypeNode::Tilde)
            } else if crate::interchange::str_eq(word.as_str(), "bar") {
                Some(SpecialMiddleScriptContentTypeNode::Bar)
            } else {
                None
            }
        },
        InterchangeValue::Object(fields) => {
            assert(value@->Object_0 =~= fields_view(fields@));
            if fields.len() != 1 {
                return None;
            }
            match number_at(fields, 0, "dot") {
                Some(count) => if count <= usize::MAX as u64 {
                    Some(SpecialMiddleScriptContentTypeNode::Dot(count as usize))
                } else {
                    None
                },
                None => None,
            }
        },
        _ => None,
    }
}

/// Reads some marks from a list.
fn read_mark_list(value: &InterchangeValue) -> (found: Option<
    Vec<SpecialMiddleScriptContentTypeNode>,
>)
    ensures
        found is Some == decode_mark_list(value@) is Some,
        found matches Some(marks) ==> decode_mark_list(value@) == Some(marks@),
{
    match value {
        InterchangeValue::List(items) => {
            let ghost all = value@->List_0;
            assert(all =~= items_view(items@));
            let mut marks: Vec<SpecialMiddleScriptContentTypeNode> = Vec::new();
            let mut i: usize = 0;
            while i < items.len()
                invariant
                    i <= items.len(),
                    marks.len() == i,
                    value@ == Json::List(all),
                    all == items_view(items@),
                    forall|j: int|
                        #![trigger all[j]]
                        #![trigger marks[j]]
                        0 <= j < i ==> decode_mark(all[j]) == Some(marks[j]),
                decreases items.len() - i,
            {
                match read_mark(&items[i]) {
                    Some(mark) => {
                        marks.push(mark);
                    },
                    None => {
                        assert(decode_mark(all[i as int]) is None);
                        return None;
                    },
                }
                i += 1;
            }
            assert(decode_mark_list(value@)->Some_0 =~= marks@);
            Some(marks)
        },
        _ => None,
    }
}

/// Reads an optional group of marks.
fn read_marks(value: &InterchangeValue) -> (found: Option<Option<SpecialMiddleScriptNode>>)
    ensures
        found is Some == decode_marks(value@) is Some,
        found matches Some(slot) ==> decode_marks(value@) == Some(opt_mid_script_view(slot)),
{
    match value {
        InterchangeValue::Null => Some(None),
        InterchangeValue::Object(fields) => {
            assert(value@->Object_0 =~= fields_view(fields@));
            if fields.len() != 2 || !key_is(fields, 0, "super_script") || !key_is(
                fields,
                1,
                "sub_script",
            ) {
                return None;
            }
            match (read_mark_list(&fields[0].1), read_mark_list(&fields[1].1)) {
                (Some(super_script), Some(sub_script)) => Some(
                    Some(SpecialMiddleScriptNode { super_script, sub_script }),
                ),
                _ => None,
            }
        },
        _ => None,
    }
}

/// Reads an identifier.
pub(crate) fn read_identifier(value: &InterchangeValue) -> (found: Option<Identifier>)
    ensures
        found is Some == decode_identifier(value@) is Some,
        found matches Some(identifier) ==> decode_identifier(value@) == Some(
            identifier_view(identifier),
        ),
    decreases value, 3nat,
{
    match value {
        InterchangeValue::Object(fields) => {
            assert(value@->Object_0 =~= fields_view(fields@));
            if fields.len() != 6 || !key_is(fields, 1, "pre_script") || !key_is(
                fields,
                2,
                "mid_script",
            ) || !key_is(fields, 3, "post_script") {
                return None;
            }
            let body = text_at(fields, 0, "body")?;
            let primes = number_at(fields, 4, "primes")?;
            if primes > usize::MAX as u64 {
                return None;
            }
            let is_function = bool_at(fields, 5, "is_function")?;
            match (read_script(&fields[1].1), read_marks(&fields[2].1), read_script(&fields[3].1)) {
                (Some(pre_script), Some(mid_script), Some(post_script)) => Some(
                    Identifier {
                        body: body.clone(),
                        pre_script,
                        mid_script,
                        post_script,
                        primes: primes as usize,
                        is_function,
                    },
                ),
                _ => None,
            }
        },
        _ => None,
    }
}

} // verus!
