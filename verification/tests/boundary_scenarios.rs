use std::sync::Arc;
use turn_render::errors::{TreeConstraint, TreeError, Violation};
use turn_render::interchange::InterchangeValue;
use turn_render::math_node::{
    BracketSize, BracketStyle, Identifier, MathNode, MathNodeContent, RefinedAddOrSubOperator,
};
use turn_render::serializer::{serialize, DEFAULT_MAX_DEPTH};

fn text(s: &str) -> InterchangeValue {
    InterchangeValue::Text(s.to_string())
}

fn node(id: &str, content: MathNodeContent) -> MathNode {
    MathNode { id: id.to_string(), content: Arc::new(content) }
}

fn ident(name: &str) -> MathNode {
    MathNode::identifier(Identifier::new_simple(name.to_string()))
}

#[test]
fn quantity_without_unit_has_explicit_null() {
    let value = serialize(&node(
        "q",
        MathNodeContent::Quantity {
            number: "3.14".to_string(),
            scientific_notation: None,
            unit: None,
        },
    ))
    .unwrap();
    assert_eq!(value.get("type"), Some(&text("quantity")));
    assert_eq!(value.get("number"), Some(&text("3.14")));
    assert_eq!(value.get("unit"), Some(&InterchangeValue::Null));
    assert_eq!(value.get("scientific_notation"), Some(&InterchangeValue::Null));
}

#[test]
fn bracketed_identifier_round_normal() {
    let value = serialize(&node(
        "b",
        MathNodeContent::Bracketed {
            inner: Arc::new(ident("x")),
            style: BracketStyle::Round,
            size: BracketSize::Normal,
        },
    ))
    .unwrap();
    assert_eq!(value.get("type"), Some(&text("bracketed")));
    assert_eq!(value.get("style"), Some(&text("round")));
    assert_eq!(value.get("size"), Some(&text("normal")));
}

#[test]
fn sized_two_is_written_sized_2_wherever_it_stands() {
    let inner = node(
        "in",
        MathNodeContent::Bracketed {
            inner: Arc::new(ident("x")),
            style: BracketStyle::Curly,
            size: BracketSize::Sized(2),
        },
    );
    let outer = node("out", MathNodeContent::Not(Arc::new(inner)));
    let value = serialize(&outer).unwrap();
    let operand = value.get("operand").unwrap();
    assert_eq!(operand.get("size"), Some(&text("sized_2")));
    assert_eq!(BracketSize::Sized(2).to_tag(), "sized_2");
}

#[test]
fn additions_second_term_carries_minus() {
    let value = serialize(&node(
        "s",
        MathNodeContent::Additions {
            terms: vec![
                (RefinedAddOrSubOperator::NoOperator, ident("a")),
                (RefinedAddOrSubOperator::Subtraction, ident("b")),
            ],
        },
    ))
    .unwrap();
    let terms = match value.get("terms") {
        Some(InterchangeValue::List(terms)) => terms,
        other => panic!("terms are not a list: {other:?}"),
    };
    assert_eq!(terms.len(), 2);
    assert_eq!(terms[0].get("operator"), Some(&text("none")));
    assert_eq!(terms[1].get("operator"), Some(&text("minus")));
    assert_eq!(terms[1].get("term"), Some(&serialize(&ident("b")).unwrap()));
}

#[test]
fn variable_definition_named_by_a_quantity_is_malformed() {
    let name = node(
        "n",
        MathNodeContent::Quantity { number: "1".to_string(), scientific_notation: None, unit: None },
    );
    let tree = node(
        "def-7",
        MathNodeContent::VariableDefinition { name: Arc::new(name), definition: None },
    );
    assert_eq!(
        serialize(&tree),
        Err(TreeError::MalformedTree(Violation {
            node_id: "def-7".to_string(),
            constraint: TreeConstraint::NameIsIdentifier,
        }))
    );
}

#[test]
fn ragged_matrix_is_flagged_and_written_whole() {
    let s = |t: &str| MathNode::string(t.to_string());
    let tree = node(
        "m",
        MathNodeContent::Matrix { rows: vec![vec![s("a"), s("b")], vec![s("c")]] },
    );
    assert_eq!(
        tree.validate(DEFAULT_MAX_DEPTH),
        Ok(vec![Violation {
            node_id: "m".to_string(),
            constraint: TreeConstraint::MatrixIsRectangular,
        }])
    );
    let value = serialize(&tree).unwrap();
    let rows = match value.get("rows") {
        Some(InterchangeValue::List(rows)) => rows,
        other => panic!("rows are not a list: {other:?}"),
    };
    assert_eq!(rows.len(), 2);
    match (&rows[0], &rows[1]) {
        (InterchangeValue::List(first), InterchangeValue::List(second)) => {
            assert_eq!(first.len(), 2);
            assert_eq!(second.len(), 1);
            assert_eq!(second[0], serialize(&s("c")).unwrap());
        },
        other => panic!("rows are not lists: {other:?}"),
    }
}
