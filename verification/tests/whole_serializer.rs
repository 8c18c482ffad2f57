use std::sync::Arc;
use turn_render::interchange::InterchangeValue;
use turn_render::math_node::{
    BracketSize, BracketStyle, DifferentialStyle, DivSymbol, Identifier, MathNode,
    MathNodeContent, MulSymbol, QuantificationNode, RefinedAddOrSubOperator,
    RefinedMulOrDivOperation, RelationOperatorNode, ScriptNode,
    SpecialMiddleScriptContentTypeNode, SpecialMiddleScriptNode, UnaryRelationOperatorNode,
};
use turn_render::serializer::{deserialize, serialize};

fn node(id: &str, content: MathNodeContent) -> MathNode {
    MathNode { id: id.to_string(), content: Arc::new(content) }
}

fn leaf(id: &str) -> MathNode {
    MathNode::string(id.to_string())
}

fn shared(id: &str) -> Arc<MathNode> {
    Arc::new(leaf(id))
}

/// The `type` words of a value in the order in which a reader of the value as
/// a stream meets them.
fn type_words(value: &InterchangeValue, out: &mut Vec<String>) {
    match value {
        InterchangeValue::Object(fields) => {
            if let Some((key, InterchangeValue::Text(word))) = fields.first() {
                if key == "type" {
                    out.push(word.clone());
                }
            }
            for (_, entry) in fields {
                type_words(entry, out);
            }
        },
        InterchangeValue::List(items) => {
            for item in items {
                type_words(item, out);
            }
        },
        _ => {},
    }
}

fn words_of(tree: &MathNode) -> Vec<String> {
    let mut out = Vec::new();
    type_words(&serialize(tree).unwrap(), &mut out);
    out
}

/// The kinds of the nodes of a tree, parent first, children in their order.
fn kinds_in_order(tree: &MathNode, out: &mut Vec<String>) {
    out.push(tree.content.kind().as_tag().to_string());
    for child in tree.children() {
        kinds_in_order(child, out);
    }
}

fn decorated_identifier() -> Identifier {
    Identifier {
        body: "ψ".to_string(),
        pre_script: Some(ScriptNode {
            subscripts: vec![leaf("92")],
            superscripts: vec![leaf("238")],
        }),
        mid_script: Some(SpecialMiddleScriptNode {
            super_script: vec![
                SpecialMiddleScriptContentTypeNode::Dot(0),
                SpecialMiddleScriptContentTypeNode::Dot(usize::MAX),
            ],
            sub_script: vec![],
        }),
        post_script: Some(ScriptNode {
            subscripts: vec![node(
                "i+1",
                MathNodeContent::Additions {
                    terms: vec![
                        (RefinedAddOrSubOperator::NoOperator, leaf("i")),
                        (RefinedAddOrSubOperator::Addition, leaf("1")),
                    ],
                },
            )],
            superscripts: vec![],
        }),
        primes: 2,
        is_function: true,
    }
}

fn big_tree() -> MathNode {
    let integral = node(
        "int",
        MathNodeContent::Integration {
            integrand: Arc::new(node(
                "prod",
                MathNodeContent::Multiplications {
                    terms: vec![
                        (RefinedMulOrDivOperation::NoOperator, leaf("2")),
                        (RefinedMulOrDivOperation::Multiplication(MulSymbol::Dot), leaf("x")),
                        (RefinedMulOrDivOperation::Division(DivSymbol::Divide), leaf("y")),
                    ],
                },
            )),
            differentials: vec![
                (
                    Arc::new(node(
                        "dx",
                        MathNodeContent::Differential {
                            target: shared("x"),
                            order: shared("1"),
                            diff_style: DifferentialStyle::Total,
                        },
                    )),
                    Some(shared("0")),
                    None,
                ),
                (shared("dy"), None, Some(shared("∞"))),
            ],
            domain: None,
        },
    );
    let quantified = node(
        "forall",
        MathNodeContent::QuantifiedExpression {
            quantifier: QuantificationNode::UniqueExistential,
            variables: vec![node("psi", MathNodeContent::Identifier(decorated_identifier()))],
            domain: None,
            predicate: Some(Arc::new(node(
                "prime",
                MathNodeContent::UnaryRelationship {
                    subject: shared("p"),
                    predicate: UnaryRelationOperatorNode::Custom("is lucky".to_string()),
                },
            ))),
        },
    );
    let matrix = node(
        "m",
        MathNodeContent::Matrix {
            rows: vec![vec![leaf("a"), node("t", MathNodeContent::True)], vec![], vec![leaf("c")]],
        },
    );
    node(
        "root",
        MathNodeContent::Relationship {
            lhs: Arc::new(node(
                "lhs",
                MathNodeContent::Bracketed {
                    inner: Arc::new(integral),
                    style: BracketStyle::Invisible,
                    size: BracketSize::Sized(4),
                },
            )),
            rhs: Arc::new(node("rhs", MathNodeContent::And(vec![quantified, matrix]))),
            operator: RelationOperatorNode::Custom("≺".to_string()),
        },
    )
}

#[test]
fn writing_twice_gives_the_same_value() {
    let tree = big_tree();
    let first = serialize(&tree);
    let second = serialize(&tree);
    assert_eq!(first, second);
    assert_eq!(serialize(&tree.clone()), first);
    assert_eq!(serialize(&big_tree()), first);
}

#[test]
fn reading_what_was_written_gives_the_tree_back() {
    let tree = big_tree();
    let value = serialize(&tree).unwrap();
    let read = deserialize(&value).unwrap();
    assert_eq!(read, tree);
    assert_eq!(serialize(&read), Ok(value));
}

#[test]
fn different_trees_are_written_differently() {
    let a = node("n", MathNodeContent::Fraction { numerator: shared("a"), denominator: shared("b") });
    let b = node(
        "n",
        MathNodeContent::Division {
            numerator: shared("a"),
            denominator: shared("b"),
            style: turn_render::math_node::DivisionStyle::Fraction,
        },
    );
    assert_ne!(serialize(&a), serialize(&b));
    let text = node("n", MathNodeContent::Text("x".to_string()));
    let string = node("n", MathNodeContent::String("x".to_string()));
    assert_ne!(serialize(&text), serialize(&string));
    let other_id = node("m", MathNodeContent::String("x".to_string()));
    assert_ne!(serialize(&string), serialize(&other_id));
}

#[test]
fn relationship_emits_left_side_before_right_side() {
    let a = node("A", MathNodeContent::Abs { parameter: shared("x") });
    let b = node("B", MathNodeContent::Not(shared("y")));
    let tree = node(
        "r",
        MathNodeContent::Relationship {
            lhs: Arc::new(a),
            rhs: Arc::new(b),
            operator: RelationOperatorNode::Equal,
        },
    );
    assert_eq!(words_of(&tree), vec!["relationship", "abs", "string", "not", "string"]);
    let value = serialize(&tree).unwrap();
    let keys: Vec<&str> = match &value {
        InterchangeValue::Object(fields) => fields.iter().map(|(k, _)| k.as_str()).collect(),
        _ => unreachable!(),
    };
    assert_eq!(keys, vec!["type", "id", "lhs", "rhs", "operator"]);
}

#[test]
fn every_parent_comes_before_its_children_and_children_in_order() {
    let tree = big_tree();
    let mut expected = Vec::new();
    kinds_in_order(&tree, &mut expected);
    assert_eq!(words_of(&tree), expected);
    assert_eq!(
        expected,
        vec![
            "relationship",
            "bracketed",
            "integration",
            "multiplications",
            "string",
            "string",
            "string",
            "differential",
            "string",
            "string",
            "string",
            "string",
            "string",
            "and",
            "quantified_expression",
            "identifier",
            "string",
            "string",
            "additions",
            "string",
            "string",
            "unary_relationship",
            "string",
            "matrix",
            "string",
            "true",
            "string",
        ]
    );
}

#[test]
fn children_are_listed_in_declared_order() {
    let tree = node(
        "s",
        MathNodeContent::SumNotation {
            summand: shared("a"),
            variable: Some(leaf("i")),
            lower_limit: None,
            upper_limit: Some(shared("n")),
        },
    );
    let ids: Vec<&str> = tree.children().iter().map(|c| c.id.as_str()).collect();
    assert_eq!(ids, vec!["a", "i", "n"]);
    assert!(leaf("x").children().is_empty());
    let x = node("psi", MathNodeContent::Identifier(decorated_identifier()));
    let ids: Vec<&str> = x.children().iter().map(|c| c.id.as_str()).collect();
    assert_eq!(ids, vec!["92", "238", "i+1"]);
}

#[test]
fn a_shared_subtree_is_written_wherever_it_stands() {
    let common = Arc::new(node("c", MathNodeContent::Abs { parameter: shared("x") }));
    let tree = node(
        "p",
        MathNodeContent::Power { base: Arc::clone(&common), exponent: Arc::clone(&common) },
    );
    let value = serialize(&tree).unwrap();
    assert_eq!(value.get("base"), value.get("exponent"));
    assert_eq!(value.get("base"), Some(&serialize(&common).unwrap()));
    assert_eq!(deserialize(&value), Ok(tree));
}
