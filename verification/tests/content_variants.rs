use std::sync::Arc;
use turn_render::interchange::InterchangeValue;
use turn_render::math_node::{
    BracketSize, BracketStyle, DifferentialStyle, DivSymbol, DivisionStyle, Identifier, MathNode,
    MathNodeContent, MulSymbol, QuantificationNode, RefinedAddOrSubOperator,
    RefinedMulOrDivOperation, RelationOperatorNode, ScientificNotationStyle,
    UnaryRelationOperatorNode,
};
use turn_render::serializer::{deserialize, serialize};

fn text(s: &str) -> InterchangeValue {
    InterchangeValue::Text(s.to_string())
}

fn obj(fields: Vec<(&str, InterchangeValue)>) -> InterchangeValue {
    InterchangeValue::Object(fields.into_iter().map(|(k, v)| (k.to_string(), v)).collect())
}

fn list(items: Vec<InterchangeValue>) -> InterchangeValue {
    InterchangeValue::List(items)
}

fn node(id: &str, content: MathNodeContent) -> MathNode {
    MathNode { id: id.to_string(), content: Arc::new(content) }
}

fn leaf(id: &str) -> MathNode {
    node(id, MathNodeContent::String(id.to_string()))
}

fn leaf_value(id: &str) -> InterchangeValue {
    obj(vec![("type", text("string")), ("id", text(id)), ("value", text(id))])
}

fn shared(id: &str) -> Arc<MathNode> {
    Arc::new(leaf(id))
}

/// Writes `tree`, compares with `expected`, then reads the value back and
/// compares with `tree`.
fn check(tree: MathNode, expected: InterchangeValue) {
    let written = serialize(&tree);
    assert_eq!(written, Ok(expected));
    let read = deserialize(&written.unwrap());
    assert_eq!(read, Ok(tree));
}

#[test]
fn empty_is_written_as_bare_header() {
    check(node("e", MathNodeContent::Empty), obj(vec![("type", text("empty")), ("id", text("e"))]));
}

#[test]
fn text_keeps_its_prose() {
    check(
        node("t", MathNodeContent::Text("let us assume".to_string())),
        obj(vec![("type", text("text")), ("id", text("t")), ("value", text("let us assume"))]),
    );
}

#[test]
fn string_keeps_its_token() {
    check(
        node("s", MathNodeContent::String("sin".to_string())),
        obj(vec![("type", text("string")), ("id", text("s")), ("value", text("sin"))]),
    );
}

#[test]
fn bracketed_has_inner_style_and_size() {
    check(
        node(
            "b",
            MathNodeContent::Bracketed {
                inner: shared("x"),
                style: BracketStyle::Square,
                size: BracketSize::Auto,
            },
        ),
        obj(vec![
            ("type", text("bracketed")),
            ("id", text("b")),
            ("inner", leaf_value("x")),
            ("style", text("square")),
            ("size", text("auto")),
        ]),
    );
}

#[test]
fn matrix_is_a_list_of_rows() {
    check(
        node(
            "m",
            MathNodeContent::Matrix { rows: vec![vec![leaf("a"), leaf("b")], vec![leaf("c"), leaf("d")]] },
        ),
        obj(vec![
            ("type", text("matrix")),
            ("id", text("m")),
            (
                "rows",
                list(vec![
                    list(vec![leaf_value("a"), leaf_value("b")]),
                    list(vec![leaf_value("c"), leaf_value("d")]),
                ]),
            ),
        ]),
    );
}

#[test]
fn matrix_without_rows_is_an_empty_list() {
    check(
        node("m", MathNodeContent::Matrix { rows: vec![] }),
        obj(vec![("type", text("matrix")), ("id", text("m")), ("rows", list(vec![]))]),
    );
}

#[test]
fn multiplications_carry_the_word_of_each_operator() {
    check(
        node(
            "p",
            MathNodeContent::Multiplications {
                terms: vec![
                    (RefinedMulOrDivOperation::NoOperator, leaf("a")),
                    (RefinedMulOrDivOperation::Multiplication(MulSymbol::Times), leaf("b")),
                    (RefinedMulOrDivOperation::Division(DivSymbol::Slash), leaf("c")),
                ],
            },
        ),
        obj(vec![
            ("type", text("multiplications")),
            ("id", text("p")),
            (
                "terms",
                list(vec![
                    obj(vec![("operator", text("none")), ("term", leaf_value("a"))]),
                    obj(vec![("operator", text("times")), ("term", leaf_value("b"))]),
                    obj(vec![("operator", text("slash")), ("term", leaf_value("c"))]),
                ]),
            ),
        ]),
    );
}

#[test]
fn additions_carry_the_word_of_each_sign() {
    check(
        node(
            "s",
            MathNodeContent::Additions {
                terms: vec![
                    (RefinedAddOrSubOperator::NoOperator, leaf("a")),
                    (RefinedAddOrSubOperator::Addition, leaf("b")),
                    (RefinedAddOrSubOperator::Subtraction, leaf("c")),
                ],
            },
        ),
        obj(vec![
            ("type", text("additions")),
            ("id", text("s")),
            (
                "terms",
                list(vec![
                    obj(vec![("operator", text("none")), ("term", leaf_value("a"))]),
                    obj(vec![("operator", text("plus")), ("term", leaf_value("b"))]),
                    obj(vec![("operator", text("minus")), ("term", leaf_value("c"))]),
                ]),
            ),
        ]),
    );
}

#[test]
fn division_with_fraction_layout_stays_a_division() {
    check(
        node(
            "d",
            MathNodeContent::Division {
                numerator: shared("n"),
                denominator: shared("m"),
                style: DivisionStyle::Fraction,
            },
        ),
        obj(vec![
            ("type", text("division")),
            ("id", text("d")),
            ("numerator", leaf_value("n")),
            ("denominator", leaf_value("m")),
            ("style", text("fraction")),
        ]),
    );
}

#[test]
fn fraction_stays_a_fraction() {
    check(
        node("f", MathNodeContent::Fraction { numerator: shared("n"), denominator: shared("m") }),
        obj(vec![
            ("type", text("fraction")),
            ("id", text("f")),
            ("numerator", leaf_value("n")),
            ("denominator", leaf_value("m")),
        ]),
    );
}

#[test]
fn sum_notation_writes_absent_limits_as_null() {
    check(
        node(
            "sum",
            MathNodeContent::SumNotation {
                summand: shared("a"),
                variable: Some(leaf("i")),
                lower_limit: Some(shared("0")),
                upper_limit: None,
            },
        ),
        obj(vec![
            ("type", text("sum_notation")),
            ("id", text("sum")),
            ("summand", leaf_value("a")),
            ("variable", leaf_value("i")),
            ("lower_limit", leaf_value("0")),
            ("upper_limit", InterchangeValue::Null),
        ]),
    );
}

#[test]
fn product_notation_writes_absent_variable_as_null() {
    check(
        node(
            "prod",
            MathNodeContent::ProductNotation {
                multiplicand: shared("a"),
                variable: None,
                lower_limit: None,
                upper_limit: Some(shared("n")),
            },
        ),
        obj(vec![
            ("type", text("product_notation")),
            ("id", text("prod")),
            ("multiplicand", leaf_value("a")),
            ("variable", InterchangeValue::Null),
            ("lower_limit", InterchangeValue::Null),
            ("upper_limit", leaf_value("n")),
        ]),
    );
}

#[test]
fn power_has_base_then_exponent() {
    check(
        node("p", MathNodeContent::Power { base: shared("x"), exponent: shared("2") }),
        obj(vec![
            ("type", text("power")),
            ("id", text("p")),
            ("base", leaf_value("x")),
            ("exponent", leaf_value("2")),
        ]),
    );
}

#[test]
fn unary_postfix_operation_has_parameter_then_operator() {
    check(
        node(
            "u",
            MathNodeContent::UnaryPostfixOperation { parameter: shared("n"), operator: shared("!") },
        ),
        obj(vec![
            ("type", text("unary_postfix_operation")),
            ("id", text("u")),
            ("parameter", leaf_value("n")),
            ("operator", leaf_value("!")),
        ]),
    );
}

#[test]
fn unary_prefix_operation_has_parameter_then_operator() {
    check(
        node(
            "u",
            MathNodeContent::UnaryPrefixOperation { parameter: shared("x"), operator: shared("-") },
        ),
        obj(vec![
            ("type", text("unary_prefix_operation")),
            ("id", text("u")),
            ("parameter", leaf_value("x")),
            ("operator", leaf_value("-")),
        ]),
    );
}

#[test]
fn abs_has_one_parameter() {
    check(
        node("a", MathNodeContent::Abs { parameter: shared("x") }),
        obj(vec![("type", text("abs")), ("id", text("a")), ("parameter", leaf_value("x"))]),
    );
}

#[test]
fn function_call_has_name_then_parameters() {
    check(
        node(
            "c",
            MathNodeContent::FunctionCall { name: shared("f"), parameters: vec![leaf("x"), leaf("y")] },
        ),
        obj(vec![
            ("type", text("function_call")),
            ("id", text("c")),
            ("name", leaf_value("f")),
            ("parameters", list(vec![leaf_value("x"), leaf_value("y")])),
        ]),
    );
}

#[test]
fn quantity_with_unit_and_power_of_ten() {
    check(
        node(
            "q",
            MathNodeContent::Quantity {
                number: "6.02".to_string(),
                scientific_notation: Some(leaf("23")),
                unit: Some(leaf("mol")),
            },
        ),
        obj(vec![
            ("type", text("quantity")),
            ("id", text("q")),
            ("number", text("6.02")),
            ("scientific_notation", leaf_value("23")),
            ("unit", leaf_value("mol")),
        ]),
    );
}

#[test]
fn quantity_number_is_passed_through_as_text() {
    for number in ["10^100", "π", "0.1000000000000000055511151231257827", ""] {
        check(
            node(
                "q",
                MathNodeContent::Quantity {
                    number: number.to_string(),
                    scientific_notation: None,
                    unit: None,
                },
            ),
            obj(vec![
                ("type", text("quantity")),
                ("id", text("q")),
                ("number", text(number)),
                ("scientific_notation", InterchangeValue::Null),
                ("unit", InterchangeValue::Null),
            ]),
        );
    }
}

#[test]
fn scientific_notation_has_magnitude_and_style() {
    check(
        node(
            "sn",
            MathNodeContent::ScientificNotation {
                magnitude: shared("3"),
                style: ScientificNotationStyle::TimesTenPower,
            },
        ),
        obj(vec![
            ("type", text("scientific_notation")),
            ("id", text("sn")),
            ("magnitude", leaf_value("3")),
            ("style", text("times_ten_power")),
        ]),
    );
}

#[test]
fn identifier_node_holds_the_identifier_object() {
    check(
        MathNode::identifier(Identifier::new_simple("x".to_string())),
        obj(vec![
            ("type", text("identifier")),
            ("id", text("x")),
            (
                "identifier",
                obj(vec![
                    ("body", text("x")),
                    ("pre_script", InterchangeValue::Null),
                    ("mid_script", InterchangeValue::Null),
                    ("post_script", InterchangeValue::Null),
                    ("primes", InterchangeValue::Number(0)),
                    ("is_function", InterchangeValue::Bool(false)),
                ]),
            ),
        ]),
    );
}

#[test]
fn unit_has_both_forms() {
    check(
        node("u", MathNodeContent::Unit { original_form: shared("km"), flattened_form: shared("m") }),
        obj(vec![
            ("type", text("unit")),
            ("id", text("u")),
            ("original_form", leaf_value("km")),
            ("flattened_form", leaf_value("m")),
        ]),
    );
}

#[test]
fn relationship_has_sides_then_operator() {
    check(
        node(
            "r",
            MathNodeContent::Relationship {
                lhs: shared("a"),
                rhs: shared("b"),
                operator: RelationOperatorNode::Equal,
            },
        ),
        obj(vec![
            ("type", text("relationship")),
            ("id", text("r")),
            ("lhs", leaf_value("a")),
            ("rhs", leaf_value("b")),
            ("operator", text("equal")),
        ]),
    );
}

#[test]
fn unary_relationship_has_subject_then_predicate() {
    check(
        node(
            "r",
            MathNodeContent::UnaryRelationship {
                subject: shared("p"),
                predicate: UnaryRelationOperatorNode::IsPrime,
            },
        ),
        obj(vec![
            ("type", text("unary_relationship")),
            ("id", text("r")),
            ("subject", leaf_value("p")),
            ("predicate", text("is_prime")),
        ]),
    );
}

#[test]
fn variable_definition_with_identifier_name() {
    let name = MathNode::identifier(Identifier::new_simple("x".to_string()));
    let written = serialize(&node(
        "def",
        MathNodeContent::VariableDefinition { name: Arc::new(name.clone()), definition: Some(leaf("1")) },
    ))
    .unwrap();
    assert_eq!(written.get("type"), Some(&text("variable_definition")));
    assert_eq!(written.get("id"), Some(&text("def")));
    assert_eq!(written.get("name"), Some(&serialize(&name).unwrap()));
    assert_eq!(written.get("definition"), Some(&leaf_value("1")));
    assert_eq!(
        deserialize(&written),
        Ok(node(
            "def",
            MathNodeContent::VariableDefinition { name: Arc::new(name), definition: Some(leaf("1")) },
        ))
    );
}

#[test]
fn function_definition_with_call_head() {
    let head = node(
        "f(x)",
        MathNodeContent::FunctionCall { name: shared("f"), parameters: vec![leaf("x")] },
    );
    let tree = node(
        "def",
        MathNodeContent::FunctionDefinition { custom_function: Arc::new(head.clone()), definition: None },
    );
    check(
        tree,
        obj(vec![
            ("type", text("function_definition")),
            ("id", text("def")),
            ("custom_function", serialize(&head).unwrap()),
            ("definition", InterchangeValue::Null),
        ]),
    );
}

#[test]
fn limit_keeps_its_variable_as_text() {
    check(
        node(
            "l",
            MathNodeContent::Limit {
                function: shared("f"),
                variable: "x".to_string(),
                approaching_value: shared("0"),
            },
        ),
        obj(vec![
            ("type", text("limit")),
            ("id", text("l")),
            ("function", leaf_value("f")),
            ("variable", text("x")),
            ("approaching_value", leaf_value("0")),
        ]),
    );
}

#[test]
fn differential_has_target_order_and_style() {
    check(
        node(
            "d",
            MathNodeContent::Differential {
                target: shared("x"),
                order: shared("1"),
                diff_style: DifferentialStyle::Partial,
            },
        ),
        obj(vec![
            ("type", text("differential")),
            ("id", text("d")),
            ("target", leaf_value("x")),
            ("order", leaf_value("1")),
            ("diff_style", text("partial")),
        ]),
    );
}

#[test]
fn integration_lists_each_differential_with_its_bounds() {
    check(
        node(
            "int",
            MathNodeContent::Integration {
                integrand: shared("f"),
                differentials: vec![
                    (shared("dx"), Some(shared("0")), Some(shared("1"))),
                    (shared("dy"), None, None),
                ],
                domain: Some(shared("D")),
            },
        ),
        obj(vec![
            ("type", text("integration")),
            ("id", text("int")),
            ("integrand", leaf_value("f")),
            (
                "differentials",
                list(vec![
                    obj(vec![
                        ("differential", leaf_value("dx")),
                        ("lower_bound", leaf_value("0")),
                        ("upper_bound", leaf_value("1")),
                    ]),
                    obj(vec![
                        ("differential", leaf_value("dy")),
                        ("lower_bound", InterchangeValue::Null),
                        ("upper_bound", InterchangeValue::Null),
                    ]),
                ]),
            ),
            ("domain", leaf_value("D")),
        ]),
    );
}

#[test]
fn quantified_expression_has_quantifier_variables_domain_predicate() {
    check(
        node(
            "q",
            MathNodeContent::QuantifiedExpression {
                quantifier: QuantificationNode::Universal,
                variables: vec![leaf("x"), leaf("y")],
                domain: Some(shared("S")),
                predicate: None,
            },
        ),
        obj(vec![
            ("type", text("quantified_expression")),
            ("id", text("q")),
            ("quantifier", text("universal")),
            ("variables", list(vec![leaf_value("x"), leaf_value("y")])),
            ("domain", leaf_value("S")),
            ("predicate", InterchangeValue::Null),
        ]),
    );
}

#[test]
fn and_lists_its_operands() {
    check(
        node("and", MathNodeContent::And(vec![leaf("p"), leaf("q")])),
        obj(vec![
            ("type", text("and")),
            ("id", text("and")),
            ("operands", list(vec![leaf_value("p"), leaf_value("q")])),
        ]),
    );
}

#[test]
fn or_lists_its_operands() {
    check(
        node("or", MathNodeContent::Or(vec![leaf("p")])),
        obj(vec![("type", text("or")), ("id", text("or")), ("operands", list(vec![leaf_value("p")]))]),
    );
}

#[test]
fn not_has_one_operand() {
    check(
        node("not", MathNodeContent::Not(shared("p"))),
        obj(vec![("type", text("not")), ("id", text("not")), ("operand", leaf_value("p"))]),
    );
}

#[test]
fn true_and_false_are_bare_headers() {
    check(node("t", MathNodeContent::True), obj(vec![("type", text("true")), ("id", text("t"))]));
    check(node("f", MathNodeContent::False), obj(vec![("type", text("false")), ("id", text("f"))]));
}

#[test]
fn ids_need_not_be_unique_and_are_kept() {
    check(
        node("same", MathNodeContent::Power { base: shared("same"), exponent: shared("same") }),
        obj(vec![
            ("type", text("power")),
            ("id", text("same")),
            ("base", leaf_value("same")),
            ("exponent", leaf_value("same")),
        ]),
    );
}
