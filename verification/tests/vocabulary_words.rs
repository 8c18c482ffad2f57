use turn_render::interchange::InterchangeValue;
use turn_render::math_node::{
    BracketSize, BracketStyle, DifferentialStyle, DivSymbol, DivisionStyle, MulSymbol,
    QuantificationNode, RefinedAddOrSubOperator, RefinedMulOrDivOperation, RelationOperatorNode,
    ScientificNotationStyle, UnaryRelationOperatorNode,
};
use turn_render::vocabulary::NodeKind;

fn word(s: &str) -> InterchangeValue {
    InterchangeValue::Text(s.to_string())
}

fn custom(s: &str) -> InterchangeValue {
    InterchangeValue::Object(vec![("custom".to_string(), word(s))])
}

#[test]
fn bracket_style_words() {
    let cases = [
        (BracketStyle::Round, "round"),
        (BracketStyle::Square, "square"),
        (BracketStyle::Curly, "curly"),
        (BracketStyle::Angle, "angle"),
        (BracketStyle::Vertical, "vertical"),
        (BracketStyle::DoubleVertical, "double_vertical"),
        (BracketStyle::Ceiling, "ceiling"),
        (BracketStyle::Floor, "floor"),
        (BracketStyle::Invisible, "none"),
    ];
    for (case, expected) in cases {
        assert_eq!(case.as_tag(), expected);
        assert_eq!(case.to_interchange(), word(expected));
        assert_eq!(BracketStyle::from_tag(expected), Some(case));
        assert_eq!(BracketStyle::from_interchange(&word(expected)), Some(case));
    }
    assert_eq!(BracketStyle::from_tag("Round"), None);
    assert_eq!(BracketStyle::from_tag(""), None);
    assert_eq!(BracketStyle::from_interchange(&InterchangeValue::Null), None);
}

#[test]
fn bracket_size_words() {
    assert_eq!(BracketSize::Normal.to_tag(), "normal");
    assert_eq!(BracketSize::Auto.to_tag(), "auto");
    assert_eq!(BracketSize::Sized(1).to_tag(), "sized_1");
    assert_eq!(BracketSize::Sized(2).to_tag(), "sized_2");
    assert_eq!(BracketSize::Sized(3).to_tag(), "sized_3");
    assert_eq!(BracketSize::Sized(4).to_tag(), "sized_4");
    assert_eq!(BracketSize::Sized(0).to_tag(), "sized_0");
    assert_eq!(BracketSize::Sized(10).to_tag(), "sized_10");
    assert_eq!(BracketSize::Sized(99).to_tag(), "sized_99");
    assert_eq!(BracketSize::Sized(100).to_tag(), "sized_100");
    assert_eq!(BracketSize::Sized(205).to_tag(), "sized_205");
    assert_eq!(BracketSize::Sized(255).to_tag(), "sized_255");
    assert_eq!(BracketSize::Sized(2).to_interchange(), word("sized_2"));
}

#[test]
fn bracket_size_is_read_back_for_every_step() {
    assert_eq!(BracketSize::from_tag("normal"), Some(BracketSize::Normal));
    assert_eq!(BracketSize::from_tag("auto"), Some(BracketSize::Auto));
    for level in 0..=255u8 {
        let size = BracketSize::Sized(level);
        assert_eq!(BracketSize::from_tag(&size.to_tag()), Some(size));
    }
}

#[test]
fn bracket_size_refuses_what_is_not_a_canonical_word() {
    for bad in
        ["", "sized", "sized_", "sized_256", "sized_300", "sized_999", "sized_01", "sized_007", "sized_1000", "sized_-1", "sized_2 ", "sized_x", "Sized_2", "2", "sized_٢"]
    {
        assert_eq!(BracketSize::from_tag(bad), None, "{bad:?}");
    }
    assert_eq!(BracketSize::from_interchange(&InterchangeValue::Number(2)), None);
}

#[test]
fn bracket_size_steps_that_exist() {
    assert!(BracketSize::Normal.is_drawable());
    assert!(BracketSize::Auto.is_drawable());
    assert!(!BracketSize::Sized(0).is_drawable());
    assert!(BracketSize::Sized(1).is_drawable());
    assert!(BracketSize::Sized(4).is_drawable());
    assert!(!BracketSize::Sized(5).is_drawable());
    assert!(!BracketSize::Sized(255).is_drawable());
}

#[test]
fn mul_and_div_symbol_words() {
    let mul = [(MulSymbol::Times, "times"), (MulSymbol::Dot, "dot"), (MulSymbol::LittleSpace, "little_space")];
    for (case, expected) in mul {
        assert_eq!(case.as_tag(), expected);
        assert_eq!(MulSymbol::from_tag(expected), Some(case));
        assert_eq!(DivSymbol::from_tag(expected), None);
    }
    let div = [(DivSymbol::Slash, "slash"), (DivSymbol::Divide, "divide")];
    for (case, expected) in div {
        assert_eq!(case.as_tag(), expected);
        assert_eq!(DivSymbol::from_tag(expected), Some(case));
        assert_eq!(MulSymbol::from_tag(expected), None);
    }
}

#[test]
fn product_operator_words_tell_multiplication_from_division() {
    let cases = [
        (RefinedMulOrDivOperation::Multiplication(MulSymbol::Times), "times"),
        (RefinedMulOrDivOperation::Multiplication(MulSymbol::Dot), "dot"),
        (RefinedMulOrDivOperation::Multiplication(MulSymbol::LittleSpace), "little_space"),
        (RefinedMulOrDivOperation::Division(DivSymbol::Slash), "slash"),
        (RefinedMulOrDivOperation::Division(DivSymbol::Divide), "divide"),
        (RefinedMulOrDivOperation::NoOperator, "none"),
    ];
    for (case, expected) in cases {
        assert_eq!(case.as_tag(), expected);
        assert_eq!(case.to_interchange(), word(expected));
        assert_eq!(RefinedMulOrDivOperation::from_tag(expected), Some(case));
        assert_eq!(RefinedMulOrDivOperation::from_interchange(&word(expected)), Some(case));
    }
    assert_eq!(RefinedMulOrDivOperation::from_tag("plus"), None);
}

#[test]
fn sum_operator_words() {
    let cases = [
        (RefinedAddOrSubOperator::Addition, "plus"),
        (RefinedAddOrSubOperator::Subtraction, "minus"),
        (RefinedAddOrSubOperator::NoOperator, "none"),
    ];
    for (case, expected) in cases {
        assert_eq!(case.as_tag(), expected);
        assert_eq!(RefinedAddOrSubOperator::from_tag(expected), Some(case));
    }
    assert_eq!(RefinedAddOrSubOperator::from_tag("times"), None);
}

#[test]
fn division_style_words() {
    let cases = [
        (DivisionStyle::Fraction, "fraction"),
        (DivisionStyle::Inline, "inline"),
        (DivisionStyle::Division, "division"),
    ];
    for (case, expected) in cases {
        assert_eq!(case.as_tag(), expected);
        assert_eq!(DivisionStyle::from_tag(expected), Some(case));
    }
    assert_eq!(DivisionStyle::from_tag("slash"), None);
}

#[test]
fn scientific_notation_style_words() {
    let cases = [
        (ScientificNotationStyle::LowerCaseE, "lower_case_e"),
        (ScientificNotationStyle::UpperCaseE, "upper_case_e"),
        (ScientificNotationStyle::TimesTenPower, "times_ten_power"),
    ];
    for (case, expected) in cases {
        assert_eq!(case.as_tag(), expected);
        assert_eq!(ScientificNotationStyle::from_tag(expected), Some(case));
    }
    assert_eq!(ScientificNotationStyle::from_tag("e"), None);
}

#[test]
fn differential_style_words() {
    let cases = [(DifferentialStyle::Partial, "partial"), (DifferentialStyle::Total, "total")];
    for (case, expected) in cases {
        assert_eq!(case.as_tag(), expected);
        assert_eq!(DifferentialStyle::from_tag(expected), Some(case));
    }
    assert_eq!(DifferentialStyle::from_tag("d"), None);
}

#[test]
fn quantifier_words() {
    let cases = [
        (QuantificationNode::Universal, "universal"),
        (QuantificationNode::Existential, "existential"),
        (QuantificationNode::UniqueExistential, "unique_existential"),
        (QuantificationNode::Defined, "defined"),
        (QuantificationNode::Fixed, "fixed"),
    ];
    for (case, expected) in cases {
        assert_eq!(case.as_tag(), expected);
        assert_eq!(QuantificationNode::from_tag(expected), Some(case));
    }
    assert_eq!(QuantificationNode::from_tag("forall"), None);
}

#[test]
fn node_kind_words() {
    let cases = [
        (NodeKind::Empty, "empty"),
        (NodeKind::Text, "text"),
        (NodeKind::String, "string"),
        (NodeKind::Bracketed, "bracketed"),
        (NodeKind::Matrix, "matrix"),
        (NodeKind::Multiplications, "multiplications"),
        (NodeKind::Additions, "additions"),
        (NodeKind::Division, "division"),
        (NodeKind::SumNotation, "sum_notation"),
        (NodeKind::ProductNotation, "product_notation"),
        (NodeKind::Fraction, "fraction"),
        (NodeKind::Power, "power"),
        (NodeKind::UnaryPostfixOperation, "unary_postfix_operation"),
        (NodeKind::UnaryPrefixOperation, "unary_prefix_operation"),
        (NodeKind::Abs, "abs"),
        (NodeKind::FunctionCall, "function_call"),
        (NodeKind::Quantity, "quantity"),
        (NodeKind::ScientificNotation, "scientific_notation"),
        (NodeKind::Identifier, "identifier"),
        (NodeKind::Unit, "unit"),
        (NodeKind::Relationship, "relationship"),
        (NodeKind::UnaryRelationship, "unary_relationship"),
        (NodeKind::VariableDefinition, "variable_definition"),
        (NodeKind::FunctionDefinition, "function_definition"),
        (NodeKind::Limit, "limit"),
        (NodeKind::Differential, "differential"),
        (NodeKind::Integration, "integration"),
        (NodeKind::QuantifiedExpression, "quantified_expression"),
        (NodeKind::And, "and"),
        (NodeKind::Or, "or"),
        (NodeKind::Not, "not"),
        (NodeKind::True, "true"),
        (NodeKind::False, "false"),
    ];
    for (case, expected) in cases {
        assert_eq!(case.as_tag(), expected);
        assert_eq!(NodeKind::from_tag(expected), Some(case));
    }
    assert_eq!(NodeKind::from_tag("unknown"), None);
    assert_eq!(NodeKind::from_tag("Empty"), None);
}

#[test]
fn relation_words() {
    let cases = [
        (RelationOperatorNode::IsEqual, "is_equal"),
        (RelationOperatorNode::Equal, "equal"),
        (RelationOperatorNode::NotEqual, "not_equal"),
        (RelationOperatorNode::Greater, "greater"),
        (RelationOperatorNode::Less, "less"),
        (RelationOperatorNode::GreaterEqual, "greater_equal"),
        (RelationOperatorNode::LessEqual, "less_equal"),
        (RelationOperatorNode::Collinear, "collinear"),
        (RelationOperatorNode::Perpendicular, "perpendicular"),
        (RelationOperatorNode::Equivalent, "equivalent"),
        (RelationOperatorNode::Similar, "similar"),
        (RelationOperatorNode::Congruent, "congruent"),
        (RelationOperatorNode::ElementOf, "element_of"),
        (RelationOperatorNode::NotElementOf, "not_element_of"),
        (RelationOperatorNode::SubsetOf, "subset_of"),
        (RelationOperatorNode::ProperSubsetOf, "proper_subset_of"),
        (RelationOperatorNode::SupersetOf, "superset_of"),
        (RelationOperatorNode::ProperSupersetOf, "proper_superset_of"),
        (RelationOperatorNode::Disjoint, "disjoint"),
        (RelationOperatorNode::Union, "union"),
        (RelationOperatorNode::Intersection, "intersection"),
        (RelationOperatorNode::CartesianProduct, "cartesian_product"),
        (RelationOperatorNode::SameCardinality, "same_cardinality"),
        (RelationOperatorNode::Divides, "divides"),
        (RelationOperatorNode::NotDivides, "not_divides"),
        (RelationOperatorNode::CongruentMod, "congruent_mod"),
        (RelationOperatorNode::NotCongruentMod, "not_congruent_mod"),
        (RelationOperatorNode::AreCoprime, "are_coprime"),
        (RelationOperatorNode::IsSubgroupOf, "is_subgroup_of"),
        (RelationOperatorNode::IsNormalSubgroupOf, "is_normal_subgroup_of"),
        (RelationOperatorNode::IsIsomorphicTo, "is_isomorphic_to"),
        (RelationOperatorNode::IsHomomorphicTo, "is_homomorphic_to"),
        (RelationOperatorNode::IsQuotientOf, "is_quotient_of"),
        (RelationOperatorNode::IsInCenterOf, "is_in_center_of"),
        (RelationOperatorNode::AreConjugateIn, "are_conjugate_in"),
        (RelationOperatorNode::IsSubringOf, "is_subring_of"),
        (RelationOperatorNode::IsIdealOf, "is_ideal_of"),
        (RelationOperatorNode::IsOpenIn, "is_open_in"),
        (RelationOperatorNode::IsClosedIn, "is_closed_in"),
        (RelationOperatorNode::IsHomeomorphicTo, "is_homeomorphic_to"),
        (RelationOperatorNode::IsDense, "is_dense"),
        (RelationOperatorNode::IsMorphismBetween, "is_morphism_between"),
        (RelationOperatorNode::IsIsomorphismIn, "is_isomorphism_in"),
        (RelationOperatorNode::IsMonomorphismIn, "is_monomorphism_in"),
        (RelationOperatorNode::IsEpimorphismIn, "is_epimorphism_in"),
        (RelationOperatorNode::IsNaturalTransformationBetween, "is_natural_transformation_between"),
        (RelationOperatorNode::IsAdjunctionBetween, "is_adjunction_between"),
        (RelationOperatorNode::ComposesTo, "composes_to"),
        (RelationOperatorNode::Implies, "implies"),
        (RelationOperatorNode::Iff, "iff"),
    ];
    assert_eq!(cases.len(), 50);
    for (case, expected) in cases {
        assert_eq!(case.to_interchange(), word(expected));
        assert_eq!(RelationOperatorNode::from_interchange(&word(expected)), Some(case));
    }
    assert_eq!(RelationOperatorNode::from_interchange(&word("equals")), None);
    assert_eq!(RelationOperatorNode::from_interchange(&word("is_prime")), None);
    assert_eq!(RelationOperatorNode::from_interchange(&InterchangeValue::Null), None);
}

#[test]
fn unary_relation_words() {
    let cases = [
        (UnaryRelationOperatorNode::IsPrime, "is_prime"),
        (UnaryRelationOperatorNode::IsComposite, "is_composite"),
        (UnaryRelationOperatorNode::HasOrderInGroup, "has_order_in_group"),
        (UnaryRelationOperatorNode::HasUniqueInverse, "has_unique_inverse"),
        (UnaryRelationOperatorNode::IsPrimeIdeal, "is_prime_ideal"),
        (UnaryRelationOperatorNode::IsMaximalIdeal, "is_maximal_ideal"),
        (UnaryRelationOperatorNode::IsPrincipalIdeal, "is_principal_ideal"),
        (UnaryRelationOperatorNode::IsUnit, "is_unit"),
        (UnaryRelationOperatorNode::IsIrreducible, "is_irreducible"),
        (UnaryRelationOperatorNode::IsPrimeElement, "is_prime_element"),
        (UnaryRelationOperatorNode::IsField, "is_field"),
        (UnaryRelationOperatorNode::IsIntegralDomain, "is_integral_domain"),
        (UnaryRelationOperatorNode::IsUFD, "is_ufd"),
        (UnaryRelationOperatorNode::IsPID, "is_pid"),
        (UnaryRelationOperatorNode::IsCompact, "is_compact"),
        (UnaryRelationOperatorNode::IsConnected, "is_connected"),
        (UnaryRelationOperatorNode::IsContinuous, "is_continuous"),
        (UnaryRelationOperatorNode::Converges, "converges"),
        (UnaryRelationOperatorNode::IsHausdorff, "is_hausdorff"),
        (UnaryRelationOperatorNode::IsObjectIn, "is_object_in"),
        (UnaryRelationOperatorNode::IsEndomorphismIn, "is_endomorphism_in"),
        (UnaryRelationOperatorNode::IsAutomorphismIn, "is_automorphism_in"),
        (UnaryRelationOperatorNode::Complement, "complement"),
        (UnaryRelationOperatorNode::PowerSet, "power_set"),
    ];
    assert_eq!(cases.len(), 24);
    for (case, expected) in cases {
        assert_eq!(case.to_interchange(), word(expected));
        assert_eq!(UnaryRelationOperatorNode::from_interchange(&word(expected)), Some(case));
    }
    assert_eq!(UnaryRelationOperatorNode::from_interchange(&word("equal")), None);
}

#[test]
fn custom_relation_text_is_passed_through_unchanged() {
    for name in ["≺", "is adjacent to", "", "equal", "custom", "  padded  ", "Équivalent"] {
        let relation = RelationOperatorNode::Custom(name.to_string());
        assert_eq!(relation.to_interchange(), custom(name));
        assert_eq!(RelationOperatorNode::from_interchange(&custom(name)), Some(relation));
        let property = UnaryRelationOperatorNode::Custom(name.to_string());
        assert_eq!(property.to_interchange(), custom(name));
        assert_eq!(UnaryRelationOperatorNode::from_interchange(&custom(name)), Some(property));
    }
}

#[test]
fn custom_relation_named_like_a_word_is_not_taken_for_the_word() {
    let custom_equal = RelationOperatorNode::Custom("equal".to_string());
    assert_ne!(custom_equal.to_interchange(), RelationOperatorNode::Equal.to_interchange());
    assert_eq!(
        RelationOperatorNode::from_interchange(&custom_equal.to_interchange()),
        Some(custom_equal)
    );
    assert_eq!(
        RelationOperatorNode::from_interchange(&RelationOperatorNode::Equal.to_interchange()),
        Some(RelationOperatorNode::Equal)
    );
}

#[test]
fn custom_relation_object_must_have_exactly_the_custom_field() {
    let two = InterchangeValue::Object(vec![
        ("custom".to_string(), word("a")),
        ("custom".to_string(), word("b")),
    ]);
    assert_eq!(RelationOperatorNode::from_interchange(&two), None);
    let other_key = InterchangeValue::Object(vec![("Custom".to_string(), word("a"))]);
    assert_eq!(RelationOperatorNode::from_interchange(&other_key), None);
    let not_text = InterchangeValue::Object(vec![("custom".to_string(), InterchangeValue::Number(1))]);
    assert_eq!(RelationOperatorNode::from_interchange(&not_text), None);
    assert_eq!(RelationOperatorNode::from_interchange(&InterchangeValue::Object(vec![])), None);
}
