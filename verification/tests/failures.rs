use std::sync::Arc;
use turn_render::errors::{DeserializeError, TreeConstraint, TreeError, Violation};
use turn_render::interchange::InterchangeValue;
use turn_render::math_node::{
    BracketSize, BracketStyle, Identifier, MathNode, MathNodeContent, ScriptNode,
    SpecialMiddleScriptContentTypeNode, SpecialMiddleScriptNode,
};
use turn_render::serializer::{
    deserialize, deserialize_with_limit, serialize, serialize_batch, serialize_with_limit,
    DEFAULT_MAX_DEPTH,
};
use turn_render::validation::find_first_fatal;

fn node(id: &str, content: MathNodeContent) -> MathNode {
    MathNode { id: id.to_string(), content: Arc::new(content) }
}

fn leaf(id: &str) -> MathNode {
    MathNode::string(id.to_string())
}

fn ident(name: &str) -> MathNode {
    MathNode::identifier(Identifier::new_simple(name.to_string()))
}

fn violation(id: &str, constraint: TreeConstraint) -> Violation {
    Violation { node_id: id.to_string(), constraint }
}

fn malformed(id: &str, constraint: TreeConstraint) -> TreeError {
    TreeError::MalformedTree(violation(id, constraint))
}

/// `levels` nested negations around a leaf: a tree of `levels + 1` levels.
fn tower(levels: usize) -> MathNode {
    let mut tree = leaf("bottom");
    for _ in 0..levels {
        tree = node("not", MathNodeContent::Not(Arc::new(tree)));
    }
    tree
}

fn nameless_identifier_with_primes() -> MathNode {
    node(
        "ghost",
        MathNodeContent::Identifier(Identifier {
            body: String::new(),
            pre_script: None,
            mid_script: None,
            post_script: None,
            primes: 2,
            is_function: false,
        }),
    )
}

#[test]
fn function_definition_headed_by_an_identifier_is_malformed() {
    let tree = node(
        "fd",
        MathNodeContent::FunctionDefinition { custom_function: Arc::new(ident("f")), definition: None },
    );
    assert_eq!(serialize(&tree), Err(malformed("fd", TreeConstraint::HeadIsFunctionCall)));
}

#[test]
fn identifier_without_body_is_malformed_unless_it_is_the_empty_marker() {
    assert_eq!(
        serialize(&nameless_identifier_with_primes()),
        Err(malformed("ghost", TreeConstraint::IdentifierHasBody))
    );
    let marker = node("marker", MathNodeContent::Identifier(Identifier::new_simple(String::new())));
    assert!(serialize(&marker).is_ok());
    assert_eq!(marker.validate(DEFAULT_MAX_DEPTH), Ok(vec![]));
}

#[test]
fn empty_body_with_any_decoration_is_not_the_marker() {
    let plain = Identifier::new_simple(String::new());
    assert!(plain.is_well_formed());
    let mut flagged = plain.clone();
    flagged.is_function = true;
    assert!(!flagged.is_well_formed());
    let mut primed = plain.clone();
    primed.primes = 1;
    assert!(!primed.is_well_formed());
    let mut before = plain.clone();
    before.pre_script = Some(ScriptNode { subscripts: vec![], superscripts: vec![] });
    assert!(!before.is_well_formed());
    let mut over = plain.clone();
    over.mid_script = Some(SpecialMiddleScriptNode { super_script: vec![], sub_script: vec![] });
    assert!(!over.is_well_formed());
    let mut after = plain.clone();
    after.post_script = Some(ScriptNode { subscripts: vec![], superscripts: vec![] });
    assert!(!after.is_well_formed());
    let mut named = flagged.clone();
    named.body = "f".to_string();
    assert!(named.is_well_formed());
}

#[test]
fn malformed_subtree_deep_inside_fails_the_whole_call() {
    let bad = node(
        "inner-def",
        MathNodeContent::VariableDefinition { name: Arc::new(leaf("n")), definition: None },
    );
    let tree = node(
        "root",
        MathNodeContent::And(vec![leaf("p"), node("neg", MathNodeContent::Not(Arc::new(bad)))]),
    );
    assert_eq!(serialize(&tree), Err(malformed("inner-def", TreeConstraint::NameIsIdentifier)));
}

#[test]
fn the_first_fatal_violation_of_a_parent_first_walk_is_reported() {
    let bad_head = node(
        "second",
        MathNodeContent::FunctionDefinition { custom_function: Arc::new(leaf("h")), definition: None },
    );
    let bad_name = node(
        "first",
        MathNodeContent::VariableDefinition {
            name: Arc::new(leaf("n")),
            definition: Some(nameless_identifier_with_primes()),
        },
    );
    let tree = node("root", MathNodeContent::Or(vec![bad_name, bad_head]));
    assert_eq!(
        tree.validate(DEFAULT_MAX_DEPTH),
        Ok(vec![
            violation("first", TreeConstraint::NameIsIdentifier),
            violation("ghost", TreeConstraint::IdentifierHasBody),
            violation("second", TreeConstraint::HeadIsFunctionCall),
        ])
    );
    assert_eq!(serialize(&tree), Err(malformed("first", TreeConstraint::NameIsIdentifier)));
}

#[test]
fn warnings_before_a_fatal_violation_do_not_hide_it() {
    let ragged = node("m", MathNodeContent::Matrix { rows: vec![vec![leaf("a")], vec![]] });
    let bad = node(
        "fd",
        MathNodeContent::FunctionDefinition { custom_function: Arc::new(leaf("h")), definition: None },
    );
    let tree = node("root", MathNodeContent::And(vec![ragged, bad]));
    let found = tree.validate(DEFAULT_MAX_DEPTH).unwrap();
    assert_eq!(
        found,
        vec![
            violation("m", TreeConstraint::MatrixIsRectangular),
            violation("fd", TreeConstraint::HeadIsFunctionCall),
        ]
    );
    assert_eq!(find_first_fatal(&found), Some(&found[1]));
    assert_eq!(serialize(&tree), Err(malformed("fd", TreeConstraint::HeadIsFunctionCall)));
}

#[test]
fn warnings_alone_do_not_stop_writing() {
    let big = node(
        "big",
        MathNodeContent::Bracketed {
            inner: Arc::new(leaf("x")),
            style: BracketStyle::Round,
            size: BracketSize::Sized(9),
        },
    );
    let found = big.validate(DEFAULT_MAX_DEPTH).unwrap();
    assert_eq!(found, vec![violation("big", TreeConstraint::BracketStepExists)]);
    assert_eq!(find_first_fatal(&found), None);
    let value = serialize(&big).unwrap();
    assert_eq!(value.get("size"), Some(&InterchangeValue::Text("sized_9".to_string())));
    assert_eq!(deserialize(&value), Ok(big));
}

#[test]
fn which_rules_are_fatal() {
    assert!(TreeConstraint::NameIsIdentifier.is_fatal());
    assert!(TreeConstraint::HeadIsFunctionCall.is_fatal());
    assert!(TreeConstraint::IdentifierHasBody.is_fatal());
    assert!(!TreeConstraint::MatrixIsRectangular.is_fatal());
    assert!(!TreeConstraint::BracketStepExists.is_fatal());
}

#[test]
fn rectangular_and_degenerate_matrices_are_not_ragged() {
    for rows in [
        vec![],
        vec![vec![]],
        vec![vec![], vec![]],
        vec![vec![leaf("a")]],
        vec![vec![leaf("a"), leaf("b")], vec![leaf("c"), leaf("d")], vec![leaf("e"), leaf("f")]],
    ] {
        let tree = node("m", MathNodeContent::Matrix { rows });
        assert_eq!(tree.validate(DEFAULT_MAX_DEPTH), Ok(vec![]));
    }
    let ragged_late = node(
        "m",
        MathNodeContent::Matrix { rows: vec![vec![leaf("a")], vec![leaf("b")], vec![leaf("c"), leaf("d")]] },
    );
    assert_eq!(
        ragged_late.validate(DEFAULT_MAX_DEPTH),
        Ok(vec![violation("m", TreeConstraint::MatrixIsRectangular)])
    );
}

#[test]
fn violations_inside_scripts_are_found() {
    let mut x = Identifier::new_simple("x".to_string());
    x.post_script = Some(ScriptNode {
        subscripts: vec![nameless_identifier_with_primes()],
        superscripts: vec![],
    });
    let tree = node("x", MathNodeContent::Identifier(x));
    assert_eq!(serialize(&tree), Err(malformed("ghost", TreeConstraint::IdentifierHasBody)));
}

#[test]
fn depth_limit_is_exact() {
    let tree = tower(4);
    assert!(tree.within_depth(5));
    assert!(!tree.within_depth(4));
    assert!(!tree.within_depth(0));
    assert!(serialize_with_limit(&tree, 5).is_ok());
    assert_eq!(serialize_with_limit(&tree, 4), Err(TreeError::DepthExceeded));
    assert_eq!(serialize_with_limit(&tree, 0), Err(TreeError::DepthExceeded));
    assert_eq!(tree.validate(4), Err(TreeError::DepthExceeded));
    assert_eq!(tree.validate(5), Ok(vec![]));
}

#[test]
fn a_single_node_has_depth_one() {
    let tree = leaf("x");
    assert!(tree.within_depth(1));
    assert!(!tree.within_depth(0));
    assert!(serialize_with_limit(&tree, 1).is_ok());
    assert_eq!(serialize_with_limit(&tree, 0), Err(TreeError::DepthExceeded));
}

#[test]
fn default_limit_admits_default_max_depth_levels_and_no_more() {
    assert_eq!(DEFAULT_MAX_DEPTH, 128);
    assert!(serialize(&tower(DEFAULT_MAX_DEPTH - 1)).is_ok());
    assert_eq!(serialize(&tower(DEFAULT_MAX_DEPTH)), Err(TreeError::DepthExceeded));
}

#[test]
fn a_higher_limit_admits_what_a_lower_one_refused() {
    let tree = tower(200);
    assert_eq!(serialize(&tree), Err(TreeError::DepthExceeded));
    let value = serialize_with_limit(&tree, 201).unwrap();
    assert_eq!(deserialize_with_limit(&value, 1000), Ok(tree));
}

#[test]
fn depth_is_judged_before_the_rules() {
    let bad = node(
        "def",
        MathNodeContent::VariableDefinition { name: Arc::new(leaf("n")), definition: None },
    );
    let tree = node("root", MathNodeContent::Not(Arc::new(bad)));
    assert_eq!(serialize_with_limit(&tree, 2), Err(TreeError::DepthExceeded));
    assert_eq!(
        serialize_with_limit(&tree, 3),
        Err(malformed("def", TreeConstraint::NameIsIdentifier))
    );
}

#[test]
fn scripts_count_towards_depth() {
    let mut x = Identifier::new_simple("x".to_string());
    x.pre_script = Some(ScriptNode { subscripts: vec![], superscripts: vec![tower(2)] });
    let tree = node("x", MathNodeContent::Identifier(x));
    assert!(tree.within_depth(4));
    assert!(!tree.within_depth(3));
}

#[test]
fn a_batch_goes_on_after_a_tree_that_fails() {
    let bad = node(
        "bad",
        MathNodeContent::VariableDefinition { name: Arc::new(leaf("n")), definition: None },
    );
    let nodes = vec![leaf("a"), bad, tower(10), leaf("b")];
    let outcomes = serialize_batch(&nodes, 5);
    assert_eq!(outcomes.len(), 4);
    assert_eq!(outcomes[0], serialize_with_limit(&nodes[0], 5));
    assert!(outcomes[0].is_ok());
    assert_eq!(outcomes[1], Err(malformed("bad", TreeConstraint::NameIsIdentifier)));
    assert_eq!(outcomes[2], Err(TreeError::DepthExceeded));
    assert_eq!(outcomes[3], serialize_with_limit(&nodes[3], 5));
    assert!(outcomes[3].is_ok());
    assert_eq!(serialize_batch(&vec![], 5), vec![]);
}

#[test]
fn the_serializer_never_reports_an_unmapped_variant() {
    let trees = vec![leaf("a"), tower(300), nameless_identifier_with_primes()];
    for tree in &trees {
        assert_ne!(serialize(tree), Err(TreeError::UnmappedVariant));
    }
}

#[test]
fn reading_refuses_what_is_not_canonical() {
    let text = |s: &str| InterchangeValue::Text(s.to_string());
    let obj = |fields: Vec<(&str, InterchangeValue)>| {
        InterchangeValue::Object(fields.into_iter().map(|(k, v)| (k.to_string(), v)).collect())
    };
    let refused = vec![
        InterchangeValue::Null,
        InterchangeValue::Bool(true),
        InterchangeValue::Number(3),
        text("empty"),
        InterchangeValue::List(vec![]),
        obj(vec![]),
        obj(vec![("type", text("empty"))]),
        obj(vec![("id", text("e")), ("type", text("empty"))]),
        obj(vec![("type", text("empty")), ("id", InterchangeValue::Null)]),
        obj(vec![("type", text("blank")), ("id", text("e"))]),
        obj(vec![("type", text("empty")), ("id", text("e")), ("extra", InterchangeValue::Null)]),
        obj(vec![("type", text("text")), ("id", text("t"))]),
        obj(vec![("type", text("text")), ("id", text("t")), ("text", text("hello"))]),
        obj(vec![("type", text("text")), ("id", text("t")), ("value", InterchangeValue::Number(1))]),
        obj(vec![("type", text("not")), ("id", text("n")), ("operand", InterchangeValue::Null)]),
        obj(vec![("type", text("and")), ("id", text("a")), ("operands", InterchangeValue::Null)]),
        obj(vec![
            ("type", text("and")),
            ("id", text("a")),
            ("operands", InterchangeValue::List(vec![InterchangeValue::Null])),
        ]),
        obj(vec![
            ("type", text("power")),
            ("id", text("p")),
            ("exponent", serialize(&leaf("2")).unwrap()),
            ("base", serialize(&leaf("x")).unwrap()),
        ]),
        obj(vec![
            ("type", text("bracketed")),
            ("id", text("b")),
            ("inner", serialize(&leaf("x")).unwrap()),
            ("style", text("round")),
            ("size", text("sized_02")),
        ]),
    ];
    for value in &refused {
        assert_eq!(deserialize(value), Err(DeserializeError::NotCanonical), "{value:?}");
    }
}

#[test]
fn reading_refuses_a_count_that_does_not_fit() {
    let text = |s: &str| InterchangeValue::Text(s.to_string());
    let identifier = |primes: InterchangeValue| {
        InterchangeValue::Object(vec![
            ("type".to_string(), text("identifier")),
            ("id".to_string(), text("x")),
            (
                "identifier".to_string(),
                InterchangeValue::Object(vec![
                    ("body".to_string(), text("x")),
                    ("pre_script".to_string(), InterchangeValue::Null),
                    ("mid_script".to_string(), InterchangeValue::Null),
                    ("post_script".to_string(), InterchangeValue::Null),
                    ("primes".to_string(), primes),
                    ("is_function".to_string(), InterchangeValue::Bool(false)),
                ]),
            ),
        ])
    };
    let mut expected = Identifier::new_simple("x".to_string());
    expected.primes = 3;
    assert_eq!(
        deserialize(&identifier(InterchangeValue::Number(3))),
        Ok(node("x", MathNodeContent::Identifier(expected)))
    );
    assert_eq!(deserialize(&identifier(text("3"))), Err(DeserializeError::NotCanonical));
    if (usize::MAX as u64) < u64::MAX {
        assert_eq!(
            deserialize(&identifier(InterchangeValue::Number(u64::MAX))),
            Err(DeserializeError::NotCanonical)
        );
    } else {
        let mut huge = Identifier::new_simple("x".to_string());
        huge.primes = usize::MAX;
        assert_eq!(
            deserialize(&identifier(InterchangeValue::Number(u64::MAX))),
            Ok(node("x", MathNodeContent::Identifier(huge)))
        );
    }
}

#[test]
fn reading_guards_its_own_depth() {
    let value = serialize(&tower(3)).unwrap();
    assert!(value.within_depth(5));
    assert!(!value.within_depth(4));
    assert_eq!(deserialize_with_limit(&value, 4), Err(DeserializeError::DepthExceeded));
    assert_eq!(deserialize_with_limit(&value, 5), Ok(tower(3)));
    let mut deep = InterchangeValue::Null;
    for _ in 0..3 {
        deep = InterchangeValue::List(vec![deep]);
    }
    assert_eq!(deserialize_with_limit(&deep, 3), Err(DeserializeError::DepthExceeded));
    assert_eq!(deserialize_with_limit(&deep, 4), Err(DeserializeError::NotCanonical));
}

#[test]
fn marks_over_and_under_are_written_and_read() {
    let mut x = Identifier::new_simple("x".to_string());
    x.mid_script = Some(SpecialMiddleScriptNode {
        super_script: vec![
            SpecialMiddleScriptContentTypeNode::Hat,
            SpecialMiddleScriptContentTypeNode::Dot(2),
            SpecialMiddleScriptContentTypeNode::Tilde,
        ],
        sub_script: vec![SpecialMiddleScriptContentTypeNode::Bar],
    });
    x.primes = 3;
    x.is_function = true;
    let tree = node("x", MathNodeContent::Identifier(x));
    let value = serialize(&tree).unwrap();
    let text = |s: &str| InterchangeValue::Text(s.to_string());
    let marks = value.get("identifier").unwrap().get("mid_script").unwrap();
    assert_eq!(
        marks.get("super_script"),
        Some(&InterchangeValue::List(vec![
            text("hat"),
            InterchangeValue::Object(vec![("dot".to_string(), InterchangeValue::Number(2))]),
            text("tilde"),
        ]))
    );
    assert_eq!(marks.get("sub_script"), Some(&InterchangeValue::List(vec![text("bar")])));
    assert_eq!(value.get("identifier").unwrap().get("primes"), Some(&InterchangeValue::Number(3)));
    assert_eq!(
        value.get("identifier").unwrap().get("is_function"),
        Some(&InterchangeValue::Bool(true))
    );
    assert_eq!(deserialize(&value), Ok(tree));
}
