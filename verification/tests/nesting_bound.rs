use std::sync::Arc;
use turn_render::interchange::InterchangeValue;
use turn_render::math_node::{
    Identifier, MathNode, MathNodeContent, RelationOperatorNode, ScriptNode,
    SpecialMiddleScriptContentTypeNode, SpecialMiddleScriptNode,
};
use turn_render::serializer::{
    deserialize, serialize, serialize_with_limit, DEFAULT_MAX_DEPTH, DEFAULT_READ_DEPTH,
};

fn node(id: &str, content: MathNodeContent) -> MathNode {
    MathNode { id: id.to_string(), content: Arc::new(content) }
}

fn levels_of_tree(tree: &MathNode) -> usize {
    (1..).find(|limit| tree.within_depth(*limit)).unwrap()
}

fn levels_of_value(value: &InterchangeValue) -> usize {
    (1..).find(|limit| value.within_depth(*limit)).unwrap()
}

fn dotted(body: &str) -> Identifier {
    let mut x = Identifier::new_simple(body.to_string());
    x.mid_script = Some(SpecialMiddleScriptNode {
        super_script: vec![SpecialMiddleScriptContentTypeNode::Dot(1)],
        sub_script: vec![],
    });
    x
}

/// An identifier whose only subscript is `inner`: one level above `inner`,
/// and four levels above it in the interchange form.
fn subscripted(inner: MathNode) -> MathNode {
    let mut x = dotted("x");
    x.post_script = Some(ScriptNode { subscripts: vec![inner], superscripts: vec![] });
    node("x", MathNodeContent::Identifier(x))
}

#[test]
fn read_depth_is_four_times_write_depth_and_two() {
    assert_eq!(DEFAULT_READ_DEPTH, 4 * DEFAULT_MAX_DEPTH + 2);
    assert_eq!(DEFAULT_READ_DEPTH, 514);
}

#[test]
fn a_dotted_identifier_reaches_the_bound() {
    let tree = node("x", MathNodeContent::Identifier(dotted("x")));
    let value = serialize(&tree).unwrap();
    assert_eq!(levels_of_tree(&tree), 1);
    assert_eq!(levels_of_value(&value), 6);
}

#[test]
fn nested_subscripts_reach_the_bound_at_every_depth() {
    let mut tree = node("x", MathNodeContent::Identifier(dotted("x")));
    for depth in 1..=20 {
        let value = serialize(&tree).unwrap();
        assert_eq!(levels_of_tree(&tree), depth);
        assert_eq!(levels_of_value(&value), 4 * depth + 2);
        tree = subscripted(tree);
    }
}

#[test]
fn other_trees_stay_within_the_bound() {
    let leaf = MathNode::string("a".to_string());
    let relation = node(
        "r",
        MathNodeContent::Relationship {
            lhs: Arc::new(leaf.clone()),
            rhs: Arc::new(node("m", MathNodeContent::Matrix { rows: vec![vec![leaf.clone()]] })),
            operator: RelationOperatorNode::Custom("~".to_string()),
        },
    );
    for tree in [leaf, node("e", MathNodeContent::Empty), relation] {
        let value = serialize(&tree).unwrap();
        assert!(levels_of_value(&value) <= 4 * levels_of_tree(&tree) + 2);
    }
}

#[test]
fn the_deepest_tree_that_is_written_by_default_is_read_by_default() {
    let mut tree = node("x", MathNodeContent::Identifier(dotted("x")));
    for _ in 1..DEFAULT_MAX_DEPTH {
        tree = subscripted(tree);
    }
    assert_eq!(levels_of_tree(&tree), DEFAULT_MAX_DEPTH);
    let value = serialize(&tree).unwrap();
    assert_eq!(levels_of_value(&value), DEFAULT_READ_DEPTH);
    assert_eq!(deserialize(&value), Ok(tree.clone()));
    let deeper = subscripted(tree);
    assert!(serialize(&deeper).is_err());
    assert!(serialize_with_limit(&deeper, DEFAULT_MAX_DEPTH + 1).is_ok());
}
