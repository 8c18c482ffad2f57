use std::sync::Arc;
use turn_render::errors::{TreeConstraint, TreeError, Violation};
use turn_render::math_node::{
    BracketSize, BracketStyle, Identifier, MathNode, MathNodeContent, ScriptNode,
};
use turn_render::vocabulary::NodeKind;

fn node(id: &str, content: MathNodeContent) -> MathNode {
    MathNode { id: id.to_string(), content: Arc::new(content) }
}

fn bracketed(style: BracketStyle) -> MathNode {
    node(
        "b",
        MathNodeContent::Bracketed {
            inner: Arc::new(MathNode::empty()),
            style,
            size: BracketSize::Normal,
        },
    )
}

#[test]
fn empty_node_has_empty_id_and_empty_content() {
    let empty = MathNode::empty();
    assert_eq!(empty.id, "");
    assert_eq!(*empty.content, MathNodeContent::Empty);
}

#[test]
fn string_and_text_nodes_take_their_input_as_id() {
    let s = MathNode::string("sin".to_string());
    assert_eq!(s.id, "sin");
    assert_eq!(*s.content, MathNodeContent::String("sin".to_string()));
    let t = MathNode::text("hence".to_string());
    assert_eq!(t.id, "hence");
    assert_eq!(*t.content, MathNodeContent::Text("hence".to_string()));
}

#[test]
fn identifier_node_takes_the_body_as_id() {
    let x = Identifier::simple_string_subscript("x".to_string(), "1".to_string());
    let n = MathNode::identifier(x.clone());
    assert_eq!(n.id, "x");
    assert_eq!(*n.content, MathNodeContent::Identifier(x));
}

#[test]
fn is_quantity_tells_quantities_apart() {
    let q = node(
        "q",
        MathNodeContent::Quantity { number: "1".to_string(), scientific_notation: None, unit: None },
    );
    assert!(q.is_quantity());
    assert!(!MathNode::empty().is_quantity());
    assert!(!MathNode::string("1".to_string()).is_quantity());
    assert!(!bracketed(BracketStyle::Round).is_quantity());
}

#[test]
fn is_expression_in_bracket_holds_for_every_style() {
    for style in [
        BracketStyle::Round,
        BracketStyle::Square,
        BracketStyle::Curly,
        BracketStyle::Angle,
        BracketStyle::Vertical,
        BracketStyle::DoubleVertical,
        BracketStyle::Ceiling,
        BracketStyle::Floor,
        BracketStyle::Invisible,
    ] {
        assert!(bracketed(style).is_expression_in_bracket());
        assert_eq!(bracketed(style).is_expression_in_round_bracket(), style == BracketStyle::Round);
    }
    assert!(!MathNode::empty().is_expression_in_bracket());
    assert!(!MathNode::empty().is_expression_in_round_bracket());
    assert!(!node("a", MathNodeContent::Abs { parameter: Arc::new(MathNode::empty()) })
        .is_expression_in_bracket());
}

#[test]
fn new_simple_has_no_decoration() {
    assert_eq!(
        Identifier::new_simple("G".to_string()),
        Identifier {
            body: "G".to_string(),
            pre_script: None,
            mid_script: None,
            post_script: None,
            primes: 0,
            is_function: false,
        }
    );
}

fn with_subscript(name: &str, subscript: MathNode) -> Identifier {
    Identifier {
        body: name.to_string(),
        pre_script: None,
        mid_script: None,
        post_script: Some(ScriptNode { subscripts: vec![subscript], superscripts: vec![] }),
        primes: 0,
        is_function: false,
    }
}

#[test]
fn simple_string_subscript_puts_a_token_below() {
    assert_eq!(
        Identifier::simple_string_subscript("x".to_string(), "1".to_string()),
        with_subscript("x", MathNode::string("1".to_string()))
    );
}

#[test]
fn simple_text_subscript_puts_prose_below() {
    assert_eq!(
        Identifier::simple_text_subscript("v".to_string(), "max".to_string()),
        with_subscript("v", MathNode::text("max".to_string()))
    );
}

#[test]
fn simple_identifier_subscript_puts_an_identifier_below() {
    let i = Identifier::new_simple("i".to_string());
    assert_eq!(
        Identifier::simple_identifier_subscript("a".to_string(), i.clone()),
        with_subscript("a", MathNode::identifier(i))
    );
}

#[test]
fn display_string_is_the_body() {
    let x = Identifier::simple_string_subscript("x".to_string(), "1".to_string());
    assert_eq!(x.to_display_string(), "x");
    assert_eq!(Identifier::new_simple(String::new()).to_display_string(), "");
}

#[test]
fn identifiers_are_equal_when_all_fields_are() {
    let a = Identifier::simple_string_subscript("x".to_string(), "1".to_string());
    let b = Identifier::simple_string_subscript("x".to_string(), "1".to_string());
    assert_eq!(a, b);
    let mut primed = b.clone();
    primed.primes = 1;
    assert_ne!(a, primed);
    assert_ne!(a, Identifier::simple_text_subscript("x".to_string(), "1".to_string()));
    assert_ne!(a, Identifier::new_simple("x".to_string()));
}

#[test]
fn variable_definition_is_made_only_with_an_identifier_name() {
    let x = MathNode::identifier(Identifier::new_simple("x".to_string()));
    let one = MathNode::string("1".to_string());
    assert_eq!(
        MathNode::variable_definition("d".to_string(), x.clone(), Some(one.clone())),
        Ok(node(
            "d",
            MathNodeContent::VariableDefinition { name: Arc::new(x), definition: Some(one.clone()) },
        ))
    );
    assert_eq!(
        MathNode::variable_definition("d".to_string(), one, None),
        Err(TreeError::MalformedTree(Violation {
            node_id: "d".to_string(),
            constraint: TreeConstraint::NameIsIdentifier,
        }))
    );
}

#[test]
fn function_definition_is_made_only_with_a_call_head() {
    let f = MathNode::string("f".to_string());
    let call = node(
        "f(x)",
        MathNodeContent::FunctionCall { name: Arc::new(f.clone()), parameters: vec![] },
    );
    assert_eq!(
        MathNode::function_definition("d".to_string(), call.clone(), None),
        Ok(node(
            "d",
            MathNodeContent::FunctionDefinition { custom_function: Arc::new(call), definition: None },
        ))
    );
    assert_eq!(
        MathNode::function_definition("d".to_string(), f, None),
        Err(TreeError::MalformedTree(Violation {
            node_id: "d".to_string(),
            constraint: TreeConstraint::HeadIsFunctionCall,
        }))
    );
}

#[test]
fn content_kind_names_the_case() {
    assert_eq!(MathNodeContent::Empty.kind(), NodeKind::Empty);
    assert_eq!(MathNodeContent::True.kind(), NodeKind::True);
    assert_eq!(MathNodeContent::Text("a".to_string()).kind(), NodeKind::Text);
    assert_eq!(MathNodeContent::String("a".to_string()).kind(), NodeKind::String);
    assert_eq!(MathNodeContent::And(vec![]).kind(), NodeKind::And);
    assert_eq!(bracketed(BracketStyle::Floor).content.kind(), NodeKind::Bracketed);
}
