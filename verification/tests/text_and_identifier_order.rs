use std::cmp::Ordering;
use turn_render::math_node::Identifier;
use turn_render::text_order::{compare_texts, TextOrder};

fn id(body: &str) -> Identifier {
    Identifier::new_simple(body.to_string())
}

#[test]
fn texts_are_ordered_character_by_character() {
    assert_eq!(compare_texts("", ""), TextOrder::Same);
    assert_eq!(compare_texts("", "a"), TextOrder::Before);
    assert_eq!(compare_texts("a", ""), TextOrder::After);
    assert_eq!(compare_texts("a", "a"), TextOrder::Same);
    assert_eq!(compare_texts("a", "b"), TextOrder::Before);
    assert_eq!(compare_texts("b", "a"), TextOrder::After);
    assert_eq!(compare_texts("ab", "abc"), TextOrder::Before);
    assert_eq!(compare_texts("abc", "ab"), TextOrder::After);
    assert_eq!(compare_texts("abd", "abc"), TextOrder::After);
    assert_eq!(compare_texts("Z", "a"), TextOrder::Before);
    assert_eq!(compare_texts("z", "α"), TextOrder::Before);
    assert_eq!(compare_texts("∇", "α"), TextOrder::After);
}

#[test]
fn text_order_is_the_order_of_strings() {
    let samples = ["", "x", "x1", "x_1", "X", "y", "xy", "α", "β", "αβ", "∇", "∇f", "é", "e", "𝔾", "G", "10", "9"];
    for a in samples {
        for b in samples {
            let expected = match a.cmp(b) {
                Ordering::Less => TextOrder::Before,
                Ordering::Equal => TextOrder::Same,
                Ordering::Greater => TextOrder::After,
            };
            assert_eq!(compare_texts(a, b), expected, "{a:?} against {b:?}");
        }
    }
}

#[test]
fn identifiers_are_ordered_by_body() {
    assert_eq!(id("a").partial_cmp(&id("b")), Some(Ordering::Less));
    assert_eq!(id("b").partial_cmp(&id("a")), Some(Ordering::Greater));
    assert_eq!(id("a").partial_cmp(&id("a")), Some(Ordering::Equal));
    assert!(id("G") < id("H"));
    assert!(id("x") <= id("x"));
    assert!(id("x2") > id("x10"));
    assert!(id("") < id("x"));
}

#[test]
fn decorations_do_not_count_in_the_order() {
    let plain = id("x");
    let mut primed = id("x");
    primed.primes = 2;
    let subscripted = Identifier::simple_string_subscript("x".to_string(), "1".to_string());
    assert_ne!(plain, primed);
    assert_eq!(plain.partial_cmp(&primed), Some(Ordering::Equal));
    assert_eq!(primed.partial_cmp(&subscripted), Some(Ordering::Equal));
    assert!(!(plain < primed) && !(plain > primed));
    assert!(subscripted < id("y"));
}
