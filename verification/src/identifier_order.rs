//! The order of identifiers: by their bodies alone, as texts.
//!
//! Decorations do not count: `x` and `x'` stand as equals in this order,
//! though they are different identifiers.

use crate::math_node::Identifier;
use crate::text_order::{compare_texts, text_order, TextOrder};
use std::cmp::Ordering;
use vstd::prelude::*;
use vstd::std_specs::cmp::PartialOrdSpecImpl;

verus! {

/// How the body of one identifier stands to the body of another.
pub open spec fn body_order(a: Seq<char>, b: Seq<char>) -> Ordering {
    match text_order(a, b) {
        TextOrder::Before => Ordering::Less,
        TextOrder::Same => Ordering::Equal,
        TextOrder::After => Ordering::Greater,
    }
}

impl PartialOrd for Identifier {
    fn partial_cmp(&self, other: &Self) -> (order: Option<Ordering>) {
        match compare_texts(self.body.as_str(), other.body.as_str()) {
            TextOrder::Before => Some(Ordering::Less),
            TextOrder::Same => Some(Ordering::Equal),
            TextOrder::After => Some(Ordering::Greater),
        }
    }
}

impl PartialOrdSpecImpl for Identifier {
    open spec fn obeys_partial_cmp_spec() -> bool {
        true
    }

    open spec fn partial_cmp_spec(&self, other: &Self) -> Option<Ordering> {
        Some(body_order(self.body@, other.body@))
    }
}

} // verus!
