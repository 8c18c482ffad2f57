//! The order of texts: character by character, a shorter text before every
//! text that it begins.

use vstd::prelude::*;

verus! {

/// How one text stands to another.
#[derive(Debug, Clone, Copy, PartialEq, Eq, Hash, Structural)]
pub enum TextOrder {
    Before,
    Same,
    After,
}

/// Whether the character `a` comes before `b` in the code charts.
pub open spec fn char_precedes(a: char, b: char) -> bool {
    (a as u32) < (b as u32)
}

/// How `a` stands to `b` from position `from` on: decided by the first
/// position at which they differ, and where there is none, by which ends
/// first.
pub open spec fn order_from(a: Seq<char>, b: Seq<char>, from: int) -> TextOrder
    decreases a.len() - from,
{
    if from >= a.len() {
        if from >= b.len() {
            TextOrder::Same
        } else {
            TextOrder::Before
        }
    } else if from >= b.len() {
        TextOrder::After
    } else if a[from] == b[from] {
        order_from(a, b, from + 1)
    } else if char_precedes(a[from], b[from]) {
        TextOrder::Before
    } else {
        TextOrder::After
    }
}

/// How `a` stands to `b`.
pub open spec fn text_order(a: Seq<char>, b: Seq<char>) -> TextOrder {
    order_from(a, b, 0)
}

/// Two texts stand as the same exactly when they are the same text.
pub proof fn lemma_same_means_equal(a: Seq<char>, b: Seq<char>)
    ensures
        text_order(a, b) == TextOrder::Same <==> a == b,
{
    lemma_same_from(a, b, 0);
    if text_order(a, b) == TextOrder::Same {
        assert(a =~= b);
    }
}

proof fn lemma_same_from(a: Seq<char>, b: Seq<char>, from: int)
    requires
        0 <= from <= a.len(),
        from <= b.len(),
    ensures
        order_from(a, b, from) == TextOrder::Same <==> a.len() == b.len() && forall|i: int|
            from <= i < a.len() ==> a[i] == b[i],
    decreases a.len() - from,
{
    if from < a.len() && from < b.len() {
        lemma_same_from(a, b, from + 1);
    }
}

/// How `a` stands to `b`.
pub fn compare_texts(a: &str, b: &str) -> (order: TextOrder)
    ensures
        order == text_order(a@, b@),
{
    let a_len = a.unicode_len();
    let b_len = b.unicode_len();
    let mut i: usize = 0;
    while i < a_len && i < b_len
        invariant
            i <= a_len,
            i <= b_len,
            a_len == a@.len(),
            b_len == b@.len(),
            text_order(a@, b@) == order_from(a@, b@, i as int),
        decreases a_len - i,
    {
        let x = a.get_char(i);
        let y = b.get_char(i);
        if x != y {
            if (x as u32) < (y as u32) {
                return TextOrder::Before;
            } else {
                return TextOrder::After;
            }
        }
        i += 1;
    }
    if i < b_len {
        TextOrder::Before
    } else if i < a_len {
        TextOrder::After
    } else {
        TextOrder::Same
    }
}

} // verus!
