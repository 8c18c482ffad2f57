//! What a tree has to satisfy beyond its types: how deep it nests, and the
//! structural rules that the types leave open.

use crate::errors::{
    violations_view, TreeConstraint, TreeError, TreeErrorModel, Violation, ViolationModel,
};
use crate::interchange::{greatest, lemma_greatest_bound};
use crate::math_node::{
    Identifier, MathNode, MathNodeContent, RefinedAddOrSubOperator, RefinedMulOrDivOperation,
    ScriptNode,
};
use crate::model::{
    add_terms_view, diffs_view, identifier_view, mul_terms_view, node_view, nodes_view,
    opt_arc_view, opt_script_view, opt_view, rows_view, ContentModel, IdentifierModel, NodeModel,
    ScriptModel,
};
use std::sync::Arc;
use vstd::prelude::*;

verus! {

/// The children of an optional child: itself, if it is there.
pub open spec fn opt_children(slot: Option<Box<NodeModel>>) -> Seq<NodeModel> {
    match slot {
        Some(node) => Seq::empty().push(*node),
        None => Seq::empty(),
    }
}

/// The terms of a product chain without their operators.
pub open spec fn product_term_nodes(terms: Seq<(RefinedMulOrDivOperation, NodeModel)>) -> Seq<
    NodeModel,
> {
    terms.map_values(|term: (RefinedMulOrDivOperation, NodeModel)| term.1)
}

/// The terms of a sum chain without their signs.
pub open spec fn sum_term_nodes(terms: Seq<(RefinedAddOrSubOperator, NodeModel)>) -> Seq<
    NodeModel,
> {
    terms.map_values(|term: (RefinedAddOrSubOperator, NodeModel)| term.1)
}

/// One differential of an integral, then its bounds where it has them.
pub open spec fn differential_nodes(
    d: (NodeModel, Option<Box<NodeModel>>, Option<Box<NodeModel>>),
) -> Seq<NodeModel> {
    Seq::empty().push(d.0) + opt_children(d.1) + opt_children(d.2)
}

/// The differentials of an integral with their bounds, in order.
pub open spec fn differential_children(
    diffs: Seq<(NodeModel, Option<Box<NodeModel>>, Option<Box<NodeModel>>)>,
) -> Seq<NodeModel> {
    diffs.map_values(
        |d: (NodeModel, Option<Box<NodeModel>>, Option<Box<NodeModel>>)| differential_nodes(d),
    ).flatten()
}

/// The entries of an optional script group: subscripts, then superscripts.
pub open spec fn script_children(slot: Option<ScriptModel>) -> Seq<NodeModel> {
    match slot {
        Some(script) => script.subscripts + script.superscripts,
        None => Seq::empty(),
    }
}

/// The expressions inside an identifier: the scripts before the body, then
/// those after it.
pub open spec fn identifier_children(identifier: IdentifierModel) -> Seq<NodeModel> {
    script_children(identifier.pre_script) + script_children(identifier.post_script)
}

/// The nodes directly below a node, in the order in which the node's content
/// declares them. This is also the order in which they are written.
pub open spec fn children(node: NodeModel) -> Seq<NodeModel> {
    match node.content {
        ContentModel::Bracketed { inner, .. } => Seq::empty().push(*inner),
        ContentModel::Matrix { rows } => Seq::empty() + rows.flatten(),
        ContentModel::Multiplications { terms } => Seq::empty() + product_term_nodes(terms),
        ContentModel::Additions { terms } => Seq::empty() + sum_term_nodes(terms),
        ContentModel::Division { numerator, denominator, .. } => Seq::empty()
            .push(*numerator)
            .push(*denominator),
        ContentModel::SumNotation { summand, variable, lower_limit, upper_limit } => Seq::empty()
            .push(*summand)
            + opt_children(variable)
            + opt_children(lower_limit)
            + opt_children(upper_limit),
        ContentModel::ProductNotation {
            multiplicand,
            variable,
            lower_limit,
            upper_limit,
        } => Seq::empty()
            .push(*multiplicand)
            + opt_children(variable)
            + opt_children(lower_limit)
            + opt_children(upper_limit),
        ContentModel::Fraction { numerator, denominator } => Seq::empty()
            .push(*numerator)
            .push(*denominator),
        ContentModel::Power { base, exponent } => Seq::empty().push(*base).push(*exponent),
        ContentModel::UnaryPostfixOperation { parameter, operator } => Seq::empty()
            .push(*parameter)
            .push(*operator),
        ContentModel::UnaryPrefixOperation { parameter, operator } => Seq::empty()
            .push(*parameter)
            .push(*operator),
        ContentModel::Abs { parameter } => Seq::empty().push(*parameter),
        ContentModel::FunctionCall { name, parameters } => Seq::empty().push(*name) + parameters,
        ContentModel::Quantity { scientific_notation, unit, .. } => Seq::empty()
            + opt_children(scientific_notation)
            + opt_children(unit),
        ContentModel::ScientificNotation { magnitude, .. } => Seq::empty().push(*magnitude),
        ContentModel::Identifier(identifier) => Seq::empty() + identifier_children(identifier),
        ContentModel::Unit { original_form, flattened_form } => Seq::empty()
            .push(*original_form)
            .push(*flattened_form),
        ContentModel::Relationship { lhs, rhs, .. } => Seq::empty().push(*lhs).push(*rhs),
        ContentModel::UnaryRelationship { subject, .. } => Seq::empty().push(*subject),
        ContentModel::VariableDefinition { name, definition } => Seq::empty()
            .push(*name)
            + opt_children(definition),
        ContentModel::FunctionDefinition { custom_function, definition } => Seq::empty()
            .push(*custom_function)
            + opt_children(definition),
        ContentModel::Limit { function, approaching_value, .. } => Seq::empty()
            .push(*function)
            .push(*approaching_value),
        ContentModel::Differential { target, order, .. } => Seq::empty().push(*target).push(*order),
        ContentModel::Integration { integrand, differentials, domain } => Seq::empty()
            .push(*integrand)
            + differential_children(differentials)
            + opt_children(domain),
        ContentModel::QuantifiedExpression { variables, domain, predicate, .. } => Seq::empty()
            + variables
            + opt_children(domain)
            + opt_children(predicate),
        ContentModel::And(operands) => Seq::empty() + operands,
        ContentModel::Or(operands) => Seq::empty() + operands,
        ContentModel::Not(operand) => Seq::empty().push(*operand),
        _ => Seq::empty(),
    }
}

/// An entry of a flattened sequence of sequences is an entry of one of them.
proof fn lemma_flatten_entry<A>(rows: Seq<Seq<A>>, i: int) -> (at: (int, int))
    requires
        0 <= i < rows.flatten().len(),
    ensures
        0 <= at.0 < rows.len(),
        0 <= at.1 < rows[at.0].len(),
        rows.flatten()[i] == rows[at.0][at.1],
    decreases rows.len(),
{
    if rows.len() == 0 {
        (0, 0)
    } else if i < rows.first().len() {
        (0, i)
    } else {
        let at = lemma_flatten_entry(rows.drop_first(), i - rows.first().len());
        (at.0 + 1, at.1)
    }
}

/// Every child of a node is a strict part of it.
pub proof fn lemma_children_decrease(node: NodeModel, i: int)
    requires
        0 <= i < children(node).len(),
    ensures
        decreases_to!(node => children(node)[i]),
{
    match node.content {
        ContentModel::Matrix { rows } => {
            let at = lemma_flatten_entry(rows, i);
            assert(decreases_to!(rows => rows[at.0]));
            assert(decreases_to!(rows[at.0] => rows[at.0][at.1]));
        },
        ContentModel::Multiplications { terms } => {
            assert(decreases_to!(terms => terms[i]));
        },
        ContentModel::Additions { terms } => {
            assert(decreases_to!(terms => terms[i]));
        },
        ContentModel::Integration { integrand, differentials, domain } => {
            let parts = differentials.map_values(
                |d: (NodeModel, Option<Box<NodeModel>>, Option<Box<NodeModel>>)|
                    differential_nodes(d),
            );
            if 1 <= i < 1 + parts.flatten().len() {
                let at = lemma_flatten_entry(parts, i - 1);
                assert(decreases_to!(differentials => differentials[at.0]));
            }
        },
        _ => {},
    }
}

/// The depths of the children of a node.
pub open spec fn child_depths(node: NodeModel) -> Seq<nat>
    decreases node, 0nat,
{
    let kids = children(node);
    Seq::new(
        kids.len(),
        |i: int|
            if 0 <= i < kids.len() {
                proof {
                    lemma_children_decrease(node, i);
                }
                depth(kids[i])
            } else {
                0
            },
    )
}

/// How many levels a tree has: one for a node without children, else one more
/// than its deepest child.
pub open spec fn depth(node: NodeModel) -> nat
    decreases node, 1nat,
{
    1 + greatest(child_depths(node))
}

/// A tree is within a limit exactly when the limit is positive and every child
/// is within one less.
pub proof fn lemma_depth_bound(node: NodeModel, limit: int)
    ensures
        depth(node) <= limit <==> limit >= 1 && forall|i: int|
            0 <= i < children(node).len() ==> depth(#[trigger] children(node)[i]) <= limit - 1,
{
    let depths = child_depths(node);
    let kids = children(node);
    lemma_greatest_bound(depths, limit - 1);
    if limit >= 1 && forall|i: int| 0 <= i < depths.len() ==> #[trigger] depths[i] <= limit - 1 {
        assert forall|i: int| 0 <= i < kids.len() implies depth(#[trigger] kids[i]) <= limit
            - 1 by {
            assert(depths[i] == depth(kids[i]));
        }
    }
    if limit >= 1 && forall|i: int| 0 <= i < kids.len() ==> depth(#[trigger] kids[i]) <= limit - 1 {
        assert forall|i: int| 0 <= i < depths.len() implies #[trigger] depths[i] <= limit - 1 by {
            assert(depths[i] == depth(kids[i]));
        }
    }
}

/// Whether the rows of a matrix differ in length.
pub open spec fn ragged(rows: Seq<Seq<NodeModel>>) -> bool {
    exists|i: int| 0 <= i < rows.len() && (#[trigger] rows[i]).len() != rows[0].len()
}

/// The rule that the node itself breaks, if it breaks one. Each kind of node
/// is subject to at most one rule.
pub open spec fn broken_rule(node: NodeModel) -> Option<TreeConstraint> {
    match node.content {
        ContentModel::VariableDefinition { name, .. } => if name.content is Identifier {
            None
        } else {
            Some(TreeConstraint::NameIsIdentifier)
        },
        ContentModel::FunctionDefinition { custom_function, .. } => {
            if custom_function.content is FunctionCall {
                None
            } else {
                Some(TreeConstraint::HeadIsFunctionCall)
            }
        },
        ContentModel::Identifier(identifier) => if identifier.well_formed() {
            None
        } else {
            Some(TreeConstraint::IdentifierHasBody)
        },
        ContentModel::Matrix { rows } => if ragged(rows) {
            Some(TreeConstraint::MatrixIsRectangular)
        } else {
            None
        },
        ContentModel::Bracketed { size, .. } => if size.drawable() {
            None
        } else {
            Some(TreeConstraint::BracketStepExists)
        },
        _ => None,
    }
}

/// The violation at the node itself, as a sequence of none or one.
pub open spec fn own_violations(node: NodeModel) -> Seq<ViolationModel> {
    match broken_rule(node) {
        Some(constraint) => Seq::empty().push(ViolationModel { node_id: node.id, constraint }),
        None => Seq::empty(),
    }
}

/// The violations of each child's subtree, child by child.
pub open spec fn child_violations(node: NodeModel) -> Seq<Seq<ViolationModel>>
    decreases node, 0nat,
{
    let kids = children(node);
    Seq::new(
        kids.len(),
        |i: int|
            if 0 <= i < kids.len() {
                proof {
                    lemma_children_decrease(node, i);
                }
                violations(kids[i])
            } else {
                Seq::empty()
            },
    )
}

/// Every rule broken anywhere in a tree, in the order of a walk that visits a
/// node before its children and the children in their order.
pub open spec fn violations(node: NodeModel) -> Seq<ViolationModel>
    decreases node, 1nat,
{
    own_violations(node) + child_violations(node).flatten()
}

/// The first violation of a fatal rule, if there is one.
pub open spec fn first_fatal(found: Seq<ViolationModel>) -> Option<ViolationModel>
    decreases found.len(),
{
    if found.len() == 0 {
        None
    } else if found[0].constraint.fatal() {
        Some(found[0])
    } else {
        first_fatal(found.drop_first())
    }
}

/// Whether none of the first `i` violations is fatal.
pub open spec fn none_fatal_before(found: Seq<ViolationModel>, i: int) -> bool {
    forall|j: int| 0 <= j < i ==> !(#[trigger] found[j]).constraint.fatal()
}

/// What [`first_fatal`] finds: nothing exactly when no violation is fatal, else
/// a fatal violation before which none is fatal.
pub proof fn lemma_first_fatal(found: Seq<ViolationModel>)
    ensures
        first_fatal(found) is None <==> forall|i: int|
            0 <= i < found.len() ==> !(#[trigger] found[i]).constraint.fatal(),
        first_fatal(found) matches Some(v) ==> v.constraint.fatal() && exists|i: int|
            0 <= i < found.len() && #[trigger] found[i] == v && none_fatal_before(found, i),
    decreases found.len(),
{
    if found.len() > 0 {
        let rest = found.drop_first();
        lemma_first_fatal(rest);
        if found[0].constraint.fatal() {
            assert(found[0] == first_fatal(found)->Some_0);
        } else {
            assert forall|i: int| 0 <= i < rest.len() implies rest[i] == found[i + 1] by {}
            if first_fatal(found) is None {
                assert forall|i: int| 0 <= i < found.len() implies !(#[trigger] found[i])
                    .constraint.fatal() by {
                    if i > 0 {
                        assert(rest[i - 1] == found[i]);
                    }
                }
            } else {
                let v = first_fatal(found)->Some_0;
                let k = choose|k: int|
                    0 <= k < rest.len() && #[trigger] rest[k] == v && none_fatal_before(rest, k);
                assert(found[k + 1] == v);
                assert forall|j: int| 0 <= j < k + 1 implies !(#[trigger] found[j])
                    .constraint.fatal() by {
                    if j > 0 {
                        assert(rest[j - 1] == found[j]);
                    }
                }
                assert(none_fatal_before(found, k + 1));
            }
        }
    }
}

/// The values of the nodes that some references point to.
pub open spec fn refs_view(kids: Seq<&MathNode>) -> Seq<NodeModel> {
    kids.map_values(|kid: &MathNode| kid@)
}

fn no_children<'a>() -> (kids: Vec<&'a MathNode>)
    ensures
        refs_view(kids@) == Seq::<NodeModel>::empty(),
{
    let kids: Vec<&'a MathNode> = Vec::new();
    assert(refs_view(kids@) =~= Seq::<NodeModel>::empty());
    kids
}

fn push_child<'a>(kids: &mut Vec<&'a MathNode>, node: &'a MathNode)
    ensures
        refs_view(final(kids)@) == refs_view(old(kids)@).push(node@),
{
    kids.push(node);
    assert(refs_view(kids@) =~= refs_view(old(kids)@).push(node@));
}

fn push_opt<'a>(kids: &mut Vec<&'a MathNode>, slot: &'a Option<MathNode>)
    ensures
        refs_view(final(kids)@) == refs_view(old(kids)@) + opt_children(opt_view(*slot)),
{
    match slot {
        Some(node) => {
            push_child(kids, node);
        },
        None => {},
    }
    assert(refs_view(kids@) =~= refs_view(old(kids)@) + opt_children(opt_view(*slot)));
}

fn push_shared_opt<'a>(kids: &mut Vec<&'a MathNode>, slot: &'a Option<Arc<MathNode>>)
    ensures
        refs_view(final(kids)@) == refs_view(old(kids)@) + opt_children(opt_arc_view(*slot)),
{
    match slot {
        Some(node) => {
            push_child(kids, node);
        },
        None => {},
    }
    assert(refs_view(kids@) =~= refs_view(old(kids)@) + opt_children(opt_arc_view(*slot)));
}

fn push_nodes<'a>(kids: &mut Vec<&'a MathNode>, nodes: &'a Vec<MathNode>)
    ensures
        refs_view(final(kids)@) == refs_view(old(kids)@) + nodes_view(*nodes),
{
    let mut i: usize = 0;
    while i < nodes.len()
        invariant
            i <= nodes.len(),
            refs_view(kids@) == refs_view(old(kids)@) + nodes_view(*nodes).take(i as int),
        decreases nodes.len() - i,
    {
        push_child(kids, &nodes[i]);
        assert(nodes_view(*nodes).take(i + 1) =~= nodes_view(*nodes).take(i as int).push(
            nodes[i as int]@,
        ));
        i += 1;
    }
    assert(nodes_view(*nodes).take(i as int) =~= nodes_view(*nodes));
}

fn push_rows<'a>(kids: &mut Vec<&'a MathNode>, rows: &'a Vec<Vec<MathNode>>)
    ensures
        refs_view(final(kids)@) == refs_view(old(kids)@) + rows_view(*rows).flatten(),
{
    let ghost all = rows_view(*rows);
    let mut i: usize = 0;
    assert(all.take(0).flatten() =~= Seq::<NodeModel>::empty());
    while i < rows.len()
        invariant
            i <= rows.len(),
            all == rows_view(*rows),
            refs_view(kids@) == refs_view(old(kids)@) + all.take(i as int).flatten(),
        decreases rows.len() - i,
    {
        push_nodes(kids, &rows[i]);
        proof {
            assert(all.take(i + 1) =~= all.take(i as int).push(all[i as int]));
            all.take(i as int).lemma_flatten_push(all[i as int]);
        }
        i += 1;
    }
    assert(all.take(i as int) =~= all);
}

fn push_product_terms<'a>(
    kids: &mut Vec<&'a MathNode>,
    terms: &'a Vec<(RefinedMulOrDivOperation, MathNode)>,
)
    ensures
        refs_view(final(kids)@) == refs_view(old(kids)@) + product_term_nodes(
            mul_terms_view(*terms),
        ),
{
    let ghost all = product_term_nodes(mul_terms_view(*terms));
    let mut i: usize = 0;
    while i < terms.len()
        invariant
            i <= terms.len(),
            all == product_term_nodes(mul_terms_view(*terms)),
            refs_view(kids@) == refs_view(old(kids)@) + all.take(i as int),
        decreases terms.len() - i,
    {
        push_child(kids, &terms[i].1);
        assert(all.take(i + 1) =~= all.take(i as int).push(terms[i as int].1@));
        i += 1;
    }
    assert(all.take(i as int) =~= all);
}

fn push_sum_terms<'a>(
    kids: &mut Vec<&'a MathNode>,
    terms: &'a Vec<(RefinedAddOrSubOperator, MathNode)>,
)
    ensures
        refs_view(final(kids)@) == refs_view(old(kids)@) + sum_term_nodes(add_terms_view(*terms)),
{
    let ghost all = sum_term_nodes(add_terms_view(*terms));
    let mut i: usize = 0;
    while i < terms.len()
        invariant
            i <= terms.len(),
            all == sum_term_nodes(add_terms_view(*terms)),
            refs_view(kids@) == refs_view(old(kids)@) + all.take(i as int),
        decreases terms.len() - i,
    {
        push_child(kids, &terms[i].1);
        assert(all.take(i + 1) =~= all.take(i as int).push(terms[i as int].1@));
        i += 1;
    }
    assert(all.take(i as int) =~= all);
}

fn push_differentials<'a>(
    kids: &mut Vec<&'a MathNode>,
    diffs: &'a Vec<(Arc<MathNode>, Option<Arc<MathNode>>, Option<Arc<MathNode>>)>,
)
    ensures
        refs_view(final(kids)@) == refs_view(old(kids)@) + differential_children(
            diffs_view(*diffs),
        ),
{
    let ghost parts = diffs_view(*diffs).map_values(
        |d: (NodeModel, Option<Box<NodeModel>>, Option<Box<NodeModel>>)| differential_nodes(d),
    );
    let mut i: usize = 0;
    assert(parts.take(0).flatten() =~= Seq::<NodeModel>::empty());
    while i < diffs.len()
        invariant
            i <= diffs.len(),
            parts == diffs_view(*diffs).map_values(
                |d: (NodeModel, Option<Box<NodeModel>>, Option<Box<NodeModel>>)|
                    differential_nodes(d),
            ),
            refs_view(kids@) == refs_view(old(kids)@) + parts.take(i as int).flatten(),
        decreases diffs.len() - i,
    {
        let ghost before = refs_view(kids@);
        push_child(kids, &diffs[i].0);
        push_shared_opt(kids, &diffs[i].1);
        push_shared_opt(kids, &diffs[i].2);
        proof {
            assert(refs_view(kids@) =~= before + parts[i as int]);
            assert(parts.take(i + 1) =~= parts.take(i as int).push(parts[i as int]));
            parts.take(i as int).lemma_flatten_push(parts[i as int]);
        }
        i += 1;
    }
    assert(parts.take(i as int) =~= parts);
}

fn push_script<'a>(kids: &mut Vec<&'a MathNode>, slot: &'a Option<ScriptNode>)
    ensures
        refs_view(final(kids)@) == refs_view(old(kids)@) + script_children(opt_script_view(*slot)),
{
    proof {
        reveal_with_fuel(opt_script_view, 2);
    }
    match slot {
        Some(script) => {
            push_nodes(kids, &script.subscripts);
            push_nodes(kids, &script.superscripts);
        },
        None => {},
    }
    assert(refs_view(kids@) =~= refs_view(old(kids)@) + script_children(opt_script_view(*slot)));
}

fn push_identifier<'a>(kids: &mut Vec<&'a MathNode>, identifier: &'a Identifier)
    ensures
        refs_view(final(kids)@) == refs_view(old(kids)@) + identifier_children(
            identifier_view(*identifier),
        ),
{
    push_script(kids, &identifier.pre_script);
    push_script(kids, &identifier.post_script);
    assert(refs_view(kids@) =~= refs_view(old(kids)@) + identifier_children(
        identifier_view(*identifier),
    ));
}

impl Identifier {
    /// Whether the identifier has a body or is the empty marker.
    pub fn is_well_formed(&self) -> (ok: bool)
        ensures
            ok == self@.well_formed(),
    {
        proof {
            reveal_with_fuel(opt_script_view, 2);
        }
        if !self.body.as_str().is_empty() {
            return true;
        }
        assert(self@.body =~= Seq::<char>::empty());
        self.pre_script.is_none() && self.mid_script.is_none() && self.post_script.is_none()
            && self.primes == 0 && !self.is_function
    }
}

/// Whether the rows of a matrix differ in length.
fn is_ragged(rows: &Vec<Vec<MathNode>>) -> (yes: bool)
    ensures
        yes == ragged(rows_view(*rows)),
{
    let ghost all = rows_view(*rows);
    let mut i: usize = 1;
    while i < rows.len()
        invariant
            1 <= i,
            all == rows_view(*rows),
            forall|j: int|
                0 <= j < i && j < all.len() ==> (#[trigger] all[j]).len() == all[0].len(),
        decreases rows.len() - i,
    {
        if rows[i].len() != rows[0].len() {
            assert(all[i as int].len() != all[0].len());
            return true;
        }
        i += 1;
    }
    false
}

/// The rule that the node itself breaks, if it breaks one.
fn rule_broken_at(node: &MathNode) -> (rule: Option<TreeConstraint>)
    ensures
        rule == broken_rule(node@),
{
    proof {
        reveal_with_fuel(node_view, 3);
    }
    match &*node.content {
        MathNodeContent::VariableDefinition { name, .. } => {
            if matches!(*name.content, MathNodeContent::Identifier(_)) {
                None
            } else {
                Some(TreeConstraint::NameIsIdentifier)
            }
        },
        MathNodeContent::FunctionDefinition { custom_function, .. } => {
            if matches!(*custom_function.content, MathNodeContent::FunctionCall { .. }) {
                None
            } else {
                Some(TreeConstraint::HeadIsFunctionCall)
            }
        },
        MathNodeContent::Identifier(identifier) => {
            if identifier.is_well_formed() {
                None
            } else {
                Some(TreeConstraint::IdentifierHasBody)
            }
        },
        MathNodeContent::Matrix { rows } => {
            if is_ragged(rows) {
                Some(TreeConstraint::MatrixIsRectangular)
            } else {
                None
            }
        },
        MathNodeContent::Bracketed { size, .. } => {
            if size.is_drawable() {
                None
            } else {
                Some(TreeConstraint::BracketStepExists)
            }
        },
        _ => None,
    }
}

/// Appends every violation in the tree below `node`, the node's own first.
fn collect_violations(node: &MathNode, limit: usize, found: &mut Vec<Violation>)
    requires
        depth(node@) <= limit,
    ensures
        violations_view(final(found)@) == violations_view(old(found)@) + violations(node@),
    decreases limit,
{
    proof {
        lemma_depth_bound(node@, limit as int);
    }
    match rule_broken_at(node) {
        Some(constraint) => {
            found.push(Violation { node_id: node.id.clone(), constraint });
        },
        None => {},
    }
    assert(violations_view(found@) =~= violations_view(old(found)@) + own_violations(node@));
    let kids = node.children();
    let ghost below = children(node@);
    let ghost parts = child_violations(node@);
    let ghost start = violations_view(found@);
    assert(parts.take(0).flatten() =~= Seq::<ViolationModel>::empty());
    let mut i: usize = 0;
    while i < kids.len()
        invariant
            i <= kids.len(),
            limit >= 1,
            below == refs_view(kids@),
            below == children(node@),
            parts == child_violations(node@),
            forall|j: int| 0 <= j < below.len() ==> depth(#[trigger] below[j]) <= limit - 1,
            violations_view(found@) == start + parts.take(i as int).flatten(),
        decreases kids.len() - i,
    {
        let ghost before = violations_view(found@);
        assert(depth(below[i as int]) <= limit - 1);
        collect_violations(kids[i], limit - 1, found);
        proof {
            assert(parts[i as int] == violations(below[i as int]));
            assert(parts.take(i + 1) =~= parts.take(i as int).push(parts[i as int]));
            parts.take(i as int).lemma_flatten_push(parts[i as int]);
        }
        i += 1;
    }
    assert(parts.take(i as int) =~= parts);
    assert(violations_view(found@) =~= violations_view(old(found)@) + violations(node@));
}

/// The first violation of a fatal rule among `found`, if there is one.
pub fn find_first_fatal(found: &Vec<Violation>) -> (first: Option<&Violation>)
    ensures
        first is Some == first_fatal(violations_view(found@)) is Some,
        first matches Some(v) ==> first_fatal(violations_view(found@)) == Some(v@),
{
    let ghost all = violations_view(found@);
    assert(all.skip(0) =~= all);
    let mut i: usize = 0;
    while i < found.len()
        invariant
            i <= found.len(),
            all == violations_view(found@),
            first_fatal(all) == first_fatal(all.skip(i as int)),
        decreases found.len() - i,
    {
        assert(all.skip(i as int)[0] == all[i as int]);
        if found[i].constraint.is_fatal() {
            return Some(&found[i]);
        }
        assert(all.skip(i as int).drop_first() =~= all.skip(i + 1));
        i += 1;
    }
    None
}

impl MathNode {
    /// The nodes directly below this one, in the order in which the content
    /// declares them.
    pub fn children(&self) -> (kids: Vec<&MathNode>)
        ensures
            refs_view(kids@) == children(self@),
    {
        proof {
            reveal_with_fuel(node_view, 2);
        }
        let mut kids = no_children();
        match &*self.content {
            MathNodeContent::Bracketed { inner, .. } => {
                push_child(&mut kids, inner);
            },
            MathNodeContent::Matrix { rows } => {
                push_rows(&mut kids, rows);
            },
            MathNodeContent::Multiplications { terms } => {
                push_product_terms(&mut kids, terms);
            },
            MathNodeContent::Additions { terms } => {
                push_sum_terms(&mut kids, terms);
            },
            MathNodeContent::Division { numerator, denominator, .. } => {
                push_child(&mut kids, numerator);
                push_child(&mut kids, denominator);
            },
            MathNodeContent::SumNotation { summand, variable, lower_limit, upper_limit } => {
                push_child(&mut kids, summand);
                push_opt(&mut kids, variable);
                push_shared_opt(&mut kids, lower_limit);
                push_shared_opt(&mut kids, upper_limit);
            },
            MathNodeContent::ProductNotation {
                multiplicand,
                variable,
                lower_limit,
                upper_limit,
            } => {
                push_child(&mut kids, multiplicand);
                push_opt(&mut kids, variable);
                push_shared_opt(&mut kids, lower_limit);
                push_shared_opt(&mut kids, upper_limit);
            },
            MathNodeContent::Fraction { numerator, denominator } => {
                push_child(&mut kids, numerator);
                push_child(&mut kids, denominator);
            },
            MathNodeContent::Power { base, exponent } => {
                push_child(&mut kids, base);
                push_child(&mut kids, exponent);
            },
            MathNodeContent::UnaryPostfixOperation { parameter, operator } => {
                push_child(&mut kids, parameter);
                push_child(&mut kids, operator);
            },
            MathNodeContent::UnaryPrefixOperation { parameter, operator } => {
                push_child(&mut kids, parameter);
                push_child(&mut kids, operator);
            },
            MathNodeContent::Abs { parameter } => {
                push_child(&mut kids, parameter);
            },
            MathNodeContent::FunctionCall { name, parameters } => {
                push_child(&mut kids, name);
                push_nodes(&mut kids, parameters);
            },
            MathNodeContent::Quantity { scientific_notation, unit, .. } => {
                push_opt(&mut kids, scientific_notation);
                push_opt(&mut kids, unit);
            },
            MathNodeContent::ScientificNotation { magnitude, .. } => {
                push_child(&mut kids, magnitude);
            },
            MathNodeContent::Identifier(identifier) => {
                push_identifier(&mut kids, identifier);
            },
            MathNodeContent::Unit { original_form, flattened_form } => {
                push_child(&mut kids, original_form);
                push_child(&mut kids, flattened_form);
            },
            MathNodeContent::Relationship { lhs, rhs, .. } => {
                push_child(&mut kids, lhs);
                push_child(&mut kids, rhs);
            },
            MathNodeContent::UnaryRelationship { subject, .. } => {
                push_child(&mut kids, subject);
            },
            MathNodeContent::VariableDefinition { name, definition } => {
                push_child(&mut kids, name);
                push_opt(&mut kids, definition);
            },
            MathNodeContent::FunctionDefinition { custom_function, definition } => {
                push_child(&mut kids, custom_function);
                push_opt(&mut kids, definition);
            },
            MathNodeContent::Limit { function, approaching_value, .. } => {
                push_child(&mut kids, function);
                push_child(&mut kids, approaching_value);
            },
            MathNodeContent::Differential { target, order, .. } => {
                push_child(&mut kids, target);
                push_child(&mut kids, order);
            },
            MathNodeContent::Integration { integrand, differentials, domain } => {
                push_child(&mut kids, integrand);
                push_differentials(&mut kids, differentials);
                push_shared_opt(&mut kids, domain);
            },
            MathNodeContent::QuantifiedExpression { variables, domain, predicate, .. } => {
                push_nodes(&mut kids, variables);
                push_shared_opt(&mut kids, domain);
                push_shared_opt(&mut kids, predicate);
            },
            MathNodeContent::And(operands) => {
                push_nodes(&mut kids, operands);
            },
            MathNodeContent::Or(operands) => {
                push_nodes(&mut kids, operands);
            },
            MathNodeContent::Not(operand) => {
                push_child(&mut kids, operand);
            },
            _ => {},
        }
        kids
    }

    /// Every rule broken anywhere in the tree, in the order of a walk that
    /// visits a node before its children. Nothing is reported for a tree of
    /// more than `max_depth` levels: such a tree is not walked.
    pub fn validate(&self, max_depth: usize) -> (report: Result<Vec<Violation>, TreeError>)
        ensures
            report is Ok == (depth(self@) <= max_depth),
            report matches Ok(found) ==> violations_view(found@) == violations(self@),
            report matches Err(error) ==> error@ == TreeErrorModel::DepthExceeded,
    {
        if !self.within_depth(max_depth) {
            return Err(TreeError::DepthExceeded);
        }
        let mut found: Vec<Violation> = Vec::new();
        assert(violations_view(found@) =~= Seq::<ViolationModel>::empty());
        collect_violations(self, max_depth, &mut found);
        assert(violations_view(found@) =~= violations(self@));
        Ok(found)
    }

    /// A variable definition, made only if `name` is an identifier.
    pub fn variable_definition(id: String, name: MathNode, definition: Option<MathNode>) -> (made:
        Result<MathNode, TreeError>)
        ensures
            made is Ok == name@.content is Identifier,
            made matches Ok(node) ==> node@ == (NodeModel {
                id: id@,
                content: ContentModel::VariableDefinition {
                    name: Box::new(name@),
                    definition: opt_view(definition),
                },
            }),
            made matches Err(error) ==> error@ == TreeErrorModel::MalformedTree(
                ViolationModel { node_id: id@, constraint: TreeConstraint::NameIsIdentifier },
            ),
    {
        proof {
            reveal_with_fuel(node_view, 3);
        }
        if matches!(*name.content, MathNodeContent::Identifier(_)) {
            Ok(
                MathNode {
                    id,
                    content: Arc::new(
                        MathNodeContent::VariableDefinition { name: Arc::new(name), definition },
                    ),
                },
            )
        } else {
            Err(
                TreeError::MalformedTree(
                    Violation { node_id: id, constraint: TreeConstraint::NameIsIdentifier },
                ),
            )
        }
    }

    /// A function definition, made only if `custom_function` is a function
    /// call.
    pub fn function_definition(
        id: String,
        custom_function: MathNode,
        definition: Option<MathNode>,
    ) -> (made: Result<MathNode, TreeError>)
        ensures
            made is Ok == custom_function@.content is FunctionCall,
            made matches Ok(node) ==> node@ == (NodeModel {
                id: id@,
                content: ContentModel::FunctionDefinition {
                    custom_function: Box::new(custom_function@),
                    definition: opt_view(definition),
                },
            }),
            made matches Err(error) ==> error@ == TreeErrorModel::MalformedTree(
                ViolationModel { node_id: id@, constraint: TreeConstraint::HeadIsFunctionCall },
            ),
    {
        proof {
            reveal_with_fuel(node_view, 3);
        }
        if matches!(*custom_function.content, MathNodeContent::FunctionCall { .. }) {
            Ok(
                MathNode {
                    id,
                    content: Arc::new(
                        MathNodeContent::FunctionDefinition {
                            custom_function: Arc::new(custom_function),
                            definition,
                        },
                    ),
                },
            )
        } else {
            Err(
                TreeError::MalformedTree(
                    Violation { node_id: id, constraint: TreeConstraint::HeadIsFunctionCall },
                ),
            )
        }
    }

    /// Whether the tree has at most `limit` levels.
    pub fn within_depth(&self, limit: usize) -> (ok: bool)
        ensures
            ok == (depth(self@) <= limit),
        decreases limit,
    {
        proof {
            lemma_depth_bound(self@, limit as int);
        }
        if limit == 0 {
            return false;
        }
        let kids = self.children();
        let ghost below = children(self@);
        let mut i: usize = 0;
        while i < kids.len()
            invariant
                i <= kids.len(),
                limit > 0,
                below == refs_view(kids@),
                depth(self@) <= limit <==> forall|j: int|
                    0 <= j < below.len() ==> depth(#[trigger] below[j]) <= limit - 1,
                forall|j: int| 0 <= j < i ==> depth(#[trigger] below[j]) <= limit - 1,
            decreases kids.len() - i,
        {
            if !kids[i].within_depth(limit - 1) {
                assert(depth(below[i as int]) > limit - 1);
                return false;
            }
            i += 1;
        }
        true
    }
}

} // verus!
