//! The code-lens line classifier: a walk over a syntax tree that collects the
//! start and end lines of the nodes that matter for folding.
use std::collections::HashSet;
use vstd::prelude::*;
use crate::text::{same_text, trim_text, trimmed};

verus! {

broadcast use vstd::std_specs::hash::group_hash_axioms, vstd::std_specs::vec::group_vec_axioms, vstd::seq::group_seq_axioms;

/// One node of a parsed syntax tree, as the classifier reads it: its kind
/// label, the rows (0-based lines) where it starts and ends, and its
/// children in source order.
pub struct SyntaxNode {
    pub kind: String,
    pub start_row: usize,
    pub end_row: usize,
    pub children: Vec<SyntaxNode>,
}

impl SyntaxNode {
    /// A node without children.
    pub fn leaf(kind: String, start_row: usize, end_row: usize) -> (r: SyntaxNode)
        ensures
            r.kind@ == kind@,
            r.start_row == start_row,
            r.end_row == end_row,
            r.children@.len() == 0,
    {
        SyntaxNode { kind, start_row, end_row, children: Vec::new() }
    }

    /// A node with the given children.
    pub fn branch(kind: String, start_row: usize, end_row: usize, children: Vec<SyntaxNode>) -> (r: SyntaxNode)
        ensures
            r.kind@ == kind@,
            r.start_row == start_row,
            r.end_row == end_row,
            r.children@ == children@,
    {
        SyntaxNode { kind, start_row, end_row, children }
    }
}

/// The labels of a list of node kinds, as character sequences.
pub open spec fn labels(kinds: Seq<&str>) -> Seq<Seq<char>> {
    kinds.map_values(|k: &str| k@)
}

/// `kinds` holds the label `k`.
pub open spec fn lists_kind(kinds: Seq<Seq<char>>, k: Seq<char>) -> bool {
    kinds.contains(k)
}

/// A node of kind `kind` marks its boundary lines: its trimmed label is not
/// empty and is not on the ignore list.
pub open spec fn marks_lines(kind: Seq<char>, ignore_list: Seq<Seq<char>>) -> bool {
    trimmed(kind).len() > 0 && !lists_kind(ignore_list, trimmed(kind))
}

/// The walk descends into a node of kind `kind`: its trimmed label is on
/// the expand list.
pub open spec fn expands(kind: Seq<char>, list: Seq<Seq<char>>) -> bool {
    lists_kind(list, trimmed(kind))
}

/// The lines that a node contributes by itself, leaving its children aside.
pub open spec fn own_lines(node: SyntaxNode, ignore_list: Seq<Seq<char>>) -> Set<usize> {
    if marks_lines(node.kind@, ignore_list) {
        set![node.start_row, node.end_row]
    } else {
        Set::empty()
    }
}

/// The significant lines of the tree rooted at `node`.
pub open spec fn tree_lines(node: SyntaxNode, list: Seq<Seq<char>>, ignore_list: Seq<Seq<char>>) -> Set<usize>
    decreases node, 1nat,
{
    if expands(node.kind@, list) {
        own_lines(node, ignore_list).union(forest_lines(node.children@, list, ignore_list))
    } else {
        own_lines(node, ignore_list)
    }
}

/// The significant lines of a sequence of sibling trees.
pub open spec fn forest_lines(nodes: Seq<SyntaxNode>, list: Seq<Seq<char>>, ignore_list: Seq<Seq<char>>) -> Set<usize>
    decreases nodes, 0nat,
{
    if nodes.len() == 0 {
        Set::empty()
    } else {
        forest_lines(nodes.drop_last(), list, ignore_list).union(
            tree_lines(nodes.last(), list, ignore_list),
        )
    }
}

/// Whether `kinds` holds `kind`.
pub(crate) fn contains_kind(kinds: &[&str], kind: &str) -> (r: bool)
    ensures
        r == lists_kind(labels(kinds@), kind@),
{
    let mut i: usize = 0;
    while i < kinds.len()
        invariant
            0 <= i <= kinds@.len(),
            forall|j: int| 0 <= j < i ==> (#[trigger] kinds@[j])@ != kind@,
        decreases kinds@.len() - i,
    {
        if same_text(kinds[i], kind) {
            proof {
                assert(labels(kinds@)[i as int] == kind@);
            }
            return true;
        }
        i = i + 1;
    }
    proof {
        assert forall|j: int| 0 <= j < labels(kinds@).len() implies labels(kinds@)[j] != kind@ by {
            assert(labels(kinds@)[j] == kinds@[j]@);
        }
    }
    false
}

/// Adds to `normal_lines` the significant lines of the tree rooted at `node`:
/// the start and end rows of each visited node whose trimmed kind is neither
/// empty nor on `ignore_list`, visiting the children of exactly those nodes
/// whose trimmed kind is on `list`.
pub fn walk_tree(node: &SyntaxNode, normal_lines: &mut HashSet<usize>, list: &[&str], ignore_list: &[&str])
    ensures
        final(normal_lines)@ == old(normal_lines)@.union(tree_lines(*node, labels(list@), labels(ignore_list@))),
    decreases node,
{
    let kind = trim_text(node.kind.as_str());
    if !contains_kind(ignore_list, kind) && !kind.is_empty() {
        normal_lines.insert(node.start_row);
        normal_lines.insert(node.end_row);
    }
    let ghost before = normal_lines@;
    proof {
        assert(before =~= old(normal_lines)@.union(own_lines(*node, labels(ignore_list@))));
    }
    if contains_kind(list, kind) {
        let mut i: usize = 0;
        while i < node.children.len()
            invariant
                0 <= i <= node.children@.len(),
                normal_lines@ == before.union(
                    forest_lines(node.children@.take(i as int), labels(list@), labels(ignore_list@)),
                ),
            decreases node.children@.len() - i,
        {
            walk_tree(&node.children[i], normal_lines, list, ignore_list);
            proof {
                let done = node.children@.take(i as int + 1);
                assert(done.drop_last() =~= node.children@.take(i as int));
                assert(done.last() == node.children@[i as int]);
                assert(normal_lines@ =~= before.union(forest_lines(done, labels(list@), labels(ignore_list@))));
            }
            i = i + 1;
        }
        proof {
            assert(node.children@.take(node.children@.len() as int) =~= node.children@);
        }
    }
}

/// A lone node whose kind is ignored contributes no line, whether or not its
/// kind is also expanded.
pub proof fn ignored_leaf_has_no_lines(node: SyntaxNode, list: Seq<Seq<char>>, ignore_list: Seq<Seq<char>>)
    requires
        lists_kind(ignore_list, trimmed(node.kind@)),
        node.children@.len() == 0,
    ensures
        tree_lines(node, list, ignore_list) == Set::<usize>::empty(),
{
    assert(forest_lines(node.children@, list, ignore_list) == Set::<usize>::empty());
    assert(tree_lines(node, list, ignore_list) =~= Set::<usize>::empty());
}

/// An expanded root with one child that is not expanded yields the lines of
/// the root and of the child and nothing from below the child: the boundary
/// rows of each of the two that is marked.
pub proof fn unexpanded_child_hides_its_subtree(
    root: SyntaxNode,
    list: Seq<Seq<char>>,
    ignore_list: Seq<Seq<char>>,
)
    requires
        expands(root.kind@, list),
        root.children@.len() == 1,
        !expands(root.children@[0].kind@, list),
    ensures
        tree_lines(root, list, ignore_list) == own_lines(root, ignore_list).union(
            own_lines(root.children@[0], ignore_list),
        ),
        marks_lines(root.kind@, ignore_list) ==> tree_lines(root, list, ignore_list).contains(
            root.start_row,
        ) && tree_lines(root, list, ignore_list).contains(root.end_row),
        marks_lines(root.children@[0].kind@, ignore_list) ==> tree_lines(
            root,
            list,
            ignore_list,
        ).contains(root.children@[0].start_row) && tree_lines(root, list, ignore_list).contains(
            root.children@[0].end_row,
        ),
{
    let children = root.children@;
    assert(children.drop_last().len() == 0);
    assert(forest_lines(children.drop_last(), list, ignore_list) == Set::<usize>::empty());
    assert(children.last() == children[0]);
    assert(tree_lines(children[0], list, ignore_list) == own_lines(children[0], ignore_list));
    assert(forest_lines(children, list, ignore_list) =~= own_lines(children[0], ignore_list));
    assert(tree_lines(root, list, ignore_list) =~= own_lines(root, ignore_list).union(
        own_lines(children[0], ignore_list),
    ));
}

/// Two trees agree on everything that the walk reads: the kind and rows of
/// each node it visits, and the number of children of each node it expands.
/// Below a node that is not expanded they may differ in any way.
pub open spec fn agree_to_the_gate(a: SyntaxNode, b: SyntaxNode, list: Seq<Seq<char>>) -> bool
    decreases a, 1nat,
{
    a.kind@ == b.kind@ && a.start_row == b.start_row && a.end_row == b.end_row && if expands(
        a.kind@,
        list,
    ) {
        forests_agree_to_the_gate(a.children@, b.children@, list)
    } else {
        true
    }
}

/// Two sequences of sibling trees agree pairwise on everything that the walk
/// reads.
pub open spec fn forests_agree_to_the_gate(
    a: Seq<SyntaxNode>,
    b: Seq<SyntaxNode>,
    list: Seq<Seq<char>>,
) -> bool
    decreases a, 0nat,
{
    a.len() == b.len() && if a.len() == 0 {
        true
    } else {
        forests_agree_to_the_gate(a.drop_last(), b.drop_last(), list) && agree_to_the_gate(
            a.last(),
            b.last(),
            list,
        )
    }
}

/// Trees that agree on everything the walk reads have the same significant
/// lines: the descendants of a node that is not expanded never contribute.
pub proof fn agreeing_trees_have_same_lines(
    a: SyntaxNode,
    b: SyntaxNode,
    list: Seq<Seq<char>>,
    ignore_list: Seq<Seq<char>>,
)
    requires
        agree_to_the_gate(a, b, list),
    ensures
        tree_lines(a, list, ignore_list) == tree_lines(b, list, ignore_list),
    decreases a, 1nat,
{
    if expands(a.kind@, list) {
        agreeing_forests_have_same_lines(a.children@, b.children@, list, ignore_list);
    }
}

/// Sibling sequences that agree on everything the walk reads have the same
/// significant lines.
pub proof fn agreeing_forests_have_same_lines(
    a: Seq<SyntaxNode>,
    b: Seq<SyntaxNode>,
    list: Seq<Seq<char>>,
    ignore_list: Seq<Seq<char>>,
)
    requires
        forests_agree_to_the_gate(a, b, list),
    ensures
        forest_lines(a, list, ignore_list) == forest_lines(b, list, ignore_list),
    decreases a, 0nat,
{
    if a.len() > 0 {
        agreeing_forests_have_same_lines(a.drop_last(), b.drop_last(), list, ignore_list);
        agreeing_trees_have_same_lines(a.last(), b.last(), list, ignore_list);
    }
}

} // verus!
