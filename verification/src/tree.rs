use vstd::prelude::*;

use crate::text::extract_span;
use crate::text::span_text;
use crate::text::str_eq;
use crate::types::ViewAnalysisError;

verus! {

/// One node of a concrete syntax tree, held as plain data: the kind label,
/// the field name the node carries under its parent (if any), its byte span
/// in the source text, its 0-based starting row, and its direct children in
/// left-to-right order.
#[derive(Debug)]
pub struct SyntaxNode {
    pub kind: String,
    pub field_name: Option<String>,
    pub start_byte: usize,
    pub end_byte: usize,
    pub start_row: usize,
    pub children: Vec<SyntaxNode>,
}

/// A whole concrete syntax tree: its root node.
#[derive(Debug)]
pub struct SyntaxTree {
    pub root: SyntaxNode,
}

/// The verbatim text of `n`'s byte span in `text`, or `None` when the span
/// does not address `text` correctly.
pub open spec fn node_text(n: SyntaxNode, text: Seq<char>) -> Option<Seq<char>> {
    span_text(text, n.start_byte as int, n.end_byte as int)
}

/// The nodes of the subtree rooted at `node`, in depth-first pre-order,
/// restricted to those whose kind label equals `kind`.
pub open spec fn kind_preorder(node: SyntaxNode, kind: Seq<char>) -> Seq<SyntaxNode>
    decreases node,
{
    (if node.kind@ == kind {
        seq![node]
    } else {
        Seq::empty()
    }) + kind_preorder_list(node.children@, kind)
}

/// The concatenation of the kind-restricted pre-orders of `nodes`, left to
/// right.
pub open spec fn kind_preorder_list(nodes: Seq<SyntaxNode>, kind: Seq<char>) -> Seq<SyntaxNode>
    decreases nodes,
{
    if nodes.len() == 0 {
        Seq::empty()
    } else {
        kind_preorder_list(nodes.drop_last(), kind) + kind_preorder(nodes.last(), kind)
    }
}

/// The nodes of the subtree rooted at `node`, in depth-first pre-order:
/// the node itself first, then each child's subtree, left to right.
pub open spec fn preorder(node: SyntaxNode) -> Seq<SyntaxNode>
    decreases node,
{
    seq![node] + preorder_list(node.children@)
}

/// The concatenation of the pre-order listings of `nodes`, left to right.
pub open spec fn preorder_list(nodes: Seq<SyntaxNode>) -> Seq<SyntaxNode>
    decreases nodes,
{
    if nodes.len() == 0 {
        Seq::empty()
    } else {
        preorder_list(nodes.drop_last()) + preorder(nodes.last())
    }
}

/// The predicate holding of the nodes whose kind label equals `kind`.
pub open spec fn kind_pred(kind: Seq<char>) -> spec_fn(SyntaxNode) -> bool {
    |n: SyntaxNode| n.kind@ == kind
}

/// Law: enumerating a tree's nodes by kind yields exactly the full
/// depth-first pre-order enumeration of all its nodes, restricted to those
/// whose kind label matches.
pub proof fn lemma_kind_preorder_is_filtered_preorder(node: SyntaxNode, kind: Seq<char>)
    ensures
        kind_preorder(node, kind) == preorder(node).filter(kind_pred(kind)),
    decreases node,
{
    reveal(Seq::filter);
    let p = kind_pred(kind);
    Seq::<SyntaxNode>::filter_distributes_over_add(seq![node], preorder_list(node.children@), p);
    let s = seq![node];
    assert(s.drop_last() =~= Seq::<SyntaxNode>::empty());
    assert(Seq::<SyntaxNode>::empty().filter(p) == Seq::<SyntaxNode>::empty());
    assert(s.last() == node);
    if p(node) {
        assert(s.filter(p) =~= seq![node]);
    } else {
        assert(s.filter(p) =~= Seq::<SyntaxNode>::empty());
    }
    lemma_kind_preorder_list_is_filtered(node.children@, kind);
}

proof fn lemma_kind_preorder_list_is_filtered(nodes: Seq<SyntaxNode>, kind: Seq<char>)
    ensures
        kind_preorder_list(nodes, kind) == preorder_list(nodes).filter(kind_pred(kind)),
    decreases nodes,
{
    reveal(Seq::filter);
    let p = kind_pred(kind);
    if nodes.len() == 0 {
        assert(preorder_list(nodes).filter(p) =~= Seq::<SyntaxNode>::empty());
    } else {
        lemma_kind_preorder_list_is_filtered(nodes.drop_last(), kind);
        lemma_kind_preorder_is_filtered_preorder(nodes.last(), kind);
        Seq::<SyntaxNode>::filter_distributes_over_add(
            preorder_list(nodes.drop_last()),
            preorder(nodes.last()),
            p,
        );
    }
}

/// The first of `children` whose kind label equals `kind`, if any.
pub open spec fn first_child_of_kind(children: Seq<SyntaxNode>, kind: Seq<char>) -> Option<
    SyntaxNode,
>
    decreases children,
{
    if children.len() == 0 {
        None
    } else if children[0].kind@ == kind {
        Some(children[0])
    } else {
        first_child_of_kind(children.drop_first(), kind)
    }
}

/// Whether `child` carries the field name `field` under its parent.
pub open spec fn has_field(child: SyntaxNode, field: Seq<char>) -> bool {
    match child.field_name {
        Some(f) => f@ == field,
        None => false,
    }
}

/// The first of `children` that carries the field name `field`, if any.
pub open spec fn first_child_with_field(children: Seq<SyntaxNode>, field: Seq<char>) -> Option<
    SyntaxNode,
>
    decreases children,
{
    if children.len() == 0 {
        None
    } else if has_field(children[0], field) {
        Some(children[0])
    } else {
        first_child_with_field(children.drop_first(), field)
    }
}

proof fn lemma_first_child_of_kind_scan(children: Seq<SyntaxNode>, kind: Seq<char>, i: int)
    requires
        0 <= i <= children.len(),
        forall|k: int| 0 <= k < i ==> (#[trigger] children[k]).kind@ != kind,
    ensures
        first_child_of_kind(children, kind) == first_child_of_kind(children.skip(i), kind),
    decreases i,
{
    if i == 0 {
        assert(children.skip(0) =~= children);
    } else {
        lemma_first_child_of_kind_scan(children.drop_first(), kind, i - 1);
        assert(children.drop_first().skip(i - 1) =~= children.skip(i));
    }
}

proof fn lemma_first_child_with_field_scan(children: Seq<SyntaxNode>, field: Seq<char>, i: int)
    requires
        0 <= i <= children.len(),
        forall|k: int| 0 <= k < i ==> !has_field(#[trigger] children[k], field),
    ensures
        first_child_with_field(children, field) == first_child_with_field(
            children.skip(i),
            field,
        ),
    decreases i,
{
    if i == 0 {
        assert(children.skip(0) =~= children);
    } else {
        lemma_first_child_with_field_scan(children.drop_first(), field, i - 1);
        assert(children.drop_first().skip(i - 1) =~= children.skip(i));
    }
}

/// The values behind a sequence of node references.
pub open spec fn derefs(s: Seq<&SyntaxNode>) -> Seq<SyntaxNode> {
    s.map_values(|p: &SyntaxNode| *p)
}

/// Kind-based traversal primitives over a syntax tree, with no knowledge of
/// any particular language's semantics.
pub struct AstTraversal;

impl AstTraversal {
    /// The verbatim text of `node`'s byte span in `text`.
    pub fn extract_node_text(node: &SyntaxNode, text: &str) -> (r: Result<
        String,
        ViewAnalysisError,
    >)
        ensures
            match r {
                Ok(s) => node_text(*node, text@) == Some(s@),
                Err(e) => node_text(*node, text@) is None && e matches
                    ViewAnalysisError::TextExtractionError,
            },
    {
        match extract_span(text, node.start_byte, node.end_byte) {
            Some(s) => Ok(s),
            None => Err(ViewAnalysisError::TextExtractionError),
        }
    }

    /// Every node of the tree whose kind label equals `kind`, in depth-first
    /// pre-order.
    pub fn find_nodes_by_kind<'a>(tree: &'a SyntaxTree, kind: &str) -> (r: Vec<&'a SyntaxNode>)
        ensures
            derefs(r@) == kind_preorder(tree.root, kind@),
    {
        Self::collect_nodes_by_kind(&tree.root, kind)
    }

    fn collect_nodes_by_kind<'a>(node: &'a SyntaxNode, kind: &str) -> (r: Vec<&'a SyntaxNode>)
        ensures
            derefs(r@) == kind_preorder(*node, kind@),
        decreases *node,
    {
        let mut out: Vec<&'a SyntaxNode> = Vec::new();
        if str_eq(node.kind.as_str(), kind) {
            out.push(node);
        }
        proof {
            assert(derefs(out@) =~= (if node.kind@ == kind@ {
                seq![*node]
            } else {
                Seq::<SyntaxNode>::empty()
            }));
        }
        let n = node.children.len();
        let mut i: usize = 0;
        while i < n
            invariant
                i <= n,
                n == node.children.len(),
                derefs(out@) == (if node.kind@ == kind@ {
                    seq![*node]
                } else {
                    Seq::<SyntaxNode>::empty()
                }) + kind_preorder_list(node.children@.take(i as int), kind@),
            decreases n - i,
        {
            let mut sub = Self::collect_nodes_by_kind(&node.children[i], kind);
            out.append(&mut sub);
            proof {
                let cs = node.children@;
                assert(derefs(out@) =~= (if node.kind@ == kind@ {
                    seq![*node]
                } else {
                    Seq::<SyntaxNode>::empty()
                }) + kind_preorder_list(cs.take(i as int), kind@) + kind_preorder(
                    cs[i as int],
                    kind@,
                ));
                assert(cs.take(i + 1).drop_last() =~= cs.take(i as int));
                assert(cs.take(i + 1).last() == cs[i as int]);
            }
            i = i + 1;
        }
        proof {
            assert(node.children@.take(n as int) =~= node.children@);
        }
        out
    }

    /// The direct children of `node`, left to right.
    pub fn traverse_children<'a>(node: &'a SyntaxNode) -> (r: &'a [SyntaxNode])
        ensures
            r@ == node.children@,
    {
        node.children.as_slice()
    }

    /// The first direct child of `node` whose kind label equals `kind`, if
    /// any.
    pub fn find_child_by_kind<'a>(node: &'a SyntaxNode, kind: &str) -> (r: Option<&'a SyntaxNode>)
        ensures
            match r {
                Some(c) => first_child_of_kind(node.children@, kind@) == Some(*c),
                None => first_child_of_kind(node.children@, kind@) is None,
            },
    {
        let n = node.children.len();
        let mut i: usize = 0;
        while i < n
            invariant
                i <= n,
                n == node.children.len(),
                forall|k: int| 0 <= k < i ==> (#[trigger] node.children@[k]).kind@ != kind@,
            decreases n - i,
        {
            let c = &node.children[i];
            if str_eq(c.kind.as_str(), kind) {
                proof {
                    lemma_first_child_of_kind_scan(node.children@, kind@, i as int);
                    assert(node.children@.skip(i as int)[0] == node.children@[i as int]);
                }
                return Some(c);
            }
            i = i + 1;
        }
        proof {
            lemma_first_child_of_kind_scan(node.children@, kind@, n as int);
            assert(node.children@.skip(n as int).len() == 0);
        }
        None
    }

    /// The first direct child of `node` that carries the field name `field`,
    /// if any.
    pub fn find_child_by_field<'a>(node: &'a SyntaxNode, field: &str) -> (r: Option<
        &'a SyntaxNode,
    >)
        ensures
            match r {
                Some(c) => first_child_with_field(node.children@, field@) == Some(*c),
                None => first_child_with_field(node.children@, field@) is None,
            },
    {
        let n = node.children.len();
        let mut i: usize = 0;
        while i < n
            invariant
                i <= n,
                n == node.children.len(),
                forall|k: int| 0 <= k < i ==> !has_field(#[trigger] node.children@[k], field@),
            decreases n - i,
        {
            let c = &node.children[i];
            let is_match = match &c.field_name {
                Some(f) => str_eq(f.as_str(), field),
                None => false,
            };
            if is_match {
                proof {
                    lemma_first_child_with_field_scan(node.children@, field@, i as int);
                    assert(node.children@.skip(i as int)[0] == node.children@[i as int]);
                }
                return Some(c);
            }
            i = i + 1;
        }
        proof {
            lemma_first_child_with_field_scan(node.children@, field@, n as int);
            assert(node.children@.skip(n as int).len() == 0);
        }
        None
    }
}

} // verus!
