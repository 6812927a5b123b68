//! Change tracking for billboard text: which roots need new geometry after
//! colors changed on them or on their spans.

use vstd::prelude::*;

verus! {

/// One node of the text hierarchy, held in an arena and referred to by its
/// index there.
#[derive(Clone, Copy, Debug, PartialEq)]
pub struct TextNode {
    /// The node above, if there is one. An index outside the arena stands for
    /// a parent that no longer exists.
    pub parent: Option<usize>,
    /// The node is the root of a billboard text.
    pub is_root: bool,
    /// The node is a text span.
    pub is_span: bool,
    /// The node owns the computed layout of its text.
    pub owns_layout: bool,
}

/// The node that owns the layout of the text that `start` belongs to, found
/// by walking up at most `fuel` nodes. The walk ends without a result where
/// a node is missing, where a node that owns no layout is no span, or where
/// such a span has no parent.
pub open spec fn layout_owner(nodes: Seq<TextNode>, start: int, fuel: nat) -> Option<int>
    decreases fuel,
{
    if fuel == 0 || !(0 <= start < nodes.len()) {
        None
    } else if nodes[start].owns_layout {
        Some(start)
    } else if !nodes[start].is_span {
        None
    } else {
        match nodes[start].parent {
            Some(parent) => layout_owner(nodes, parent as int, (fuel - 1) as nat),
            None => None,
        }
    }
}

/// The node that a changed color on `node` marks as a root of its own: the
/// node itself, where it exists and is a root.
pub open spec fn root_mark(nodes: Seq<TextNode>, node: int) -> Option<int> {
    if 0 <= node < nodes.len() && nodes[node].is_root {
        Some(node)
    } else {
        None
    }
}

/// The node that a changed color on the span `node` marks: the owner of the
/// layout above its parent. The walk takes at most as many steps as the arena
/// has nodes, so a chain that runs in a circle ends without a mark.
pub open spec fn span_mark(nodes: Seq<TextNode>, node: int) -> Option<int> {
    if 0 <= node < nodes.len() && nodes[node].is_span {
        match nodes[node].parent {
            Some(parent) => layout_owner(nodes, parent as int, nodes.len()),
            None => None,
        }
    } else {
        None
    }
}

/// The marks of the changed roots, in the order of the changes.
pub open spec fn root_marks(nodes: Seq<TextNode>, changed: Seq<usize>) -> Seq<usize>
    decreases changed.len(),
{
    if changed.len() == 0 {
        Seq::empty()
    } else {
        let before = root_marks(nodes, changed.drop_last());
        match root_mark(nodes, changed.last() as int) {
            Some(root) => before.push(root as usize),
            None => before,
        }
    }
}

/// The marks of the changed spans, in the order of the changes.
pub open spec fn span_marks(nodes: Seq<TextNode>, changed: Seq<usize>) -> Seq<usize>
    decreases changed.len(),
{
    if changed.len() == 0 {
        Seq::empty()
    } else {
        let before = span_marks(nodes, changed.drop_last());
        match span_mark(nodes, changed.last() as int) {
            Some(root) => before.push(root as usize),
            None => before,
        }
    }
}

/// Walks up from `start` to the node that owns the layout.
pub fn find_layout_owner(nodes: &Vec<TextNode>, start: usize) -> (owner: Option<usize>)
    ensures
        match owner {
            Some(index) => layout_owner(nodes@, start as int, nodes@.len()) == Some(index as int),
            None => layout_owner(nodes@, start as int, nodes@.len()).is_none(),
        },
{
    let mut current: usize = start;
    let mut fuel: usize = nodes.len();
    while fuel > 0
        invariant
            fuel <= nodes.len(),
            layout_owner(nodes@, start as int, nodes@.len()) == layout_owner(
                nodes@,
                current as int,
                fuel as nat,
            ),
        decreases fuel,
    {
        if current >= nodes.len() {
            return None;
        }
        let node = nodes[current];
        if node.owns_layout {
            return Some(current);
        }
        if !node.is_span {
            return None;
        }
        match node.parent {
            Some(parent) => {
                current = parent;
            },
            None => {
                return None;
            },
        }
        fuel -= 1;
    }
    None
}

/// Finds the roots that need new geometry because a color changed:
/// first every changed node that is a root itself, then, for every changed
/// span, the owner of the layout above it. A root may be named more than
/// once; a span whose chain is broken names none.
pub fn detect_billboard_text_color_change(nodes: &Vec<TextNode>, changed: &Vec<usize>) -> (marks:
    Vec<usize>)
    ensures
        marks@ == root_marks(nodes@, changed@) + span_marks(nodes@, changed@),
{
    let mut marks: Vec<usize> = Vec::new();
    let mut i: usize = 0;
    while i < changed.len()
        invariant
            i <= changed.len(),
            marks@ == root_marks(nodes@, changed@.take(i as int)),
        decreases changed.len() - i,
    {
        let node = changed[i];
        proof {
            assert(changed@.take(i + 1).drop_last() =~= changed@.take(i as int));
        }
        if node < nodes.len() && nodes[node].is_root {
            marks.push(node);
        }
        i += 1;
    }
    proof {
        assert(changed@.take(i as int) =~= changed@);
    }
    let ghost roots = marks@;
    let mut j: usize = 0;
    while j < changed.len()
        invariant
            j <= changed.len(),
            marks@ == roots + span_marks(nodes@, changed@.take(j as int)),
        decreases changed.len() - j,
    {
        let node = changed[j];
        proof {
            assert(changed@.take(j + 1).drop_last() =~= changed@.take(j as int));
        }
        if node < nodes.len() && nodes[node].is_span {
            match nodes[node].parent {
                Some(parent) => {
                    match find_layout_owner(nodes, parent) {
                        Some(owner) => {
                            marks.push(owner);
                            proof {
                                assert(marks@ =~= roots + span_marks(
                                    nodes@,
                                    changed@.take(j + 1),
                                ));
                            }
                        },
                        None => {},
                    }
                },
                None => {},
            }
        }
        j += 1;
    }
    proof {
        assert(changed@.take(j as int) =~= changed@);
    }
    marks
}

/// A mark names a node of the arena that owns a layout.
pub proof fn lemma_layout_owner_owns(nodes: Seq<TextNode>, start: int, fuel: nat)
    ensures
        layout_owner(nodes, start, fuel) matches Some(owner) ==> 0 <= owner < nodes.len()
            && nodes[owner].owns_layout,
    decreases fuel,
{
    if fuel > 0 && 0 <= start < nodes.len() && !nodes[start].owns_layout && nodes[start].is_span {
        match nodes[start].parent {
            Some(parent) => lemma_layout_owner_owns(nodes, parent as int, (fuel - 1) as nat),
            None => {},
        }
    }
}

/// More steps never change an owner that fewer steps have found.
pub proof fn lemma_layout_owner_is_stable(nodes: Seq<TextNode>, start: int, fuel: nat, more: nat)
    requires
        fuel <= more,
        layout_owner(nodes, start, fuel).is_some(),
    ensures
        layout_owner(nodes, start, more) == layout_owner(nodes, start, fuel),
    decreases fuel,
{
    if fuel > 0 && 0 <= start < nodes.len() && !nodes[start].owns_layout && nodes[start].is_span {
        match nodes[start].parent {
            Some(parent) => lemma_layout_owner_is_stable(
                nodes,
                parent as int,
                (fuel - 1) as nat,
                (more - 1) as nat,
            ),
            None => {},
        }
    }
}

/// A span directly below the owner of a layout marks that owner.
pub proof fn lemma_child_span_marks_its_root(nodes: Seq<TextNode>, span: int, root: int)
    requires
        0 <= span < nodes.len(),
        0 <= root < nodes.len(),
        root <= usize::MAX,
        nodes[span].is_span,
        nodes[span].parent == Some(root as usize),
        nodes[root].owns_layout,
    ensures
        span_mark(nodes, span) == Some(root),
{
}

} // verus!
