//! The parsed document: an arena of nodes, children referenced by index.
use vstd::prelude::*;
use crate::style::Tag;

verus! {

/// One element of a parsed document.
#[derive(Clone, Debug, PartialEq, Eq)]
pub struct Node {
    pub tag: Tag,
    /// The raw text that this node owns; may be empty.
    pub text: String,
    /// The tag's parameter (a size level, a link target, a list title).
    pub value: Option<String>,
    /// Indices of the children, in document order.
    pub children: Vec<usize>,
}

/// A parsed document: a table of nodes whose first entry is the root.
#[derive(Clone, Debug, PartialEq, Eq)]
pub struct Tree {
    pub nodes: Vec<Node>,
}

impl Tree {
    /// `r` ranks the nodes: one rank per node, and every child index points
    /// into the table at a node ranked strictly below its parent.
    pub open spec fn ranks(&self, r: Seq<nat>) -> bool {
        &&& r.len() == self.nodes@.len()
        &&& forall|i: int, k: int|
            0 <= i < self.nodes@.len() && 0 <= k < self.nodes@[i].children@.len() ==> {
                let c = #[trigger] self.nodes@[i].children@[k];
                c < self.nodes@.len() && r[c as int] < r[i]
            }
    }

    /// A tree is well formed when it has a root and its child links admit a
    /// ranking, so that no path can cycle.
    pub open spec fn wf(&self) -> bool {
        &&& self.nodes@.len() > 0
        &&& exists|r: Seq<nat>| #[trigger] self.ranks(r)
    }

    /// A ranking of a well-formed tree.
    pub open spec fn rank(&self) -> Seq<nat> {
        choose|r: Seq<nat>| #[trigger] self.ranks(r)
    }

    /// The ranking by distance from the end of the table, for trees whose
    /// children come after their parents.
    pub open spec fn rank_by_position(&self) -> Seq<nat> {
        Seq::new(self.nodes@.len(), |i: int| (self.nodes@.len() - i) as nat)
    }

    /// A tree of one empty plain node.
    pub fn empty() -> (r: Tree)
        ensures
            r.wf(),
            r.nodes@.len() == 1,
            r.nodes@[0].tag == Tag::Plain,
            r.nodes@[0].text@.len() == 0,
            r.nodes@[0].value.is_none(),
            r.nodes@[0].children@.len() == 0,
    {
        let root = Node { tag: Tag::Plain, text: String::new(), value: None, children: Vec::new() };
        let r = Tree { nodes: vec![root] };
        assert(r.ranks(r.rank_by_position()));
        r
    }

    /// This tree is the single plain node holding `s`.
    pub open spec fn is_plain_text(&self, s: Seq<char>) -> bool {
        &&& self.nodes@.len() == 1
        &&& self.nodes@[0].tag == Tag::Plain
        &&& self.nodes@[0].text@ == s
        &&& self.nodes@[0].value.is_none()
        &&& self.nodes@[0].children@.len() == 0
    }

    /// A tree of one plain node holding `text`.
    pub fn plain(text: String) -> (r: Tree)
        ensures
            r.wf(),
            r.is_plain_text(text@),
    {
        let root = Node { tag: Tag::Plain, text, value: None, children: Vec::new() };
        let r = Tree { nodes: vec![root] };
        assert(r.ranks(r.rank_by_position()));
        r
    }

    /// Append `node` as the last child of `parent`, returning its index.
    pub fn add_child(&mut self, parent: usize, node: Node) -> (r: usize)
        requires
            old(self).wf(),
            parent < old(self).nodes@.len(),
            node.children@.len() == 0,
            old(self).nodes@.len() < usize::MAX,
        ensures
            final(self).wf(),
            r == old(self).nodes@.len(),
            final(self).nodes@.len() == old(self).nodes@.len() + 1,
            final(self).nodes@[r as int] == node,
            final(self).nodes@[parent as int].children@ == old(self).nodes@[parent as int].children@.push(r),
            final(self).nodes@[parent as int].tag == old(self).nodes@[parent as int].tag,
            final(self).nodes@[parent as int].text == old(self).nodes@[parent as int].text,
            final(self).nodes@[parent as int].value == old(self).nodes@[parent as int].value,
            forall|j: int| 0 <= j < old(self).nodes@.len() && j != parent ==> final(self).nodes@[j] == old(self).nodes@[j],
    {
        let r = self.nodes.len();
        self.nodes.push(node);
        let mut p = self.nodes.remove(parent);
        p.children.push(r);
        self.nodes.insert(parent, p);
        proof {
            let pre = old(self).nodes@.push(node);
            assert(self.nodes@ =~= pre.update(parent as int, p));
            let r0 = old(self).rank();
            assert(old(self).ranks(r0));
            let r1 = Seq::new(self.nodes@.len(), |j: int| if j < r { r0[j] + 1 } else { 0nat });
            assert forall|i: int, k: int|
                0 <= i < self.nodes@.len() && 0 <= k < self.nodes@[i].children@.len() implies {
                    let c = #[trigger] self.nodes@[i].children@[k];
                    c < self.nodes@.len() && r1[c as int] < r1[i]
                } by {
                if i != parent && i < r {
                    assert(self.nodes@[i] == old(self).nodes@[i]);
                } else if i == parent && k < old(self).nodes@[i].children@.len() {
                    assert(self.nodes@[i].children@[k] == old(self).nodes@[i].children@[k]);
                }
            }
            assert(self.ranks(r1));
        }
        r
    }
}

} // verus!
