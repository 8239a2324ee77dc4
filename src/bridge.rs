//! The outside parser: its types as Verus sees them, what is relied on of
//! its calls, and the conversion of its output into a `Tree`.
use vstd::prelude::*;
use bbcode_tagger::{BBCode, BBNode, BBTag, BBTree};
use crate::style::Tag;
use crate::tree::{Node, Tree};
use crate::markup::parse_is_safe;

verus! {

/// The parser, opaque.
#[verifier::external_type_specification]
#[verifier::external_body]
pub struct ExBBCode(BBCode);

/// The parser's tree, opaque (it has a private id counter); its node table is
/// seen through `bb_nodes`.
#[verifier::external_type_specification]
#[verifier::external_body]
pub struct ExBBTree(BBTree);

/// The parser's tag kinds, a plain enum with its variants visible.
#[verifier::external_type_specification]
pub struct ExBBTag(BBTag);

/// The parser's node, a record of public fields that verified code reads.
#[verifier::external_type_specification]
pub struct ExBBNode(BBNode);

/// The node table of a parser tree, keyed by node id.
pub uninterp spec fn bb_nodes(t: BBTree) -> Map<int, BBNode>;

/// The node table that the parser builds for a source text.
pub uninterp spec fn parse_nodes(s: Seq<char>) -> Map<int, BBNode>;

/// The shape that the parser gives its trees: ids `0..n` with `n >= 1`, and
/// every child id above its parent's and among the ids.
pub open spec fn parser_shape(m: Map<int, BBNode>) -> bool {
    &&& m.dom().finite()
    &&& m.dom().len() >= 1
    &&& m.dom().len() <= i32::MAX
    &&& forall|i: int| #[trigger] m.dom().contains(i) <==> 0 <= i < m.dom().len()
    &&& forall|i: int, k: int|
        m.dom().contains(i) && 0 <= k < m[i].children@.len() ==> i < #[trigger] m[i].children@[k]
            < m.dom().len()
}

/// The parser's tag kind for a tag name.
pub uninterp spec fn tag_named(s: Seq<char>) -> BBTag;

/// Relies on `BBTag::from(&str)`: the kind depends on the name's text alone
/// (it is trimmed, lower-cased and looked up).
pub assume_specification<'a>[ <BBTag as core::convert::From<&'a str>>::from ](value: &str) -> (r: BBTag)
    ensures
        r == tag_named(value@),
;

/// Relies on `BBCode::default`, which builds the parser's matchers.
pub assume_specification[ <BBCode as core::default::Default>::default ]() -> BBCode;

/// Relies on `BBCode::parse`: the tree depends on the input alone (the parser
/// holds only fixed matchers); it starts from a root with id 0, gives ids by
/// `BBTree::add_node` one after another, and appends each new id to the
/// children of a node that was added earlier.
///
/// It panics only by unwrapping the missing parent of the root, on a closing
/// tag: when the current node is the root and the root holds text, when a
/// closing tag's kind is the root's own (`None`), or when the current node is
/// a text node directly under the root and the closing kind is the root's.
/// `parse_is_safe` replays the parser's walk (newline rule, open, close, text,
/// in its order) on the path from the root to the current node and refuses
/// exactly those steps; a `[` at which the open or close pattern could match
/// in a way it does not model is refused too. Node ids stay below
/// `i32::MAX`, as there are at most one more nodes than characters.
pub assume_specification[ BBCode::parse ](parser: &BBCode, input: &str) -> (r: BBTree)
    requires
        parse_is_safe(input@),
    ensures
        bb_nodes(r) == parse_nodes(input@),
        parser_shape(bb_nodes(r)),
;

/// Relies on `BBTree::get_node`, a lookup in the node table that panics on a
/// missing id.
pub assume_specification[ BBTree::get_node ](t: &BBTree, i: i32) -> (r: &BBNode)
    requires
        bb_nodes(*t).dom().contains(i as int),
    ensures
        *r == bb_nodes(*t)[i as int],
;

/// Relies on `HashMap::len` of the parser tree's node table: one entry per id.
#[verifier::external_body]
fn node_count(t: &BBTree) -> (r: usize)
    requires
        bb_nodes(*t).dom().finite(),
    ensures
        r as int == bb_nodes(*t).dom().len(),
{
    t.nodes.len()
}

/// The library's tag for a tag of the parser: the same kind, with the
/// parser's `None` as `Plain`.
pub open spec fn tag_of(t: BBTag) -> Tag {
    match t {
        BBTag::None => Tag::Plain,
        BBTag::Bold => Tag::Bold,
        BBTag::Italic => Tag::Italic,
        BBTag::Underline => Tag::Underline,
        BBTag::Strikethrough => Tag::Strikethrough,
        BBTag::FontSize => Tag::FontSize,
        BBTag::FontColor => Tag::FontColor,
        BBTag::Center => Tag::Center,
        BBTag::Left => Tag::Left,
        BBTag::Right => Tag::Right,
        BBTag::Superscript => Tag::Superscript,
        BBTag::Subscript => Tag::Subscript,
        BBTag::Blur => Tag::Blur,
        BBTag::Quote => Tag::Quote,
        BBTag::Spoiler => Tag::Spoiler,
        BBTag::Link => Tag::Link,
        BBTag::Email => Tag::Email,
        BBTag::Image => Tag::Image,
        BBTag::ListOrdered => Tag::ListOrdered,
        BBTag::ListUnordered => Tag::ListUnordered,
        BBTag::ListItem => Tag::ListItem,
        BBTag::Code => Tag::Code,
        BBTag::Preformatted => Tag::Preformatted,
        BBTag::Table => Tag::Table,
        BBTag::TableHeading => Tag::TableHeading,
        BBTag::TableRow => Tag::TableRow,
        BBTag::TableCell => Tag::TableCell,
        BBTag::YouTube => Tag::YouTube,
        BBTag::Unknown => Tag::Unknown,
    }
}

/// The library's tag for a tag of the parser.
pub fn tag_from(t: &BBTag) -> (r: Tag)
    ensures
        r == tag_of(*t),
{
    match t {
        BBTag::None => Tag::Plain,
        BBTag::Bold => Tag::Bold,
        BBTag::Italic => Tag::Italic,
        BBTag::Underline => Tag::Underline,
        BBTag::Strikethrough => Tag::Strikethrough,
        BBTag::FontSize => Tag::FontSize,
        BBTag::FontColor => Tag::FontColor,
        BBTag::Center => Tag::Center,
        BBTag::Left => Tag::Left,
        BBTag::Right => Tag::Right,
        BBTag::Superscript => Tag::Superscript,
        BBTag::Subscript => Tag::Subscript,
        BBTag::Blur => Tag::Blur,
        BBTag::Quote => Tag::Quote,
        BBTag::Spoiler => Tag::Spoiler,
        BBTag::Link => Tag::Link,
        BBTag::Email => Tag::Email,
        BBTag::Image => Tag::Image,
        BBTag::ListOrdered => Tag::ListOrdered,
        BBTag::ListUnordered => Tag::ListUnordered,
        BBTag::ListItem => Tag::ListItem,
        BBTag::Code => Tag::Code,
        BBTag::Preformatted => Tag::Preformatted,
        BBTag::Table => Tag::Table,
        BBTag::TableHeading => Tag::TableHeading,
        BBTag::TableRow => Tag::TableRow,
        BBTag::TableCell => Tag::TableCell,
        BBTag::YouTube => Tag::YouTube,
        BBTag::Unknown => Tag::Unknown,
    }
}

/// The child indices of a parser node, which must lie above `i` and below `n`.
fn children_from(kids: &Vec<i32>, i: usize, n: usize) -> (r: Vec<usize>)
    requires
        forall|k: int| 0 <= k < kids@.len() ==> i < #[trigger] kids@[k] < n,
    ensures
        r@.len() == kids@.len(),
        forall|k: int| 0 <= k < kids@.len() ==> #[trigger] r@[k] as int == kids@[k] as int,
{
    let mut r: Vec<usize> = Vec::new();
    let mut k: usize = 0;
    while k < kids.len()
        invariant
            k <= kids@.len(),
            r@.len() == k,
            forall|m: int| 0 <= m < kids@.len() ==> i < #[trigger] kids@[m] < n,
            forall|m: int| 0 <= m < k ==> #[trigger] r@[m] as int == kids@[m] as int,
        decreases kids@.len() - k,
    {
        let c = kids[k];
        r.push(c as usize);
        k = k + 1;
    }
    r
}

impl Node {
    /// This node carries what the parser's node carries: kind, text, value
    /// and child ids.
    pub open spec fn same_as(&self, b: BBNode) -> bool {
        &&& self.tag == tag_of(b.tag)
        &&& self.text == b.text
        &&& self.value == b.value
        &&& self.children@.len() == b.children@.len()
        &&& forall|k: int| 0 <= k < b.children@.len() ==> #[trigger] self.children@[k] as int
            == b.children@[k] as int
    }
}

impl Tree {
    /// Node for node, this tree carries the parser's node table `m`.
    pub open spec fn mirrors(&self, m: Map<int, BBNode>) -> bool {
        &&& self.nodes@.len() == m.dom().len()
        &&& forall|i: int| 0 <= i < self.nodes@.len() ==> #[trigger] self.nodes@[i].same_as(m[i])
    }

    /// The library's tree for a tree of the parser, node for node: same ids,
    /// same child lists.
    pub fn from_bbtree(t: &BBTree) -> (r: Tree)
        requires
            parser_shape(bb_nodes(*t)),
        ensures
            r.wf(),
            r.mirrors(bb_nodes(*t)),
    {
        let n = node_count(t);
        let mut nodes: Vec<Node> = Vec::new();
        let mut i: usize = 0;
        while i < n
            invariant
                parser_shape(bb_nodes(*t)),
                n as int == bb_nodes(*t).dom().len(),
                i <= n,
                nodes@.len() == i,
                forall|j: int| 0 <= j < i ==> #[trigger] nodes@[j].same_as(bb_nodes(*t)[j]),
            decreases n - i,
        {
            assert(bb_nodes(*t).dom().contains(i as int));
            let b = t.get_node(i as i32);
            let value = match &b.value {
                Some(v) => Some(v.clone()),
                None => None,
            };
            let node = Node {
                tag: tag_from(&b.tag),
                text: b.text.clone(),
                value,
                children: children_from(&b.children, i, n),
            };
            nodes.push(node);
            i = i + 1;
        }
        let r = Tree { nodes };
        assert forall|j: int, k: int|
            0 <= j < r.nodes@.len() && 0 <= k < r.nodes@[j].children@.len() implies {
                let c = #[trigger] r.nodes@[j].children@[k];
                c < r.nodes@.len() && r.rank_by_position()[c as int] < r.rank_by_position()[j]
            } by {
            assert(bb_nodes(*t).dom().contains(j));
            assert(r.nodes@[j].same_as(bb_nodes(*t)[j]));
            assert(r.nodes@[j].children@[k] as int == bb_nodes(*t)[j].children@[k] as int);
        }
        assert(r.ranks(r.rank_by_position()));
        r
    }
}

} // verus!
