//! Properties of the cache and of the style cascade, proved over the
//! specifications that the executable functions meet.
use vstd::prelude::*;
use crate::cache::BBCodeCache;
use crate::render::{
    ChildLayout, DrawOp, child_style, is_blank, kids_ops, link_op, node_ops, own_ops,
};
use crate::style::{Alignment, Style, Tag, TextColor, apply_tag, is_inline_style, level_size};
use crate::tree::Tree;

verus! {

/// Looking the same source up twice gives the same tree, and the second
/// lookup leaves the cache as the first left it: nothing is parsed again.
pub proof fn lemma_lookup_idempotent(
    c0: BBCodeCache,
    c1: BBCodeCache,
    c2: BBCodeCache,
    s: Seq<char>,
    r1: Tree,
    r2: Tree,
)
    requires
        c0.wf(),
        BBCodeCache::lookup_step(c0, s, c1),
        c1.cached(s) == Some(r1),
        BBCodeCache::lookup_step(c1, s, c2),
        c2.cached(s) == Some(r2),
    ensures
        r1 == r2,
        c2.sources() == c1.sources(),
        c2.trees() == c1.trees(),
{
    assert(c1.sources().contains(s));
}

/// Whether a tag, with its value, replaces the font size.
pub open spec fn sets_size(t: Tag, value: Option<Seq<char>>) -> bool {
    ||| t == Tag::Superscript
    ||| t == Tag::Subscript
    ||| (t == Tag::FontSize && value is Some && level_size(value->Some_0) is Some)
}

/// Whether a tag replaces the alignment.
pub open spec fn sets_align(t: Tag) -> bool {
    t == Tag::Center || t == Tag::Left || t == Tag::Right || t == Tag::Superscript || t
        == Tag::Subscript
}

/// Nearest wins, field by field: under an outer tag, an inner tag gives each
/// field it replaces the value it gives on its own, whatever was inherited;
/// every other field keeps what the outer tag left there.
pub proof fn lemma_cascade_nearest_wins(
    outer: Tag,
    outer_value: Option<Seq<char>>,
    inner: Tag,
    inner_value: Option<Seq<char>>,
    st: Style,
)
    ensures
        ({
            let mid = apply_tag(outer, outer_value, st);
            let own = apply_tag(inner, inner_value, st);
            let r = apply_tag(inner, inner_value, mid);
            &&& r.color == (if inner == Tag::Bold { own.color } else { mid.color })
            &&& r.italics == (if inner == Tag::Italic { own.italics } else { mid.italics })
            &&& r.underline == (if inner == Tag::Underline { own.underline } else { mid.underline })
            &&& r.strikethrough == (if inner == Tag::Strikethrough { own.strikethrough } else { mid.strikethrough })
            &&& r.size == (if sets_size(inner, inner_value) { own.size } else { mid.size })
            &&& r.align == (if sets_align(inner) { own.align } else { mid.align })
        }),
{
}

/// Bold around italic: a run under both carries the strong colour and the
/// italic flag, and keeps every other inherited field.
pub proof fn lemma_bold_then_italic(st: Style, bold_value: Option<Seq<char>>, italic_value: Option<Seq<char>>)
    ensures
        apply_tag(Tag::Italic, italic_value, apply_tag(Tag::Bold, bold_value, st)) == (Style {
            color: TextColor::Strong,
            italics: true,
            ..st
        }),
{
}

/// Every child of a node that lays its children out one after another is
/// rendered from the same style, the one the node hands on; what one child
/// draws does not depend on its siblings.
pub proof fn lemma_siblings_share_context(t: Tree, i: int, k: int, st: Style)
    requires
        t.wf(),
        0 <= i < t.nodes@.len(),
        0 <= k < t.nodes@[i].children@.len(),
        t.nodes@[i].tag != Tag::Link,
        t.nodes@[i].tag != Tag::ListOrdered,
        t.nodes@[i].tag != Tag::ListUnordered,
    ensures
        node_ops(t, i, st) == own_ops(t, i, st) + kids_ops(t, i, 0, ChildLayout::Flow, child_style(t, i, st)),
        kids_ops(t, i, k, ChildLayout::Flow, child_style(t, i, st)) == node_ops(
            t,
            t.nodes@[i].children@[k] as int,
            child_style(t, i, st),
        ) + kids_ops(t, i, k + 1, ChildLayout::Flow, child_style(t, i, st)),
{
    assert(t.ranks(t.rank()));
    let c = t.nodes@[i].children@[k];
    assert(c < t.nodes@.len() && t.rank()[c as int] < t.rank()[i]);
}

/// An inline-style node whose text is empty or blank draws no run of its
/// own; its children are still drawn, under the style it sets.
pub proof fn lemma_blank_style_draws_nothing(t: Tree, i: int, st: Style)
    requires
        t.wf(),
        0 <= i < t.nodes@.len(),
        is_inline_style(t.nodes@[i].tag),
        is_blank(t.nodes@[i].text@),
    ensures
        own_ops(t, i, st) == Seq::<DrawOp>::empty(),
        node_ops(t, i, st) == kids_ops(
            t,
            i,
            0,
            ChildLayout::Flow,
            apply_tag(t.nodes@[i].tag, crate::style::opt_view(&t.nodes@[i].value), st),
        ),
{
    assert(node_ops(t, i, st) =~= seq![] + kids_ops(t, i, 0, ChildLayout::Flow, child_style(t, i, st)));
}

/// An ordered list draws a collapsible group holding its children, each
/// exactly once, in order, in a row after its zero-based index, all under
/// the style the list inherited; nothing else draws them.
pub proof fn lemma_ordered_list_exclusive(t: Tree, i: int, k: int, st: Style)
    requires
        t.wf(),
        0 <= i < t.nodes@.len(),
        t.nodes@[i].tag == Tag::ListOrdered,
        0 <= k < t.nodes@[i].children@.len(),
    ensures
        node_ops(t, i, st) == seq![DrawOp::BeginCollapsing(i as usize, t.nodes@[i].text), DrawOp::BeginColumn(false)]
            + kids_ops(t, i, 0, ChildLayout::Numbered, st) + seq![DrawOp::EndColumn, DrawOp::EndCollapsing],
        kids_ops(t, i, k, ChildLayout::Numbered, st) == seq![DrawOp::BeginRow, DrawOp::ListIndex(k as usize)]
            + node_ops(t, t.nodes@[i].children@[k] as int, st) + seq![DrawOp::EndRow]
            + kids_ops(t, i, k + 1, ChildLayout::Numbered, st),
        kids_ops(t, i, t.nodes@[i].children@.len() as int, ChildLayout::Numbered, st)
            == Seq::<DrawOp>::empty(),
{
    assert(t.ranks(t.rank()));
    let c = t.nodes@[i].children@[k];
    assert(c < t.nodes@.len() && t.rank()[c as int] < t.rank()[i]);
}

/// A link draws one hyperlink and nothing for its children. Its target is
/// its value; the display text is its own text, or the target when the text
/// is empty. Without a value the text is both.
pub proof fn lemma_link_fallback(t: Tree, i: int, st: Style)
    requires
        0 <= i < t.nodes@.len(),
        t.nodes@[i].tag == Tag::Link,
    ensures
        node_ops(t, i, st) == seq![link_op(t, i)],
        t.nodes@[i].value is Some && t.nodes@[i].text@.len() == 0 ==> link_op(t, i)
            == DrawOp::Hyperlink(t.nodes@[i].value->Some_0, t.nodes@[i].value->Some_0),
        t.nodes@[i].value is Some && t.nodes@[i].text@.len() > 0 ==> link_op(t, i)
            == DrawOp::Hyperlink(t.nodes@[i].text, t.nodes@[i].value->Some_0),
        t.nodes@[i].value is None ==> link_op(t, i) == DrawOp::Hyperlink(
            t.nodes@[i].text,
            t.nodes@[i].text,
        ),
{
}

/// Superscript and subscript both set the small script size, and differ
/// only in alignment.
pub proof fn lemma_scripts_differ_in_alignment(st: Style, v: Option<Seq<char>>, w: Option<Seq<char>>)
    ensures
        apply_tag(Tag::Superscript, v, st).size == apply_tag(Tag::Subscript, w, st).size,
        apply_tag(Tag::Superscript, v, st).align == Alignment::Top,
        apply_tag(Tag::Subscript, w, st).align == Alignment::Bottom,
        (Style { align: Alignment::Top, ..apply_tag(Tag::Subscript, w, st) }) == apply_tag(Tag::Superscript, v, st),
{
}

/// A tree once cached for `s` stays cached, unchanged, across a lookup of any
/// source.
pub proof fn lemma_cached_tree_persists(c0: BBCodeCache, s2: Seq<char>, c1: BBCodeCache, s: Seq<char>)
    requires
        c0.wf(),
        BBCodeCache::lookup_step(c0, s2, c1),
        c0.cached(s) is Some,
    ensures
        c1.cached(s) == c0.cached(s),
{
    let j = c0.sources().index_of(s);
    assert(c0.sources()[j] == s);
    if !c0.sources().contains(s2) {
        assert(c1.sources()[j] == s);
        assert(c1.sources().contains(s));
        let j1 = c1.sources().index_of(s);
        assert(c1.sources()[j1] == s);
        if j1 != j {
            if j1 < j {
                assert(c1.sources()[j1] != c1.sources()[j]);
            } else {
                assert(c1.sources()[j] != c1.sources()[j1]);
            }
        }
        assert(c1.trees()[j] == c1.trees().subrange(0, c0.trees().len() as int)[j]);
    }
}

/// Over any run of lookups, of any sources, the tree cached for `s` at the
/// start is the tree cached for `s` at the end: later lookups of `s` return
/// it and never parse again.
pub proof fn lemma_cached_tree_persists_over(
    caches: Seq<BBCodeCache>,
    inputs: Seq<Seq<char>>,
    s: Seq<char>,
)
    requires
        caches.len() == inputs.len() + 1,
        caches[0].wf(),
        caches[0].cached(s) is Some,
        forall|k: int|
            0 <= k < inputs.len() ==> BBCodeCache::lookup_step(
                #[trigger] caches[k],
                inputs[k],
                caches[k + 1],
            ),
    ensures
        caches.last().cached(s) == caches[0].cached(s),
    decreases inputs.len(),
{
    if inputs.len() > 0 {
        let n = inputs.len() - 1;
        let front = caches.drop_last();
        assert(BBCodeCache::lookup_step(caches[n], inputs[n], caches[n + 1]));
        assert forall|k: int| 0 <= k < inputs.drop_last().len() implies BBCodeCache::lookup_step(
            #[trigger] front[k],
            inputs.drop_last()[k],
            front[k + 1],
        ) by {
            assert(BBCodeCache::lookup_step(caches[k], inputs[k], caches[k + 1]));
        }
        lemma_cached_tree_persists_over(front, inputs.drop_last(), s);
        if n > 0 {
            assert(BBCodeCache::lookup_step(caches[n - 1], inputs[n - 1], caches[n]));
        }
        lemma_cached_tree_persists(caches[n], inputs[n], caches[n + 1], s);
    }
}

/// Under any layout, the `k`-th child is drawn from the style `st` that its
/// parent hands on, the same for every sibling, and what it draws does not
/// depend on the other children.
pub proof fn lemma_child_drawn_from_parent_context(t: Tree, i: int, k: int, layout: ChildLayout, st: Style)
    requires
        t.wf(),
        0 <= i < t.nodes@.len(),
        0 <= k < t.nodes@[i].children@.len(),
    ensures
        kids_ops(t, i, k, layout, st) == match layout {
            ChildLayout::Flow => node_ops(t, t.nodes@[i].children@[k] as int, st),
            ChildLayout::Numbered => seq![DrawOp::BeginRow, DrawOp::ListIndex(k as usize)]
                + node_ops(t, t.nodes@[i].children@[k] as int, st) + seq![DrawOp::EndRow],
            ChildLayout::Bulleted => seq![DrawOp::BeginRow, DrawOp::Bullet]
                + node_ops(t, t.nodes@[i].children@[k] as int, st) + seq![DrawOp::EndRow],
        } + kids_ops(t, i, k + 1, layout, st),
{
    assert(t.ranks(t.rank()));
    let c = t.nodes@[i].children@[k];
    assert(c < t.nodes@.len() && t.rank()[c as int] < t.rank()[i]);
}

/// The style handed down along a chain of nodes, from `st`, each node
/// applying its own override in turn.
pub open spec fn style_along(t: Tree, path: Seq<int>, st: Style) -> Style
    decreases path.len(),
{
    if path.len() == 0 {
        st
    } else {
        child_style(t, path.last(), style_along(t, path.drop_last(), st))
    }
}

/// Whether a node replaces the font size of what it hands on.
pub open spec fn node_sets_size(t: Tree, d: int) -> bool {
    is_inline_style(t.nodes@[d].tag) && sets_size(
        t.nodes@[d].tag,
        crate::style::opt_view(&t.nodes@[d].value),
    )
}

/// Along a chain that starts at a font-size node of level "3", every node
/// that no later node of the chain overrides in size is drawn at 20.8 points
/// (208 tenths); nodes that set no size leave the size as it was.
pub proof fn lemma_font_size_carries(t: Tree, path: Seq<int>, st: Style)
    requires
        path.len() > 0,
        forall|m: int| 0 <= m < path.len() ==> 0 <= #[trigger] path[m] < t.nodes@.len(),
        t.nodes@[path[0]].tag == Tag::FontSize,
        t.nodes@[path[0]].value is Some,
        t.nodes@[path[0]].value->Some_0@ == seq!['3'],
        forall|m: int| 0 < m < path.len() ==> !node_sets_size(t, #[trigger] path[m]),
    ensures
        style_along(t, path, st).size == 208,
    decreases path.len(),
{
    if path.len() > 1 {
        let front = path.drop_last();
        assert(front[0] == path[0]);
        assert forall|m: int| 0 < m < front.len() implies !node_sets_size(t, #[trigger] front[m]) by {
            assert(front[m] == path[m]);
        }
        lemma_font_size_carries(t, front, st);
        let d = path.last();
        assert(path[path.len() - 1] == d);
        assert(!node_sets_size(t, d));
    } else {
        let v = t.nodes@[path[0]].value->Some_0@;
        assert(v[0] == '3');
        assert(v != seq!['1'] && v != seq!['2']) by {
            assert(seq!['1'][0] == '1' && seq!['2'][0] == '2');
        }
        assert(v == seq!['3']);
        assert(level_size(v) == Some(208u32));
        assert(style_along(t, path.drop_last(), st) == st);
    }
}

} // verus!
