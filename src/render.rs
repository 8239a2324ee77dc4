//! The style cascade: walks a tree from a node down and lists what a host UI
//! has to draw, each text run with the style accumulated along its path.
use vstd::prelude::*;
use crate::style::{Tag, Style, apply_tag, apply_style, base_style, is_inline_style, opt_view};
use crate::tree::Tree;

verus! {

/// One drawing step for a host UI. `Begin*` and `End*` steps bracket groups.
#[derive(Clone, Debug, PartialEq, Eq)]
pub enum DrawOp {
    /// A plain, unstyled label.
    Label(String),
    /// A label drawn with the given style.
    StyledLabel(String, Style),
    /// A label in the monospace code style.
    CodeLabel(String),
    /// A clickable link: display text, then target.
    Hyperlink(String, String),
    /// A collapsible group, open by default: the node it belongs to (for a
    /// stable identity) and its header text.
    BeginCollapsing(usize, String),
    EndCollapsing,
    /// A vertical group; `true` asks for wrapped lines.
    BeginColumn(bool),
    EndColumn,
    /// A horizontal group.
    BeginRow,
    EndRow,
    /// The zero-based index label of an ordered list entry, shown as `"{i}.) "`.
    ListIndex(usize),
    /// The bullet label of an unordered list entry, shown as `"– "`.
    Bullet,
}

/// How the children of a node are laid out.
#[derive(Clone, Copy, Debug, PartialEq, Eq, Structural)]
pub enum ChildLayout {
    /// One after the other, as they are.
    Flow,
    /// Each in a row after its zero-based index.
    Numbered,
    /// Each in a row after a bullet.
    Bulleted,
}

/// The Unicode White_Space property, as `char::is_whitespace` tests it.
pub open spec fn white_space(c: char) -> bool {
    ('\u{9}' <= c <= '\u{d}') || c == ' ' || c == '\u{85}' || c == '\u{a0}' || c == '\u{1680}'
        || ('\u{2000}' <= c <= '\u{200a}') || c == '\u{2028}' || c == '\u{2029}' || c
        == '\u{202f}' || c == '\u{205f}' || c == '\u{3000}'
}

/// Empty, or white space only.
pub open spec fn is_blank(s: Seq<char>) -> bool {
    forall|j: int| 0 <= j < s.len() ==> white_space(#[trigger] s[j])
}

/// Whether `c` is white space, as `char::is_whitespace` has it.
pub fn is_white(c: char) -> (r: bool)
    ensures
        r == white_space(c),
{
    ('\u{9}' <= c && c <= '\u{d}') || c == ' ' || c == '\u{85}' || c == '\u{a0}' || c == '\u{1680}'
        || ('\u{2000}' <= c && c <= '\u{200a}') || c == '\u{2028}' || c == '\u{2029}' || c
        == '\u{202f}' || c == '\u{205f}' || c == '\u{3000}'
}

/// Whether a string is empty or holds white space only.
pub fn text_is_blank(s: &str) -> (r: bool)
    ensures
        r == is_blank(s@),
{
    let n = s.unicode_len();
    let mut j: usize = 0;
    while j < n
        invariant
            n == s@.len(),
            j <= n,
            forall|m: int| 0 <= m < j ==> white_space(#[trigger] s@[m]),
        decreases n - j,
    {
        if !is_white(s.get_char(j)) {
            return false;
        }
        j = j + 1;
    }
    true
}

/// What a node draws for itself, before its children.
pub open spec fn own_ops(t: Tree, i: int, st: Style) -> Seq<DrawOp> {
    let n = t.nodes@[i];
    if is_inline_style(n.tag) {
        if is_blank(n.text@) {
            seq![]
        } else {
            seq![DrawOp::StyledLabel(n.text, apply_tag(n.tag, opt_view(&n.value), st))]
        }
    } else if n.tag == Tag::Code {
        seq![DrawOp::CodeLabel(n.text)]
    } else {
        seq![DrawOp::Label(n.text)]
    }
}

/// The single step a link node draws: the display text falls back to the
/// target when empty, and the target to the text when absent.
pub open spec fn link_op(t: Tree, i: int) -> DrawOp {
    let n = t.nodes@[i];
    match n.value {
        Some(v) => if n.text@.len() == 0 {
            DrawOp::Hyperlink(v, v)
        } else {
            DrawOp::Hyperlink(n.text, v)
        },
        None => DrawOp::Hyperlink(n.text, n.text),
    }
}

/// The title step of an unordered list: its value, when present and not empty.
pub open spec fn title_ops(t: Tree, i: int) -> Seq<DrawOp> {
    match t.nodes@[i].value {
        Some(v) => if v@.len() > 0 {
            seq![DrawOp::Label(v)]
        } else {
            seq![]
        },
        None => seq![],
    }
}

/// The style that node `i` hands on to its children.
pub open spec fn child_style(t: Tree, i: int, st: Style) -> Style {
    let n = t.nodes@[i];
    if is_inline_style(n.tag) {
        apply_tag(n.tag, opt_view(&n.value), st)
    } else {
        st
    }
}

/// Everything drawn for node `i` and its subtree, given the inherited style.
pub open spec fn node_ops(t: Tree, i: int, st: Style) -> Seq<DrawOp>
    decreases t.rank()[i] as int, 1int, 0int,
{
    if !(0 <= i < t.nodes@.len()) {
        seq![]
    } else {
        let n = t.nodes@[i];
        match n.tag {
            Tag::Link => seq![link_op(t, i)],
            Tag::ListOrdered => seq![DrawOp::BeginCollapsing(i as usize, n.text), DrawOp::BeginColumn(false)]
                + kids_ops(t, i, 0, ChildLayout::Numbered, st) + seq![DrawOp::EndColumn, DrawOp::EndCollapsing],
            Tag::ListUnordered => seq![DrawOp::BeginColumn(true)] + title_ops(t, i)
                + kids_ops(t, i, 0, ChildLayout::Bulleted, st) + seq![DrawOp::EndColumn],
            _ => own_ops(t, i, st) + kids_ops(t, i, 0, ChildLayout::Flow, child_style(t, i, st)),
        }
    }
}

/// What is drawn for the children of node `i` from the `k`-th on, each with
/// the style `st` and laid out as `layout` says.
pub open spec fn kids_ops(t: Tree, i: int, k: int, layout: ChildLayout, st: Style) -> Seq<DrawOp>
    decreases t.rank()[i] as int, 0int, t.nodes@[i].children@.len() - k,
{
    if !(0 <= i < t.nodes@.len()) || k < 0 || k >= t.nodes@[i].children@.len() {
        seq![]
    } else {
        let c = t.nodes@[i].children@[k] as int;
        let sub = if 0 <= c < t.nodes@.len() && t.rank()[c] < t.rank()[i] {
            node_ops(t, c, st)
        } else {
            seq![]
        };
        let entry = match layout {
            ChildLayout::Flow => sub,
            ChildLayout::Numbered => seq![DrawOp::BeginRow, DrawOp::ListIndex(k as usize)] + sub
                + seq![DrawOp::EndRow],
            ChildLayout::Bulleted => seq![DrawOp::BeginRow, DrawOp::Bullet] + sub + seq![DrawOp::EndRow],
        };
        entry + kids_ops(t, i, k + 1, layout, st)
    }
}

/// Draw the node's own text with its style applied, unless the text is blank.
/// Returns the style its children inherit.
fn handle_text(t: &Tree, i: usize, st: Style, out: &mut Vec<DrawOp>) -> (r: Style)
    requires
        i < t.nodes@.len(),
        is_inline_style(t.nodes@[i as int].tag),
    ensures
        r == child_style(*t, i as int, st),
        final(out)@ == old(out)@ + own_ops(*t, i as int, st),
{
    let node = &t.nodes[i];
    let fmt = apply_style(node.tag, &node.value, st);
    if !text_is_blank(node.text.as_str()) {
        out.push(DrawOp::StyledLabel(node.text.clone(), fmt));
    } else {
        assert(own_ops(*t, i as int, st) =~= seq![]);
    }
    fmt
}

/// Append to `out` everything drawn for node `i` and its subtree, starting
/// from the inherited style `st`.
pub fn show_bbnode(t: &Tree, i: usize, st: Style, out: &mut Vec<DrawOp>)
    requires
        t.wf(),
        i < t.nodes@.len(),
    ensures
        final(out)@ == old(out)@ + node_ops(*t, i as int, st),
    decreases t.rank()[i as int] as int, 1int, 0int,
{
    let node = &t.nodes[i];
    match node.tag {
        Tag::Link => {
            let op = match &node.value {
                Some(v) => if node.text.unicode_len() == 0 {
                    DrawOp::Hyperlink(v.clone(), v.clone())
                } else {
                    DrawOp::Hyperlink(node.text.clone(), v.clone())
                },
                None => DrawOp::Hyperlink(node.text.clone(), node.text.clone()),
            };
            out.push(op);
        },
        Tag::ListOrdered => {
            out.push(DrawOp::BeginCollapsing(i, node.text.clone()));
            out.push(DrawOp::BeginColumn(false));
            show_children(t, i, 0, ChildLayout::Numbered, st, out);
            out.push(DrawOp::EndColumn);
            out.push(DrawOp::EndCollapsing);
        },
        Tag::ListUnordered => {
            out.push(DrawOp::BeginColumn(true));
            match &node.value {
                Some(v) => if v.unicode_len() > 0 {
                    out.push(DrawOp::Label(v.clone()));
                },
                None => {},
            }
            show_children(t, i, 0, ChildLayout::Bulleted, st, out);
            out.push(DrawOp::EndColumn);
        },
        _ => {
            let inner = if is_inline(node.tag) {
                handle_text(t, i, st, out)
            } else {
                if node.tag == Tag::Code {
                    out.push(DrawOp::CodeLabel(node.text.clone()));
                } else {
                    out.push(DrawOp::Label(node.text.clone()));
                }
                st
            };
            show_children(t, i, 0, ChildLayout::Flow, inner, out);
        },
    }
}

/// Append to `out` what is drawn for the children of node `i` from the
/// `k`-th on, laid out as `layout` says, each with the style `st`.
pub fn show_children(t: &Tree, i: usize, k: usize, layout: ChildLayout, st: Style, out: &mut Vec<DrawOp>)
    requires
        t.wf(),
        i < t.nodes@.len(),
        k <= t.nodes@[i as int].children@.len(),
    ensures
        final(out)@ == old(out)@ + kids_ops(*t, i as int, k as int, layout, st),
    decreases t.rank()[i as int] as int, 0int, t.nodes@[i as int].children@.len() - k,
{
    let kids = &t.nodes[i].children;
    let mut j: usize = k;
    while j < kids.len()
        invariant
            t.wf(),
            i < t.nodes@.len(),
            kids == &t.nodes@[i as int].children,
            k <= j <= kids@.len(),
            old(out)@ + kids_ops(*t, i as int, k as int, layout, st) == out@ + kids_ops(
                *t,
                i as int,
                j as int,
                layout,
                st,
            ),
        decreases kids@.len() - j,
    {
        let c = kids[j];
        assert(t.ranks(t.rank()));
        assert(c < t.nodes@.len() && t.rank()[c as int] < t.rank()[i as int]);
        let ghost before = out@;
        match layout {
            ChildLayout::Flow => {},
            ChildLayout::Numbered => {
                out.push(DrawOp::BeginRow);
                out.push(DrawOp::ListIndex(j));
            },
            ChildLayout::Bulleted => {
                out.push(DrawOp::BeginRow);
                out.push(DrawOp::Bullet);
            },
        }
        show_bbnode(t, c, st, out);
        match layout {
            ChildLayout::Flow => {},
            _ => out.push(DrawOp::EndRow),
        }
        proof {
            let sub = node_ops(*t, c as int, st);
            let rest = kids_ops(*t, i as int, j + 1, layout, st);
            match layout {
                ChildLayout::Flow => {
                    assert(kids_ops(*t, i as int, j as int, layout, st) == sub + rest);
                    assert(before + (sub + rest) =~= out@ + rest);
                },
                ChildLayout::Numbered => {
                    let e = seq![DrawOp::BeginRow, DrawOp::ListIndex(j)] + sub + seq![DrawOp::EndRow];
                    assert(kids_ops(*t, i as int, j as int, layout, st) == e + rest);
                    assert(before + (e + rest) =~= out@ + rest);
                },
                ChildLayout::Bulleted => {
                    let e = seq![DrawOp::BeginRow, DrawOp::Bullet] + sub + seq![DrawOp::EndRow];
                    assert(kids_ops(*t, i as int, j as int, layout, st) == e + rest);
                    assert(before + (e + rest) =~= out@ + rest);
                },
            }
        }
        j = j + 1;
    }
    assert(kids_ops(*t, i as int, j as int, layout, st) =~= seq![]);
    assert(out@ =~= out@ + kids_ops(*t, i as int, j as int, layout, st));
}

/// Whether a tag styles its own text and passes the style on.
pub fn is_inline(t: Tag) -> (r: bool)
    ensures
        r == is_inline_style(t),
{
    match t {
        Tag::Bold | Tag::Italic | Tag::Underline | Tag::Strikethrough | Tag::FontSize
        | Tag::FontColor | Tag::Center | Tag::Left | Tag::Right | Tag::Superscript
        | Tag::Subscript | Tag::ListItem => true,
        _ => false,
    }
}

/// Renders whole trees, from the root, with nothing overridden.
pub struct NodeFormatter {}

impl NodeFormatter {
    pub fn new() -> (r: NodeFormatter) {
        NodeFormatter {}
    }

    /// The draw steps for `t`, from its root with the base style.
    pub fn format(&self, t: &Tree) -> (r: Vec<DrawOp>)
        requires
            t.wf(),
        ensures
            r@ == node_ops(*t, 0, base_style()),
    {
        let mut out: Vec<DrawOp> = Vec::new();
        show_bbnode(t, 0, Style::base(), &mut out);
        assert(out@ =~= node_ops(*t, 0, base_style()));
        out
    }
}

} // verus!
