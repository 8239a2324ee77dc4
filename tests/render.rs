use bbcode_viewer::{
    apply_style, is_inline, is_safe_to_parse, level_to_size, show_bbnode, tag_from, text_is_blank, Alignment,
    BBCodeCache, BBCodeViewer, DrawOp, Node, NodeFormatter, Style, Tag, TextColor, Tree, DEFAULT_SIZE,
    SCRIPT_SIZE,
};

fn node(tag: Tag, text: &str, value: Option<&str>, children: Vec<usize>) -> Node {
    Node { tag, text: text.to_string(), value: value.map(|v| v.to_string()), children }
}

fn render(tree: &Tree) -> Vec<DrawOp> {
    let mut out = Vec::new();
    show_bbnode(tree, 0, Style::base(), &mut out);
    out
}

fn label(s: &str) -> DrawOp {
    DrawOp::Label(s.to_string())
}

fn styled(s: &str, st: Style) -> DrawOp {
    DrawOp::StyledLabel(s.to_string(), st)
}

fn strong() -> Style {
    Style { color: TextColor::Strong, ..Style::base() }
}

#[test]
fn cache_returns_same_tree_twice() {
    let mut cache = BBCodeCache::new();
    let first = cache.get_bbtree("[b]bold[/b] and [i]more[/i]").clone();
    let second = cache.get_bbtree("[b]bold[/b] and [i]more[/i]").clone();
    assert_eq!(first, second);
    assert!(first.nodes.len() >= 2);
}

#[test]
fn cache_keys_are_exact() {
    let mut cache = BBCodeCache::new();
    let a = cache.get_bbtree("[b]x[/b]").clone();
    let b = cache.get_bbtree("[B]x[/B] ").clone();
    assert_eq!(a.nodes[1].tag, Tag::Bold);
    assert_eq!(b.nodes[1].tag, Tag::Bold);
    assert_ne!(a, b);
}

#[test]
fn parsed_tree_matches_parser() {
    let mut cache = BBCodeCache::new();
    let t = cache.get_bbtree("[b]bold[/b]").clone();
    assert_eq!(t.nodes.len(), 2);
    assert_eq!(t.nodes[0], node(Tag::Plain, "", None, vec![1]));
    assert_eq!(t.nodes[1], node(Tag::Bold, "bold", None, vec![]));
}

#[test]
fn parsed_value_is_kept() {
    let mut cache = BBCodeCache::new();
    let t = cache.get_bbtree("[size=3]big[/size]").clone();
    assert_eq!(t.nodes[1].tag, Tag::FontSize);
    assert_eq!(t.nodes[1].value, Some("3".to_string()));
    assert_eq!(t.nodes[1].text, "big");
}

#[test]
fn viewer_renders_through_cache() {
    let viewer = BBCodeViewer::new();
    let mut cache = BBCodeCache::new();
    let ops = viewer.show(&mut cache, "[b]bold[/b]");
    assert_eq!(ops, vec![label(""), styled("bold", strong())]);
    let again = viewer.show(&mut cache, "[b]bold[/b]");
    assert_eq!(ops, again);
}

#[test]
fn cascade_nearest_wins() {
    // root -> bold -> italic -> underline, and an italic sibling of bold
    let tree = Tree {
        nodes: vec![
            node(Tag::Plain, "", None, vec![1, 4]),
            node(Tag::Bold, "B", None, vec![2]),
            node(Tag::Italic, "I", None, vec![3]),
            node(Tag::Underline, "U", None, vec![]),
            node(Tag::Italic, "sib", None, vec![]),
        ],
    };
    let bi = Style { italics: true, ..strong() };
    let biu = Style { underline: true, ..bi };
    let sib = Style { italics: true, ..Style::base() };
    assert_eq!(
        render(&tree),
        vec![label(""), styled("B", strong()), styled("I", bi), styled("U", biu), styled("sib", sib)]
    );
}

#[test]
fn inner_alignment_overrides_outer() {
    let tree = Tree {
        nodes: vec![
            node(Tag::Center, "c", None, vec![1]),
            node(Tag::Right, "r", None, vec![]),
        ],
    };
    let c = Style { align: Alignment::Center, ..Style::base() };
    let r = Style { align: Alignment::Right, ..Style::base() };
    assert_eq!(render(&tree), vec![styled("c", c), styled("r", r)]);
}

#[test]
fn blank_bold_emits_nothing_but_children_keep_style() {
    let tree = Tree {
        nodes: vec![
            node(Tag::Bold, "   ", None, vec![1]),
            node(Tag::Italic, "x", None, vec![]),
        ],
    };
    assert_eq!(render(&tree), vec![styled("x", Style { italics: true, ..strong() })]);
}

#[test]
fn empty_bold_emits_nothing() {
    let tree = Tree { nodes: vec![node(Tag::Bold, "", None, vec![])] };
    assert_eq!(render(&tree), Vec::<DrawOp>::new());
}

#[test]
fn ordered_list_children_once_with_index() {
    let tree = Tree {
        nodes: vec![
            node(Tag::ListOrdered, "steps", None, vec![1, 2]),
            node(Tag::Plain, "a", None, vec![]),
            node(Tag::Plain, "b", None, vec![]),
        ],
    };
    assert_eq!(
        render(&tree),
        vec![
            DrawOp::BeginCollapsing(0, "steps".to_string()),
            DrawOp::BeginColumn(false),
            DrawOp::BeginRow,
            DrawOp::ListIndex(0),
            label("a"),
            DrawOp::EndRow,
            DrawOp::BeginRow,
            DrawOp::ListIndex(1),
            label("b"),
            DrawOp::EndRow,
            DrawOp::EndColumn,
            DrawOp::EndCollapsing,
        ]
    );
}

#[test]
fn unordered_list_with_title_and_bullets() {
    let tree = Tree {
        nodes: vec![
            node(Tag::ListUnordered, "", Some("Title"), vec![1]),
            node(Tag::Plain, "item", None, vec![]),
        ],
    };
    assert_eq!(
        render(&tree),
        vec![
            DrawOp::BeginColumn(true),
            label("Title"),
            DrawOp::BeginRow,
            DrawOp::Bullet,
            label("item"),
            DrawOp::EndRow,
            DrawOp::EndColumn,
        ]
    );
}

#[test]
fn unordered_list_empty_title_is_skipped() {
    let tree = Tree { nodes: vec![node(Tag::ListUnordered, "", Some(""), vec![])] };
    assert_eq!(render(&tree), vec![DrawOp::BeginColumn(true), DrawOp::EndColumn]);
}

#[test]
fn link_with_empty_text_shows_target() {
    let tree = Tree { nodes: vec![node(Tag::Link, "", Some("http://example.com"), vec![])] };
    assert_eq!(
        render(&tree),
        vec![DrawOp::Hyperlink("http://example.com".to_string(), "http://example.com".to_string())]
    );
}

#[test]
fn link_with_text_points_to_target() {
    let tree = Tree {
        nodes: vec![
            node(Tag::Link, "click here", Some("http://example.com"), vec![1]),
            node(Tag::Plain, "ignored", None, vec![]),
        ],
    };
    assert_eq!(
        render(&tree),
        vec![DrawOp::Hyperlink("click here".to_string(), "http://example.com".to_string())]
    );
}

#[test]
fn link_without_value_uses_text() {
    let tree = Tree { nodes: vec![node(Tag::Link, "http://a.b", None, vec![])] };
    assert_eq!(
        render(&tree),
        vec![DrawOp::Hyperlink("http://a.b".to_string(), "http://a.b".to_string())]
    );
}

#[test]
fn font_size_three_applies_to_descendants() {
    let tree = Tree {
        nodes: vec![
            node(Tag::FontSize, "big", Some("3"), vec![1]),
            node(Tag::Italic, "still big", None, vec![2]),
            node(Tag::Subscript, "small", None, vec![]),
        ],
    };
    let big = Style { size: 208, ..Style::base() };
    assert_eq!(
        render(&tree),
        vec![
            styled("big", big),
            styled("still big", Style { italics: true, ..big }),
            styled("small", Style { italics: true, size: SCRIPT_SIZE, align: Alignment::Bottom, ..big }),
        ]
    );
}

#[test]
fn font_size_ladder() {
    assert_eq!(level_to_size("1"), Some(320));
    assert_eq!(level_to_size("2"), Some(240));
    assert_eq!(level_to_size("3"), Some(208));
    assert_eq!(level_to_size("4"), Some(160));
    assert_eq!(level_to_size("5"), Some(128));
    assert_eq!(level_to_size("6"), Some(112));
    assert_eq!(level_to_size("7"), None);
    assert_eq!(level_to_size("33"), None);
    assert_eq!(level_to_size(""), None);
}

#[test]
fn unknown_size_level_keeps_inherited() {
    let base = Style::base();
    assert_eq!(apply_style(Tag::FontSize, &Some("9".to_string()), base), base);
    assert_eq!(apply_style(Tag::FontSize, &None, base), base);
    assert_eq!(base.size, DEFAULT_SIZE);
}

#[test]
fn scripts_shrink_and_align() {
    let base = Style::base();
    let sup = apply_style(Tag::Superscript, &None, base);
    let sub = apply_style(Tag::Subscript, &None, base);
    assert_eq!(sup.size, 70);
    assert_eq!(sub.size, 70);
    assert_eq!(sup.align, Alignment::Top);
    assert_eq!(sub.align, Alignment::Bottom);
}

#[test]
fn font_color_is_a_no_op() {
    let base = Style::base();
    assert_eq!(apply_style(Tag::FontColor, &Some("#ff0000".to_string()), base), base);
}

#[test]
fn plain_label_tags_do_not_restyle_children() {
    let tree = Tree {
        nodes: vec![
            node(Tag::Bold, "b", None, vec![1]),
            node(Tag::Quote, "q", None, vec![2]),
            node(Tag::Code, "c", None, vec![3]),
            node(Tag::Strikethrough, "s", None, vec![]),
        ],
    };
    assert_eq!(
        render(&tree),
        vec![
            styled("b", strong()),
            label("q"),
            DrawOp::CodeLabel("c".to_string()),
            styled("s", Style { strikethrough: true, ..strong() }),
        ]
    );
}

#[test]
fn plain_empty_text_still_labelled() {
    let tree = Tree::empty();
    assert_eq!(render(&tree), vec![label("")]);
}

#[test]
fn add_child_links_parent() {
    let mut tree = Tree::empty();
    let a = tree.add_child(0, node(Tag::Bold, "x", None, vec![]));
    let b = tree.add_child(a, node(Tag::Plain, "y", None, vec![]));
    assert_eq!((a, b), (1, 2));
    assert_eq!(tree.nodes[0].children, vec![1]);
    assert_eq!(tree.nodes[1].children, vec![2]);
    assert_eq!(render(&tree), vec![label(""), styled("x", strong()), label("y")]);
}

#[test]
fn blank_detection() {
    assert!(text_is_blank(""));
    assert!(text_is_blank(" \t\n"));
    assert!(text_is_blank("\u{3000}\u{a0}"));
    assert!(!text_is_blank(" a "));
    assert!(!text_is_blank("x"));
}

#[test]
fn inline_tags() {
    assert!(is_inline(Tag::ListItem));
    assert!(is_inline(Tag::FontColor));
    assert!(!is_inline(Tag::Quote));
    assert!(!is_inline(Tag::Plain));
    assert!(!is_inline(Tag::Link));
}

#[test]
fn parser_tags_convert() {
    assert_eq!(tag_from(&bbcode_tagger::BBTag::None), Tag::Plain);
    assert_eq!(tag_from(&bbcode_tagger::BBTag::ListOrdered), Tag::ListOrdered);
    assert_eq!(tag_from(&bbcode_tagger::BBTag::Unknown), Tag::Unknown);
}

#[test]
fn formatter_renders_from_root() {
    let tree = Tree {
        nodes: vec![
            node(Tag::Plain, "", None, vec![1, 2]),
            node(Tag::Superscript, "up", None, vec![]),
            node(Tag::Image, "pic.png", None, vec![]),
        ],
    };
    let sup = Style { size: SCRIPT_SIZE, align: Alignment::Top, ..Style::base() };
    assert_eq!(
        NodeFormatter::new().format(&tree),
        vec![label(""), styled("up", sup), label("pic.png")]
    );
}

#[test]
fn parser_safe_inputs_accepted() {
    assert!(is_safe_to_parse(""));
    assert!(is_safe_to_parse("plain text ] only"));
    assert!(is_safe_to_parse("Hello [b]world[/b]!"));
    assert!(is_safe_to_parse("[size=3]big[/size] [url=http://example.com]x[/url]"));
    assert!(is_safe_to_parse("[list]\n[*]a\n[*]b\n[/list]"));
    assert!(is_safe_to_parse("[li]item[/li]"));
    assert!(is_safe_to_parse("[b]x[/B]"));
    assert!(is_safe_to_parse("[b]x[/i]"));
    assert!(is_safe_to_parse("[quote author=x]said[/quote]"));
    assert!(is_safe_to_parse("a [ stray bracket"));
    assert!(is_safe_to_parse("line\r\nbreak [ol][b]a[/b][/ol]"));
}

#[test]
fn parser_panicking_inputs_refused() {
    assert!(!is_safe_to_parse("a[/b]"));
    assert!(!is_safe_to_parse("[/ ]"));
    assert!(!is_safe_to_parse("[b]x[/b][/i]y[/i]"));
}

#[test]
fn list_items_come_out_of_the_cache() {
    let mut cache = BBCodeCache::new();
    let t = cache.get_bbtree("[list]\n[*]a\n[*]b\n[/list]").clone();
    assert_eq!(t.nodes[1].tag, Tag::ListUnordered);
    let items: Vec<Tag> = t.nodes[1].children.iter().map(|&c| t.nodes[c].tag).collect();
    assert_eq!(items, vec![Tag::ListItem, Tag::ListItem]);
    let b = cache.get_bbtree("[b]x[/B]after").clone();
    assert_eq!(b.nodes[1], node(Tag::Bold, "x", None, vec![]));
    assert_eq!(b.nodes[2], node(Tag::Plain, "after", None, vec![]));
}

#[test]
fn malformed_input_cached_as_plain_text() {
    let mut cache = BBCodeCache::new();
    let t = cache.get_bbtree("a[/b]").clone();
    assert_eq!(t.nodes, vec![node(Tag::Plain, "a[/b]", None, vec![])]);
    let viewer = BBCodeViewer::new();
    assert_eq!(viewer.show(&mut cache, "[/ ]"), vec![label("[/ ]")]);
}

#[test]
fn children_may_precede_parents_in_the_table() {
    let tree = Tree {
        nodes: vec![
            node(Tag::Plain, "", None, vec![2]),
            node(Tag::Italic, "inner", None, vec![]),
            node(Tag::Bold, "outer", None, vec![1]),
        ],
    };
    assert_eq!(
        render(&tree),
        vec![label(""), styled("outer", strong()), styled("inner", Style { italics: true, ..strong() })]
    );
}
