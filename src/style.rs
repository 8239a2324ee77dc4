//! Formatting kinds of a node and the inheritable style context.
use vstd::prelude::*;

verus! {

/// The formatting kind of a node.
#[derive(Clone, Copy, Debug, PartialEq, Eq, Structural)]
pub enum Tag {
    /// Plain text, no tag.
    Plain,
    Bold,
    Italic,
    Underline,
    Strikethrough,
    FontSize,
    FontColor,
    Center,
    Left,
    Right,
    Superscript,
    Subscript,
    Blur,
    Quote,
    Spoiler,
    Link,
    Email,
    Image,
    ListOrdered,
    ListUnordered,
    ListItem,
    Code,
    Preformatted,
    Table,
    TableHeading,
    TableRow,
    TableCell,
    YouTube,
    /// Any tag the parser did not recognise.
    Unknown,
}

/// Foreground colour of a run: the theme's ordinary text colour, or its
/// strong (emphasised) colour.
#[derive(Clone, Copy, Debug, PartialEq, Eq, Structural)]
pub enum TextColor {
    Normal,
    Strong,
}

/// Alignment of a run within its line.
#[derive(Clone, Copy, Debug, PartialEq, Eq, Structural)]
pub enum Alignment {
    Left,
    Center,
    Right,
    Top,
    Bottom,
}

/// Font size of an unstyled run, in tenths of a point.
pub const DEFAULT_SIZE: u32 = 140;

/// Font size of superscript and subscript runs, in tenths of a point.
pub const SCRIPT_SIZE: u32 = 70;

/// The inheritable visual attributes of a run. Sizes are in tenths of a point.
#[derive(Clone, Copy, Debug, PartialEq, Eq, Structural)]
pub struct Style {
    pub color: TextColor,
    pub italics: bool,
    pub underline: bool,
    pub strikethrough: bool,
    pub size: u32,
    pub align: Alignment,
}

impl Style {
    /// The context at the root of a tree: nothing overridden.
    pub fn base() -> (r: Style)
        ensures
            r == base_style(),
    {
        Style {
            color: TextColor::Normal,
            italics: false,
            underline: false,
            strikethrough: false,
            size: DEFAULT_SIZE,
            align: Alignment::Bottom,
        }
    }
}

pub open spec fn base_style() -> Style {
    Style {
        color: TextColor::Normal,
        italics: false,
        underline: false,
        strikethrough: false,
        size: DEFAULT_SIZE,
        align: Alignment::Bottom,
    }
}

/// The tags that style their own text and pass the updated style on to
/// their children.
pub open spec fn is_inline_style(t: Tag) -> bool {
    match t {
        Tag::Bold | Tag::Italic | Tag::Underline | Tag::Strikethrough | Tag::FontSize
        | Tag::FontColor | Tag::Center | Tag::Left | Tag::Right | Tag::Superscript
        | Tag::Subscript | Tag::ListItem => true,
        _ => false,
    }
}

/// The size, in tenths of a point, that a font-size level names, if any.
pub open spec fn level_size(level: Seq<char>) -> Option<u32> {
    if level == seq!['1'] {
        Some(320u32)
    } else if level == seq!['2'] {
        Some(240u32)
    } else if level == seq!['3'] {
        Some(208u32)
    } else if level == seq!['4'] {
        Some(160u32)
    } else if level == seq!['5'] {
        Some(128u32)
    } else if level == seq!['6'] {
        Some(112u32)
    } else {
        None
    }
}

/// The style that a node of tag `t` and value `value` hands to its own text and
/// to its children, given the style `st` it inherited. Each tag replaces only
/// the fields it is about; tags that are not inline styles replace nothing.
pub open spec fn apply_tag(t: Tag, value: Option<Seq<char>>, st: Style) -> Style {
    match t {
        Tag::Bold => Style { color: TextColor::Strong, ..st },
        Tag::Italic => Style { italics: true, ..st },
        Tag::Underline => Style { underline: true, ..st },
        Tag::Strikethrough => Style { strikethrough: true, ..st },
        Tag::FontSize => match value {
            Some(v) => match level_size(v) {
                Some(sz) => Style { size: sz, ..st },
                None => st,
            },
            None => st,
        },
        Tag::Center => Style { align: Alignment::Center, ..st },
        Tag::Left => Style { align: Alignment::Left, ..st },
        Tag::Right => Style { align: Alignment::Right, ..st },
        Tag::Superscript => Style { size: SCRIPT_SIZE, align: Alignment::Top, ..st },
        Tag::Subscript => Style { size: SCRIPT_SIZE, align: Alignment::Bottom, ..st },
        _ => st,
    }
}

/// Font size for a level string, by the fixed descending ladder "1" to "6".
pub fn level_to_size(level: &str) -> (r: Option<u32>)
    ensures
        r == level_size(level@),
{
    if level.unicode_len() != 1 {
        return None;
    }
    let c = level.get_char(0);
    proof {
        assert(level@ =~= seq![c]);
    }
    if c == '1' {
        Some(320)
    } else if c == '2' {
        Some(240)
    } else if c == '3' {
        Some(208)
    } else if c == '4' {
        Some(160)
    } else if c == '5' {
        Some(128)
    } else if c == '6' {
        Some(112)
    } else {
        None
    }
}

/// Apply the override of a node's own tag to the style it inherited.
pub fn apply_style(t: Tag, value: &Option<String>, st: Style) -> (r: Style)
    ensures
        r == apply_tag(t, opt_view(value), st),
{
    match t {
        Tag::Bold => Style { color: TextColor::Strong, ..st },
        Tag::Italic => Style { italics: true, ..st },
        Tag::Underline => Style { underline: true, ..st },
        Tag::Strikethrough => Style { strikethrough: true, ..st },
        Tag::FontSize => match value {
            Some(v) => match level_to_size(v.as_str()) {
                Some(sz) => Style { size: sz, ..st },
                None => st,
            },
            None => st,
        },
        Tag::Center => Style { align: Alignment::Center, ..st },
        Tag::Left => Style { align: Alignment::Left, ..st },
        Tag::Right => Style { align: Alignment::Right, ..st },
        Tag::Superscript => Style { size: SCRIPT_SIZE, align: Alignment::Top, ..st },
        Tag::Subscript => Style { size: SCRIPT_SIZE, align: Alignment::Bottom, ..st },
        _ => st,
    }
}

/// The characters of an optional string.
pub open spec fn opt_view(v: &Option<String>) -> Option<Seq<char>> {
    match v {
        Some(s) => Some(s@),
        None => None,
    }
}

} // verus!
