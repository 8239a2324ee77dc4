//! A renderer for BBCode markup: a parse cache over an arena tree, and a
//! style cascade that turns a tree into a flat list of draw operations.

pub mod style;
pub mod tree;
pub mod render;
pub mod bridge;
pub mod cache;
pub mod laws;
pub mod markup;


pub use bridge::tag_from;
pub use cache::{BBCodeCache, BBCodeViewer};
pub use render::{ChildLayout, DrawOp, NodeFormatter, is_inline, show_bbnode, show_children, text_is_blank};
pub use style::{Alignment, Style, Tag, TextColor, apply_style, level_to_size, DEFAULT_SIZE, SCRIPT_SIZE};
pub use tree::{Node, Tree};
pub use markup::is_safe_to_parse;
