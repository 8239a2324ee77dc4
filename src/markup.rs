//! Which sources the parser can take: a replay of its walk over the input,
//! on the path from the root to its current node, that stops where the
//! parser would look up the parent of the root.
use vstd::prelude::*;
use bbcode_tagger::BBTag;
use crate::bridge::{tag_from, tag_named, tag_of};
use crate::render::{is_white, white_space};
use crate::style::Tag;

verus! {

/// The classes of characters that the tag patterns are read with.
#[derive(Clone, Copy, Debug, PartialEq, Eq, Structural)]
pub enum CharClass {
    /// A tag name: no `/`, `]`, `=`, `"` or white space.
    Name,
    /// An attribute name before `=`: no `=`, `]` or white space.
    Attr,
    /// A closing tag's name: no `]` or `/`.
    Close,
    /// The gap before an attribute: spaces and tabs.
    Gap,
    /// A tag's value: no `]` or line feed.
    Value,
}

pub open spec fn in_class(c: char, k: CharClass) -> bool {
    match k {
        CharClass::Name => c != '/' && c != ']' && c != '=' && c != '"' && !white_space(c),
        CharClass::Attr => c != '=' && c != ']' && !white_space(c),
        CharClass::Close => c != ']' && c != '/',
        CharClass::Gap => c == ' ' || c == '\t',
        CharClass::Value => c != ']' && c != '\n',
    }
}

/// The end of the run of class `k` that starts at `p`.
pub open spec fn run_end(s: Seq<char>, p: int, k: CharClass) -> int
    decreases s.len() - p,
{
    if 0 <= p < s.len() && in_class(s[p], k) {
        run_end(s, p + 1, k)
    } else {
        p
    }
}

/// Whether a `]` stands at `p` or later.
pub open spec fn bracket_from(s: Seq<char>, p: int) -> bool
    decreases s.len() - p,
{
    if 0 <= p < s.len() {
        s[p] == ']' || bracket_from(s, p + 1)
    } else {
        false
    }
}

/// The length of a line break at `p` (`\n` or `\r\n`), or 0.
pub open spec fn newline_len(s: Seq<char>, p: int) -> int {
    if 0 <= p < s.len() && s[p] == '\n' {
        1
    } else if 0 <= p + 1 < s.len() && p >= 0 && s[p] == '\r' && s[p + 1] == '\n' {
        2
    } else {
        0
    }
}

/// An opening tag at the `[` at `p` that the open pattern surely matches:
/// the end of its name and the end of the match. `[name]`, `[name=value]`
/// and `[name attr=value]`.
pub open spec fn open_match(s: Seq<char>, p: int) -> Option<(int, int)> {
    let e = run_end(s, p + 1, CharClass::Name);
    if e <= p + 1 || e >= s.len() {
        None
    } else if s[e] == ']' {
        Some((e, e + 1))
    } else {
        let q = if s[e] == '=' {
            e
        } else if in_class(s[e], CharClass::Gap) {
            let a = run_end(s, e, CharClass::Gap);
            let b = run_end(s, a, CharClass::Attr);
            if b > a && b < s.len() && s[b] == '=' {
                b
            } else {
                -1
            }
        } else {
            -1
        };
        let v = run_end(s, q + 1, CharClass::Value);
        if q > p && v < s.len() && s[v] == ']' {
            Some((e, v + 1))
        } else {
            None
        }
    }
}

/// A closing tag at the `[/` at `p` that the close pattern surely matches:
/// the end of its name and the end of the match.
pub open spec fn close_match(s: Seq<char>, p: int) -> Option<(int, int)> {
    if p + 2 >= s.len() || white_space(s[p + 2]) {
        None
    } else {
        let e = run_end(s, p + 2, CharClass::Close);
        if e > p + 2 && e < s.len() && s[e] == ']' {
            Some((e, e + 1))
        } else {
            None
        }
    }
}

/// One node of the path from the root to the parser's current node: its
/// kind, and whether its text is non-empty.
pub type PathNode = (Tag, bool);

/// Whether the parser, at position `p` with the path `path` and the flag
/// `closed` (a tag was just closed), gets through the rest of `s` without
/// looking up the parent of the root.
pub open spec fn safe_from(s: Seq<char>, p: int, path: Seq<PathNode>, closed: bool) -> bool
    decreases s.len() - p,
{
    if p < 0 || p >= s.len() {
        true
    } else if path.len() == 0 {
        false
    } else {
        let n = path.len();
        let cur = path.last();
        let nl = newline_len(s, p);
        if nl > 0 && cur.0 == Tag::ListItem {
            n >= 2 && safe_from(s, p + nl, path.drop_last(), true)
        } else if nl > 0 && n >= 2 && path[n - 2].0 == Tag::ListItem {
            n >= 3 && safe_from(s, p + nl, path.drop_last().drop_last(), true)
        } else if s[p] == '[' && open_match(s, p) is Some {
            let (e, end) = open_match(s, p)->Some_0;
            let t = tag_of(tag_named(s.subrange(p + 1, e)));
            let base = if cur.0 == Tag::Plain && n > 1 {
                path.drop_last()
            } else {
                path
            };
            end > p && safe_from(s, end, base.push((t, false)), false)
        } else if s[p] == '[' && p + 1 < s.len() && s[p + 1] == '/' && close_match(s, p) is Some {
            let (e, end) = close_match(s, p)->Some_0;
            let t = tag_of(tag_named(s.subrange(p + 2, e)));
            if end <= p {
                false
            } else if cur.0 == Tag::Plain && cur.1 && (n < 2 || path[n - 2].0 == t) {
                n >= 3 && safe_from(s, end, path.drop_last().drop_last(), true)
            } else if t == cur.0 {
                n >= 2 && safe_from(s, end, path.drop_last(), true)
            } else {
                safe_from(s, end, path, false)
            }
        } else if s[p] == '[' && bracket_from(s, p + 1) {
            false
        } else if closed {
            safe_from(s, p + 1, path.push((Tag::Plain, true)), false)
        } else {
            safe_from(s, p + 1, path.update(n - 1, (cur.0, true)), false)
        }
    }
}

/// Whether the parser takes `s` without a panic: it starts at an empty
/// root, and there are fewer nodes than `i32::MAX`.
pub open spec fn parse_is_safe(s: Seq<char>) -> bool {
    s.len() < i32::MAX && safe_from(s, 0, seq![(Tag::Plain, false)], false)
}

fn in_class_exec(c: char, k: CharClass) -> (r: bool)
    ensures
        r == in_class(c, k),
{
    match k {
        CharClass::Name => c != '/' && c != ']' && c != '=' && c != '"' && !is_white(c),
        CharClass::Attr => c != '=' && c != ']' && !is_white(c),
        CharClass::Close => c != ']' && c != '/',
        CharClass::Gap => c == ' ' || c == '\t',
        CharClass::Value => c != ']' && c != '\n',
    }
}

fn run_end_at(s: &Vec<char>, p: usize, k: CharClass) -> (r: usize)
    requires
        p <= s@.len(),
    ensures
        r as int == run_end(s@, p as int, k),
        p <= r <= s@.len(),
{
    let mut q: usize = p;
    while q < s.len() && in_class_exec(s[q], k)
        invariant
            p <= q <= s@.len(),
            run_end(s@, p as int, k) == run_end(s@, q as int, k),
        decreases s@.len() - q,
    {
        q = q + 1;
    }
    q
}

fn bracket_at(s: &Vec<char>, p: usize) -> (r: bool)
    requires
        p <= s@.len(),
    ensures
        r == bracket_from(s@, p as int),
{
    let mut q: usize = p;
    while q < s.len()
        invariant
            p <= q <= s@.len(),
            bracket_from(s@, p as int) == bracket_from(s@, q as int),
        decreases s@.len() - q,
    {
        if s[q] == ']' {
            return true;
        }
        q = q + 1;
    }
    false
}

fn open_at(s: &Vec<char>, p: usize) -> (r: Option<(usize, usize)>)
    requires
        p < s@.len(),
    ensures
        match r {
            Some((e, end)) => open_match(s@, p as int) == Some((e as int, end as int)) && p < e < end <= s@.len(),
            None => open_match(s@, p as int) is None,
        },
{
    let n = s.len();
    let e = run_end_at(s, p + 1, CharClass::Name);
    if e <= p + 1 || e >= n {
        return None;
    }
    if s[e] == ']' {
        return Some((e, e + 1));
    }
    let q: usize;
    if s[e] == '=' {
        q = e;
    } else if in_class_exec(s[e], CharClass::Gap) {
        let a = run_end_at(s, e, CharClass::Gap);
        let b = run_end_at(s, a, CharClass::Attr);
        if b > a && b < n && s[b] == '=' {
            q = b;
        } else {
            return None;
        }
    } else {
        return None;
    }
    let v = run_end_at(s, q + 1, CharClass::Value);
    if v < n && s[v] == ']' {
        Some((e, v + 1))
    } else {
        None
    }
}

fn close_at(s: &Vec<char>, p: usize) -> (r: Option<(usize, usize)>)
    requires
        p < s@.len(),
    ensures
        match r {
            Some((e, end)) => close_match(s@, p as int) == Some((e as int, end as int)) && p + 2 < e < end <= s@.len(),
            None => close_match(s@, p as int) is None,
        },
{
    let n = s.len();
    if n - p <= 2 || is_white(s[p + 2]) {
        return None;
    }
    let e = run_end_at(s, p + 2, CharClass::Close);
    if e > p + 2 && e < n && s[e] == ']' {
        Some((e, e + 1))
    } else {
        None
    }
}

/// The library's kind for the tag named by `text` between `a` and `b`.
fn kind_of(text: &str, a: usize, b: usize) -> (r: Tag)
    requires
        a <= b <= text@.len(),
    ensures
        r == tag_of(tag_named(text@.subrange(a as int, b as int))),
{
    let name = text.substring_char(a, b);
    tag_from(&BBTag::from(name))
}

/// The characters of a string, one by one.
fn chars_of(s: &str) -> (r: Vec<char>)
    ensures
        r@ == s@,
{
    let n: usize = s.unicode_len();
    let mut r: Vec<char> = Vec::new();
    let mut i: usize = 0;
    while i < n
        invariant
            n == s@.len(),
            i <= n,
            r@ == s@.subrange(0, i as int),
        decreases n - i,
    {
        r.push(s.get_char(i));
        i = i + 1;
        assert(r@ =~= s@.subrange(0, i as int));
    }
    assert(r@ =~= s@);
    r
}

/// Whether the parser takes `text` without a panic.
pub fn is_safe_to_parse(text: &str) -> (r: bool)
    ensures
        r == parse_is_safe(text@),
{
    let s = chars_of(text);
    let n: usize = s.len();
    if n >= 0x7fff_ffff {
        return false;
    }
    let mut path: Vec<PathNode> = vec![(Tag::Plain, false)];
    let mut closed = false;
    let mut p: usize = 0;
    assert(path@ =~= seq![(Tag::Plain, false)]);
    while p < n
        invariant
            n == s@.len(),
            s@ == text@,
            n < 0x7fff_ffff,
            p <= n,
            parse_is_safe(text@) == safe_from(s@, p as int, path@, closed),
        decreases n - p,
    {
        let len = path.len();
        if len == 0 {
            return false;
        }
        let cur = path[len - 1];
        let nl: usize = if s[p] == '\n' {
            1
        } else if p + 1 < n && s[p] == '\r' && s[p + 1] == '\n' {
            2
        } else {
            0
        };
        if nl > 0 && cur.0 == Tag::ListItem {
            if len < 2 {
                return false;
            }
            path.pop();
            closed = true;
            p = p + nl;
        } else if nl > 0 && len >= 2 && path[len - 2].0 == Tag::ListItem {
            if len < 3 {
                return false;
            }
            path.pop();
            path.pop();
            closed = true;
            p = p + nl;
        } else if s[p] == '[' && open_at(&s, p).is_some() {
            let (e, end) = open_at(&s, p).unwrap();
            let t = kind_of(text, p + 1, e);
            if cur.0 == Tag::Plain && len > 1 {
                path.pop();
            }
            path.push((t, false));
            closed = false;
            p = end;
        } else if s[p] == '[' && p + 1 < n && s[p + 1] == '/' && close_at(&s, p).is_some() {
            let (e, end) = close_at(&s, p).unwrap();
            let t = kind_of(text, p + 2, e);
            if cur.0 == Tag::Plain && cur.1 && (len < 2 || path[len - 2].0 == t) {
                if len < 3 {
                    return false;
                }
                path.pop();
                path.pop();
                closed = true;
            } else if t == cur.0 {
                if len < 2 {
                    return false;
                }
                path.pop();
                closed = true;
            } else {
                closed = false;
            }
            p = end;
        } else if s[p] == '[' && bracket_at(&s, p + 1) {
            return false;
        } else {
            if closed {
                path.push((Tag::Plain, true));
            } else {
                path.set(len - 1, (cur.0, true));
            }
            closed = false;
            p = p + 1;
        }
    }
    true
}

} // verus!
