//! The parse cache, and the viewer that renders markup through it.
use vstd::prelude::*;
use bbcode_tagger::BBCode;
use crate::render::{DrawOp, NodeFormatter, node_ops};
use crate::style::base_style;
use crate::tree::Tree;
use crate::bridge::parse_nodes;
use crate::markup::{is_safe_to_parse, parse_is_safe};

verus! {

/// Parsed trees by source text. Each source is parsed at most once for the
/// life of the cache; entries are never evicted.
pub struct BBCodeCache {
    parser: BBCode,
    keys: Vec<String>,
    trees: Vec<Tree>,
}

impl Tree {
    /// What the cache holds for source `s`: the parser's tree where the parser
    /// takes `s`, and otherwise all of `s` as one plain node.
    pub open spec fn is_tree_of(&self, s: Seq<char>) -> bool {
        if parse_is_safe(s) {
            self.mirrors(parse_nodes(s))
        } else {
            self.is_plain_text(s)
        }
    }
}

impl BBCodeCache {
    /// The sources seen so far, in the order they were first asked for.
    pub closed spec fn sources(&self) -> Seq<Seq<char>> {
        self.keys@.map_values(|k: String| k@)
    }

    /// The trees, in the order of `sources`.
    pub closed spec fn trees(&self) -> Seq<Tree> {
        self.trees@
    }

    pub closed spec fn parser(&self) -> BBCode {
        self.parser
    }

    /// One tree per source, no source twice, every tree well formed: the
    /// parser's tree for a source the parser takes, else the source as plain text.
    pub open spec fn wf(&self) -> bool {
        &&& self.sources().len() == self.trees().len()
        &&& forall|a: int, b: int|
            0 <= a < b < self.sources().len() ==> #[trigger] self.sources()[a]
                != #[trigger] self.sources()[b]
        &&& forall|a: int| 0 <= a < self.trees().len() ==> (#[trigger] self.trees()[a]).wf()
        &&& forall|a: int|
            0 <= a < self.trees().len() ==> #[trigger] self.trees()[a].is_tree_of(self.sources()[a])
    }

    /// The tree cached for `s`, if `s` was seen.
    pub open spec fn cached(&self, s: Seq<char>) -> Option<Tree> {
        if self.sources().contains(s) {
            Some(self.trees()[self.sources().index_of(s)])
        } else {
            None
        }
    }

    /// What one lookup of `s` does to the cache: nothing when `s` was seen;
    /// otherwise it adds `s` with a freshly parsed, well-formed tree.
    pub open spec fn lookup_step(before: BBCodeCache, s: Seq<char>, after: BBCodeCache) -> bool {
        &&& after.wf()
        &&& after.parser() == before.parser()
        &&& if before.sources().contains(s) {
            &&& after.sources() == before.sources()
            &&& after.trees() == before.trees()
        } else {
            &&& after.sources() == before.sources().push(s)
            &&& after.trees().len() == before.trees().len() + 1
            &&& after.trees().subrange(0, before.trees().len() as int) == before.trees()
        }
    }

    /// An empty cache with a fresh parser.
    pub fn new() -> (r: BBCodeCache)
        ensures
            r.wf(),
            r.sources().len() == 0,
    {
        let r = BBCodeCache { parser: BBCode::default(), keys: Vec::new(), trees: Vec::new() };
        proof {
            assert(r.sources() =~= Seq::<Seq<char>>::empty());
        }
        r
    }

    /// The position of `s` among the sources, if it was seen.
    fn find(&self, s: &String) -> (r: Option<usize>)
        requires
            self.wf(),
        ensures
            match r {
                Some(j) => j < self.sources().len() && self.sources()[j as int] == s@
                    && self.sources().index_of(s@) == j,
                None => !self.sources().contains(s@),
            },
    {
        let mut j: usize = 0;
        while j < self.keys.len()
            invariant
                self.wf(),
                j <= self.keys@.len(),
                forall|m: int| 0 <= m < j ==> #[trigger] self.sources()[m] != s@,
            decreases self.keys@.len() - j,
        {
            if self.keys[j] == *s {
                proof {
                    assert(self.sources()[j as int] == s@);
                    assert(self.sources().contains(s@));
                    let x = self.sources().index_of(s@);
                    assert(self.sources()[x] == s@);
                }
                return Some(j);
            }
            j = j + 1;
        }
        None
    }

    /// The tree for `input`: the cached one when `input` was seen before,
    /// else a new one, which is then kept: the parser's when the parser takes
    /// `input` without a panic, else `input` as plain text. The parser runs at
    /// most once per distinct source.
    pub fn get_bbtree(&mut self, input: &str) -> (r: &Tree)
        requires
            old(self).wf(),
        ensures
            BBCodeCache::lookup_step(*old(self), input@, *final(self)),
            final(self).cached(input@) == Some(*r),
            old(self).cached(input@) is Some ==> old(self).cached(input@) == Some(*r),
            r.wf(),
            r.is_tree_of(input@),
    {
        let key = input.to_string();
        assert(key@ == input@);
        match self.find(&key) {
            Some(j) => &self.trees[j],
            None => {
                let tree = if is_safe_to_parse(input) {
                    let parsed = self.parser.parse(input);
                    Tree::from_bbtree(&parsed)
                } else {
                    Tree::plain(key.clone())
                };
                let ghost before = *self;
                self.keys.push(key);
                self.trees.push(tree);
                proof {
                    assert(self.sources() =~= before.sources().push(input@));
                    assert(self.trees().subrange(0, before.trees().len() as int) =~= before.trees());
                    assert(self.sources()[before.sources().len() as int] == input@);
                    assert(self.sources().contains(input@));
                }
                let j = self.trees.len() - 1;
                &self.trees[j]
            },
        }
    }
}

/// Renders markup through a parse cache.
pub struct BBCodeViewer {}

impl BBCodeViewer {
    pub fn new() -> (r: BBCodeViewer) {
        BBCodeViewer {}
    }

    /// The draw steps for `input`: its tree, taken from `cache` (parsed only
    /// on first sight), rendered from the root with nothing overridden.
    pub fn show(&self, cache: &mut BBCodeCache, input: &str) -> (r: Vec<DrawOp>)
        requires
            old(cache).wf(),
        ensures
            BBCodeCache::lookup_step(*old(cache), input@, *final(cache)),
            final(cache).cached(input@) is Some,
            final(cache).cached(input@)->Some_0.is_tree_of(input@),
            r@ == node_ops(final(cache).cached(input@)->Some_0, 0, base_style()),
    {
        let tree = cache.get_bbtree(input);
        NodeFormatter::new().format(tree)
    }
}

} // verus!
