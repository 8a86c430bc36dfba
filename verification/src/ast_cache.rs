//! Caches of parsed trees, keyed by file or module name.

use vstd::prelude::*;

verus! {

/// The root of a parsed file: its source name and its top-level nodes.
#[derive(Debug)]
pub struct AstTree<TNode> {
    /// The source's name.
    pub source_name: String,
    /// The parsed top-level nodes, in order.
    pub nodes: Vec<TNode>,
}

impl<TNode> AstTree<TNode> {
    /// A tree from its source name and nodes.
    pub fn new(source_name: String, nodes: Vec<TNode>) -> (r: AstTree<TNode>)
        ensures
            r.source_name@ == source_name@,
            r.nodes@ == nodes@,
    {
        AstTree { source_name, nodes }
    }
}

/// One cache entry: a key and the tree stored under it.
#[derive(Debug)]
pub struct AstCacheEntry<TNode> {
    /// The cache key: a file or module name.
    pub key: String,
    /// The stored tree.
    pub tree: AstTree<TNode>,
}

/// A cache of parsed trees; later entries shadow earlier ones with the
/// same key.
#[derive(Debug)]
pub struct AstCache<TNode> {
    /// The stored entries, in insertion order.
    pub items: Vec<AstCacheEntry<TNode>>,
}

impl<TNode> AstCache<TNode> {
    /// An empty cache.
    pub fn new_empty() -> (r: AstCache<TNode>)
        ensures
            r.items@.len() == 0,
    {
        AstCache { items: Vec::new() }
    }

    /// Store a tree under a key: the entries so far stay, and the new
    /// last entry holds exactly the given key and tree.
    pub fn insert(&mut self, key: String, tree: AstTree<TNode>)
        ensures
            final(self).items@.len() == old(self).items@.len() + 1,
            forall|j: int|
                0 <= j < old(self).items@.len() ==> final(self).items@[j] == old(self).items@[j],
            final(self).items@.last().key@ == key@,
            final(self).items@.last().tree.source_name@ == tree.source_name@,
            final(self).items@.last().tree.nodes@ == tree.nodes@,
    {
        self.items.push(AstCacheEntry { key, tree });
    }
}

} // verus!
