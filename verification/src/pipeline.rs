//! The layer pipeline's extraction semantics.
//!
//! Layers are extracted one at a time, in manifest order, each writing
//! its files over whatever earlier layers left.  The model below states
//! that order's meaning: a path keeps the content of the last layer that
//! writes it, and a path no layer writes keeps its old content.  There
//! are no deletion markers: a layer only adds or overwrites.

use vstd::prelude::*;

verus! {

/// A filesystem tree modeled as path-to-content.
pub type FileTree = Map<Seq<char>, Seq<u8>>;

/// Extracting one layer writes each of its files, overwriting what an
/// earlier layer or the base tree put there.
pub open spec fn spec_apply_layer(tree: FileTree, layer: FileTree) -> FileTree {
    tree.union_prefer_right(layer)
}

/// Extracting all layers, in order: each applied after the ones before it.
pub open spec fn spec_extract_all(tree: FileTree, layers: Seq<FileTree>) -> FileTree
    decreases layers.len(),
{
    if layers.len() == 0 {
        tree
    } else {
        spec_extract_all(spec_apply_layer(tree, layers[0]), layers.drop_first())
    }
}

/// Law: a path that no layer writes keeps its presence and content.
pub proof fn lemma_untouched_path(tree: FileTree, layers: Seq<FileTree>, path: Seq<char>)
    requires
        forall|j: int| 0 <= j < layers.len() ==> !layers[j].contains_key(path),
    ensures
        spec_extract_all(tree, layers).contains_key(path) == tree.contains_key(path),
        tree.contains_key(path) ==> spec_extract_all(tree, layers)[path] == tree[path],
    decreases layers.len(),
{
    if layers.len() > 0 {
        let applied = spec_apply_layer(tree, layers[0]);
        assert(!layers[0].contains_key(path));
        assert(applied.contains_key(path) == tree.contains_key(path));
        assert(tree.contains_key(path) ==> applied[path] == tree[path]);
        assert(forall|j: int|
            0 <= j < layers.drop_first().len() ==> layers.drop_first()[j] == layers[j + 1]);
        lemma_untouched_path(applied, layers.drop_first(), path);
    }
}

/// Law: last applied wins.  A path written by layer `i` and by no later
/// layer ends, after extracting every layer in order, with exactly layer
/// `i`'s content — whatever earlier layers wrote there.
pub proof fn lemma_last_applied_wins(
    tree: FileTree,
    layers: Seq<FileTree>,
    i: int,
    path: Seq<char>,
)
    requires
        0 <= i < layers.len(),
        layers[i].contains_key(path),
        forall|j: int| i < j < layers.len() ==> !layers[j].contains_key(path),
    ensures
        spec_extract_all(tree, layers).contains_key(path),
        spec_extract_all(tree, layers)[path] == layers[i][path],
    decreases layers.len(),
{
    let applied = spec_apply_layer(tree, layers[0]);
    assert(forall|j: int|
        0 <= j < layers.drop_first().len() ==> layers.drop_first()[j] == layers[j + 1]);
    if i == 0 {
        assert(applied.contains_key(path));
        assert(applied[path] == layers[0][path]);
        lemma_untouched_path(applied, layers.drop_first(), path);
    } else {
        lemma_last_applied_wins(applied, layers.drop_first(), i - 1, path);
    }
}

} // verus!
