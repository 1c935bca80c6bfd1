//! What a directory walk found, and the immediate children it yields.
//!
//! The walk itself is done elsewhere; it arrives here as a sequence of items,
//! in the order in which the walker produced them. That order is kept.

use vstd::prelude::*;

verus! {

/// What kind of node a path leads to.
#[derive(Clone, Copy, Debug, PartialEq, Eq, Structural)]
pub enum EntryKind {
    Directory,
    File,
    /// Neither a directory nor a regular file, such as a symbolic link.
    Other,
}

/// One item of a directory walk.
#[derive(Debug, PartialEq, Eq)]
pub enum Walked {
    /// A node that the walker reached, `depth` levels below the root of the
    /// walk; the root itself has depth 0.
    Found { path: String, depth: usize, kind: EntryKind },
    /// A node or directory that the walker could not read.
    Failed,
}

/// Whether the walker reported a failure anywhere in the walk.
pub open spec fn walk_failed(walk: Seq<Walked>) -> bool {
    exists|i: int| 0 <= i < walk.len() && walk[i] is Failed
}

/// Whether an item is an immediate child, of the wanted kind, of the root of
/// its walk.
pub open spec fn is_child(item: Walked, kind: EntryKind) -> bool {
    match item {
        Walked::Found { depth, kind: found, .. } => depth == 1 && found == kind,
        Walked::Failed => false,
    }
}

/// The path of a walked item; empty for a failure.
pub open spec fn path_of(item: Walked) -> Seq<char> {
    match item {
        Walked::Found { path, .. } => path@,
        Walked::Failed => Seq::empty(),
    }
}

/// The paths of the immediate children of the wanted kind, in walk order.
/// A walk that failed anywhere has no children at all.
pub open spec fn children(walk: Seq<Walked>, kind: EntryKind) -> Seq<Seq<char>> {
    if walk_failed(walk) {
        Seq::empty()
    } else {
        walk.filter(|item: Walked| is_child(item, kind)).map_values(|item: Walked| path_of(item))
    }
}

/// A walk with a failure in it has no children of any kind, whatever else
/// the walker found.
pub proof fn lemma_failed_walk_lists_nothing(walk: Seq<Walked>, kind: EntryKind)
    requires
        walk_failed(walk),
    ensures
        children(walk, kind) == Seq::<Seq<char>>::empty(),
        children(walk, kind).len() == 0,
{
}

/// Every listed path is the path of an immediate child of the wanted kind
/// that the walk holds, and no more paths are listed than the walk has
/// items.
pub proof fn lemma_children_come_from_the_walk(walk: Seq<Walked>, kind: EntryKind, i: int)
    requires
        0 <= i < children(walk, kind).len(),
    ensures
        children(walk, kind).len() <= walk.len(),
        exists|j: int|
            0 <= j < walk.len() && is_child(#[trigger] walk[j], kind) && path_of(walk[j])
                == children(walk, kind)[i],
{
    let wanted = |item: Walked| is_child(item, kind);
    let kept = walk.filter(wanted);
    walk.lemma_filter_len(wanted);
    walk.lemma_filter_pred(wanted, i);
    assert(kept.contains(kept[i]));
    walk.lemma_filter_contains_rev(wanted, kept[i]);
    let j = choose|j: int| 0 <= j < walk.len() && walk[j] == kept[i];
    assert(is_child(walk[j], kind) && path_of(walk[j]) == children(walk, kind)[i]);
}

/// Unless the walk failed, every immediate child of the wanted kind that
/// the walk holds is listed.
pub proof fn lemma_every_child_is_listed(walk: Seq<Walked>, kind: EntryKind, j: int)
    requires
        !walk_failed(walk),
        0 <= j < walk.len(),
        is_child(walk[j], kind),
    ensures
        children(walk, kind).contains(path_of(walk[j])),
{
    let wanted = |item: Walked| is_child(item, kind);
    let kept = walk.filter(wanted);
    walk.lemma_filter_contains(wanted, j);
    let i = choose|i: int| 0 <= i < kept.len() && kept[i] == walk[j];
    assert(children(walk, kind)[i] == path_of(walk[j]));
}

/// Tells whether the walker reported a failure anywhere in the walk.
pub fn has_failure(walk: &Vec<Walked>) -> (failed: bool)
    ensures
        failed == walk_failed(walk@),
{
    let mut i: usize = 0;
    while i < walk.len()
        invariant
            i <= walk.len(),
            forall|j: int| 0 <= j < i ==> !(walk@[j] is Failed),
        decreases walk.len() - i,
    {
        match &walk[i] {
            Walked::Failed => {
                return true;
            },
            Walked::Found { .. } => {},
        }
        i = i + 1;
    }
    false
}

/// Lists the immediate children of the wanted kind that a walk found, in the
/// order of the walk. A walk with a failure in it yields the empty list.
pub fn list_immediate_children(walk: &Vec<Walked>, kind: EntryKind) -> (paths: Vec<String>)
    ensures
        paths.deep_view() == children(walk@, kind),
{
    let mut paths: Vec<String> = Vec::new();
    if has_failure(walk) {
        assert(paths.deep_view() =~= Seq::<Seq<char>>::empty());
        return paths;
    }
    let ghost wanted = |item: Walked| is_child(item, kind);
    let ghost path = |item: Walked| path_of(item);
    let mut i: usize = 0;
    while i < walk.len()
        invariant
            i <= walk.len(),
            wanted == |item: Walked| is_child(item, kind),
            path == |item: Walked| path_of(item),
            paths.deep_view() == walk@.take(i as int).filter(wanted).map_values(path),
        decreases walk.len() - i,
    {
        proof {
            let before = walk@.take(i as int);
            let after = walk@.take(i + 1);
            assert(after.drop_last() =~= before);
            assert(after.last() == walk@[i as int]);
            reveal_with_fuel(Seq::filter, 2);
        }
        match &walk[i] {
            Walked::Found { path: found_path, depth, kind: found_kind } => {
                if *depth == 1 && *found_kind == kind {
                    let ghost old_paths = paths.deep_view();
                    paths.push(found_path.clone());
                    assert(paths.deep_view() =~= old_paths.push(found_path@));
                }
            },
            Walked::Failed => {},
        }
        i = i + 1;
        assert(paths.deep_view() =~= walk@.take(i as int).filter(wanted).map_values(path));
    }
    assert(walk@.take(walk.len() as int) =~= walk@);
    paths
}

} // verus!
