//! The order of a tree: each directory before what is in it.

use crate::packaging::data::TreeEntry;
use crate::packaging::segment::EntryKind;
use vstd::prelude::*;
use vstd::string::*;

verus! {

/// The path of the directory that holds `path`: what stands before its last
/// slash, and the empty path of the root where it has none.
pub open spec fn parent(path: Seq<char>) -> Seq<char>
    decreases path.len(),
{
    if path.len() == 0 {
        path
    } else if path.last() == '/' {
        path.drop_last()
    } else {
        parent(path.drop_last())
    }
}

/// Whether the directory that holds the entry at `index` stands before it.
pub open spec fn stands_before(tree: Seq<TreeEntry>, index: int) -> bool {
    exists|j: int|
        0 <= j < index && (#[trigger] tree[j]).kind == EntryKind::Directory && tree[j].path@
            == parent(tree[index].path@)
}

/// Whether every entry of the tree but its root comes after the directory
/// that holds it.
pub open spec fn directories_first(tree: Seq<TreeEntry>) -> bool {
    forall|i: int|
        0 <= i < tree.len() && (#[trigger] tree[i]).path@.len() > 0 ==> stands_before(tree, i)
}

/// Whether the entry at `index` is the first that comes before the directory
/// that holds it, or without it.
pub open spec fn first_misplaced(tree: Seq<TreeEntry>, index: int) -> bool {
    &&& 0 <= index < tree.len()
    &&& tree[index].path@.len() > 0
    &&& !stands_before(tree, index)
    &&& forall|i: int|
        0 <= i < index && (#[trigger] tree[i]).path@.len() > 0 ==> stands_before(tree, i)
}

fn parent_of(path: &str) -> (dir: String)
    ensures
        dir@ == parent(path@),
{
    let mut dir = String::new();
    let mut seen = String::new();
    for c in it: path.chars()
        invariant
            it.seq() == path@,
            seen@ == path@.take(it.index()),
            dir@ == parent(path@.take(it.index())),
    {
        proof {
            let next = path@.take(it.index() + 1);
            assert(next.drop_last() == path@.take(it.index()));
            assert(next.last() == c);
        }
        if c == '/' {
            dir = seen.clone();
        }
        seen.push(c);
    }
    proof {
        assert(path@.take(path@.len() as int) == path@);
    }
    dir
}

fn has_directory_before(tree: &Vec<TreeEntry>, index: usize) -> (found: bool)
    requires
        index < tree.len(),
    ensures
        found == stands_before(tree@, index as int),
{
    let dir = parent_of(tree[index].path.as_str());
    let mut j: usize = 0;
    while j < index
        invariant
            j <= index < tree.len(),
            dir@ == parent(tree@[index as int].path@),
            forall|k: int|
                0 <= k < j ==> !((#[trigger] tree@[k]).kind == EntryKind::Directory
                    && tree@[k].path@ == dir@),
        decreases index - j,
    {
        let is_directory = match tree[j].kind {
            EntryKind::Directory => true,
            EntryKind::File => false,
        };
        if is_directory && tree[j].path == dir {
            return true;
        }
        j += 1;
    }
    false
}

/// Looks for the first entry of a tree that comes before the directory that
/// holds it, or without it.
pub fn misplaced_entry(tree: &Vec<TreeEntry>) -> (r: Option<usize>)
    ensures
        r is None <==> directories_first(tree@),
        r matches Some(index) ==> first_misplaced(tree@, index as int),
{
    let mut i: usize = 0;
    while i < tree.len()
        invariant
            i <= tree.len(),
            forall|k: int|
                0 <= k < i && (#[trigger] tree@[k]).path@.len() > 0 ==> stands_before(tree@, k),
        decreases tree.len() - i,
    {
        let named = tree[i].path.as_str().unicode_len() > 0;
        if named && !has_directory_before(tree, i) {
            return Some(i);
        }
        i += 1;
    }
    None
}

} // verus!
