use vstd::prelude::*;

verus! {

/// One directory of the upward walk that looks for a git repository: its
/// path and whether it holds a `.git` entry. The embedder probes the tree
/// and builds the list deepest-first: the starting directory (or its
/// parent, when the start is a file), then each ancestor up to the root.
pub struct AncestorDir {
    pub path: String,
    pub has_git: bool,
}

/// Finds the root of a git repository among the walked directories: the
/// index of the deepest candidate that holds a `.git` entry, or nothing
/// when none of them does.
pub fn find_git_root(ancestors: &Vec<AncestorDir>) -> (r: Option<usize>)
    ensures
        match r {
            Some(i) => i < ancestors@.len() && ancestors@[i as int].has_git && (forall|j: int|
                0 <= j < i ==> !(#[trigger] ancestors@[j]).has_git),
            None => forall|j: int|
                0 <= j < ancestors@.len() ==> !(#[trigger] ancestors@[j]).has_git,
        },
{
    let mut i: usize = 0;
    while i < ancestors.len()
        invariant
            i <= ancestors@.len(),
            forall|j: int| 0 <= j < i ==> !(#[trigger] ancestors@[j]).has_git,
        decreases ancestors@.len() - i,
    {
        if ancestors[i].has_git {
            return Some(i);
        }
        i = i + 1;
    }
    None
}

} // verus!
