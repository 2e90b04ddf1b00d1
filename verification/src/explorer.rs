//! The flattened items a file-tree pane displays, one per visible row.

use vstd::prelude::*;

verus! {

/// One row of a file tree: a file or directory at some depth, with its
/// display state.
#[derive(Clone, Debug)]
pub struct ExplorerViewItem {
    pub path: String,
    pub name: String,
    pub is_dir: bool,
    pub depth: usize,
    pub is_expanded: bool,
    pub selected: bool,
}

impl ExplorerViewItem {
    /// A fresh, unselected row.
    pub fn new(path: String, name: String, is_dir: bool, depth: usize, is_expanded: bool) -> (r:
        Self)
        ensures
            r.path == path,
            r.name == name,
            r.is_dir == is_dir,
            r.depth == depth,
            r.is_expanded == is_expanded,
            !r.selected,
    {
        ExplorerViewItem { path, name, is_dir, depth, is_expanded, selected: false }
    }
}

} // verus!
