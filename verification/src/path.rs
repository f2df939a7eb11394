//! The path of an item of the tree widget, from the labels of the item and
//! of the items above it.
use vstd::prelude::*;
use vstd::string::StringExecFns;

verus! {

/// An item of the tree widget, as far as its path depends on it: its label,
/// where it has one, and the item above it, where there is one.
#[derive(Debug, PartialEq, Eq)]
pub struct TreeItem {
    pub label: Option<String>,
    pub parent: Option<Box<TreeItem>>,
}

/// The path of an item.
///
/// An item without a label has the empty path. An item without an item above
/// it has its label as its path. Below an item whose path is `/` the path is
/// the label alone; below any other it is the path above, `/`, and the label.
pub open spec fn item_path(item: TreeItem) -> Seq<char>
    decreases item,
{
    match item.label {
        None => Seq::empty(),
        Some(label) => match item.parent {
            None => label@,
            Some(parent) => {
                let above = item_path(*parent);
                if above == seq!['/'] {
                    label@
                } else {
                    above + seq!['/'] + label@
                }
            },
        },
    }
}

/// Computes the path of an item of the tree.
pub fn get_path(tree_item: TreeItem) -> (path: String)
    ensures
        path@ == item_path(tree_item),
    decreases tree_item,
{
    match tree_item.label {
        None => String::new(),
        Some(label) => match tree_item.parent {
            None => label,
            Some(parent) => {
                let mut path = get_path(*parent);
                let root = String::from_str("/");
                proof {
                    reveal_strlit("/");
                    assert("/"@ =~= seq!['/']);
                }
                if path == root {
                    label
                } else {
                    path.append("/");
                    path.append(label.as_str());
                    path
                }
            },
        },
    }
}

} // verus!
