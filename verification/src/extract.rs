//! The extraction of the file behind an item of the tree: which file to ask
//! the archive for, and under which name to offer it.
use crate::labels::{hash40, hash40_spec};
use crate::path::{get_path, item_path, TreeItem};
use std::path::Path;
use vstd::prelude::*;

verus! {

/// The regional variant in which files are extracted: US English, by the
/// archive's own numbering.
pub const US_ENGLISH: u32 = 2;

/// What the extraction of an item asks for.
#[derive(Debug, PartialEq, Eq)]
pub struct Extraction {
    /// The path of the item.
    pub path: String,
    /// The hash under which the archive holds the file.
    pub file: u64,
    /// The regional variant to read.
    pub region: u32,
    /// The name to offer for the copy; none where the path ends in no name.
    pub file_name: Option<String>,
}

/// Calls `Path::file_name` of std on a path: its last component, where the
/// path ends in one. What counts as a component depends on the platform, so
/// the contract says nothing of the result.
#[verifier::external_body]
pub(crate) fn file_name(path: &str) -> (name: Option<String>) {
    match Path::new(path).file_name() {
        Some(name) => Some(name.to_string_lossy().into_owned()),
        None => None,
    }
}

/// Puts an extraction together from the path of an item, the hash of the
/// path and the name found for the file.
pub fn extraction(path: String, file: u64, file_name: Option<String>) -> (request: Extraction)
    ensures
        request.path == path,
        request.file == file,
        request.region == US_ENGLISH,
        request.file_name == file_name,
{
    Extraction { path, file, region: US_ENGLISH, file_name }
}

/// Prepares the extraction of the file behind an item of the tree: the file
/// is the one whose path is the item's, read in US English.
pub fn extract_tree_item(tree_item: TreeItem) -> (request: Extraction)
    ensures
        request.path@ == item_path(tree_item),
        request.file == hash40_spec(item_path(tree_item)),
        request.region == US_ENGLISH,
{
    let path = get_path(tree_item);
    let file = hash40(path.as_str());
    let name = file_name(path.as_str());
    extraction(path, file, name)
}

} // verus!
