//! The tree of directories and files inside a game archive, as a list of
//! operations for a tree widget.
//!
//! The archive's tables are held as plain values in [`archive::Archive`].
//! Hashes become names through a table of known labels, or are written in
//! hexadecimal notation where no label is known. The population of the tree
//! is computed here, as a list of [`tree::TreeOp`], and applied by the
//! caller; so is the path of an item and what its extraction asks for.
pub mod archive;
pub mod extract;
pub mod hex;
pub mod labels;
pub mod path;
pub mod roots;
pub mod tree;

pub use extract::extract_tree_item;
pub use path::get_path;
pub use roots::build_roots;
pub use tree::build_tree;
