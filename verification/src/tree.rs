//! The population of a tree widget from the archive: what to add, in which
//! order, and which items to mark.
//!
//! Nothing here touches a widget. The functions compute a list of
//! operations; the caller applies them one after the other.
use crate::archive::{
    dir_info_print_children, get_dir_info_from_hash, Archive, ArchiveView, DirOrFile,
};
use crate::labels::{display_name, hash40, hash40_spec, label_map, resolve};
use smash_arc::HashLabels;
use vstd::prelude::*;
use vstd::string::StringExecFns;

verus! {

/// How deep the tree is filled below an item when it is opened.
pub const OPEN_DEPTH: usize = 1;

/// One operation on the tree widget.
#[derive(Debug, PartialEq, Eq)]
pub enum TreeOp {
    /// Add the item at `path`, with the items above it that are not there
    /// yet; where `flagged`, mark the item once it is added.
    Add { path: String, flagged: bool },
    /// Add the item at `path` and mark it; there is no going on where the
    /// widget does not add it.
    Root { path: String },
    /// Close the item at `path`.
    Close { path: String },
}

/// An operation on the tree widget, its path as a sequence of characters.
pub enum TreeOpView {
    Add { path: Seq<char>, flagged: bool },
    Root { path: Seq<char> },
    Close { path: Seq<char> },
}

impl View for TreeOp {
    type V = TreeOpView;

    open spec fn view(&self) -> TreeOpView {
        match self {
            TreeOp::Add { path, flagged } => TreeOpView::Add { path: path@, flagged: *flagged },
            TreeOp::Root { path } => TreeOpView::Root { path: path@ },
            TreeOp::Close { path } => TreeOpView::Close { path: path@ },
        }
    }
}

/// The views of a list of operations, in order.
pub open spec fn ops_view(ops: Seq<TreeOp>) -> Seq<TreeOpView> {
    Seq::new(ops.len(), |i: int| ops[i]@)
}

/// The path of the item `name` below the item at `path`.
pub open spec fn child_path(path: Seq<char>, name: Seq<char>) -> Seq<char> {
    path + seq!['/'] + name
}

/// The operations for one entry of the listing of the directory at `path`.
///
/// A file is added under its name. A directory is added under its name,
/// filled from its own listing while `depth_left` is not used up, and then
/// closed. An entry is flagged where no label is known for its hash, in
/// which case its name is the hash in hexadecimal notation.
pub open spec fn entry_ops(
    arc: ArchiveView,
    labels: Map<u64, Seq<char>>,
    path: Seq<char>,
    depth_left: nat,
    entry: DirOrFile,
) -> Option<Seq<TreeOpView>>
    decreases depth_left, 0nat, 0nat,
{
    match entry {
        DirOrFile::Dir(dir) => {
            let full_path = child_path(path, display_name(labels, dir));
            let below = if depth_left > 0 {
                tree_ops(arc, labels, full_path, (depth_left - 1) as nat)
            } else {
                Some(Seq::empty())
            };
            match below {
                Some(ops) => Some(
                    seq![TreeOpView::Add { path: full_path, flagged: !labels.contains_key(dir) }]
                        + ops + seq![TreeOpView::Close { path: full_path }],
                ),
                None => None,
            }
        },
        DirOrFile::File(file) => Some(
            seq![
                TreeOpView::Add {
                    path: child_path(path, display_name(labels, file)),
                    flagged: !labels.contains_key(file),
                },
            ],
        ),
    }
}

/// The operations for the entries of a listing, entry after entry.
pub open spec fn entries_ops(
    arc: ArchiveView,
    labels: Map<u64, Seq<char>>,
    path: Seq<char>,
    depth_left: nat,
    entries: Seq<DirOrFile>,
) -> Option<Seq<TreeOpView>>
    decreases depth_left, 1nat, entries.len(),
{
    if entries.len() == 0 {
        Some(Seq::empty())
    } else {
        match (
            entry_ops(arc, labels, path, depth_left, entries[0]),
            entries_ops(arc, labels, path, depth_left, entries.skip(1)),
        ) {
            (Some(first), Some(rest)) => Some(first + rest),
            _ => None,
        }
    }
}

/// The operations that fill the tree below the item at `path`.
///
/// The directory is looked up by the hash of `path`. Where the archive has
/// no such directory there is nothing to do. Where a table of the archive
/// leads outside itself on the way, there is no result.
pub open spec fn tree_ops(
    arc: ArchiveView,
    labels: Map<u64, Seq<char>>,
    path: Seq<char>,
    depth_left: nat,
) -> Option<Seq<TreeOpView>>
    decreases depth_left, 2nat, 0nat,
{
    match arc.dir_info_from_hash(hash40_spec(path)) {
        Ok(None) => Some(Seq::empty()),
        Ok(Some(dir_info)) => match arc.listing(dir_info) {
            Some(entries) => entries_ops(arc, labels, path, depth_left, entries),
            None => None,
        },
        Err(_) => None,
    }
}

/// The path that an operation concerns.
pub open spec fn op_path(op: TreeOpView) -> Seq<char> {
    match op {
        TreeOpView::Add { path, flagged } => path,
        TreeOpView::Root { path } => path,
        TreeOpView::Close { path } => path,
    }
}

/// Whether every operation concerns an item below the item at `path`: each
/// path begins with `path` and `/`.
pub open spec fn all_below(path: Seq<char>, ops: Seq<TreeOpView>) -> bool {
    forall|i: int| 0 <= i < ops.len() ==> path.push('/').is_prefix_of(op_path(#[trigger] ops[i]))
}

/// What is below an item below `path` is below `path`.
proof fn below_the_child(path: Seq<char>, name: Seq<char>, ops: Seq<TreeOpView>)
    requires
        all_below(child_path(path, name), ops),
    ensures
        all_below(path, ops),
{
    let inner = child_path(path, name).push('/');
    assert forall|i: int| 0 <= i < ops.len() implies path.push('/').is_prefix_of(
        op_path(#[trigger] ops[i]),
    ) by {
        assert(inner.is_prefix_of(op_path(ops[i])));
    }
}

proof fn entry_ops_stay_below(
    arc: ArchiveView,
    labels: Map<u64, Seq<char>>,
    path: Seq<char>,
    depth_left: nat,
    entry: DirOrFile,
)
    requires
        entry_ops(arc, labels, path, depth_left, entry) is Some,
    ensures
        all_below(path, entry_ops(arc, labels, path, depth_left, entry).unwrap()),
    decreases depth_left, 0nat, 0nat,
{
    match entry {
        DirOrFile::Dir(dir) => {
            let full_path = child_path(path, display_name(labels, dir));
            if depth_left > 0 {
                let below = tree_ops(arc, labels, full_path, (depth_left - 1) as nat).unwrap();
                tree_ops_stay_below(arc, labels, full_path, (depth_left - 1) as nat);
                below_the_child(path, display_name(labels, dir), below);
            }
        },
        DirOrFile::File(file) => {},
    }
}

proof fn entries_ops_stay_below(
    arc: ArchiveView,
    labels: Map<u64, Seq<char>>,
    path: Seq<char>,
    depth_left: nat,
    entries: Seq<DirOrFile>,
)
    requires
        entries_ops(arc, labels, path, depth_left, entries) is Some,
    ensures
        all_below(path, entries_ops(arc, labels, path, depth_left, entries).unwrap()),
    decreases depth_left, 1nat, entries.len(),
{
    if entries.len() > 0 {
        entry_ops_stay_below(arc, labels, path, depth_left, entries[0]);
        entries_ops_stay_below(arc, labels, path, depth_left, entries.skip(1));
    }
}

/// Filling the tree below an item touches nothing but what is below that
/// item: every operation of `tree_ops` has a path that begins with `path`
/// and `/`.
pub proof fn tree_ops_stay_below(
    arc: ArchiveView,
    labels: Map<u64, Seq<char>>,
    path: Seq<char>,
    depth_left: nat,
)
    requires
        tree_ops(arc, labels, path, depth_left) is Some,
    ensures
        all_below(path, tree_ops(arc, labels, path, depth_left).unwrap()),
    decreases depth_left, 2nat, 0nat,
{
    match arc.dir_info_from_hash(hash40_spec(path)) {
        Ok(Some(dir_info)) => {
            entries_ops_stay_below(arc, labels, path, depth_left, arc.listing(dir_info).unwrap());
        },
        _ => {},
    }
}

/// With no depth left a directory of the listing is added and closed, and
/// nothing is added below it.
pub proof fn directory_is_not_filled_without_depth(
    arc: ArchiveView,
    labels: Map<u64, Seq<char>>,
    path: Seq<char>,
    dir: u64,
)
    ensures
        entry_ops(arc, labels, path, 0, DirOrFile::Dir(dir)) == Some(
            seq![
                TreeOpView::Add {
                    path: child_path(path, display_name(labels, dir)),
                    flagged: !labels.contains_key(dir),
                },
                TreeOpView::Close { path: child_path(path, display_name(labels, dir)) },
            ],
        ),
{
    let full_path = child_path(path, display_name(labels, dir));
    let add = TreeOpView::Add { path: full_path, flagged: !labels.contains_key(dir) };
    let close = TreeOpView::Close { path: full_path };
    assert(seq![add] + Seq::empty() + seq![close] =~= seq![add, close]);
}

/// Joins the path of an item and the name of an item below it.
pub fn join_path(path: &String, name: &String) -> (full_path: String)
    ensures
        full_path@ == child_path(path@, name@),
{
    let mut full_path = path.clone();
    full_path.append("/");
    full_path.append(name.as_str());
    proof {
        reveal_strlit("/");
    }
    full_path
}

/// Computes the operations that fill the tree below the item at `path`:
/// the listing of the directory with that path, and below each directory of
/// it the same again, `depth_left` times.
///
/// Fails exactly when a table of the archive leads outside itself in one of
/// the directories visited.
pub fn build_tree(arc: &Archive, labels: &HashLabels, path: &String, depth_left: usize) -> (built:
    Result<Vec<TreeOp>, ()>)
    ensures
        match built {
            Ok(ops) => tree_ops(arc@, label_map(*labels), path@, depth_left as nat) == Some(
                ops_view(ops@),
            ),
            Err(_) => tree_ops(arc@, label_map(*labels), path@, depth_left as nat) is None,
        },
    decreases depth_left,
{
    let mut ops: Vec<TreeOp> = Vec::new();
    let dir_info = match get_dir_info_from_hash(arc, hash40(path.as_str())) {
        Ok(Some(dir_info)) => dir_info,
        Ok(None) => {
            return Ok(ops);
        },
        Err(()) => {
            return Err(());
        },
    };
    let mut data: Vec<DirOrFile> = Vec::new();
    match dir_info_print_children(arc, &dir_info, &mut data) {
        Ok(()) => {},
        Err(()) => {
            return Err(());
        },
    }
    let ghost known = label_map(*labels);
    let ghost whole = tree_ops(arc@, known, path@, depth_left as nat);
    assert(data@.skip(0) =~= data@);
    let mut i: usize = 0;
    while i < data.len()
        invariant
            i <= data.len(),
            known == label_map(*labels),
            whole == tree_ops(arc@, known, path@, depth_left as nat),
            whole == match entries_ops(arc@, known, path@, depth_left as nat, data@.skip(i as int)) {
                Some(rest) => Some(ops_view(ops@) + rest),
                None => None,
            },
        decreases data.len() - i,
    {
        let ghost before = ops_view(ops@);
        let ghost first = entry_ops(arc@, known, path@, depth_left as nat, data@[i as int]);
        assert(data@.skip(i as int).skip(1) =~= data@.skip(i + 1));
        match data[i] {
            DirOrFile::Dir(dir) => {
                let (name, missing) = resolve(labels, dir);
                let full_path = join_path(path, &name);
                ops.push(TreeOp::Add { path: full_path.clone(), flagged: missing });
                let ghost added = ops_view(ops@);
                if depth_left > 0 {
                    match build_tree(arc, labels, &full_path, depth_left - 1) {
                        Ok(mut below) => {
                            let ghost inner = ops_view(below@);
                            ops.append(&mut below);
                            assert(ops_view(ops@) =~= added + inner);
                        },
                        Err(()) => {
                            assert(first is None);
                            return Err(());
                        },
                    }
                }
                ops.push(TreeOp::Close { path: full_path });
            },
            DirOrFile::File(file) => {
                let (name, missing) = resolve(labels, file);
                let full_path = join_path(path, &name);
                ops.push(TreeOp::Add { path: full_path, flagged: missing });
            },
        }
        proof {
            assert(ops_view(ops@) =~= before + first.unwrap());
            match entries_ops(arc@, known, path@, depth_left as nat, data@.skip(i + 1)) {
                Some(rest) => {
                    assert(before + (first.unwrap() + rest) =~= (before + first.unwrap()) + rest);
                },
                None => {},
            }
        }
        i += 1;
    }
    Ok(ops)
}

} // verus!
