//! The first population of the tree: the directories whose parent has no
//! known label stand at the top, each with the directories on its path.
use crate::archive::{Archive, ArchiveView, DirInfo};
use crate::hex::{has_hex_prefix, hex_label_has_prefix};
use crate::labels::{display_name, label, label_map, resolve};
use crate::tree::{build_tree, ops_view, tree_ops, TreeOp, TreeOpView};
use smash_arc::HashLabels;
use vstd::prelude::*;
use vstd::string::{StrSliceExecFns, StringExecFns};

verus! {

/// How deep the tree is filled below each directory at the top.
pub const ROOT_DEPTH: usize = 1;

/// The beginnings of `text` that end in `/` within its first `upto`
/// characters, shortest first.
pub open spec fn slash_prefixes(text: Seq<char>, upto: int) -> Seq<Seq<char>>
    decreases upto,
{
    if upto <= 0 || upto > text.len() {
        Seq::empty()
    } else if text[upto - 1] == '/' {
        slash_prefixes(text, upto - 1).push(text.subrange(0, upto))
    } else {
        slash_prefixes(text, upto - 1)
    }
}

/// The paths of the directories on the way to `name` and of `name` itself,
/// each closed by `/`: for `a/b` these are `a/` and `a/b/`.
pub open spec fn dir_prefixes(name: Seq<char>) -> Seq<Seq<char>> {
    slash_prefixes(name.push('/'), name.len() as int + 1)
}

/// The operations that put a directory with the path `name` at the top of
/// the tree. A path of several parts adds each directory on the way, marked;
/// a path of one part adds that item, which must succeed, and marks it.
pub open spec fn root_adds(name: Seq<char>) -> Seq<TreeOpView> {
    let prefixes = dir_prefixes(name);
    if prefixes.len() >= 2 {
        Seq::new(prefixes.len(), |i: int| TreeOpView::Add { path: prefixes[i], flagged: true })
    } else {
        seq![TreeOpView::Root { path: name }]
    }
}

/// The operations for one directory of the archive on the first population.
///
/// A directory whose parent has a label is reached from that parent and adds
/// nothing here, nor does one whose own path has no label or a label that
/// begins with `0x`. Any other is put at the top and filled `ROOT_DEPTH` deep.
pub open spec fn root_ops(arc: ArchiveView, labels: Map<u64, Seq<char>>, dir_info: DirInfo) -> Option<
    Seq<TreeOpView>,
> {
    let name = display_name(labels, dir_info.path);
    if labels.contains_key(dir_info.parent) || has_hex_prefix(name) {
        Some(Seq::empty())
    } else {
        match tree_ops(arc, labels, name, ROOT_DEPTH as nat) {
            Some(below) => Some(root_adds(name) + below),
            None => None,
        }
    }
}

/// The operations of the first population for the directories `dir_infos`,
/// one after the other.
pub open spec fn roots_ops(
    arc: ArchiveView,
    labels: Map<u64, Seq<char>>,
    dir_infos: Seq<DirInfo>,
) -> Option<Seq<TreeOpView>>
    decreases dir_infos.len(),
{
    if dir_infos.len() == 0 {
        Some(Seq::empty())
    } else {
        match (
            root_ops(arc, labels, dir_infos[0]),
            roots_ops(arc, labels, dir_infos.skip(1)),
        ) {
            (Some(first), Some(rest)) => Some(first + rest),
            _ => None,
        }
    }
}

/// A directory whose path has no label is never put at the top: its name
/// would be a hexadecimal notation.
pub proof fn unlabelled_path_adds_nothing(
    arc: ArchiveView,
    labels: Map<u64, Seq<char>>,
    dir_info: DirInfo,
)
    requires
        !labels.contains_key(dir_info.path),
    ensures
        root_ops(arc, labels, dir_info) == Some(Seq::<TreeOpView>::empty()),
{
    hex_label_has_prefix(dir_info.path);
}

/// Whether a name begins with `0x`.
pub fn starts_with_hex_prefix(name: &str) -> (hex: bool)
    ensures
        hex == has_hex_prefix(name@),
{
    name.unicode_len() >= 2 && name.get_char(0) == '0' && name.get_char(1) == 'x'
}

/// Computes the operations that put a directory with the path `name` at the
/// top of the tree.
pub fn add_root(name: &String) -> (ops: Vec<TreeOp>)
    ensures
        ops_view(ops@) == root_adds(name@),
{
    let text = name.as_str();
    let len = text.unicode_len();
    let ghost closed = name@.push('/');
    let mut ops: Vec<TreeOp> = Vec::new();
    let mut i: usize = 0;
    while i < len
        invariant
            i <= len,
            len == name@.len(),
            text@ == name@,
            closed == name@.push('/'),
            ops@.len() == slash_prefixes(closed, i as int).len(),
            forall|k: int|
                0 <= k < ops@.len() ==> (#[trigger] ops@[k])@ == (TreeOpView::Add {
                    path: slash_prefixes(closed, i as int)[k],
                    flagged: true,
                }),
        decreases len - i,
    {
        if text.get_char(i) == '/' {
            let prefix = String::from_str(text.substring_char(0, i + 1));
            assert(prefix@ =~= closed.subrange(0, i + 1));
            ops.push(TreeOp::Add { path: prefix, flagged: true });
        }
        i += 1;
    }
    let mut whole = name.clone();
    whole.append("/");
    proof {
        reveal_strlit("/");
        assert(whole@ =~= closed.subrange(0, len + 1));
    }
    ops.push(TreeOp::Add { path: whole, flagged: true });
    if ops.len() >= 2 {
        ops
    } else {
        let mut single: Vec<TreeOp> = Vec::new();
        single.push(TreeOp::Root { path: name.clone() });
        single
    }
}

/// Computes the first population of the tree: for each directory of the
/// archive, in the order of the table, what `root_ops` says.
///
/// Fails exactly when a table of the archive leads outside itself in one of
/// the directories visited.
pub fn build_roots(arc: &Archive, labels: &HashLabels) -> (built: Result<Vec<TreeOp>, ()>)
    ensures
        match built {
            Ok(ops) => roots_ops(arc@, label_map(*labels), arc@.dir_infos) == Some(ops_view(ops@)),
            Err(_) => roots_ops(arc@, label_map(*labels), arc@.dir_infos) is None,
        },
{
    let ghost known = label_map(*labels);
    let ghost whole = roots_ops(arc@, known, arc@.dir_infos);
    let mut ops: Vec<TreeOp> = Vec::new();
    assert(arc@.dir_infos.skip(0) =~= arc@.dir_infos);
    let mut i: usize = 0;
    while i < arc.dir_infos.len()
        invariant
            i <= arc.dir_infos.len(),
            known == label_map(*labels),
            whole == roots_ops(arc@, known, arc@.dir_infos),
            whole == match roots_ops(arc@, known, arc@.dir_infos.skip(i as int)) {
                Some(rest) => Some(ops_view(ops@) + rest),
                None => None,
            },
        decreases arc.dir_infos.len() - i,
    {
        let ghost before = ops_view(ops@);
        let ghost first = root_ops(arc@, known, arc@.dir_infos[i as int]);
        assert(arc@.dir_infos.skip(i as int).skip(1) =~= arc@.dir_infos.skip(i + 1));
        let dir_info = arc.dir_infos[i];
        if label(labels, dir_info.parent).is_none() {
            let (name, _) = resolve(labels, dir_info.path);
            if !starts_with_hex_prefix(name.as_str()) {
                let mut adds = add_root(&name);
                let ghost top = ops_view(adds@);
                ops.append(&mut adds);
                match build_tree(arc, labels, &name, ROOT_DEPTH) {
                    Ok(mut below) => {
                        let ghost inner = ops_view(below@);
                        ops.append(&mut below);
                        assert(ops_view(ops@) =~= before + (top + inner));
                    },
                    Err(()) => {
                        assert(first is None);
                        return Err(());
                    },
                }
            }
        }
        proof {
            assert(ops_view(ops@) =~= before + first.unwrap());
            match roots_ops(arc@, known, arc@.dir_infos.skip(i + 1)) {
                Some(rest) => {
                    assert(before + (first.unwrap() + rest) =~= (before + first.unwrap()) + rest);
                },
                None => {},
            }
        }
        i += 1;
    }
    Ok(ops)
}

} // verus!
