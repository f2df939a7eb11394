use arc_tree::archive::{Archive, DirInfo, DirectoryOffset, HashToIndex, Redirection};
use arc_tree::tree::{build_tree, join_path, TreeOp};
use smash_arc::{hash40, HashLabels};

fn h(text: &str) -> u64 {
    hash40(text).as_u64()
}

fn add(path: &str, flagged: bool) -> TreeOp {
    TreeOp::Add { path: path.to_string(), flagged }
}

fn close(path: &str) -> TreeOp {
    TreeOp::Close { path: path.to_string() }
}

fn labels() -> HashLabels {
    HashLabels::from_string("fighter\nmario\nluigi\nfighter/mario\nbody.nutexb\nc00\n")
}

fn dir(path: u64, name: u64, files: (u32, u32), children: (u32, u32)) -> DirInfo {
    DirInfo {
        path,
        name,
        parent: 0,
        file_info_start_index: files.0,
        file_count: files.1,
        child_dir_start_index: children.0,
        child_dir_count: children.1,
        redirection: Redirection::Direct,
    }
}

fn entry(hash40: u64, index: u32) -> HashToIndex {
    HashToIndex { hash40, index }
}

/// `fighter` holds `mario` and a directory without a label; `mario` holds
/// `c00`, a file with a label and a file without one.
fn sample() -> Archive {
    Archive {
        dir_hash_to_info_index: vec![
            entry(h("fighter"), 0),
            entry(h("fighter/mario"), 1),
            entry(h("fighter/0x1234"), 2),
            entry(h("fighter/mario/c00"), 3),
        ],
        dir_infos: vec![
            dir(h("fighter"), h("fighter"), (0, 0), (0, 2)),
            dir(h("fighter/mario"), h("mario"), (0, 2), (2, 1)),
            dir(h("fighter/0x1234"), 0x1234, (2, 1), (3, 0)),
            dir(h("fighter/mario/c00"), h("c00"), (2, 1), (3, 0)),
        ],
        folder_child_hashes: vec![entry(0, 1), entry(0, 2), entry(0, 3)],
        file_infos: vec![0, 1, 2],
        file_paths: vec![h("body.nutexb"), 0xabc, h("luigi")],
    }
}

#[test]
fn unknown_path_adds_nothing() {
    let arc = sample();
    assert_eq!(build_tree(&arc, &labels(), &"stage".to_string(), 3), Ok(vec![]));
}

#[test]
fn depth_zero_lists_one_directory() {
    let arc = sample();
    let ops = build_tree(&arc, &labels(), &"fighter".to_string(), 0);
    assert_eq!(
        ops,
        Ok(vec![
            add("fighter/mario", false),
            close("fighter/mario"),
            add("fighter/0x1234", true),
            close("fighter/0x1234"),
        ])
    );
}

#[test]
fn depth_one_fills_the_directories_below() {
    let arc = sample();
    let ops = build_tree(&arc, &labels(), &"fighter".to_string(), 1);
    assert_eq!(
        ops,
        Ok(vec![
            add("fighter/mario", false),
            add("fighter/mario/c00", false),
            close("fighter/mario/c00"),
            add("fighter/mario/body.nutexb", false),
            add("fighter/mario/0xabc", true),
            close("fighter/mario"),
            add("fighter/0x1234", true),
            add("fighter/0x1234/luigi", false),
            close("fighter/0x1234"),
        ])
    );
}

#[test]
fn depth_two_goes_one_level_further() {
    let arc = sample();
    let ops = build_tree(&arc, &labels(), &"fighter".to_string(), 2);
    assert_eq!(
        ops,
        Ok(vec![
            add("fighter/mario", false),
            add("fighter/mario/c00", false),
            add("fighter/mario/c00/luigi", false),
            close("fighter/mario/c00"),
            add("fighter/mario/body.nutexb", false),
            add("fighter/mario/0xabc", true),
            close("fighter/mario"),
            add("fighter/0x1234", true),
            add("fighter/0x1234/luigi", false),
            close("fighter/0x1234"),
        ])
    );
}

#[test]
fn depth_beyond_the_tree_changes_nothing() {
    let arc = sample();
    let known = labels();
    let path = "fighter".to_string();
    assert_eq!(build_tree(&arc, &known, &path, 2), build_tree(&arc, &known, &path, 9));
}

#[test]
fn without_labels_every_entry_is_flagged() {
    let arc = sample();
    let ops = build_tree(&arc, &HashLabels::new(), &"fighter/mario".to_string(), 0);
    assert_eq!(
        ops,
        Ok(vec![
            add(&format!("fighter/mario/{:#x}", h("c00")), true),
            close(&format!("fighter/mario/{:#x}", h("c00"))),
            add(&format!("fighter/mario/{:#x}", h("body.nutexb")), true),
            add("fighter/mario/0xabc", true),
        ])
    );
}

#[test]
fn directory_is_found_by_the_hash_of_the_path() {
    // The hash of this path is known from the archive format.
    let path = "fighter/mario/model/body/c00/model.numatb".to_string();
    let arc = Archive {
        dir_hash_to_info_index: vec![entry(0x29954022ed, 0)],
        dir_infos: vec![dir(0x29954022ed, 0, (0, 1), (0, 0))],
        folder_child_hashes: vec![],
        file_infos: vec![0],
        file_paths: vec![0xabc],
    };
    assert_eq!(
        build_tree(&arc, &HashLabels::new(), &path, 0),
        Ok(vec![add("fighter/mario/model/body/c00/model.numatb/0xabc", true)])
    );
}

#[test]
fn redirected_files_are_listed_after_the_own() {
    let mut arc = sample();
    arc.dir_infos[0].redirection =
        Redirection::Shared(DirectoryOffset { file_start_index: 0, file_count: 1 });
    arc.dir_infos[0].file_info_start_index = 2;
    arc.dir_infos[0].file_count = 1;
    let ops = build_tree(&arc, &labels(), &"fighter".to_string(), 0);
    assert_eq!(
        ops,
        Ok(vec![
            add("fighter/mario", false),
            close("fighter/mario"),
            add("fighter/0x1234", true),
            close("fighter/0x1234"),
            add("fighter/luigi", false),
            add("fighter/body.nutexb", false),
        ])
    );
}

#[test]
fn broken_lookup_entry_fails() {
    let mut arc = sample();
    arc.dir_hash_to_info_index[0].index = 4;
    assert_eq!(build_tree(&arc, &labels(), &"fighter".to_string(), 0), Err(()));
}

#[test]
fn broken_listing_fails() {
    let mut arc = sample();
    arc.dir_infos[0].child_dir_count = 4;
    assert_eq!(build_tree(&arc, &labels(), &"fighter".to_string(), 0), Err(()));
}

#[test]
fn broken_directory_below_fails_only_when_visited() {
    let mut arc = sample();
    arc.dir_infos[2].file_count = 2;
    let known = labels();
    let path = "fighter".to_string();
    assert!(build_tree(&arc, &known, &path, 0).is_ok());
    assert_eq!(build_tree(&arc, &known, &path, 1), Err(()));
}

#[test]
fn join_path_puts_a_slash_between() {
    assert_eq!(join_path(&"fighter".to_string(), &"mario".to_string()), "fighter/mario");
    assert_eq!(join_path(&"".to_string(), &"mario".to_string()), "/mario");
    assert_eq!(join_path(&"fighter".to_string(), &"".to_string()), "fighter/");
}

#[test]
fn everything_is_added_below_the_path() {
    let arc = sample();
    let ops = build_tree(&arc, &labels(), &"fighter".to_string(), 2).unwrap();
    assert!(!ops.is_empty());
    for op in ops {
        let path = match op {
            TreeOp::Add { path, .. } => path,
            TreeOp::Root { path } => path,
            TreeOp::Close { path } => path,
        };
        assert!(path.starts_with("fighter/"));
    }
}

#[test]
fn every_directory_is_closed_after_it_is_added() {
    let arc = sample();
    let ops = build_tree(&arc, &labels(), &"fighter".to_string(), 2).unwrap();
    for (at, op) in ops.iter().enumerate() {
        if let TreeOp::Close { path } = op {
            let added = ops[..at].iter().any(|before| match before {
                TreeOp::Add { path: other, .. } => other == path,
                _ => false,
            });
            assert!(added);
        }
    }
}

#[test]
fn opening_fills_one_level() {
    assert_eq!(arc_tree::tree::OPEN_DEPTH, 1);
}
