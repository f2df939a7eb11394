use arc_tree::archive::{Archive, DirInfo, HashToIndex, Redirection};
use arc_tree::roots::{add_root, build_roots, starts_with_hex_prefix};
use arc_tree::tree::TreeOp;
use smash_arc::{hash40, HashLabels};

fn h(text: &str) -> u64 {
    hash40(text).as_u64()
}

fn add(path: &str) -> TreeOp {
    TreeOp::Add { path: path.to_string(), flagged: true }
}

fn dir(path: u64, parent: u64, files: (u32, u32)) -> DirInfo {
    DirInfo {
        path,
        name: 0,
        parent,
        file_info_start_index: files.0,
        file_count: files.1,
        child_dir_start_index: 0,
        child_dir_count: 0,
        redirection: Redirection::Direct,
    }
}

#[test]
fn path_of_several_parts_adds_each_directory() {
    assert_eq!(add_root(&"a/b/c".to_string()), vec![add("a/"), add("a/b/"), add("a/b/c/")]);
    assert_eq!(
        add_root(&"fighter/mario".to_string()),
        vec![add("fighter/"), add("fighter/mario/")]
    );
}

#[test]
fn path_of_one_part_is_a_root() {
    assert_eq!(add_root(&"sound".to_string()), vec![TreeOp::Root { path: "sound".to_string() }]);
}

#[test]
fn empty_path_is_a_root() {
    assert_eq!(add_root(&"".to_string()), vec![TreeOp::Root { path: "".to_string() }]);
}

#[test]
fn empty_parts_count() {
    assert_eq!(add_root(&"a/".to_string()), vec![add("a/"), add("a//")]);
    assert_eq!(add_root(&"/".to_string()), vec![add("/"), add("//")]);
}

#[test]
fn parts_may_hold_any_character() {
    assert_eq!(add_root(&"é/ü".to_string()), vec![add("é/"), add("é/ü/")]);
}

#[test]
fn hex_prefix_is_two_characters() {
    assert!(starts_with_hex_prefix("0x"));
    assert!(starts_with_hex_prefix("0x1f"));
    assert!(!starts_with_hex_prefix("0"));
    assert!(!starts_with_hex_prefix(""));
    assert!(!starts_with_hex_prefix("x0"));
    assert!(!starts_with_hex_prefix("0X1f"));
    assert!(!starts_with_hex_prefix("a0x"));
}

#[test]
fn first_population() {
    let labels = HashLabels::from_string("fighter\nfighter/mario\nsound\n0xcafe\nbody.nutexb\n");
    let arc = Archive {
        dir_hash_to_info_index: vec![
            HashToIndex { hash40: h("fighter/mario"), index: 1 },
            HashToIndex { hash40: h("sound"), index: 2 },
        ],
        dir_infos: vec![
            // Its parent has a label: reached from there.
            dir(h("fighter/mario"), h("fighter"), (0, 0)),
            // No label for the parent: at the top, with the directories on its path.
            dir(h("fighter/mario"), 1, (0, 1)),
            // A path of one part.
            dir(h("sound"), 2, (1, 1)),
            // No label for the path itself.
            dir(0x1234, 3, (0, 1)),
            // A label that looks like a hash.
            dir(h("0xcafe"), 4, (0, 1)),
        ],
        folder_child_hashes: vec![],
        file_infos: vec![0, 1],
        file_paths: vec![h("body.nutexb"), 0xabc],
    };
    assert_eq!(
        build_roots(&arc, &labels),
        Ok(vec![
            add("fighter/"),
            add("fighter/mario/"),
            TreeOp::Add { path: "fighter/mario/body.nutexb".to_string(), flagged: false },
            TreeOp::Root { path: "sound".to_string() },
            TreeOp::Add { path: "sound/0xabc".to_string(), flagged: true },
        ])
    );
}

#[test]
fn first_population_of_an_empty_archive() {
    let arc = Archive {
        dir_hash_to_info_index: vec![],
        dir_infos: vec![],
        folder_child_hashes: vec![],
        file_infos: vec![],
        file_paths: vec![],
    };
    assert_eq!(build_roots(&arc, &HashLabels::new()), Ok(vec![]));
}

#[test]
fn first_population_fails_on_a_broken_table() {
    let labels = HashLabels::from_string("sound\n");
    let arc = Archive {
        dir_hash_to_info_index: vec![HashToIndex { hash40: h("sound"), index: 0 }],
        dir_infos: vec![dir(h("sound"), 2, (0, 1))],
        folder_child_hashes: vec![],
        file_infos: vec![],
        file_paths: vec![],
    };
    assert_eq!(build_roots(&arc, &labels), Err(()));
}

#[test]
fn first_population_fills_one_level() {
    let labels = HashLabels::from_string("sound\nbgm\n");
    let arc = Archive {
        dir_hash_to_info_index: vec![
            HashToIndex { hash40: h("sound"), index: 0 },
            HashToIndex { hash40: h("sound/bgm"), index: 1 },
        ],
        dir_infos: vec![
            DirInfo { child_dir_count: 1, ..dir(h("sound"), 2, (0, 0)) },
            DirInfo { name: h("bgm"), ..dir(h("sound/bgm"), h("sound"), (0, 1)) },
        ],
        folder_child_hashes: vec![HashToIndex { hash40: 0, index: 1 }],
        file_infos: vec![0],
        file_paths: vec![0xabc],
    };
    assert_eq!(
        build_roots(&arc, &labels),
        Ok(vec![
            TreeOp::Root { path: "sound".to_string() },
            TreeOp::Add { path: "sound/bgm".to_string(), flagged: false },
            TreeOp::Add { path: "sound/bgm/0xabc".to_string(), flagged: true },
            TreeOp::Close { path: "sound/bgm".to_string() },
        ])
    );
}
