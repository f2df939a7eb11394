//! The tables of an archive that say which directories and files a
//! directory holds, as plain values, and the listing of one directory.
//!
//! Nothing here trusts the tables: an index that leads outside its table
//! makes the listing fail, and the contracts say exactly when.
use vstd::prelude::*;

verus! {

/// An entry of one of the archive's hash tables: a hash and the index that
/// it leads to.
#[derive(Clone, Copy, Debug, PartialEq, Eq)]
pub struct HashToIndex {
    pub hash40: u64,
    pub index: u32,
}

/// A run of file entries that several directories share.
#[derive(Clone, Copy, Debug, PartialEq, Eq)]
pub struct DirectoryOffset {
    pub file_start_index: u32,
    pub file_count: u32,
}

/// What a directory shows besides its own files.
#[derive(Clone, Copy, Debug, PartialEq, Eq)]
pub enum Redirection {
    /// Nothing: the directory is not redirected.
    Direct,
    /// The files of the directory that this one stands for.
    Symlink { file_info_start_index: u32, file_count: u32 },
    /// A run of shared files.
    Shared(DirectoryOffset),
}

/// One directory of the archive.
#[derive(Clone, Copy, Debug, PartialEq, Eq)]
pub struct DirInfo {
    /// Hash of the directory's full path.
    pub path: u64,
    /// Hash of the directory's own name.
    pub name: u64,
    /// Hash of the path of the directory above.
    pub parent: u64,
    pub file_info_start_index: u32,
    pub file_count: u32,
    pub child_dir_start_index: u32,
    pub child_dir_count: u32,
    pub redirection: Redirection,
}

/// An entry of a listing: a directory, by the hash of its name, or a file,
/// by the hash of its path.
#[derive(Clone, Copy, Debug, PartialEq, Eq)]
pub enum DirOrFile {
    Dir(u64),
    File(u64),
}

/// The tables of an archive.
#[derive(Debug, PartialEq, Eq)]
pub struct Archive {
    /// From the hash of a directory's path to its place in `dir_infos`.
    pub dir_hash_to_info_index: Vec<HashToIndex>,
    pub dir_infos: Vec<DirInfo>,
    /// The directories below each directory, by their place in `dir_infos`.
    pub folder_child_hashes: Vec<HashToIndex>,
    /// For each file entry, the place of its path in `file_paths`.
    pub file_infos: Vec<u32>,
    /// For each path entry, the hash of the file's path.
    pub file_paths: Vec<u64>,
}

/// The tables of an archive as sequences.
pub struct ArchiveView {
    pub dir_hash_to_info_index: Seq<HashToIndex>,
    pub dir_infos: Seq<DirInfo>,
    pub folder_child_hashes: Seq<HashToIndex>,
    pub file_infos: Seq<u32>,
    pub file_paths: Seq<u64>,
}

impl View for Archive {
    type V = ArchiveView;

    open spec fn view(&self) -> ArchiveView {
        ArchiveView {
            dir_hash_to_info_index: self.dir_hash_to_info_index@,
            dir_infos: self.dir_infos@,
            folder_child_hashes: self.folder_child_hashes@,
            file_infos: self.file_infos@,
            file_paths: self.file_paths@,
        }
    }
}

/// The first entry of `table` at or after `from` that carries `hash`.
pub open spec fn find_hash(table: Seq<HashToIndex>, hash: u64, from: int) -> Option<HashToIndex>
    decreases table.len() - from,
{
    if from < 0 || from >= table.len() {
        None
    } else if table[from].hash40 == hash {
        Some(table[from])
    } else {
        find_hash(table, hash, from + 1)
    }
}

/// Two parts of a listing, one after the other; nothing where a part is missing.
pub open spec fn joined(
    first: Option<Seq<DirOrFile>>,
    second: Option<Seq<DirOrFile>>,
) -> Option<Seq<DirOrFile>> {
    match (first, second) {
        (Some(a), Some(b)) => Some(a + b),
        _ => None,
    }
}

impl ArchiveView {
    /// The directory whose path has the hash `hash`: `Ok(None)` where the
    /// table has no such hash, `Err` where its entry leads outside `dir_infos`.
    pub open spec fn dir_info_from_hash(self, hash: u64) -> Result<Option<DirInfo>, ()> {
        match find_hash(self.dir_hash_to_info_index, hash, 0) {
            None => Ok(None),
            Some(entry) => if entry.index < self.dir_infos.len() {
                Ok(Some(self.dir_infos[entry.index as int]))
            } else {
                Err(())
            },
        }
    }

    /// Whether the run of `count` file entries from `start` lies in
    /// `file_infos` and each of them leads into `file_paths`.
    pub open spec fn files_in_bounds(self, start: u32, count: u32) -> bool {
        &&& start + count <= self.file_infos.len()
        &&& forall|i: int|
            start <= i < start + count ==> (#[trigger] self.file_infos[i]) < self.file_paths.len()
    }

    /// The files of a run of file entries, in the table's order.
    pub open spec fn files(self, start: u32, count: u32) -> Option<Seq<DirOrFile>> {
        if self.files_in_bounds(start, count) {
            Some(
                Seq::new(
                    count as nat,
                    |i: int| DirOrFile::File(self.file_paths[self.file_infos[start + i] as int]),
                ),
            )
        } else {
            None
        }
    }

    /// Whether the directory's run of children lies in `folder_child_hashes`
    /// and each of them leads into `dir_infos`.
    pub open spec fn children_in_bounds(self, dir_info: DirInfo) -> bool {
        &&& dir_info.child_dir_start_index + dir_info.child_dir_count
            <= self.folder_child_hashes.len()
        &&& forall|i: int|
            dir_info.child_dir_start_index <= i < dir_info.child_dir_start_index
                + dir_info.child_dir_count ==> (#[trigger] self.folder_child_hashes[i]).index
                < self.dir_infos.len()
    }

    /// The directories below a directory, each by its name, in the table's order.
    pub open spec fn child_dirs(self, dir_info: DirInfo) -> Option<Seq<DirOrFile>> {
        if self.children_in_bounds(dir_info) {
            Some(
                Seq::new(
                    dir_info.child_dir_count as nat,
                    |i: int|
                        DirOrFile::Dir(
                            self.dir_infos[self.folder_child_hashes[dir_info.child_dir_start_index
                                + i].index as int].name,
                        ),
                ),
            )
        } else {
            None
        }
    }

    /// The files that a redirection adds to a directory.
    pub open spec fn redirected_files(self, redirection: Redirection) -> Option<Seq<DirOrFile>> {
        match redirection {
            Redirection::Direct => Some(Seq::empty()),
            Redirection::Symlink { file_info_start_index, file_count } => self.files(
                file_info_start_index,
                file_count,
            ),
            Redirection::Shared(offset) => self.files(offset.file_start_index, offset.file_count),
        }
    }

    /// The files of a directory: its own, then those of its redirection.
    pub open spec fn dir_files(self, dir_info: DirInfo) -> Option<Seq<DirOrFile>> {
        joined(
            self.files(dir_info.file_info_start_index, dir_info.file_count),
            self.redirected_files(dir_info.redirection),
        )
    }

    /// The listing of a directory: the directories below it, then its files.
    pub open spec fn listing(self, dir_info: DirInfo) -> Option<Seq<DirOrFile>> {
        joined(self.child_dirs(dir_info), self.dir_files(dir_info))
    }
}

/// From `from` on, `find_hash` finds the first entry that carries the hash,
/// and none only where no entry carries it.
proof fn find_hash_from(table: Seq<HashToIndex>, hash: u64, from: int)
    requires
        0 <= from <= table.len(),
    ensures
        match find_hash(table, hash, from) {
            Some(entry) => exists|i: int|
                from <= i < table.len() && #[trigger] table[i] == entry && entry.hash40 == hash
                    && forall|j: int| from <= j < i ==> (#[trigger] table[j]).hash40 != hash,
            None => forall|i: int| from <= i < table.len() ==> (#[trigger] table[i]).hash40 != hash,
        },
    decreases table.len() - from,
{
    if from < table.len() && table[from].hash40 != hash {
        find_hash_from(table, hash, from + 1);
        match find_hash(table, hash, from + 1) {
            Some(entry) => {
                let i = choose|i: int|
                    from + 1 <= i < table.len() && #[trigger] table[i] == entry && entry.hash40
                        == hash && forall|j: int|
                        from + 1 <= j < i ==> (#[trigger] table[j]).hash40 != hash;
                assert(table[i] == entry);
                assert(forall|j: int| from <= j < i ==> (#[trigger] table[j]).hash40 != hash);
            },
            None => {},
        }
    }
}

/// A lookup finds the first entry of the table that carries the hash, and
/// finds none exactly where no entry carries it.
pub proof fn find_hash_is_first(table: Seq<HashToIndex>, hash: u64)
    ensures
        match find_hash(table, hash, 0) {
            Some(entry) => exists|i: int|
                0 <= i < table.len() && #[trigger] table[i] == entry && entry.hash40 == hash
                    && forall|j: int| 0 <= j < i ==> (#[trigger] table[j]).hash40 != hash,
            None => forall|i: int| 0 <= i < table.len() ==> (#[trigger] table[i]).hash40 != hash,
        },
{
    find_hash_from(table, hash, 0);
}

/// A listing shows the directories first and then the files: as many
/// directories as the directory has children, then its own files and those
/// of its redirection.
pub proof fn listing_has_directories_first(arc: ArchiveView, dir_info: DirInfo)
    requires
        arc.listing(dir_info) is Some,
    ensures
        arc.redirected_files(dir_info.redirection) is Some,
        arc.listing(dir_info).unwrap().len() == dir_info.child_dir_count + dir_info.file_count
            + arc.redirected_files(dir_info.redirection).unwrap().len(),
        forall|i: int|
            0 <= i < dir_info.child_dir_count ==> (#[trigger] arc.listing(dir_info).unwrap()[i])
                is Dir,
        forall|i: int|
            dir_info.child_dir_count <= i < arc.listing(dir_info).unwrap().len() ==> (
            #[trigger] arc.listing(dir_info).unwrap()[i]) is File,
{
    let dirs = arc.child_dirs(dir_info).unwrap();
    let own = arc.files(dir_info.file_info_start_index, dir_info.file_count).unwrap();
    let more = arc.redirected_files(dir_info.redirection).unwrap();
    assert(arc.listing(dir_info).unwrap() =~= dirs + (own + more));
    assert(forall|i: int| 0 <= i < more.len() ==> (#[trigger] more[i]) is File);
}

/// Looks a directory up by the hash of its path.
pub fn get_dir_info_from_hash(arc: &Archive, hash: u64) -> (found: Result<Option<DirInfo>, ()>)
    ensures
        found == arc@.dir_info_from_hash(hash),
{
    let table = &arc.dir_hash_to_info_index;
    let mut i: usize = 0;
    while i < table.len()
        invariant
            i <= table.len(),
            table@ == arc@.dir_hash_to_info_index,
            find_hash(table@, hash, 0) == find_hash(table@, hash, i as int),
        decreases table.len() - i,
    {
        let entry = table[i];
        if entry.hash40 == hash {
            let at = entry.index as usize;
            if at < arc.dir_infos.len() {
                return Ok(Some(arc.dir_infos[at]));
            } else {
                return Err(());
            }
        }
        i += 1;
    }
    Ok(None)
}

/// Appends to `data` the files of the run of `count` file entries from
/// `start`. Where an entry leads outside its table, `data` stays as it was.
fn print_file_run(arc: &Archive, start: u32, count: u32, data: &mut Vec<DirOrFile>) -> (done:
    Result<(), ()>)
    ensures
        match done {
            Ok(_) => arc@.files(start, count) matches Some(files) && final(data)@ == old(data)@
                + files,
            Err(_) => arc@.files(start, count) is None && final(data)@ == old(data)@,
        },
{
    let mark = data.len();
    let end: u64 = start as u64 + count as u64;
    if end > arc.file_infos.len() as u64 {
        return Err(());
    }
    let first = start as usize;
    let mut i: usize = 0;
    while i < count as usize
        invariant
            i <= count,
            first == start,
            start + count <= arc.file_infos.len(),
            mark == old(data).len(),
            data@.len() == mark + i,
            data@.subrange(0, mark as int) == old(data)@,
            forall|k: int|
                start <= k < start + i ==> (#[trigger] arc@.file_infos[k]) < arc@.file_paths.len(),
            forall|k: int|
                0 <= k < i ==> (#[trigger] data@[mark + k]) == DirOrFile::File(
                    arc@.file_paths[arc@.file_infos[start + k] as int],
                ),
        decreases count - i,
    {
        let at = arc.file_infos[first + i] as usize;
        if at >= arc.file_paths.len() {
            data.truncate(mark);
            assert(arc@.file_infos[start + i] >= arc@.file_paths.len());
            return Err(());
        }
        data.push(DirOrFile::File(arc.file_paths[at]));
        i += 1;
    }
    proof {
        let whole = old(data)@ + arc@.files(start, count).unwrap();
        assert forall|j: int| 0 <= j < data@.len() implies data@[j] == whole[j] by {
            if j < mark {
                assert(data@.subrange(0, mark as int)[j] == old(data)@[j]);
            } else {
                assert(data@[mark + (j - mark)] == whole[j]);
            }
        }
        assert(data@ =~= whole);
    }
    Ok(())
}

/// Appends to `data` the files of a run of shared files.
pub fn dir_offset_print_filepaths(
    arc: &Archive,
    dir_info: &DirectoryOffset,
    data: &mut Vec<DirOrFile>,
) -> (done: Result<(), ()>)
    ensures
        match done {
            Ok(_) => arc@.files(dir_info.file_start_index, dir_info.file_count) matches Some(files)
                && final(data)@ == old(data)@ + files,
            Err(_) => arc@.files(dir_info.file_start_index, dir_info.file_count) is None
                && final(data)@ == old(data)@,
        },
{
    print_file_run(arc, dir_info.file_start_index, dir_info.file_count, data)
}

/// Appends to `data` the files of a directory: its own, then those that its
/// redirection adds.
pub fn dir_info_print_filepaths(arc: &Archive, dir_info: &DirInfo, data: &mut Vec<DirOrFile>) -> (done:
    Result<(), ()>)
    ensures
        match done {
            Ok(_) => arc@.dir_files(*dir_info) matches Some(files) && final(data)@ == old(data)@
                + files,
            Err(_) => arc@.dir_files(*dir_info) is None && final(data)@ == old(data)@,
        },
{
    let mark = data.len();
    print_file_run(arc, dir_info.file_info_start_index, dir_info.file_count, data)?;
    let redirected = match dir_info.redirection {
        Redirection::Direct => Ok(()),
        Redirection::Symlink { file_info_start_index, file_count } => print_file_run(
            arc,
            file_info_start_index,
            file_count,
            data,
        ),
        Redirection::Shared(offset) => dir_offset_print_filepaths(arc, &offset, data),
    };
    match redirected {
        Ok(()) => {
            proof {
                let own = arc@.files(dir_info.file_info_start_index, dir_info.file_count).unwrap();
                let more = arc@.redirected_files(dir_info.redirection).unwrap();
                assert(data@ =~= old(data)@ + (own + more));
            }
            Ok(())
        },
        Err(()) => {
            data.truncate(mark);
            Err(())
        },
    }
}

/// Appends to `data` the listing of a directory: the directories below it,
/// then its files.
pub fn dir_info_print_children(arc: &Archive, dir_info: &DirInfo, data: &mut Vec<DirOrFile>) -> (done:
    Result<(), ()>)
    ensures
        match done {
            Ok(_) => arc@.listing(*dir_info) matches Some(entries) && final(data)@ == old(data)@
                + entries,
            Err(_) => arc@.listing(*dir_info) is None && final(data)@ == old(data)@,
        },
{
    let mark = data.len();
    let start = dir_info.child_dir_start_index;
    let count = dir_info.child_dir_count;
    let end: u64 = start as u64 + count as u64;
    if end > arc.folder_child_hashes.len() as u64 {
        return Err(());
    }
    let first = start as usize;
    let mut i: usize = 0;
    while i < count as usize
        invariant
            i <= count,
            first == start,
            start == dir_info.child_dir_start_index,
            count == dir_info.child_dir_count,
            start + count <= arc.folder_child_hashes.len(),
            mark == old(data).len(),
            data@.len() == mark + i,
            data@.subrange(0, mark as int) == old(data)@,
            forall|k: int|
                start <= k < start + i ==> (#[trigger] arc@.folder_child_hashes[k]).index
                    < arc@.dir_infos.len(),
            forall|k: int|
                0 <= k < i ==> (#[trigger] data@[mark + k]) == DirOrFile::Dir(
                    arc@.dir_infos[arc@.folder_child_hashes[start + k].index as int].name,
                ),
        decreases count - i,
    {
        let at = arc.folder_child_hashes[first + i].index as usize;
        if at >= arc.dir_infos.len() {
            data.truncate(mark);
            assert(arc@.folder_child_hashes[start + i].index >= arc@.dir_infos.len());
            return Err(());
        }
        data.push(DirOrFile::Dir(arc.dir_infos[at].name));
        i += 1;
    }
    proof {
        let whole = old(data)@ + arc@.child_dirs(*dir_info).unwrap();
        assert forall|j: int| 0 <= j < data@.len() implies data@[j] == whole[j] by {
            if j < mark {
                assert(data@.subrange(0, mark as int)[j] == old(data)@[j]);
            } else {
                assert(data@[mark + (j - mark)] == whole[j]);
            }
        }
        assert(data@ =~= whole);
    }
    match dir_info_print_filepaths(arc, dir_info, data) {
        Ok(()) => {
            proof {
                let dirs = arc@.child_dirs(*dir_info).unwrap();
                let files = arc@.dir_files(*dir_info).unwrap();
                assert(data@ =~= old(data)@ + (dirs + files));
            }
            Ok(())
        },
        Err(()) => {
            data.truncate(mark);
            Err(())
        },
    }
}

} // verus!
