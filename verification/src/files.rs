//! Local files picked for upload: their names, sizes and where they sit
//! below a collected directory.

use vstd::prelude::*;
use vstd::string::*;

use crate::error::FsError;
use crate::paths::has_no_slash;
use crate::task::FileInfo;

verus! {

/// The final component of the path `path`, if it has one (none for `/`, for
/// an empty path, or for a path ending in `..`).
pub uninterp spec fn path_file_name_text(path: Seq<char>) -> Option<Seq<char>>;

/// `path` relative to `base`, if `base` is a leading run of its components.
pub uninterp spec fn path_below_text(path: Seq<char>, base: Seq<char>) -> Option<Seq<char>>;

/// The final component of `path`.
///
/// Calls `std::path::Path::file_name` and reads the component back as text.
/// Claimed: the result is `path_file_name_text(path)`, a function of the
/// path alone, and, being one component, holds no `/`.
#[verifier::external_body]
fn path_file_name(path: &str) -> (name: Option<String>)
    ensures
        name is Some == path_file_name_text(path@) is Some,
        name matches Some(n) ==> n@ == path_file_name_text(path@)->0,
        name matches Some(n) ==> has_no_slash(n@),
{
    match std::path::Path::new(path).file_name() {
        Some(n) => match n.to_str() {
            Some(t) => Some(t.to_string()),
            None => None,
        },
        None => None,
    }
}

/// `path` relative to `base`.
///
/// Calls `std::path::Path::strip_prefix` and reads the rest back as text.
/// Claimed: the result is `path_below_text(path, base)`, a function of the
/// two paths alone.
#[verifier::external_body]
fn path_below(path: &str, base: &str) -> (rel: Option<String>)
    ensures
        rel is Some == path_below_text(path@, base@) is Some,
        rel matches Some(r) ==> r@ == path_below_text(path@, base@)->0,
{
    match std::path::Path::new(path).strip_prefix(base) {
        Ok(p) => match p.to_str() {
            Some(t) => Some(t.to_string()),
            None => None,
        },
        Err(_) => None,
    }
}

/// The name shown for the file at `path`: its final component, or
/// "unknown" when it has none.
pub open spec fn shown_name(path: Seq<char>) -> Seq<char> {
    match path_file_name_text(path) {
        Some(n) => n,
        None => "unknown"@,
    }
}

/// The name shown for the file at `path`.
pub fn file_display_name(path: &str) -> (name: String)
    ensures
        name@ == shown_name(path@),
        has_no_slash(name@),
{
    match path_file_name(path) {
        Some(n) => n,
        None => {
            proof {
                reveal_strlit("unknown");
            }
            String::from_str("unknown")
        },
    }
}

/// Size and shown name of the file at `path`, given its size when it
/// exists; a missing file is reported with its path.
pub fn file_summary(path: &str, size: Option<u64>) -> (r: Result<(u64, String), FsError>)
    ensures
        match size {
            Some(s) => r matches Ok((sz, name)) && sz == s && name@ == shown_name(path@),
            None => r matches Err(FsError::FileNotFound(p)) && p@ == path@,
        },
{
    match size {
        Some(s) => Ok((s, file_display_name(path))),
        None => Err(FsError::FileNotFound(path.to_owned())),
    }
}

/// The path of an entry met while walking a directory tree.
#[derive(Clone, Debug)]
pub enum WalkedPath {
    /// A path that is UTF-8 text.
    Text(String),
    /// A path that is not UTF-8: its text with what is not UTF-8 replaced,
    /// its final component when it has one that is UTF-8, and its path below
    /// the walked directory when it lies below it and that part is UTF-8.
    Raw { lossy: String, file_name: Option<String>, relative_path: Option<String> },
}

/// An entry met while walking a directory tree.
#[derive(Clone, Debug)]
pub struct WalkedEntry {
    pub path: WalkedPath,
    pub is_file: bool,
    pub size: u64,
}

/// The text content of a `FileInfo`.
pub struct FileInfoView {
    pub path: Seq<char>,
    pub name: Seq<char>,
    pub size: u64,
    pub relative_path: Option<Seq<char>>,
}

impl View for FileInfo {
    type V = FileInfoView;

    open spec fn view(&self) -> FileInfoView {
        FileInfoView {
            path: self.path@,
            name: self.name@,
            size: self.size,
            relative_path: match self.relative_path {
                Some(r) => Some(r@),
                None => None,
            },
        }
    }
}

/// What a walked file below the directory `root` becomes: named by its
/// final component, or "unknown" when it has none in UTF-8; with its size;
/// and with its path below `root`, or an empty one when that cannot be given
/// as UTF-8.
pub open spec fn collected_file(w: WalkedEntry, root: Seq<char>) -> FileInfoView {
    match w.path {
        WalkedPath::Text(p) => FileInfoView {
            path: p@,
            name: shown_name(p@),
            size: w.size,
            relative_path: Some(
                match path_below_text(p@, root) {
                    Some(r) => r,
                    None => Seq::empty(),
                },
            ),
        },
        WalkedPath::Raw { lossy, file_name, relative_path } => FileInfoView {
            path: lossy@,
            name: match file_name {
                Some(n) => n@,
                None => "unknown"@,
            },
            size: w.size,
            relative_path: Some(
                match relative_path {
                    Some(r) => r@,
                    None => Seq::empty(),
                },
            ),
        },
    }
}

/// The files among `walked`, in the order walked.
pub open spec fn collected_files(walked: Seq<WalkedEntry>, root: Seq<char>) -> Seq<FileInfoView>
    decreases walked.len(),
{
    if walked.len() == 0 {
        Seq::empty()
    } else {
        let rest = collected_files(walked.drop_last(), root);
        let w = walked.last();
        if w.is_file {
            rest.push(collected_file(w, root))
        } else {
            rest
        }
    }
}

impl FileInfo {
    /// The file met as `w` while collecting the directory `root`.
    pub fn from_walk(w: &WalkedEntry, root: &str) -> (info: FileInfo)
        ensures
            info@ == collected_file(*w, root@),
    {
        match &w.path {
            WalkedPath::Text(p) => {
                let name = file_display_name(p.as_str());
                let relative = match path_below(p.as_str(), root) {
                    Some(r) => r,
                    None => String::new(),
                };
                FileInfo { path: p.clone(), name, size: w.size, relative_path: Some(relative) }
            },
            WalkedPath::Raw { lossy, file_name, relative_path } => {
                let name = match file_name {
                    Some(n) => n.clone(),
                    None => String::from_str("unknown"),
                };
                let relative = match relative_path {
                    Some(r) => r.clone(),
                    None => String::new(),
                };
                FileInfo { path: lossy.clone(), name, size: w.size, relative_path: Some(relative) }
            },
        }
    }
}

/// The files met while walking the directory `root`, in the order walked,
/// each with its path below `root`.
pub fn collect_files(root: &str, walked: Vec<WalkedEntry>) -> (files: Vec<FileInfo>)
    ensures
        files@.map_values(|f: FileInfo| f@) == collected_files(walked@, root@),
{
    let mut files: Vec<FileInfo> = Vec::new();
    let n = walked.len();
    let mut i: usize = 0;
    while i < n
        invariant
            n == walked@.len(),
            i <= n,
            files@.map_values(|f: FileInfo| f@) == collected_files(walked@.take(i as int), root@),
        decreases n - i,
    {
        let w = &walked[i];
        proof {
            assert(walked@.take(i + 1).drop_last() =~= walked@.take(i as int));
            assert(walked@.take(i + 1).last() == walked@[i as int]);
        }
        if w.is_file {
            let f = FileInfo::from_walk(w, root);
            let ghost before = files@;
            files.push(f);
            proof {
                assert(files@.map_values(|f: FileInfo| f@) =~= before.map_values(|f: FileInfo| f@).push(f@));
            }
        }
        i = i + 1;
    }
    proof {
        assert(walked@.take(n as int) =~= walked@);
    }
    files
}

/// The walked entries that are files.
pub open spec fn walked_file() -> spec_fn(WalkedEntry) -> bool {
    |w: WalkedEntry| w.is_file
}

/// Collecting a directory yields one file for every walked entry that is a
/// file, whatever its size, and nothing for the others, in walk order: as
/// many files as such entries, the `k`-th carrying the size of the `k`-th
/// such entry and what is collected for it.
pub proof fn lemma_every_file_collected(walked: Seq<WalkedEntry>, root: Seq<char>)
    ensures
        collected_files(walked, root).len() == walked.filter(walked_file()).len(),
        forall|k: int|
            0 <= k < collected_files(walked, root).len() ==> {
                &&& #[trigger] collected_files(walked, root)[k] == collected_file(
                    walked.filter(walked_file())[k],
                    root,
                )
                &&& collected_files(walked, root)[k].size == walked.filter(walked_file())[k].size
            },
    decreases walked.len(),
{
    reveal(Seq::filter);
    if walked.len() > 0 {
        lemma_every_file_collected(walked.drop_last(), root);
        let rest = collected_files(walked.drop_last(), root);
        let frest = walked.drop_last().filter(walked_file());
        let w = walked.last();
        if w.is_file {
            assert forall|k: int| 0 <= k < rest.len() + 1 implies #[trigger] rest.push(
                collected_file(w, root),
            )[k] == collected_file(frest.push(w)[k], root) by {
                if k < rest.len() {
                    assert(rest.push(collected_file(w, root))[k] == rest[k]);
                    assert(frest.push(w)[k] == frest[k]);
                }
            }
        }
    }
}

} // verus!
