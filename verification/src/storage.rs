//! Where the service keeps its data files.

use vstd::prelude::*;
use vstd::string::*;

use crate::paths::{join_path_bytes, joined_bytes, lemma_joined_bytes, slash_byte};

verus! {

broadcast use vstd::string::group_string_axioms;

/// Locates the data files of the service. Paths are raw bytes, as the file
/// system holds them, so that no name is altered on the way.
pub struct Storage;

/// The user's configuration directory, as the bytes of its path.
///
/// Calls `dirs::config_dir` (on Linux `$XDG_CONFIG_HOME` or
/// `$HOME/.config`) and takes the bytes of the path with
/// `OsString::into_encoded_bytes`. It depends on the environment, so nothing
/// is claimed of it.
#[verifier::external_body]
fn user_config_dir() -> (dir: Option<Vec<u8>>) {
    match dirs::config_dir() {
        Some(p) => Some(p.into_os_string().into_encoded_bytes()),
        None => None,
    }
}

/// The name of the service's data directory, "alist-uploader", as bytes.
pub open spec fn app_dir_name() -> Seq<u8> {
    "alist-uploader"@.map_values(|c: char| c as u8)
}

/// The path ".", as bytes.
pub open spec fn current_dir() -> Seq<u8> {
    "."@.map_values(|c: char| c as u8)
}

/// The data directory for the configuration directory `config_dir`: the
/// folder "alist-uploader" inside it, or inside "." when there is none.
pub open spec fn data_dir_in(config_dir: Option<Seq<u8>>) -> Seq<u8> {
    joined_bytes(
        match config_dir {
            Some(d) => d,
            None => current_dir(),
        },
        app_dir_name(),
    )
}

/// The data directory is the folder "alist-uploader" placed directly inside
/// the configuration directory (or ".") by one `/` unless that directory is
/// empty or ends in `/`: its last component is "alist-uploader" and what
/// comes before it is the configuration directory.
pub proof fn lemma_data_dir(config_dir: Option<Seq<u8>>)
    ensures
        ({
            let base = match config_dir {
                Some(d) => d,
                None => current_dir(),
            };
            let dir = data_dir_in(config_dir);
            &&& dir.skip(dir.len() - app_dir_name().len()) == app_dir_name()
            &&& dir.take(base.len() as int) == base
            &&& (base.len() > 0 && base.last() != slash_byte()) ==> dir == base + seq![slash_byte()]
                + app_dir_name()
            &&& (base.len() == 0 || base.last() == slash_byte()) ==> dir == base + app_dir_name()
        }),
{
    reveal_strlit("alist-uploader");
    let base = match config_dir {
        Some(d) => d,
        None => current_dir(),
    };
    assert(app_dir_name()[0] == 97u8);
    lemma_joined_bytes(base, app_dir_name());
}

fn ascii_bytes(s: &str) -> (b: &[u8])
    requires
        s.is_ascii(),
    ensures
        b@ == s@.map_values(|c: char| c as u8),
{
    let b = s.as_bytes();
    proof {
        assert(b@ =~= s@.map_values(|c: char| c as u8));
    }
    b
}

impl Storage {
    /// The data directory inside the configuration directory `config_dir`.
    pub fn data_dir_for(config_dir: Option<Vec<u8>>) -> (dir: Vec<u8>)
        ensures
            dir@ == data_dir_in(
                match config_dir {
                    Some(d) => Some(d@),
                    None => None,
                },
            ),
    {
        proof {
            reveal_strlit("alist-uploader");
            reveal_strlit(".");
        }
        let name = ascii_bytes("alist-uploader");
        match config_dir {
            Some(d) => join_path_bytes(d.as_slice(), name),
            None => join_path_bytes(ascii_bytes("."), name),
        }
    }

    /// The data directory inside the current user's configuration directory
    /// (which the caller creates when it is missing).
    pub fn get_data_path() -> (dir: Vec<u8>)
        ensures
            exists|config_dir: Option<Seq<u8>>| dir@ == data_dir_in(config_dir),
    {
        Storage::data_dir_for(user_config_dir())
    }

    /// The path of the data file `file_name` in the data directory `dir`.
    pub fn data_file(dir: &[u8], file_name: &str) -> (path: Vec<u8>)
        ensures
            path@ == joined_bytes(dir@, file_name.spec_bytes()),
    {
        join_path_bytes(dir, file_name.as_bytes())
    }
}

} // verus!
