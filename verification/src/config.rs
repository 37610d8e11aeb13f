//! Config files kept under version control and installed for the user.
use vstd::prelude::*;
use crate::text::{
    colon_fields, join_path, joined_path, occurs_in, push_str, split_colon, str_contains,
    trim_end_text, trimmed_end,
};

verus! {

/// A managed config file: its label, its name in the repository's config
/// directory, where it is installed, and whether it is made executable.
pub struct ConfigFile {
    pub label: &'static str,
    pub repo_name: &'static str,
    pub install_path: String,
    pub executable: bool,
}

/// A managed file whose installed copy is missing or differs.
#[derive(Debug, Clone, Copy, PartialEq, Eq, Structural)]
pub struct ConfigDiff {
    pub file_index: usize,
}

/// The managed files, for a home directory: the MPV wrapper script in
/// `~/.local/bin`, and the MPV config and auto-socket script under
/// `~/.config/mpv`.
pub fn managed_files(home: &str) -> (files: Vec<ConfigFile>)
    ensures
        files@.len() == 3,
        files@[0].label@ == "MPV wrapper script"@,
        files@[0].repo_name@ == "mpv"@,
        files@[0].install_path@ == joined_path(joined_path(home@, ".local/bin"@), "mpv"@),
        files@[0].executable,
        files@[1].label@ == "MPV config"@,
        files@[1].repo_name@ == "mpv.conf"@,
        files@[1].install_path@ == joined_path(joined_path(home@, ".config/mpv"@), "mpv.conf"@),
        !files@[1].executable,
        files@[2].label@ == "Auto-socket Lua script"@,
        files@[2].repo_name@ == "auto-socket.lua"@,
        files@[2].install_path@ == joined_path(
            joined_path(home@, ".config/mpv"@),
            "scripts/auto-socket.lua"@,
        ),
        !files@[2].executable,
{
    let local_bin = join_path(home, ".local/bin");
    let config_dir = join_path(home, ".config/mpv");
    let mut files: Vec<ConfigFile> = Vec::new();
    files.push(
        ConfigFile {
            label: "MPV wrapper script",
            repo_name: "mpv",
            install_path: join_path(local_bin.as_str(), "mpv"),
            executable: true,
        },
    );
    files.push(
        ConfigFile {
            label: "MPV config",
            repo_name: "mpv.conf",
            install_path: join_path(config_dir.as_str(), "mpv.conf"),
            executable: false,
        },
    );
    files.push(
        ConfigFile {
            label: "Auto-socket Lua script",
            repo_name: "auto-socket.lua",
            install_path: join_path(config_dir.as_str(), "scripts/auto-socket.lua"),
            executable: false,
        },
    );
    files
}

/// Whether a managed file needs updating, from the repository copy and the
/// installed copy (`None` when a file could not be read): a file without a
/// repository copy is skipped, a missing or different installed copy needs
/// updating.
pub open spec fn needs_update(repo: Option<Seq<u8>>, installed: Option<Seq<u8>>) -> bool {
    match repo {
        None => false,
        Some(r) => match installed {
            None => true,
            Some(i) => r != i,
        },
    }
}

/// Indices of the first `n` files that need updating, in order.
pub open spec fn diff_indices(contents: Seq<(Option<Vec<u8>>, Option<Vec<u8>>)>, n: int) -> Seq<usize>
    decreases n,
{
    if n <= 0 {
        Seq::empty()
    } else if needs_update(
        match contents[n - 1].0 {
            Some(v) => Some(v@),
            None => None,
        },
        match contents[n - 1].1 {
            Some(v) => Some(v@),
            None => None,
        },
    ) {
        diff_indices(contents, n - 1).push((n - 1) as usize)
    } else {
        diff_indices(contents, n - 1)
    }
}

fn bytes_equal(a: &Vec<u8>, b: &Vec<u8>) -> (r: bool)
    ensures
        r == (a@ == b@),
{
    if a.len() != b.len() {
        return false;
    }
    let mut i: usize = 0;
    while i < a.len()
        invariant
            a@.len() == b@.len(),
            i <= a@.len(),
            forall|j: int| 0 <= j < i ==> a@[j] == b@[j],
        decreases a@.len() - i,
    {
        if a[i] != b[i] {
            return false;
        }
        i = i + 1;
    }
    assert(a@ =~= b@);
    true
}

/// Compare the repository copies of the managed files against the
/// installed ones (both as read, `None` when unreadable) and list the files
/// that need updating.
pub fn check_config_files(contents: &[(Option<Vec<u8>>, Option<Vec<u8>>)]) -> (diffs: Vec<ConfigDiff>)
    ensures
        diffs@.map_values(|d: ConfigDiff| d.file_index) == diff_indices(
            contents@,
            contents@.len() as int,
        ),
{
    let mut diffs: Vec<ConfigDiff> = Vec::new();
    let mut i: usize = 0;
    while i < contents.len()
        invariant
            i <= contents@.len(),
            diffs@.map_values(|d: ConfigDiff| d.file_index) == diff_indices(contents@, i as int),
        decreases contents@.len() - i,
    {
        let ghost before = diffs@;
        let differs = match &contents[i].0 {
            None => false,
            Some(repo) => match &contents[i].1 {
                None => true,
                Some(installed) => !bytes_equal(repo, installed),
            },
        };
        if differs {
            diffs.push(ConfigDiff { file_index: i });
            proof {
                assert(diffs@.map_values(|d: ConfigDiff| d.file_index) =~= before.map_values(
                    |d: ConfigDiff| d.file_index,
                ).push(i));
            }
        }
        i = i + 1;
    }
    diffs
}

/// Whether a `PATH`-style list (entries separated by `:`) holds a directory.
pub fn path_contains_dir(path_var: &str, dir: &str) -> (b: bool)
    ensures
        b == colon_fields(path_var@).contains(dir@),
{
    let fields = split_colon(path_var);
    let target = dir.to_owned();
    let ghost views = fields@.map_values(|f: String| f@);
    let mut i: usize = 0;
    while i < fields.len()
        invariant
            i <= fields@.len(),
            views == fields@.map_values(|f: String| f@),
            views == colon_fields(path_var@),
            target@ == dir@,
            forall|j: int| 0 <= j < i ==> views[j] != dir@,
        decreases fields@.len() - i,
    {
        if fields[i] == target {
            proof {
                assert(views[i as int] == dir@);
            }
            return true;
        }
        i = i + 1;
    }
    false
}

/// The user's own program directory under a home directory.
pub open spec fn local_bin_of(home: Seq<char>) -> Seq<char> {
    home + "/.local/bin"@
}

/// The user's own program directory, `~/.local/bin`, for a home directory.
pub fn local_bin_dir(home: &str) -> (r: String)
    ensures
        r@ == local_bin_of(home@),
{
    let mut r = home.to_owned();
    push_str(&mut r, "/.local/bin");
    r
}

/// The lines appended to a shell rc file to put a directory on `PATH`,
/// under a marker comment.
pub open spec fn path_export_entry(dir: Seq<char>) -> Seq<char> {
    "\n# termixer: added by config setup\nexport PATH=\""@ + dir + ":$PATH\"\n"@
}

/// A shell rc file's new text once it puts `dir` on `PATH`: `None` when
/// the file already mentions the directory (it is left alone), else the
/// text with its trailing whitespace removed, a line break and the export
/// lines.
pub open spec fn rc_with_dir(contents: Seq<char>, dir: Seq<char>) -> Option<Seq<char>> {
    if occurs_in(contents, dir) {
        None
    } else {
        Some(trimmed_end(contents) + "\n"@ + path_export_entry(dir))
    }
}

/// The new text of a shell rc file that puts `dir` on `PATH`, or `None`
/// when the file already mentions the directory.
pub fn rc_with_local_bin(contents: &str, dir: &str) -> (r: Option<String>)
    ensures
        match r {
            Some(t) => rc_with_dir(contents@, dir@) == Some(t@),
            None => rc_with_dir(contents@, dir@) is None,
        },
{
    if str_contains(contents, dir) {
        return None;
    }
    let mut t = trim_end_text(contents);
    push_str(&mut t, "\n");
    push_str(&mut t, "\n# termixer: added by config setup\nexport PATH=\"");
    push_str(&mut t, dir);
    push_str(&mut t, ":$PATH\"\n");
    proof {
        assert(t@ =~= trimmed_end(contents@) + "\n"@ + path_export_entry(dir@));
    }
    Some(t)
}

} // verus!
