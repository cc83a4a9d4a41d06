//! The workspace directory layout and the list of recently opened workspaces.

use crate::text::{join_path, joined};
use vstd::prelude::*;

verus! {

/// The hidden directory of a workspace that holds its manifest.
pub const CONFIG_DIR: &'static str = ".revelio";

/// The manifest's file name.
pub const CONFIG_FILE: &'static str = "config.json";

/// The format version written into a new manifest.
pub const VAULT_VERSION: &'static str = "1.0.0";

/// How many workspaces the history keeps.
pub const HISTORY_LIMIT: usize = 10;

/// A workspace rooted at a directory.
pub struct Vault {
    pub path: String,
}

/// The manifest of a workspace.
pub struct VaultConfig {
    pub version: String,
    pub created_at: String,
}

/// One remembered workspace.
pub struct VaultHistoryEntry {
    pub name: String,
    pub path: String,
}

/// The path of the manifest of the workspace rooted at `root`.
pub open spec fn manifest_of(root: Seq<char>) -> Seq<char> {
    joined(joined(root, CONFIG_DIR@), CONFIG_FILE@)
}

/// The view of a history: each entry as its name and path.
pub open spec fn history_view(s: Seq<VaultHistoryEntry>) -> Seq<(Seq<char>, Seq<char>)> {
    s.map_values(|e: VaultHistoryEntry| (e.name@, e.path@))
}

/// The history without the entries for `path`, in order.
pub open spec fn history_omitting(h: Seq<(Seq<char>, Seq<char>)>, path: Seq<char>) -> Seq<(Seq<char>, Seq<char>)> {
    h.filter(|e: (Seq<char>, Seq<char>)| e.1 != path)
}

/// The history after opening the workspace `name` at `path`: it comes first, no other
/// entry has its path, and at most `HISTORY_LIMIT` entries are kept.
pub open spec fn history_recording(
    h: Seq<(Seq<char>, Seq<char>)>,
    name: Seq<char>,
    path: Seq<char>,
) -> Seq<(Seq<char>, Seq<char>)> {
    let s = seq![(name, path)] + history_omitting(h, path);
    if s.len() <= HISTORY_LIMIT {
        s
    } else {
        s.take(HISTORY_LIMIT as int)
    }
}

impl Vault {
    /// Opens the workspace at `path`, which is valid only where its manifest exists.
    pub fn open(path: &str, manifest_exists: bool) -> (r: Result<Vault, String>)
        ensures
            match r {
                Ok(v) => manifest_exists && v.path@ == path@,
                Err(e) => !manifest_exists && e@ == "Not a valid Revelio vault"@,
            },
    {
        if !manifest_exists {
            return Err("Not a valid Revelio vault".to_owned());
        }
        Ok(Vault { path: path.to_owned() })
    }

    /// The path whose existence makes `path` a valid workspace.
    pub fn manifest_path(path: &str) -> (r: String)
        ensures
            r@ == manifest_of(path@),
    {
        let dir = join_path(path, CONFIG_DIR);
        join_path(dir.as_str(), CONFIG_FILE)
    }

    /// The hidden configuration directory.
    pub fn config_dir(&self) -> (r: String)
        ensures
            r@ == joined(self.path@, CONFIG_DIR@),
    {
        join_path(self.path.as_str(), CONFIG_DIR)
    }

    /// The research directory.
    pub fn research_dir(&self) -> (r: String)
        ensures
            r@ == joined(self.path@, "research"@),
    {
        join_path(self.path.as_str(), "research")
    }

    /// The attachments directory.
    pub fn attachments_dir(&self) -> (r: String)
        ensures
            r@ == joined(self.path@, "attachments"@),
    {
        join_path(self.path.as_str(), "attachments")
    }

    /// The styles directory.
    pub fn styles_dir(&self) -> (r: String)
        ensures
            r@ == joined(self.path@, "styles"@),
    {
        join_path(self.path.as_str(), "styles")
    }

    /// The directories that a new workspace is given, in the order they are created.
    pub fn layout_dirs(&self) -> (r: Vec<String>)
        ensures
            r@.len() == 4,
            r@[0]@ == joined(self.path@, CONFIG_DIR@),
            r@[1]@ == joined(self.path@, "research"@),
            r@[2]@ == joined(self.path@, "attachments"@),
            r@[3]@ == joined(self.path@, "styles"@),
    {
        let mut r: Vec<String> = Vec::new();
        r.push(self.config_dir());
        r.push(self.research_dir());
        r.push(self.attachments_dir());
        r.push(self.styles_dir());
        r
    }
}

impl VaultConfig {
    /// The manifest of a workspace created at the time `created_at`.
    pub fn new(created_at: &str) -> (r: VaultConfig)
        ensures
            r.version@ == VAULT_VERSION@,
            r.created_at@ == created_at@,
    {
        VaultConfig { version: VAULT_VERSION.to_owned(), created_at: created_at.to_owned() }
    }
}

impl VaultHistoryEntry {
    /// A copy of the entry.
    pub fn duplicate(&self) -> (r: VaultHistoryEntry)
        ensures
            r.name@ == self.name@,
            r.path@ == self.path@,
    {
        VaultHistoryEntry { name: self.name.clone(), path: self.path.clone() }
    }
}

/// The history without the entries for `path`, in order.
pub fn history_without(history: &Vec<VaultHistoryEntry>, path: &str) -> (r: Vec<VaultHistoryEntry>)
    ensures
        history_view(r@) == history_omitting(history_view(history@), path@),
{
    let target = path.to_owned();
    let ghost h = history_view(history@);
    let ghost pred = |e: (Seq<char>, Seq<char>)| e.1 != path@;
    let mut r: Vec<VaultHistoryEntry> = Vec::new();
    let mut i: usize = 0;
    while i < history.len()
        invariant
            i <= history@.len(),
            target@ == path@,
            h == history_view(history@),
            pred == (|e: (Seq<char>, Seq<char>)| e.1 != path@),
            history_view(r@) == h.take(i as int).filter(pred),
        decreases history@.len() - i,
    {
        let ghost before = r@;
        if history[i].path != target {
            r.push(history[i].duplicate());
        }
        proof {
            let t = h.take(i + 1 as int);
            assert(t.drop_last() =~= h.take(i as int));
            assert(t.last() == h[i as int]);
            reveal(Seq::filter);
            assert(history_view(r@) =~= t.filter(pred));
        }
        i = i + 1;
    }
    assert(h.take(history@.len() as int) =~= h);
    r
}

/// The history after opening the workspace `name` at `path`: it is put first, any
/// other entry for the same path is dropped, and only the first `HISTORY_LIMIT` are kept.
pub fn history_with(history: &Vec<VaultHistoryEntry>, name: &str, path: &str) -> (r: Vec<VaultHistoryEntry>)
    ensures
        history_view(r@) == history_recording(history_view(history@), name@, path@),
{
    let mut r = history_without(history, path);
    r.insert(0, VaultHistoryEntry { name: name.to_owned(), path: path.to_owned() });
    assert(history_view(r@) =~= seq![(name@, path@)] + history_omitting(history_view(history@), path@));
    r.truncate(HISTORY_LIMIT);
    assert(history_view(r@) =~= history_recording(history_view(history@), name@, path@));
    r
}

}
