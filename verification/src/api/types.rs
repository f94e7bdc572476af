//! Records that hg prints with `-T json`, and the status codes it uses.
use vstd::prelude::*;

verus! {

/// A single entry from `hg status -T json`.
#[derive(Debug, Clone)]
pub struct StatusEntry {
    pub path: String,
    pub status: String,
}

/// Typed representation of a file's status.
#[derive(Debug, Clone, Copy, PartialEq, Eq, Structural)]
pub enum FileStatus {
    Modified,
    Added,
    Removed,
    Clean,
    Missing,
    Unknown,
    Ignored,
}

/// The status that a one-letter hg code names.
pub open spec fn status_of_code(code: Seq<char>) -> Option<FileStatus> {
    if code == seq!['M'] {
        Some(FileStatus::Modified)
    } else if code == seq!['A'] {
        Some(FileStatus::Added)
    } else if code == seq!['R'] {
        Some(FileStatus::Removed)
    } else if code == seq!['C'] {
        Some(FileStatus::Clean)
    } else if code == seq!['!'] {
        Some(FileStatus::Missing)
    } else if code == seq!['?'] {
        Some(FileStatus::Unknown)
    } else if code == seq!['I'] {
        Some(FileStatus::Ignored)
    } else {
        None
    }
}

impl FileStatus {
    /// Parse the single-character status code from hg.
    pub fn from_code(code: &str) -> (res: Option<FileStatus>)
        ensures
            res == status_of_code(code@),
    {
        if code.unicode_len() != 1 {
            return None;
        }
        let c = code.get_char(0);
        assert(code@ =~= seq![c]);
        if c == 'M' {
            Some(FileStatus::Modified)
        } else if c == 'A' {
            Some(FileStatus::Added)
        } else if c == 'R' {
            Some(FileStatus::Removed)
        } else if c == 'C' {
            Some(FileStatus::Clean)
        } else if c == '!' {
            Some(FileStatus::Missing)
        } else if c == '?' {
            Some(FileStatus::Unknown)
        } else if c == 'I' {
            Some(FileStatus::Ignored)
        } else {
            None
        }
    }
}

impl StatusEntry {
    /// Parse the status code into a typed enum.
    pub fn file_status(&self) -> (res: Option<FileStatus>)
        ensures
            res == status_of_code(self.status@),
    {
        FileStatus::from_code(self.status.as_str())
    }
}

/// A branch entry from `hg branches -T json`.
#[derive(Debug, Clone)]
pub struct BranchEntry {
    pub branch: String,
    pub rev: i64,
    pub node: String,
    pub active: bool,
    pub closed: bool,
    pub current: bool,
}

/// A tag entry from `hg tags -T json`.
#[derive(Debug, Clone)]
pub struct TagEntry {
    pub tag: String,
    pub rev: i64,
    pub node: String,
    pub tag_type: String,
}

/// A bookmark entry from `hg bookmarks -T json`.
#[derive(Debug, Clone)]
pub struct BookmarkEntry {
    pub bookmark: String,
    pub rev: i64,
    pub node: String,
    pub active: bool,
}

/// A config entry from `hg config -T json`.
#[derive(Debug, Clone)]
pub struct ConfigEntry {
    pub name: String,
    pub source: String,
    pub value: String,
}

} // verus!
