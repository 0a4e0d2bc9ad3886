//! The normalized history model shared by all backends.

use vstd::prelude::*;

use crate::text::ascii_of;
use crate::text::lit;

verus! {

/// The version-control system that produced a history entry, or
/// `Absent` when no recognized system tracks the file.
#[derive(Clone, Copy, Debug, PartialEq, Eq, Structural)]
pub enum Provider {
    Git,
    P4,
    Svn,
    Absent,
}

impl Provider {
    /// The provider's wire label.
    pub open spec fn spec_label(self) -> Seq<u8> {
        match self {
            Provider::Git => ascii_of("git"),
            Provider::P4 => ascii_of("p4"),
            Provider::Svn => ascii_of("svn"),
            Provider::Absent => ascii_of("none"),
        }
    }

    /// Renders the provider's wire label.
    pub fn label(&self) -> (r: Vec<u8>)
        ensures
            r@ == self.spec_label(),
    {
        match self {
            Provider::Git => {
                proof {
                    reveal_strlit("git");
                }
                lit("git")
            },
            Provider::P4 => {
                proof {
                    reveal_strlit("p4");
                }
                lit("p4")
            },
            Provider::Svn => {
                proof {
                    reveal_strlit("svn");
                }
                lit("svn")
            },
            Provider::Absent => {
                proof {
                    reveal_strlit("none");
                }
                lit("none")
            },
        }
    }
}

/// The command-line tool a runner request is addressed to.
#[derive(Clone, Copy, Debug, PartialEq, Eq, Structural)]
pub enum ToolKind {
    Git,
    P4,
    Svn,
}

/// One revision of the queried file in the distributed VCS's history.
#[derive(Debug)]
pub struct GitHistoryEntry {
    pub hash: Vec<u8>,
    pub timestamp: i64,
    pub author: Vec<u8>,
    pub summary: Vec<u8>,
    pub path: Vec<u8>,
    pub deleted: bool,
}

/// Spec-level image of `GitHistoryEntry`.
pub struct GitHistoryEntryV {
    pub hash: Seq<u8>,
    pub timestamp: i64,
    pub author: Seq<u8>,
    pub summary: Seq<u8>,
    pub path: Seq<u8>,
    pub deleted: bool,
}

impl View for GitHistoryEntry {
    type V = GitHistoryEntryV;

    open spec fn view(&self) -> GitHistoryEntryV {
        GitHistoryEntryV {
            hash: self.hash@,
            timestamp: self.timestamp,
            author: self.author@,
            summary: self.summary@,
            path: self.path@,
            deleted: self.deleted,
        }
    }
}

/// The distributed VCS's history for one file.
#[derive(Debug)]
pub struct GitHistoryResult {
    pub repo_root: Vec<u8>,
    pub relative_path: Vec<u8>,
    pub entries: Vec<GitHistoryEntry>,
}

/// Spec-level image of `GitHistoryResult`.
pub struct GitHistoryResultV {
    pub repo_root: Seq<u8>,
    pub relative_path: Seq<u8>,
    pub entries: Seq<GitHistoryEntryV>,
}

impl View for GitHistoryResult {
    type V = GitHistoryResultV;

    open spec fn view(&self) -> GitHistoryResultV {
        GitHistoryResultV {
            repo_root: self.repo_root@,
            relative_path: self.relative_path@,
            entries: self.entries@.map_values(|e: GitHistoryEntry| e@),
        }
    }
}

/// One revision of the queried file, normalized across providers.
#[derive(Debug)]
pub struct VcsHistoryEntry {
    pub provider: Provider,
    pub hash: Vec<u8>,
    pub timestamp: i64,
    pub author: Vec<u8>,
    pub summary: Vec<u8>,
    pub path: Vec<u8>,
    pub deleted: bool,
}

/// Spec-level image of `VcsHistoryEntry`.
pub struct VcsHistoryEntryV {
    pub provider: Provider,
    pub hash: Seq<u8>,
    pub timestamp: i64,
    pub author: Seq<u8>,
    pub summary: Seq<u8>,
    pub path: Seq<u8>,
    pub deleted: bool,
}

impl View for VcsHistoryEntry {
    type V = VcsHistoryEntryV;

    open spec fn view(&self) -> VcsHistoryEntryV {
        VcsHistoryEntryV {
            provider: self.provider,
            hash: self.hash@,
            timestamp: self.timestamp,
            author: self.author@,
            summary: self.summary@,
            path: self.path@,
            deleted: self.deleted,
        }
    }
}

/// Spec-level image of a sequence of normalized entries.
pub open spec fn ventries_view(es: Seq<VcsHistoryEntry>) -> Seq<VcsHistoryEntryV> {
    es.map_values(|e: VcsHistoryEntry| e@)
}

/// The normalized history for one file, from whichever provider had it.
#[derive(Debug)]
pub struct VcsHistoryResult {
    pub provider: Provider,
    pub repo_root: Option<Vec<u8>>,
    pub relative_path: Vec<u8>,
    pub entries: Vec<VcsHistoryEntry>,
}

/// Spec-level image of `VcsHistoryResult`.
pub struct VcsHistoryResultV {
    pub provider: Provider,
    pub repo_root: Option<Seq<u8>>,
    pub relative_path: Seq<u8>,
    pub entries: Seq<VcsHistoryEntryV>,
}

impl View for VcsHistoryResult {
    type V = VcsHistoryResultV;

    open spec fn view(&self) -> VcsHistoryResultV {
        VcsHistoryResultV {
            provider: self.provider,
            repo_root: match self.repo_root {
                Option::Some(r) => Option::Some(r@),
                Option::None => Option::None,
            },
            relative_path: self.relative_path@,
            entries: self.entries@.map_values(|e: VcsHistoryEntry| e@),
        }
    }
}

} // verus!
