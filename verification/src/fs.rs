//! Overlay filesystem roots and the paths addressed under them.
//!
//! A project works over three independently named roots: the disk-backed
//! project root, the purely virtual client root, and the disk-backed node
//! root. The roots are disjoint addressing spaces: a path is always
//! interpreted under exactly one root.

use vstd::prelude::*;
use vstd::string::*;

verus! {

/// The three overlay roots a project addresses.
#[derive(Clone, Copy, Debug, PartialEq, Eq, Structural)]
pub enum FsName {
    /// The disk-backed root holding the project sources.
    Project,
    /// The virtual root under which client assets are addressed.
    Client,
    /// The disk-backed root holding server-targeted build output.
    Node,
}

/// Whether a root owns a real directory tree or is purely an addressing
/// namespace.
#[derive(Clone, Copy, Debug, PartialEq, Eq, Structural)]
pub enum FsKind {
    Disk,
    Virtual,
}

/// One overlay root: its name, its kind, the directory backing it (disk
/// roots only), and whether filesystem watching was started on it.
pub struct OverlayFs {
    pub name: FsName,
    pub kind: FsKind,
    /// The backing directory of a disk root; `None` for a virtual root,
    /// which owns no storage.
    pub backing_path: Option<String>,
    /// Whether change watching was requested; never for a virtual root.
    pub watching: bool,
}

impl OverlayFs {
    /// A disk root is exactly one with a backing directory, and only a
    /// backed root can watch for changes.
    pub open spec fn wf(&self) -> bool {
        &&& (self.kind == FsKind::Disk <==> self.backing_path is Some)
        &&& (self.kind == FsKind::Virtual ==> !self.watching)
    }

    /// The root path of this overlay.
    pub fn root(&self) -> (r: FsPath)
        ensures
            r.fs == self.name,
            r.path@ == Seq::<char>::empty(),
    {
        FsPath { fs: self.name, path: String::new() }
    }
}

/// A path under one overlay root: the root's name and the location inside
/// it, segments joined with `'/'` and empty for the root itself.
pub struct FsPath {
    pub fs: FsName,
    pub path: String,
}

/// Joining a segment under a within-root location: the segment itself at
/// the root, otherwise the location, a separator, and the segment.
pub open spec fn join_seq(base: Seq<char>, segment: Seq<char>) -> Seq<char> {
    if base.len() == 0 {
        segment
    } else {
        base + seq!['/'] + segment
    }
}

impl FsPath {
    /// Address `segment` under this path, in the same root.
    pub fn join(&self, segment: &str) -> (r: FsPath)
        ensures
            r.fs == self.fs,
            r.path@ == join_seq(self.path@, segment@),
    {
        if self.path.as_str().unicode_len() == 0 {
            FsPath { fs: self.fs, path: String::from_str(segment) }
        } else {
            proof {
                reveal_strlit("/");
                assert("/"@ =~= seq!['/']);
            }
            let joined = self.path.clone().concat("/").concat(segment);
            FsPath { fs: self.fs, path: joined }
        }
    }

    /// A second handle to the same location.
    pub fn duplicate(&self) -> (r: FsPath)
        ensures
            r == *self,
    {
        FsPath { fs: self.fs, path: self.path.clone() }
    }
}

} // verus!
