//! Noticing that the daemon binary was replaced in place (by a package
//! upgrade), so the daemon can restart onto the new version.

use vstd::prelude::*;

verus! {

/// Identity of the binary file on disk, used to detect in-place replacement.
/// A package upgrade unlinks the old file and links a new one, changing the
/// inode (and typically size/mtime), so any field differing means "replaced".
#[derive(Clone, Copy, PartialEq, Eq, Debug, Structural)]
pub struct BinarySignature {
    dev: u64,
    ino: u64,
    size: u64,
    mtime: i64,
}

impl BinarySignature {
    /// The device and inode numbers, size and modification time of a file.
    pub closed spec fn fields(self) -> (u64, u64, u64, i64) {
        (self.dev, self.ino, self.size, self.mtime)
    }

    /// The signature of a file with this metadata.
    pub fn new(dev: u64, ino: u64, size: u64, mtime: i64) -> (s: BinarySignature)
        ensures
            s.fields() == (dev, ino, size, mtime),
    {
        BinarySignature { dev, ino, size, mtime }
    }

    /// Whether the file now at the path (`current`) is another file than the
    /// one first seen (`self`): any field differs.
    pub fn replaced_by(&self, current: &BinarySignature) -> (b: bool)
        ensures
            b == (self.fields() != current.fields()),
    {
        self.dev != current.dev || self.ino != current.ino || self.size != current.size || self.mtime != current.mtime
    }
}

} // verus!
