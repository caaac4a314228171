//! Directory entries and their normalised metadata.

use vstd::prelude::*;

verus! {

/// What kind of filesystem object an entry is.
pub enum ItemType {
    /// A regular file of the given size in bytes.
    File(u64),
    /// A directory.
    Dir,
    /// A symbolic link; the target text is kept, never followed.
    Link(String),
}

/// One row of a directory listing.
pub struct Item {
    pub ty: ItemType,
    pub name: String,
    pub readonly: bool,
    /// Seconds since the Unix epoch, shifted to local wall-clock time.
    pub created: u64,
    pub last_accessed: u64,
    pub last_written: u64,
}

/// Normalised metadata of one path.
#[derive(Clone, Copy)]
pub struct MetaInfo {
    pub created: u64,
    pub last_accessed: u64,
    pub last_written: u64,
    pub size: u64,
    pub readonly: bool,
}

} // verus!
