use vstd::prelude::*;

use crate::file_type::FileType;

verus! {

/// The normalized metadata of one archive entry.
pub struct Header {
    pub file_type: FileType,
    pub path_name: Vec<u8>,
    pub link_name: Option<Vec<u8>>,
    pub size: u64,
    pub entry_size: u64,
    pub mode: u64,
    pub uid: u64,
    pub gid: u64,
    pub uname: Option<Vec<u8>>,
    pub gname: Option<Vec<u8>>,
    /// Modification time, in whole seconds since the Unix epoch.
    pub modified: u64,
    pub dev_major: Option<u64>,
    pub dev_minor: Option<u64>,
}

} // verus!
