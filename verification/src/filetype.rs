//! The file-type code carried in a file-status record, and its name mapping.

use vstd::prelude::*;

verus! {

/// A raw file-type code as reported by the host in a file-status record.
///
/// The host defines exactly eight codes; any other value in a decoded record
/// is treated as a decode error by the record decoder, so a constructed
/// `FileType` always holds a recognized code.
pub struct FileType(pub u8);

/// The name belonging to each recognized file-type code.
pub open spec fn file_type_name(code: u8) -> Seq<char> {
    if code == 0 {
        "unknown"@
    } else if code == 1 {
        "block device"@
    } else if code == 2 {
        "character device"@
    } else if code == 3 {
        "directory"@
    } else if code == 4 {
        "regular file"@
    } else if code == 5 {
        "socket dgram"@
    } else if code == 6 {
        "socket stream"@
    } else {
        "symbolic link"@
    }
}

impl FileType {
    /// Whether the code is one of the eight the host defines.
    pub open spec fn is_recognized(self) -> bool {
        self.0 <= 7
    }

    /// The human-readable name of the file type.
    pub fn name(&self) -> (r: &'static str)
        requires
            self.is_recognized(),
        ensures
            r@ == file_type_name(self.0),
    {
        match self.0 {
            0 => "unknown",
            1 => "block device",
            2 => "character device",
            3 => "directory",
            4 => "regular file",
            5 => "socket dgram",
            6 => "socket stream",
            _ => "symbolic link",
        }
    }
}

} // verus!
