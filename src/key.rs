use vstd::prelude::*;

verus! {

/// What identifies a file object on the host at the moment it is read.
///
/// On POSIX-style systems this is the device number together with the inode
/// number. Where identity is read through an open handle, it is the volume
/// serial number with the two words of the file index; the two words of the
/// file size ride along to make a collision of indices less likely, since
/// indices are not unique on every file system reachable that way. Two keys
/// read from paths that name one object compare equal; the converse is
/// expected but not guaranteed for handle-based keys.
#[derive(Clone, Copy, Debug, PartialEq, Eq, Structural)]
pub enum FileKey {
    Inode { dev: u64, ino: u64 },
    FileIndex {
        volume_serial: u32,
        index_high: u32,
        index_low: u32,
        size_high: u32,
        size_low: u32,
    },
}

} // verus!
