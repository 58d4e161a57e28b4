//! The node-level vocabulary: errors, entry types, directory listings, and
//! the outcomes of the node operations that need no engine call.
use vstd::prelude::*;

verus! {

/// The engine's code for a path that does not exist.
pub const ENOENT: i32 = 2;

/// The engine's code for a directory link that could not be made.
pub const ELINKFIAL: i32 = 97;

/// The engine's code for an inode that could not be allocated.
pub const EALLOCFIAL: i32 = 98;

/// Entry type byte of a regular file.
pub const EXT4_DE_REG_FILE: u8 = 1;

/// Entry type byte of a directory.
pub const EXT4_DE_DIR: u8 = 2;

/// Entry type byte of a character device.
pub const EXT4_DE_CHRDEV: u8 = 3;

/// Entry type byte of a block device.
pub const EXT4_DE_BLKDEV: u8 = 4;

/// Entry type byte of a socket.
pub const EXT4_DE_SOCK: u8 = 6;

/// Entry type byte of a symbolic link.
pub const EXT4_DE_SYMLINK: u8 = 7;

/// Errors that node operations report.
#[derive(Clone, Copy, Debug, PartialEq, Eq, Structural)]
pub enum VfsError {
    /// The path does not exist.
    FileNotFound,
    /// Any other engine failure.
    UnexpectedEof,
    /// The operation is not offered by this filesystem.
    NotSupported,
    /// The operation has no engine-backed behaviour yet.
    NotImplemented,
}

/// Kinds of directory entries.
#[derive(Clone, Copy, Debug, PartialEq, Eq, Structural)]
pub enum FileType {
    File,
    Directory,
    Link,
}

/// One entry of a directory listing.
#[derive(Clone, Debug)]
pub struct DirEntry {
    pub name: String,
    pub inode: u64,
    pub file_type: FileType,
}

/// One directory entry as the engine yields it.
#[derive(Clone, Debug)]
pub struct RawDirEntry {
    pub name: String,
    pub inode: u32,
    /// The on-disk entry type byte.
    pub de_type: u8,
}

/// The kind that an on-disk entry type byte stands for.
pub open spec fn file_type_of(value: u8) -> Option<FileType> {
    if value == EXT4_DE_REG_FILE || value == EXT4_DE_CHRDEV || value == EXT4_DE_BLKDEV || value
        == EXT4_DE_SOCK {
        Some(FileType::File)
    } else if value == EXT4_DE_DIR {
        Some(FileType::Directory)
    } else if value == EXT4_DE_SYMLINK {
        Some(FileType::Link)
    } else {
        None
    }
}

/// The error that an open reports for an engine error code.
pub open spec fn open_error_of(code: i32) -> VfsError {
    if code == ENOENT {
        VfsError::FileNotFound
    } else {
        VfsError::UnexpectedEof
    }
}

/// Maps an on-disk entry type byte to its kind: regular files, devices and
/// sockets are files; `None` for the types without a kind here.
pub fn map_ext4_type(value: u8) -> (r: Option<FileType>)
    ensures
        r == file_type_of(value),
{
    match value {
        EXT4_DE_REG_FILE => Some(FileType::File),
        EXT4_DE_DIR => Some(FileType::Directory),
        EXT4_DE_CHRDEV => Some(FileType::File),
        EXT4_DE_BLKDEV => Some(FileType::File),
        EXT4_DE_SOCK => Some(FileType::File),
        EXT4_DE_SYMLINK => Some(FileType::Link),
        _ => None,
    }
}

/// Maps an engine error code from an open to the error reported for it: a
/// missing path is `FileNotFound`, every other code (allocation and link
/// failures among them) the generic `UnexpectedEof`.
pub fn map_open_error(code: i32) -> (r: VfsError)
    ensures
        r == open_error_of(code),
{
    if code == ENOENT {
        VfsError::FileNotFound
    } else {
        VfsError::UnexpectedEof
    }
}

/// The result of an open or create, given the engine's outcome: `Ok` where
/// the engine succeeded, else the mapped error.
pub fn open_outcome(engine: Result<(), i32>) -> (r: Result<(), VfsError>)
    ensures
        engine is Ok <==> r is Ok,
        engine matches Err(code) ==> r == Err::<(), VfsError>(open_error_of(code)),
{
    match engine {
        Ok(()) => Ok(()),
        Err(code) => Err(map_open_error(code)),
    }
}

/// Whether `listing` is `raw` entry by entry, in the same order, with each
/// type byte mapped to its kind.
pub open spec fn listing_matches(raw: Seq<RawDirEntry>, listing: Seq<DirEntry>) -> bool {
    &&& listing.len() == raw.len()
    &&& forall|i: int|
        0 <= i < raw.len() ==> {
            &&& listing[i].name@ == raw[i].name@
            &&& listing[i].inode == raw[i].inode as u64
            &&& file_type_of(raw[i].de_type) == Some(listing[i].file_type)
        }
}

/// Builds a directory listing from the engine's entries, keeping their order.
/// Fails with `UnexpectedEof` exactly when an entry has a type without a kind.
pub fn dir_listing(raw: &Vec<RawDirEntry>) -> (r: Result<Vec<DirEntry>, VfsError>)
    ensures
        r is Ok <==> forall|i: int| 0 <= i < raw@.len() ==> file_type_of(raw@[i].de_type) is Some,
        r is Err ==> r == Err::<Vec<DirEntry>, VfsError>(VfsError::UnexpectedEof),
        r matches Ok(v) ==> listing_matches(raw@, v@),
{
    let mut out: Vec<DirEntry> = Vec::new();
    let mut i: usize = 0;
    while i < raw.len()
        invariant
            i <= raw@.len(),
            listing_matches(raw@.subrange(0, i as int), out@),
            forall|j: int| 0 <= j < i ==> file_type_of(raw@[j].de_type) is Some,
        decreases raw@.len() - i,
    {
        let e = &raw[i];
        match map_ext4_type(e.de_type) {
            Some(t) => {
                out.push(DirEntry { name: e.name.clone(), inode: e.inode as u64, file_type: t });
            },
            None => {
                return Err(VfsError::UnexpectedEof);
            },
        }
        i = i + 1;
        assert(raw@.subrange(0, i as int).drop_last() =~= raw@.subrange(0, i - 1));
    }
    assert(raw@.subrange(0, i as int) =~= raw@);
    Ok(out)
}

} // verus!
