use vstd::prelude::*;

verus! {

/// The kind of an archive entry; `Raw` keeps any type code outside the named set.
#[derive(Debug, Clone, Copy, PartialEq, Eq, Structural)]
pub enum FileType {
    Unspecified,
    Regular,
    Link,
    Symlink,
    Char,
    Block,
    Directory,
    Fifo,
    Raw(u8),
}

/// The entry kind that a type code of a header block stands for.
pub open spec fn file_type_spec(code: u8) -> FileType {
    if code == 0x30 {
        FileType::Regular
    } else if code == 0x31 {
        FileType::Link
    } else if code == 0x32 {
        FileType::Symlink
    } else if code == 0x33 {
        FileType::Char
    } else if code == 0x34 {
        FileType::Block
    } else if code == 0x35 {
        FileType::Directory
    } else if code == 0x36 {
        FileType::Fifo
    } else {
        FileType::Raw(code)
    }
}

/// Maps a type code to its entry kind; unknown codes become `Raw`.
pub fn file_type_of(code: u8) -> (r: FileType)
    ensures
        r == file_type_spec(code),
{
    match code {
        0x30 => FileType::Regular,
        0x31 => FileType::Link,
        0x32 => FileType::Symlink,
        0x33 => FileType::Char,
        0x34 => FileType::Block,
        0x35 => FileType::Directory,
        0x36 => FileType::Fifo,
        _ => FileType::Raw(code),
    }
}

} // verus!
