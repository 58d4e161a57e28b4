//! Translation of open flags into the engine's access modes.
use vstd::prelude::*;

verus! {

/// Open for reading only.
pub const O_RDONLY: u32 = 0;

/// Open for writing only.
pub const O_WRONLY: u32 = 0o1;

/// Open for reading and writing.
pub const O_RDWR: u32 = 0o2;

/// Create the file if it is absent.
pub const O_CREAT: u32 = 0o100;

/// Cut the file to length zero.
pub const O_TRUNC: u32 = 0o1000;

/// Write at the end of the file.
pub const O_APPEND: u32 = 0o2000;

/// The access modes that the engine accepts.
#[derive(Clone, Copy, Debug, PartialEq, Eq, Structural)]
pub enum OpenMode {
    /// `r`
    Read,
    /// `w`: write, creating or truncating.
    Write,
    /// `a`: append, creating.
    Append,
    /// `r+`
    ReadWrite,
    /// `w+`: read and write, creating or truncating.
    ReadWriteTruncate,
    /// `a+`: read and append, creating.
    ReadWriteAppend,
}

/// The mode that a flag set selects, if it is one of the recognised ones.
pub open spec fn mode_of(flags: u32) -> Option<OpenMode> {
    if flags == O_RDONLY {
        Some(OpenMode::Read)
    } else if flags == O_WRONLY | O_CREAT | O_TRUNC {
        Some(OpenMode::Write)
    } else if flags == O_WRONLY | O_CREAT | O_APPEND {
        Some(OpenMode::Append)
    } else if flags == O_RDWR {
        Some(OpenMode::ReadWrite)
    } else if flags == O_RDWR | O_CREAT | O_TRUNC {
        Some(OpenMode::ReadWriteTruncate)
    } else if flags == O_RDWR | O_CREAT | O_APPEND {
        Some(OpenMode::ReadWriteAppend)
    } else {
        None
    }
}

/// Whether a flag set asks for the file to be created.
pub open spec fn creates(flags: u32) -> bool {
    flags & O_CREAT != 0
}

/// Whether a mode comes from flags that ask for creation.
pub open spec fn mode_creates(m: OpenMode) -> bool {
    match m {
        OpenMode::Read | OpenMode::ReadWrite => false,
        _ => true,
    }
}

/// The engine's text for a mode.
pub open spec fn descriptor_of(m: OpenMode) -> Seq<char> {
    match m {
        OpenMode::Read => seq!['r'],
        OpenMode::Write => seq!['w'],
        OpenMode::Append => seq!['a'],
        OpenMode::ReadWrite => seq!['r', '+'],
        OpenMode::ReadWriteTruncate => seq!['w', '+'],
        OpenMode::ReadWriteAppend => seq!['a', '+'],
    }
}

impl OpenMode {
    /// The engine's text for this mode.
    pub fn descriptor(&self) -> (r: &'static str)
        ensures
            r@ == descriptor_of(*self),
    {
        proof {
            reveal_strlit("r");
            reveal_strlit("w");
            reveal_strlit("a");
            reveal_strlit("r+");
            reveal_strlit("w+");
            reveal_strlit("a+");
        }
        match self {
            OpenMode::Read => "r",
            OpenMode::Write => "w",
            OpenMode::Append => "a",
            OpenMode::ReadWrite => "r+",
            OpenMode::ReadWriteTruncate => "w+",
            OpenMode::ReadWriteAppend => "a+",
        }
    }
}

/// The mode that `flags` selects; `None` for any other combination.
pub fn open_mode(flags: u32) -> (r: Option<OpenMode>)
    ensures
        r == mode_of(flags),
{
    if flags == O_RDONLY {
        Some(OpenMode::Read)
    } else if flags == O_WRONLY | O_CREAT | O_TRUNC {
        Some(OpenMode::Write)
    } else if flags == O_WRONLY | O_CREAT | O_APPEND {
        Some(OpenMode::Append)
    } else if flags == O_RDWR {
        Some(OpenMode::ReadWrite)
    } else if flags == O_RDWR | O_CREAT | O_TRUNC {
        Some(OpenMode::ReadWriteTruncate)
    } else if flags == O_RDWR | O_CREAT | O_APPEND {
        Some(OpenMode::ReadWriteAppend)
    } else {
        None
    }
}

/// Whether `flags` holds the create bit.
pub fn create_requested(flags: u32) -> (r: bool)
    ensures
        r == creates(flags),
{
    flags & O_CREAT != 0
}

/// The mode and the create flag that `flags` asks for; `None` where the
/// combination is not one of the six recognised ones.
pub fn translate_open_flags(flags: u32) -> (r: Option<(OpenMode, bool)>)
    ensures
        r is Some <==> mode_of(flags) is Some,
        r matches Some((m, c)) ==> mode_of(flags) == Some(m) && c == creates(flags),
{
    match open_mode(flags) {
        Some(m) => Some((m, create_requested(flags))),
        None => None,
    }
}

/// Each of the six recognised flag sets selects one mode, no two of them the
/// same, and its create flag is set exactly for the modes that create; every
/// other flag set is rejected.
pub proof fn lemma_flag_mapping_exact(flags: u32, other: u32)
    ensures
        mode_of(flags) is Some <==> (flags == O_RDONLY || flags == O_WRONLY | O_CREAT | O_TRUNC
            || flags == O_WRONLY | O_CREAT | O_APPEND || flags == O_RDWR || flags == O_RDWR
            | O_CREAT | O_TRUNC || flags == O_RDWR | O_CREAT | O_APPEND),
        mode_of(flags) is Some && mode_of(flags) == mode_of(other) ==> flags == other,
        mode_of(flags) matches Some(m) ==> creates(flags) == mode_creates(m),
{
    assert(0u32 & 0o100u32 == 0u32) by (bit_vector);
    assert(2u32 & 0o100u32 == 0u32) by (bit_vector);
    assert((0o1u32 | 0o100u32 | 0o1000u32) & 0o100u32 != 0u32) by (bit_vector);
    assert((0o1u32 | 0o100u32 | 0o2000u32) & 0o100u32 != 0u32) by (bit_vector);
    assert((0o2u32 | 0o100u32 | 0o1000u32) & 0o100u32 != 0u32) by (bit_vector);
    assert((0o2u32 | 0o100u32 | 0o2000u32) & 0o100u32 != 0u32) by (bit_vector);
    assert(0o1u32 | 0o100u32 | 0o1000u32 != 0o1u32 | 0o100u32 | 0o2000u32) by (bit_vector);
    assert(0o2u32 | 0o100u32 | 0o1000u32 != 0o2u32 | 0o100u32 | 0o2000u32) by (bit_vector);
    assert(0o1u32 | 0o100u32 | 0o1000u32 != 0o2u32 | 0o100u32 | 0o1000u32) by (bit_vector);
    assert(0o1u32 | 0o100u32 | 0o2000u32 != 0o2u32 | 0o100u32 | 0o2000u32) by (bit_vector);
    assert(0o1u32 | 0o100u32 | 0o1000u32 != 0o2u32 | 0o100u32 | 0o2000u32) by (bit_vector);
    assert(0o1u32 | 0o100u32 | 0o2000u32 != 0o2u32 | 0o100u32 | 0o1000u32) by (bit_vector);
    assert(0o1u32 | 0o100u32 | 0o1000u32 != 0u32 && 0o1u32 | 0o100u32 | 0o1000u32 != 2u32)
        by (bit_vector);
    assert(0o1u32 | 0o100u32 | 0o2000u32 != 0u32 && 0o1u32 | 0o100u32 | 0o2000u32 != 2u32)
        by (bit_vector);
    assert(0o2u32 | 0o100u32 | 0o1000u32 != 0u32 && 0o2u32 | 0o100u32 | 0o1000u32 != 2u32)
        by (bit_vector);
    assert(0o2u32 | 0o100u32 | 0o2000u32 != 0u32 && 0o2u32 | 0o100u32 | 0o2000u32 != 2u32)
        by (bit_vector);
}

} // verus!
