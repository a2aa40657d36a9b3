//! Files as WASI sees them: their kinds, flags and capabilities, and the
//! entries of the file table.
use vstd::prelude::*;

verus! {

/// Errors of the file operations of the library.
#[derive(Debug, Clone, Copy, PartialEq, Eq, Structural)]
pub enum FileError {
    /// a position or length does not fit in memory
    PositionOverflow,
    /// the bytes read as a string are not valid UTF-8
    InvalidUtf8,
    /// the host's file failed
    Io,
}

/// File descriptor flags.
#[derive(Debug, Copy, Clone, PartialEq, Eq, Structural)]
pub enum FdFlags {
    Append,
    Dsync,
    Nonblock,
    Rsync,
    Sync,
}

/// The bit of a file descriptor flag.
pub open spec fn fdflags_bits(f: FdFlags) -> u16 {
    match f {
        FdFlags::Append => 0b1,
        FdFlags::Dsync => 0b10,
        FdFlags::Nonblock => 0b1000,
        FdFlags::Rsync => 0b10000,
        FdFlags::Sync => 0b100000,
    }
}

impl FdFlags {
    /// The bit of the flag.
    pub fn bits(&self) -> (b: u16)
        ensures
            b == fdflags_bits(*self),
    {
        match self {
            FdFlags::Append => 0b1,
            FdFlags::Dsync => 0b10,
            FdFlags::Nonblock => 0b1000,
            FdFlags::Rsync => 0b10000,
            FdFlags::Sync => 0b100000,
        }
    }
}

/// Capabilities of a file descriptor.
#[derive(Debug, Copy, Clone, PartialEq, Eq, Structural)]
pub enum FileCaps {
    DataSync,
    Read,
    Seek,
    FdstatSetFlags,
    Sync,
    Tell,
    Write,
    Advise,
    Allocate,
    FilestatGet,
    FilestatSetSize,
    FilestatSetTimes,
    PollReadwrite,
}

/// The bit of a capability.
pub open spec fn filecaps_bits(c: FileCaps) -> u32 {
    match c {
        FileCaps::DataSync => 0b1,
        FileCaps::Read => 0b10,
        FileCaps::Seek => 0b100,
        FileCaps::FdstatSetFlags => 0b1000,
        FileCaps::Sync => 0b10000,
        FileCaps::Tell => 0b100000,
        FileCaps::Write => 0b1000000,
        FileCaps::Advise => 0b10000000,
        FileCaps::Allocate => 0b100000000,
        FileCaps::FilestatGet => 0b1000000000,
        FileCaps::FilestatSetSize => 0b10000000000,
        FileCaps::FilestatSetTimes => 0b100000000000,
        FileCaps::PollReadwrite => 0b1000000000000,
    }
}

impl FileCaps {
    /// The bit of the capability.
    pub fn bits(&self) -> (b: u32)
        ensures
            b == filecaps_bits(*self),
    {
        match self {
            FileCaps::DataSync => 0b1,
            FileCaps::Read => 0b10,
            FileCaps::Seek => 0b100,
            FileCaps::FdstatSetFlags => 0b1000,
            FileCaps::Sync => 0b10000,
            FileCaps::Tell => 0b100000,
            FileCaps::Write => 0b1000000,
            FileCaps::Advise => 0b10000000,
            FileCaps::Allocate => 0b100000000,
            FileCaps::FilestatGet => 0b1000000000,
            FileCaps::FilestatSetSize => 0b10000000000,
            FileCaps::FilestatSetTimes => 0b100000000000,
            FileCaps::PollReadwrite => 0b1000000000000,
        }
    }
}

/// The kinds of files.
#[derive(Debug, Copy, Clone, PartialEq, Eq, Structural)]
pub enum FileType {
    Unknown,
    BlockDevice,
    CharacterDevice,
    Directory,
    RegularFile,
    SocketDgram,
    SocketStream,
    SymbolicLink,
    Pipe,
}

/// The number of a file kind.
pub open spec fn filetype_number(t: FileType) -> u8 {
    match t {
        FileType::Unknown => 0,
        FileType::BlockDevice => 1,
        FileType::CharacterDevice => 2,
        FileType::Directory => 3,
        FileType::RegularFile => 4,
        FileType::SocketDgram => 5,
        FileType::SocketStream => 6,
        FileType::SymbolicLink => 7,
        FileType::Pipe => 8,
    }
}

impl FileType {
    /// The number of the file kind.
    pub fn to_u8(&self) -> (n: u8)
        ensures
            n == filetype_number(*self),
    {
        match self {
            FileType::Unknown => 0,
            FileType::BlockDevice => 1,
            FileType::CharacterDevice => 2,
            FileType::Directory => 3,
            FileType::RegularFile => 4,
            FileType::SocketDgram => 5,
            FileType::SocketStream => 6,
            FileType::SymbolicLink => 7,
            FileType::Pipe => 8,
        }
    }
}

/// A file that WASI can use; the host implements it for its files.
pub trait File {
    /// Writes the bytes and gives how many were written.
    fn write(&mut self, data: &[u8]) -> Result<usize, FileError>;

    /// Reads up to `len` bytes.
    fn read(&mut self, len: usize) -> Result<Vec<u8>, FileError>;

    /// Moves to `pos` from the start, and gives the new position.
    fn seek(&mut self, pos: u64) -> Result<u64, FileError>;

    fn filetype(&self) -> Result<FileType, FileError>;

    fn fdflags(&self) -> Result<FdFlags, FileError>;

    /// Reads the rest of the file as a string.
    fn read_string(&mut self) -> Result<String, FileError>;
}

#[derive(Debug, Copy, Clone, PartialEq, Eq, Structural)]
pub struct FdStat {
    pub filetype: FileType,
    pub caps: FileCaps,
    pub flags: FdFlags,
}

/// An open file with its capabilities.
pub struct FileEntry<F> {
    pub caps: FileCaps,
    pub file: F,
}

impl<F: File> FileEntry<F> {
    pub fn new(file: F, caps: FileCaps) -> (e: Self)
        ensures
            e.caps == caps,
            e.file == file,
    {
        FileEntry { caps, file }
    }

    /// The kind, capabilities and flags of the file: the kind and the flags
    /// are what the file's `filetype` and `fdflags` give; an error of either,
    /// the kind asked first, is passed on.
    pub fn get_fdstat(&self) -> (r: Result<FdStat, FileError>)
        ensures
            match r {
                Ok(st) => st.caps == self.caps && call_ensures(F::filetype, (&self.file,), Ok::<FileType, FileError>(st.filetype))
                    && call_ensures(F::fdflags, (&self.file,), Ok::<FdFlags, FileError>(st.flags)),
                Err(e) => call_ensures(F::filetype, (&self.file,), Err::<FileType, FileError>(e)) || exists|t: FileType|
                    call_ensures(F::filetype, (&self.file,), Ok::<FileType, FileError>(t)) && call_ensures(
                        F::fdflags,
                        (&self.file,),
                        Err::<FdFlags, FileError>(e),
                    ),
            },
    {
        let filetype = match self.file.filetype() {
            Ok(t) => t,
            Err(e) => return Err(e),
        };
        let flags = match self.file.fdflags() {
            Ok(f) => f,
            Err(e) => return Err(e),
        };
        Ok(FdStat { filetype, caps: self.caps, flags })
    }

    /// The file, for an operation that needs the capability `cap`; every
    /// capability is granted.
    pub fn capbable(&mut self, cap: FileCaps) -> (r: &mut F)
        ensures
            *r == old(self).file,
            final(self).file == *final(r),
            final(self).caps == old(self).caps,
    {
        &mut self.file
    }
}

/// A directory, which holds no bytes.
#[derive(Debug, Default)]
pub struct DirFile;

impl File for DirFile {
    fn write(&mut self, data: &[u8]) -> (r: Result<usize, FileError>)
        ensures
            r == Ok::<usize, FileError>(0),
    {
        Ok(0)
    }

    fn read(&mut self, len: usize) -> (r: Result<Vec<u8>, FileError>)
        ensures
            r matches Ok(v) && v@.len() == 0,
    {
        Ok(Vec::new())
    }

    fn seek(&mut self, pos: u64) -> (r: Result<u64, FileError>)
        ensures
            r == Ok::<u64, FileError>(0),
    {
        Ok(0)
    }

    fn filetype(&self) -> (r: Result<FileType, FileError>)
        ensures
            r == Ok::<FileType, FileError>(FileType::Directory),
    {
        Ok(FileType::Directory)
    }

    fn fdflags(&self) -> (r: Result<FdFlags, FileError>)
        ensures
            r == Ok::<FdFlags, FileError>(FdFlags::Append),
    {
        Ok(FdFlags::Append)
    }

    fn read_string(&mut self) -> (r: Result<String, FileError>)
        ensures
            r matches Ok(st) && st@.len() == 0,
    {
        Ok(String::new())
    }
}

} // verus!
