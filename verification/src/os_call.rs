//! The operations that sandboxed code asks the host for.
//!
//! These are the values that the interpreter hands to the policy engine when a
//! script touches the filesystem or the environment. They hold, as plain values,
//! what the engine reads of each operation: which operation it is and which path or
//! variable it names.

use vstd::prelude::*;

verus! {

/// A path inside the sandbox's virtual filesystem.
#[derive(Debug, Clone)]
pub struct MontyPath {
    path: String,
}

impl View for MontyPath {
    type V = Seq<char>;

    closed spec fn view(&self) -> Seq<char> {
        self.path@
    }
}

impl MontyPath {
    /// Wraps a path string.
    pub fn new(path: String) -> (p: MontyPath)
        ensures
            p@ == path@,
    {
        MontyPath { path }
    }

    /// The path as a string slice.
    pub fn as_str(&self) -> (s: &str)
        ensures
            s@ == self@,
    {
        self.path.as_str()
    }
}

/// The mode in which a file is opened; the flag is `true` for binary mode.
#[derive(Debug, Clone, Copy, PartialEq, Eq)]
pub enum FileMode {
    /// `r`
    Read(bool),
    /// `r+`
    ReadUpdate(bool),
    /// `w`
    Write(bool),
    /// `w+`
    WriteUpdate(bool),
    /// `a`
    Append(bool),
    /// `a+`
    AppendUpdate(bool),
}

/// Arguments of a text write or append: the target path and the text.
#[derive(Debug, Clone)]
pub struct PathStringDataArgs {
    pub path: MontyPath,
    pub data: String,
}

/// Arguments of a binary write or append: the target path and the bytes.
#[derive(Debug, Clone)]
pub struct PathBytesDataArgs {
    pub path: MontyPath,
    pub data: Vec<u8>,
}

/// Arguments of `mkdir`.
#[derive(Debug, Clone)]
pub struct MkdirCallArgs {
    pub path: MontyPath,
    pub parents: bool,
    pub exist_ok: bool,
}

/// Arguments of a rename: the source and the destination.
#[derive(Debug, Clone)]
pub struct RenameCallArgs {
    pub src: MontyPath,
    pub dst: MontyPath,
}

/// Arguments of `open`: the path and the mode.
#[derive(Debug, Clone)]
pub struct OpenCallArgs {
    pub path: MontyPath,
    pub mode: FileMode,
}

/// Arguments of `os.getenv`: the variable's name.
#[derive(Debug, Clone)]
pub struct GetenvArgs {
    pub key: String,
}

/// An operating-system call made by sandboxed code.
#[derive(Debug, Clone)]
pub enum OsFunctionCall {
    ReadText(MontyPath),
    ReadBytes(MontyPath),
    Stat(MontyPath),
    Resolve(MontyPath),
    Absolute(MontyPath),
    Exists(MontyPath),
    IsFile(MontyPath),
    IsDir(MontyPath),
    IsSymlink(MontyPath),
    WriteText(PathStringDataArgs),
    AppendText(PathStringDataArgs),
    WriteBytes(PathBytesDataArgs),
    AppendBytes(PathBytesDataArgs),
    Mkdir(MkdirCallArgs),
    Unlink(MontyPath),
    Rmdir(MontyPath),
    Iterdir(MontyPath),
    Rename(RenameCallArgs),
    Open(OpenCallArgs),
    Getenv(GetenvArgs),
    /// Reads the whole environment.
    GetEnviron,
    /// Today's date.
    DateToday,
    /// The current date and time.
    DateTimeNow,
    /// Placeholder variant that is never dispatched.
    Used,
}

} // verus!
