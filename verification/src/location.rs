//! Where the data file lives.
//!
//! A pointer file in the home directory holds the path of the active data
//! file, as plain text. Resolving with a path makes that path the active one
//! and records it in the pointer file; resolving without one reads the pointer
//! file back. [`PointerFile`] is the content of that file in memory: the caller
//! reads the file into it, and writes it back after a call that changed it.

use vstd::prelude::*;

verus! {

/// The name of the pointer file, inside the home directory.
pub const POINTER_FILE_NAME: &'static str = ".todo_manager_pointer";

/// The name of the data file used when no other was chosen, inside the home
/// directory.
pub const DEFAULT_DATA_FILE_NAME: &'static str = ".todo_manager_rust_todos.json";

/// Why a location could not be determined.
#[derive(Debug, Clone, Copy, PartialEq, Eq, Structural)]
pub enum LocationError {
    /// The home directory of the current user is unknown.
    HomeNotFound,
}

/// The path of the entry `name` inside the directory `dir`, as
/// `std::path::Path::join` forms it on the platform the library is built for.
pub uninterp spec fn joined_path(dir: Seq<char>, name: Seq<char>) -> Seq<char>;

/// Calls `std::path::Path::join` on `dir` with `name`. Both are valid UTF-8, so
/// the joined path is too, and turning it back into a `String` loses nothing.
/// The result depends on the two arguments alone; the contract names it.
#[verifier::external_body]
fn join_path(dir: &String, name: &str) -> (path: String)
    ensures
        path@ == joined_path(dir@, name@),
{
    std::path::Path::new(dir).join(name).to_string_lossy().into_owned()
}

/// Calls `home::home_dir`. What it returns depends on the process and the
/// user it runs for, so nothing is claimed of it. A directory that is not
/// valid UTF-8 is handed on with the offending parts replaced.
#[verifier::external_body]
fn home_directory() -> (home: Option<String>) {
    home::home_dir().map(|dir| dir.to_string_lossy().into_owned())
}

impl LocationError {
    /// The message that goes with the error.
    pub fn message(&self) -> (message: &'static str)
        ensures
            message@ == "Could not find home directory"@,
    {
        "Could not find home directory"
    }
}

/// The path of the file `name` in the home directory `home`, where `None`
/// stands for a home directory that could not be determined. It fails exactly
/// then.
pub fn locate(home: Option<String>, name: &str) -> (path: Result<String, LocationError>)
    ensures
        match home {
            Some(dir) => path is Ok && path->Ok_0@ == joined_path(dir@, name@),
            None => path == Err::<String, LocationError>(LocationError::HomeNotFound),
        },
{
    match home {
        Some(dir) => Ok(join_path(&dir, name)),
        None => Err(LocationError::HomeNotFound),
    }
}

/// The path of the pointer file of the current user. Whether the home
/// directory is known is not for the library to say: where it is, the path is
/// [`POINTER_FILE_NAME`] joined to it; where it is not, the call fails with
/// [`LocationError::HomeNotFound`].
pub fn pointer_file() -> (path: Result<String, LocationError>)
    ensures
        match path {
            Ok(file) => exists|dir: Seq<char>|
                file@ == #[trigger] joined_path(dir, POINTER_FILE_NAME@),
            Err(error) => error == LocationError::HomeNotFound,
        },
{
    locate(home_directory(), POINTER_FILE_NAME)
}

/// The path of the data file that is used when no other was chosen. Whether
/// the home directory is known is not for the library to say: where it is,
/// the path is [`DEFAULT_DATA_FILE_NAME`] joined to it; where it is not, the
/// call fails with [`LocationError::HomeNotFound`].
pub fn default_data_file() -> (path: Result<String, LocationError>)
    ensures
        match path {
            Ok(file) => exists|dir: Seq<char>|
                file@ == #[trigger] joined_path(dir, DEFAULT_DATA_FILE_NAME@),
            Err(error) => error == LocationError::HomeNotFound,
        },
{
    locate(home_directory(), DEFAULT_DATA_FILE_NAME)
}

/// The content of the pointer file, held in memory.
#[derive(Debug, Clone, PartialEq, Eq)]
pub struct PointerFile {
    pub contents: String,
}

impl View for PointerFile {
    type V = Seq<char>;

    open spec fn view(&self) -> Seq<char> {
        self.contents@
    }
}

/// The path that resolving yields when the pointer file holds `stored`.
pub open spec fn resolved(override_path: Option<Seq<char>>, stored: Seq<char>) -> Seq<char> {
    match override_path {
        Some(path) => path,
        None => stored,
    }
}

/// The view of an optional borrowed path.
pub open spec fn override_of(path: Option<&String>) -> Option<Seq<char>> {
    match path {
        Some(path) => Some(path@),
        None => None,
    }
}

impl PointerFile {
    /// The pointer file with the content `contents`.
    pub fn new(contents: String) -> (pointer: PointerFile)
        ensures
            pointer@ == contents@,
    {
        PointerFile { contents }
    }

    /// Determines the path of the active data file.
    ///
    /// With an override, the override becomes the whole content of the pointer
    /// file and is returned. Without one, the content of the pointer file is
    /// returned as it stands, untrimmed, and stays; an empty pointer file gives
    /// the empty path.
    pub fn resolve(&mut self, override_path: Option<&String>) -> (path: String)
        ensures
            path@ == resolved(override_of(override_path), old(self)@),
            final(self)@ == path@,
    {
        match override_path {
            Some(chosen) => {
                self.contents = chosen.clone();
                chosen.clone()
            },
            None => self.contents.clone(),
        }
    }
}

} // verus!
