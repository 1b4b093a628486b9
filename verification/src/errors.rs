//! The error model: what can go wrong, and how a status reported by the
//! native engine becomes an error of this library.

use vstd::prelude::*;
use vstd::string::*;

verus! {

/// What the native engine reports at the end of an operation.
#[derive(Clone, Copy, Debug, PartialEq, Eq, Structural)]
pub enum Status {
    /// The operation succeeded.
    Success,
    /// An allocation failed.
    MemoryError,
    /// A file could not be read or written.
    FileError,
    /// A file does not follow its format.
    FormatError,
    /// A selection string could not be parsed.
    SelectionError,
    /// Any other failure inside the engine.
    GenericError,
    /// A failure in the C++ standard library under the engine.
    CxxError,
}

/// Possible causes of error.
#[derive(Clone, Copy, Debug, PartialEq, Eq, Structural)]
pub enum ErrorKind {
    /// Exception in the C++ standard library
    CppStdError,
    /// Exception in the native engine
    ChemfilesCppError,
    /// Error in memory allocations
    MemoryError,
    /// Error while reading or writing a file
    FileError,
    /// Error in file formatting, *i.e.* the file is invalid
    FormatError,
    /// Error in selection string syntax
    SelectionError,
    /// The given path is not valid UTF8
    UTF8PathError,
    /// The engine handed back a null pointer
    NullPtr,
    /// A value or an operation that the target does not admit
    InvalidArgument,
}

/// An error: its cause, and a message for a human reader.
#[derive(Clone, Debug, PartialEq)]
pub struct Error {
    /// The error kind
    pub kind: ErrorKind,
    /// A message describing the error cause
    pub message: String,
}

/// The status that the engine writes as the number `code` in a result that
/// crosses its boundary, for the statuses that an operation on a cell or on
/// an atom can end with; `None` for every other number.
pub open spec fn status_of(code: int) -> Option<Status> {
    if code == 0 {
        Some(Status::Success)
    } else if code == 1 {
        Some(Status::MemoryError)
    } else if code == 2 {
        Some(Status::FileError)
    } else if code == 3 {
        Some(Status::FormatError)
    } else if code == 4 {
        Some(Status::SelectionError)
    } else if code == 254 {
        Some(Status::GenericError)
    } else if code == 255 {
        Some(Status::CxxError)
    } else {
        None
    }
}

impl Status {
    /// The status that the engine writes as `code`, if it is one of those
    /// that this library knows.
    pub fn from_code(code: i32) -> (r: Option<Status>)
        ensures
            r == status_of(code as int),
    {
        match code {
            0 => Some(Status::Success),
            1 => Some(Status::MemoryError),
            2 => Some(Status::FileError),
            3 => Some(Status::FormatError),
            4 => Some(Status::SelectionError),
            254 => Some(Status::GenericError),
            255 => Some(Status::CxxError),
            _ => None,
        }
    }
}

/// The cause that stands for a failure status of the engine. `Success` is no
/// failure; it is given the catch-all cause here so that the function is total.
pub open spec fn kind_of(status: Status) -> ErrorKind {
    match status {
        Status::CxxError => ErrorKind::CppStdError,
        Status::MemoryError => ErrorKind::MemoryError,
        Status::FileError => ErrorKind::FileError,
        Status::FormatError => ErrorKind::FormatError,
        Status::SelectionError => ErrorKind::SelectionError,
        Status::GenericError | Status::Success => ErrorKind::ChemfilesCppError,
    }
}

/// The fixed sentence that goes with each cause.
pub open spec fn description_of(kind: ErrorKind) -> Seq<char> {
    match kind {
        ErrorKind::CppStdError => "Exception from the C++ standard library"@,
        ErrorKind::ChemfilesCppError => "Exception from the chemfiles library"@,
        ErrorKind::MemoryError => "Error in memory allocations"@,
        ErrorKind::FileError => "Error while reading or writing a file"@,
        ErrorKind::FormatError => "Error in file formatting, i.e. the file is invalid"@,
        ErrorKind::SelectionError => "Error in selection string syntax"@,
        ErrorKind::UTF8PathError => "The given path is not valid UTF8"@,
        ErrorKind::NullPtr => "We got a NULL pointer from C++"@,
        ErrorKind::InvalidArgument => "Invalid value or operation"@,
    }
}

/// The message of the error raised for a path that is not valid UTF8, given
/// the path as far as it can be shown.
pub open spec fn utf8_path_message(path: Seq<char>) -> Seq<char> {
    "Could not convert '"@ + path + "' to UTF8"@
}

impl Error {
    /// The error for a failure status of the engine. `message` is the
    /// diagnostic that the engine left for that failure.
    pub fn from_status(status: Status, message: &str) -> (e: Error)
        requires
            status != Status::Success,
        ensures
            e.kind == kind_of(status),
            e.message@ == message@,
    {
        let kind = match status {
            Status::CxxError => ErrorKind::CppStdError,
            Status::GenericError => ErrorKind::ChemfilesCppError,
            Status::MemoryError => ErrorKind::MemoryError,
            Status::FileError => ErrorKind::FileError,
            Status::FormatError => ErrorKind::FormatError,
            Status::SelectionError => ErrorKind::SelectionError,
            Status::Success => ErrorKind::ChemfilesCppError,
        };
        Error { kind, message: String::from_str(message) }
    }

    /// The fixed sentence that describes the cause of this error.
    pub fn description(&self) -> (r: &'static str)
        ensures
            r@ == description_of(self.kind),
    {
        match self.kind {
            ErrorKind::CppStdError => "Exception from the C++ standard library",
            ErrorKind::ChemfilesCppError => "Exception from the chemfiles library",
            ErrorKind::MemoryError => "Error in memory allocations",
            ErrorKind::FileError => "Error while reading or writing a file",
            ErrorKind::FormatError => "Error in file formatting, i.e. the file is invalid",
            ErrorKind::SelectionError => "Error in selection string syntax",
            ErrorKind::UTF8PathError => "The given path is not valid UTF8",
            ErrorKind::NullPtr => "We got a NULL pointer from C++",
            ErrorKind::InvalidArgument => "Invalid value or operation",
        }
    }

    /// The error for a path that is not valid UTF8. `path` is the path as far
    /// as it can be shown.
    pub fn utf8_path_error(path: &str) -> (e: Error)
        ensures
            e.kind == ErrorKind::UTF8PathError,
            e.message@ == utf8_path_message(path@),
    {
        let mut message = String::from_str("Could not convert '");
        message.append(path);
        message.append("' to UTF8");
        Error { kind: ErrorKind::UTF8PathError, message }
    }

    /// The error for a null pointer that came out of the engine. `message`
    /// is the diagnostic that the engine left with it.
    pub fn null_ptr(message: &str) -> (e: Error)
        ensures
            e.kind == ErrorKind::NullPtr,
            e.message@ == message@,
    {
        Error { kind: ErrorKind::NullPtr, message: String::from_str(message) }
    }

    /// The error for a value or an operation that its target does not admit.
    pub fn invalid_argument(message: &str) -> (e: Error)
        ensures
            e.kind == ErrorKind::InvalidArgument,
            e.message@ == message@,
    {
        Error { kind: ErrorKind::InvalidArgument, message: String::from_str(message) }
    }

    /// The text shown for this error: its message.
    pub fn to_string(&self) -> (r: String)
        ensures
            r@ == self.message@,
    {
        self.message.clone()
    }
}

/// Turns the status of an engine operation into a result: `Ok` for success
/// alone, and for each failure the error that [`Error::from_status`] gives.
pub fn check(status: Status, message: &str) -> (r: Result<(), Error>)
    ensures
        r is Ok <==> status == Status::Success,
        r matches Err(e) ==> e.kind == kind_of(status) && e.message@ == message@,
{
    if status != Status::Success {
        return Err(Error::from_status(status, message));
    }
    Ok(())
}

} // verus!
