use chemfiles::{check, Error, ErrorKind, Status};

#[test]
fn codes() {
    assert_eq!(Error::from_status(Status::CxxError, "").kind, ErrorKind::CppStdError);
    assert_eq!(Error::from_status(Status::GenericError, "").kind, ErrorKind::ChemfilesCppError);
    assert_eq!(Error::from_status(Status::MemoryError, "").kind, ErrorKind::MemoryError);
    assert_eq!(Error::from_status(Status::FileError, "").kind, ErrorKind::FileError);
    assert_eq!(Error::from_status(Status::FormatError, "").kind, ErrorKind::FormatError);
    assert_eq!(Error::from_status(Status::SelectionError, "").kind, ErrorKind::SelectionError);
}

#[test]
fn messages() {
    assert!(Error::from_status(Status::CxxError, "").description().contains("C++ standard library"));
    assert!(Error::from_status(Status::GenericError, "").description().contains("chemfiles library"));
    assert!(Error::from_status(Status::MemoryError, "").description().contains("memory"));
    assert!(Error::from_status(Status::FileError, "").description().contains("file"));
    assert!(Error::from_status(Status::FormatError, "").description().contains("format"));
    assert!(Error::from_status(Status::SelectionError, "").description().contains("selection"));
}

#[test]
fn descriptions_are_exact() {
    let of = |kind: ErrorKind| Error { kind, message: String::new() }.description();
    assert_eq!(of(ErrorKind::CppStdError), "Exception from the C++ standard library");
    assert_eq!(of(ErrorKind::ChemfilesCppError), "Exception from the chemfiles library");
    assert_eq!(of(ErrorKind::MemoryError), "Error in memory allocations");
    assert_eq!(of(ErrorKind::FileError), "Error while reading or writing a file");
    assert_eq!(of(ErrorKind::FormatError), "Error in file formatting, i.e. the file is invalid");
    assert_eq!(of(ErrorKind::SelectionError), "Error in selection string syntax");
    assert_eq!(of(ErrorKind::UTF8PathError), "The given path is not valid UTF8");
    assert_eq!(of(ErrorKind::NullPtr), "We got a NULL pointer from C++");
    assert_eq!(of(ErrorKind::InvalidArgument), "Invalid value or operation");
}

#[test]
fn status_carries_the_diagnostic() {
    let error = Error::from_status(Status::FileError, "can not open 'nope'");
    assert_eq!(error.kind, ErrorKind::FileError);
    assert_eq!(error.message, "can not open 'nope'");
    assert_eq!(error.to_string(), "can not open 'nope'");
    assert_eq!(
        error,
        Error { kind: ErrorKind::FileError, message: String::from("can not open 'nope'") }
    );
}

#[test]
fn check_passes_success_only() {
    assert_eq!(check(Status::Success, "left over from an earlier failure"), Ok(()));
    let statuses = [
        (Status::MemoryError, ErrorKind::MemoryError),
        (Status::FileError, ErrorKind::FileError),
        (Status::FormatError, ErrorKind::FormatError),
        (Status::SelectionError, ErrorKind::SelectionError),
        (Status::GenericError, ErrorKind::ChemfilesCppError),
        (Status::CxxError, ErrorKind::CppStdError),
    ];
    for (status, kind) in statuses {
        assert_eq!(check(status, "why"), Err(Error { kind, message: String::from("why") }));
    }
}

#[test]
fn utf8_path_error_names_the_path() {
    let error = Error::utf8_path_error("dir/fo\u{fffd}.xyz");
    assert_eq!(error.kind, ErrorKind::UTF8PathError);
    assert_eq!(error.message, "Could not convert 'dir/fo\u{fffd}.xyz' to UTF8");
    assert_eq!(Error::utf8_path_error("").message, "Could not convert '' to UTF8");
}

#[test]
fn null_ptr_carries_the_diagnostic() {
    let error = Error::null_ptr("out of memory");
    assert_eq!(error.kind, ErrorKind::NullPtr);
    assert_eq!(error.message, "out of memory");
    assert_eq!(Error::null_ptr("").message, "");
}

#[test]
fn invalid_argument_carries_the_message() {
    let error = Error::invalid_argument("no");
    assert_eq!(error.kind, ErrorKind::InvalidArgument);
    assert_eq!(error.to_string(), "no");
}

#[test]
fn statuses_and_their_codes() {
    assert_eq!(Status::from_code(0), Some(Status::Success));
    assert_eq!(Status::from_code(1), Some(Status::MemoryError));
    assert_eq!(Status::from_code(2), Some(Status::FileError));
    assert_eq!(Status::from_code(3), Some(Status::FormatError));
    assert_eq!(Status::from_code(4), Some(Status::SelectionError));
    assert_eq!(Status::from_code(254), Some(Status::GenericError));
    assert_eq!(Status::from_code(255), Some(Status::CxxError));
    for code in [-1, 5, 6, 7, 8, 253, 256, i32::MAX, i32::MIN] {
        assert_eq!(Status::from_code(code), None);
    }
}
