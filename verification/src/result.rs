use vstd::prelude::*;

verus! {

/// `std::io::Error`, the error of a file or bus operation. The library
/// carries it through and never looks inside.
#[verifier::external_type_specification]
#[verifier::external_body]
pub struct ExIoError(std::io::Error);

/// `mmap::MapError`, the error of mapping a block of memory. The library
/// carries it through and never looks inside.
#[verifier::external_type_specification]
#[verifier::external_body]
pub struct ExMapError(mmap::MapError);

/// `core::num::ParseIntError`, the error of reading a number from text.
/// The library never looks inside.
#[verifier::external_type_specification]
#[verifier::external_body]
pub struct ExParseIntError(core::num::ParseIntError);

/// `std::string::FromUtf8Error`, the error of reading text from bytes. The
/// library never looks inside.
#[verifier::external_type_specification]
#[verifier::external_body]
pub struct ExFromUtf8Error(std::string::FromUtf8Error);

/// Everything that can go wrong while driving a pin.
#[derive(Debug)]
pub enum Error {
    /// A privileged operation was attempted without elevation.
    RootRequired,
    /// The kernel interface produced content that could not be understood.
    UnexpectedError,
    /// The processor or board is not one this library knows.
    UnsupportedHardware,
    /// The logical pin is not wired on this board.
    UnconnectedPin,
    /// The line is already held by a live handle.
    AlreadyClaimed,
    /// Mapping the peripheral block failed.
    Mapping(mmap::MapError),
    /// A file or bus operation failed.
    Io(std::io::Error),
}

impl From<std::io::Error> for Error {
    fn from(err: std::io::Error) -> (out: Error) {
        Error::Io(err)
    }
}

impl vstd::std_specs::convert::FromSpecImpl<std::io::Error> for Error {
    open spec fn obeys_from_spec() -> bool {
        true
    }

    open spec fn from_spec(err: std::io::Error) -> Error {
        Error::Io(err)
    }
}

impl From<mmap::MapError> for Error {
    fn from(err: mmap::MapError) -> (out: Error) {
        Error::Mapping(err)
    }
}

impl vstd::std_specs::convert::FromSpecImpl<mmap::MapError> for Error {
    open spec fn obeys_from_spec() -> bool {
        true
    }

    open spec fn from_spec(err: mmap::MapError) -> Error {
        Error::Mapping(err)
    }
}

impl From<core::num::ParseIntError> for Error {
    fn from(err: core::num::ParseIntError) -> (out: Error) {
        Error::UnexpectedError
    }
}

impl vstd::std_specs::convert::FromSpecImpl<core::num::ParseIntError> for Error {
    open spec fn obeys_from_spec() -> bool {
        true
    }

    open spec fn from_spec(err: core::num::ParseIntError) -> Error {
        Error::UnexpectedError
    }
}

impl From<std::string::FromUtf8Error> for Error {
    fn from(err: std::string::FromUtf8Error) -> (out: Error) {
        Error::UnexpectedError
    }
}

impl vstd::std_specs::convert::FromSpecImpl<std::string::FromUtf8Error> for Error {
    open spec fn obeys_from_spec() -> bool {
        true
    }

    open spec fn from_spec(err: std::string::FromUtf8Error) -> Error {
        Error::UnexpectedError
    }
}

} // verus!
