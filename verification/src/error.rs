//! The errors that the library reports.
use vstd::prelude::*;

verus! {

/// The classes of error that the library tells apart.
#[derive(Clone, Copy, PartialEq, Eq, Debug, Structural)]
pub enum ErrorKind {
    WouldBlock,
    Interrupted,
    TimedOut,
    BrokenPipe,
    AddrInUse,
    InvalidData,
    Other,
}

/// An error of the operating system, or one that the library raises itself.
#[derive(Clone, Copy, PartialEq, Eq, Debug)]
pub enum Error {
    /// A system call failed: the code that it left and the class that the code belongs to.
    Os { code: i32, kind: ErrorKind },
    /// The library refused: the class of the error and the text that explains it.
    Custom { kind: ErrorKind, message: &'static str },
}

impl Error {
    /// The class of the error.
    pub open spec fn spec_kind(self) -> ErrorKind {
        match self {
            Error::Os { code, kind } => kind,
            Error::Custom { kind, message } => kind,
        }
    }

    /// The class of the error.
    pub fn kind(&self) -> (result: ErrorKind)
        ensures
            result == self.spec_kind(),
    {
        match self {
            Error::Os { kind, .. } => *kind,
            Error::Custom { kind, .. } => *kind,
        }
    }

    /// The code of the operating system, for an error that came from it.
    pub fn raw_os_error(&self) -> (result: Option<i32>)
        ensures
            result == (match *self {
                Error::Os { code, kind } => Some(code),
                Error::Custom { kind, message } => None,
            }),
    {
        match self {
            Error::Os { code, .. } => Some(*code),
            Error::Custom { .. } => None,
        }
    }
}

/// What a system call that returns a descriptor comes to.
pub open spec fn descriptor_answer(returned: i32, last_error: Error) -> Result<i32, Error> {
    if returned < 0 {
        Err(last_error)
    } else {
        Ok(returned)
    }
}

/// What a system call that returns zero where it succeeds comes to.
pub open spec fn status_answer(returned: i32, last_error: Error) -> Result<(), Error> {
    if returned != 0 {
        Err(last_error)
    } else {
        Ok(())
    }
}

/// Reads the answer of a system call that returns a descriptor: a negative one says that it failed,
/// and `last_error` is then the error that it left.
pub fn check_descriptor(returned: i32, last_error: Error) -> (result: Result<i32, Error>)
    ensures
        result == (if returned < 0 {
            Err(last_error)
        } else {
            Ok(returned)
        }),
        result == descriptor_answer(returned, last_error),
{
    if returned < 0 {
        Err(last_error)
    } else {
        Ok(returned)
    }
}

/// Reads the answer of a system call that returns zero where it succeeds; `last_error` is the error
/// that it left otherwise.
pub fn check_status(returned: i32, last_error: Error) -> (result: Result<(), Error>)
    ensures
        result == (if returned != 0 {
            Err(last_error)
        } else {
            Ok(())
        }),
        result == status_answer(returned, last_error),
{
    if returned != 0 {
        Err(last_error)
    } else {
        Ok(())
    }
}

/// The class of an error is the one that it was made with, whoever raised it.
pub proof fn law_errors_keep_their_class(code: i32, kind: ErrorKind, message: &'static str)
    ensures
        (Error::Os { code, kind }).spec_kind() == kind,
        (Error::Custom { kind, message }).spec_kind() == kind,
{
}

/// A system call that returns a descriptor succeeded where it is not negative, with that descriptor;
/// one that returns a status succeeded where it is zero. Otherwise it comes to the error that it
/// left.
pub proof fn law_answers_of_system_calls(returned: i32, last_error: Error, fd: i32)
    ensures
        descriptor_answer(returned, last_error) == Ok::<i32, Error>(fd) <==> returned >= 0 && fd
            == returned,
        descriptor_answer(returned, last_error) == Err::<i32, Error>(last_error) <==> returned < 0,
        status_answer(returned, last_error) is Ok <==> returned == 0,
        status_answer(returned, last_error) == Err::<(), Error>(last_error) <==> returned != 0,
{
}

} // verus!
