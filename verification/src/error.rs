//! The error type shared by the tool's components.

use vstd::prelude::*;

verus! {

/// `std::io::Error` as an opaque type, so the error enum can carry it.
#[verifier::external_type_specification]
#[verifier::external_body]
pub struct ExIoError(std::io::Error);

/// What went wrong during one invocation.
#[derive(Debug)]
pub enum AppError {
    IoError(std::io::Error),
    ParseError(String),
    Other(String),
}

impl AppError {
    /// A user-facing description of the error.
    pub fn message(&self) -> (r: String)
        ensures
            self matches AppError::ParseError(m) ==> r@ == "Parse Error: "@ + m@,
            self matches AppError::Other(m) ==> r@ == "Error: "@ + m@,
            self matches AppError::IoError(_) ==> r@.len() >= "IO Error: "@.len() && r@.subrange(
                0,
                "IO Error: "@.len() as int,
            ) == "IO Error: "@,
    {
        match self {
            AppError::IoError(e) => {
                let mut s = "IO Error: ".to_owned();
                let detail = e.to_string();
                s.append(detail.as_str());
                proof {
                    assert(("IO Error: "@ + detail@).subrange(0, "IO Error: "@.len() as int)
                        =~= "IO Error: "@);
                }
                s
            },
            AppError::ParseError(m) => {
                let mut s = "Parse Error: ".to_owned();
                s.append(m.as_str());
                s
            },
            AppError::Other(m) => {
                let mut s = "Error: ".to_owned();
                s.append(m.as_str());
                s
            },
        }
    }
}

impl From<std::io::Error> for AppError {
    /// Wrap an I/O error.
    fn from(err: std::io::Error) -> (r: AppError)
        ensures
            r == AppError::IoError(err),
    {
        AppError::IoError(err)
    }
}

impl vstd::std_specs::convert::FromSpecImpl<std::io::Error> for AppError {
    open spec fn obeys_from_spec() -> bool {
        true
    }

    open spec fn from_spec(err: std::io::Error) -> AppError {
        AppError::IoError(err)
    }
}

} // verus!
