//! Error taxonomy of the supervision core.
//!
//! Spawn failures are fatal to the caller that requested a start; I/O and
//! timeout failures are logged where they occur; a backup that runs out of
//! rotation indices is reported and otherwise ignored.

use vstd::prelude::*;

verus! {

/// The two ways creating the supervised process can fail.
#[derive(Clone, Copy, Debug, PartialEq, Eq, Structural)]
pub enum SpawnErrorKind {
    PipeCreationFailed,
    ForkFailed,
}

/// Every error the supervision core reports.
#[derive(Clone, Debug, PartialEq, Eq)]
pub enum GenericError {
    /// The supervised process could not be created; carries the OS error code.
    SpawnError { kind: SpawnErrorKind, errno: i32 },
    /// An OS-level I/O operation failed; carries the OS error code.
    IOError { errno: i32 },
    /// A bounded wait for process death ran out before the process died.
    TimeoutError,
    /// All 256 rotation indices for today's backup name are taken.
    RotationLimitExceeded,
    /// A configuration or protocol failure explained in free text.
    ExplainedError(String),
}

pub type GenericResult<T> = Result<T, GenericError>;

impl From<String> for GenericError {
    fn from(s: String) -> (r: Self) {
        GenericError::ExplainedError(s)
    }
}

impl vstd::std_specs::convert::FromSpecImpl<String> for GenericError {
    open spec fn obeys_from_spec() -> bool {
        true
    }

    open spec fn from_spec(s: String) -> Self {
        GenericError::ExplainedError(s)
    }
}

/// The text a report of the error shows.
pub open spec fn spec_describe(e: GenericError) -> Seq<char> {
    match e {
        GenericError::SpawnError { kind, errno } => (match kind {
            SpawnErrorKind::PipeCreationFailed => "error when creating the process pipes (OS error "@,
            SpawnErrorKind::ForkFailed => "error when forking the process (OS error "@,
        }) + crate::config::dec_digits_signed(errno as int) + ")"@,
        GenericError::IOError { errno } => "I/O error (OS error "@
            + crate::config::dec_digits_signed(errno as int) + ")"@,
        GenericError::TimeoutError => "timed out waiting for the process to stop"@,
        GenericError::RotationLimitExceeded => "limit of 256 daily backups exceeded"@,
        GenericError::ExplainedError(s) => s@,
    }
}

impl GenericError {
    /// Renders the error as one line of text for a log or the console.
    pub fn describe(&self) -> (r: String)
        ensures
            r@ == spec_describe(*self),
    {
        match self {
            GenericError::SpawnError { kind, errno } => {
                let mut s = match kind {
                    SpawnErrorKind::PipeCreationFailed => String::from_str(
                        "error when creating the process pipes (OS error ",
                    ),
                    SpawnErrorKind::ForkFailed => String::from_str(
                        "error when forking the process (OS error ",
                    ),
                };
                let digits = crate::config::decimal_string_i64(*errno as i64);
                s.append(digits.as_str());
                s.append(")");
                s
            },
            GenericError::IOError { errno } => {
                let mut s = String::from_str("I/O error (OS error ");
                let digits = crate::config::decimal_string_i64(*errno as i64);
                s.append(digits.as_str());
                s.append(")");
                s
            },
            GenericError::TimeoutError => String::from_str(
                "timed out waiting for the process to stop",
            ),
            GenericError::RotationLimitExceeded => String::from_str(
                "limit of 256 daily backups exceeded",
            ),
            GenericError::ExplainedError(s) => s.clone(),
        }
    }
}

/// Builds the error used for configuration and protocol failures, explained
/// in free text.
pub fn explained(msg: &str) -> (r: GenericError)
    ensures
        r matches GenericError::ExplainedError(s) && s@ == msg@,
{
    GenericError::ExplainedError(String::from_str(msg))
}

} // verus!
