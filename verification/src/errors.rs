//! Error returned when executing or parsing `wesl metadata` fails.
//!
//! Every failure is terminal to the operation that raised it and is returned
//! as a value; the only fatal path in the crate is indexing by an id that is
//! not present, which is a contract violation rather than a data-dependent
//! failure.
use vstd::prelude::*;
use vstd::string::StringExecFns;

verus! {

/// Error returned when executing or parsing `wesl metadata` fails.
///
/// Each variant comes from one specific place in the pipeline, so a variant
/// identifies where the operation stopped.
#[derive(Debug, Clone, PartialEq)]
pub enum Error {
    /// `wesl metadata` ran and exited with an error; the payload is its
    /// captured standard error text.
    WeslMetadata {
        /// stderr returned by the `wesl metadata` command.
        stderr: String,
    },
    /// `wesl metadata` could not be started; the payload describes the
    /// operating-system-level cause.
    Io(String),
    /// The stdout of `wesl metadata` was not valid UTF-8.
    Utf8(String),
    /// The stderr of `wesl metadata` was not valid UTF-8.
    ErrUtf8(String),
    /// The JSON line was found but did not match the metadata schema; the
    /// payload names the violation.
    Json(String),
    /// No line of the output carried any JSON.
    NoJson,
}

impl Error {
    /// A human-readable description of the failure; the payload text, where
    /// the variant carries one, appears in it verbatim.
    pub fn message(&self) -> (r: String)
        ensures
            r@ == spec_message(self),
    {
        match self {
            Error::WeslMetadata { stderr } => concat_msg(
                "`wesl metadata` exited with an error: ",
                stderr.as_str(),
            ),
            Error::Io(cause) => concat_msg("failed to start `wesl metadata`: ", cause.as_str()),
            Error::Utf8(cause) => concat_msg(
                "cannot convert the stdout of `wesl metadata`: ",
                cause.as_str(),
            ),
            Error::ErrUtf8(cause) => concat_msg(
                "cannot convert the stderr of `wesl metadata`: ",
                cause.as_str(),
            ),
            Error::Json(cause) => concat_msg(
                "failed to interpret `wesl metadata`'s json: ",
                cause.as_str(),
            ),
            Error::NoJson => String::from_str(
                "could not find any json in the output of `wesl metadata`",
            ),
        }
    }
}

/// The text that [`Error::message`] produces.
pub open spec fn spec_message(e: &Error) -> Seq<char> {
    match e {
        Error::WeslMetadata { stderr } => "`wesl metadata` exited with an error: "@ + stderr@,
        Error::Io(cause) => "failed to start `wesl metadata`: "@ + cause@,
        Error::Utf8(cause) => "cannot convert the stdout of `wesl metadata`: "@ + cause@,
        Error::ErrUtf8(cause) => "cannot convert the stderr of `wesl metadata`: "@ + cause@,
        Error::Json(cause) => "failed to interpret `wesl metadata`'s json: "@ + cause@,
        Error::NoJson => "could not find any json in the output of `wesl metadata`"@,
    }
}

/// A schema failure about one key of one object.
pub(crate) fn field_error(what: &str, key: &str) -> (e: Error)
    ensures
        e is Json,
{
    Error::Json(concat_msg(what, key))
}

/// Joins a fixed message prefix to a payload.
pub(crate) fn concat_msg(prefix: &str, payload: &str) -> (r: String)
    ensures
        r@ == prefix@ + payload@,
{
    let mut out = String::from_str(prefix);
    out.append(payload);
    out
}

} // verus!
