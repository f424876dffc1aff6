//! The errors a run can end with.
use vstd::prelude::*;

verus! {

/// Errors of the client. Each one ends the current run.
#[derive(Debug, PartialEq, Eq)]
pub enum GandiError {
    /// Reading a local file failed; holds the system's message.
    IOError(String),
    /// The HTTP transport failed; holds the transport's message.
    ReqwestError(String),
    /// Encoding or decoding JSON failed.
    SerdeJsonError(String),
    /// Encoding YAML failed.
    SerdeYamlError(String),
    /// Reading a TOML document failed.
    TomlDeError(String),
    /// Encoding TOML failed.
    TomlSerError(String),
    /// The API answered with a status outside 2xx: the status line and the
    /// body of the response.
    ReqwestResponseError(String, String),
}

/// Result used by operations that can fail.
pub type GandiResult<T> = Result<T, GandiError>;

/// The text shown to the user for an error.
pub open spec fn error_message(e: GandiError) -> Seq<char> {
    match e {
        GandiError::IOError(m) => m@,
        GandiError::ReqwestError(m) => "ReqwestError: "@ + m@,
        GandiError::SerdeJsonError(m) => "Json Formatting Error: "@ + m@,
        GandiError::SerdeYamlError(m) => "Yaml Formatting Error: "@ + m@,
        GandiError::TomlSerError(m) => "Toml Formatting Error: "@ + m@,
        GandiError::TomlDeError(m) => "Toml Invalid Error: "@ + m@,
        GandiError::ReqwestResponseError(status, body) => "Request Error "@ + status@ + ": "@
            + body@,
    }
}

/// The exit code of a run that ended with `r`: 0 on success, 1 on any error.
pub open spec fn exit_code_spec<T>(r: GandiResult<T>) -> i32 {
    match r {
        Ok(_) => 0,
        Err(_) => 1,
    }
}

impl GandiError {
    /// The text shown to the user for this error.
    pub fn message(&self) -> (r: String)
        ensures
            r@ == error_message(*self),
    {
        match self {
            GandiError::IOError(m) => m.clone(),
            GandiError::ReqwestError(m) => String::from_str("ReqwestError: ").concat(m.as_str()),
            GandiError::SerdeJsonError(m) => String::from_str("Json Formatting Error: ").concat(
                m.as_str(),
            ),
            GandiError::SerdeYamlError(m) => String::from_str("Yaml Formatting Error: ").concat(
                m.as_str(),
            ),
            GandiError::TomlSerError(m) => String::from_str("Toml Formatting Error: ").concat(
                m.as_str(),
            ),
            GandiError::TomlDeError(m) => String::from_str("Toml Invalid Error: ").concat(
                m.as_str(),
            ),
            GandiError::ReqwestResponseError(status, body) => {
                let mut s = String::from_str("Request Error ");
                s.append(status.as_str());
                s.append(": ");
                s.append(body.as_str());
                s
            },
        }
    }
}

/// The exit code of a run that ended with `r`: 0 on success, 1 on any error.
pub fn exit_code<T>(r: &GandiResult<T>) -> (c: i32)
    ensures
        c == exit_code_spec(*r),
{
    match r {
        Ok(_) => 0,
        Err(_) => 1,
    }
}

} // verus!
