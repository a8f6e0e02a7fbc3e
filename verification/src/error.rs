//! Error types for the OpenVINO backend.
use vstd::prelude::*;
use vstd::string::StringExecFns;

verus! {

/// A recoverable error originating from the OpenVINO runtime.
#[derive(Clone, Debug, PartialEq, Eq)]
pub enum OpenVinoError {
    /// A failure found by the backend itself.
    Message(String),
    /// A failure reported by the OpenVINO runtime.
    Runtime(String),
}

/// Convenience alias.
pub type OpenVinoResult<T> = std::result::Result<T, OpenVinoError>;

impl OpenVinoError {
    /// The text that is shown to a user.
    pub open spec fn text(&self) -> Seq<char> {
        match self {
            OpenVinoError::Message(s) => s@,
            OpenVinoError::Runtime(s) => "OpenVINO runtime error: "@ + s@,
        }
    }

    /// The text that is shown to a user: a message as it stands, a runtime
    /// failure with its origin in front.
    pub fn display(&self) -> (r: String)
        ensures
            r@ == self.text(),
    {
        match self {
            OpenVinoError::Message(s) => s.clone(),
            OpenVinoError::Runtime(s) => {
                let mut out = String::from_str("OpenVINO runtime error: ");
                out.append(s.as_str());
                out
            },
        }
    }
}

impl From<String> for OpenVinoError {
    fn from(s: String) -> (r: Self) {
        OpenVinoError::Message(s)
    }
}

impl vstd::std_specs::convert::FromSpecImpl<String> for OpenVinoError {
    open spec fn obeys_from_spec() -> bool {
        true
    }

    open spec fn from_spec(s: String) -> Self {
        OpenVinoError::Message(s)
    }
}

impl From<&str> for OpenVinoError {
    fn from(s: &str) -> (r: Self)
        ensures
            r is Message,
            r->Message_0@ == s@,
    {
        OpenVinoError::Message(s.to_string())
    }
}

impl vstd::std_specs::convert::FromSpecImpl<&str> for OpenVinoError {
    open spec fn obeys_from_spec() -> bool {
        false
    }

    open spec fn from_spec(s: &str) -> Self {
        arbitrary()
    }
}

/// Convert from any openvino crate error type by formatting its Display impl.
pub fn from_ov_error(e: impl std::fmt::Display) -> (r: OpenVinoError)
    ensures
        r is Runtime,
        vstd::string::to_string_from_display_ensures(&e, r->Runtime_0),
{
    OpenVinoError::Runtime(e.to_string())
}

/// What an operation of the backend can fail with.
#[derive(Clone, Debug, PartialEq, Eq)]
pub enum Error {
    /// A failure of the OpenVINO side.
    OpenVino(OpenVinoError),
    /// Any other failure: an unsupported request, or one that a CPU kernel refused.
    Msg(String),
}

/// The result of an operation of the backend.
pub type Result<T> = std::result::Result<T, Error>;

} // verus!
