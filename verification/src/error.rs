use vstd::prelude::*;
use vstd::string::StringExecFns;

verus! {

/// What the host engine said when it failed. The library carries the report
/// to the caller and never looks inside.
#[derive(Debug, PartialEq, Eq)]
pub struct HostError {
    pub message: String,
}

impl HostError {
    pub fn new(message: String) -> (e: HostError)
        ensures
            e.message == message,
    {
        HostError { message }
    }
}

impl Clone for HostError {
    fn clone(&self) -> (e: HostError)
        ensures
            e == *self,
    {
        HostError { message: self.message.clone() }
    }
}

/// Everything that can go wrong between a caller and a codec engine.
#[derive(Debug, PartialEq, Eq)]
pub enum Error {
    /// The reader of an output sequence went away while the engine still had
    /// outputs for it.
    Dropped,
    /// A width or a height that has to be positive is zero.
    InvalidDimensions,
    /// Audio was offered without a single channel.
    NoChannels,
    /// The host engine failed.
    Unknown(HostError),
}

impl Error {
    /// The text that describes the error to a person.
    pub open spec fn message_spec(self) -> Seq<char> {
        match self {
            Error::Dropped => "dropped"@,
            Error::InvalidDimensions => "invalid dimensions"@,
            Error::NoChannels => "no channels"@,
            Error::Unknown(e) => "unknown error: "@ + e.message@,
        }
    }

    /// The text that describes the error to a person.
    pub fn message(&self) -> (text: String)
        ensures
            text@ == self.message_spec(),
    {
        match self {
            Error::Dropped => String::from_str("dropped"),
            Error::InvalidDimensions => String::from_str("invalid dimensions"),
            Error::NoChannels => String::from_str("no channels"),
            Error::Unknown(e) => String::from_str("unknown error: ").concat(e.message.as_str()),
        }
    }
}

impl Clone for Error {
    fn clone(&self) -> (e: Error)
        ensures
            e == *self,
    {
        match self {
            Error::Dropped => Error::Dropped,
            Error::InvalidDimensions => Error::InvalidDimensions,
            Error::NoChannels => Error::NoChannels,
            Error::Unknown(e) => Error::Unknown(e.clone()),
        }
    }
}

impl From<HostError> for Error {
    /// A failure of the host engine, passed on as it came.
    fn from(e: HostError) -> (r: Error) {
        Error::Unknown(e)
    }
}

impl vstd::std_specs::convert::FromSpecImpl<HostError> for Error {
    open spec fn obeys_from_spec() -> bool {
        true
    }

    open spec fn from_spec(e: HostError) -> Error {
        Error::Unknown(e)
    }
}

} // verus!
