//! Assorted error types and helper functions used by this crate.

use crate::net::request::RequestHead;
use vstd::prelude::*;
use vstd::std_specs::convert::FromSpecImpl;
use vstd::string::StringExecFns;

verus! {

/// Error returned by `NoSerializer` and `NoDeserializer`.
#[derive(Clone, Copy, Debug, PartialEq, Eq, Structural)]
pub enum NoSerializeError {
    /// A request method requested serialization, but no serializer was
    /// provided.
    Serialize,
    /// A request method requested deserialization, but no deserializer was
    /// provided.
    Deserialize,
}

impl NoSerializeError {
    /// What went wrong, in words.
    pub open spec fn message(self) -> Seq<char> {
        match self {
            NoSerializeError::Serialize => "A request method requested serialization, but no serializer was provided"@,
            NoSerializeError::Deserialize => "A request method requested deserialization, but no deserializer was provided"@,
        }
    }

    /// What went wrong, in words.
    pub fn description(&self) -> (text: &'static str)
        ensures
            text@ == self.message(),
    {
        match self {
            NoSerializeError::Serialize => "A request method requested serialization, but no serializer was provided",
            NoSerializeError::Deserialize => "A request method requested deserialization, but no deserializer was provided",
        }
    }
}

/// Error returned when a job ended abnormally while completing a request.
///
/// The request head is provided for inspection.
#[derive(Debug)]
pub struct RequestPanicked(pub RequestHead);

impl RequestPanicked {
    /// The line that shows this error: which request was under way.
    pub open spec fn shown(&self) -> Seq<char> {
        "Panic while executing request: \""@ + self.0.shown() + "\""@
    }

    /// The line that shows this error: which request was under way.
    pub fn display(&self) -> (line: String)
        ensures
            line@ == self.shown(),
    {
        let mut line = String::from_str("Panic while executing request: \"");
        let head = self.0.display();
        line.append(head.as_str());
        line.append("\"");
        line
    }

    /// What went wrong, in words.
    pub fn description(&self) -> (text: &'static str)
        ensures
            text@ == "A panic occurred while executing a request."@,
    {
        "A panic occurred while executing a request."
    }
}

/// The error type for this crate.
///
/// Errors that come from the network, from URL handling, from streams and
/// from (de)serializers are carried as the text that describes them.
#[derive(Debug)]
pub enum Error {
    /// Connection issues or I/O issues with sockets.
    Hyper(String),
    /// Errors with URL string parsing or concatenation.
    Url(String),
    /// Errors that occur during serialization.
    Serialize(String),
    /// Errors that occur during deserialization.
    Deserialize(String),
    /// Miscellaneous errors dealing with I/O streams.
    StdIo(String),
    /// Errors writing out `multipart/form-data` requests.
    Multipart(String),
    /// Returned when a service method requests (de)serialization, but no
    /// (de)serializer was provided.
    NoSerialize(NoSerializeError),
    /// The miscellaneous error type, can be anything.
    Other(String),
    /// A job ended abnormally while completing a request.
    ///
    /// The request head is provided for inspection.
    Panic(RequestPanicked),
    /// A job ended abnormally and left nothing to say which request it was
    /// completing.
    UnknownPanic,
    /// Returned by methods on `Call` if the result was already taken.
    ResultTaken,
}

impl Error {
    /// Whether the error stands for a job that ended abnormally.
    pub open spec fn is_abnormal(&self) -> bool {
        self is Panic || self is UnknownPanic
    }

    /// Map the result, wrapping the error as `Error::Serialize`.
    pub fn map_serialize<T>(res: Result<T, String>) -> (mapped: Result<T, Self>)
        ensures
            mapped == match res {
                Ok(val) => Ok::<T, Error>(val),
                Err(e) => Err::<T, Error>(Error::Serialize(e)),
            },
    {
        match res {
            Ok(val) => Ok(val),
            Err(e) => Err(Error::Serialize(e)),
        }
    }

    /// Map the result, wrapping the error as `Error::Deserialize`.
    pub fn map_deserialize<T>(res: Result<T, String>) -> (mapped: Result<T, Self>)
        ensures
            mapped == match res {
                Ok(val) => Ok::<T, Error>(val),
                Err(e) => Err::<T, Error>(Error::Deserialize(e)),
            },
    {
        match res {
            Ok(val) => Ok(val),
            Err(e) => Err(Error::Deserialize(e)),
        }
    }

    /// Create a value of `Error::Deserialize`.
    pub fn deserialize(err: String) -> (e: Self)
        ensures
            e == Error::Deserialize(err),
    {
        Error::Deserialize(err)
    }

    /// What went wrong, in words.
    pub open spec fn message(&self) -> Seq<char> {
        match self {
            Error::Hyper(e) => e@,
            Error::Url(e) => e@,
            Error::Serialize(e) => e@,
            Error::Deserialize(e) => e@,
            Error::StdIo(e) => e@,
            Error::Multipart(e) => e@,
            Error::NoSerialize(e) => e.message(),
            Error::Other(e) => e@,
            Error::Panic(_) => "A panic occurred while executing a request."@,
            Error::UnknownPanic => "A panic occurred during a callback assigned to a request."@,
            Error::ResultTaken => "The result has already been taken from this Call."@,
        }
    }

    /// What went wrong, in words.
    pub fn description(&self) -> (text: &str)
        ensures
            text@ == self.message(),
    {
        match self {
            Error::Hyper(e) => e.as_str(),
            Error::Url(e) => e.as_str(),
            Error::Serialize(e) => e.as_str(),
            Error::Deserialize(e) => e.as_str(),
            Error::StdIo(e) => e.as_str(),
            Error::Multipart(e) => e.as_str(),
            Error::NoSerialize(e) => e.description(),
            Error::Other(e) => e.as_str(),
            Error::Panic(e) => e.description(),
            Error::UnknownPanic => "A panic occurred during a callback assigned to a request.",
            Error::ResultTaken => "The result has already been taken from this Call.",
        }
    }
}

impl From<NoSerializeError> for Error {
    fn from(e: NoSerializeError) -> (err: Error) {
        Error::NoSerialize(e)
    }
}

impl FromSpecImpl<NoSerializeError> for Error {
    open spec fn obeys_from_spec() -> bool {
        true
    }

    open spec fn from_spec(e: NoSerializeError) -> Error {
        Error::NoSerialize(e)
    }
}

impl From<RequestPanicked> for Error {
    fn from(e: RequestPanicked) -> (err: Error) {
        Error::Panic(e)
    }
}

impl FromSpecImpl<RequestPanicked> for Error {
    open spec fn obeys_from_spec() -> bool {
        true
    }

    open spec fn from_spec(e: RequestPanicked) -> Error {
        Error::Panic(e)
    }
}

/// Flatten a `Result` of a `Result` where the outer's error type is
/// convertible to this crate's error: the inner result where the outer is
/// `Ok`, the outer error, converted, where it is not.
pub fn flatten_res<T, E>(res: Result<Result<T, Error>, E>) -> (flat: Result<T, Error>) where
    Error: From<E>,

    ensures
        res matches Ok(inner) ==> flat == inner,
        res matches Err(e) ==> (flat matches Err(err) && call_ensures(
            <Error as From<E>>::from,
            (e,),
            err,
        )),
{
    match res {
        Ok(inner) => inner,
        Err(e) => Err(Error::from(e)),
    }
}

} // verus!
