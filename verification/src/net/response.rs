//! Types concerning the responses from REST calls.

use crate::error::Error;
use crate::serialize::{reader, Deserializer, Reader};
use vstd::prelude::*;

verus! {

/// A response as it was read from the transport: the status and the body.
#[derive(Debug)]
pub struct Response {
    /// The status code of the response.
    pub status: u16,
    /// The body of the response.
    pub body: Vec<u8>,
}

/// A type which can be converted from a raw response.
///
/// Use `Raw` if you just want the response, or `WithRaw` or `TryWithRaw` if
/// you want the response and the deserialized value.
pub trait FromResponse: Sized {
    /// Whether `response`, converted with `des`, may give `res`.
    spec fn converts(des: Reader, response: Response, res: core::result::Result<Self, Error>) -> bool;

    /// Deserialize or otherwise convert an instance of `Self` from
    /// `response`.
    fn from_response<D: Deserializer>(des: &D, response: Response) -> (res: core::result::Result<
        Self,
        Error,
    >)
        ensures
            Self::converts(reader(des), response, res),
    ;
}

impl FromResponse for String {
    /// What the deserializer makes of the body.
    open spec fn converts(
        des: Reader,
        response: Response,
        res: core::result::Result<Self, Error>,
    ) -> bool {
        (des.reads)(response.body@, res)
    }

    fn from_response<D: Deserializer>(des: &D, response: Response) -> (res: core::result::Result<
        Self,
        Error,
    >) {
        des.deserialize(&response.body)
    }
}

/// Wrapper for a response.
///
/// Use this as a service method return type when you want to just get the
/// raw response from a REST call.
#[derive(Debug)]
pub struct Raw(pub Response);

impl Raw {
    /// The response that was wrapped.
    pub fn into(self) -> (response: Response)
        ensures
            response == self.0,
    {
        self.0
    }
}

impl FromResponse for Raw {
    /// Simple wrapping operation; infallible.
    open spec fn converts(
        des: Reader,
        response: Response,
        res: core::result::Result<Self, Error>,
    ) -> bool {
        res == Ok::<Raw, Error>(Raw(response))
    }

    fn from_response<D: Deserializer>(_des: &D, response: Response) -> (res: core::result::Result<
        Self,
        Error,
    >) {
        Ok(Raw(response))
    }
}

/// Wrapper for the parsed response value along with the raw response.
///
/// Use this as a service method return type when you want to inspect the
/// response after the true return value has been deserialized.
#[derive(Debug)]
pub struct WithRaw<T> {
    /// The raw response.
    pub raw: Response,
    /// The deserialized value.
    pub value: T,
}

impl FromResponse for WithRaw<String> {
    /// The value that the deserializer makes of the body, beside the
    /// response; the deserializer's error where it fails.
    open spec fn converts(
        des: Reader,
        response: Response,
        res: core::result::Result<Self, Error>,
    ) -> bool {
        match res {
            Ok(with) => with.raw == response && (des.reads)(
                response.body@,
                Ok::<String, Error>(with.value),
            ),
            Err(e) => (des.reads)(response.body@, Err::<String, Error>(e)),
        }
    }

    fn from_response<D: Deserializer>(des: &D, response: Response) -> (res: core::result::Result<
        Self,
        Error,
    >) {
        match des.deserialize(&response.body) {
            Ok(val) => Ok(WithRaw { raw: response, value: val }),
            Err(e) => Err(e),
        }
    }
}

/// Wrapper for the deserialization result along with the raw response.
///
/// Use this as a service method return type if you want the raw response
/// whether or not deserialization of the true return type succeeded.
#[derive(Debug)]
pub struct TryWithRaw<T> {
    /// The raw response.
    pub raw: Response,
    /// The result of attempting to deserialize the value.
    pub result: core::result::Result<T, Error>,
}

impl<T> TryWithRaw<T> {
    /// The result of attempting to deserialize the value.
    pub fn into(self) -> (result: core::result::Result<T, Error>)
        ensures
            result == self.result,
    {
        self.result
    }
}

impl FromResponse for TryWithRaw<String> {
    /// Always the response, with what the deserializer made of its body.
    open spec fn converts(
        des: Reader,
        response: Response,
        res: core::result::Result<Self, Error>,
    ) -> bool {
        res matches Ok(with) && with.raw == response && (des.reads)(response.body@, with.result)
    }

    fn from_response<D: Deserializer>(des: &D, response: Response) -> (res: core::result::Result<
        Self,
        Error,
    >) {
        let res = des.deserialize(&response.body);
        Ok(TryWithRaw { raw: response, result: res })
    }
}

} // verus!
