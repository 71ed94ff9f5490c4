//! The content types that this crate sets on request bodies.

use vstd::prelude::*;
use vstd::string::StringExecFns;

verus! {

/// A content type, as far as the crate tells content types apart.
#[derive(Debug)]
pub enum Mime {
    /// `application/octet-stream`
    OctetStream,
    /// `application/json`
    Json,
    /// `application/x-www-form-urlencoded`
    FormUrlEncoded,
    /// `multipart/form-data` with the boundary between the parts
    FormData(String),
    /// `text/plain; charset=utf-8`
    TextPlainUtf8,
    /// Any other content type, written out
    Other(String),
}

impl Mime {
    /// The content type as the text of a header value.
    pub open spec fn text(&self) -> Seq<char> {
        match self {
            Mime::OctetStream => "application/octet-stream"@,
            Mime::Json => "application/json"@,
            Mime::FormUrlEncoded => "application/x-www-form-urlencoded"@,
            Mime::FormData(boundary) => "multipart/form-data; boundary="@ + boundary@,
            Mime::TextPlainUtf8 => "text/plain; charset=utf-8"@,
            Mime::Other(text) => text@,
        }
    }

    /// The content type as the text of a header value.
    pub fn to_text(&self) -> (s: String)
        ensures
            s@ == self.text(),
    {
        match self {
            Mime::OctetStream => String::from_str("application/octet-stream"),
            Mime::Json => String::from_str("application/json"),
            Mime::FormUrlEncoded => String::from_str("application/x-www-form-urlencoded"),
            Mime::FormData(boundary) => String::from_str("multipart/form-data; boundary=").concat(
                boundary.as_str(),
            ),
            Mime::TextPlainUtf8 => String::from_str("text/plain; charset=utf-8"),
            Mime::Other(text) => text.clone(),
        }
    }

    /// A copy of the content type.
    pub fn duplicate(&self) -> (m: Mime)
        ensures
            m.text() == self.text(),
            m.same_kind(self),
    {
        match self {
            Mime::OctetStream => Mime::OctetStream,
            Mime::Json => Mime::Json,
            Mime::FormUrlEncoded => Mime::FormUrlEncoded,
            Mime::FormData(boundary) => Mime::FormData(boundary.clone()),
            Mime::TextPlainUtf8 => Mime::TextPlainUtf8,
            Mime::Other(text) => Mime::Other(text.clone()),
        }
    }

    /// Whether two content types are the same variant.
    pub open spec fn same_kind(&self, other: &Mime) -> bool {
        match (self, other) {
            (Mime::OctetStream, Mime::OctetStream) => true,
            (Mime::Json, Mime::Json) => true,
            (Mime::FormUrlEncoded, Mime::FormUrlEncoded) => true,
            (Mime::FormData(a), Mime::FormData(b)) => a@ == b@,
            (Mime::TextPlainUtf8, Mime::TextPlainUtf8) => true,
            (Mime::Other(a), Mime::Other(b)) => a@ == b@,
            _ => false,
        }
    }
}

/// `application/octet-stream`
pub fn octet_stream() -> (m: Mime)
    ensures
        m == Mime::OctetStream,
{
    Mime::OctetStream
}

/// `application/json`
pub fn json() -> (m: Mime)
    ensures
        m == Mime::Json,
{
    Mime::Json
}

/// `application/x-www-form-urlencoded`
pub fn form_urlencoded() -> (m: Mime)
    ensures
        m == Mime::FormUrlEncoded,
{
    Mime::FormUrlEncoded
}

/// `multipart/form-data; boundary={boundary}`
pub fn formdata(boundary: &str) -> (m: Mime)
    ensures
        m matches Mime::FormData(b) && b@ == boundary@,
{
    Mime::FormData(String::from_str(boundary))
}

/// `text/plain; charset=utf-8`
pub fn text_plain_utf8() -> (m: Mime)
    ensures
        m == Mime::TextPlainUtf8,
{
    Mime::TextPlainUtf8
}

} // verus!
