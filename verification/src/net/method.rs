//! Strongly typed HTTP methods and their traits.

use vstd::prelude::*;

verus! {

/// The HTTP method as it goes on the wire.
#[derive(Clone, Copy, Debug, PartialEq, Eq, Structural)]
pub enum HttpMethod {
    /// `GET`
    Get,
    /// `POST`
    Post,
    /// `PUT`
    Put,
    /// `PATCH`
    Patch,
    /// `DELETE`
    Delete,
}

impl HttpMethod {
    /// The method's name as it goes on the wire.
    pub open spec fn name(self) -> Seq<char> {
        match self {
            HttpMethod::Get => "GET"@,
            HttpMethod::Post => "POST"@,
            HttpMethod::Put => "PUT"@,
            HttpMethod::Patch => "PATCH"@,
            HttpMethod::Delete => "DELETE"@,
        }
    }

    /// The method's name as it goes on the wire.
    pub fn as_str(&self) -> (s: &'static str)
        ensures
            s@ == self.name(),
    {
        match self {
            HttpMethod::Get => "GET",
            HttpMethod::Post => "POST",
            HttpMethod::Put => "PUT",
            HttpMethod::Patch => "PATCH",
            HttpMethod::Delete => "DELETE",
        }
    }

    /// Whether a request with this method is meant to carry a body.
    pub open spec fn takes_body(self) -> bool {
        self == HttpMethod::Post || self == HttpMethod::Put || self == HttpMethod::Patch
    }
}

/// The HTTP method of a request, as a type.
pub trait Method {
    /// The method that the type stands for.
    spec fn wire(&self) -> HttpMethod;

    /// Convert to the method as it goes on the wire.
    fn to_hyper(&self) -> (m: HttpMethod)
        ensures
            m == self.wire(),
    ;
}

/// An HTTP method which is allowed to have a body.
///
/// `GET` and `DELETE` requests are not meant to have bodies, and servers are
/// advised to ignore them; this trait keeps a body off such a request unless
/// it is forced on.
pub trait TakesBody: Method {
    /// Every method that is allowed a body is one that carries one.
    proof fn carries_body(&self)
        ensures
            self.wire().takes_body(),
    ;
}

/// Method for `GET` requests.
#[derive(Debug)]
pub struct Get;

/// Method for `POST` requests, can take a body.
#[derive(Debug)]
pub struct Post;

/// Method for `PUT` requests, can take a body.
#[derive(Debug)]
pub struct Put;

/// Method for `PATCH` requests, can take a body.
#[derive(Debug)]
pub struct Patch;

/// Method for `DELETE` requests.
#[derive(Debug)]
pub struct Delete;

impl Method for Get {
    open spec fn wire(&self) -> HttpMethod {
        HttpMethod::Get
    }

    fn to_hyper(&self) -> (m: HttpMethod) {
        HttpMethod::Get
    }
}

impl Method for Post {
    open spec fn wire(&self) -> HttpMethod {
        HttpMethod::Post
    }

    fn to_hyper(&self) -> (m: HttpMethod) {
        HttpMethod::Post
    }
}

impl Method for Put {
    open spec fn wire(&self) -> HttpMethod {
        HttpMethod::Put
    }

    fn to_hyper(&self) -> (m: HttpMethod) {
        HttpMethod::Put
    }
}

impl Method for Patch {
    open spec fn wire(&self) -> HttpMethod {
        HttpMethod::Patch
    }

    fn to_hyper(&self) -> (m: HttpMethod) {
        HttpMethod::Patch
    }
}

impl Method for Delete {
    open spec fn wire(&self) -> HttpMethod {
        HttpMethod::Delete
    }

    fn to_hyper(&self) -> (m: HttpMethod) {
        HttpMethod::Delete
    }
}

impl TakesBody for Post {
    proof fn carries_body(&self) {
    }
}

impl TakesBody for Put {
    proof fn carries_body(&self) {
    }
}

impl TakesBody for Patch {
    proof fn carries_body(&self) {
    }
}

} // verus!
