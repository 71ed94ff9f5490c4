//! Types for modifying outgoing requests on-the-fly, e.g. to add headers or
//! query parameters.

use crate::net::request::{form_urlencoded, pairs_text, percent_encoded, with_header, Head, RequestHead};
use vstd::prelude::*;
use vstd::string::StringExecFns;

verus! {

/// A type which may intercept and modify outgoing requests from an adapter
/// instance.
pub trait Interceptor: Sized {
    /// What the interceptor makes of a request head.
    spec fn applied(&self, head: Head) -> Head;

    /// Modify the request head in any way desired.
    ///
    /// Great care must be taken to not introduce logic errors in service
    /// methods (i.e. by changing their endpoints such that they receive
    /// unexpected responses).
    fn intercept(&self, req: &mut RequestHead)
        ensures
            final(req)@ == self.applied(old(req)@),
    ;
}

/// Chain `first` with `then`, invoking `first` then `then` for each request.
pub fn chain<I1: Interceptor, I2: Interceptor>(first: I1, then: I2) -> (chained: Chain<I1, I2>)
    ensures
        chained == Chain(first, then),
{
    Chain(first, then)
}

/// Chain `first` with two more interceptors.
pub fn chain2<I1: Interceptor, I2: Interceptor, I3: Interceptor>(
    first: I1,
    then: I2,
    after: I3,
) -> (chained: Chain2<I1, I2, I3>)
    ensures
        chained == Chain2(first, then, after),
{
    Chain2(first, then, after)
}

/// Chains one interceptor with another, invoking them in declaration order.
#[derive(Debug)]
pub struct Chain<I1, I2>(pub I1, pub I2);

impl<I1: Interceptor, I2: Interceptor> Interceptor for Chain<I1, I2> {
    open spec fn applied(&self, head: Head) -> Head {
        self.1.applied(self.0.applied(head))
    }

    fn intercept(&self, req: &mut RequestHead) {
        self.0.intercept(req);
        self.1.intercept(req);
    }
}

/// Chains one interceptor with two more, invoking them in declaration order.
#[derive(Debug)]
pub struct Chain2<I1, I2, I3>(pub I1, pub I2, pub I3);

impl<I1: Interceptor, I2: Interceptor, I3: Interceptor> Interceptor for Chain2<I1, I2, I3> {
    open spec fn applied(&self, head: Head) -> Head {
        self.2.applied(self.1.applied(self.0.applied(head)))
    }

    fn intercept(&self, req: &mut RequestHead) {
        self.0.intercept(req);
        self.1.intercept(req);
        self.2.intercept(req);
    }
}

/// A no-op interceptor which does nothing when invoked.
#[derive(Debug)]
pub struct NoIntercept;

impl Interceptor for NoIntercept {
    open spec fn applied(&self, head: Head) -> Head {
        head
    }

    fn intercept(&self, _req: &mut RequestHead) {
    }
}

/// Adds the wrapped header, a name and a value, to every request.
///
/// To add multiple headers to one request, chain this interceptor with
/// another.
#[derive(Debug)]
pub struct AddHeader(pub String, pub String);

impl Interceptor for AddHeader {
    open spec fn applied(&self, head: Head) -> Head {
        Head { headers: with_header(head.headers, self.0@, self.1@), ..head }
    }

    fn intercept(&self, req: &mut RequestHead) {
        req.header(self.0.clone(), self.1.clone());
    }
}

/// Prepends the given string to every request's URL.
///
/// This is done *before* the adapter prepends the base URL. To override the
/// base URL, use a different adapter.
#[derive(Debug)]
pub struct PrependUrl(pub String);

impl PrependUrl {
    /// Wrap a string.
    pub fn new(url: &str) -> (interceptor: Self)
        ensures
            interceptor.0@ == url@,
    {
        PrependUrl(String::from_str(url))
    }
}

impl Interceptor for PrependUrl {
    open spec fn applied(&self, head: Head) -> Head {
        Head { url: self.0@ + head.url, ..head }
    }

    fn intercept(&self, req: &mut RequestHead) {
        req.prepend_url(self.0.as_str());
    }
}

/// Appends the given string to every request's URL.
///
/// This is done *before* the adapter prepends the base URL. To override the
/// base URL, use a different adapter.
#[derive(Debug)]
pub struct AppendUrl(pub String);

impl AppendUrl {
    /// Wrap a string.
    pub fn new(url: &str) -> (interceptor: Self)
        ensures
            interceptor.0@ == url@,
    {
        AppendUrl(String::from_str(url))
    }
}

impl Interceptor for AppendUrl {
    open spec fn applied(&self, head: Head) -> Head {
        Head { url: head.url + percent_encoded(self.0@), ..head }
    }

    fn intercept(&self, req: &mut RequestHead) {
        req.append_url(self.0.as_str());
    }
}

/// Appends the given query pairs to every request.
///
/// Meant to be used in a builder style by calling `pair()` repeatedly.
///
/// This will not overwrite previous query pairs with the same key; it is
/// left to the server to decide which duplicate keys to keep.
#[derive(Debug)]
pub struct AppendQuery(Vec<(String, String)>);

impl AppendQuery {
    /// The pairs that the interceptor appends, in their order.
    pub closed spec fn view(&self) -> Seq<(Seq<char>, Seq<char>)> {
        pairs_text(self.0@)
    }

    /// Create an empty vector of pairs.
    ///
    /// Meant to be used in a builder style.
    pub fn new() -> (interceptor: Self)
        ensures
            interceptor@ == Seq::<(Seq<char>, Seq<char>)>::empty(),
    {
        let interceptor = AppendQuery(Vec::new());
        assert(interceptor@ =~= Seq::<(Seq<char>, Seq<char>)>::empty());
        interceptor
    }

    /// Add a query key-value pair to this interceptor. Returns `self` for
    /// builder-style usage.
    pub fn pair(self, key: &str, val: &str) -> (interceptor: Self)
        ensures
            interceptor@ == self@.push((key@, val@)),
    {
        let mut interceptor = self;
        interceptor.pair_mut(key, val);
        interceptor
    }

    /// Add a query key-value pair to this interceptor. Returns `&mut self`
    /// for builder-style usage.
    pub fn pair_mut(&mut self, key: &str, val: &str) -> (this: &mut Self)
        ensures
            this@ == old(self)@.push((key@, val@)),
            *final(self) == *final(this),
    {
        self.0.push((String::from_str(key), String::from_str(val)));
        assert(self@ =~= old(self)@.push((key@, val@)));
        self
    }
}

impl Interceptor for AppendQuery {
    open spec fn applied(&self, head: Head) -> Head {
        Head { query: form_urlencoded(head.query, self@), ..head }
    }

    fn intercept(&self, req: &mut RequestHead) {
        req.query(&self.0);
    }
}

} // verus!
