//! Types for constructing and issuing HTTP requests.

use crate::error::Error;
use crate::mpmc::{JobQueue, Sender, Wake};
use crate::net::body::{Body, EagerBody, EmptyFields, RawBody, Readable};
use crate::net::call::{immediate, oneshot, Call, CallState, PanicGuard};
use crate::net::intercept::Interceptor;
use crate::net::method::{HttpMethod, Method, TakesBody};
use crate::net::response::{FromResponse, Response};
use crate::serialize::{reader, writer, Deserializer, Serializer};
use hyper::header::Headers;
use url::form_urlencoded::Serializer as FormUrlEncoded;
use url::percent_encoding::{utf8_percent_encode, DEFAULT_ENCODE_SET};
use url::Url;
use vstd::prelude::*;
use vstd::string::StringExecFns;
use vstd::string::StringSliceAdditionalSpecFns;

verus! {

/// A list of pairs of texts, as contracts see it.
pub open spec fn pairs_text(pairs: Seq<(String, String)>) -> Seq<(Seq<char>, Seq<char>)> {
    pairs.map_values(|p: (String, String)| (p.0@, p.1@))
}

/// Whether a byte stands for itself in the path of a URL: a printable ASCII
/// character other than the space, `"`, `#`, `<`, `>`, `` ` ``, `?`, `{`
/// and `}`.
pub open spec fn stands_for_itself(byte: u8) -> bool {
    0x20 < byte <= 0x7E && byte != 0x22 && byte != 0x23 && byte != 0x3C && byte != 0x3E && byte
        != 0x60 && byte != 0x3F && byte != 0x7B && byte != 0x7D
}

/// The hexadecimal digit for a number below sixteen, in capitals.
pub open spec fn hex_digit(n: u8) -> char {
    if n < 10 {
        (0x30 + n) as char
    } else {
        (0x37 + n) as char
    }
}

/// A byte as the path of a URL holds it: itself, or `%` and its two
/// hexadecimal digits.
pub open spec fn encoded_byte(byte: u8) -> Seq<char> {
    if stands_for_itself(byte) {
        seq![byte as char]
    } else {
        seq!['%', hex_digit(byte / 16), hex_digit(byte % 16)]
    }
}

/// The bytes as the path of a URL holds them, one after the other.
pub open spec fn encoded_bytes(bytes: Seq<u8>) -> Seq<char>
    decreases bytes.len(),
{
    if bytes.len() == 0 {
        Seq::empty()
    } else {
        encoded_bytes(bytes.drop_last()) + encoded_byte(bytes.last())
    }
}

/// A text as the path of a URL holds it: the bytes of its UTF-8 encoding,
/// each standing for itself or percent-encoded.
pub open spec fn percent_encoded(input: Seq<char>) -> Seq<char> {
    encoded_bytes(vstd::utf8::encode_utf8(input))
}

/// What `url::form_urlencoded::Serializer` leaves in `target` after the pairs
/// were appended to it in `application/x-www-form-urlencoded` syntax.
pub uninterp spec fn form_urlencoded(target: Seq<char>, pairs: Seq<(Seq<char>, Seq<char>)>) -> Seq<
    char,
>;

/// `url::percent_encoding::utf8_percent_encode` with `DEFAULT_ENCODE_SET`,
/// collected into one string: every byte of the text that is a control, not
/// ASCII, or one of the characters of the set is written as `%` and two
/// hexadecimal digits in capitals, every other byte as it is.
#[verifier::external_body]
pub(crate) fn percent_encode(input: &str) -> (encoded: String)
    ensures
        encoded@ == percent_encoded(input@),
{
    utf8_percent_encode(input, DEFAULT_ENCODE_SET).collect()
}

/// `url::form_urlencoded::Serializer`: a serializer made for `target` takes
/// the pairs in their order and gives the target back; the result is a
/// function of the target and the pairs alone.
#[verifier::external_body]
pub(crate) fn form_urlencode(target: String, pairs: &Vec<(String, String)>) -> (encoded: String)
    ensures
        encoded@ == form_urlencoded(target@, pairs_text(pairs@)),
{
    FormUrlEncoded::new(target).extend_pairs(pairs.iter()).finish()
}

/// What `url::Url::parse` makes of a text: the URL in its serialized form,
/// or the words of the parse error.
pub uninterp spec fn parsed_url(input: Seq<char>) -> core::result::Result<Seq<char>, Seq<char>>;

/// What `url::Url::join` makes of a text with `base` as the base URL, where
/// `base` is the text of the base URL: the URL in its serialized form, or
/// the words of the parse error.
pub uninterp spec fn joined_url(base: Seq<char>, input: Seq<char>) -> core::result::Result<
    Seq<char>,
    Seq<char>,
>;

/// What `url::Url::set_query` leaves of the URL with the text `url`, once
/// `query` was set as its query: the URL in its serialized form, or the
/// words of the parse error where `url` is the text of no URL.
pub uninterp spec fn url_with_query(url: Seq<char>, query: Seq<char>) -> core::result::Result<
    Seq<char>,
    Seq<char>,
>;

/// `url::Url::parse`: the result is a function of the text alone.
#[verifier::external_body]
fn url_parse(input: &str) -> (url: core::result::Result<String, String>)
    ensures
        match url {
            Ok(u) => parsed_url(input@) == Ok::<Seq<char>, Seq<char>>(u@),
            Err(e) => parsed_url(input@) == Err::<Seq<char>, Seq<char>>(e@),
        },
{
    match Url::parse(input) {
        Ok(url) => Ok(url.into_string()),
        Err(e) => Err(e.to_string()),
    }
}

/// `url::Url::join` on the URL that `base` parses to: the result is a
/// function of the two texts alone.
#[verifier::external_body]
fn url_join(base: &str, input: &str) -> (url: core::result::Result<String, String>)
    ensures
        match url {
            Ok(u) => joined_url(base@, input@) == Ok::<Seq<char>, Seq<char>>(u@),
            Err(e) => joined_url(base@, input@) == Err::<Seq<char>, Seq<char>>(e@),
        },
{
    match Url::parse(base).and_then(|b| b.join(input)) {
        Ok(url) => Ok(url.into_string()),
        Err(e) => Err(e.to_string()),
    }
}

/// The number of bytes that a URL and a query may each have where a query
/// is set: short enough that what the `url` crate makes of the two, which
/// it keeps under four gigabytes, stays well below that.
pub const URL_LIMIT: usize = 0x1000_0000;

/// Whether a text is short enough for a URL or a query.
pub open spec fn fits(text: Seq<char>) -> bool {
    vstd::utf8::encode_utf8(text).len() <= URL_LIMIT
}

/// `url::Url::set_query` on the URL that `url` parses to: the result is a
/// function of the two texts alone. The outside function panics where the
/// URL with its query and fragment comes to more than `u32::MAX` bytes,
/// which `requires` leaves out with room to spare.
#[verifier::external_body]
fn url_set_query(url: &str, query: &str) -> (set: core::result::Result<String, String>)
    requires
        fits(url@),
        fits(query@),
    ensures
        match set {
            Ok(u) => url_with_query(url@, query@) == Ok::<Seq<char>, Seq<char>>(u@),
            Err(e) => url_with_query(url@, query@) == Err::<Seq<char>, Seq<char>>(e@),
        },
{
    match Url::parse(url) {
        Ok(mut url) => {
            url.set_query(Some(query));
            Ok(url.into_string())
        },
        Err(e) => Err(e.to_string()),
    }
}

/// The text of `to` with `prepend` put in front of it.
pub(crate) fn prepend_str(prepend: &str, to: &mut String)
    ensures
        final(to)@ == prepend@ + old(to)@,
{
    let mut whole = String::from_str(prepend);
    whole.append(to.as_str());
    *to = whole;
}

/// The request header, containing all the information needed to initialize a
/// request.
#[derive(Debug)]
pub struct RequestHead {
    url: String,
    query: String,
    method: HttpMethod,
    headers: Headers,
}

/// A request head, as contracts see it.
pub struct Head {
    /// The URL of the request, without the base URL and the query.
    pub url: Seq<char>,
    /// The query string of the request.
    pub query: Seq<char>,
    /// The HTTP method of the request.
    pub method: HttpMethod,
    /// The headers of the request, by name and value, in the order set.
    pub headers: Seq<(Seq<char>, Seq<char>)>,
}

impl Head {
    /// The URL that a request with this head goes to: the request's URL
    /// joined to `base_url` where one is given, else parsed as it is, and
    /// then the query set; or the words of the parse error. A URL or a
    /// query of more than `URL_LIMIT` bytes is an error of its own.
    pub open spec fn target(self, base_url: Option<Seq<char>>) -> core::result::Result<
        Seq<char>,
        Seq<char>,
    > {
        let joined = match base_url {
            Some(base) => joined_url(base, self.url),
            None => parsed_url(self.url),
        };
        match joined {
            Ok(url) => if fits(url) && fits(self.query) {
                url_with_query(url, self.query)
            } else {
                Err("URL or query longer than 256 MiB"@)
            },
            Err(e) => Err(e),
        }
    }
}

/// The text of a base URL, if there is one.
pub open spec fn base_text(base_url: Option<&str>) -> Option<Seq<char>> {
    match base_url {
        Some(b) => Some(b@),
        None => None,
    }
}

/// Whether a character is an ASCII capital letter.
pub open spec fn is_capital(c: char) -> bool {
    65 <= c as u32 <= 90
}

/// Whether two characters are the same but for the case of an ASCII letter.
pub open spec fn same_letter(a: char, b: char) -> bool {
    a == b || (is_capital(a) && b as u32 == a as u32 + 32) || (is_capital(b) && a as u32
        == b as u32 + 32)
}

/// Whether two header names are the same: header names are told apart
/// without regard to the case of ASCII letters.
pub open spec fn same_name(a: Seq<char>, b: Seq<char>) -> bool {
    a.len() == b.len() && forall|i: int| 0 <= i < a.len() ==> same_letter(#[trigger] a[i], b[i])
}

/// The index of the first header with the given name, if there is one.
pub open spec fn header_index(headers: Seq<(Seq<char>, Seq<char>)>, name: Seq<char>) -> Option<
    int,
>
    decreases headers.len(),
{
    if headers.len() == 0 {
        None
    } else {
        match header_index(headers.drop_last(), name) {
            Some(i) => Some(i),
            None => if same_name(headers.last().0, name) {
                Some(headers.len() - 1)
            } else {
                None
            },
        }
    }
}

/// The headers after one was set: a header of that name, whatever the case
/// of its letters, gives way to the new name and value where it stands; a
/// new name goes to the end.
pub open spec fn with_header(
    headers: Seq<(Seq<char>, Seq<char>)>,
    name: Seq<char>,
    value: Seq<char>,
) -> Seq<(Seq<char>, Seq<char>)> {
    match header_index(headers, name) {
        Some(i) => headers.update(i, (name, value)),
        None => headers.push((name, value)),
    }
}

/// The headers after a list of them was set, one after the other.
pub open spec fn with_headers(
    headers: Seq<(Seq<char>, Seq<char>)>,
    more: Seq<(Seq<char>, Seq<char>)>,
) -> Seq<(Seq<char>, Seq<char>)>
    decreases more.len(),
{
    if more.len() == 0 {
        headers
    } else {
        with_header(with_headers(headers, more.drop_last()), more.last().0, more.last().1)
    }
}

/// `hyper::header::Headers`: nothing is seen inside it; what it holds is
/// told by `listed`.
#[verifier::external_type_specification]
#[verifier::external_body]
pub struct ExHeaders(Headers);

/// The header fields that a `hyper::header::Headers` holds, by name and
/// value, in the order in which it walks them.
pub uninterp spec fn listed(headers: Headers) -> Seq<(Seq<char>, Seq<char>)>;

/// `Headers::new`: the new map holds no field.
#[verifier::external_body]
fn headers_new() -> (headers: Headers)
    ensures
        listed(headers) == Seq::<(Seq<char>, Seq<char>)>::empty(),
{
    Headers::new()
}

/// `Headers::set_raw` with the value as the one line of the field: the
/// first field whose name matches without regard to the case of ASCII
/// letters gives way to the new name and value where it stands; where none
/// matches, the field goes to the end.
#[verifier::external_body]
fn headers_set(headers: &mut Headers, name: String, value: String)
    ensures
        listed(*final(headers)) == with_header(listed(*old(headers)), name@, value@),
{
    headers.set_raw(name, vec![value.into_bytes()])
}

/// `Headers::iter` and `Headers::get_raw`: the fields of the map in its
/// order, each with its name and the bytes of its value as a text.
#[verifier::external_body]
fn headers_list(headers: &Headers) -> (list: Vec<(String, String)>)
    ensures
        pairs_text(list@) == listed(*headers),
{
    headers.iter().map(
        |field|
            {
                let value = headers.get_raw(field.name()).map(|l| l.concat()).unwrap_or_default();
                (field.name().to_string(), String::from_utf8_lossy(&value).into_owned())
            },
    ).collect()
}

impl RequestHead {
    /// The URL of the request, without the base URL and the query.
    pub closed spec fn url(&self) -> Seq<char> {
        self.url@
    }

    /// The query string of the request.
    pub closed spec fn query_text(&self) -> Seq<char> {
        self.query@
    }

    /// The HTTP method of the request.
    pub closed spec fn method(&self) -> HttpMethod {
        self.method
    }

    /// The headers of the request, by name and value, in the order set.
    pub closed spec fn header_list(&self) -> Seq<(Seq<char>, Seq<char>)> {
        listed(self.headers)
    }

    /// The head, as contracts see it.
    pub open spec fn view(&self) -> Head {
        Head {
            url: self.url(),
            query: self.query_text(),
            method: self.method(),
            headers: self.header_list(),
        }
    }

    /// What a head with the given parts is shown as: the method, a space, the
    /// URL and the query.
    pub open spec fn shown(&self) -> Seq<char> {
        self.method().name() + " "@ + self.url() + self.query_text()
    }

    /// A head for the given method and URL, with no query and no headers.
    pub fn new(method: HttpMethod, url: String) -> (head: Self)
        ensures
            head.url() == url@,
            head.query_text() == Seq::<char>::empty(),
            head.method() == method,
            head.header_list() == Seq::<(Seq<char>, Seq<char>)>::empty(),
    {
        RequestHead { url, query: String::new(), method, headers: headers_new() }
    }

    /// Set an HTTP header for this request, overwriting any previous value
    /// under the same name. Names that differ only in the case of ASCII
    /// letters are the same name.
    pub fn header(&mut self, name: String, value: String)
        ensures
            final(self).header_list() == with_header(old(self).header_list(), name@, value@),
            final(self).url() == old(self).url(),
            final(self).query_text() == old(self).query_text(),
            final(self).method() == old(self).method(),
    {
        headers_set(&mut self.headers, name, value);
    }

    /// Set every header of `headers`, one after the other, overwriting any
    /// previous value under the same name.
    pub fn headers(&mut self, headers: &Vec<(String, String)>)
        ensures
            final(self).header_list() == with_headers(
                old(self).header_list(),
                pairs_text(headers@),
            ),
            final(self).url() == old(self).url(),
            final(self).query_text() == old(self).query_text(),
            final(self).method() == old(self).method(),
    {
        let mut i: usize = 0;
        while i < headers.len()
            invariant
                i <= headers.len(),
                self.header_list() == with_headers(
                    old(self).header_list(),
                    pairs_text(headers@).take(i as int),
                ),
                self.url() == old(self).url(),
                self.query_text() == old(self).query_text(),
                self.method() == old(self).method(),
            decreases headers.len() - i,
        {
            let name = headers[i].0.clone();
            let value = headers[i].1.clone();
            proof {
                let all = pairs_text(headers@);
                assert(all.take(i + 1).drop_last() =~= all.take(i as int));
                assert(all.take(i + 1).last() == (name@, value@));
            }
            self.header(name, value);
            i = i + 1;
        }
        assert(pairs_text(headers@).take(i as int) =~= pairs_text(headers@));
    }

    /// Append `append` to the URL of this request, percent-encoded as for
    /// the path of a URL. A query added this way will not work, as `?` and
    /// `=` are encoded: use `query` for that.
    pub fn append_url(&mut self, append: &str)
        ensures
            final(self).url() == old(self).url() + percent_encoded(append@),
            final(self).query_text() == old(self).query_text(),
            final(self).method() == old(self).method(),
            final(self).header_list() == old(self).header_list(),
    {
        let encoded = percent_encode(append);
        self.url.append(encoded.as_str());
    }

    /// Prepend `prepend` to the URL of this request, as it is: nothing is
    /// percent-encoded.
    pub fn prepend_url(&mut self, prepend: &str)
        ensures
            final(self).url() == prepend@ + old(self).url(),
            final(self).query_text() == old(self).query_text(),
            final(self).method() == old(self).method(),
            final(self).header_list() == old(self).header_list(),
    {
        prepend_str(prepend, &mut self.url);
    }

    /// Add key-value pairs to this request's query, behind those that it
    /// has, percent-encoded as a form is. Duplicate keys are left to the
    /// server.
    pub fn query(&mut self, query: &Vec<(String, String)>)
        ensures
            final(self).query_text() == form_urlencoded(
                old(self).query_text(),
                pairs_text(query@),
            ),
            final(self).url() == old(self).url(),
            final(self).method() == old(self).method(),
            final(self).header_list() == old(self).header_list(),
    {
        let mut before = String::new();
        core::mem::swap(&mut self.query, &mut before);
        self.query = form_urlencode(before, query);
    }

    /// Append key-value pairs to this request's query, behind those that it
    /// has, percent-encoded as a form is.
    pub fn append_query(&mut self, query: &Vec<(String, String)>)
        ensures
            final(self).query_text() == form_urlencoded(
                old(self).query_text(),
                pairs_text(query@),
            ),
            final(self).url() == old(self).url(),
            final(self).method() == old(self).method(),
            final(self).header_list() == old(self).header_list(),
    {
        self.query(query);
    }

    /// Initialize a request with the parameters in this header: the URL
    /// that the request goes to.
    ///
    /// If provided, `base_url` will be prepended to the URL associated with
    /// this request, *then* the constructed query will be set to the URL. A
    /// URL that does not parse gives `Error::Url` with the words of the
    /// parse error, and so does a URL or a query of more than `URL_LIMIT`
    /// bytes.
    pub fn init_request(&self, base_url: Option<&str>) -> (url: core::result::Result<String, Error>)
        ensures
            match self@.target(base_text(base_url)) {
                Ok(u) => url matches Ok(text) && text@ == u,
                Err(e) => url matches Err(Error::Url(text)) && text@ == e,
            },
    {
        let joined = match base_url {
            Some(base) => url_join(base, self.url.as_str()),
            None => url_parse(self.url.as_str()),
        };
        match joined {
            Ok(url) => if url.as_str().as_bytes().len() <= URL_LIMIT
                && self.query.as_str().as_bytes().len() <= URL_LIMIT {
                match url_set_query(url.as_str(), self.query.as_str()) {
                    Ok(url) => Ok(url),
                    Err(e) => Err(Error::Url(e)),
                }
            } else {
                Err(Error::Url(String::from_str("URL or query longer than 256 MiB")))
            },
            Err(e) => Err(Error::Url(e)),
        }
    }

    /// Get the current URL of this request.
    pub fn get_url(&self) -> (url: &str)
        ensures
            url@ == self.url(),
    {
        self.url.as_str()
    }

    /// Get the current query string of this request.
    pub fn get_query(&self) -> (query: &str)
        ensures
            query@ == self.query_text(),
    {
        self.query.as_str()
    }

    /// Get the HTTP method of this request.
    pub fn get_method(&self) -> (method: &HttpMethod)
        ensures
            *method == self.method(),
    {
        &self.method
    }

    /// Get the headers of this request (may be modified later).
    pub fn get_headers(&self) -> (headers: &Headers)
        ensures
            listed(*headers) == self.header_list(),
    {
        &self.headers
    }

    /// The headers of this request, by name and value, in the order set.
    pub fn header_pairs(&self) -> (headers: Vec<(String, String)>)
        ensures
            pairs_text(headers@) == self.header_list(),
    {
        headers_list(&self.headers)
    }

    /// The head as one line: the method, a space, the URL and the query.
    pub fn display(&self) -> (line: String)
        ensures
            line@ == self.shown(),
    {
        let mut line = String::from_str(self.method.as_str());
        line.append(" ");
        line.append(self.url.as_str());
        line.append(self.query.as_str());
        line
    }
}

/// A request as the transport is to send it.
#[derive(Debug)]
pub struct Prepared<R> {
    /// The URL that the request goes to.
    pub url: String,
    /// The HTTP method of the request.
    pub method: HttpMethod,
    /// The headers of the request, by name and value.
    pub headers: Vec<(String, String)>,
    /// The body of the request.
    pub body: R,
}

/// The head with the content type of the body set, where the body has one.
pub open spec fn typed(head: Head, content_type: Option<crate::mime::Mime>) -> Head {
    match content_type {
        Some(mime) => Head {
            headers: with_header(head.headers, "Content-Type"@, mime.text()),
            ..head
        },
        None => head,
    }
}

/// Whether `res` is what becomes of a request with the given head and
/// body once its URL is worked out: the request to send, or `Error::Url`
/// with the words of the parse error.
pub open spec fn is_prepared<R>(
    base_url: Option<Seq<char>>,
    head: Head,
    body: R,
    res: core::result::Result<Prepared<R>, Error>,
) -> bool {
    match head.target(base_url) {
        Ok(u) => res matches Ok(p) && p.url@ == u && p.method == head.method && pairs_text(
            p.headers@,
        ) == head.headers && p.body == body,
        Err(e) => res matches Err(Error::Url(text)) && text@ == e,
    }
}

/// Get a serialized body ready for the transport: set its content type on
/// the head, if it has one, and work out the URL. A URL that does not parse
/// gives `Error::Url`.
pub fn ready_request<R>(base_url: Option<&str>, head: &mut RequestHead, readable: Readable<R>) -> (res:
    core::result::Result<Prepared<R>, Error>)
    ensures
        final(head)@ == typed(old(head)@, readable.content_type),
        is_prepared(base_text(base_url), final(head)@, readable.readable, res),
{
    match &readable.content_type {
        Some(content_type) => {
            head.header(String::from_str("Content-Type"), content_type.to_text());
        },
        None => {},
    }
    match head.init_request(base_url) {
        Ok(url) => {
            let headers = head.header_pairs();
            Ok(Prepared { url, method: *head.get_method(), headers, body: readable.readable })
        },
        Err(e) => Err(e),
    }
}

/// What the interceptor, if there is one, makes of a head.
pub open spec fn intercepted<I: Interceptor>(interceptor: Option<&I>, head: Head) -> Head {
    match interceptor {
        Some(i) => i.applied(head),
        None => head,
    }
}

/// Whether the stages before the transport, entered with the head `before`
/// that the interceptor has seen and with `readable` for the body, leave
/// the head as `after` and give `res`. A body that did not serialize ends
/// the request with its error and the head is left alone; else the content
/// type of the body is set and the URL is worked out.
pub open spec fn staged<R>(
    base_url: Option<Seq<char>>,
    before: Head,
    readable: core::result::Result<Readable<R>, Error>,
    after: Head,
    res: core::result::Result<Prepared<R>, Error>,
) -> bool {
    match readable {
        Ok(r) => after == typed(before, r.content_type) && is_prepared(
            base_url,
            after,
            r.readable,
            res,
        ),
        Err(e) => after == before && res == Err::<Prepared<R>, Error>(e),
    }
}

/// The stages of a request that come before the transport, in their order:
/// the interceptor is applied to the head, the body is serialized, the
/// content type of the body is set on the head, and the URL is worked out.
/// The first stage that fails ends the request with its error, and the
/// stages behind it are not entered.
pub fn exec_request<S: Serializer, I: Interceptor, B: Body>(
    base_url: Option<&str>,
    serializer: &S,
    interceptor: Option<&I>,
    head: &mut RequestHead,
    body: B,
) -> (res: core::result::Result<Prepared<B::Readable>, Error>)
    ensures
        exists|readable: core::result::Result<Readable<B::Readable>, Error>| #[trigger]
            body.reads(writer(serializer), readable) && staged(
                base_text(base_url),
                intercepted(interceptor, old(head)@),
                readable,
                final(head)@,
                res,
            ),
{
    match interceptor {
        Some(interceptor) => {
            interceptor.intercept(head);
        },
        None => {},
    }
    let readable = body.into_readable(serializer);
    let ghost seen = readable;
    let res = match readable {
        Ok(readable) => ready_request(base_url, head, readable),
        Err(e) => Err(e),
    };
    assert(body.reads(writer(serializer), seen) && staged(
        base_text(base_url),
        intercepted(interceptor, old(head)@),
        seen,
        head@,
        res,
    ));
    res
}

/// The deferred work of one request: the body that is to be sent and the
/// guard that resolves the request's call. Its stages are entered in their
/// order, each consuming what the stage before it left.
#[verifier::reject_recursive_types(T)]
pub struct Job<T, B> {
    guard: PanicGuard<T>,
    body: B,
}

/// A request that is with the transport: the guard that resolves the
/// request's call once the transport has answered.
#[verifier::reject_recursive_types(T)]
pub struct InFlight<T> {
    guard: PanicGuard<T>,
}

/// What a job asks for once the stages before the transport are done.
#[verifier::reject_recursive_types(T)]
pub enum Stage<T, R> {
    /// Send this request, and hand the answer to `InFlight::finish`.
    Send(Prepared<R>, InFlight<T>),
    /// Nothing: a stage failed, and the call was resolved with its error.
    /// The guard that said so comes back, disarmed.
    Done(PanicGuard<T>),
}

/// Whether `stage` is what a job asks for whose stages before the
/// transport gave `res` and left the head as `after`: the request to send,
/// with the head that it was made from; or nothing where a stage failed,
/// and then the guard has handed the error of that stage to the call.
pub open spec fn asked<T, R>(
    after: Head,
    res: core::result::Result<Prepared<R>, Error>,
    stage: Stage<T, R>,
) -> bool {
    match res {
        Ok(prepared) => stage matches Stage::Send(p, flight) && p == prepared && flight.head()@
            == after,
        Err(e) => stage matches Stage::Done(guard) && !guard.is_armed() && guard.said() == Some(
            Err::<T, Error>(e),
        ),
    }
}

impl<T, B> Job<T, B> {
    /// The guard of a job is armed and holds the head of the request.
    #[verifier::type_invariant]
    spec fn inv(self) -> bool {
        self.guard.is_armed() && self.guard.head() is Some
    }
}

impl<T, B: Body> Job<T, B> {
    /// The head of the request.
    pub closed spec fn head(&self) -> RequestHead {
        self.guard.head().unwrap()
    }

    /// The body of the request.
    pub closed spec fn body(&self) -> B {
        self.body
    }

    /// Whether `stage` is what the job asks for once its stages before the
    /// transport were entered with the given base URL, serializer and
    /// interceptor: for some outcome of serializing the body, those stages
    /// gave a result, and the job asks to send what they prepared, or for
    /// nothing where one of them failed.
    pub open spec fn prepares<I: Interceptor>(
        self,
        base_url: Option<Seq<char>>,
        serializer: crate::serialize::Writer,
        interceptor: Option<&I>,
        stage: Stage<T, B::Readable>,
    ) -> bool {
        exists|
            readable: core::result::Result<Readable<B::Readable>, Error>,
            after: Head,
            res: core::result::Result<Prepared<B::Readable>, Error>,
        | #[trigger]
            self.body().reads(serializer, readable) && #[trigger] staged(
                base_url,
                intercepted(interceptor, self.head()@),
                readable,
                after,
                res,
            ) && asked(after, res, stage)
    }

    /// Enter the stages that come before the transport. Where one fails,
    /// the call is resolved with its error and nothing is to be sent; else
    /// the answer is the request to send, with the guard that waits for the
    /// transport.
    pub fn prepare<S: Serializer, I: Interceptor>(
        self,
        base_url: Option<&str>,
        serializer: &S,
        interceptor: Option<&I>,
    ) -> (stage: Stage<T, B::Readable>)
        ensures
            self.prepares(base_text(base_url), writer(serializer), interceptor, stage),
    {
        proof {
            use_type_invariant(&self);
        }
        let mut guard = self.guard;
        let res = exec_request(base_url, serializer, interceptor, guard.head_mut(), self.body);
        let ghost after = guard.head().unwrap()@;
        let ghost seen = res;
        proof {
            let readable = choose|readable: core::result::Result<Readable<B::Readable>, Error>| #[trigger]
                self.body().reads(writer(serializer), readable) && staged(
                    base_text(base_url),
                    intercepted(interceptor, self.head()@),
                    readable,
                    after,
                    seen,
                );
            assert(self.body().reads(writer(serializer), readable) && staged(
                base_text(base_url),
                intercepted(interceptor, self.head()@),
                readable,
                after,
                seen,
            ));
        }
        match res {
            Ok(prepared) => {
                let stage = Stage::Send(prepared, InFlight { guard });
                assert(asked(after, seen, stage));
                stage
            },
            Err(e) => {
                guard.complete(Err(e));
                let stage = Stage::Done(guard);
                assert(asked::<T, B::Readable>(after, seen, stage));
                stage
            },
        }
    }

    /// End the job without a result: the call is resolved with `error`.
    /// The guard that said so comes back, disarmed.
    pub fn fail(self, error: Error) -> (guard: PanicGuard<T>)
        ensures
            !guard.is_armed(),
            guard.said() == Some(Err::<T, Error>(error)),
            guard.head() == Some(self.head()),
    {
        proof {
            use_type_invariant(&self);
        }
        let mut guard = self.guard;
        guard.complete(Err(error));
        guard
    }
}

/// Whether `res` is what the stages behind the transport make of its
/// answer: the error of the transport, unchanged, where it failed; else
/// what the response converts to.
pub open spec fn decoded<T: FromResponse>(
    deserializer: crate::serialize::Reader,
    response: core::result::Result<Response, Error>,
    res: core::result::Result<T, Error>,
) -> bool {
    match response {
        Ok(response) => T::converts(deserializer, response, res),
        Err(e) => res == Err::<T, Error>(e),
    }
}

/// What the stages behind the transport make of its answer: the error of
/// the transport, unchanged, where it failed; else what the response
/// converts to.
pub fn decode<T: FromResponse, D: Deserializer>(
    deserializer: &D,
    response: core::result::Result<Response, Error>,
) -> (res: core::result::Result<T, Error>)
    ensures
        decoded(reader(deserializer), response, res),
{
    match response {
        Ok(response) => T::from_response(deserializer, response),
        Err(e) => Err(e),
    }
}

impl<T> InFlight<T> {
    /// The guard of a request that is with the transport is armed and
    /// holds the head of the request.
    #[verifier::type_invariant]
    spec fn inv(self) -> bool {
        self.guard.is_armed() && self.guard.head() is Some
    }

    /// The head of the request, as it was sent.
    pub closed spec fn head(&self) -> RequestHead {
        self.guard.head().unwrap()
    }
}

impl<T: FromResponse> InFlight<T> {
    /// Enter the stages behind the transport: decode its answer and resolve
    /// the call with the result. An error of the transport goes to the
    /// call unchanged. The guard that said so comes back, disarmed.
    pub fn finish<D: Deserializer>(
        self,
        deserializer: &D,
        response: core::result::Result<Response, Error>,
    ) -> (guard: PanicGuard<T>)
        ensures
            !guard.is_armed(),
            guard.said() matches Some(res) && decoded(reader(deserializer), response, res),
            guard.head() == Some(self.head()),
    {
        proof {
            use_type_invariant(&self);
        }
        let mut guard = self.guard;
        let res = decode(deserializer, response);
        guard.complete(res);
        guard
    }
}

/// A request which is ready to be sent to the server.
///
/// Use `exec()` or `exec_here()` to send the request and receive the
/// response.
///
/// ## Note
/// If an error occurred during initialization of the request, it will be
/// immediately returned when the request is executed; no network or disk
/// activity will occur.
#[must_use]
#[verifier::reject_recursive_types(T)]
pub struct Request<T, B> {
    work: Option<Job<T, B>>,
    call: Call<T>,
}

impl<T, B> Request<T, B> {
    /// A request with a job waits for it, and a request without one knows
    /// its result.
    #[verifier::type_invariant]
    spec fn inv(self) -> bool {
        match self.work {
            Some(_) => self.call@ is Waiting,
            None => self.call@ is Immediate,
        }
    }
}

impl<T, B: Body> Request<T, B> {
    /// The job of the request, where it has one.
    pub closed spec fn job(&self) -> Option<Job<T, B>> {
        self.work
    }

    /// The state of the request's call.
    pub closed spec fn call(&self) -> CallState<T> {
        self.call@
    }

    /// Construct a request wrapping an immediate return of `res`.
    ///
    /// No job is made for it: no network or disk activity will occur when
    /// this request is executed.
    pub fn immediate(res: core::result::Result<T, Error>) -> (request: Request<T, B>)
        ensures
            request.job() is None,
            request.call() == CallState::Immediate(res),
    {
        Request { work: None, call: immediate(res) }
    }

    /// Returns `true` if a result is immediately available (`exec_here()`
    /// will not block).
    pub fn is_immediate(&self) -> (immediate: bool)
        ensures
            immediate == self.call() is Immediate,
            immediate == self.job() is None,
    {
        proof {
            use_type_invariant(self);
        }
        self.call.is_immediate()
    }

    /// Execute this request on the current thread: the answer is the job
    /// to run here, if the request has one, and the call to block on once it
    /// was run. A request whose result is known has no job, and its call
    /// returns the result at once.
    pub fn exec_here(self) -> (here: (Option<Job<T, B>>, Call<T>))
        ensures
            here.0 == self.job(),
            here.1@ == self.call(),
            self.job() is None <==> self.call() is Immediate,
            self.job() is Some <==> self.call() is Waiting,
    {
        proof {
            use_type_invariant(&self);
        }
        (self.work, self.call)
    }

    /// Execute this request on the adapter's executor, returning a handle
    /// which can be polled for the result, and the receivers to wake.
    ///
    /// The job of the request goes behind all pending jobs of the queue. A
    /// request whose result is known has no job: the queue is left as it
    /// was, nobody is woken, and the call holds the result. A job that the
    /// queue does not take is given up, and its call resolves with
    /// `Error::Panic`.
    pub fn exec(self, sender: &Sender, queue: &mut JobQueue<Job<T, B>>) -> (queued: (
        Call<T>,
        Wake,
    ))
        requires
            old(queue).wf(),
            self.job() is Some && sender.delivers(old(queue)) ==> old(queue).accepted() < u64::MAX,
        ensures
            final(queue).wf(),
            final(queue).id() == old(queue).id(),
            final(queue).senders() == old(queue).senders(),
            final(queue).is_closed() == old(queue).is_closed(),
            final(queue).taken() == old(queue).taken(),
            queued.0@ == self.call(),
            match self.job() {
                Some(job) if sender.delivers(old(queue)) => final(queue)@ == old(queue)@.push(job)
                    && final(queue).sent() == old(queue).sent().push(job) && queued.1
                    == Wake::One,
                _ => final(queue)@ == old(queue)@ && final(queue).sent() == old(queue).sent()
                    && queued.1 == Wake::Nobody,
            },
    {
        let wake = match self.work {
            Some(job) => match sender.send(queue, job) {
                Ok(wake) => wake,
                Err(_) => Wake::Nobody,
            },
            None => Wake::Nobody,
        };
        (self.call, wake)
    }
}

/// The call of a request that failed before it was submitted holds the
/// error: the first poll takes it and leaves the call taken, and a block
/// returns it, whatever a channel would have held.
pub proof fn lemma_failed_request_is_resolved<T>(e: Error, got: crate::net::call::Received<
    core::result::Result<T, Error>,
>)
    ensures
        CallState::<T>::Immediate(Err(e)).polled(got) == (
            CallState::<T>::Taken,
            Err::<crate::net::call::Async<T>, Error>(e),
        ),
        CallState::<T>::Immediate(Err(e)).blocked(got) == Err::<T, Error>(e),
{
}

/// A container for a request header and body.
///
/// Used in the body of service methods to construct a request.
#[derive(Debug)]
pub struct RequestBuilder<M, B> {
    head: RequestHead,
    method: M,
    body: B,
}

impl<M: Method> RequestBuilder<M, EmptyFields> {
    /// Create a new request builder with the given method and URL.
    pub fn new(method: M, url: String) -> (builder: Self)
        ensures
            builder.spec_head().url() == url@,
            builder.spec_head().query_text() == Seq::<char>::empty(),
            builder.spec_head().method() == method.wire(),
            builder.spec_head().header_list() == Seq::<(Seq<char>, Seq<char>)>::empty(),
            builder.spec_method() == method,
    {
        RequestBuilder {
            head: RequestHead::new(method.to_hyper(), url),
            method: method,
            body: EmptyFields,
        }
    }
}

impl<M, B> RequestBuilder<M, B> {
    /// The header of the request.
    pub closed spec fn spec_head(&self) -> RequestHead {
        self.head
    }

    /// The method of the request.
    pub closed spec fn spec_method(&self) -> M {
        self.method
    }

    /// The body of the request.
    pub closed spec fn spec_body(&self) -> B {
        self.body
    }

    /// Get a reference to the header of the request to inspect it.
    pub fn head(&self) -> (head: &RequestHead)
        ensures
            *head == self.spec_head(),
    {
        &self.head
    }

    /// Get a mutable reference to the header of the request.
    ///
    /// Can be used to change the request URL, add GET query pairs or HTTP
    /// headers to be sent with the request.
    pub fn head_mut(&mut self) -> (head: &mut RequestHead)
        ensures
            *head == old(self).spec_head(),
            final(self).spec_head() == *final(head),
            final(self).spec_method() == old(self).spec_method(),
            final(self).spec_body() == old(self).spec_body(),
    {
        &mut self.head
    }

    /// Pass `self` to the closure, allowing it to mutate and transform the
    /// builder arbitrarily.
    pub fn apply<F, B_>(self, functor: F) -> (res: core::result::Result<
        RequestBuilder<M, B_>,
        Error,
    >) where F: FnOnce(Self) -> core::result::Result<RequestBuilder<M, B_>, Error>
        requires
            functor.requires((self,)),
        ensures
            functor.ensures((self,), res),
    {
        functor(self)
    }

    /// Equivalent to `body()` but is not restricted from `GET` or `DELETE`
    /// requests.
    pub fn force_body<B_>(self, body: B_) -> (builder: RequestBuilder<M, B_>)
        ensures
            builder.spec_head() == self.spec_head(),
            builder.spec_method() == self.spec_method(),
            builder.spec_body() == body,
    {
        RequestBuilder { head: self.head, method: self.method, body: body }
    }

    /// Equivalent to `body_eager()` but is not restricted from `GET` or
    /// `DELETE` requests.
    pub fn force_body_eager<B_: EagerBody, S: Serializer>(self, body: B_, serializer: &S) -> (res:
        core::result::Result<RequestBuilder<M, RawBody<B_::Readable>>, Error>)
        ensures
            exists|readable: core::result::Result<Readable<B_::Readable>, Error>| #[trigger]
                body.reads_now(writer(serializer), readable) && self.with_eager(readable, res),
    {
        let readable = body.into_readable_now(serializer);
        let ghost seen = readable;
        let res = match readable {
            Ok(readable) => Ok(self.force_body(RawBody(readable))),
            Err(e) => Err(e),
        };
        assert(body.reads_now(writer(serializer), seen) && self.with_eager(seen, res));
        res
    }

    /// Whether `res` is what becomes of the builder once a body was
    /// serialized at once with the outcome `readable`: the builder with
    /// what was serialized as its raw body, head and method kept; or the
    /// error of the serializer.
    pub open spec fn with_eager<R>(
        self,
        readable: core::result::Result<Readable<R>, Error>,
        res: core::result::Result<RequestBuilder<M, RawBody<R>>, Error>,
    ) -> bool {
        match readable {
            Ok(readable) => res matches Ok(builder) && builder.spec_head() == self.spec_head()
                && builder.spec_method() == self.spec_method() && builder.spec_body() == RawBody(
                readable,
            ),
            Err(e) => res matches Err(err) && err == e,
        }
    }

    /// Prepare a `Request` to be executed with the parameters supplied in
    /// this builder.
    ///
    /// This request will need to be executed (using `exec()` or
    /// `exec_here()`) before anything else is done. As much work as
    /// possible is left to the job of the request.
    pub fn build<T>(self) -> (request: Request<T, B>) where B: Body
        ensures
            request.call() is Waiting,
            request.job() matches Some(job) && job.head() == self.spec_head() && job.body()
                == self.spec_body(),
    {
        let (guard, call) = oneshot(Some(self.head));
        Request { work: Some(Job { guard, body: self.body }), call: call }
    }
}

impl<M: TakesBody, B> RequestBuilder<M, B> {
    /// Set a body to be sent with the request.
    ///
    /// Generally, `GET` and `DELETE` are not to have bodies.
    pub fn body<B_>(self, body: B_) -> (builder: RequestBuilder<M, B_>)
        ensures
            builder.spec_head() == self.spec_head(),
            builder.spec_method() == self.spec_method(),
            builder.spec_body() == body,
    {
        RequestBuilder { head: self.head, method: self.method, body: body }
    }

    /// Immediately serialize `body` on the current thread and set the
    /// result as the body of this request.
    pub fn body_eager<B_: EagerBody, S: Serializer>(self, body: B_, serializer: &S) -> (res:
        core::result::Result<RequestBuilder<M, RawBody<B_::Readable>>, Error>)
        ensures
            exists|readable: core::result::Result<Readable<B_::Readable>, Error>| #[trigger]
                body.reads_now(writer(serializer), readable) && self.with_eager(readable, res),
    {
        let readable = body.into_readable_now(serializer);
        let ghost seen = readable;
        let res = match readable {
            Ok(readable) => Ok(self.body(RawBody(readable))),
            Err(e) => Err(e),
        };
        assert(body.reads_now(writer(serializer), seen) && self.with_eager(seen, res));
        res
    }
}

} // verus!
