//! Types that can be serialized to bodies of HTTP requests.

use crate::error::Error;
use crate::mime::{form_urlencoded, octet_stream, text_plain_utf8, Mime};
use crate::net::request::{form_urlencode, pairs_text};
use crate::serialize::{
    debug_quote, debug_quoted, failure, writer, PairMap, Serializer, Writer,
};
use vstd::string::StringExecFns;
use vstd::prelude::*;

verus! {

/// The result type for `Body::into_readable()`.
pub type ReadableResult<T> = core::result::Result<Readable<T>, Error>;

/// The result of serializing the request body, ready to be sent over the
/// network.
#[derive(Debug)]
pub struct Readable<R> {
    /// The content which will be copied into the request body.
    pub readable: R,
    /// The MIME type of the request body, if applicable.
    pub content_type: Option<Mime>,
}

impl<R> Readable<R> {
    /// Create a new `Readable` wrapped in `Ok` for convenience.
    pub fn new_ok(readable: R, content_type: Option<Mime>) -> (res: ReadableResult<R>)
        ensures
            res == Ok::<Readable<R>, Error>(Readable { readable, content_type }),
    {
        Ok(Self::new(readable, content_type))
    }

    /// Create a new `Readable` with the given content and MIME type.
    pub fn new(readable: R, content_type: Option<Mime>) -> (made: Self)
        ensures
            made == (Readable { readable, content_type }),
    {
        Readable { readable: readable, content_type: content_type }
    }
}

/// Whether a serializer, asked to serialize `val` into an empty buffer, may
/// give `res`: what it wrote under the content type that it announces, or
/// its error.
pub open spec fn serialized(
    ser: Writer,
    val: Seq<(String, String)>,
    res: ReadableResult<Vec<u8>>,
) -> bool {
    match res {
        Ok(readable) => (ser.writes)(val, Seq::<u8>::empty(), readable.readable@, None::<Error>)
            && (ser.announces)(readable.content_type),
        Err(e) => exists|after: Seq<u8>| #[trigger]
            (ser.writes)(val, Seq::<u8>::empty(), after, Some(e)),
    }
}

/// A type which can be serialized into a request body.
pub trait Body: Sized {
    /// The readable request body.
    type Readable;

    /// Whether the body, serialized with `ser`, may give `res`.
    spec fn reads(self, ser: Writer, res: ReadableResult<Self::Readable>) -> bool;

    /// Serialize `self` with the given serializer into a request body.
    fn into_readable<S: Serializer>(self, ser: &S) -> (res: ReadableResult<Self::Readable>)
        ensures
            self.reads(writer(ser), res),
    ;
}

/// A type which can be serialized into a request body on the thread that
/// builds the request.
pub trait EagerBody: Sized {
    /// The readable request body.
    type Readable;

    /// Whether the body, serialized with `ser`, may give `res`.
    spec fn reads_now(self, ser: Writer, res: ReadableResult<Self::Readable>) -> bool;

    /// Serialize `self` with the given serializer into a request body, on
    /// the calling thread.
    fn into_readable_now<S: Serializer>(self, ser: &S) -> (res: ReadableResult<Self::Readable>)
        ensures
            self.reads_now(writer(ser), res),
    ;
}

impl EagerBody for PairMap<String, String> {
    type Readable = Vec<u8>;

    /// What the serializer writes into an empty buffer, under the
    /// serializer's content type; the serializer's error where it fails.
    open spec fn reads_now(self, ser: Writer, res: ReadableResult<Vec<u8>>) -> bool {
        serialized(ser, self@, res)
    }

    fn into_readable_now<S: Serializer>(self, ser: &S) -> (res: ReadableResult<Vec<u8>>) {
        match RawBody::serialize_now(ser, &self) {
            Ok(body) => Ok(body.0),
            Err(e) => Err(e),
        }
    }
}

impl<B: EagerBody> Body for B {
    type Readable = <B as EagerBody>::Readable;

    /// What serializing the value at once gives.
    open spec fn reads(self, ser: Writer, res: ReadableResult<Self::Readable>) -> bool {
        self.reads_now(ser, res)
    }

    fn into_readable<S: Serializer>(self, ser: &S) -> (res: ReadableResult<Self::Readable>) {
        self.into_readable_now(ser)
    }
}

/// A wrapper around a value that is intended to be sent directly as the
/// request body, instead of being serialized.
#[derive(Debug)]
pub struct RawBody<R>(pub Readable<R>);

impl<R> RawBody<R> {
    /// Wrap a content and a content-type.
    pub fn new(readable: R, content_type: Option<Mime>) -> (body: Self)
        ensures
            body.0 == (Readable { readable, content_type }),
    {
        RawBody(Readable::new(readable, content_type))
    }
}

impl RawBody<Vec<u8>> {
    /// Wrap bytes as a raw request body.
    ///
    /// Assumes `application/octet-stream` as the content-type.
    pub fn bytes(bytes: Vec<u8>) -> (body: Self)
        ensures
            body.0 == (Readable { readable: bytes, content_type: Some(Mime::OctetStream) }),
    {
        RawBody::new(bytes, Some(octet_stream()))
    }
}

impl RawBody<Vec<u8>> {
    /// Use the serializer to serialize `val` as a raw body immediately:
    /// what it writes into an empty buffer, under its content type; its
    /// error where it fails.
    pub fn serialize_now<S: Serializer>(ser: &S, val: &PairMap<String, String>) -> (res:
        core::result::Result<Self, Error>)
        ensures
            serialized(
                writer(ser),
                val@,
                match res {
                    Ok(body) => Ok(body.0),
                    Err(e) => Err(e),
                },
            ),
    {
        let mut buf: Vec<u8> = Vec::new();
        let written = ser.serialize(val, &mut buf);
        assert((writer(ser).writes)(val@, Seq::<u8>::empty(), buf@, failure(written)));
        match written {
            Ok(_) => {
                let content_type = ser.content_type();
                assert((writer(ser).announces)(content_type));
                Ok(RawBody::new(buf, content_type))
            },
            Err(e) => Err(e),
        }
    }
}

impl RawBody<String> {
    /// Wrap a text as a plain text body.
    ///
    /// Assumes `text/plain; charset=utf-8` as the content-type.
    pub fn text(text: String) -> (body: Self)
        ensures
            body.0 == (Readable { readable: text, content_type: Some(Mime::TextPlainUtf8) }),
    {
        RawBody::new(text, Some(text_plain_utf8()))
    }

    /// Convert the value to a `String` and wrap it.
    ///
    /// Assumes `text/plain; charset=utf-8` as the content-type.
    pub fn display<T: core::fmt::Display>(text: &T) -> (body: Self)
        ensures
            vstd::string::to_string_from_display_ensures::<T>(text, body.0.readable),
            body.0.content_type == Some(Mime::TextPlainUtf8),
    {
        RawBody::text(text.to_string())
    }
}

impl<R> EagerBody for RawBody<R> {
    type Readable = R;

    /// The wrapped content, as it is.
    open spec fn reads_now(self, ser: Writer, res: ReadableResult<R>) -> bool {
        res == Ok::<Readable<R>, Error>(self.0)
    }

    fn into_readable_now<S: Serializer>(self, _ser: &S) -> (res: ReadableResult<R>) {
        Ok(self.0)
    }
}

/// Helps save some imports and typing.
pub type RawBytesBody = RawBody<Vec<u8>>;

/// A builder trait describing collections of key-value pairs to be
/// serialized into a request body.
pub trait Fields: Sized {
    /// The type that results from adding a text field; may or may not
    /// change depending on the initial type.
    type WithText;

    /// Whether `fields` is this collection with the text field added. A
    /// collection that says nothing of itself may give any.
    open spec fn texted(self, key: String, val: String, fields: Self::WithText) -> bool {
        true
    }

    /// Whether `fields` is this collection with the file field added. A
    /// collection that says nothing of itself may give any.
    open spec fn filed(self, key: String, file: FileField, fields: MultipartFields) -> bool {
        true
    }

    /// Add a key/text-value pair to this fields collection, returning the
    /// resulting type.
    fn with_text(self, key: String, val: String) -> (fields: Self::WithText)
        ensures
            self.texted(key, val, fields),
    ;

    /// Add a key/file-value pair to this fields collection, returning the
    /// resulting type.
    fn with_file(self, key: String, file: FileField) -> (fields: MultipartFields)
        ensures
            self.filed(key, file, fields),
    ;
}

/// An empty fields collection, will serialize to nothing.
#[derive(Debug)]
pub struct EmptyFields;

impl Fields for EmptyFields {
    type WithText = TextFields;

    /// The one text field.
    open spec fn texted(self, key: String, val: String, fields: TextFields) -> bool {
        fields@ == seq![(key, val)]
    }

    /// The one file field, and no text field.
    open spec fn filed(self, key: String, file: FileField, fields: MultipartFields) -> bool {
        fields.texts() == Seq::<(String, String)>::empty() && fields.files() == seq![(key, file)]
    }

    fn with_text(self, key: String, val: String) -> (fields: TextFields) {
        TextFields::new().with_text(key, val)
    }

    fn with_file(self, key: String, file: FileField) -> (fields: MultipartFields) {
        MultipartFields::new().with_file(key, file)
    }
}

impl Body for EmptyFields {
    type Readable = ();

    /// Nothing, and no content type.
    open spec fn reads(self, ser: Writer, res: ReadableResult<()>) -> bool {
        res == Ok::<Readable<()>, Error>(Readable { readable: (), content_type: None })
    }

    fn into_readable<S: Serializer>(self, _ser: &S) -> (res: ReadableResult<()>) {
        Readable::new_ok((), None)
    }
}

/// A collection of key-string value pairs to be serialized as fields in the
/// request.
///
/// Will be serialized as form/percent-encoded pairs.
#[derive(Debug)]
pub struct TextFields(PairMap<String, String>);

impl TextFields {
    /// The fields, in the order in which they were added.
    pub closed spec fn view(&self) -> Seq<(String, String)> {
        self.0@
    }

    pub(crate) fn new() -> (fields: TextFields)
        ensures
            fields@ == Seq::<(String, String)>::empty(),
    {
        TextFields(PairMap::new())
    }

    pub(crate) fn push(&mut self, key: String, val: String)
        ensures
            final(self)@ == old(self)@.push((key, val)),
    {
        self.0.insert(key, val);
    }
}

impl Fields for TextFields {
    type WithText = Self;

    /// The text fields that there were, and the new one behind them.
    open spec fn texted(self, key: String, val: String, fields: Self) -> bool {
        fields@ == self@.push((key, val))
    }

    /// The text fields that there were, and the one file field.
    open spec fn filed(self, key: String, file: FileField, fields: MultipartFields) -> bool {
        fields.texts() == self@ && fields.files() == seq![(key, file)]
    }

    fn with_text(self, key: String, val: String) -> (fields: Self) {
        let mut fields = self;
        fields.push(key, val);
        fields
    }

    fn with_file(self, key: String, file: FileField) -> (fields: MultipartFields) {
        MultipartFields::from_text(self).with_file(key, file)
    }
}

impl Body for TextFields {
    type Readable = String;

    /// The fields as one form-encoded text, in their order, under the
    /// content type of forms.
    open spec fn reads(self, ser: Writer, res: ReadableResult<String>) -> bool {
        res matches Ok(r) && r.readable@ == crate::net::request::form_urlencoded(
            Seq::<char>::empty(),
            pairs_text(self@),
        ) && r.content_type == Some(Mime::FormUrlEncoded)
    }

    fn into_readable<S: Serializer>(self, _ser: &S) -> (res: ReadableResult<String>) {
        let pairs = self.0.into_pairs();
        let readable = form_urlencode(String::new(), &pairs);
        Readable::new_ok(readable, Some(form_urlencoded()))
    }
}

/// A collection of key-value pairs where the values may be string fields or
/// file fields.
///
/// Will be serialized as a `multipart/form-data` request.
#[derive(Debug)]
pub struct MultipartFields {
    text: PairMap<String, String>,
    files: PairMap<String, FileField>,
}

/// One part of a `multipart/form-data` body.
#[derive(Debug)]
pub enum Part {
    /// A text field: its name and its value.
    Text(String, String),
    /// A file field: its name and the file.
    File(String, FileField),
}

/// The parts that text fields make, in their order.
pub open spec fn text_parts(texts: Seq<(String, String)>) -> Seq<Part> {
    texts.map_values(|f: (String, String)| Part::Text(f.0, f.1))
}

/// The parts that file fields make, in their order.
pub open spec fn file_parts(files: Seq<(String, FileField)>) -> Seq<Part> {
    files.map_values(|f: (String, FileField)| Part::File(f.0, f.1))
}

impl MultipartFields {
    /// The text fields, in the order in which they were added.
    pub closed spec fn texts(&self) -> Seq<(String, String)> {
        self.text@
    }

    /// The file fields, in the order in which they were added.
    pub closed spec fn files(&self) -> Seq<(String, FileField)> {
        self.files@
    }

    pub(crate) fn new() -> (fields: Self)
        ensures
            fields.texts() == Seq::<(String, String)>::empty(),
            fields.files() == Seq::<(String, FileField)>::empty(),
    {
        Self::from_text(TextFields::new())
    }

    pub(crate) fn from_text(text: TextFields) -> (fields: Self)
        ensures
            fields.texts() == text@,
            fields.files() == Seq::<(String, FileField)>::empty(),
    {
        MultipartFields { text: text.0, files: PairMap::new() }
    }

    /// The parts of the body in the order in which they are written: every
    /// text field, then every file field, each group in the order in which
    /// its fields were added.
    pub fn into_parts(self) -> (parts: Vec<Part>)
        ensures
            parts@ == text_parts(self.texts()) + file_parts(self.files()),
    {
        let ghost all_texts = self.texts();
        let ghost all_files = self.files();
        let mut texts = reversed(self.text.into_pairs());
        let mut files = reversed(self.files.into_pairs());
        let mut parts: Vec<Part> = Vec::new();
        while texts.len() > 0
            invariant
                texts@.len() <= all_texts.len(),
                texts@ == all_texts.skip(all_texts.len() - texts@.len()).reverse(),
                parts@ == text_parts(all_texts.take(all_texts.len() - texts@.len())),
            decreases texts.len(),
        {
            let ghost k = all_texts.len() - texts@.len();
            let (key, val) = texts.pop().unwrap();
            proof {
                assert((key, val) == all_texts[k]);
                assert(texts@ =~= all_texts.skip(k + 1).reverse());
                assert(text_parts(all_texts.take(k + 1)) =~= text_parts(all_texts.take(k)).push(
                    Part::Text(key, val),
                ));
            }
            parts.push(Part::Text(key, val));
        }
        assert(all_texts.take(all_texts.len() as int) =~= all_texts);
        while files.len() > 0
            invariant
                files@.len() <= all_files.len(),
                files@ == all_files.skip(all_files.len() - files@.len()).reverse(),
                parts@ == text_parts(all_texts) + file_parts(
                    all_files.take(all_files.len() - files@.len()),
                ),
            decreases files.len(),
        {
            let ghost k = all_files.len() - files@.len();
            let (key, file) = files.pop().unwrap();
            proof {
                assert((key, file) == all_files[k]);
                assert(files@ =~= all_files.skip(k + 1).reverse());
                assert(text_parts(all_texts) + file_parts(all_files.take(k + 1)) =~= (text_parts(
                    all_texts,
                ) + file_parts(all_files.take(k))).push(Part::File(key, file)));
            }
            parts.push(Part::File(key, file));
        }
        assert(all_files.take(all_files.len() as int) =~= all_files);
        parts
    }
}

/// The elements of `v`, last first.
fn reversed<T>(v: Vec<T>) -> (r: Vec<T>)
    ensures
        r@ == v@.reverse(),
{
    let mut v = v;
    let ghost all = v@;
    let mut r: Vec<T> = Vec::new();
    while v.len() > 0
        invariant
            v@.len() <= all.len(),
            v@ == all.take(v@.len() as int),
            r@ == all.skip(v@.len() as int).reverse(),
        decreases v.len(),
    {
        let ghost n = v@.len() as int;
        let x = v.pop().unwrap();
        proof {
            assert(x == all[n - 1]);
            assert(v@ =~= all.take(n - 1));
            assert(all.skip(n - 1).reverse() =~= all.skip(n).reverse().push(x));
        }
        r.push(x);
    }
    assert(all.skip(0) =~= all);
    r
}

impl Fields for MultipartFields {
    type WithText = Self;

    /// The new text field behind the text fields that there were; the file
    /// fields as they were.
    open spec fn texted(self, key: String, val: String, fields: Self) -> bool {
        fields.texts() == self.texts().push((key, val)) && fields.files() == self.files()
    }

    /// The new file field behind the file fields that there were; the text
    /// fields as they were.
    open spec fn filed(self, key: String, file: FileField, fields: MultipartFields) -> bool {
        fields.texts() == self.texts() && fields.files() == self.files().push((key, file))
    }

    fn with_text(self, key: String, val: String) -> (fields: Self) {
        let mut fields = self;
        fields.text.insert(key, val);
        fields
    }

    fn with_file(self, key: String, file: FileField) -> (fields: MultipartFields) {
        let mut fields = self;
        fields.files.insert(key, file);
        fields
    }
}

/// A text that may not be there, as debugging output shows it: `None`, or
/// the text quoted within `Some(..)`.
pub open spec fn shown_option(text: Option<Seq<char>>) -> Seq<char> {
    match text {
        Some(text) => "Some("@ + debug_quoted(text) + ")"@,
        None => "None"@,
    }
}

/// A text that may not be there, as debugging output shows it.
fn debug_option(text: Option<&str>) -> (shown: String)
    ensures
        shown@ == shown_option(
            match text {
                Some(t) => Some(t@),
                None => None,
            },
        ),
{
    match text {
        Some(t) => {
            let mut shown = String::from_str("Some(");
            let quoted = debug_quote(t);
            shown.append(quoted.as_str());
            shown.append(")");
            shown
        },
        None => String::from_str("None"),
    }
}

/// A file field, can be content that was read or a path.
#[derive(Debug)]
pub struct FileField(FileField_);

/// What a file field holds.
#[derive(Debug)]
pub enum FileField_ {
    /// Content that was read, with the name and the content type to give
    /// it.
    Stream { stream: Vec<u8>, filename: Option<String>, content_type: Option<Mime> },
    /// The path of a file, whose name and content type are inferred.
    Path(String),
}

impl FileField {
    /// What the field holds.
    pub closed spec fn view(&self) -> FileField_ {
        self.0
    }

    /// Wrap content with an optional filename and MIME type to be
    /// serialized as a file field.
    pub fn from_stream(stream: Vec<u8>, filename: Option<String>, content_type: Option<Mime>) -> (field:
        Self)
        ensures
            field@ == (FileField_::Stream { stream, filename, content_type }),
    {
        FileField(
            FileField_::Stream { stream: stream, filename: filename, content_type: content_type },
        )
    }

    /// Wrap a path to be serialized as a file field, inferring its
    /// filename and MIME type.
    pub fn from_path(path: String) -> (field: Self)
        ensures
            field@ == FileField_::Path(path),
    {
        FileField(FileField_::Path(path))
    }

    /// The field as debugging output shows it: a path between quotes; of a
    /// stream its content type and its filename, and a word in the place of
    /// the content.
    pub open spec fn shown(&self) -> Seq<char> {
        match self@ {
            FileField_::Path(path) => "FileField::Path("@ + debug_quoted(path@) + ")"@,
            FileField_::Stream { stream, filename, content_type } =>
                "FileField::Stream { stream: \"Box<Read + Send + 'static>\", content_type: "@
                + shown_option(
                match content_type {
                    Some(mime) => Some(mime.text()),
                    None => None,
                },
            ) + ", filename: "@ + shown_option(
                match filename {
                    Some(name) => Some(name@),
                    None => None,
                },
            ) + " }"@,
        }
    }

    /// The field as debugging output shows it.
    pub fn debug(&self) -> (text: String)
        ensures
            text@ == self.shown(),
    {
        match &self.0 {
            FileField_::Path(path) => {
                let mut text = String::from_str("FileField::Path(");
                let quoted = debug_quote(path.as_str());
                text.append(quoted.as_str());
                text.append(")");
                text
            },
            FileField_::Stream { stream, filename, content_type } => {
                let mut text = String::from_str(
                    "FileField::Stream { stream: \"Box<Read + Send + 'static>\", content_type: ",
                );
                let mime = match content_type {
                    Some(mime) => debug_option(Some(mime.to_text().as_str())),
                    None => debug_option(None),
                };
                text.append(mime.as_str());
                text.append(", filename: ");
                let name = match filename {
                    Some(name) => debug_option(Some(name.as_str())),
                    None => debug_option(None),
                };
                text.append(name.as_str());
                text.append(" }");
                text
            },
        }
    }

    /// What the field holds.
    pub fn into_inner(self) -> (inner: FileField_)
        ensures
            inner == self@,
    {
        self.0
    }
}

/// A value that can be added to a fields collection.
pub trait AddField<F: Fields>: Sized {
    /// The collection that results.
    type Output;

    /// Whether `fields` is `to` with this value added under `key`. A value
    /// that says nothing of itself may give any.
    open spec fn added(self, key: String, to: F, fields: Self::Output) -> bool {
        true
    }

    /// Add `self` to `to` under `key`.
    fn add_to(self, key: String, to: F) -> (fields: Self::Output)
        ensures
            self.added(key, to, fields),
    ;
}

impl<F: Fields> AddField<F> for String {
    type Output = <F as Fields>::WithText;

    /// The collection with this text added as a text field.
    open spec fn added(self, key: String, to: F, fields: F::WithText) -> bool {
        to.texted(key, self, fields)
    }

    fn add_to(self, key: String, to: F) -> (fields: F::WithText) {
        to.with_text(key, self)
    }
}

impl<F: Fields> AddField<F> for FileField {
    type Output = MultipartFields;

    /// The collection with this file added as a file field.
    open spec fn added(self, key: String, to: F, fields: MultipartFields) -> bool {
        to.filed(key, self, fields)
    }

    fn add_to(self, key: String, to: F) -> (fields: MultipartFields) {
        to.with_file(key, self)
    }
}

} // verus!
