//! Types used to serialize and deserialize request and response bodies,
//! respectively.

pub mod json;
pub mod none;

use crate::error::Error;
use crate::mime::Mime;
use vstd::prelude::*;
use vstd::string::StringExecFns;
use vstd::utf8::{decode_utf8, valid_utf8};

verus! {

/// The error of a result, if it is one.
pub open spec fn failure<T>(res: core::result::Result<T, Error>) -> Option<Error> {
    match res {
        Ok(_) => None,
        Err(e) => Some(e),
    }
}

/// A type which can serialize a series of pairs into a stream of bytes.
pub trait Serializer {
    /// Whether the serializer, asked to serialize `val` into a stream that
    /// holds `before`, may leave `after` in it and fail with `failed`, or
    /// succeed where that is `None`.
    spec fn writes(
        &self,
        val: Seq<(String, String)>,
        before: Seq<u8>,
        after: Seq<u8>,
        failed: Option<Error>,
    ) -> bool;

    /// Whether the serializer may announce `mime` as its content type.
    spec fn announces(&self, mime: Option<Mime>) -> bool;

    /// Serialize `val` to the end of `write`, returning any errors.
    fn serialize(&self, val: &PairMap<String, String>, write: &mut Vec<u8>) -> (res:
        core::result::Result<(), Error>)
        ensures
            self.writes(val@, old(write)@, final(write)@, failure(res)),
    ;

    /// Return the MIME type of the serialized content, if applicable.
    ///
    /// Used to set the `Content-Type` header of the request this serializer
    /// is being used for.
    fn content_type(&self) -> (mime: Option<Mime>)
        ensures
            self.announces(mime),
    ;
}

/// A type which can deserialize a value from a stream of bytes.
pub trait Deserializer {
    /// Whether the deserializer may answer `res` to the bytes of `read`.
    spec fn reads(&self, read: Seq<u8>, res: core::result::Result<String, Error>) -> bool;

    /// Deserialize a value from `read`, returning the result.
    fn deserialize(&self, read: &Vec<u8>) -> (res: core::result::Result<String, Error>)
        ensures
            self.reads(read@, res),
    ;
}

/// A serializer whose contract may be left unsaid: the way in for an
/// encoder whose code was not verified. An encoder that says nothing of
/// itself may write anything and answer anything.
pub trait Encoder {
    /// Whether the encoder, asked to serialize `val` into a stream that
    /// holds `before`, may leave `after` in it and fail with `failed`, or
    /// succeed where that is `None`.
    open spec fn encodes(
        &self,
        val: Seq<(String, String)>,
        before: Seq<u8>,
        after: Seq<u8>,
        failed: Option<Error>,
    ) -> bool {
        true
    }

    /// Whether the encoder may give `mime` as its content type.
    open spec fn types(&self, mime: Option<Mime>) -> bool {
        true
    }

    /// Serialize `val` to the end of `write`, returning any errors.
    fn encode(&self, val: &PairMap<String, String>, write: &mut Vec<u8>) -> (res:
        core::result::Result<(), Error>)
        ensures
            self.encodes(val@, old(write)@, final(write)@, failure(res)),
    ;

    /// Return the MIME type of the serialized content, if applicable.
    fn content_type(&self) -> (mime: Option<Mime>)
        ensures
            self.types(mime),
    ;
}

/// A deserializer whose contract may be left unsaid: the way in for a
/// decoder whose code was not verified. A decoder that says nothing of
/// itself may answer anything.
pub trait Decoder {
    /// Whether the decoder may answer `res` to the bytes of `read`.
    open spec fn decodes(&self, read: Seq<u8>, res: core::result::Result<String, Error>) -> bool {
        true
    }

    /// Deserialize a value from `read`, returning the result.
    fn decode(&self, read: &Vec<u8>) -> (res: core::result::Result<String, Error>)
        ensures
            self.decodes(read@, res),
    ;
}

/// An encoder or a decoder in the place of a serializer or a deserializer.
/// It does what the wrapped value does and says of itself what the wrapped
/// value says: what is proved of a request that uses it holds of every
/// answer that the encoder or decoder may give.
#[derive(Clone, Copy, Debug)]
pub struct Plain<C>(pub C);

impl<C: Encoder> Serializer for Plain<C> {
    /// What the encoder may write and answer.
    open spec fn writes(
        &self,
        val: Seq<(String, String)>,
        before: Seq<u8>,
        after: Seq<u8>,
        failed: Option<Error>,
    ) -> bool {
        self.0.encodes(val, before, after, failed)
    }

    /// What the encoder may give as its content type.
    open spec fn announces(&self, mime: Option<Mime>) -> bool {
        self.0.types(mime)
    }

    fn serialize(&self, val: &PairMap<String, String>, write: &mut Vec<u8>) -> (res:
        core::result::Result<(), Error>) {
        self.0.encode(val, write)
    }

    fn content_type(&self) -> (mime: Option<Mime>) {
        self.0.content_type()
    }
}

impl<C: Decoder> Deserializer for Plain<C> {
    /// What the decoder may answer.
    open spec fn reads(&self, read: Seq<u8>, res: core::result::Result<String, Error>) -> bool {
        self.0.decodes(read, res)
    }

    fn deserialize(&self, read: &Vec<u8>) -> (res: core::result::Result<String, Error>) {
        self.0.decode(read)
    }
}

/// A serializer, as contracts see it.
pub struct Writer {
    /// `Serializer::writes`
    pub writes: spec_fn(Seq<(String, String)>, Seq<u8>, Seq<u8>, Option<Error>) -> bool,
    /// `Serializer::announces`
    pub announces: spec_fn(Option<Mime>) -> bool,
}

/// The serializer as contracts see it.
pub open spec fn writer<S: Serializer>(ser: &S) -> Writer {
    Writer {
        writes: |
            val: Seq<(String, String)>,
            before: Seq<u8>,
            after: Seq<u8>,
            failed: Option<Error>,
        |
            ser.writes(val, before, after, failed),
        announces: |mime: Option<Mime>| ser.announces(mime),
    }
}

/// A deserializer, as contracts see it.
pub struct Reader {
    /// `Deserializer::reads`
    pub reads: spec_fn(Seq<u8>, core::result::Result<String, Error>) -> bool,
}

/// The deserializer as contracts see it.
pub open spec fn reader<D: Deserializer>(des: &D) -> Reader {
    Reader { reads: |read: Seq<u8>, res: core::result::Result<String, Error>| des.reads(read, res) }
}

/// `String::from_utf8`: the text that the bytes encode, where they are valid
/// UTF-8, and nothing where they are not.
#[verifier::external_body]
fn utf8_text(bytes: Vec<u8>) -> (text: Option<String>)
    ensures
        text is Some <==> valid_utf8(bytes@),
        text matches Some(s) ==> s@ == decode_utf8(bytes@),
{
    String::from_utf8(bytes).ok()
}

/// A copy of the bytes.
fn copy_bytes(bytes: &Vec<u8>) -> (copy: Vec<u8>)
    ensures
        copy@ == bytes@,
{
    let mut copy: Vec<u8> = Vec::new();
    let mut i: usize = 0;
    while i < bytes.len()
        invariant
            i <= bytes.len(),
            copy@ == bytes@.take(i as int),
        decreases bytes.len() - i,
    {
        copy.push(bytes[i]);
        assert(bytes@.take(i + 1) =~= bytes@.take(i as int).push(bytes@[i as int]));
        i = i + 1;
    }
    assert(bytes@.take(bytes@.len() as int) =~= bytes@);
    copy
}

/// A deserializer which reads the response as a string.
#[derive(Debug)]
pub struct FromStrDeserializer;

impl Deserializer for FromStrDeserializer {
    /// The text that the bytes encode. Bytes that are not valid UTF-8 give
    /// `Error::StdIo`.
    open spec fn reads(&self, read: Seq<u8>, res: core::result::Result<String, Error>) -> bool {
        if valid_utf8(read) {
            res matches Ok(text) && text@ == decode_utf8(read)
        } else {
            res matches Err(Error::StdIo(e)) && e@ == "stream did not contain valid UTF-8"@
        }
    }

    fn deserialize(&self, read: &Vec<u8>) -> (res: core::result::Result<String, Error>) {
        match utf8_text(copy_bytes(read)) {
            Some(text) => Ok(text),
            None => Err(Error::StdIo(String::from_str("stream did not contain valid UTF-8"))),
        }
    }
}

/// What `<str as Debug>::fmt` writes for a text: the text between double
/// quotes, with what would not show escaped.
pub uninterp spec fn debug_quoted(text: Seq<char>) -> Seq<char>;

/// `<str as Debug>::fmt`, through `format!`: the text as debugging output
/// shows it. The result is a function of the text alone.
#[verifier::external_body]
pub(crate) fn debug_quote(text: &str) -> (quoted: String)
    ensures
        quoted@ == debug_quoted(text@),
{
    format!("{:?}", text)
}

/// The entries of a series of pairs as debugging output shows them: each
/// key and value quoted with a colon between them, the entries in their
/// order with commas between them.
pub open spec fn shown_entries(pairs: Seq<(String, String)>) -> Seq<char>
    decreases pairs.len(),
{
    if pairs.len() == 0 {
        Seq::empty()
    } else {
        shown_entries(pairs.drop_last()) + (if pairs.len() > 1 {
            ", "@
        } else {
            Seq::empty()
        }) + debug_quoted(pairs.last().0@) + ": "@ + debug_quoted(pairs.last().1@)
    }
}

impl PairMap<String, String> {
    /// The series as debugging output shows it: a map, with duplicate keys
    /// as they stand.
    pub open spec fn shown(&self) -> Seq<char> {
        "{"@ + shown_entries(self@) + "}"@
    }

    /// The series as debugging output shows it: a map, with duplicate keys
    /// as they stand.
    pub fn debug(&self) -> (text: String)
        ensures
            text@ == self.shown(),
    {
        let mut text = String::from_str("{");
        let mut i: usize = 0;
        while i < self.pairs.len()
            invariant
                i <= self.pairs.len(),
                text@ == "{"@ + shown_entries(self@.take(i as int)),
            decreases self.pairs.len() - i,
        {
            let ghost before = text@;
            if i > 0 {
                text.append(", ");
            }
            let key = debug_quote(self.pairs[i].0.as_str());
            let val = debug_quote(self.pairs[i].1.as_str());
            text.append(key.as_str());
            text.append(": ");
            text.append(val.as_str());
            proof {
                let more = self@.take(i + 1);
                assert(more.drop_last() =~= self@.take(i as int));
                assert(more.last() == self@[i as int]);
                assert(text@ =~= "{"@ + shown_entries(more));
            }
            i = i + 1;
        }
        assert(self@.take(self@.len() as int) =~= self@);
        text.append("}");
        text
    }
}

/// A simple series of key-value pairs that can be serialized as a map.
///
/// Nothing will be done with duplicate keys.
#[derive(Debug)]
pub struct PairMap<K, V> {
    pairs: Vec<(K, V)>,
}

impl<K, V> PairMap<K, V> {
    /// The pairs of the series, in the order in which they were added.
    pub closed spec fn view(&self) -> Seq<(K, V)> {
        self.pairs@
    }

    /// Create an empty series.
    pub fn new() -> (map: Self)
        ensures
            map@ == Seq::<(K, V)>::empty(),
    {
        PairMap { pairs: Vec::new() }
    }

    /// Add a key-value pair to the end of this series.
    pub fn insert(&mut self, key: K, val: V)
        ensures
            final(self)@ == old(self)@.push((key, val)),
    {
        self.pairs.push((key, val));
    }

    /// Get the current series of pairs as a slice.
    pub fn pairs(&self) -> (pairs: &[(K, V)])
        ensures
            pairs@ == self@,
    {
        self.pairs.as_slice()
    }

    /// Get the current series of pairs as a mutable reference to a vector.
    pub fn pairs_mut(&mut self) -> (pairs: &mut Vec<(K, V)>)
        ensures
            pairs@ == old(self)@,
            final(self)@ == final(pairs)@,
    {
        &mut self.pairs
    }

    /// Take the key-value pair series as a vector of 2-tuples.
    pub fn into_pairs(self) -> (pairs: Vec<(K, V)>)
        ensures
            pairs@ == self@,
    {
        self.pairs
    }

    /// The number of pairs in the series.
    pub fn len(&self) -> (len: usize)
        ensures
            len == self@.len(),
    {
        self.pairs.len()
    }
}

} // verus!
