//! No-op serializers which return errors when invoked.

use crate::error::{Error, NoSerializeError};
use crate::mime::Mime;
use crate::serialize::{Deserializer, PairMap, Serializer};
use vstd::prelude::*;

verus! {

/// A no-op serializer which returns an error when attempting to use it.
#[derive(Debug)]
pub struct NoSerializer;

impl Serializer for NoSerializer {
    /// Always the error that no serializer was provided; nothing is
    /// written.
    open spec fn writes(
        &self,
        val: Seq<(String, String)>,
        before: Seq<u8>,
        after: Seq<u8>,
        failed: Option<Error>,
    ) -> bool {
        failed == Some(Error::NoSerialize(NoSerializeError::Serialize)) && after == before
    }

    /// No content type: nothing is serialized.
    open spec fn announces(&self, mime: Option<Mime>) -> bool {
        mime is None
    }

    fn serialize(&self, val: &PairMap<String, String>, write: &mut Vec<u8>) -> (res:
        core::result::Result<(), Error>) {
        Err(Error::from(NoSerializeError::Serialize))
    }

    fn content_type(&self) -> (mime: Option<Mime>) {
        None
    }
}

/// A no-op deserializer which returns an error when attempting to use it.
#[derive(Debug)]
pub struct NoDeserializer;

impl Deserializer for NoDeserializer {
    /// Always the error that no deserializer was provided.
    open spec fn reads(&self, read: Seq<u8>, res: core::result::Result<String, Error>) -> bool {
        res == Err::<String, Error>(Error::NoSerialize(NoSerializeError::Deserialize))
    }

    fn deserialize(&self, read: &Vec<u8>) -> (res: core::result::Result<String, Error>) {
        Err(Error::from(NoSerializeError::Deserialize))
    }
}

} // verus!
