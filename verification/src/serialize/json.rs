//! The JSON serializers, as far as a request sees them: what they are set
//! to and the content type that they announce.

use crate::mime::{json, Mime};
use vstd::prelude::*;

verus! {

/// Serializer for JSON request bodies with compact output.
#[derive(Clone, Copy, Debug)]
pub struct Serializer;

impl Serializer {
    /// Returns `application/json`.
    pub fn content_type(&self) -> (mime: Option<Mime>)
        ensures
            mime == Some(Mime::Json),
    {
        Some(json())
    }
}

/// Serializer for JSON request bodies which pretty-prints its output, with
/// configurable indent.
#[derive(Clone, Copy, Debug)]
pub struct PrettySerializer(Option<u32>);

impl PrettySerializer {
    /// The number of spaces that each level is indented by, where one was
    /// set.
    pub closed spec fn spaces(&self) -> Option<u32> {
        self.0
    }

    /// Create a new pretty-printer with the default indent style.
    pub fn new() -> (serializer: Self)
        ensures
            serializer.spaces() is None,
    {
        PrettySerializer(None)
    }

    /// Create a new pretty-printer which indents by the given number of
    /// spaces each level.
    pub fn with_indent(num_spaces: u32) -> (serializer: Self)
        ensures
            serializer.spaces() == Some(num_spaces),
    {
        PrettySerializer(Some(num_spaces))
    }

    /// The number of spaces that each level is indented by, where one was
    /// set.
    pub fn indent(&self) -> (spaces: Option<u32>)
        ensures
            spaces == self.spaces(),
    {
        self.0
    }

    /// Returns `application/json`.
    pub fn content_type(&self) -> (mime: Option<Mime>)
        ensures
            mime == Some(Mime::Json),
    {
        Some(json())
    }
}

/// Deserializer for pulling values from JSON response bodies.
#[derive(Clone, Copy, Debug)]
pub struct Deserializer;

} // verus!
