use anterofit::error::{flatten_res, Error, NoSerializeError, RequestPanicked};
use anterofit::net::method::HttpMethod;
use anterofit::net::request::RequestHead;
use anterofit::mime::Mime;
use anterofit::serialize::json::PrettySerializer;
use anterofit::serialize::none::{NoDeserializer, NoSerializer};
use anterofit::serialize::{
    Decoder, Deserializer, Encoder, FromStrDeserializer, PairMap, Plain, Serializer,
};

#[test]
fn pair_map_is_serialize() {
    let pair_map: PairMap<String, String> = PairMap::new();

    let mut sink: Vec<u8> = Vec::new();
    let _ = NoSerializer.serialize(&pair_map, &mut sink);
}

#[test]
fn no_serializer_always_fails_and_writes_nothing() {
    let mut map: PairMap<String, String> = PairMap::new();
    map.insert("k".to_string(), "v".to_string());
    let mut out = vec![7u8];
    assert!(matches!(
        NoSerializer.serialize(&map, &mut out),
        Err(Error::NoSerialize(NoSerializeError::Serialize))
    ));
    assert_eq!(out, vec![7u8]);
    assert!(NoSerializer.content_type().is_none());
    assert!(matches!(
        NoDeserializer.deserialize(&b"text".to_vec()),
        Err(Error::NoSerialize(NoSerializeError::Deserialize))
    ));
}

#[test]
fn from_str_deserializer_reads_utf8() {
    match FromStrDeserializer.deserialize(&"Été".as_bytes().to_vec()) {
        Ok(text) => assert_eq!(text, "Été"),
        Err(_) => panic!("valid UTF-8 is text"),
    }
    match FromStrDeserializer.deserialize(&Vec::new()) {
        Ok(text) => assert_eq!(text, ""),
        Err(_) => panic!("no bytes are the empty text"),
    }
    match FromStrDeserializer.deserialize(&vec![0xc3, 0x28]) {
        Err(Error::StdIo(text)) => assert_eq!(text, "stream did not contain valid UTF-8"),
        _ => panic!("bytes that are not UTF-8 are rejected"),
    }
}

#[test]
fn pair_map_keeps_pairs_in_order_with_duplicates() {
    let mut map: PairMap<&str, u32> = PairMap::new();
    assert_eq!(map.len(), 0);
    map.insert("a", 1);
    map.insert("b", 2);
    map.insert("a", 3);
    assert_eq!(map.pairs(), &[("a", 1), ("b", 2), ("a", 3)]);
    map.pairs_mut().remove(1);
    assert_eq!(map.len(), 2);
    assert_eq!(map.into_pairs(), vec![("a", 1), ("a", 3)]);
}

#[test]
fn errors_map_and_flatten() {
    assert!(matches!(Error::map_serialize(Ok::<u32, String>(1)), Ok(1)));
    match Error::map_serialize::<u32>(Err("bad key".to_string())) {
        Err(Error::Serialize(text)) => assert_eq!(text, "bad key"),
        _ => panic!("the error is wrapped as a serialization error"),
    }
    assert!(matches!(Error::map_deserialize(Ok::<u32, String>(2)), Ok(2)));
    match Error::map_deserialize::<u32>(Err("eof".to_string())) {
        Err(Error::Deserialize(text)) => assert_eq!(text, "eof"),
        _ => panic!("the error is wrapped as a deserialization error"),
    }
    match Error::deserialize("Unexpected end of input".to_string()) {
        Error::Deserialize(text) => assert_eq!(text, "Unexpected end of input"),
        _ => panic!("a deserialization error is made"),
    }
    assert!(matches!(flatten_res::<u32, Error>(Ok(Ok(3))), Ok(3)));
    assert!(matches!(flatten_res::<u32, Error>(Ok(Err(Error::ResultTaken))), Err(Error::ResultTaken)));
    assert!(matches!(
        flatten_res::<u32, NoSerializeError>(Err(NoSerializeError::Deserialize)),
        Err(Error::NoSerialize(NoSerializeError::Deserialize))
    ));
    let head = RequestHead::new(HttpMethod::Get, "/x".to_string());
    assert!(matches!(
        flatten_res::<u32, RequestPanicked>(Err(RequestPanicked(head))),
        Err(Error::Panic(_))
    ));
}

#[test]
fn errors_describe_themselves() {
    assert_eq!(
        Error::ResultTaken.description(),
        "The result has already been taken from this Call."
    );
    assert_eq!(
        Error::UnknownPanic.description(),
        "A panic occurred during a callback assigned to a request."
    );
    assert_eq!(
        Error::from(NoSerializeError::Serialize).description(),
        "A request method requested serialization, but no serializer was provided"
    );
    assert_eq!(
        NoSerializeError::Deserialize.description(),
        "A request method requested deserialization, but no deserializer was provided"
    );
    assert_eq!(Error::Hyper("timed out".to_string()).description(), "timed out");
    assert_eq!(Error::Url("empty host".to_string()).description(), "empty host");
    assert_eq!(Error::Serialize("s".to_string()).description(), "s");
    assert_eq!(Error::Deserialize("d".to_string()).description(), "d");
    assert_eq!(Error::StdIo("io".to_string()).description(), "io");
    assert_eq!(Error::Multipart("m".to_string()).description(), "m");
    assert_eq!(Error::Other("o".to_string()).description(), "o");
    let mut head = RequestHead::new(HttpMethod::Delete, "/items/1".to_string());
    head.query(&vec![("force".to_string(), "yes".to_string())]);
    let panicked = RequestPanicked(head);
    assert_eq!(panicked.description(), "A panic occurred while executing a request.");
    assert_eq!(
        panicked.display(),
        "Panic while executing request: \"DELETE /items/1force=yes\""
    );
    assert_eq!(
        Error::from(panicked).description(),
        "A panic occurred while executing a request."
    );
}

#[test]
fn json_serializers_announce_json() {
    assert!(matches!(anterofit::serialize::json::Serializer.content_type(), Some(Mime::Json)));
    assert!(matches!(PrettySerializer::new().content_type(), Some(Mime::Json)));
    assert_eq!(PrettySerializer::new().indent(), None);
    assert_eq!(PrettySerializer::with_indent(4).indent(), Some(4));
    assert_eq!(PrettySerializer::with_indent(0).indent(), Some(0));
}

struct Upper;

impl Encoder for Upper {
    fn encode(&self, val: &PairMap<String, String>, write: &mut Vec<u8>) -> Result<(), Error> {
        for (key, value) in val.pairs() {
            write.extend_from_slice(key.to_uppercase().as_bytes());
            write.push(b'=');
            write.extend_from_slice(value.to_uppercase().as_bytes());
            write.push(b';');
        }
        Ok(())
    }

    fn content_type(&self) -> Option<Mime> {
        Some(Mime::Other("text/x-upper".to_string()))
    }
}

impl Decoder for Upper {
    fn decode(&self, read: &Vec<u8>) -> Result<String, Error> {
        Error::map_deserialize(
            String::from_utf8(read.clone()).map(|s| s.to_uppercase()).map_err(|e| e.to_string()),
        )
    }
}

#[test]
fn plain_encoder_serves_as_a_serializer() {
    let mut map: PairMap<String, String> = PairMap::new();
    map.insert("a".to_string(), "b".to_string());
    map.insert("c".to_string(), "d".to_string());
    let mut out = b"> ".to_vec();
    assert!(Plain(Upper).serialize(&map, &mut out).is_ok());
    assert_eq!(out, b"> A=B;C=D;".to_vec());
    assert_eq!(Plain(Upper).content_type().map(|m| m.to_text()), Some("text/x-upper".to_string()));
    match Plain(Upper).deserialize(&b"pong".to_vec()) {
        Ok(text) => assert_eq!(text, "PONG"),
        Err(_) => panic!("the decoder reads the text"),
    }
    assert!(matches!(Plain(Upper).deserialize(&vec![0xff]), Err(Error::Deserialize(_))));
}
