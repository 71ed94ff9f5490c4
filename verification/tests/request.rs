use anterofit::adapter::Adapter;
use anterofit::error::{Error, NoSerializeError};
use anterofit::mime::Mime;
use anterofit::mpmc::{channel, JobQueue, Recv, Wake};
use anterofit::net::body::{EmptyFields, Fields, RawBody, Readable, TextFields};
use anterofit::net::call::Async;
use anterofit::net::intercept::{AddHeader, AppendQuery, Interceptor, NoIntercept, PrependUrl};
use anterofit::net::method::{Delete, Get, HttpMethod, Method, Patch, Post, Put};
use anterofit::net::request::{
    decode, exec_request, ready_request, Job, Prepared, Request, RequestBuilder, RequestHead,
    Stage, URL_LIMIT,
};
use anterofit::net::response::{FromResponse, Raw, Response, TryWithRaw, WithRaw};
use anterofit::serialize::none::{NoDeserializer, NoSerializer};
use anterofit::serialize::{FromStrDeserializer, PairMap};

fn pair(name: &str, value: &str) -> (String, String) {
    (name.to_string(), value.to_string())
}

struct Spy {
    sent: usize,
}

impl Spy {
    fn send<R>(&mut self, _request: &Prepared<R>) -> Result<Response, Error> {
        self.sent += 1;
        Ok(Response { status: 200, body: b"pong".to_vec() })
    }
}

#[test]
fn new_head_has_no_query_and_no_headers() {
    let head = RequestHead::new(HttpMethod::Post, "/users".to_string());
    assert_eq!(head.get_url(), "/users");
    assert_eq!(head.get_query(), "");
    assert_eq!(*head.get_method(), HttpMethod::Post);
    assert!(head.header_pairs().is_empty());
    assert_eq!(head.display(), "POST /users");
}

#[test]
fn append_url_percent_encodes() {
    let mut head = RequestHead::new(HttpMethod::Get, "/search/".to_string());
    head.append_url("foo bar?");
    assert_eq!(head.get_url(), "/search/foo%20bar%3F");
}

#[test]
fn append_url_encodes_each_byte_that_does_not_stand_for_itself() {
    let mut head = RequestHead::new(HttpMethod::Get, String::new());
    head.append_url("a/b%c~ \"#<>`?{}\u{7f}\n\u{e9}\u{20ac}");
    assert_eq!(
        head.get_url(),
        "a/b%c~%20%22%23%3C%3E%60%3F%7B%7D%7F%0A%C3%A9%E2%82%AC"
    );
    let mut plain = RequestHead::new(HttpMethod::Get, "/".to_string());
    plain.append_url("!$&'()*+,-.0129:;=@AZ[\\]^_az|~");
    assert_eq!(plain.get_url(), "/!$&'()*+,-.0129:;=@AZ[\\]^_az|~");
}

#[test]
fn prepend_url_does_not_encode() {
    let mut head = RequestHead::new(HttpMethod::Get, "/users".to_string());
    head.prepend_url("/v1 beta");
    assert_eq!(head.get_url(), "/v1 beta/users");
}

#[test]
fn query_pairs_are_form_encoded_behind_those_set() {
    let mut head = RequestHead::new(HttpMethod::Get, "/users".to_string());
    head.query(&vec![pair("foo", "bar & baz"), pair("saison", "Été+hiver")]);
    assert_eq!(head.get_query(), "foo=bar+%26+baz&saison=%C3%89t%C3%A9%2Bhiver");
    head.query(&vec![pair("id", "3")]);
    assert_eq!(head.get_query(), "foo=bar+%26+baz&saison=%C3%89t%C3%A9%2Bhiver&id=3");
    head.query(&Vec::new());
    assert_eq!(head.get_query(), "foo=bar+%26+baz&saison=%C3%89t%C3%A9%2Bhiver&id=3");
    head.append_query(&vec![pair("q", "a b")]);
    assert_eq!(head.get_query(), "foo=bar+%26+baz&saison=%C3%89t%C3%A9%2Bhiver&id=3&q=a+b");
}

#[test]
fn header_overwrites_the_value_under_the_same_name() {
    let mut head = RequestHead::new(HttpMethod::Get, "/".to_string());
    head.header("Accept".to_string(), "text/plain".to_string());
    head.header("X-Token".to_string(), "one".to_string());
    head.header("Accept".to_string(), "application/json".to_string());
    assert_eq!(
        head.header_pairs(),
        vec![pair("Accept", "application/json"), pair("X-Token", "one")]
    );
    head.headers(&vec![pair("X-Token", "two"), pair("X-Other", "three")]);
    assert_eq!(
        head.header_pairs(),
        vec![pair("Accept", "application/json"), pair("X-Token", "two"), pair("X-Other", "three")]
    );
}

#[test]
fn headers_are_kept_in_the_map_of_the_transport() {
    let mut head = RequestHead::new(HttpMethod::Get, "/".to_string());
    assert_eq!(head.get_headers().len(), 0);
    head.header("Accept".to_string(), "text/plain".to_string());
    head.header("X-Note".to_string(), "two\nlines, one field".to_string());
    assert_eq!(head.get_headers().len(), 2);
    assert_eq!(head.get_headers().get_raw("accept"), Some(&[b"text/plain".to_vec()][..]));
    assert!(head.get_headers().get_raw("Content-Type").is_none());
    assert_eq!(
        head.header_pairs(),
        vec![pair("Accept", "text/plain"), pair("X-Note", "two\nlines, one field")]
    );
}

#[test]
fn header_names_are_told_apart_without_regard_to_case() {
    let mut head = RequestHead::new(HttpMethod::Get, "/".to_string());
    head.header("Content-Type".to_string(), "text/plain".to_string());
    head.header("X-Token".to_string(), "one".to_string());
    head.header("content-type".to_string(), "application/json".to_string());
    assert_eq!(
        head.header_pairs(),
        vec![pair("content-type", "application/json"), pair("X-Token", "one")]
    );
    head.header("x-TOKEN".to_string(), "two".to_string());
    head.header("X-Token2".to_string(), "three".to_string());
    head.header("X-Tokén".to_string(), "four".to_string());
    head.header("X-TokÉn".to_string(), "five".to_string());
    assert_eq!(
        head.header_pairs(),
        vec![
            pair("content-type", "application/json"),
            pair("x-TOKEN", "two"),
            pair("X-Token2", "three"),
            pair("X-Tokén", "four"),
            pair("X-TokÉn", "five")
        ]
    );
}

#[test]
fn content_type_of_the_body_replaces_one_set_in_any_case() {
    let mut head = RequestHead::new(HttpMethod::Post, "http://localhost/upload".to_string());
    head.header("content-type".to_string(), "text/plain".to_string());
    let readable = Readable::new(vec![1u8], Some(Mime::Json));
    match ready_request(None, &mut head, readable) {
        Ok(prepared) => {
            assert_eq!(prepared.headers, vec![pair("Content-Type", "application/json")])
        }
        Err(_) => panic!("the request is ready"),
    }
}

#[test]
fn stages_hand_back_the_guard_that_spoke() {
    let request: Request<String, PairMap<String, String>> =
        RequestBuilder::new(Post, "http://localhost/ping".to_string())
            .body(PairMap::new())
            .build();
    let (job, call) = request.exec_here();
    match job.unwrap().prepare(None, &NoSerializer, Some(&NoIntercept)) {
        Stage::Done(guard) => {
            assert!(!guard.armed());
            assert!(guard.has_head());
        }
        Stage::Send(..) => panic!("without a serializer nothing is to be sent"),
    }
    assert!(matches!(call.block(), Err(Error::NoSerialize(NoSerializeError::Serialize))));

    let request: Request<String, EmptyFields> =
        RequestBuilder::new(Get, "http://localhost/ping".to_string()).build();
    let (job, call) = request.exec_here();
    match job.unwrap().prepare(None, &NoSerializer, Some(&NoIntercept)) {
        Stage::Send(_, flight) => {
            let guard = flight
                .finish(&FromStrDeserializer, Ok(Response { status: 200, body: b"ok".to_vec() }));
            assert!(!guard.armed());
        }
        Stage::Done(_) => panic!("the request is ready"),
    }
    match call.block() {
        Ok(text) => assert_eq!(text, "ok"),
        Err(_) => panic!("the response decodes"),
    }

    let request: Request<String, EmptyFields> =
        RequestBuilder::new(Get, "http://localhost/ping".to_string()).build();
    let (job, _call) = request.exec_here();
    assert!(!job.unwrap().fail(Error::ResultTaken).armed());
}

#[test]
fn immediate_request_needs_no_room_in_the_queue() {
    let (tx, _rx, mut queue): (_, _, JobQueue<Job<u32, EmptyFields>>) = channel(0);
    let request: Request<u32, EmptyFields> = Request::immediate(Ok(1));
    let (call, wake) = request.exec(&tx, &mut queue);
    assert_eq!(wake, Wake::Nobody);
    assert!(matches!(call.block(), Ok(1)));
}

#[test]
fn eager_body_is_what_was_serialized() {
    let builder = RequestBuilder::new(Post, "http://localhost/raw".to_string())
        .body_eager(RawBody::text("now".to_string()), &NoSerializer)
        .ok()
        .expect("a raw body serializes without a serializer");
    let request: Request<Raw, _> = builder.build();
    let (job, _call) = request.exec_here();
    match job.unwrap().prepare(None, &NoSerializer, Some(&NoIntercept)) {
        Stage::Send(prepared, _) => {
            assert_eq!(prepared.body, "now");
            assert_eq!(prepared.headers, vec![pair("Content-Type", "text/plain; charset=utf-8")]);
        }
        Stage::Done(_) => panic!("the request is ready"),
    }
}

#[test]
fn init_request_joins_the_base_and_sets_the_query() {
    let mut head = RequestHead::new(HttpMethod::Get, "users".to_string());
    match head.init_request(Some("https://example.com/api/")) {
        Ok(url) => assert_eq!(url, "https://example.com/api/users?"),
        Err(_) => panic!("the URL parses against its base"),
    }
    head.query(&vec![pair("page", "2")]);
    match head.init_request(Some("https://example.com/api/")) {
        Ok(url) => assert_eq!(url, "https://example.com/api/users?page=2"),
        Err(_) => panic!("the URL parses against its base"),
    }
}

#[test]
fn init_request_without_base_wants_an_absolute_url() {
    let absolute = RequestHead::new(HttpMethod::Get, "http://localhost:8080/ping".to_string());
    match absolute.init_request(None) {
        Ok(url) => assert_eq!(url, "http://localhost:8080/ping?"),
        Err(_) => panic!("an absolute URL parses"),
    }
    let relative = RequestHead::new(HttpMethod::Get, "/ping".to_string());
    match relative.init_request(None) {
        Err(Error::Url(text)) => assert_eq!(text, "relative URL without a base"),
        _ => panic!("a relative URL without a base is rejected"),
    }
    match relative.init_request(Some("not a url")) {
        Err(Error::Url(text)) => assert_eq!(text, "relative URL without a base"),
        _ => panic!("a base that is no URL is rejected"),
    }
}

#[test]
fn methods_convert_to_the_wire() {
    assert_eq!(Get.to_hyper(), HttpMethod::Get);
    assert_eq!(Post.to_hyper(), HttpMethod::Post);
    assert_eq!(Put.to_hyper(), HttpMethod::Put);
    assert_eq!(Patch.to_hyper(), HttpMethod::Patch);
    assert_eq!(Delete.to_hyper(), HttpMethod::Delete);
    assert_eq!(HttpMethod::Delete.as_str(), "DELETE");
    assert_eq!(HttpMethod::Patch.as_str(), "PATCH");
}

#[test]
fn ready_request_sets_the_content_type() {
    let mut head = RequestHead::new(HttpMethod::Post, "http://localhost/upload".to_string());
    let readable = Readable::new(vec![1u8, 2, 3], Some(Mime::OctetStream));
    match ready_request(None, &mut head, readable) {
        Ok(prepared) => {
            assert_eq!(prepared.url, "http://localhost/upload?");
            assert_eq!(prepared.method, HttpMethod::Post);
            assert_eq!(prepared.headers, vec![pair("Content-Type", "application/octet-stream")]);
            assert_eq!(prepared.body, vec![1u8, 2, 3]);
        }
        Err(_) => panic!("the request is ready"),
    }
    assert_eq!(head.header_pairs(), vec![pair("Content-Type", "application/octet-stream")]);
}

#[test]
fn stages_before_the_transport_run_in_order() {
    let mut head = RequestHead::new(HttpMethod::Post, "/login".to_string());
    let interceptor = PrependUrl::new("/v2");
    let body = EmptyFields.with_text("user".to_string(), "me & you".to_string());
    match exec_request(Some("http://localhost/"), &NoSerializer, Some(&interceptor), &mut head, body)
    {
        Ok(prepared) => {
            assert_eq!(prepared.url, "http://localhost/v2/login?");
            assert_eq!(prepared.body, "user=me+%26+you");
            assert_eq!(
                prepared.headers,
                vec![pair("Content-Type", "application/x-www-form-urlencoded")]
            );
        }
        Err(_) => panic!("every stage succeeds"),
    }
    assert_eq!(head.get_url(), "/v2/login");
}

#[test]
fn failing_encoder_ends_the_request_before_the_url() {
    let mut head = RequestHead::new(HttpMethod::Post, "not a url".to_string());
    let body: PairMap<String, String> = PairMap::new();
    let none: Option<&NoIntercept> = None;
    match exec_request(None, &NoSerializer, none, &mut head, body) {
        Err(Error::NoSerialize(NoSerializeError::Serialize)) => {}
        _ => panic!("without a serializer the body fails first"),
    }
    assert!(head.header_pairs().is_empty());
}

#[test]
fn immediate_request_never_reaches_queue_or_transport() {
    let mut spy = Spy { sent: 0 };
    let (tx, rx, mut queue): (_, _, JobQueue<Job<String, EmptyFields>>) = channel(0);
    let request: Request<String, EmptyFields> =
        Request::immediate(Err(Error::Url("relative URL without a base".to_string())));
    assert!(request.is_immediate());
    let (mut call, wake) = request.exec(&tx, &mut queue);
    assert_eq!(wake, Wake::Nobody);
    while let Recv::Job(job) = rx.recv(&mut queue) {
        if let Stage::Send(prepared, flight) = job.prepare(None, &NoSerializer, Some(&NoIntercept))
        {
            flight.finish(&FromStrDeserializer, spy.send(&prepared));
        }
    }
    assert_eq!(spy.sent, 0);
    assert!(call.is_available());
    match call.poll_no_task() {
        Err(Error::Url(text)) => assert_eq!(text, "relative URL without a base"),
        _ => panic!("the call holds the error of the validation"),
    }
    assert!(matches!(call.poll_no_task(), Err(Error::ResultTaken)));
}

#[test]
fn immediate_request_run_here_has_no_job() {
    let request: Request<u32, EmptyFields> = Request::immediate(Ok(7));
    let (job, call) = request.exec_here();
    assert!(job.is_none());
    assert!(matches!(call.block(), Ok(7)));
}

#[test]
fn queued_request_resolves_through_the_pipeline() {
    let mut spy = Spy { sent: 0 };
    let (tx, rx, mut queue) = channel(0);
    let request: Request<String, EmptyFields> =
        RequestBuilder::new(Get, "http://localhost/ping".to_string()).build();
    assert!(!request.is_immediate());
    let (mut call, wake) = request.exec(&tx, &mut queue);
    assert_eq!(wake, Wake::One);
    assert!(matches!(call.poll_no_task(), Ok(Async::NotReady)));
    while let Recv::Job(job) = rx.recv(&mut queue) {
        match job.prepare(None, &NoSerializer, Some(&AddHeader("X-Key".to_string(), "k".to_string())))
        {
            Stage::Send(prepared, flight) => {
                assert_eq!(prepared.url, "http://localhost/ping?");
                assert_eq!(prepared.headers, vec![pair("X-Key", "k")]);
                flight.finish(&FromStrDeserializer, spy.send(&prepared));
            }
            Stage::Done(_) => panic!("every stage before the transport succeeds"),
        }
    }
    assert_eq!(spy.sent, 1);
    match call.block() {
        Ok(text) => assert_eq!(text, "pong"),
        Err(_) => panic!("the response decodes"),
    }
}

#[test]
fn request_run_here_resolves_before_the_block() {
    let request: Request<Raw, RawBody<Vec<u8>>> =
        RequestBuilder::new(Post, "http://localhost/raw".to_string())
            .body(RawBody::bytes(vec![9u8]))
            .build();
    let (job, call) = request.exec_here();
    let job = job.expect("a built request has a job");
    match job.prepare(None, &NoSerializer, Some(&NoIntercept)) {
        Stage::Send(prepared, flight) => {
            assert_eq!(prepared.body, vec![9u8]);
            flight.finish(&NoDeserializer, Ok(Response { status: 204, body: Vec::new() }));
        }
        Stage::Done(_) => panic!("a raw body needs no serializer"),
    }
    match call.block() {
        Ok(raw) => assert_eq!(raw.into().status, 204),
        Err(_) => panic!("a raw response needs no deserializer"),
    }
}

#[test]
fn stage_error_is_delivered_through_the_call() {
    let (tx, rx, mut queue) = channel(0);
    let request: Request<String, PairMap<String, String>> =
        RequestBuilder::new(Post, "http://localhost/ping".to_string())
            .body(PairMap::new())
            .build();
    let (call, _) = request.exec(&tx, &mut queue);
    let mut sends = 0;
    while let Recv::Job(job) = rx.recv(&mut queue) {
        if let Stage::Send(..) = job.prepare(None, &NoSerializer, Some(&NoIntercept)) {
            sends += 1;
        }
    }
    assert_eq!(sends, 0);
    assert!(matches!(call.block(), Err(Error::NoSerialize(NoSerializeError::Serialize))));
}

#[test]
fn transport_error_passes_through_unchanged() {
    let request: Request<String, EmptyFields> =
        RequestBuilder::new(Get, "http://localhost/ping".to_string()).build();
    let (job, call) = request.exec_here();
    match job.unwrap().prepare(None, &NoSerializer, Some(&NoIntercept)) {
        Stage::Send(_, flight) => {
            flight.finish(&FromStrDeserializer, Err(Error::Hyper("connection refused".to_string())));
        }
        Stage::Done(_) => panic!("the request is ready"),
    }
    match call.block() {
        Err(Error::Hyper(text)) => assert_eq!(text, "connection refused"),
        _ => panic!("the error of the transport is the error of the call"),
    }
}

#[test]
fn job_given_up_resolves_its_call() {
    let request: Request<String, EmptyFields> =
        RequestBuilder::new(Get, "http://localhost/ping".to_string()).build();
    let (job, call) = request.exec_here();
    job.unwrap().fail(Error::Other("cancelled".to_string()));
    assert!(matches!(call.block(), Err(Error::Other(_))));

    let request: Request<String, EmptyFields> =
        RequestBuilder::new(Get, "http://localhost/ping".to_string()).build();
    let (job, call) = request.exec_here();
    drop(job);
    match call.block() {
        Err(Error::Panic(panicked)) => assert_eq!(panicked.0.get_url(), "http://localhost/ping"),
        _ => panic!("a job that is dropped says which request it was"),
    }
}

#[test]
fn job_refused_by_a_closed_queue_resolves_its_call() {
    let (tx, _rx, mut queue) = channel(0);
    let closing = tx.share(&mut queue).unwrap();
    closing.release(&mut queue);
    let (stale, _, _): (_, _, JobQueue<Job<String, EmptyFields>>) = channel(1);
    let request: Request<String, EmptyFields> =
        RequestBuilder::new(Get, "http://localhost/ping".to_string()).build();
    let (call, wake) = request.exec(&stale, &mut queue);
    assert_eq!(wake, Wake::Nobody);
    assert!(matches!(call.block(), Err(Error::Panic(_))));
}

#[test]
fn builder_changes_head_and_body() {
    let mut builder = RequestBuilder::new(Put, "/items".to_string());
    builder.head_mut().append_url("/a b");
    assert_eq!(builder.head().get_url(), "/items/a%20b");
    let builder = builder.body(RawBody::text("hello".to_string()));
    let builder = builder
        .apply(|b| Ok(b.force_body(RawBody::bytes(vec![1u8, 2]))))
        .ok()
        .expect("the closure's answer is the answer");
    let eager = builder
        .force_body_eager(RawBody::text("now".to_string()), &NoSerializer)
        .ok()
        .expect("a raw body serializes without a serializer");
    assert_eq!(eager.head().get_url(), "/items/a%20b");
    let failed = RequestBuilder::new(Post, "/items".to_string())
        .body_eager(PairMap::<String, String>::new(), &NoSerializer);
    assert!(matches!(failed, Err(Error::NoSerialize(NoSerializeError::Serialize))));
}

#[test]
fn decode_converts_the_response() {
    let pong = || Ok(Response { status: 200, body: b"pong".to_vec() });
    match decode::<String, _>(&FromStrDeserializer, pong()) {
        Ok(text) => assert_eq!(text, "pong"),
        Err(_) => panic!("the body is text"),
    }
    match decode::<WithRaw<String>, _>(&FromStrDeserializer, pong()) {
        Ok(with) => {
            assert_eq!(with.value, "pong");
            assert_eq!(with.raw.status, 200);
        }
        Err(_) => panic!("the body is text"),
    }
    match decode::<TryWithRaw<String>, _>(&NoDeserializer, pong()) {
        Ok(with) => {
            assert_eq!(with.raw.body, b"pong".to_vec());
            assert!(matches!(
                with.into(),
                Err(Error::NoSerialize(NoSerializeError::Deserialize))
            ));
        }
        Err(_) => panic!("the response comes back whatever the deserializer says"),
    }
    assert!(matches!(
        decode::<String, _>(&NoDeserializer, pong()),
        Err(Error::NoSerialize(NoSerializeError::Deserialize))
    ));
    assert!(matches!(
        String::from_response(&FromStrDeserializer, Response { status: 200, body: vec![0xff] }),
        Err(Error::StdIo(_))
    ));
}

#[test]
fn adapter_runs_a_request_with_its_parts() {
    let built = Adapter::builder()
        .base_url("http://localhost/api/".to_string())
        .interceptor(AppendQuery::new().pair("key", "s3cr3t"))
        .chain_interceptor(AddHeader("X-Client".to_string(), "test".to_string()))
        .deserializer(FromStrDeserializer)
        .serializer(NoSerializer)
        .build();
    let adapter = built.adapter;
    let mut queue = built.queue;
    let workers = built.workers;
    assert_eq!(workers.len(), 1);
    assert_eq!(adapter.base(), Some("http://localhost/api/"));
    assert!(adapter.sender().usable(&queue));

    let request: Request<String, TextFields> = RequestBuilder::new(Post, "login".to_string())
        .body(EmptyFields.with_text("user".to_string(), "me".to_string()))
        .build();
    let (call, wake) = adapter.submit(request, &mut queue);
    assert_eq!(wake, Wake::One);
    let mut spy = Spy { sent: 0 };
    while let anterofit::executor::Step::Run(job) = workers[0].next(&mut queue) {
        match adapter.prepare(job) {
            Stage::Send(prepared, flight) => {
                assert_eq!(prepared.url, "http://localhost/api/login?key=s3cr3t");
                assert_eq!(prepared.body, "user=me");
                assert_eq!(
                    prepared.headers,
                    vec![
                        pair("X-Client", "test"),
                        pair("Content-Type", "application/x-www-form-urlencoded")
                    ]
                );
                adapter.finish(flight, spy.send(&prepared));
            }
            Stage::Done(_) => panic!("every stage before the transport succeeds"),
        }
    }
    assert_eq!(spy.sent, 1);
    match call.block() {
        Ok(text) => assert_eq!(text, "pong"),
        Err(_) => panic!("the response decodes"),
    }
}

#[test]
fn adapter_interceptor_can_be_replaced() {
    let built = Adapter::builder().interceptor(PrependUrl::new("/a")).build::<u32>();
    let adapter = built.adapter.interceptor_mut().chain_before(PrependUrl::new("/b"));
    let mut head = RequestHead::new(HttpMethod::Get, "/x".to_string());
    adapter.interceptor().intercept(&mut head);
    assert_eq!(head.get_url(), "/a/b/x");

    let adapter = adapter.interceptor_mut().set(PrependUrl::new("/c"));
    let adapter = adapter.interceptor_mut().chain_after(PrependUrl::new("/d"));
    let adapter = adapter.interceptor_mut().chain_around(PrependUrl::new("/e"), PrependUrl::new("/f"));
    let mut head = RequestHead::new(HttpMethod::Get, "/x".to_string());
    adapter.interceptor().intercept(&mut head);
    assert_eq!(head.get_url(), "/f/d/c/e/x");

    let adapter = adapter.interceptor_mut().remove();
    let mut head = RequestHead::new(HttpMethod::Get, "/x".to_string());
    adapter.interceptor().intercept(&mut head);
    assert_eq!(head.get_url(), "/x");
    assert!(adapter.base().is_none());
}

#[test]
fn raw_body_serialized_now_needs_a_serializer() {
    let map: PairMap<String, String> = PairMap::new();
    assert!(matches!(
        RawBody::serialize_now(&NoSerializer, &map),
        Err(Error::NoSerialize(NoSerializeError::Serialize))
    ));
}

#[test]
fn query_beyond_the_limit_is_rejected_before_the_url_is_touched() {
    let mut head = RequestHead::new(HttpMethod::Get, "http://localhost/".to_string());
    assert_eq!(URL_LIMIT, 256 * 1024 * 1024);
    head.query(&vec![("k".to_string(), "v".repeat(URL_LIMIT))]);
    match head.init_request(None) {
        Err(Error::Url(text)) => assert_eq!(text, "URL or query longer than 256 MiB"),
        _ => panic!("a query beyond the limit is rejected"),
    }
}
