use http_cache::cache::{HttpCache, HttpCacheData, InterruptCondition};
use http_cache::resource::{
    parse_u64_dec, CacheError, Header, Headers, HttpVersion, Method, Request, RequestBody,
    Response, Transport, TransportFailure,
};

/// A transport that replays a fixed list of responses and records every
/// request it was asked to issue.
struct ScriptedTransport {
    responses: Vec<Response>,
    issued: Vec<(Method, Vec<u8>)>,
}

impl ScriptedTransport {
    fn new(responses: Vec<Response>) -> ScriptedTransport {
        ScriptedTransport { responses, issued: Vec::new() }
    }
}

impl Transport for ScriptedTransport {
    fn issue(&mut self, request: &Request) -> Result<Response, TransportFailure> {
        self.issued.push((request.method, request.url.clone()));
        if self.responses.is_empty() {
            Err(TransportFailure)
        } else {
            Ok(self.responses.remove(0))
        }
    }
}

fn url() -> Vec<u8> {
    b"https://example.org/".to_vec()
}

fn header(name: &str, value: &str) -> Header {
    Header { name: name.as_bytes().to_vec(), value: value.as_bytes().to_vec() }
}

fn plain_headers() -> Headers {
    Headers { entries: vec![header("Content-Type", "text/html")] }
}

fn probe_response() -> Response {
    Response {
        version: HttpVersion::Http11,
        status: 200,
        headers: plain_headers(),
        reported_length: Some(0),
        body: None,
    }
}

fn full_response(body: &str) -> Response {
    Response {
        version: HttpVersion::Http11,
        status: 200,
        headers: plain_headers(),
        reported_length: Some(body.len() as u64),
        body: Some(body.as_bytes().to_vec()),
    }
}

#[test]
fn test_http_cache() {
    let request = Request::new(Method::Get, url());
    let mut cache = HttpCache::new(request);
    let mut transport = ScriptedTransport::new(vec![probe_response(), full_response("hello")]);

    assert!(cache.version(&mut transport).is_some());
    assert!(!cache.fsm_is_locked());
    assert!(cache.body(&mut transport).is_some());
    assert!(cache.fsm_is_locked());
}

#[test]
fn test_http_cache_interupt_conditions_met() {
    let request = Request::new(Method::Head, url());
    let mut cache = HttpCache::new(request);
    let mut transport = ScriptedTransport::new(vec![probe_response(), full_response("hello")]);

    cache.add_interupt_condition(InterruptCondition::MethodIs(Method::Head));

    assert!(cache.body(&mut transport).is_none());
    assert!(cache.fsm_is_locked());
}

#[test]
fn test_http_cache_interupt_conditions_not_met() {
    let request = Request::new(Method::Get, url());
    let mut cache = HttpCache::new(request);
    let mut transport = ScriptedTransport::new(vec![probe_response(), full_response("hello")]);

    cache.add_interupt_condition(InterruptCondition::MethodIs(Method::Head));

    assert!(cache.body(&mut transport).is_some());
    assert!(cache.fsm_is_locked());
}

#[test]
fn probe_issues_cheaper_method_then_full_fetch_issues_original() {
    let request = Request::new(Method::Get, url());
    let mut cache = HttpCache::new(request);
    let mut transport = ScriptedTransport::new(vec![probe_response(), full_response("hi")]);

    assert!(cache.body(&mut transport).is_some());
    assert_eq!(transport.issued.len(), 2);
    assert_eq!(transport.issued[0].0, Method::Head);
    assert_eq!(transport.issued[0].1, url());
    assert_eq!(transport.issued[1].0, Method::Get);
    assert_eq!(transport.issued[1].1, url());
}

#[test]
fn locked_cache_is_idempotent_and_does_no_further_work() {
    let request = Request::new(Method::Get, url());
    let mut cache = HttpCache::new(request);
    let mut transport = ScriptedTransport::new(vec![probe_response(), full_response("hello")]);

    let first = cache.body(&mut transport);
    assert!(cache.fsm_is_locked());
    let calls_after_lock = transport.issued.len();

    let second = cache.body(&mut transport);
    let third = cache.body(&mut transport);
    assert_eq!(first, second);
    assert_eq!(second, third);
    assert_eq!(cache.version(&mut transport), Some(HttpVersion::Http11));
    assert_eq!(cache.status_code(&mut transport), Some(200));
    assert_eq!(transport.issued.len(), calls_after_lock);
}

#[test]
fn condition_true_after_first_advance_prevents_any_later_advance() {
    let request = Request::new(Method::Head, url());
    let mut cache = HttpCache::new(request);
    let mut transport = ScriptedTransport::new(vec![probe_response(), full_response("hello")]);

    cache.add_interupt_condition(InterruptCondition::MethodIs(Method::Head));

    assert!(cache.body(&mut transport).is_none());
    assert!(cache.fsm_is_locked());
    assert_eq!(transport.issued.len(), 1);

    // Unpopulated fields remain unknown forever.
    assert!(cache.body(&mut transport).is_none());
    assert!(cache.content_type(&mut transport).is_some());
    assert_eq!(transport.issued.len(), 1);
}

#[test]
fn status_condition_locks_after_probe_on_failure_status() {
    let request = Request::new(Method::Get, url());
    let mut cache = HttpCache::new(request);
    let not_found = Response {
        version: HttpVersion::Http11,
        status: 404,
        headers: plain_headers(),
        reported_length: Some(0),
        body: None,
    };
    let mut transport = ScriptedTransport::new(vec![not_found, full_response("hello")]);

    cache.add_interupt_condition(InterruptCondition::StatusNotSuccessful);

    assert!(cache.body(&mut transport).is_none());
    assert!(cache.fsm_is_locked());
    assert_eq!(transport.issued.len(), 1);
    assert_eq!(cache.status_code(&mut transport), Some(404));
}

#[test]
fn status_condition_lets_successful_fetch_resolve_body() {
    let request = Request::new(Method::Get, url());
    let mut cache = HttpCache::new(request);
    let mut transport = ScriptedTransport::new(vec![probe_response(), full_response("hello")]);

    cache.add_interupt_condition(InterruptCondition::StatusNotSuccessful);

    assert_eq!(cache.body(&mut transport), Some(b"hello".to_vec()));
    assert!(cache.fsm_is_locked());
    assert_eq!(transport.issued.len(), 2);
}

#[test]
fn content_type_condition_stops_after_probe() {
    let request = Request::new(Method::Get, url());
    let mut cache = HttpCache::new(request);
    let pdf = Response {
        version: HttpVersion::Http11,
        status: 200,
        headers: Headers { entries: vec![header("Content-Type", "application/pdf")] },
        reported_length: None,
        body: None,
    };
    let mut transport = ScriptedTransport::new(vec![pdf, full_response("hello")]);

    cache.add_interupt_condition(InterruptCondition::ContentTypeIs(
        b"application/pdf".to_vec(),
    ));

    assert!(cache.body(&mut transport).is_none());
    assert!(cache.fsm_is_locked());
    assert_eq!(transport.issued.len(), 1);
    assert_eq!(cache.content_type(&mut transport), Some(b"application/pdf".to_vec()));
}

#[test]
fn empty_body_stays_absent_at_lock() {
    let request = Request::new(Method::Get, url());
    let mut cache = HttpCache::new(request);
    let empty_full = Response {
        version: HttpVersion::Http11,
        status: 200,
        headers: plain_headers(),
        reported_length: Some(0),
        body: Some(Vec::new()),
    };
    let mut transport = ScriptedTransport::new(vec![probe_response(), empty_full]);

    assert_eq!(cache.body(&mut transport), None);
    assert!(cache.fsm_is_locked());
    assert_eq!(cache.failure(), None);
}

#[test]
fn transport_failure_is_surfaced_and_locks() {
    let request = Request::new(Method::Get, url());
    let mut cache = HttpCache::new(request);
    let mut transport = ScriptedTransport::new(Vec::new());

    assert_eq!(cache.body(&mut transport), None);
    assert!(cache.fsm_is_locked());
    assert_eq!(cache.failure(), Some(CacheError::Transport));
}

#[test]
fn streaming_request_fails_as_non_reproducible() {
    let request = Request { method: Method::Get, url: url(), body: RequestBody::Streaming };
    let mut cache = HttpCache::new(request);
    let mut transport = ScriptedTransport::new(vec![probe_response(), full_response("hello")]);

    assert_eq!(cache.body(&mut transport), None);
    assert!(cache.fsm_is_locked());
    assert_eq!(cache.failure(), Some(CacheError::NonReproducible));
    assert_eq!(transport.issued.len(), 0);
}

#[test]
fn malformed_content_type_is_surfaced_and_locks() {
    let request = Request::new(Method::Get, url());
    let mut cache = HttpCache::new(request);
    let bad = Response {
        version: HttpVersion::Http11,
        status: 200,
        headers: Headers {
            entries: vec![Header {
                name: b"content-type".to_vec(),
                value: vec![0x07, 0xff],
            }],
        },
        reported_length: None,
        body: None,
    };
    let mut transport = ScriptedTransport::new(vec![bad]);

    assert_eq!(cache.body(&mut transport), None);
    assert!(cache.fsm_is_locked());
    assert_eq!(cache.failure(), Some(CacheError::MalformedMetadata));
    // Fields written before the failure are kept.
    assert_eq!(cache.status_code(&mut transport), Some(200));
}

#[test]
fn header_lookup_is_case_insensitive_and_first_match_wins() {
    let headers = Headers {
        entries: vec![
            header("X-First", "a"),
            header("Content-Type", "text/html"),
            header("CONTENT-TYPE", "application/json"),
        ],
    };
    assert_eq!(headers.get(&b"content-type".to_vec()), Some(b"text/html".to_vec()));
    assert_eq!(headers.get(&b"x-first".to_vec()), Some(b"a".to_vec()));
    assert_eq!(headers.get(&b"missing".to_vec()), None);
}

#[test]
fn parseable_content_length_header_wins_over_transport_value() {
    let request = Request::new(Method::Get, url());
    let mut data = HttpCacheData::new(request);
    let response = Response {
        version: HttpVersion::Http11,
        status: 200,
        headers: Headers { entries: vec![header("Content-Length", "4096")] },
        reported_length: Some(7),
        body: None,
    };
    assert!(data.populate(response).is_ok());
    assert_eq!(data.content_length, Some(4096));
}

#[test]
fn unparseable_content_length_header_keeps_transport_value() {
    let request = Request::new(Method::Get, url());
    let mut data = HttpCacheData::new(request);
    let response = Response {
        version: HttpVersion::Http11,
        status: 200,
        headers: Headers { entries: vec![header("Content-Length", "many")] },
        reported_length: Some(7),
        body: None,
    };
    assert!(data.populate(response).is_ok());
    assert_eq!(data.content_length, Some(7));
}

#[test]
fn populate_is_monotonic_and_fills_metadata() {
    let request = Request::new(Method::Get, url());
    let mut data = HttpCacheData::new(request);
    let first = Response {
        version: HttpVersion::Http11,
        status: 200,
        headers: Headers { entries: vec![header("Content-Type", "text/html")] },
        reported_length: Some(5),
        body: None,
    };
    assert!(data.populate(first).is_ok());
    assert_eq!(data.version, Some(HttpVersion::Http11));
    assert_eq!(data.status_code, Some(200));
    assert_eq!(data.content_type, Some(b"text/html".to_vec()));
    assert_eq!(data.content_length, Some(5));
    assert!(data.body.is_none());

    // A second response without those headers leaves set fields set.
    let second = Response {
        version: HttpVersion::Http11,
        status: 200,
        headers: Headers { entries: Vec::new() },
        reported_length: None,
        body: Some(b"hello".to_vec()),
    };
    assert!(data.populate(second).is_ok());
    assert_eq!(data.content_type, Some(b"text/html".to_vec()));
    assert_eq!(data.content_length, Some(5));
    assert_eq!(data.body, Some(b"hello".to_vec()));
}

#[test]
fn request_clone_duplicates_and_streaming_does_not() {
    let plain = Request::new(Method::Get, url());
    let copy = plain.try_clone().unwrap();
    assert_eq!(copy.method, Method::Get);
    assert_eq!(copy.url, url());

    let streaming = Request { method: Method::Post, url: url(), body: RequestBody::Streaming };
    assert!(streaming.try_clone().is_none());
}

#[test]
fn request_accessor_is_read_only_and_headers_resolve() {
    let request = Request::new(Method::Get, url());
    let mut cache = HttpCache::new(request);
    let mut transport = ScriptedTransport::new(vec![probe_response(), full_response("hello")]);

    assert_eq!(cache.request().method, Method::Get);
    assert_eq!(cache.request().url, url());
    assert_eq!(transport.issued.len(), 0);

    let headers = cache.headers(&mut transport).expect("headers should resolve");
    assert_eq!(headers.entries.len(), 1);
    assert_eq!(headers.entries[0].name, b"Content-Type".to_vec());
    assert_eq!(headers.entries[0].value, b"text/html".to_vec());
    // One probe advance was enough to resolve the headers.
    assert_eq!(transport.issued.len(), 1);
    assert!(!cache.fsm_is_locked());
}

#[test]
fn parse_u64_exact_values() {
    assert_eq!(parse_u64_dec(&b"0".to_vec()), Some(0));
    assert_eq!(parse_u64_dec(&b"4096".to_vec()), Some(4096));
    assert_eq!(parse_u64_dec(&b"18446744073709551615".to_vec()), Some(u64::MAX));
    assert_eq!(parse_u64_dec(&b"18446744073709551616".to_vec()), None);
    assert_eq!(parse_u64_dec(&b"".to_vec()), None);
    assert_eq!(parse_u64_dec(&b"12a".to_vec()), None);
    assert_eq!(parse_u64_dec(&b"-1".to_vec()), None);
}
