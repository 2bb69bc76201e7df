use raxon::net::{
    boundary_for, cache_image, clear_image_cache, gc_query_cache, get_cached_image,
    graphql_request, invalidate_query, is_cacheable, response_from_body, use_paginated, use_query,
    use_query_stale, ImageCache, Method, MultipartForm, QueryCache, Request, RequestConfig,
    Response, RetryLoop, RetryStep, SseEvent, SseParser,
};

#[test]
fn multipart_serializes_fields_and_files() {
    let form = MultipartForm::new()
        .field("title", "Receipt")
        .file("doc", "a.txt", "text/plain", b"hello".to_vec());
    assert_eq!(form.len(), 2);

    let mut counter = raxon::net::BoundaryCounter::new();
    let (content_type, body) = form.build(&mut counter);
    assert!(content_type.starts_with("multipart/form-data; boundary="));
    let boundary = content_type.split("boundary=").nth(1).unwrap();

    let text = String::from_utf8(body).unwrap();
    // Each part is introduced by the boundary marker.
    assert_eq!(text.matches(&format!("--{boundary}\r\n")).count(), 2);
    assert!(text.contains("Content-Disposition: form-data; name=\"title\"\r\n\r\nReceipt\r\n"));
    assert!(text.contains(
        "Content-Disposition: form-data; name=\"doc\"; filename=\"a.txt\"\r\nContent-Type: text/plain\r\n\r\nhello\r\n"
    ));
    // Closing boundary.
    assert!(text.ends_with(&format!("--{boundary}--\r\n")));
}

#[test]
fn multipart_boundaries_are_unique() {
    let mut counter = raxon::net::BoundaryCounter::new();
    let (ct1, _) = MultipartForm::new().field("a", "1").build(&mut counter);
    let (ct2, _) = MultipartForm::new().field("a", "1").build(&mut counter);
    assert_ne!(ct1, ct2, "each build must mint a fresh boundary");
}

#[test]
fn multipart_body_under_a_fixed_boundary_is_exact() {
    let form = MultipartForm::new().field("a", "1");
    let (ct, body) = form.build_with_boundary("XYZ");
    assert_eq!(ct, "multipart/form-data; boundary=XYZ");
    assert_eq!(
        String::from_utf8(body).unwrap(),
        "--XYZ\r\nContent-Disposition: form-data; name=\"a\"\r\n\r\n1\r\n--XYZ--\r\n"
    );
    let (_, empty) = MultipartForm::new().build_with_boundary("B");
    assert_eq!(String::from_utf8(empty).unwrap(), "--B--\r\n");
    assert!(MultipartForm::new().is_empty());
}

#[test]
fn boundaries_are_the_prefix_and_sixteen_hex_digits() {
    assert_eq!(boundary_for(0), "----raxonFormBoundary0000000000000000");
    assert_eq!(boundary_for(0xab), "----raxonFormBoundary00000000000000ab");
    assert_eq!(boundary_for(u64::MAX), "----raxonFormBoundaryffffffffffffffff");
}

#[test]
fn requests_and_responses() {
    let r = Request::get("https://x.test/a").header("A", "1").header("B", "2");
    assert_eq!(r.method, Method::Get);
    assert_eq!(r.url, "https://x.test/a");
    assert_eq!(r.headers, vec![("A".to_string(), "1".to_string()), ("B".to_string(), "2".to_string())]);
    assert_eq!(r.body, None);
    let p = Request::post("https://x.test/b", "payload");
    assert_eq!(p.method, Method::Post);
    assert_eq!(p.body.as_deref(), Some("payload"));

    let ok = Response::ok("pong");
    assert_eq!(ok.status, 200);
    assert_eq!(ok.body_bytes, b"pong".to_vec());
    assert!(ok.is_success());
    assert!(is_cacheable(&ok));
    let redirect = Response { status: 301, body: String::new(), body_bytes: Vec::new() };
    assert!(!redirect.is_success());
    assert!(!is_cacheable(&redirect));
    let created = Response { status: 201, body: String::new(), body_bytes: Vec::new() };
    assert!(created.is_success());
    assert!(!is_cacheable(&created));
    assert!(!Response { status: 300, body: String::new(), body_bytes: Vec::new() }.is_success());

    let lossy = response_from_body(500, vec![b'a', 0xff, b'b']);
    assert_eq!(lossy.body, "a\u{fffd}b");
    assert_eq!(lossy.body_bytes, vec![b'a', 0xff, b'b']);
}

#[test]
fn json_bodies_parse_only_when_they_are_json() {
    assert!(Response::ok("{\"a\": 1}").json_value().is_ok());
    assert!(Response::ok("{not json").json_value().is_err());
}

#[test]
fn graphql_bodies_quote_the_query() {
    let r = graphql_request("https://api.test/graphql", "{ me { id } }", Some("{\"x\":1}"));
    assert_eq!(r.method, Method::Post);
    assert_eq!(r.url, "https://api.test/graphql");
    assert_eq!(r.body.as_deref(), Some("{\"query\":\"{ me { id } }\",\"variables\":{\"x\":1}}"));
    assert_eq!(r.headers[0], ("Content-Type".to_string(), "application/json".to_string()));
    assert_eq!(r.headers[1], ("Accept".to_string(), "application/json".to_string()));
    let q = graphql_request("e", "say \"hi\"", None);
    assert_eq!(q.body.as_deref(), Some("{\"query\":\"say \\\"hi\\\"\"}"));
    // Control and non-ASCII characters are escaped as JSON, and the body parses.
    let j = graphql_request("e", "a\u{1}\té", None);
    assert_eq!(j.body.as_deref(), Some("{\"query\":\"a\\u0001\\té\"}"));
    let parsed: serde_json::Value = serde_json::from_str(j.body.as_deref().unwrap()).unwrap();
    assert_eq!(parsed["query"], "a\u{1}\té");
    let f = raxon::net::graphql_request_from_quoted("e", "\"x\"", Some("[]"));
    assert_eq!(f.body.as_deref(), Some("{\"query\":\"x\",\"variables\":[]}"));
}

#[test]
fn retries_stop_at_the_first_success_or_after_the_last_attempt() {
    let mut config = RequestConfig::default();
    assert_eq!(config.timeout_secs, 30);
    assert_eq!(config.retry_delay_ms, 1000);
    config.retry_count = 2;
    config.retry_delay_ms = 50;
    let (mut lp, first) = RetryLoop::start(&config);
    assert_eq!(first, RetryStep::Attempt { attempt: 0, delay_ms: 0 });
    assert_eq!(lp.on_outcome(Err("a".to_string())), RetryStep::Attempt { attempt: 1, delay_ms: 50 });
    assert_eq!(lp.on_outcome(Err("b".to_string())), RetryStep::Attempt { attempt: 2, delay_ms: 50 });
    assert_eq!(lp.on_outcome(Err("c".to_string())), RetryStep::Done(Err("c".to_string())));

    let (mut once, _) = RetryLoop::start(&RequestConfig::default());
    assert_eq!(once.on_outcome(Ok(Response::ok("x"))), RetryStep::Done(Ok(Response::ok("x"))));
}

#[test]
fn pages_append_until_an_empty_page() {
    let mut p = use_paginated(vec![0u32]);
    p.load_next(|page| if page <= 2 { vec![page * 10, page * 10 + 1] } else { Vec::new() });
    assert_eq!(p.items, vec![0, 10, 11]);
    assert_eq!(p.page, 1);
    p.load_next(|page| if page <= 2 { vec![page * 10] } else { Vec::new() });
    assert_eq!(p.items, vec![0, 10, 11, 20]);
    p.load_next(|_| Vec::new());
    assert!(!p.has_more);
    assert_eq!(p.page, 2);
    assert!(!p.loading);
    p.load_next(|_| vec![99]);
    assert_eq!(p.items, vec![0, 10, 11, 20]);
}

#[test]
fn query_cache_deduplicates_and_ages_out() {
    let mut cache: QueryCache<u32> = QueryCache::new();
    assert_eq!(use_query(&mut cache, "/a", 10, |_| 1), 1);
    assert_eq!(use_query(&mut cache, "/a", 11, |_| 2), 1);
    assert_eq!(use_query(&mut cache, "/b", 20, |_| 3), 3);
    invalidate_query(&mut cache, "/a");
    assert_eq!(use_query(&mut cache, "/a", 30, |_| 4), 4);
    // Fetched at 30: not stale after 5 seconds at 34, stale at 36.
    assert_eq!(use_query_stale(&mut cache, "/a", 5, 34, |_| 5), 4);
    assert_eq!(use_query_stale(&mut cache, "/a", 5, 36, |_| 6), 6);
    // Zero means never revalidate.
    assert_eq!(use_query_stale(&mut cache, "/a", 0, 1000, |_| 7), 6);
    // u64::MAX means always refetch, even right after a fetch.
    assert_eq!(use_query_stale(&mut cache, "/a", u64::MAX, 36, |_| 10), 10);
    assert_eq!(use_query_stale(&mut cache, "/a", u64::MAX, 36, |_| 6), 6);
    // At 90 with max age 60: "/b" (fetched at 20) goes, "/a" (36) stays.
    gc_query_cache(&mut cache, 60, 90);
    assert_eq!(use_query(&mut cache, "/a", 90, |_| 8), 6);
    assert_eq!(use_query(&mut cache, "/b", 90, |_| 9), 9);
}

#[test]
fn image_cache_stores_and_clears() {
    let mut cache = ImageCache::new();
    assert_eq!(get_cached_image(&cache, "u"), None);
    cache_image(&mut cache, "u", vec![1, 2, 3]);
    cache_image(&mut cache, "v", vec![4]);
    cache_image(&mut cache, "u", vec![5]);
    assert_eq!(get_cached_image(&cache, "u"), Some(vec![5]));
    assert_eq!(get_cached_image(&cache, "v"), Some(vec![4]));
    clear_image_cache(&mut cache);
    assert_eq!(get_cached_image(&cache, "v"), None);
}

#[test]
fn sse_lines_assemble_events() {
    let mut p = SseParser::new();
    assert_eq!(p.feed_line(": comment\n"), None);
    assert_eq!(p.feed_line("event: update\n"), None);
    assert_eq!(p.feed_line("data: one\n"), None);
    assert_eq!(p.feed_line("data:two\r\n"), None);
    assert_eq!(p.feed_line("id: 7\n"), None);
    assert_eq!(
        p.feed_line("\n"),
        Some(SseEvent { event: "update".to_string(), data: "one\ntwo".to_string(), id: Some("7".to_string()) })
    );
    // After dispatch the event type resets; an empty line without data sends nothing.
    assert_eq!(p.feed_line("\r\n"), None);
    assert_eq!(p.feed_line("data: x"), None);
    assert_eq!(
        p.feed_line(""),
        Some(SseEvent { event: "message".to_string(), data: "x".to_string(), id: None })
    );
}

#[test]
fn a_boundary_counter_mints_distinct_boundaries() {
    let mut counter = raxon::net::BoundaryCounter::new();
    assert_eq!(raxon::net::next_boundary(&mut counter), "----raxonFormBoundary0000000000000000");
    assert_eq!(raxon::net::next_boundary(&mut counter), "----raxonFormBoundary0000000000000001");
    counter.next = 0xfe;
    assert_eq!(raxon::net::next_boundary(&mut counter), "----raxonFormBoundary00000000000000fe");
    counter.next = u64::MAX;
    assert_eq!(raxon::net::next_boundary(&mut counter), "----raxonFormBoundaryffffffffffffffff");
    assert_eq!(counter.next, 0);
}
