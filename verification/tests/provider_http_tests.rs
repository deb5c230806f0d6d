use wire_substrate::provider_http::{
    body_range, parse_request_head, provider_route, scan_head, status_text, HeadScan, ProviderRoute,
    RequestHead,
};

#[test]
fn request_heads_give_method_path_and_length() {
    let head = parse_request_head(
        "POST /v1/compute/job-dispatch?x=1 HTTP/1.1\r\nHost: a\r\nCONTENT-length:  42 \r\nX: y",
    )
    .unwrap();
    assert_eq!(
        head,
        RequestHead {
            method: "POST".to_owned(),
            path: "/v1/compute/job-dispatch".to_owned(),
            content_length: 42,
        }
    );
    let no_body = parse_request_head("GET /health HTTP/1.1\r\nHost: a").unwrap();
    assert_eq!(no_body.content_length, 0);
    // The last Content-Length wins.
    let twice = parse_request_head("GET / HTTP/1.1\r\nContent-Length: 1\r\ncontent-length: +2").unwrap();
    assert_eq!(twice.content_length, 2);
}

#[test]
fn malformed_heads_are_refused() {
    assert_eq!(parse_request_head(""), Err("missing method".to_owned()));
    assert_eq!(parse_request_head("GET\r\nHost: a"), Err("missing path".to_owned()));
    let bad = parse_request_head("GET / HTTP/1.1\r\nContent-Length: ten").unwrap_err();
    assert!(bad.starts_with("invalid content-length: "));
    assert!(bad.len() > "invalid content-length: ".len());
}

#[test]
fn provider_routes_requests() {
    assert_eq!(provider_route("GET", "/health"), ProviderRoute::Health);
    assert_eq!(provider_route("POST", "/v1/compute/job-result"), ProviderRoute::JobResult);
    assert_eq!(provider_route("POST", "/v1/compute/job-dispatch"), ProviderRoute::JobDispatch);
    assert_eq!(provider_route("GET", "/v1/compute/job-dispatch"), ProviderRoute::NotFound);
    assert_eq!(status_text(202), "Accepted");
    assert_eq!(status_text(404), "Not Found");
    assert_eq!(status_text(200), "OK");
    assert_eq!(status_text(500), "OK");
}

#[test]
fn heads_complete_at_the_blank_line() {
    assert_eq!(scan_head(b"GET / HTTP/1.1\r\n\r\n"), HeadScan::Complete(14));
    assert_eq!(scan_head(b"GET / HTTP/1.1\r\n"), HeadScan::NeedMore);
    assert_eq!(scan_head(&vec![b'a'; 65537]), HeadScan::TooLarge);
    assert_eq!(body_range(14, 5, 30), (18, 23));
    assert_eq!(body_range(14, 100, 30), (18, 30));
}
