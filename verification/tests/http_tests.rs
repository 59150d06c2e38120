use softether_exporter::http::{
    route, Response, Route, HTML, LANDING_PAGE, METRICS_PATH, PLAIN_TEXT, TEXT_FORMAT,
};

#[test]
fn route_matches_the_metrics_path_exactly() {
    assert_eq!(route("/metrics"), Route::Metrics);
    assert_eq!(route(METRICS_PATH), Route::Metrics);
}

#[test]
fn route_sends_every_other_path_to_the_landing_page() {
    for path in
        ["", "/", "/metrics/", "/metrics?x=1", "metrics", "/Metrics", "/METRICS", "/metric", "/metricss", " /metrics", "/metrics ", "/favicon.ico", "/a/b/c", "*"]
    {
        assert_eq!(route(path), Route::Landing, "path = {:?}", path);
    }
}

#[test]
fn landing_response_is_the_static_page() {
    let r = Response::landing();
    assert_eq!(r.status, 200);
    assert_eq!(r.content_type, "text/html");
    assert_eq!(r.content_type, HTML);
    assert_eq!(r.body, LANDING_PAGE.as_bytes().to_vec());
    let page = String::from_utf8(r.body).unwrap();
    assert!(page.contains("<a href=\"/metrics\">Metrics</a>"));
    assert!(page.starts_with("<html>"));
    assert!(page.ends_with("</html>"));
}

#[test]
fn landing_page_text_is_fixed() {
    assert_eq!(
        LANDING_PAGE,
        "<html>\n<head><title>SoftEther Exporter</title></head>\n<body>\n<h1>SoftEther Exporter</h1>\n<p><a href=\"/metrics\">Metrics</a></p>\n</body>\n</html>"
    );
}

#[test]
fn metrics_response_carries_the_body_under_the_exposition_media_type() {
    let body = b"softether_up{hub=\"HUB1\"} 1\n".to_vec();
    let r = Response::metrics(body.clone());
    assert_eq!(r.status, 200);
    assert_eq!(r.content_type, "text/plain; version=0.0.4");
    assert_eq!(r.content_type, TEXT_FORMAT);
    assert_eq!(r.content_type, prometheus::TEXT_FORMAT);
    assert_eq!(r.body, body);
}

#[test]
fn metrics_response_may_be_empty() {
    let r = Response::metrics(Vec::new());
    assert_eq!(r.status, 200);
    assert!(r.body.is_empty());
    assert_eq!(r.content_type, TEXT_FORMAT);
}

#[test]
fn encoding_failure_fails_the_request_only() {
    let r = Response::encoding_failure("MetricFamily has no name");
    assert_eq!(r.status, 500);
    assert_eq!(r.content_type, PLAIN_TEXT);
    assert_eq!(r.content_type, "text/plain");
    assert_eq!(r.body, b"MetricFamily has no name".to_vec());
}

#[test]
fn encoding_failure_body_is_utf8_of_the_error() {
    let r = Response::encoding_failure("défaut ✗");
    assert_eq!(r.body, "défaut ✗".as_bytes().to_vec());
}
