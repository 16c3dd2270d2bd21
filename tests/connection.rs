use mycoserver::log::LoggerState;
use mycoserver::server::{
    not_found, prepend_headers, respond, route, summarize_status, Host, RequestInfo, Response,
};
use mycoserver::timefmt::Stamp;

fn request(host: Option<Host>, path: Option<&str>) -> RequestInfo {
    RequestInfo {
        host,
        path: path.map(|p| p.to_string()),
        user_agent: None,
        ip: Some([127, 0, 0, 1]),
        referer: Some("http://example.org/".to_string()),
    }
}

fn ok_page() -> Response {
    Response {
        status: "HTTP/1.1 200 OK".to_string(),
        mime_type: "text/html".to_string(),
        content: b"<p>hi</p>".to_vec(),
    }
}

#[test]
fn status_summary_drops_protocol() {
    assert_eq!(summarize_status("HTTP/1.1 200 OK"), "200 OK");
    assert_eq!(summarize_status("  HTTP/1.1   404   Not  Found "), "404 Not Found");
    assert_eq!(summarize_status(""), "");
}

#[test]
fn framing() {
    let wire = prepend_headers(ok_page());
    assert_eq!(
        wire,
        b"HTTP/1.1 200 OK\r\nContent-Length: 9\r\nContent-Type: text/html\r\n\r\n<p>hi</p>".to_vec()
    );
}

#[test]
fn routing_needs_host_and_path() {
    assert_eq!(route(&request(Some(Host::Site), Some("/a"))), Some((Host::Site, "/a".to_string())));
    assert_eq!(route(&request(None, Some("/a"))), None);
    assert_eq!(route(&request(Some(Host::Mycology), None)), None);
}

#[test]
fn served_request() {
    let t = Stamp { secs: 10, nanos: 0 };
    let ex = respond(request(Some(Host::Site), Some("/a")), Some(ok_page()), t, t);
    assert_eq!(ex.wire, prepend_headers(ok_page()));
    assert_eq!(ex.log.status, "200 OK");
    assert_eq!(ex.log.length, 9);
    assert_eq!(ex.log.path.as_deref(), Some("/a"));
    assert_eq!(ex.log.referer.as_deref(), Some("http://example.org/"));
}

#[test]
fn missing_host_or_path_gives_not_found() {
    let t = Stamp { secs: 10, nanos: 0 };
    let nf = prepend_headers(not_found());
    for req in [request(None, Some("/a")), request(Some(Host::Site), None), request(None, None)] {
        let ex = respond(req, Some(ok_page()), t, t);
        assert_eq!(ex.wire, nf);
        assert!(ex.wire.starts_with(b"HTTP/1.1 404"));
        assert_eq!(ex.log.status, "404 Not Found");
        let mut st = LoggerState::new();
        let line = st.record(&ex.log, t);
        assert!(line.contains("\tPath: None\n") || line.contains("\tHost: None\n"));
    }
}

#[test]
fn provider_miss_gives_not_found() {
    let t = Stamp { secs: 10, nanos: 0 };
    let ex = respond(request(Some(Host::Mycology), Some("/zzz")), None, t, t);
    assert_eq!(ex.wire, prepend_headers(not_found()));
    assert_eq!(ex.log.length, not_found().content.len());
}
