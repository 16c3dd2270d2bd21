use mycoserver::request::{find_header, parse_head, split_words};
use mycoserver::server::Host;

fn lines(v: &[&str]) -> Vec<String> {
    v.iter().map(|s| s.to_string()).collect()
}

#[test]
fn words_of_a_line() {
    assert_eq!(split_words("  GET  /a  HTTP/1.1\r\n"), lines(&["GET", "/a", "HTTP/1.1"]));
    assert!(split_words("   ").is_empty());
}

#[test]
fn header_lookup() {
    let h = lines(&["Host: a\r\n", "user-AGENT:  curl/8 \r\n", "X: y", "host: b:c\r\n"]);
    assert_eq!(find_header(&h, "host").as_deref(), Some("b:c"));
    assert_eq!(find_header(&h, "user-agent").as_deref(), Some("curl/8"));
    assert_eq!(find_header(&h, "referer"), None);
}

#[test]
fn full_head() {
    let h = lines(&["Host: mycology.example.org\r\n", "Referer: http://x/\r\n"]);
    let r = parse_head("GET /gilled HTTP/1.1\r\n", &h, Some([1, 2, 3, 4]));
    assert_eq!(r.host, Some(Host::Mycology));
    assert_eq!(r.path.as_deref(), Some("/gilled"));
    assert_eq!(r.referer.as_deref(), Some("http://x/"));
    assert_eq!(r.user_agent, None);
    assert_eq!(r.ip, Some([1, 2, 3, 4]));
}

#[test]
fn head_without_host_or_path() {
    let r = parse_head("GARBAGE\r\n", &lines(&[]), None);
    assert_eq!(r.host, None);
    assert_eq!(r.path, None);
    let r = parse_head("GET / HTTP/1.1", &lines(&["Host: example.org"]), None);
    assert_eq!(r.host, Some(Host::Site));
}
