use mycoserver::log::{host_to_string, ip_to_string, same_ip, Log, LoggerState};
use mycoserver::server::Host;
use mycoserver::timefmt::Stamp;

fn event(ip: Option<[u8; 4]>, path: Option<&str>) -> Log {
    Log {
        path: path.map(|p| p.to_string()),
        host: Some(Host::Mycology),
        user_agent: Some("curl/8.0".to_string()),
        ip,
        referer: None,
        status: "200 OK".to_string(),
        length: 42,
        cxn_time: Stamp { secs: 0, nanos: 0 },
        start_time: Stamp { secs: 0, nanos: 0 },
    }
}

fn later() -> Stamp {
    Stamp { secs: 0, nanos: 500_000 }
}

#[test]
fn distinct_clients_are_all_unique() {
    let mut st = LoggerState::new();
    let ips = [[10, 0, 0, 1], [10, 0, 0, 2], [192, 168, 1, 1], [127, 0, 0, 1]];
    for ip in ips.iter() {
        let line = st.record(&event(Some(*ip), Some("/")), later());
        assert!(line.starts_with("START\n"));
    }
    assert_eq!(st.total, 4);
    assert_eq!(st.unique, 4);
}

#[test]
fn same_client_gives_compact_record() {
    let mut st = LoggerState::new();
    let first = st.record(&event(Some([1, 2, 3, 4]), Some("/a")), later());
    assert!(first.starts_with("START\n"));
    let second = st.record(&event(Some([1, 2, 3, 4]), Some("/b")), later());
    assert_eq!(
        second,
        "#2 - 1.2.3.4 - 1970-01-01 ~ 00:00:00.000 - 200 OK - 42b - 500μs - /b\n"
    );
    assert_eq!(st.total, 2);
    assert_eq!(st.unique, 1);
}

#[test]
fn missing_addresses_count_as_one_client() {
    let mut st = LoggerState::new();
    let a = st.record(&event(None, None), later());
    let b = st.record(&event(None, None), later());
    assert!(a.starts_with("#1 - No IP - "));
    assert!(b.starts_with("#2 - No IP - "));
    assert!(b.ends_with(" - None\n"));
    assert_eq!(st.unique, 0);
    let c = st.record(&event(Some([9, 9, 9, 9]), None), later());
    assert!(c.starts_with("START\n"));
    assert_eq!(st.unique, 1);
    assert_eq!(st.total, 3);
}

#[test]
fn verbose_record_layout() {
    let mut st = LoggerState::new();
    let mut ev = event(Some([8, 8, 4, 4]), None);
    ev.start_time = Stamp { secs: 0, nanos: 0 };
    ev.cxn_time = Stamp { secs: 90061, nanos: 0 };
    let now = Stamp { secs: 90061, nanos: 2_000_000 };
    let line = st.record(&ev, now);
    assert_eq!(
        line,
        "START\nTimestamp: 1970-01-02 ~ 01:01:01.000\n# Unique: 1\n# Total: 1\n\
         Up-time: 1 days 1 hours 1 mins 1 secs\nRequest:\n\tPath: None\n\tHost: mycology\n\
         \tIp: 8.8.4.4\n\tReferer: None\n\tAgent: curl/8.0\nResponse:\n\tStatus: 200 OK\n\
         \tLength: 42 bytes\n\tTurnaround: 2ms\n"
    );
}

#[test]
fn formatting_twice_gives_the_same_text() {
    let ev = event(Some([5, 6, 7, 8]), Some("/x"));
    let mut a = LoggerState::new();
    let mut b = LoggerState::new();
    assert_eq!(a.record(&ev, later()), b.record(&ev, later()));
    assert_eq!(a.record(&ev, later()), b.record(&ev, later()));
}

#[test]
fn unopened_file_still_shows_and_counts() {
    let mut st = LoggerState::new();
    let step = st.handle(&event(Some([1, 1, 1, 1]), Some("/")), later(), false);
    assert!(!step.write_file);
    assert!(step.report_missing_file);
    assert!(step.line.starts_with("START\n"));
    assert_eq!(st.total, 1);
    let step = st.handle(&event(Some([1, 1, 1, 1]), Some("/")), later(), true);
    assert!(step.write_file);
    assert!(!step.report_missing_file);
    assert!(step.line.starts_with("#2 - "));
}

#[test]
fn field_renderings() {
    assert_eq!(ip_to_string(Some([192, 168, 0, 255])), "192.168.0.255");
    assert_eq!(ip_to_string(None), "No IP");
    assert_eq!(host_to_string(Some(Host::Mycology)), "mycology");
    assert_eq!(host_to_string(Some(Host::Site)), "site");
    assert_eq!(host_to_string(None), "None");
    assert!(same_ip(None, Some([0, 0, 0, 0])));
    assert!(!same_ip(None, Some([0, 0, 0, 1])));
}
