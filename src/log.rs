//! Access-log events and the consumer's running state: which record shape an
//! event gets, the counters, and the text of both record shapes.

use vstd::prelude::*;
use crate::server::{Host, IpAddr, MYCOLOGY_DOMAIN, SITE_DOMAIN};
use crate::text::{dec, push_dec, push_str};
use crate::timefmt::{
    Stamp, elapsed_since, stamp_text, timestamp, to_elapsed, to_uptime, uptime_since,
};

verus! {

broadcast use vstd::array::group_array_axioms;

/// One completed exchange, as handed to the log consumer.
#[derive(Clone, Debug)]
pub struct Log {
    pub path: Option<String>,
    pub host: Option<Host>,
    pub user_agent: Option<String>,
    pub ip: Option<IpAddr>,
    pub referer: Option<String>,
    pub status: String,
    pub length: usize,
    pub cxn_time: Stamp,
    pub start_time: Stamp,
}

impl Log {
    /// Both instants can be shown as timestamps.
    pub open spec fn wf(&self) -> bool {
        self.cxn_time.wf() && self.start_time.wf()
    }
}

/// Placeholder for a missing text field.
pub const NONE_TEXT: &'static str = "None";

/// Placeholder for a missing client address.
pub const NO_IP_TEXT: &'static str = "No IP";

/// A text field, or the placeholder where it is missing.
pub open spec fn opt_text(o: Option<String>) -> Seq<char> {
    match o {
        Some(s) => s@,
        None => NONE_TEXT@,
    }
}

/// Dotted-quad text of an address, or the placeholder where it is missing.
pub open spec fn ip_text(ip: Option<IpAddr>) -> Seq<char> {
    match ip {
        Some(a) => dec(a[0] as nat) + "."@ + dec(a[1] as nat) + "."@ + dec(a[2] as nat) + "."@
            + dec(a[3] as nat),
        None => NO_IP_TEXT@,
    }
}

/// Name of a virtual host, or the placeholder where it is missing.
pub open spec fn host_text(h: Option<Host>) -> Seq<char> {
    match h {
        Some(Host::Mycology) => MYCOLOGY_DOMAIN@,
        Some(Host::Site) => SITE_DOMAIN@,
        None => NONE_TEXT@,
    }
}

/// The address used to compare clients: a missing one counts as `0.0.0.0`.
pub open spec fn ip_key(ip: Option<IpAddr>) -> Seq<u8> {
    match ip {
        Some(a) => a@,
        None => seq![0u8, 0u8, 0u8, 0u8],
    }
}

/// Two events come from the same client.
pub open spec fn same_client(a: Option<IpAddr>, b: Option<IpAddr>) -> bool {
    ip_key(a) == ip_key(b)
}

/// Compares two client addresses as the log consumer does.
pub fn same_ip(a: Option<IpAddr>, b: Option<IpAddr>) -> (r: bool)
    ensures
        r == same_client(a, b),
{
    let x: [u8; 4] = match a {
        Some(v) => v,
        None => [0u8, 0u8, 0u8, 0u8],
    };
    let y: [u8; 4] = match b {
        Some(v) => v,
        None => [0u8, 0u8, 0u8, 0u8],
    };
    let r = x[0] == y[0] && x[1] == y[1] && x[2] == y[2] && x[3] == y[3];
    proof {
        assert(ip_key(a) =~= x@);
        assert(ip_key(b) =~= y@);
        if r {
            assert(x@ =~= y@);
        }
    }
    r
}

/// Renders a client address.
pub fn ip_to_string(ip: Option<IpAddr>) -> (r: String)
    ensures
        r@ == ip_text(ip),
{
    match ip {
        Some(a) => {
            let mut out = String::new();
            push_dec(&mut out, a[0] as u128);
            push_str(&mut out, ".");
            push_dec(&mut out, a[1] as u128);
            push_str(&mut out, ".");
            push_dec(&mut out, a[2] as u128);
            push_str(&mut out, ".");
            push_dec(&mut out, a[3] as u128);
            assert(out@ =~= ip_text(ip));
            out
        },
        None => String::from_str(NO_IP_TEXT),
    }
}

/// Renders a virtual host.
pub fn host_to_string(h: Option<Host>) -> (r: String)
    ensures
        r@ == host_text(h),
{
    match h {
        Some(Host::Mycology) => String::from_str(MYCOLOGY_DOMAIN),
        Some(Host::Site) => String::from_str(SITE_DOMAIN),
        None => String::from_str(NONE_TEXT),
    }
}

fn push_opt(out: &mut String, o: &Option<String>)
    ensures
        final(out)@ == old(out)@ + opt_text(*o),
{
    match o {
        Some(s) => push_str(out, s.as_str()),
        None => push_str(out, NONE_TEXT),
    }
}

/// One-line record for a client that also sent the previous event.
pub open spec fn compact_record(total: nat, ev: Log, now: Stamp) -> Seq<char> {
    "#"@ + dec(total) + " - "@ + ip_text(ev.ip) + " - "@ + stamp_text(ev.cxn_time) + " - "@
        + ev.status@ + " - "@ + dec(ev.length as nat) + "b - "@ + elapsed_since(ev.cxn_time, now)
        + " - "@ + opt_text(ev.path) + "\n"@
}

/// Multi-line record, with the counters and the up-time, for a new client.
pub open spec fn verbose_record(total: nat, unique: nat, ev: Log, now: Stamp) -> Seq<char> {
    "START\nTimestamp: "@ + stamp_text(ev.cxn_time) + "\n# Unique: "@ + dec(unique)
        + "\n# Total: "@ + dec(total) + "\nUp-time: "@ + uptime_since(ev.start_time, now)
        + "\nRequest:\n\tPath: "@ + opt_text(ev.path) + "\n\tHost: "@ + host_text(ev.host)
        + "\n\tIp: "@ + ip_text(ev.ip) + "\n\tReferer: "@ + opt_text(ev.referer)
        + "\n\tAgent: "@ + opt_text(ev.user_agent) + "\nResponse:\n\tStatus: "@ + ev.status@
        + "\n\tLength: "@ + dec(ev.length as nat) + " bytes\n\tTurnaround: "@
        + elapsed_since(ev.cxn_time, now) + "\n"@
}

/// Formats the one-line record.
pub fn compact_log(total: u64, ev: &Log, now: Stamp) -> (r: String)
    requires
        ev.wf(),
        now.wf(),
    ensures
        r@ == compact_record(total as nat, *ev, now),
{
    let mut out = String::new();
    push_str(&mut out, "#");
    push_dec(&mut out, total as u128);
    push_str(&mut out, " - ");
    let ip = ip_to_string(ev.ip);
    push_str(&mut out, ip.as_str());
    push_str(&mut out, " - ");
    let ts = timestamp(ev.cxn_time);
    push_str(&mut out, ts.as_str());
    push_str(&mut out, " - ");
    push_str(&mut out, ev.status.as_str());
    push_str(&mut out, " - ");
    push_dec(&mut out, ev.length as u128);
    push_str(&mut out, "b - ");
    let ta = to_elapsed(ev.cxn_time, now);
    push_str(&mut out, ta.as_str());
    push_str(&mut out, " - ");
    push_opt(&mut out, &ev.path);
    push_str(&mut out, "\n");
    assert(out@ =~= compact_record(total as nat, *ev, now));
    out
}

/// Formats the multi-line record.
pub fn verbose_log(total: u64, unique: u64, ev: &Log, now: Stamp) -> (r: String)
    requires
        ev.wf(),
        now.wf(),
    ensures
        r@ == verbose_record(total as nat, unique as nat, *ev, now),
{
    let mut out = String::new();
    push_str(&mut out, "START\nTimestamp: ");
    let ts = timestamp(ev.cxn_time);
    push_str(&mut out, ts.as_str());
    push_str(&mut out, "\n# Unique: ");
    push_dec(&mut out, unique as u128);
    push_str(&mut out, "\n# Total: ");
    push_dec(&mut out, total as u128);
    push_str(&mut out, "\nUp-time: ");
    let up = to_uptime(ev.start_time, now);
    push_str(&mut out, up.as_str());
    push_str(&mut out, "\nRequest:\n\tPath: ");
    push_opt(&mut out, &ev.path);
    push_str(&mut out, "\n\tHost: ");
    let host = host_to_string(ev.host);
    push_str(&mut out, host.as_str());
    push_str(&mut out, "\n\tIp: ");
    let ip = ip_to_string(ev.ip);
    push_str(&mut out, ip.as_str());
    push_str(&mut out, "\n\tReferer: ");
    push_opt(&mut out, &ev.referer);
    push_str(&mut out, "\n\tAgent: ");
    push_opt(&mut out, &ev.user_agent);
    push_str(&mut out, "\nResponse:\n\tStatus: ");
    push_str(&mut out, ev.status.as_str());
    push_str(&mut out, "\n\tLength: ");
    push_dec(&mut out, ev.length as u128);
    push_str(&mut out, " bytes\n\tTurnaround: ");
    let ta = to_elapsed(ev.cxn_time, now);
    push_str(&mut out, ta.as_str());
    push_str(&mut out, "\n");
    assert(out@ =~= verbose_record(total as nat, unique as nat, *ev, now));
    out
}

} // verus!

verus! {

/// The log consumer's running state.
#[derive(Clone, Copy, Debug)]
pub struct LoggerState {
    /// Address of the client of the previous event.
    pub prev_ip: Option<IpAddr>,
    /// Events processed.
    pub total: u64,
    /// Events whose client differed from that of the event before.
    pub unique: u64,
}

/// The state before any event.
pub open spec fn initial_state() -> LoggerState {
    LoggerState { prev_ip: None, total: 0, unique: 0 }
}

/// The state after one more event from client `ip`.
pub open spec fn next_state(s: LoggerState, ip: Option<IpAddr>) -> LoggerState {
    LoggerState {
        prev_ip: ip,
        total: (s.total + 1) as u64,
        unique: if same_client(s.prev_ip, ip) {
            s.unique
        } else {
            (s.unique + 1) as u64
        },
    }
}

/// The record that the event `ev` gets in state `s`.
pub open spec fn record_text(s: LoggerState, ev: Log, now: Stamp) -> Seq<char> {
    if same_client(s.prev_ip, ev.ip) {
        compact_record((s.total + 1) as nat, ev, now)
    } else {
        verbose_record((s.total + 1) as nat, (s.unique + 1) as nat, ev, now)
    }
}

/// The state after events from the clients `ips`, in that order.
pub open spec fn run(s: LoggerState, ips: Seq<Option<IpAddr>>) -> LoggerState
    decreases ips.len(),
{
    if ips.len() == 0 {
        s
    } else {
        next_state(run(s, ips.drop_last()), ips.last())
    }
}

/// What the consumer does with one event: the record goes to standard output
/// always, and to the log file when the file is open; otherwise a diagnostic
/// is reported.
#[derive(Clone, Debug)]
pub struct LogStep {
    pub line: String,
    pub write_file: bool,
    pub report_missing_file: bool,
}

impl LoggerState {
    /// Counters never disagree: a new client is also an event.
    pub open spec fn wf(&self) -> bool {
        self.unique <= self.total
    }

    /// The state before any event.
    pub fn new() -> (r: Self)
        ensures
            r == initial_state(),
            r.wf(),
    {
        LoggerState { prev_ip: None, total: 0, unique: 0 }
    }

    /// Counts one event and returns its record: the one-line form when the
    /// client is the one of the previous event, else the multi-line form.
    pub fn record(&mut self, ev: &Log, now: Stamp) -> (r: String)
        requires
            old(self).wf(),
            old(self).total < u64::MAX,
            ev.wf(),
            now.wf(),
        ensures
            *final(self) == next_state(*old(self), ev.ip),
            final(self).wf(),
            final(self).total == old(self).total + 1,
            final(self).prev_ip == ev.ip,
            r@ == record_text(*old(self), *ev, now),
            same_client(old(self).prev_ip, ev.ip) ==> final(self).unique == old(self).unique
                && r@ == compact_record(final(self).total as nat, *ev, now),
            !same_client(old(self).prev_ip, ev.ip) ==> final(self).unique == old(self).unique + 1
                && r@ == verbose_record(final(self).total as nat, final(self).unique as nat, *ev, now),
    {
        self.total = self.total + 1;
        let line = if same_ip(self.prev_ip, ev.ip) {
            compact_log(self.total, ev, now)
        } else {
            self.unique = self.unique + 1;
            verbose_log(self.total, self.unique, ev, now)
        };
        self.prev_ip = ev.ip;
        line
    }

    /// Handles one event of the consumer's queue, whether or not the log
    /// file could be opened: the event is counted and its record shown
    /// either way, and only the file write depends on the file.
    pub fn handle(&mut self, ev: &Log, now: Stamp, file_open: bool) -> (r: LogStep)
        requires
            old(self).wf(),
            old(self).total < u64::MAX,
            ev.wf(),
            now.wf(),
        ensures
            *final(self) == next_state(*old(self), ev.ip),
            final(self).wf(),
            r.line@ == record_text(*old(self), *ev, now),
            r.write_file == file_open,
            r.report_missing_file == !file_open,
    {
        let line = self.record(ev, now);
        LogStep { line, write_file: file_open, report_missing_file: !file_open }
    }
}

/// After events from pairwise different clients, none of them without an
/// address or at `0.0.0.0`, every event counts as both a connection and a
/// unique connection.
pub proof fn lemma_distinct_clients_all_unique(ips: Seq<Option<IpAddr>>)
    requires
        ips.len() < u64::MAX,
        forall|i: int, j: int|
            0 <= i < j < ips.len() ==> ip_key(#[trigger] ips[i]) != ip_key(#[trigger] ips[j]),
        forall|i: int| 0 <= i < ips.len() ==> ip_key(#[trigger] ips[i]) != ip_key(None),
    ensures
        run(initial_state(), ips).total == ips.len(),
        run(initial_state(), ips).unique == ips.len(),
    decreases ips.len(),
{
    if ips.len() > 0 {
        let pre = ips.drop_last();
        assert forall|i: int, j: int|
            0 <= i < j < pre.len() implies ip_key(#[trigger] pre[i]) != ip_key(#[trigger] pre[j]) by {
            assert(pre[i] == ips[i] && pre[j] == ips[j]);
        }
        assert forall|i: int| 0 <= i < pre.len() implies ip_key(#[trigger] pre[i]) != ip_key(None) by {
            assert(pre[i] == ips[i]);
        }
        lemma_distinct_clients_all_unique(pre);
        lemma_run_prev(initial_state(), ips);
        if pre.len() > 0 {
            lemma_run_prev(initial_state(), pre);
            assert(pre.last() == ips[ips.len() - 2]);
        }
    }
}

/// After at least one event, the state remembers the client of the last.
pub proof fn lemma_run_prev(s: LoggerState, ips: Seq<Option<IpAddr>>)
    requires
        ips.len() > 0,
    ensures
        run(s, ips).prev_ip == ips.last(),
{
}

/// The text of a record changes with the time of formatting only through
/// the turnaround and up-time it shows: formatting one event twice, in one
/// state, gives the same text wherever those agree.
pub proof fn lemma_record_repeatable(s: LoggerState, ev: Log, now1: Stamp, now2: Stamp)
    requires
        elapsed_since(ev.cxn_time, now1) == elapsed_since(ev.cxn_time, now2),
        uptime_since(ev.start_time, now1) == uptime_since(ev.start_time, now2),
    ensures
        record_text(s, ev, now1) == record_text(s, ev, now2),
{
}

} // verus!
