//! Instants and human-readable durations: timestamps, turnaround times and
//! up-times.

use vstd::prelude::*;
use crate::text::{dec, push_char, push_dec, push_str};

verus! {

/// First second that the timestamp format cannot show (year 10000).
pub const STAMP_LIMIT_SECS: u64 = 253_402_300_800;

/// Nanoseconds in one second.
pub const NANOS_PER_SEC: u32 = 1_000_000_000;

/// Text of a duration that would have been negative.
pub const BACKWARDS: &'static str = "Time has gone backwards :(";

/// An instant, as seconds and nanoseconds since the Unix epoch.
#[derive(Clone, Copy, Debug, PartialEq, Eq, Structural)]
pub struct Stamp {
    pub secs: u64,
    pub nanos: u32,
}

impl Stamp {
    /// The nanoseconds part is below one second and the instant can be shown
    /// as a timestamp.
    pub open spec fn wf(&self) -> bool {
        self.nanos < NANOS_PER_SEC && self.secs < STAMP_LIMIT_SECS
    }

    /// Nanoseconds since the epoch.
    pub open spec fn total_nanos(&self) -> nat {
        self.secs as nat * 1_000_000_000 + self.nanos as nat
    }

    fn nanos_exec(&self) -> (r: u128)
        ensures
            r == self.total_nanos(),
    {
        self.secs as u128 * 1_000_000_000 + self.nanos as u128
    }
}

/// What `humantime::format_rfc3339_millis` shows for an instant.
pub uninterp spec fn rfc3339_millis(secs: nat, nanos: nat) -> Seq<char>;

/// Relies on `humantime::format_rfc3339_millis`, whose text depends on the
/// instant alone (always UTC). It panics before the epoch and fails from the
/// year 10000 on, which `requires` leaves out.
#[verifier::external_body]
fn rfc3339_millis_text(secs: u64, nanos: u32) -> (r: String)
    requires
        secs < STAMP_LIMIT_SECS,
        nanos < NANOS_PER_SEC,
    ensures
        r@ == rfc3339_millis(secs as nat, nanos as nat),
{
    let t = std::time::UNIX_EPOCH + std::time::Duration::new(secs, nanos);
    humantime::format_rfc3339_millis(t).to_string()
}

/// The text that stands for one character of a timestamp in a log line.
pub open spec fn stamp_piece(c: char) -> Seq<char> {
    if c == 'T' {
        " ~ "@
    } else if c == 'Z' {
        Seq::empty()
    } else {
        seq![c]
    }
}

/// A timestamp with the date and time separated by ` ~ ` and without the
/// trailing zone letter.
pub open spec fn tidy_stamp(s: Seq<char>) -> Seq<char>
    decreases s.len(),
{
    if s.len() == 0 {
        Seq::empty()
    } else {
        tidy_stamp(s.drop_last()) + stamp_piece(s.last())
    }
}

/// The timestamp text of an instant in log records.
pub open spec fn stamp_text(t: Stamp) -> Seq<char> {
    tidy_stamp(rfc3339_millis(t.secs as nat, t.nanos as nat))
}

/// Rewrites an RFC 3339 timestamp into the form used in log records.
pub fn tidy_timestamp(s: &str) -> (r: String)
    ensures
        r@ == tidy_stamp(s@),
{
    let n = s.unicode_len();
    let mut out = String::new();
    let mut i: usize = 0;
    while i < n
        invariant
            n == s@.len(),
            i <= n,
            out@ == tidy_stamp(s@.subrange(0, i as int)),
        decreases n - i,
    {
        let c = s.get_char(i);
        if c == 'T' {
            push_str(&mut out, " ~ ");
        } else if c != 'Z' {
            push_char(&mut out, c);
        }
        proof {
            let pre = s@.subrange(0, i as int + 1);
            assert(pre.drop_last() =~= s@.subrange(0, i as int));
            assert(pre.last() == c);
            if c != 'T' && c != 'Z' {
                assert(stamp_piece(c) =~= seq![c]);
            }
            assert(stamp_piece(c) =~= seq![c] || c == 'T' || c == 'Z');
        }
        i = i + 1;
    }
    assert(s@.subrange(0, n as int) =~= s@);
    out
}

/// The timestamp of an instant as log records show it.
pub fn timestamp(t: Stamp) -> (r: String)
    requires
        t.wf(),
    ensures
        r@ == stamp_text(t),
{
    let raw = rfc3339_millis_text(t.secs, t.nanos);
    tidy_timestamp(raw.as_str())
}

/// Turnaround text of a duration in microseconds: microseconds below one
/// millisecond, whole milliseconds below one second, whole seconds above.
pub open spec fn elapsed_text(us: nat) -> Seq<char> {
    if us < 1000 {
        dec(us) + "μs"@
    } else if us < 1_000_000 {
        dec(us / 1000) + "ms"@
    } else {
        dec(us / 1_000_000) + "s"@
    }
}

/// Renders a duration given in microseconds.
pub fn format_elapsed(us: u128) -> (r: String)
    ensures
        r@ == elapsed_text(us as nat),
{
    let mut out = String::new();
    if us < 1000 {
        push_dec(&mut out, us);
        push_str(&mut out, "μs");
    } else if us < 1_000_000 {
        push_dec(&mut out, us / 1000);
        push_str(&mut out, "ms");
    } else {
        push_dec(&mut out, us / 1_000_000);
        push_str(&mut out, "s");
    }
    assert(out@ =~= elapsed_text(us as nat));
    out
}

/// One `<count> <unit>` part of an up-time, added after `acc` when the count
/// is not zero.
pub open spec fn add_part(acc: Seq<char>, n: nat, unit: Seq<char>) -> Seq<char> {
    if n == 0 {
        acc
    } else if acc.len() == 0 {
        dec(n) + " "@ + unit
    } else {
        acc + " "@ + dec(n) + " "@ + unit
    }
}

/// Weeks, days, hours, minutes and seconds of a number of seconds, each
/// shown only when it is not zero, largest first, separated by spaces.
pub open spec fn wdhms(s: nat) -> Seq<char> {
    add_part(
        add_part(
            add_part(
                add_part(add_part(Seq::empty(), s / 604800, "weeks"@), (s / 86400) % 7, "days"@),
                (s / 3600) % 24,
                "hours"@,
            ),
            (s / 60) % 60,
            "mins"@,
        ),
        s % 60,
        "secs"@,
    )
}

fn push_part(out: &mut String, n: u64, unit: &str)
    ensures
        final(out)@ == add_part(old(out)@, n as nat, unit@),
{
    if n != 0 {
        if out.as_str().unicode_len() != 0 {
            push_str(out, " ");
        }
        push_dec(out, n as u128);
        push_str(out, " ");
        push_str(out, unit);
    }
    proof {
        if n != 0 {
            if old(out)@.len() == 0 {
                assert(final(out)@ =~= dec(n as nat) + " "@ + unit@);
            } else {
                assert(final(out)@ =~= old(out)@ + " "@ + dec(n as nat) + " "@ + unit@);
            }
        }
    }
}

/// Renders a number of seconds as weeks, days, hours, minutes and seconds.
pub fn to_wdhms(s: u64) -> (r: String)
    ensures
        r@ == wdhms(s as nat),
{
    let mut out = String::new();
    push_part(&mut out, s / 604800, "weeks");
    push_part(&mut out, (s / 86400) % 7, "days");
    push_part(&mut out, (s / 3600) % 24, "hours");
    push_part(&mut out, (s / 60) % 60, "mins");
    push_part(&mut out, s % 60, "secs");
    out
}

/// Turnaround from `from` to `now`, or a warning where `now` comes first.
pub open spec fn elapsed_since(from: Stamp, now: Stamp) -> Seq<char> {
    if now.total_nanos() < from.total_nanos() {
        BACKWARDS@
    } else {
        elapsed_text(((now.total_nanos() - from.total_nanos()) as nat) / 1000)
    }
}

/// Up-time from `start` to `now`, or a warning where `now` comes first.
pub open spec fn uptime_since(start: Stamp, now: Stamp) -> Seq<char> {
    if now.total_nanos() < start.total_nanos() {
        BACKWARDS@
    } else {
        wdhms(((now.total_nanos() - start.total_nanos()) as nat) / 1_000_000_000)
    }
}

/// Renders the time that passed from `from` to `now`.
pub fn to_elapsed(from: Stamp, now: Stamp) -> (r: String)
    requires
        from.wf(),
        now.wf(),
    ensures
        r@ == elapsed_since(from, now),
{
    let a = from.nanos_exec();
    let b = now.nanos_exec();
    if b < a {
        String::from_str(BACKWARDS)
    } else {
        format_elapsed((b - a) / 1000)
    }
}

/// Renders the up-time from `start` to `now`.
pub fn to_uptime(start: Stamp, now: Stamp) -> (r: String)
    requires
        start.wf(),
        now.wf(),
    ensures
        r@ == uptime_since(start, now),
{
    let a = start.nanos_exec();
    let b = now.nanos_exec();
    if b < a {
        String::from_str(BACKWARDS)
    } else {
        let secs = (b - a) / 1_000_000_000;
        assert(secs < STAMP_LIMIT_SECS);
        to_wdhms(secs as u64)
    }
}

} // verus!
