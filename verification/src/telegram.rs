//! Alert texts sent to the Telegram chat when a service changes state.

use vstd::prelude::*;
use crate::time::clock_now_unix_secs;
use crate::text::{decimal, digit_char, push_char, push_decimal, push_signed_decimal, push_two_digits, signed_decimal};

verus! {

/// Latency above which a reachable service counts as degraded, in milliseconds.
pub const SLOW_THRESHOLD_MS: u32 = 3000;

/// `HH:MM` of a UNIX time in seconds, in UTC, hours and minutes zero-padded.
pub open spec fn clock_text(unix_secs: int) -> Seq<char> {
    let sod = unix_secs % 86400;
    let h = sod / 3600;
    let m = (sod % 3600) / 60;
    seq![digit_char((h / 10) as nat), digit_char((h % 10) as nat), ':', digit_char((m / 10) as nat), digit_char((m % 10) as nat)]
}

/// A duration for humans: seconds below a minute, minutes below an hour,
/// otherwise hours and the remaining whole minutes.
pub open spec fn duration_text(secs: int) -> Seq<char> {
    if secs < 60 {
        signed_decimal(secs) + "s"@
    } else if secs < 3600 {
        decimal((secs / 60) as nat) + "min"@
    } else {
        decimal((secs / 3600) as nat) + "h "@ + decimal(((secs % 3600) / 60) as nat) + "min"@
    }
}

/// The alert for a service that went down at the given UNIX time.
pub open spec fn down_message(name: Seq<char>, url: Seq<char>, error: Seq<char>, unix_secs: int) -> Seq<char> {
    "\u{1f534} <b>DOWN \u{2014} "@ + name + "</b>\n"@ + url + "\nSince: "@ + clock_text(unix_secs)
        + " UTC\nError: "@ + error
}

/// The alert for a service that recovered at the given UNIX time after a downtime.
pub open spec fn up_message(name: Seq<char>, url: Seq<char>, downtime_secs: int, unix_secs: int) -> Seq<char> {
    "\u{1f7e2} <b>UP \u{2014} "@ + name + "</b>\n"@ + url + "\nRecovered at: "@ + clock_text(unix_secs)
        + " UTC\nDowntime: "@ + duration_text(downtime_secs)
}

/// The alert for a service that answers, but slowly.
pub open spec fn degraded_message(name: Seq<char>, url: Seq<char>, latency_ms: int) -> Seq<char> {
    "\u{1f7e1} <b>SLOW \u{2014} "@ + name + "</b>\n"@ + url + "\nLatency: "@ + decimal(latency_ms as nat)
        + " ms (threshold: 3000 ms)"@
}

/// Appends `HH:MM` of a UNIX time in seconds.
fn push_clock(s: &mut String, unix_secs: i64)
    ensures
        final(s)@ == old(s)@ + clock_text(unix_secs as int),
{
    let r = unix_secs % 86400;
    let sod: i64 = if r < 0 { r + 86400 } else { r };
    assert(sod == (unix_secs as int) % 86400);
    let h = (sod / 3600) as u64;
    let m = ((sod % 3600) / 60) as u64;
    push_two_digits(s, h);
    push_char(s, ':');
    push_two_digits(s, m);
    assert(s@ =~= old(s)@ + clock_text(unix_secs as int));
}

/// Formats a duration: `"42s"`, `"5min"` or `"2h 5min"`.
pub fn format_duration(secs: i64) -> (res: String)
    ensures
        res@ == duration_text(secs as int),
{
    let mut s = String::new();
    if secs < 60 {
        push_signed_decimal(&mut s, secs);
        s.append("s");
    } else if secs < 3600 {
        push_decimal(&mut s, (secs / 60) as u64);
        s.append("min");
    } else {
        push_decimal(&mut s, (secs / 3600) as u64);
        s.append("h ");
        push_decimal(&mut s, ((secs % 3600) / 60) as u64);
        s.append("min");
    }
    assert(s@ =~= duration_text(secs as int));
    s
}

/// The alert for a service that went down, stamped with the given UNIX time.
pub fn format_down_at(name: &str, url: &str, error: &str, unix_secs: i64) -> (res: String)
    ensures
        res@ == down_message(name@, url@, error@, unix_secs as int),
{
    let mut s = String::new();
    s.append("\u{1f534} <b>DOWN \u{2014} ");
    s.append(name);
    s.append("</b>\n");
    s.append(url);
    s.append("\nSince: ");
    push_clock(&mut s, unix_secs);
    s.append(" UTC\nError: ");
    s.append(error);
    assert(s@ =~= down_message(name@, url@, error@, unix_secs as int));
    s
}

/// The alert for a service that recovered, stamped with the given UNIX time.
pub fn format_up_at(name: &str, url: &str, downtime_secs: i64, unix_secs: i64) -> (res: String)
    ensures
        res@ == up_message(name@, url@, downtime_secs as int, unix_secs as int),
{
    let mut s = String::new();
    s.append("\u{1f7e2} <b>UP \u{2014} ");
    s.append(name);
    s.append("</b>\n");
    s.append(url);
    s.append("\nRecovered at: ");
    push_clock(&mut s, unix_secs);
    s.append(" UTC\nDowntime: ");
    let d = format_duration(downtime_secs);
    s.append(d.as_str());
    assert(s@ =~= up_message(name@, url@, downtime_secs as int, unix_secs as int));
    s
}

/// The alert for a service that went down, stamped with the current time.
pub fn format_down(name: &str, url: &str, error: &str) -> (res: String)
    ensures
        exists|t: i64| res@ == #[trigger] down_message(name@, url@, error@, t as int),
{
    let now = clock_now_unix_secs();
    format_down_at(name, url, error, now)
}

/// The alert for a service that recovered after `downtime_secs`, stamped with the current time.
pub fn format_up(name: &str, url: &str, downtime_secs: i64) -> (res: String)
    ensures
        exists|t: i64| res@ == #[trigger] up_message(name@, url@, downtime_secs as int, t as int),
{
    let now = clock_now_unix_secs();
    format_up_at(name, url, downtime_secs, now)
}

/// The alert for a service whose latency went above the threshold.
pub fn format_degraded(name: &str, url: &str, latency_ms: u32) -> (res: String)
    ensures
        res@ == degraded_message(name@, url@, latency_ms as int),
{
    let mut s = String::new();
    s.append("\u{1f7e1} <b>SLOW \u{2014} ");
    s.append(name);
    s.append("</b>\n");
    s.append(url);
    s.append("\nLatency: ");
    push_decimal(&mut s, latency_ms as u64);
    s.append(" ms (threshold: 3000 ms)");
    assert(s@ =~= degraded_message(name@, url@, latency_ms as int));
    s
}

/// The Bot API address for sending a message with the bot `token`.
pub fn send_message_url(token: &str) -> (res: String)
    ensures
        res@ == "https://api.telegram.org/bot"@ + token@ + "/sendMessage"@,
{
    let mut s = String::from_str("https://api.telegram.org/bot");
    s.append(token);
    s.append("/sendMessage");
    s
}

} // verus!
