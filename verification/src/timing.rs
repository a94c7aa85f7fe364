//! Waiting for the launch: the time left, the corrections for the clock
//! offset and the network delay, and the timeline shown before the wait.
use vstd::prelude::*;
use crate::text::{decimal, decimal_string, push_char};
use crate::guide::{datetime_parse, parse_datetime, parses_as_datetime, start_time_format};

verus! {

/// Milliseconds from `now_ms` until `target_ms`; none when the target has
/// passed.
pub open spec fn millis_left(target_ms: int, now_ms: int) -> int {
    if target_ms - now_ms < 0 {
        0
    } else {
        target_ms - now_ms
    }
}

/// Milliseconds from `now_ms` until `target_ms` (both since the epoch); none
/// when the target has passed.
pub fn millis_until(target_ms: i64, now_ms: i64) -> (r: u64)
    requires
        i64::MIN <= target_ms - now_ms <= i64::MAX,
    ensures
        r == millis_left(target_ms as int, now_ms as int),
{
    let delta: i64 = target_ms - now_ms;
    if delta < 0 {
        0
    } else {
        delta as u64
    }
}

/// What the wait comes to.
#[derive(Debug)]
pub enum WaitPlan {
    /// Less than a second is left, or less than the clock offset: no wait.
    NoWait,
    /// After the clock correction less than the network delay is left: no wait.
    AfterOffset { corrected_ns: u128 },
    /// Wait `wait_ns` nanoseconds (the corrected time less the network delay).
    Wait { corrected_ns: u128, wait_ns: u128 },
}

/// One more than the nanoseconds of the longest duration (`u64::MAX`
/// seconds and 999 999 999 nanoseconds); every offset and wait is below it.
pub open spec fn duration_ns_bound() -> int {
    1_000_000_000 * (u64::MAX as int + 1)
}

/// The nanoseconds in a millisecond.
pub open spec fn ns_per_ms() -> int {
    1_000_000
}

/// The decision on the wait, from the milliseconds left `until_ms`, the
/// clock offset `offset_ns` (the local clock is behind the time server when
/// `offset_negative`), and the network delay `delay_ms`.
pub open spec fn wait_plan(until_ms: u64, offset_ns: u128, offset_negative: bool, delay_ms: u64) -> WaitPlan {
    let until = until_ms * ns_per_ms();
    if until_ms < 1000 || until < offset_ns {
        WaitPlan::NoWait
    } else {
        let corrected = if offset_negative {
            until + offset_ns
        } else {
            until - offset_ns
        };
        let delay = delay_ms * ns_per_ms();
        if corrected < delay {
            WaitPlan::AfterOffset { corrected_ns: corrected as u128 }
        } else {
            WaitPlan::Wait { corrected_ns: corrected as u128, wait_ns: (corrected - delay) as u128 }
        }
    }
}

/// Decides the wait. Where a negative offset is added to the time left, the
/// sum must not pass the largest duration (`u64::MAX` seconds and a fraction).
pub fn plan_wait(until_ms: u64, offset_ns: u128, offset_negative: bool, delay_ms: u64) -> (r: WaitPlan)
    requires
        offset_ns < duration_ns_bound(),
        offset_negative && until_ms >= 1000 && until_ms * ns_per_ms() >= offset_ns
            ==> until_ms * ns_per_ms() + offset_ns < duration_ns_bound(),
    ensures
        r == wait_plan(until_ms, offset_ns, offset_negative, delay_ms),
{
    let until: u128 = until_ms as u128 * 1_000_000;
    if until_ms < 1000 || until < offset_ns {
        return WaitPlan::NoWait;
    }
    let corrected: u128 = if offset_negative {
        until + offset_ns
    } else {
        until - offset_ns
    };
    let delay: u128 = delay_ms as u128 * 1_000_000;
    if corrected < delay {
        WaitPlan::AfterOffset { corrected_ns: corrected }
    } else {
        WaitPlan::Wait { corrected_ns: corrected, wait_ns: corrected - delay }
    }
}

/// The nanoseconds waited under a plan; none when there is no wait.
pub open spec fn wait_ns_of(p: WaitPlan) -> int {
    match p {
        WaitPlan::Wait { wait_ns, .. } => wait_ns as int,
        _ => 0,
    }
}

/// The milliseconds in a day; a local time differs from UTC by less.
pub open spec fn ms_per_day() -> int {
    86_400_000
}

/// Calls `chrono::Local.from_local_datetime` on the date and time whose
/// milliseconds since the epoch, taken as UTC, are `naive_ms`, and gives the
/// instant's milliseconds since the epoch when the local time names exactly
/// one instant; nothing when it names none or two (a clock change), or when
/// the value is out of chrono's range. Which instant depends on the
/// machine's time zone: the contract states only that it lies within a day
/// of `naive_ms`, as the zone's offset from UTC is under a day.
#[verifier::external_body]
fn local_instant_ms(naive_ms: i64) -> (r: Option<i64>)
    ensures
        r matches Some(t) ==> naive_ms - ms_per_day() < t < naive_ms + ms_per_day(),
{
    match chrono::DateTime::from_timestamp_millis(naive_ms) {
        Some(d) => match chrono::TimeZone::from_local_datetime(&chrono::Local, &d.naive_utc()) {
            chrono::MappedLocalTime::Single(t) => Some(t.timestamp_millis()),
            chrono::MappedLocalTime::Ambiguous(_, _) => None,
            chrono::MappedLocalTime::None => None,
        },
        None => None,
    }
}

/// Milliseconds from the clock reading `now_ms` until the start time typed
/// as `%Y-%m-%d %H:%M:%S` in local time; none when the text does not parse,
/// when the local time names no single instant, or when the difference does
/// not fit in 64 bits. The start instant lies within a day of the text read
/// as UTC.
pub fn start_time_until_ms(target_time: &str, now_ms: i64) -> (r: Option<u64>)
    ensures
        !parses_as_datetime(target_time@, start_time_format()) ==> r is None,
        r matches Some(u) ==> exists|t: i64|
            {
                &&& datetime_parse(target_time@, start_time_format())->Ok_0 - ms_per_day() < t
                &&& t < datetime_parse(target_time@, start_time_format())->Ok_0 + ms_per_day()
                &&& u == millis_left(t as int, now_ms as int)
            },
{
    let naive = match parse_datetime(target_time, "%Y-%m-%d %H:%M:%S") {
        Ok(ms) => ms,
        Err(_) => return None,
    };
    until_local_start_ms(local_instant_ms(naive), now_ms)
}

/// Milliseconds from the clock reading `now_ms` until the instant the local
/// time zone gave for the start time (`local_ms`, milliseconds since the
/// epoch); none when the zone gave none, or when the difference does not fit
/// in 64 bits.
pub fn until_local_start_ms(local_ms: Option<i64>, now_ms: i64) -> (r: Option<u64>)
    ensures
        match local_ms {
            Some(t) => if i64::MIN <= t - now_ms <= i64::MAX {
                r == Some(millis_left(t as int, now_ms as int) as u64)
            } else {
                r is None
            },
            None => r is None,
        },
        r matches Some(u) ==> (u == 0 || now_ms + u == local_ms->0),
{
    match local_ms {
        Some(t) => match t.checked_sub(now_ms) {
            Some(_) => Some(millis_until(t, now_ms)),
            None => None,
        },
        None => None,
    }
}

/// With the same clock offset and the same clock reading `now_ms`, a later
/// launch time never ends the wait earlier, and a longer network delay never
/// ends it later.
pub proof fn lemma_wait_monotone(
    t1: i64,
    t2: i64,
    now_ms: i64,
    offset_ns: u128,
    offset_negative: bool,
    d1: u64,
    d2: u64,
)
    ensures
        ({
            let u1 = millis_left(t1 as int, now_ms as int) as u64;
            let u2 = millis_left(t2 as int, now_ms as int) as u64;
            &&& t1 <= t2 ==> wait_ns_of(wait_plan(u1, offset_ns, offset_negative, d1))
                <= wait_ns_of(wait_plan(u2, offset_ns, offset_negative, d1))
            &&& d1 <= d2 ==> wait_ns_of(wait_plan(u1, offset_ns, offset_negative, d2))
                <= wait_ns_of(wait_plan(u1, offset_ns, offset_negative, d1))
        }),
{
    let u1 = millis_left(t1 as int, now_ms as int) as u64;
    let u2 = millis_left(t2 as int, now_ms as int) as u64;
    assert(t1 <= t2 ==> u1 <= u2);
}

/// One look at the clock during the countdown.
#[derive(Debug)]
pub enum CountdownStep {
    /// Three seconds or more are left: show them and look again shortly.
    Tick { remaining_ms: u64 },
    /// Less is left: sleep that long, then go.
    Go { remaining_ms: u64 },
}

/// The milliseconds left as the countdown counts them: the difference to the
/// start as a 64-bit unsigned count, so a negative difference wraps around.
pub open spec fn wrapped_ms(diff_ms: i64) -> int {
    if diff_ms < 0 {
        diff_ms + 0x1_0000_0000_0000_0000
    } else {
        diff_ms as int
    }
}

/// The countdown's decision on the difference `diff_ms` to the start.
pub open spec fn countdown_step_of(diff_ms: i64) -> CountdownStep {
    let r = wrapped_ms(diff_ms) as u64;
    if r >= 3000 {
        CountdownStep::Tick { remaining_ms: r }
    } else {
        CountdownStep::Go { remaining_ms: r }
    }
}

/// Decides one step of the countdown from the milliseconds `diff_ms` from
/// now to the start.
pub fn countdown_step(diff_ms: i64) -> (r: CountdownStep)
    ensures
        r == countdown_step_of(diff_ms),
{
    let remaining: u64 = diff_ms as u64;
    assert(diff_ms < 0 ==> remaining as int == diff_ms + 0x1_0000_0000_0000_0000) by (bit_vector)
        requires
            remaining == diff_ms as u64,
    ;
    assert(diff_ms >= 0 ==> remaining as int == diff_ms as int) by (bit_vector)
        requires
            remaining == diff_ms as u64,
    ;
    if remaining >= 3000 {
        CountdownStep::Tick { remaining_ms: remaining }
    } else {
        CountdownStep::Go { remaining_ms: remaining }
    }
}

/// `k` copies of `c`.
pub open spec fn repeat(c: char, k: nat) -> Seq<char> {
    Seq::new(k, |i: int| c)
}

fn repeat_char(c: char, k: usize) -> (r: String)
    ensures
        r@ == repeat(c, k as nat),
{
    let mut r = String::new();
    let mut i: usize = 0;
    while i < k
        invariant
            i <= k,
            r@ == repeat(c, i as nat),
        decreases k - i,
    {
        push_char(&mut r, c);
        assert(r@ =~= repeat(c, (i + 1) as nat));
        i = i + 1;
    }
    r
}

/// The timeline shown before the wait, line by line: the network delay in
/// whole milliseconds `delay_ms` at each hop and the local start time.
pub open spec fn flow_lines(delay_ms: u64, t: Seq<char>, use_delay: bool) -> Seq<Seq<char>> {
    let n = decimal(delay_ms as nat);
    let space = repeat(' ', n.len());
    let border = repeat('/', n.len());
    if use_delay {
        seq![
            "\n/////////////////////////////////////////////////////////"@ + border + border + border,
            "  "@ + space + "  Product Launch    Checkout Done        "@ + space + space + "   Submit Done"@,
            "       "@ + space + "    |            |  "@ + space + "       "@ + space + "               |"@,
            "       "@ + space + "    |            |  "@ + space + "       "@ + space + "               |"@,
            "----*--"@ + n + "ms--*--checkout--*--"@ + n + "ms--*--"@ + n + "ms--*--submit--*"@,
            "    |  "@ + space + "                    "@ + space + "    |"@,
            "    |  "@ + space + "                    "@ + space + "    |"@,
            "Send Checkout Request     "@ + space + space + "   Send Submit Request"@,
            t + " "@,
            "(Local System Time)"@,
            "/////////////////////////////////////////////////////////"@ + border + border + border + "\n"@,
        ]
    } else {
        seq![
            "/////////////////////////////////////////////////////////"@ + border + border + border,
            "Product Launch "@ + space + "       Checkout Done        "@ + space + space + "   Submit Done"@,
            "    |  "@ + space + "                 |  "@ + space + "       "@ + space + "               |"@,
            "    |  "@ + space + "                 |  "@ + space + "       "@ + space + "               |"@,
            "----*--"@ + n + "ms--*--checkout--*--"@ + n + "ms--*--"@ + n + "ms--*--submit--*"@,
            "    |  "@ + space + "                    "@ + space + "    |"@,
            "    |  "@ + space + "                    "@ + space + "    |"@,
            "Send Checkout Request     "@ + space + space + "   Send Submit Request"@,
            t + " "@,
            "(Local System Time)"@,
            "/////////////////////////////////////////////////////////"@ + border + border + border + "\n"@,
        ]
    }
}

/// The timeline shown before the wait.
pub fn draw_flow_lines(delay_ms: u64, start_time: &str, use_delay: bool) -> (r: Vec<String>)
    ensures
        r@.map_values(|l: String| l@) == flow_lines(delay_ms, start_time@, use_delay),
{
    let n = decimal_string(delay_ms as u128);
    let len = n.as_str().unicode_len();
    let space = repeat_char(' ', len);
    let border = repeat_char('/', len);
    let mut r: Vec<String> = Vec::new();
    if use_delay {
        let mut l = String::from_str("\n/////////////////////////////////////////////////////////");
        l.append(border.as_str());
        l.append(border.as_str());
        l.append(border.as_str());
        r.push(l);
        let mut l = String::from_str("  ");
        l.append(space.as_str());
        l.append("  Product Launch    Checkout Done        ");
        l.append(space.as_str());
        l.append(space.as_str());
        l.append("   Submit Done");
        r.push(l);
        let mut l = String::from_str("       ");
        l.append(space.as_str());
        l.append("    |            |  ");
        l.append(space.as_str());
        l.append("       ");
        l.append(space.as_str());
        l.append("               |");
        r.push(l);
        let mut l = String::from_str("       ");
        l.append(space.as_str());
        l.append("    |            |  ");
        l.append(space.as_str());
        l.append("       ");
        l.append(space.as_str());
        l.append("               |");
        r.push(l);
        let mut l = String::from_str("----*--");
        l.append(n.as_str());
        l.append("ms--*--checkout--*--");
        l.append(n.as_str());
        l.append("ms--*--");
        l.append(n.as_str());
        l.append("ms--*--submit--*");
        r.push(l);
        let mut l = String::from_str("    |  ");
        l.append(space.as_str());
        l.append("                    ");
        l.append(space.as_str());
        l.append("    |");
        r.push(l);
        let mut l = String::from_str("    |  ");
        l.append(space.as_str());
        l.append("                    ");
        l.append(space.as_str());
        l.append("    |");
        r.push(l);
        let mut l = String::from_str("Send Checkout Request     ");
        l.append(space.as_str());
        l.append(space.as_str());
        l.append("   Send Submit Request");
        r.push(l);
        let mut l = String::from_str(start_time);
        l.append(" ");
        r.push(l);
        let l = String::from_str("(Local System Time)");
        r.push(l);
        let mut l = String::from_str("/////////////////////////////////////////////////////////");
        l.append(border.as_str());
        l.append(border.as_str());
        l.append(border.as_str());
        l.append("\n");
        r.push(l);
    } else {
        let mut l = String::from_str("/////////////////////////////////////////////////////////");
        l.append(border.as_str());
        l.append(border.as_str());
        l.append(border.as_str());
        r.push(l);
        let mut l = String::from_str("Product Launch ");
        l.append(space.as_str());
        l.append("       Checkout Done        ");
        l.append(space.as_str());
        l.append(space.as_str());
        l.append("   Submit Done");
        r.push(l);
        let mut l = String::from_str("    |  ");
        l.append(space.as_str());
        l.append("                 |  ");
        l.append(space.as_str());
        l.append("       ");
        l.append(space.as_str());
        l.append("               |");
        r.push(l);
        let mut l = String::from_str("    |  ");
        l.append(space.as_str());
        l.append("                 |  ");
        l.append(space.as_str());
        l.append("       ");
        l.append(space.as_str());
        l.append("               |");
        r.push(l);
        let mut l = String::from_str("----*--");
        l.append(n.as_str());
        l.append("ms--*--checkout--*--");
        l.append(n.as_str());
        l.append("ms--*--");
        l.append(n.as_str());
        l.append("ms--*--submit--*");
        r.push(l);
        let mut l = String::from_str("    |  ");
        l.append(space.as_str());
        l.append("                    ");
        l.append(space.as_str());
        l.append("    |");
        r.push(l);
        let mut l = String::from_str("    |  ");
        l.append(space.as_str());
        l.append("                    ");
        l.append(space.as_str());
        l.append("    |");
        r.push(l);
        let mut l = String::from_str("Send Checkout Request     ");
        l.append(space.as_str());
        l.append(space.as_str());
        l.append("   Send Submit Request");
        r.push(l);
        let mut l = String::from_str(start_time);
        l.append(" ");
        r.push(l);
        let l = String::from_str("(Local System Time)");
        r.push(l);
        let mut l = String::from_str("/////////////////////////////////////////////////////////");
        l.append(border.as_str());
        l.append(border.as_str());
        l.append(border.as_str());
        l.append("\n");
        r.push(l);
    }
    assert(r@.map_values(|l: String| l@) =~= flow_lines(delay_ms, start_time@, use_delay));
    r
}

} // verus!
