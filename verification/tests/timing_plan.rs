use taobao_order::timing::start_time_until_ms;
use taobao_order::timing::{draw_flow_lines, millis_until, plan_wait, WaitPlan};

#[test]
fn millis_until_target() {
    assert_eq!(millis_until(2_000, 500), 1_500);
    assert_eq!(millis_until(500, 2_000), 0);
    assert_eq!(millis_until(7, 7), 0);
}

#[test]
fn wait_decisions() {
    // less than a second left
    assert!(matches!(plan_wait(999, 0, false, 0), WaitPlan::NoWait));
    // less than the offset left
    assert!(matches!(plan_wait(1_500, 2_000_000_000, false, 0), WaitPlan::NoWait));
    // local clock ahead: the offset is taken off
    match plan_wait(10_000, 250_000_000, false, 30) {
        WaitPlan::Wait { corrected_ns, wait_ns } => {
            assert_eq!(corrected_ns, 9_750_000_000);
            assert_eq!(wait_ns, 9_720_000_000);
        }
        other => panic!("{:?}", other),
    }
    // local clock behind: the offset is added
    match plan_wait(10_000, 250_000_000, true, 0) {
        WaitPlan::Wait { corrected_ns, wait_ns } => {
            assert_eq!(corrected_ns, 10_250_000_000);
            assert_eq!(wait_ns, 10_250_000_000);
        }
        other => panic!("{:?}", other),
    }
    // the network delay is longer than what is left
    match plan_wait(2_000, 0, false, 3_000) {
        WaitPlan::AfterOffset { corrected_ns } => assert_eq!(corrected_ns, 2_000_000_000),
        other => panic!("{:?}", other),
    }
}

fn expected(n: &str, t: &str, use_delay: bool) -> Vec<String> {
    let s = " ".repeat(n.len());
    let b = "/".repeat(n.len());
    let mut v = Vec::new();
    if use_delay {
        v.push(format!("\n/////////////////////////////////////////////////////////{}{}{}", b, b, b));
        v.push(format!("  {}  Product Launch    Checkout Done        {}{}   Submit Done", s, s, s));
        v.push(format!("       {}    |            |  {}       {}               |", s, s, s));
        v.push(format!("       {}    |            |  {}       {}               |", s, s, s));
    } else {
        v.push(format!("/////////////////////////////////////////////////////////{}{}{}", b, b, b));
        v.push(format!("Product Launch {}       Checkout Done        {}{}   Submit Done", s, s, s));
        v.push(format!("    |  {}                 |  {}       {}               |", s, s, s));
        v.push(format!("    |  {}                 |  {}       {}               |", s, s, s));
    }
    v.push(format!("----*--{}ms--*--checkout--*--{}ms--*--{}ms--*--submit--*", n, n, n));
    v.push(format!("    |  {}                    {}    |", s, s));
    v.push(format!("    |  {}                    {}    |", s, s));
    v.push(format!("Send Checkout Request     {}{}   Send Submit Request", s, s));
    v.push(format!("{} ", t));
    v.push("(Local System Time)".to_string());
    v.push(format!("/////////////////////////////////////////////////////////{}{}{}\n", b, b, b));
    v
}

#[test]
fn timeline_lines() {
    assert_eq!(draw_flow_lines(32, "10:59:59.968", true), expected("32", "10:59:59.968", true));
    assert_eq!(draw_flow_lines(0, "11:00:00.000", false), expected("0", "11:00:00.000", false));
    assert_eq!(draw_flow_lines(12345, "x", true), expected("12345", "x", true));
}

#[test]
fn start_time_until_is_within_a_day_of_the_text_as_utc() {
    // 2024-10-08 20:30:00 UTC is 1728419400000 ms since the epoch
    let naive: i64 = 1_728_419_400_000;
    let day: i64 = 86_400_000;
    let now = naive - 3 * day;
    let left = start_time_until_ms("2024-10-08 20:30:00", now).unwrap() as i64;
    assert!(2 * day < left && left < 4 * day);
    // a start long past leaves nothing
    assert_eq!(start_time_until_ms("2024-10-08 20:30:00", naive + 2 * day), Some(0));
    assert_eq!(start_time_until_ms("2024-10-08 20:30", now), None);
    assert_eq!(start_time_until_ms("bad", now), None);
}
