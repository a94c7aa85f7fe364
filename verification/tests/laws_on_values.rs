use taobao_order::actions::parse_params_data;
use taobao_order::json::{Json, Number};
use taobao_order::mtop::next_order_page;
use taobao_order::sign::{get_sign_val, sign_with_time};
use taobao_order::text::trim_str;
use taobao_order::timing::{countdown_step, plan_wait, CountdownStep, WaitPlan};

fn obj(entries: Vec<(&str, Json)>) -> Json {
    Json::Obj(entries.into_iter().map(|(k, v)| (k.to_string(), v)).collect())
}

fn wait_of(p: WaitPlan) -> u128 {
    match p {
        WaitPlan::Wait { wait_ns, .. } => wait_ns,
        _ => 0,
    }
}

#[test]
fn countdown_ticks_from_three_seconds() {
    assert!(matches!(countdown_step(3_000), CountdownStep::Tick { remaining_ms: 3_000 }));
    assert!(matches!(countdown_step(60_000), CountdownStep::Tick { remaining_ms: 60_000 }));
    assert!(matches!(countdown_step(2_999), CountdownStep::Go { remaining_ms: 2_999 }));
    assert!(matches!(countdown_step(0), CountdownStep::Go { remaining_ms: 0 }));
}

#[test]
fn countdown_wraps_a_negative_difference() {
    assert!(matches!(countdown_step(-1), CountdownStep::Tick { remaining_ms: u64::MAX }));
    assert!(matches!(
        countdown_step(i64::MIN),
        CountdownStep::Tick { remaining_ms: 0x8000_0000_0000_0000 }
    ));
}

#[test]
fn order_page_shop_first_then_mall() {
    assert_eq!(
        next_order_page("42", 0).unwrap(),
        "https://trade.taobao.com/trade/detail/trade_order_detail.htm?biz_order_id=42"
    );
    assert_eq!(
        next_order_page("42", 1).unwrap(),
        "https://trade.tmall.com/detail/orderDetail.htm?biz_order_id=42&forward_action="
    );
    assert!(next_order_page("42", 2).is_none());
}

#[test]
fn wait_grows_with_time_left_and_shrinks_with_delay() {
    let mut last = 0;
    for until in [0u64, 999, 1_000, 1_200, 5_000, 60_000] {
        let w = wait_of(plan_wait(until, 250_000_000, false, 40));
        assert!(w >= last);
        last = w;
    }
    let mut last = u128::MAX;
    for delay in [0u64, 10, 100, 5_000, 50_000] {
        let w = wait_of(plan_wait(20_000, 250_000_000, true, delay));
        assert!(w <= last);
        last = w;
    }
}

#[test]
fn filtering_twice_changes_nothing() {
    let settle = obj(vec![(
        "data",
        obj(vec![(
            "data",
            obj(vec![
                ("address_1", Json::Str("a".to_string())),
                ("foo", Json::Null),
                ("item_1", Json::Num(Number::PosInt(3))),
                ("other_2", Json::Bool(true)),
            ]),
        )]),
    )]);
    let once = parse_params_data(&settle);
    let parsed: serde_json::Value = serde_json::from_str(&once).unwrap();
    let kept = match parsed {
        serde_json::Value::Object(m) => m
            .into_iter()
            .map(|(k, v)| {
                let j = match v {
                    serde_json::Value::String(s) => Json::Str(s),
                    serde_json::Value::Number(n) => Json::Num(Number::PosInt(n.as_u64().unwrap())),
                    _ => unreachable!(),
                };
                (k, j)
            })
            .collect(),
        _ => unreachable!(),
    };
    let again = obj(vec![("data", obj(vec![("data", Json::Obj(kept))]))]);
    assert_eq!(parse_params_data(&again), once);
    assert_eq!(once, "{\"address_1\":\"a\",\"item_1\":3}");
}

#[test]
fn signature_is_thirty_two_lower_hex_digits() {
    let sign = sign_with_time("x", "t_1", "5");
    assert_eq!(sign.len(), 32);
    assert!(sign.chars().all(|c| c.is_ascii_digit() || ('a'..='f').contains(&c)));
    let (sign, _) = get_sign_val("d", "m_1").unwrap();
    assert_eq!(sign.len(), 32);
}

#[test]
fn trim_removes_every_white_space_character() {
    let ws: Vec<char> = vec![
        '\u{9}', '\u{a}', '\u{b}', '\u{c}', '\u{d}', ' ', '\u{85}', '\u{a0}', '\u{1680}', '\u{2000}',
        '\u{2001}', '\u{2002}', '\u{2003}', '\u{2004}', '\u{2005}', '\u{2006}', '\u{2007}',
        '\u{2008}', '\u{2009}', '\u{200a}', '\u{2028}', '\u{2029}', '\u{202f}', '\u{205f}',
        '\u{3000}',
    ];
    for c in ws.iter() {
        assert!(c.is_whitespace());
    }
    let pad: String = ws.iter().collect();
    let text = format!("{}yes Y{}", pad, pad);
    assert_eq!(trim_str(&text), "yes Y");
    assert_eq!(trim_str("\u{200b}x\u{feff}"), "\u{200b}x\u{feff}");
}
