use taobao_order::actions::{
    check_cart, check_settle_result, check_submit_result, check_user_permission, get_cart_data,
    get_response_ret, parse_params_data, parse_settlement_params, process_cart_items, sku_info,
    sku_info_text, SubmitPlan, SubmitStep,
};
use taobao_order::json::{Json, Number};

fn s(x: &str) -> Json {
    Json::Str(x.to_string())
}

fn obj(entries: Vec<(&str, Json)>) -> Json {
    Json::Obj(entries.into_iter().map(|(k, v)| (k.to_string(), v)).collect())
}

fn item(id: &str, title: &str, sku: &str, qty: u64, settlement: &str) -> Json {
    obj(vec![(
        "fields",
        obj(vec![
            ("itemId", s(id)),
            ("quantity", Json::Num(Number::PosInt(qty))),
            ("settlement", s(settlement)),
            ("sku", obj(vec![("title", s(sku))])),
            ("title", s(title)),
        ]),
    )])
}

fn cart(ret: &str) -> Json {
    obj(vec![
        (
            "data",
            obj(vec![(
                "data",
                obj(vec![
                    ("item_1", item("123", "Tea", "Green", 2, "s1")),
                    ("item_2", item("999", "Cup", "Blue", 1, "s2")),
                    ("item_3", item("123", "Tea", "Black", 3, "s3")),
                    ("shop_1", obj(vec![("fields", obj(vec![]))])),
                ]),
            )]),
        ),
        ("ret", Json::Arr(vec![s(ret), s("ignored")])),
    ])
}

#[test]
fn ret_is_first_string_of_ret_array() {
    let c = cart("SUCCESS::调用成功");
    assert_eq!(get_response_ret(&c), "SUCCESS::调用成功");
}

#[test]
fn cart_items_of_the_item_in_member_order() {
    let c = cart("SUCCESS::ok");
    let data = get_cart_data(&c);
    assert_eq!(data.len(), 4);
    assert_eq!(process_cart_items(data, "123"), vec![0, 2]);
    assert_eq!(process_cart_items(data, "999"), vec![1]);
    assert!(process_cart_items(data, "5").is_empty());
}

#[test]
fn check_cart_outcomes() {
    assert_eq!(check_cart(&cart("SUCCESS::ok"), "123").unwrap(), vec![0, 2]);
    assert_eq!(
        check_cart(&cart("FAIL_SYS_TOKEN_EXOIRED::令牌过期"), "123").unwrap_err(),
        "购物车调用失败: FAIL_SYS_TOKEN_EXOIRED::令牌过期"
    );
    assert_eq!(
        check_cart(&cart("SUCCESS::ok"), "777").unwrap_err(),
        "购物车未就绪, 先添加商品到购物车"
    );
}

#[test]
fn sku_text_with_and_without_title() {
    let c = cart("SUCCESS");
    let data = get_cart_data(&c);
    let info = sku_info(&data[0].1).unwrap();
    assert_eq!(info.quantity, 2);
    assert_eq!(
        sku_info_text(&info, true),
        "----------------------------\nTea\n\nGreen x2\n"
    );
    let info = sku_info(&data[2].1).unwrap();
    assert_eq!(sku_info_text(&info, false), "Black x3\n");
    assert!(sku_info(&data[3].1).is_none());
    assert!(sku_info(&s("x")).is_none());
}

#[test]
fn settlement_params_join_the_item_settlements() {
    let c = cart("SUCCESS");
    assert_eq!(
        parse_settlement_params(&c, "123"),
        "{\"buyNow\":false,\"buyParam\":\"s1,s3\",\"spm\":\"a21202.12579950.settlement-bar.0\"}"
    );
    assert_eq!(
        parse_settlement_params(&c, "none"),
        "{\"buyNow\":false,\"buyParam\":\"\",\"spm\":\"a21202.12579950.settlement-bar.0\"}"
    );
}

fn settle(ret: &str, members: Vec<(&str, Json)>) -> Json {
    obj(vec![
        ("data", obj(vec![("data", obj(members)), ("linkage", obj(vec![("k", s("v"))]))])),
        ("ret", Json::Arr(vec![s(ret)])),
    ])
}

#[test]
fn params_data_keeps_listed_and_prefixed_members() {
    let j = settle(
        "SUCCESS",
        vec![
            ("address_1", s("addr")),
            ("anonymous_1", Json::Bool(false)),
            ("deliveryDate_9", Json::Num(Number::PosInt(1))),
            ("item_7", obj(vec![("x", Json::Null)])),
            ("itemInfo_7", s("i")),
            ("other_1", s("dropped")),
            ("submitOrder_1", s("so")),
            ("voucher_2", s("dropped too")),
        ],
    );
    assert_eq!(
        parse_params_data(&j),
        "{\"address_1\":\"addr\",\"anonymous_1\":false,\"deliveryDate_9\":1,\"item_7\":{\"x\":null},\"itemInfo_7\":\"i\",\"submitOrder_1\":\"so\"}"
    );
}

#[test]
fn params_data_of_a_non_object_is_empty() {
    let j = obj(vec![("data", obj(vec![("data", s("text"))]))]);
    assert_eq!(parse_params_data(&j), "{}");
    let j = settle("SUCCESS", vec![("nothing", s("x"))]);
    assert_eq!(parse_params_data(&j), "{}");
}

#[test]
fn settle_result_outcomes() {
    let ok = check_settle_result(Ok(settle("SUCCESS::调用成功", vec![])));
    assert!(ok.is_ok());
    assert_eq!(
        check_settle_result(Ok(settle("FAIL_BIZ::库存不足", vec![]))).unwrap_err(),
        "结算调用失败: FAIL_BIZ::库存不足"
    );
    assert_eq!(check_settle_result(Err("net".to_string())).unwrap_err(), "net");
}

#[test]
fn submit_result_outcomes() {
    let good = obj(vec![
        ("data", obj(vec![("bizOrderId", s("4000123"))])),
        ("ret", Json::Arr(vec![s("SUCCESS::调用成功")])),
    ]);
    let (id, _) = check_submit_result(Ok(good)).unwrap();
    assert_eq!(id, "4000123");
    let bad = obj(vec![("ret", Json::Arr(vec![s("FAIL_SYS::busy")]))]);
    assert_eq!(check_submit_result(Ok(bad)).unwrap_err(), "提单调用失败: FAIL_SYS::busy");
    assert_eq!(check_submit_result(Err("timeout".to_string())).unwrap_err(), "timeout");
}

#[test]
fn submit_plan_gives_up_after_three_and_ten_failures() {
    let mut p = SubmitPlan::new(false);
    assert_eq!(p.concurrent, 3);
    assert!(matches!(p.on_outcome(false), SubmitStep::AwaitConcurrent));
    assert!(matches!(p.on_outcome(false), SubmitStep::AwaitConcurrent));
    assert!(p.in_concurrent_phase());
    assert!(matches!(p.on_outcome(false), SubmitStep::SendOne));
    assert!(!p.in_concurrent_phase());
    for _ in 0..9 {
        assert!(matches!(p.on_outcome(false), SubmitStep::SendOne));
    }
    assert!(matches!(p.on_outcome(false), SubmitStep::GiveUp));
    assert!(p.finished);
    assert_eq!(p.concurrent + p.sequential, 13);
}

#[test]
fn submit_plan_test_run_and_success() {
    let mut p = SubmitPlan::new(true);
    assert_eq!(p.concurrent, 1);
    assert!(matches!(p.on_outcome(false), SubmitStep::SendOne));
    assert!(matches!(p.on_outcome(true), SubmitStep::Ordered));
    assert!(p.finished);
}

fn user(nick: &str, display: &str) -> Json {
    obj(vec![("data", obj(vec![("displayNick", s(display)), ("nick", s(nick))]))])
}

#[test]
fn user_permission() {
    assert_eq!(check_user_permission(&user("lhy5246", "x")).unwrap(), "lhy5246");
    assert_eq!(check_user_permission(&user("someone", "神淼o0")).unwrap(), "someone");
    assert_eq!(
        check_user_permission(&user("someone", "else")).unwrap_err(),
        "未授权taobao账号<someone>"
    );
}
