use taobao_order::actions::parse_params_data;
use taobao_order::cookie::{Cookie, CookieEntry};
use taobao_order::json::{to_json_string, Json};
use taobao_order::mtop::{
    build_headers, buy_cart_call_at, check_user_info, order_create_time, order_detail_url_taobao,
    order_detail_url_tmall, settle_call_at, strip_jsonp, submit_call_at, user_info_call,
    user_info_call_at,
};
use taobao_order::payloads::cart;
use taobao_order::payloads::settlement;
use taobao_order::payloads::submit;
use taobao_order::payloads::user_info;
use taobao_order::sign::sign_with_time;
use taobao_order::urlencode::UrlParams;

fn entry(name: &str, value: &str, domain: &str) -> CookieEntry {
    CookieEntry { name: name.to_string(), value: value.to_string(), domain: domain.to_string() }
}

fn cookies() -> Cookie {
    Cookie {
        cookies: vec![
            entry("t", "1", ".taobao.com"),
            entry("_m_h5_tk", "tok_99", ".taobao.com"),
            entry("other", "x", "www.taobao.com"),
            entry("_m_h5_tk", "second_1", ".taobao.com"),
        ],
    }
}

#[test]
fn cookie_header_and_token() {
    let c = cookies();
    assert_eq!(c.to_cookies_str(".taobao.com"), "t=1; _m_h5_tk=tok_99; _m_h5_tk=second_1");
    assert_eq!(c.to_cookies_str("taobao.com"), "");
    assert_eq!(c.get_cookie("_m_h5_tk").unwrap().value, "tok_99");
    assert!(c.get_cookie("missing").is_none());
}

#[test]
fn headers_of_every_call() {
    let h = build_headers(&cookies());
    assert_eq!(h.len(), 5);
    assert_eq!(h[0], ("accept".to_string(), "application/json".to_string()));
    assert_eq!(h[1].1, "https://main.m.taobao.com");
    assert_eq!(h[3].1, "application/x-www-form-urlencoded");
    assert_eq!(h[4], ("cookie".to_string(), "t=1; _m_h5_tk=tok_99; _m_h5_tk=second_1".to_string()));
}

#[test]
fn account_call() {
    let call = user_info_call_at(&cookies(), "1700000000000");
    let sign = sign_with_time("{}", "tok_99", "1700000000000");
    let p = user_info::Param::new("12574478", "1700000000000", &sign);
    assert_eq!(
        call.url,
        format!("https://h5api.m.taobao.com/h5/mtop.user.getusersimple/1.0/?{}", p.to_url_params())
    );
    assert_eq!(call.body, "data=%7B%7D");
    let now = user_info_call(&cookies()).unwrap();
    assert!(now.url.starts_with("https://h5api.m.taobao.com/h5/mtop.user.getusersimple/1.0/?jsv=2.7.2&appKey=12574478&t="));
}

#[test]
fn cart_call() {
    let call = buy_cart_call_at(&cookies(), "5");
    let data = to_json_string(&cart::Payload::new().to_json());
    let sign = sign_with_time(&data, "tok", "5");
    let p = cart::Param::new("12574478", "5", &sign, &data);
    assert_eq!(
        call.url,
        format!("https://h5api.m.taobao.com/h5/mtop.trade.query.bag/5.0/?{}", p.to_url_params())
    );
    assert_eq!(call.body, "");
}

#[test]
fn checkout_call() {
    let buy = "{\"buyNow\":false}";
    let call = settle_call_at(&cookies(), buy, "6");
    let sign = sign_with_time(buy, "tok", "6");
    let p = settlement::Param::new("12574478", "6", &sign);
    assert_eq!(
        call.url,
        format!("https://h5api.m.taobao.com/h5/mtop.trade.order.build.h5/4.0/?{}", p.to_url_params())
    );
    assert_eq!(call.body, "data=%7B%22buyNow%22%3Afalse%7D");
}

#[test]
fn order_call() {
    let settle = Json::Obj(vec![(
        "data".to_string(),
        Json::Obj(vec![
            ("data".to_string(), Json::Obj(vec![("item_1".to_string(), Json::Null)])),
            ("hierarchy".to_string(), Json::Obj(vec![])),
            ("linkage".to_string(), Json::Obj(vec![])),
        ]),
    )]);
    let params = parse_params_data(&settle);
    assert_eq!(params, "{\"item_1\":null}");
    let call = submit_call_at(&cookies(), &settle, &params, "7");
    let pdp = submit::PayloadDataParams::new(&settle, &params);
    let pd = submit::PayloadData::new(&to_json_string(&pdp.to_json()));
    let data = to_json_string(&pd.to_json());
    let sign = sign_with_time(&data, "tok", "7");
    let p = submit::Param::new("12574478", "7", &sign);
    assert_eq!(
        call.url,
        format!("https://h5api.m.taobao.com/h5/mtop.trade.order.create.h5/4.0/?{}", p.to_url_params())
    );
    assert_eq!(call.body, submit::Payload::new(&data).to_url_params());
}

#[test]
fn account_answer() {
    let ok = Json::Obj(vec![("ret".to_string(), Json::Arr(vec![Json::Str("SUCCESS::ok".to_string())]))]);
    assert!(check_user_info(ok).is_ok());
    let bad = Json::Obj(vec![("ret".to_string(), Json::Arr(vec![Json::Str("FAIL_SYS_SESSION_EXPIRED".to_string())]))]);
    assert_eq!(
        check_user_info(bad).unwrap_err(),
        "请求mtop.user.getusersimple失败, ret: FAIL_SYS_SESSION_EXPIRED"
    );
}

#[test]
fn jsonp_unwrapped() {
    assert_eq!(strip_jsonp("  mtopjsonp2({\"a\":\"好\"})\n"), "{\"a\":\"好\"}");
    assert_eq!(strip_jsonp("mtopjsonp2()"), "");
}

#[test]
fn order_page_urls() {
    assert_eq!(
        order_detail_url_taobao("123"),
        "https://trade.taobao.com/trade/detail/trade_order_detail.htm?biz_order_id=123"
    );
    assert_eq!(
        order_detail_url_tmall("123"),
        "https://trade.tmall.com/detail/orderDetail.htm?biz_order_id=123&forward_action="
    );
}

#[test]
fn order_time_is_taken_from_the_last_line_showing_one() {
    let body = "<td>\"2024-10-08 20:30:01</td>\n<p>x</p>\r\n<td>\"2024-10-08 20:30:05\"</td>\nend";
    assert_eq!(order_create_time(body).unwrap(), "2024-10-08 20:30:05");
    assert_eq!(order_create_time("\"2024-1-08 20:30:05\nno time").as_deref(), None);
    assert_eq!(order_create_time("").as_deref(), None);
    assert_eq!(order_create_time("a \"2001-02-03 04:05:06 b").unwrap(), "2001-02-03 04:05:06");
}
