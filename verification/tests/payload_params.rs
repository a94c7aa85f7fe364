use taobao_order::json::{to_json_string, Json, Number};
use taobao_order::payloads::{cart, settlement, submit, user_info};
use taobao_order::urlencode::{encode_pairs, UrlParams};

fn pairs_text(p: &[(&str, &str)]) -> String {
    serde_urlencoded::to_string(p).unwrap()
}

#[test]
fn cart_document_text() {
    let ex = cart::ExParam::new();
    assert_eq!(
        to_json_string(&ex.to_json()),
        "{\"supportCalculateUpdate\":\"true\",\"mergeCombo\":\"true\",\"globalSell\":\"1\",\"spiPage\":\"pcTao\"}"
    );
    let p = cart::Payload::new();
    assert_eq!(p.cart_from, "main_site");
    assert_eq!(
        to_json_string(&p.to_json()),
        "{\"isPage\":true,\"cartFrom\":\"main_site\",\"extStatus\":\"0\",\"netType\":0,\"mixed\":false,\"exParams\":\"{\\\"supportCalculateUpdate\\\":\\\"true\\\",\\\"mergeCombo\\\":\\\"true\\\",\\\"globalSell\\\":\\\"1\\\",\\\"spiPage\\\":\\\"pcTao\\\"}\"}"
    );
}

#[test]
fn cart_param_text() {
    let p = cart::Param::new("12574478", "1700000000000", "abc", "{\"a\":1}");
    assert_eq!(
        p.to_url_params(),
        "jsv=2.5.1&appKey=12574478&t=1700000000000&sign=abc&api=mtop.trade.query.bag&v=5.0&type=jsonp&ttid=h5&isSec=0&ecode=1&AntiFlood=true&AntiCreep=true&H5Request=true&dataType=jsonp&callback=mtopjsonp2&data=%7B%22a%22%3A1%7D"
    );
}

#[test]
fn settlement_param_and_body_text() {
    let p = settlement::Param::new("12574478", "1", "s");
    assert_eq!(
        p.to_url_params(),
        pairs_text(&[
            ("jsv", "2.5.1"),
            ("appKey", "12574478"),
            ("t", "1"),
            ("sign", "s"),
            ("api", "mtop.trade.order.build.h5"),
            ("v", "4.0"),
            ("type", "originaljson"),
            ("ttid", "#t#ip##_h5_2019"),
            ("isSec", "1"),
            ("ecode", "1"),
            ("AntiFlood", "true"),
            ("AntiCreep", "true"),
            ("H5Request", "true"),
            ("dataType", "jsonp"),
        ])
    );
    assert!(p.to_url_params().contains("ttid=%23t%23ip%23%23_h5_2019"));
    let b = settlement::Payload::new("{\"buyNow\":false,\"x\":\"a b\"}");
    assert_eq!(b.to_url_params(), "data=%7B%22buyNow%22%3Afalse%2C%22x%22%3A%22a+b%22%7D");
}

#[test]
fn submit_param_and_body_text() {
    let p = submit::Param::new("12574478", "2", "z");
    assert_eq!(
        p.to_url_params(),
        "jsv=2.5.1&appKey=12574478&t=2&sign=z&api=mtop.trade.order.create.h5&v=4.0&post=1&type=originaljson&timeout=15000&ttid=%23t%23ip%23%23_h5_2019&isSec=1&ecode=1&AntiFlood=true&dataType=jsonp"
    );
    assert_eq!(submit::Payload::new("é").to_url_params(), "data=%C3%A9");
}

#[test]
fn user_info_param_text() {
    let p = user_info::Param::new("12574478", "3", "q");
    assert_eq!(
        p.to_url_params(),
        "jsv=2.7.2&appKey=12574478&t=3&sign=q&api=mtop.user.getUserSimple&v=5.0&type=originaljson&preventFallback=true&dataType=jsonp"
    );
}

#[test]
fn order_documents_text() {
    let settle = Json::Obj(vec![(
        "data".to_string(),
        Json::Obj(vec![
            ("hierarchy".to_string(), Json::Obj(vec![("root".to_string(), Json::Str("r".to_string()))])),
            ("linkage".to_string(), Json::Arr(vec![Json::Num(Number::PosInt(1))])),
        ]),
    )]);
    let pdp = submit::PayloadDataParams::new(&settle, "{\"item_1\":1}");
    let pdp_text = to_json_string(&pdp.to_json());
    assert_eq!(
        pdp_text,
        "{\"operator\":null,\"data\":\"{\\\"item_1\\\":1}\",\"linkage\":\"[1]\",\"hierarchy\":\"{\\\"root\\\":\\\"r\\\"}\",\"lifecycle\":null}"
    );
    let pd = submit::PayloadData::new(&pdp_text);
    let pd_text = to_json_string(&pd.to_json());
    assert_eq!(pd_text, format!("{{\"params\":{}}}", serde_json::to_string(&pdp_text).unwrap()));
}

#[test]
fn encode_pairs_as_serde_urlencoded() {
    let pairs = vec![
        ("a b".to_string(), "*-._~!".to_string()),
        ("中".to_string(), "".to_string()),
    ];
    assert_eq!(encode_pairs(&pairs), "a+b=*-._%7E%21&%E4%B8%AD=");
    assert_eq!(encode_pairs(&vec![]), "");
}
