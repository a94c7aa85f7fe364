use taobao_order::json::{quote, to_json_string, Json, Number};

fn s(x: &str) -> Json {
    Json::Str(x.to_string())
}

fn obj(entries: Vec<(&str, Json)>) -> Json {
    Json::Obj(entries.into_iter().map(|(k, v)| (k.to_string(), v)).collect())
}

#[test]
fn get_finds_member_and_misses_other_values() {
    let j = obj(vec![("a", s("x")), ("b", Json::Num(Number::PosInt(7)))]);
    assert_eq!(j.get("a").unwrap().as_str().unwrap(), "x");
    assert_eq!(j.get("b").unwrap().as_u64(), Some(7));
    assert!(j.get("c").is_none());
    assert!(s("a").get("a").is_none());
    assert!(Json::Null.get("a").is_none());
}

#[test]
fn get_takes_the_first_of_equal_names() {
    let j = obj(vec![("k", s("first")), ("k", s("second"))]);
    assert_eq!(j.get("k").unwrap().as_str().unwrap(), "first");
}

#[test]
fn as_u64_only_for_non_negative_integers() {
    assert_eq!(Json::Num(Number::NegInt(-3)).as_u64(), None);
    assert_eq!(Json::Num(Number::Float("1.5".to_string())).as_u64(), None);
    assert_eq!(s("5").as_u64(), None);
    assert_eq!(Json::Num(Number::PosInt(u64::MAX)).as_u64(), Some(u64::MAX));
}

#[test]
fn quote_escapes_as_serde_json() {
    assert_eq!(quote("abc"), "\"abc\"");
    assert_eq!(quote("a\"b\\c"), "\"a\\\"b\\\\c\"");
    assert_eq!(quote("\n\t\r\u{8}\u{c}"), "\"\\n\\t\\r\\b\\f\"");
    assert_eq!(quote("\u{1}\u{1f}"), "\"\\u0001\\u001f\"");
    assert_eq!(quote("商品/é\u{7f}"), "\"商品/é\u{7f}\"");
    assert_eq!(quote(""), "\"\"");
}

#[test]
fn compact_text_of_nested_values() {
    let j = obj(vec![
        ("a", Json::Arr(vec![Json::Null, Json::Bool(true), Json::Bool(false)])),
        ("b", obj(vec![])),
        ("c", Json::Arr(vec![])),
        ("d", Json::Num(Number::NegInt(-12))),
        ("e", Json::Num(Number::Float("2.5e-7".to_string()))),
        ("f", Json::Num(Number::PosInt(0))),
        ("g", s("q\"")),
    ]);
    assert_eq!(
        to_json_string(&j),
        "{\"a\":[null,true,false],\"b\":{},\"c\":[],\"d\":-12,\"e\":2.5e-7,\"f\":0,\"g\":\"q\\\"\"}"
    );
}

#[test]
fn compact_text_of_extreme_integers() {
    assert_eq!(to_json_string(&Json::Num(Number::NegInt(i64::MIN))), "-9223372036854775808");
    assert_eq!(to_json_string(&Json::Num(Number::PosInt(u64::MAX))), "18446744073709551615");
}

fn from_serde(v: serde_json::Value) -> Json {
    match v {
        serde_json::Value::Null => Json::Null,
        serde_json::Value::Bool(b) => Json::Bool(b),
        serde_json::Value::Number(n) => {
            if let Some(u) = n.as_u64() {
                Json::Num(Number::PosInt(u))
            } else if let Some(i) = n.as_i64() {
                Json::Num(Number::NegInt(i))
            } else {
                Json::Num(Number::Float(n.to_string()))
            }
        }
        serde_json::Value::String(s) => Json::Str(s),
        serde_json::Value::Array(a) => Json::Arr(a.into_iter().map(from_serde).collect()),
        serde_json::Value::Object(m) => {
            Json::Obj(m.into_iter().map(|(k, v)| (k, from_serde(v))).collect())
        }
    }
}

#[test]
fn compact_text_agrees_with_serde_json() {
    let bodies = [
        "{\"z\":1,\"a\":[true,null,{\"k\":\"v\\u0001\\\"\"}],\"m\":-5,\"f\":1.25,\"s\":\"商品\\n\"}",
        "[]",
        "{}",
        "\"\\t\\b\\f\\r/\"",
        "[18446744073709551615,-9223372036854775808,0.5]",
    ];
    for body in bodies.iter() {
        let value: serde_json::Value = serde_json::from_str(body).unwrap();
        let expected = serde_json::to_string(&value).unwrap();
        assert_eq!(to_json_string(&from_serde(value)), expected);
    }
}
