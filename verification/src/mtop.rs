//! The trade service's calls: their URLs, bodies and headers, and what is read
//! from their answers. Sending them is left to the caller.
use vstd::prelude::*;
use crate::actions::{response_ret, ret_success, get_response_ret, success_marker};
use crate::cookie::{Cookie, CookieEntry, first_named, cookie_items};
use crate::json::{Json, JVal, json_text, to_json_string, jget2};
use crate::payloads::{cart, settlement, submit, user_info};
use crate::sign::{app_key, sign_of, sign_with_time, unix_time_millis};
use crate::text::{contains, join, decimal, decimal_string, trim, trim_str, lines, lines_of, chars_of, string_of, str_contains};
use crate::urlencode::{UrlParams, form_urlencoded};

verus! {

broadcast use vstd::std_specs::vec::group_vec_axioms;

pub open spec fn user_info_base_url() -> Seq<char> {
    "https://h5api.m.taobao.com/h5/mtop.user.getusersimple/1.0/"@
}

pub open spec fn query_bag_base_url() -> Seq<char> {
    "https://h5api.m.taobao.com/h5/mtop.trade.query.bag/5.0/"@
}

pub open spec fn order_build_base_url() -> Seq<char> {
    "https://h5api.m.taobao.com/h5/mtop.trade.order.build.h5/4.0/"@
}

pub open spec fn order_create_base_url() -> Seq<char> {
    "https://h5api.m.taobao.com/h5/mtop.trade.order.create.h5/4.0/"@
}

/// A call ready to be sent: where to, and the body (empty for a GET).
#[derive(Debug)]
pub struct SignedCall {
    pub url: String,
    pub body: String,
}

/// The URL of a call: the base, `?`, and the urlencoded parameters.
pub open spec fn call_url(base: Seq<char>, pairs: Seq<(Seq<char>, Seq<char>)>) -> Seq<char> {
    base + "?"@ + form_urlencoded(pairs)
}

// ---------------------------------------------------------------------------
// The token cookie
// ---------------------------------------------------------------------------

/// The value of the first `_m_h5_tk` cookie.
pub open spec fn token_value(c: Cookie) -> Seq<char> {
    c.cookies@[first_named(c.cookies@, "_m_h5_tk"@)->0].value@
}

/// The cookies hold a `_m_h5_tk` cookie.
pub open spec fn has_token(c: Cookie) -> bool {
    first_named(c.cookies@, "_m_h5_tk"@) is Some
}

/// The value of the first `_m_h5_tk` cookie, which signs every call.
pub fn token_cookie(cookie: &Cookie) -> (r: &String)
    requires
        has_token(*cookie),
    ensures
        r@ == token_value(*cookie),
{
    let c = cookie.get_cookie("_m_h5_tk");
    let c = c.unwrap();
    &c.value
}

/// The headers of every call: JSON accepted, the shop's origin, a desktop
/// browser's user agent, a urlencoded body, and the cookies of `.taobao.com`.
pub open spec fn headers_of(c: Cookie) -> Seq<(Seq<char>, Seq<char>)> {
    seq![
        ("accept"@, "application/json"@),
        ("origin"@, "https://main.m.taobao.com"@),
        ("user-agent"@, "Mozilla/5.0 (Macintosh; Intel Mac OS X 10_14_5) AppleWebKit/537.36 (KHTML, like Gecko) Chrome/74.0.3729.169 Safari/537.36"@),
        ("content-type"@, "application/x-www-form-urlencoded"@),
        ("cookie"@, join(cookie_items(c.cookies@, ".taobao.com"@), "; "@)),
    ]
}

/// The headers of every call, as name/value pairs.
pub fn build_headers(cookie: &Cookie) -> (r: Vec<(String, String)>)
    ensures
        r@.map_values(|h: (String, String)| (h.0@, h.1@)) == headers_of(*cookie),
{
    let cookies = cookie.to_cookies_str(".taobao.com");
    let r = vec![
        (String::from_str("accept"), String::from_str("application/json")),
        (String::from_str("origin"), String::from_str("https://main.m.taobao.com")),
        (
            String::from_str("user-agent"),
            String::from_str(
                "Mozilla/5.0 (Macintosh; Intel Mac OS X 10_14_5) AppleWebKit/537.36 (KHTML, like Gecko) Chrome/74.0.3729.169 Safari/537.36",
            ),
        ),
        (String::from_str("content-type"), String::from_str("application/x-www-form-urlencoded")),
        (String::from_str("cookie"), cookies),
    ];
    assert(r@.map_values(|h: (String, String)| (h.0@, h.1@)) =~= headers_of(*cookie));
    r
}

// ---------------------------------------------------------------------------
// The account call
// ---------------------------------------------------------------------------

/// The body of the account call: `data={}` urlencoded.
pub open spec fn user_info_body() -> Seq<char> {
    "data=%7B%7D"@
}

/// The URL of the account call at time `t`.
pub open spec fn user_info_url(tk: Seq<char>, t: Seq<char>) -> Seq<char> {
    call_url(
        user_info_base_url(),
        user_info::Param::new_view(app_key(), t, sign_of("{}"@, tk, t)),
    )
}

/// The account call signed at time `t`.
pub fn user_info_call_at(cookie: &Cookie, t: &str) -> (r: SignedCall)
    requires
        has_token(*cookie),
    ensures
        r.url@ == user_info_url(token_value(*cookie), t@),
        r.body@ == user_info_body(),
{
    let tk = token_cookie(cookie);
    let sign = sign_with_time("{}", tk.as_str(), t);
    let param = user_info::Param::new("12574478", t, sign.as_str());
    let mut url = String::from_str(
        "https://h5api.m.taobao.com/h5/mtop.user.getusersimple/1.0/",
    );
    url.append("?");
    url.append(param.to_url_params().as_str());
    SignedCall { url, body: String::from_str("data=%7B%7D") }
}

/// The result of the account call: the response when `ret` reports success,
/// otherwise the message of the failure.
pub fn check_user_info(body: Json) -> (r: Result<Json, String>)
    requires
        response_ret(body@) is Some,
    ensures
        ret_success(body@) ==> r == Ok::<Json, String>(body),
        !ret_success(body@) ==> (r matches Err(m) && m@ == "请求mtop.user.getusersimple失败, ret: "@
            + response_ret(body@)->0),
{
    let failure = {
        let ret = get_response_ret(&body);
        if str_contains(ret.as_str(), "SUCCESS") {
            None
        } else {
            let mut m = String::from_str("请求mtop.user.getusersimple失败, ret: ");
            m.append(ret.as_str());
            Some(m)
        }
    };
    match failure {
        None => Ok(body),
        Some(m) => Err(m),
    }
}

// ---------------------------------------------------------------------------
// The cart call
// ---------------------------------------------------------------------------

/// The `data` of the cart call: the cart document as JSON text.
pub open spec fn cart_data_text() -> Seq<char> {
    json_text(cart::Payload::new_view())
}

/// The URL of the cart call at time `t`.
pub open spec fn buy_cart_url(tk: Seq<char>, t: Seq<char>) -> Seq<char> {
    call_url(
        query_bag_base_url(),
        cart::Param::new_view(app_key(), t, sign_of(cart_data_text(), tk, t), cart_data_text()),
    )
}

/// The cart call (a GET) signed at time `t`.
pub fn buy_cart_call_at(cookie: &Cookie, t: &str) -> (r: SignedCall)
    requires
        has_token(*cookie),
    ensures
        r.url@ == buy_cart_url(token_value(*cookie), t@),
        r.body@ == Seq::<char>::empty(),
{
    let tk = token_cookie(cookie);
    let payload = cart::Payload::new();
    let json_payload = to_json_string(&payload.to_json());
    let sign = sign_with_time(json_payload.as_str(), tk.as_str(), t);
    let param = cart::Param::new("12574478", t, sign.as_str(), json_payload.as_str());
    let mut url = String::from_str("https://h5api.m.taobao.com/h5/mtop.trade.query.bag/5.0/");
    url.append("?");
    url.append(param.to_url_params().as_str());
    SignedCall { url, body: String::new() }
}

/// The JSON text inside the cart answer `mtopjsonp2(...)`: the trimmed body
/// without its first eleven characters and its last one.
pub fn strip_jsonp(body: &str) -> (r: String)
    requires
        trim(body@).len() >= 12,
    ensures
        r@ == trim(body@).subrange(11, trim(body@).len() - 1),
{
    let t = trim_str(body);
    let cs = chars_of(t.as_str());
    let end = cs.len() - 1;
    string_of(vstd::slice::slice_subrange(cs.as_slice(), 11, end))
}

// ---------------------------------------------------------------------------
// The checkout call
// ---------------------------------------------------------------------------

/// The URL of the checkout call for `buy_now` at time `t`.
pub open spec fn settle_url(tk: Seq<char>, buy_now: Seq<char>, t: Seq<char>) -> Seq<char> {
    call_url(
        order_build_base_url(),
        settlement::Param::new_view(app_key(), t, sign_of(buy_now, tk, t)),
    )
}

/// The body of the checkout call: `data=<buy_now>` urlencoded.
pub open spec fn settle_body(buy_now: Seq<char>) -> Seq<char> {
    form_urlencoded(settlement::Payload::new_view(buy_now))
}

/// The checkout call for the `buyNow` document `buy_now`, signed at time `t`.
pub fn settle_call_at(cookie: &Cookie, buy_now: &str, t: &str) -> (r: SignedCall)
    requires
        has_token(*cookie),
    ensures
        r.url@ == settle_url(token_value(*cookie), buy_now@, t@),
        r.body@ == settle_body(buy_now@),
{
    let tk = token_cookie(cookie);
    let sign = sign_with_time(buy_now, tk.as_str(), t);
    let param = settlement::Param::new("12574478", t, sign.as_str());
    let mut url = String::from_str(
        "https://h5api.m.taobao.com/h5/mtop.trade.order.build.h5/4.0/",
    );
    url.append("?");
    url.append(param.to_url_params().as_str());
    let body = settlement::Payload::new(buy_now).to_url_params();
    SignedCall { url, body }
}

// ---------------------------------------------------------------------------
// The order call
// ---------------------------------------------------------------------------

/// The order document: the parameters document (`params_data`, the
/// settlement's `linkage` and `hierarchy`) as JSON text inside `params`.
pub open spec fn order_data_text(settle: JVal, params_data: Seq<char>) -> Seq<char> {
    let inner = JVal::Obj(
        seq![
            ("operator"@, JVal::Null),
            ("data"@, JVal::Str(params_data)),
            ("linkage"@, JVal::Str(json_text(jget2(settle, "data"@, "linkage"@)->0))),
            ("hierarchy"@, JVal::Str(json_text(jget2(settle, "data"@, "hierarchy"@)->0))),
            ("lifecycle"@, JVal::Null),
        ],
    );
    json_text(JVal::Obj(seq![("params"@, JVal::Str(json_text(inner)))]))
}

/// The URL of the order call at time `t`.
pub open spec fn submit_url(tk: Seq<char>, data: Seq<char>, t: Seq<char>) -> Seq<char> {
    call_url(order_create_base_url(), submit::Param::new_view(app_key(), t, sign_of(data, tk, t)))
}

/// The body of the order call: `data=<order document>` urlencoded.
pub open spec fn submit_body(data: Seq<char>) -> Seq<char> {
    form_urlencoded(submit::Payload::new_view(data))
}

/// The order call for the settlement response and the order data, signed at
/// time `t`.
pub fn submit_call_at(cookie: &Cookie, settle_json: &Json, params_data: &str, t: &str) -> (r:
    SignedCall)
    requires
        has_token(*cookie),
        submit::has_linkage_and_hierarchy(settle_json@),
    ensures
        ({
            let data = order_data_text(settle_json@, params_data@);
            &&& r.url@ == submit_url(token_value(*cookie), data, t@)
            &&& r.body@ == submit_body(data)
        }),
{
    let pdp = submit::PayloadDataParams::new(settle_json, params_data);
    let pdp_text = to_json_string(&pdp.to_json());
    let pd = submit::PayloadData::new(pdp_text.as_str());
    let data = to_json_string(&pd.to_json());
    let tk = token_cookie(cookie);
    let sign = sign_with_time(data.as_str(), tk.as_str(), t);
    let param = submit::Param::new("12574478", t, sign.as_str());
    let mut url = String::from_str(
        "https://h5api.m.taobao.com/h5/mtop.trade.order.create.h5/4.0/",
    );
    url.append("?");
    url.append(param.to_url_params().as_str());
    let body = submit::Payload::new(data.as_str()).to_url_params();
    SignedCall { url, body }
}

// ---------------------------------------------------------------------------
// Calls signed now
// ---------------------------------------------------------------------------

/// The time of a signature: milliseconds since the epoch in decimal.
pub open spec fn is_time_text(t: Seq<char>) -> bool {
    exists|ms: nat| t == decimal(ms)
}

/// The current time in milliseconds as decimal text; nothing when the clock
/// reads before the epoch.
fn now_text() -> (r: Option<String>)
    ensures
        r matches Some(t) ==> is_time_text(t@),
{
    match unix_time_millis() {
        Some(ms) => Some(decimal_string(ms)),
        None => None,
    }
}

/// The account call signed now; nothing when the clock reads before the epoch.
pub fn user_info_call(cookie: &Cookie) -> (r: Option<SignedCall>)
    requires
        has_token(*cookie),
    ensures
        r matches Some(c) ==> exists|t: Seq<char>|
            #[trigger] is_time_text(t) && c.url@ == user_info_url(token_value(*cookie), t) && c.body@
                == user_info_body(),
{
    match now_text() {
        Some(t) => Some(user_info_call_at(cookie, t.as_str())),
        None => None,
    }
}

/// The cart call signed now; nothing when the clock reads before the epoch.
pub fn buy_cart_call(cookie: &Cookie) -> (r: Option<SignedCall>)
    requires
        has_token(*cookie),
    ensures
        r matches Some(c) ==> exists|t: Seq<char>|
            #[trigger] is_time_text(t) && c.url@ == buy_cart_url(token_value(*cookie), t) && c.body@
                == Seq::<char>::empty(),
{
    match now_text() {
        Some(t) => Some(buy_cart_call_at(cookie, t.as_str())),
        None => None,
    }
}

/// The checkout call signed now; nothing when the clock reads before the epoch.
pub fn settle_call(cookie: &Cookie, buy_now: &str) -> (r: Option<SignedCall>)
    requires
        has_token(*cookie),
    ensures
        r matches Some(c) ==> exists|t: Seq<char>|
            #[trigger] is_time_text(t) && c.url@ == settle_url(token_value(*cookie), buy_now@, t) && c.body@
                == settle_body(buy_now@),
{
    match now_text() {
        Some(t) => Some(settle_call_at(cookie, buy_now, t.as_str())),
        None => None,
    }
}

/// The order call signed now; nothing when the clock reads before the epoch.
pub fn submit_call(cookie: &Cookie, settle_json: &Json, params_data: &str) -> (r: Option<
    SignedCall,
>)
    requires
        has_token(*cookie),
        submit::has_linkage_and_hierarchy(settle_json@),
    ensures
        r matches Some(c) ==> exists|t: Seq<char>|
            #[trigger] is_time_text(t) && c.url@ == submit_url(
                token_value(*cookie),
                order_data_text(settle_json@, params_data@),
                t,
            ) && c.body@ == submit_body(order_data_text(settle_json@, params_data@)),
{
    match now_text() {
        Some(t) => Some(submit_call_at(cookie, settle_json, params_data, t.as_str())),
        None => None,
    }
}

// ---------------------------------------------------------------------------
// The order's creation time
// ---------------------------------------------------------------------------

/// The address of the shop's order page for `order_id`.
pub open spec fn taobao_order_url(order_id: Seq<char>) -> Seq<char> {
    "https://trade.taobao.com/trade/detail/trade_order_detail.htm?biz_order_id="@ + order_id
}

/// The address of the mall's order page for `order_id`.
pub open spec fn tmall_order_url(order_id: Seq<char>) -> Seq<char> {
    "https://trade.tmall.com/detail/orderDetail.htm?biz_order_id="@ + order_id
        + "&forward_action="@
}

/// The order page of the shop, for `order_id`.
pub fn order_detail_url_taobao(order_id: &str) -> (r: String)
    ensures
        r@ == taobao_order_url(order_id@),
{
    let mut r = String::from_str(
        "https://trade.taobao.com/trade/detail/trade_order_detail.htm?biz_order_id=",
    );
    r.append(order_id);
    r
}

/// The order page of the mall, for `order_id`.
pub fn order_detail_url_tmall(order_id: &str) -> (r: String)
    ensures
        r@ == tmall_order_url(order_id@),
{
    let mut r = String::from_str("https://trade.tmall.com/detail/orderDetail.htm?biz_order_id=");
    r.append(order_id);
    r.append("&forward_action=");
    r
}

/// The order page to read after `failures` failed reads of the creation
/// time: the shop's page first, then the mall's, and none after both failed.
pub open spec fn order_page_after(order_id: Seq<char>, failures: nat) -> Option<Seq<char>> {
    if failures == 0 {
        Some(taobao_order_url(order_id))
    } else if failures == 1 {
        Some(tmall_order_url(order_id))
    } else {
        None
    }
}

/// The next order page to read for the creation time after `failures`
/// failed reads; none when the last read failed too.
pub fn next_order_page(order_id: &str, failures: usize) -> (r: Option<String>)
    ensures
        match r {
            Some(u) => order_page_after(order_id@, failures as nat) == Some(u@),
            None => order_page_after(order_id@, failures as nat) is None,
        },
{
    if failures == 0 {
        Some(order_detail_url_taobao(order_id))
    } else if failures == 1 {
        Some(order_detail_url_tmall(order_id))
    } else {
        None
    }
}

/// The capture group `group` of the leftmost match of a regular expression.
pub uninterp spec fn regex_group(pattern: Seq<char>, haystack: Seq<char>, group: nat) -> Option<
    Seq<char>,
>;

/// Compiles `pattern` with `regex::Regex::new`, calls `Regex::captures` on
/// `haystack` and takes group `group` of that match as text. The contract
/// names the result: nothing when the pattern does not compile, when nothing
/// matches, or when the group took no part in the match.
#[verifier::external_body]
fn regex_capture(pattern: &str, haystack: &str, group: usize) -> (r: Option<String>)
    ensures
        match r {
            Some(s) => regex_group(pattern@, haystack@, group as nat) == Some(s@),
            None => regex_group(pattern@, haystack@, group as nat) is None,
        },
{
    match regex::Regex::new(pattern) {
        Ok(re) => match re.captures(haystack) {
            Some(c) => match c.get(group) {
                Some(m) => Some(m.as_str().to_string()),
                None => None,
            },
            None => None,
        },
        Err(_) => None,
    }
}

/// The pattern of a creation time on an order page: a quote, then
/// `YYYY-MM-DD hh:mm:ss` as group 1.
pub open spec fn order_time_pattern() -> Seq<char> {
    "\"(\\d{4}-\\d{2}-\\d{2} \\d{2}:\\d{2}:\\d{2})"@
}

/// The time found on the last line of `ls` that shows one.
pub open spec fn last_time_in(ls: Seq<Seq<char>>) -> Option<Seq<char>>
    decreases ls.len(),
{
    if ls.len() == 0 {
        None
    } else {
        match regex_group(order_time_pattern(), ls.last(), 1) {
            Some(t) => Some(t),
            None => last_time_in(ls.drop_last()),
        }
    }
}

/// The order's creation time on its page: the time on the last line that
/// shows one.
pub fn order_create_time(body: &str) -> (r: Option<String>)
    ensures
        match r {
            Some(t) => last_time_in(lines(body@)) == Some(t@),
            None => last_time_in(lines(body@)) is None,
        },
{
    let ls = lines_of(body);
    let ghost views = ls@.map_values(|l: String| l@);
    let mut i: usize = ls.len();
    assert(views.take(i as int) =~= views);
    while i > 0
        invariant
            i <= ls@.len(),
            views == ls@.map_values(|l: String| l@),
            views == lines(body@),
            last_time_in(views) == last_time_in(views.take(i as int)),
        decreases i,
    {
        let ghost t = views.take(i as int);
        assert(t.last() == ls@[i - 1]@);
        assert(t.drop_last() =~= views.take(i - 1));
        let found = regex_capture(
            "\"(\\d{4}-\\d{2}-\\d{2} \\d{2}:\\d{2}:\\d{2})",
            ls[i - 1].as_str(),
            1,
        );
        if found.is_some() {
            return found;
        }
        i = i - 1;
    }
    None
}

} // verus!
