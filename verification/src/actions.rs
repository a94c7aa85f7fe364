//! The decisions taken on the trade service's responses: reading `ret`,
//! finding the cart entries of an item, the settlement parameters, the order
//! parameters, and the outcome of a checkout or an order.
use vstd::prelude::*;
use crate::json::{
    Json, JVal, jget, jget2, jget_str, jstr, ju64, lemma_view_entries, lemma_view_items,
    view_entries, view_json, json_text, entries_text, json_quote, quote, write_json,
};
use crate::text::{
    contains, starts_with, join, decimal, str_contains, str_starts_with, join_strings,
    decimal_string,
};

verus! {

broadcast use vstd::std_specs::vec::group_vec_axioms;

// ---------------------------------------------------------------------------
// Reading a response
// ---------------------------------------------------------------------------

/// The first element of the response's `ret` array, when it is a string.
pub open spec fn response_ret(res: JVal) -> Option<Seq<char>> {
    match jget(res, "ret"@) {
        Some(JVal::Arr(a)) => if a.len() > 0 {
            jstr(a[0])
        } else {
            None
        },
        _ => None,
    }
}

/// The marker of a successful call inside `ret`.
pub open spec fn success_marker() -> Seq<char> {
    "SUCCESS"@
}

/// The response's `ret` reports success.
pub open spec fn ret_success(res: JVal) -> bool {
    contains(response_ret(res)->0, success_marker())
}

/// The first string of the `ret` array of a response, when there is one.
pub fn find_response_ret(res_json: &Json) -> (r: Option<&String>)
    ensures
        match r {
            Some(s) => response_ret(res_json@) == Some(s@),
            None => response_ret(res_json@) is None,
        },
{
    let ret = match res_json.get("ret") {
        Some(r) => r,
        None => return None,
    };
    let arr = match ret.as_array() {
        Some(a) => a,
        None => return None,
    };
    proof {
        lemma_view_items(arr@);
    }
    if arr.len() == 0 {
        return None;
    }
    arr[0].as_str()
}

/// The first string of the `ret` array of a response.
pub fn get_response_ret(res_json: &Json) -> (r: &String)
    requires
        response_ret(res_json@) is Some,
    ensures
        response_ret(res_json@) == Some(r@),
{
    let ret = res_json.get("ret");
    let ret = ret.unwrap();
    let arr = ret.as_array().unwrap();
    proof {
        lemma_view_items(arr@);
    }
    let first = &arr[0];
    first.as_str().unwrap()
}

/// Whether `ret` contains `SUCCESS`.
fn ret_contains_success(ret: &String) -> (r: bool)
    ensures
        r == contains(ret@, success_marker()),
{
    str_contains(ret.as_str(), "SUCCESS")
}

// ---------------------------------------------------------------------------
// The cart
// ---------------------------------------------------------------------------

/// The members of `data.data` of a cart response, when it is an object.
pub open spec fn cart_data(cart: JVal) -> Option<Seq<(Seq<char>, JVal)>> {
    match jget2(cart, "data"@, "data"@) {
        Some(JVal::Obj(e)) => Some(e),
        _ => None,
    }
}

/// The members of `data.data` of a cart response.
pub fn get_cart_data(cart_json: &Json) -> (r: &Vec<(String, Json)>)
    requires
        cart_data(cart_json@) is Some,
    ensures
        cart_data(cart_json@) == Some(view_entries(r@)),
{
    let outer = cart_json.get("data").unwrap();
    let inner = outer.get("data").unwrap();
    inner.as_object().unwrap()
}

/// A member name that denotes a cart entry.
pub open spec fn is_item_key(k: Seq<char>) -> bool {
    contains(k, "item_"@)
}

/// `fields.itemId` of a cart entry, when it is a string.
pub open spec fn cart_item_id(item: JVal) -> Option<Seq<char>> {
    match jget(item, "fields"@) {
        Some(f) => jget_str(f, "itemId"@),
        None => None,
    }
}

/// Every cart entry carries its `fields.itemId`.
pub open spec fn items_have_ids(e: Seq<(Seq<char>, JVal)>) -> bool {
    forall|i: int| 0 <= i < e.len() && is_item_key(e[i].0) ==> (cart_item_id(e[i].1) is Some)
}

/// Member `entry` is a cart entry of the item `item_id`.
pub open spec fn item_matches(entry: (Seq<char>, JVal), item_id: Seq<char>) -> bool {
    is_item_key(entry.0) && cart_item_id(entry.1) == Some(item_id)
}

/// Positions, in ascending order, of the first `n` members that are cart
/// entries of the item.
pub open spec fn matching_indices(e: Seq<(Seq<char>, JVal)>, item_id: Seq<char>, n: nat) -> Seq<
    usize,
>
    decreases n,
{
    if n == 0 {
        Seq::empty()
    } else {
        let rest = matching_indices(e, item_id, (n - 1) as nat);
        if item_matches(e[n - 1], item_id) {
            rest.push((n - 1) as usize)
        } else {
            rest
        }
    }
}

proof fn lemma_matching_indices_bounds(e: Seq<(Seq<char>, JVal)>, item_id: Seq<char>, n: nat)
    requires
        n <= e.len(),
        e.len() <= usize::MAX,
    ensures
        forall|k: int|
            0 <= k < matching_indices(e, item_id, n).len() ==> {
                let i = #[trigger] matching_indices(e, item_id, n)[k];
                &&& i < n
                &&& item_matches(e[i as int], item_id)
            },
    decreases n,
{
    if n > 0 {
        lemma_matching_indices_bounds(e, item_id, (n - 1) as nat);
        let rest = matching_indices(e, item_id, (n - 1) as nat);
        let all = matching_indices(e, item_id, n);
        assert forall|k: int| 0 <= k < all.len() implies {
            let i = #[trigger] all[k];
            &&& i < n
            &&& item_matches(e[i as int], item_id)
        } by {
            if k < rest.len() {
                assert(all[k] == rest[k]);
            } else {
                assert(all[k] == (n - 1) as usize);
            }
        }
    }
}

proof fn lemma_matching_indices_complete(e: Seq<(Seq<char>, JVal)>, item_id: Seq<char>, n: nat)
    requires
        n <= e.len(),
        e.len() <= usize::MAX,
    ensures
        forall|i: int|
            0 <= i < n && item_matches(e[i], item_id) ==> exists|q: int|
                0 <= q < matching_indices(e, item_id, n).len() && #[trigger] matching_indices(
                    e,
                    item_id,
                    n,
                )[q] == i,
    decreases n,
{
    if n > 0 {
        lemma_matching_indices_complete(e, item_id, (n - 1) as nat);
        let rest = matching_indices(e, item_id, (n - 1) as nat);
        let all = matching_indices(e, item_id, n);
        assert forall|i: int| 0 <= i < n && item_matches(e[i], item_id) implies exists|q: int|
            0 <= q < all.len() && #[trigger] all[q] == i by {
            if i < n - 1 {
                let q = choose|q: int| 0 <= q < rest.len() && #[trigger] rest[q] == i;
                assert(all[q] == rest[q]);
            } else {
                assert(all[rest.len() as int] == i);
            }
        }
    }
}

proof fn lemma_kept_step(e: Seq<(Seq<char>, JVal)>, i: int)
    requires
        0 <= i < e.len(),
    ensures
        kept_entries(e.take(i + 1)) == if is_kept_key(e[i].0) {
            kept_entries(e.take(i)).push(e[i])
        } else {
            kept_entries(e.take(i))
        },
{
    let t = e.take(i + 1);
    assert(t.drop_last() =~= e.take(i));
    assert(t.last() == e[i]);
}

proof fn lemma_ser_entries_push(s: Seq<(Seq<char>, JVal)>, x: (Seq<char>, JVal))
    ensures
        entries_text(s.push(x)) == (if s.len() > 0 {
            entries_text(s) + seq![',']
        } else {
            Seq::empty()
        }) + json_quote(x.0) + seq![':'] + json_text(x.1),
{
    let t = s.push(x);
    assert(t.drop_last() =~= s);
    assert(t[t.len() - 1] == x);
    if s.len() == 0 {
        assert(entries_text(t) =~= Seq::<char>::empty() + json_quote(x.0) + seq![':'] + json_text(x.1));
    } else {
        assert(entries_text(t) =~= entries_text(s) + seq![','] + json_quote(x.0) + seq![':'] + json_text(x.1));
    }
}

/// Positions of the cart entries (members whose name contains `item_`) whose
/// `fields.itemId` is `item_id`, in the order of the members.
pub fn process_cart_items(cart_data: &Vec<(String, Json)>, item_id: &str) -> (r: Vec<usize>)
    requires
        items_have_ids(view_entries(cart_data@)),
    ensures
        r@ == matching_indices(view_entries(cart_data@), item_id@, cart_data@.len()),
{
    let ghost e = view_entries(cart_data@);
    proof {
        lemma_view_entries(cart_data@);
    }
    let wanted = String::from_str(item_id);
    let mut r: Vec<usize> = Vec::new();
    let mut i: usize = 0;
    while i < cart_data.len()
        invariant
            i <= cart_data@.len(),
            e == view_entries(cart_data@),
            e.len() == cart_data@.len(),
            forall|m: int|
                0 <= m < cart_data@.len() ==> #[trigger] e[m] == (
                    cart_data@[m].0@,
                    view_json(cart_data@[m].1),
                ),
            items_have_ids(e),
            wanted@ == item_id@,
            r@ == matching_indices(e, item_id@, i as nat),
        decreases cart_data@.len() - i,
    {
        let key = &cart_data[i].0;
        if str_contains(key.as_str(), "item_") {
            let item = &cart_data[i].1;
            assert(is_item_key(e[i as int].0));
            let fields = item.get("fields").unwrap();
            let id = fields.get("itemId").unwrap().as_str().unwrap();
            if *id == wanted {
                r.push(i);
            }
        }
        i = i + 1;
    }
    r
}

/// Whether every cart entry in `data.data` carries its `fields.itemId`
/// (what reading the cart's entries needs).
pub fn cart_items_ready(cart_json: &Json) -> (r: bool)
    ensures
        r == (cart_data(cart_json@) is Some && items_have_ids(cart_data(cart_json@)->0)),
{
    let outer = match cart_json.get("data") {
        Some(o) => o,
        None => return false,
    };
    let inner = match outer.get("data") {
        Some(i) => i,
        None => return false,
    };
    let data = match inner.as_object() {
        Some(d) => d,
        None => return false,
    };
    let ghost e = view_entries(data@);
    proof {
        lemma_view_entries(data@);
    }
    let mut i: usize = 0;
    while i < data.len()
        invariant
            i <= data@.len(),
            e == view_entries(data@),
            e.len() == data@.len(),
            cart_data(cart_json@) == Some(e),
            forall|m: int|
                0 <= m < data@.len() ==> #[trigger] e[m] == (data@[m].0@, view_json(data@[m].1)),
            forall|k: int| 0 <= k < i && is_item_key(e[k].0) ==> (cart_item_id(e[k].1) is Some),
        decreases data@.len() - i,
    {
        if str_contains(data[i].0.as_str(), "item_") {
            let id = match data[i].1.get("fields") {
                Some(f) => match f.get("itemId") {
                    Some(x) => x.as_str(),
                    None => None,
                },
                None => None,
            };
            if id.is_none() {
                assert(is_item_key(e[i as int].0));
                assert(cart_item_id(e[i as int].1) is None);
                return false;
            }
        }
        i = i + 1;
    }
    true
}

/// The cart is checked: `ret` reports success and the cart holds the item.
/// On success the positions of the item's entries in `data.data` come back;
/// otherwise the message with which the check stops.
pub fn check_cart(cart_json: &Json, item_id: &str) -> (r: Result<Vec<usize>, String>)
    requires
        response_ret(cart_json@) is Some,
        ret_success(cart_json@) ==> cart_data(cart_json@) is Some && items_have_ids(
            cart_data(cart_json@)->0,
        ),
    ensures
        !ret_success(cart_json@) ==> (r matches Err(m) && m@ == "购物车调用失败: "@ + response_ret(
            cart_json@,
        )->0),
        ret_success(cart_json@) ==> {
            let idx = matching_indices(
                cart_data(cart_json@)->0,
                item_id@,
                cart_data(cart_json@)->0.len(),
            );
            &&& idx.len() == 0 ==> (r matches Err(m) && m@ == "购物车未就绪, 先添加商品到购物车"@)
            &&& idx.len() > 0 ==> (r matches Ok(v) && v@ == idx)
        },
{
    let ret = get_response_ret(cart_json);
    if !ret_contains_success(ret) {
        let mut m = String::from_str("购物车调用失败: ");
        m.append(ret.as_str());
        return Err(m);
    }
    let data = get_cart_data(cart_json);
    proof {
        lemma_view_entries(data@);
    }
    let idx = process_cart_items(data, item_id);
    if idx.len() == 0 {
        Err(String::from_str("购物车未就绪, 先添加商品到购物车"))
    } else {
        Ok(idx)
    }
}

/// The parts of a cart entry that are shown: the item's title, the title of
/// the chosen variant, and the quantity.
#[derive(Debug)]
pub struct SkuInfo {
    pub title: String,
    pub sku_title: String,
    pub quantity: u64,
}

/// `fields.title`, `fields.sku.title` and `fields.quantity` of a cart entry.
pub open spec fn sku_fields(item: JVal) -> Option<(Seq<char>, Seq<char>, u64)> {
    match jget(item, "fields"@) {
        Some(f) => match (jget_str(f, "title"@), jget(f, "sku"@), jget(f, "quantity"@)) {
            (Some(t), Some(sku), Some(q)) => match (jget_str(sku, "title"@), ju64(q)) {
                (Some(st), Some(n)) => Some((t, st, n)),
                _ => None,
            },
            _ => None,
        },
        None => None,
    }
}

/// The title, variant title and quantity of a cart entry; nothing where one
/// of them is missing or of another type.
pub fn sku_info(item: &Json) -> (r: Option<SkuInfo>)
    ensures
        match r {
            Some(s) => sku_fields(item@) == Some((s.title@, s.sku_title@, s.quantity)),
            None => sku_fields(item@) is None,
        },
{
    let fields = match item.get("fields") {
        Some(f) => f,
        None => return None,
    };
    let title = match fields.get("title") {
        Some(t) => t,
        None => return None,
    };
    let title = match title.as_str() {
        Some(t) => t,
        None => return None,
    };
    let sku = match fields.get("sku") {
        Some(s) => s,
        None => return None,
    };
    let quantity = match fields.get("quantity") {
        Some(q) => q,
        None => return None,
    };
    let sku_title = match sku.get("title") {
        Some(t) => t,
        None => return None,
    };
    let sku_title = match sku_title.as_str() {
        Some(t) => t,
        None => return None,
    };
    let quantity = match quantity.as_u64() {
        Some(q) => q,
        None => return None,
    };
    Some(SkuInfo { title: title.clone(), sku_title: sku_title.clone(), quantity })
}

/// The separator line printed above an item's title.
pub open spec fn rule_line() -> Seq<char> {
    "----------------------------"@
}

/// The text printed for a cart entry: with `show_title`, a separator line and
/// the item's title followed by an empty line; then `<variant> x<quantity>`.
pub open spec fn sku_text(s: (Seq<char>, Seq<char>, u64), show_title: bool) -> Seq<char> {
    (if show_title {
        rule_line() + "\n"@ + s.0 + "\n\n"@
    } else {
        Seq::empty()
    }) + s.1 + " x"@ + decimal(s.2 as nat) + "\n"@
}

/// The text that shows a cart entry.
pub fn sku_info_text(sku: &SkuInfo, show_title: bool) -> (r: String)
    ensures
        r@ == sku_text((sku.title@, sku.sku_title@, sku.quantity), show_title),
{
    let mut r = String::new();
    if show_title {
        r.append("----------------------------");
        r.append("\n");
        r.append(sku.title.as_str());
        r.append("\n\n");
    }
    r.append(sku.sku_title.as_str());
    r.append(" x");
    let q = decimal_string(sku.quantity as u128);
    r.append(q.as_str());
    r.append("\n");
    r
}

// ---------------------------------------------------------------------------
// Settlement
// ---------------------------------------------------------------------------

/// `fields.settlement` of a cart entry, when it is a string.
pub open spec fn settlement_of(item: JVal) -> Option<Seq<char>> {
    match jget(item, "fields"@) {
        Some(f) => jget_str(f, "settlement"@),
        None => None,
    }
}

/// The settlement strings of the entries at `idx`.
pub open spec fn settlements(e: Seq<(Seq<char>, JVal)>, idx: Seq<usize>) -> Seq<Seq<char>> {
    idx.map_values(|i: usize| settlement_of(e[i as int].1)->0)
}

/// What a settlement request needs from the cart: the entries, their ids,
/// and a settlement string on each entry of the item.
pub open spec fn settlement_ready(cart: JVal, item_id: Seq<char>) -> bool {
    &&& cart_data(cart) is Some
    &&& items_have_ids(cart_data(cart)->0)
    &&& forall|i: int|
        0 <= i < cart_data(cart)->0.len() && item_matches(cart_data(cart)->0[i], item_id) ==> (
        settlement_of(cart_data(cart)->0[i].1) is Some)
}

/// The `buyNow` document of a settlement request for the item's entries.
pub open spec fn settlement_params(cart: JVal, item_id: Seq<char>) -> Seq<char> {
    let e = cart_data(cart)->0;
    "{\"buyNow\":false,\"buyParam\":\""@ + join(
        settlements(e, matching_indices(e, item_id, e.len())),
        ","@,
    ) + "\",\"spm\":\"a21202.12579950.settlement-bar.0\"}"@
}

/// Whether the cart has what a settlement request for the item needs.
pub fn settlement_ready_check(cart_json: &Json, item_id: &str) -> (r: bool)
    ensures
        r == settlement_ready(cart_json@, item_id@),
{
    if !cart_items_ready(cart_json) {
        return false;
    }
    let data = get_cart_data(cart_json);
    let n = data.len();
    let ghost e = view_entries(data@);
    proof {
        lemma_view_entries(data@);
        lemma_matching_indices_bounds(e, item_id@, e.len());
    }
    let idx = process_cart_items(data, item_id);
    let mut k: usize = 0;
    while k < idx.len()
        invariant
            k <= idx@.len(),
            e == view_entries(data@),
            e.len() == data@.len(),
            n == data@.len(),
            cart_data(cart_json@) == Some(e),
            forall|m: int|
                0 <= m < data@.len() ==> #[trigger] e[m] == (data@[m].0@, view_json(data@[m].1)),
            idx@ == matching_indices(e, item_id@, e.len()),
            forall|q: int|
                0 <= q < idx@.len() ==> {
                    let i = #[trigger] idx@[q];
                    &&& i < e.len()
                    &&& item_matches(e[i as int], item_id@)
                },
            forall|q: int| 0 <= q < k ==> (settlement_of(e[idx@[q] as int].1) is Some),
        decreases idx@.len() - k,
    {
        let i = idx[k];
        let found = match data[i].1.get("fields") {
            Some(f) => match f.get("settlement") {
                Some(x) => x.as_str(),
                None => None,
            },
            None => None,
        };
        if found.is_none() {
            assert(settlement_of(e[i as int].1) is None);
            return false;
        }
        k = k + 1;
    }
    proof {
        assert(e.len() == n);
        lemma_matching_indices_complete(e, item_id@, e.len());
    }
    true
}

/// The settlement parameters for the item: its entries' settlement strings
/// joined with commas, in a `buyNow` document.
pub fn parse_settlement_params(cart_json: &Json, item_id: &str) -> (r: String)
    requires
        settlement_ready(cart_json@, item_id@),
    ensures
        r@ == settlement_params(cart_json@, item_id@),
{
    let data = get_cart_data(cart_json);
    let n = data.len();
    let ghost e = view_entries(data@);
    proof {
        lemma_view_entries(data@);
        lemma_matching_indices_bounds(e, item_id@, e.len());
    }
    let idx = process_cart_items(data, item_id);
    let ghost expected = settlements(e, idx@);
    let mut parts: Vec<String> = Vec::new();
    let mut k: usize = 0;
    while k < idx.len()
        invariant
            k <= idx@.len(),
            e == view_entries(data@),
            e.len() == data@.len(),
            forall|m: int|
                0 <= m < data@.len() ==> #[trigger] e[m] == (data@[m].0@, view_json(data@[m].1)),
            idx@ == matching_indices(e, item_id@, e.len()),
            forall|q: int|
                0 <= q < idx@.len() ==> {
                    let i = #[trigger] idx@[q];
                    &&& i < e.len()
                    &&& item_matches(e[i as int], item_id@)
                },
            forall|i: int|
                0 <= i < e.len() && item_matches(e[i], item_id@) ==> (settlement_of(e[i].1) is Some),
            expected == settlements(e, idx@),
            parts@.map_values(|p: String| p@) == expected.take(k as int),
        decreases idx@.len() - k,
    {
        let i = idx[k];
        let item = &data[i].1;
        assert(item_matches(e[i as int], item_id@));
        let fields = item.get("fields").unwrap();
        let s = fields.get("settlement").unwrap().as_str().unwrap();
        assert(settlement_of(e[i as int].1) == Some(s@));
        assert(expected[k as int] == s@);
        let ghost before = parts@;
        parts.push(s.clone());
        assert(expected.take(k + 1) =~= expected.take(k as int).push(s@));
        assert(parts@.map_values(|p: String| p@) =~= expected.take(k + 1));
        k = k + 1;
    }
    assert(expected.take(idx@.len() as int) =~= expected);
    let joined = join_strings(&parts, ",");
    let mut r = String::from_str("{\"buyNow\":false,\"buyParam\":\"");
    r.append(joined.as_str());
    r.append("\",\"spm\":\"a21202.12579950.settlement-bar.0\"}");
    r
}

/// The outcome of a settlement call: the response when its `ret` reports
/// success, otherwise the message with which settlement stops.
pub fn check_settle_result(settle_result: Result<Json, String>) -> (r: Result<Json, String>)
    requires
        settle_result matches Ok(j) ==> response_ret(j@) is Some,
    ensures
        match settle_result {
            Err(e) => r == Err::<Json, String>(e),
            Ok(j) => if ret_success(j@) {
                r == Ok::<Json, String>(j)
            } else {
                r matches Err(m) && m@ == "结算调用失败: "@ + response_ret(j@)->0
            },
        },
{
    match settle_result {
        Err(e) => Err(e),
        Ok(j) => {
            let ok = {
                let ret = get_response_ret(&j);
                if ret_contains_success(ret) {
                    None
                } else {
                    let mut m = String::from_str("结算调用失败: ");
                    m.append(ret.as_str());
                    Some(m)
                }
            };
            match ok {
                None => Ok(j),
                Some(m) => Err(m),
            }
        },
    }
}

// ---------------------------------------------------------------------------
// Order parameters
// ---------------------------------------------------------------------------

/// The member names copied into an order as they are.
pub open spec fn is_hit_key(k: Seq<char>) -> bool {
    ||| k == "anonymous_1"@
    ||| k == "address_1"@
    ||| k == "voucher_1"@
    ||| k == "confirmOrder_1"@
    ||| k == "ncCheckCode_ncCheckCode1"@
    ||| k == "submitOrder_1"@
}

/// The name prefixes of the members copied into an order.
pub open spec fn has_kept_prefix(k: Seq<char>) -> bool {
    ||| starts_with(k, "item_"@)
    ||| starts_with(k, "itemInfo_"@)
    ||| starts_with(k, "service_yfx_"@)
    ||| starts_with(k, "invoice_"@)
    ||| starts_with(k, "promotion_"@)
    ||| starts_with(k, "deliveryDate_"@)
}

/// A member of the settlement's `data.data` that goes into the order.
pub open spec fn is_kept_key(k: Seq<char>) -> bool {
    is_hit_key(k) || has_kept_prefix(k)
}

/// The members that go into the order, in their order.
pub open spec fn kept_entries(e: Seq<(Seq<char>, JVal)>) -> Seq<(Seq<char>, JVal)>
    decreases e.len(),
{
    if e.len() == 0 {
        Seq::empty()
    } else {
        let rest = kept_entries(e.drop_last());
        if is_kept_key(e.last().0) {
            rest.push(e.last())
        } else {
            rest
        }
    }
}

/// The order's `data` document: the kept members of the settlement's
/// `data.data` as a JSON object, or `{}` when `data.data` is no object.
pub open spec fn params_data(settle: JVal) -> Seq<char> {
    match jget2(settle, "data"@, "data"@) {
        Some(JVal::Obj(e)) => json_text(JVal::Obj(kept_entries(e))),
        _ => json_text(JVal::Obj(Seq::empty())),
    }
}

/// The members that go into the order, as an object; no member when
/// `data.data` is no object.
pub open spec fn kept_object(settle: JVal) -> JVal {
    match jget2(settle, "data"@, "data"@) {
        Some(JVal::Obj(e)) => JVal::Obj(kept_entries(e)),
        _ => JVal::Obj(Seq::empty()),
    }
}

/// A settlement whose `data.data` is `inner`.
pub open spec fn settlement_with(inner: JVal) -> JVal {
    JVal::Obj(seq![("data"@, JVal::Obj(seq![("data"@, inner)]))])
}

/// Only kept members are left after keeping the kept members.
proof fn lemma_kept_entries_all_kept(e: Seq<(Seq<char>, JVal)>)
    ensures
        forall|i: int|
            0 <= i < kept_entries(e).len() ==> is_kept_key(#[trigger] kept_entries(e)[i].0),
    decreases e.len(),
{
    if e.len() > 0 {
        lemma_kept_entries_all_kept(e.drop_last());
        let rest = kept_entries(e.drop_last());
        assert forall|i: int| 0 <= i < kept_entries(e).len() implies is_kept_key(
            #[trigger] kept_entries(e)[i].0,
        ) by {
            if i < rest.len() {
                assert(kept_entries(e)[i] == rest[i]);
            }
        }
    }
}

/// Keeping the kept members of a list of kept members changes nothing.
proof fn lemma_kept_entries_of_kept(e: Seq<(Seq<char>, JVal)>)
    requires
        forall|i: int| 0 <= i < e.len() ==> is_kept_key(#[trigger] e[i].0),
    ensures
        kept_entries(e) == e,
    decreases e.len(),
{
    if e.len() > 0 {
        lemma_kept_entries_of_kept(e.drop_last());
        assert(e.drop_last().push(e.last()) =~= e);
    }
}

/// Filtering the order's members twice gives what filtering once gave: a
/// settlement whose `data.data` holds just the members kept from `settle`
/// yields the same order document as `settle`.
pub proof fn lemma_params_data_idempotent(settle: JVal)
    ensures
        kept_object(settlement_with(kept_object(settle))) == kept_object(settle),
        params_data(settlement_with(kept_object(settle))) == params_data(settle),
{
    let again = settlement_with(kept_object(settle));
    reveal_with_fuel(crate::json::lookup, 2);
    assert(jget2(again, "data"@, "data"@) == Some(kept_object(settle)));
    match jget2(settle, "data"@, "data"@) {
        Some(JVal::Obj(e)) => {
            lemma_kept_entries_all_kept(e);
            lemma_kept_entries_of_kept(kept_entries(e));
        },
        _ => {
            assert(kept_entries(Seq::<(Seq<char>, JVal)>::empty()) == Seq::<(Seq<char>, JVal)>::empty());
        },
    }
}

/// A member is among the entries kept when it is kept by name.
proof fn lemma_kept_entries_contains(e: Seq<(Seq<char>, JVal)>, i: int)
    requires
        0 <= i < e.len(),
        is_kept_key(e[i].0),
    ensures
        kept_entries(e).contains(e[i]),
    decreases e.len(),
{
    if i == e.len() - 1 {
        assert(kept_entries(e).last() == e[i]);
    } else {
        lemma_kept_entries_contains(e.drop_last(), i);
        assert(e.drop_last()[i] == e[i]);
        let k = choose|j: int|
            0 <= j < kept_entries(e.drop_last()).len() && kept_entries(e.drop_last())[j] == e[i];
        if is_kept_key(e.last().0) {
            assert(kept_entries(e)[k] == e[i]);
        }
    }
}

/// The entries kept come from the entries given.
proof fn lemma_kept_entries_from(e: Seq<(Seq<char>, JVal)>, x: (Seq<char>, JVal))
    requires
        kept_entries(e).contains(x),
    ensures
        e.contains(x),
        is_kept_key(x.0),
    decreases e.len(),
{
    lemma_kept_entries_all_kept(e);
    let k = choose|j: int| 0 <= j < kept_entries(e).len() && kept_entries(e)[j] == x;
    assert(is_kept_key(kept_entries(e)[k].0));
    if e.len() > 0 {
        let rest = kept_entries(e.drop_last());
        if k < rest.len() {
            assert(rest[k] == x);
            lemma_kept_entries_from(e.drop_last(), x);
            let m = choose|j: int| 0 <= j < e.drop_last().len() && e.drop_last()[j] == x;
            assert(e[m] == x);
        } else {
            assert(e[e.len() - 1] == x);
        }
    }
}

/// The order's data document takes, with its value, every member of the
/// settlement's `data.data` named `anonymous_1`, `address_1`, `voucher_1`,
/// `confirmOrder_1`, `ncCheckCode_ncCheckCode1` or `submitOrder_1`, or whose
/// name begins with `item_`, `itemInfo_`, `service_yfx_`, `invoice_`,
/// `promotion_` or `deliveryDate_`; every member it holds is such a member of
/// `data.data`.
pub proof fn lemma_order_document_members(settle: JVal, k: Seq<char>, v: JVal)
    ensures
        params_data(settle) == json_text(kept_object(settle)),
        kept_object(settle) is Obj,
        ({
            let listed = {
                ||| k == "anonymous_1"@
                ||| k == "address_1"@
                ||| k == "voucher_1"@
                ||| k == "confirmOrder_1"@
                ||| k == "ncCheckCode_ncCheckCode1"@
                ||| k == "submitOrder_1"@
                ||| starts_with(k, "item_"@)
                ||| starts_with(k, "itemInfo_"@)
                ||| starts_with(k, "service_yfx_"@)
                ||| starts_with(k, "invoice_"@)
                ||| starts_with(k, "promotion_"@)
                ||| starts_with(k, "deliveryDate_"@)
            };
            let given = jget2(settle, "data"@, "data"@) matches Some(JVal::Obj(e)) && e.contains(
                (k, v),
            );
            &&& given && listed ==> kept_object(settle)->Obj_0.contains((k, v))
            &&& kept_object(settle)->Obj_0.contains((k, v)) ==> given && listed
        }),
{
    match jget2(settle, "data"@, "data"@) {
        Some(JVal::Obj(e)) => {
            if e.contains((k, v)) && is_kept_key(k) {
                let i = choose|j: int| 0 <= j < e.len() && e[j] == (k, v);
                lemma_kept_entries_contains(e, i);
            }
            if kept_entries(e).contains((k, v)) {
                lemma_kept_entries_from(e, (k, v));
            }
        },
        _ => {},
    }
}

fn is_hit_key_exec(k: &String) -> (r: bool)
    ensures
        r == is_hit_key(k@),
{
    *k == String::from_str("anonymous_1") || *k == String::from_str("address_1") || *k
        == String::from_str("voucher_1") || *k == String::from_str("confirmOrder_1") || *k
        == String::from_str("ncCheckCode_ncCheckCode1") || *k == String::from_str(
        "submitOrder_1",
    )
}

fn has_kept_prefix_exec(k: &String) -> (r: bool)
    ensures
        r == has_kept_prefix(k@),
{
    str_starts_with(k.as_str(), "item_") || str_starts_with(k.as_str(), "itemInfo_")
        || str_starts_with(k.as_str(), "service_yfx_") || str_starts_with(k.as_str(), "invoice_")
        || str_starts_with(k.as_str(), "promotion_") || str_starts_with(
        k.as_str(),
        "deliveryDate_",
    )
}

/// The order's `data` document, taken from the settlement response: the
/// members of `data.data` named `anonymous_1`, `address_1`, `voucher_1`,
/// `confirmOrder_1`, `ncCheckCode_ncCheckCode1` or `submitOrder_1`, or whose
/// name begins with `item_`, `itemInfo_`, `service_yfx_`, `invoice_`,
/// `promotion_` or `deliveryDate_`, written as a compact JSON object.
pub fn parse_params_data(settle_json: &Json) -> (r: String)
    requires
        jget2(settle_json@, "data"@, "data"@) is Some,
    ensures
        r@ == params_data(settle_json@),
{
    let outer = settle_json.get("data").unwrap();
    let inner = outer.get("data").unwrap();
    let mut out = String::from_str("{");
    proof {
        reveal_strlit("{");
        reveal_strlit("}");
        reveal_strlit(",");
        reveal_strlit(":");
        assert("{"@ =~= seq!['{']);
        assert("}"@ =~= seq!['}']);
        assert(","@ =~= seq![',']);
        assert(":"@ =~= seq![':']);
    }
    match inner.as_object() {
        Some(v) => {
            let ghost e = view_entries(v@);
            proof {
                lemma_view_entries(v@);
            }
            let mut wrote_any = false;
            let mut i: usize = 0;
            while i < v.len()
                invariant
                    i <= v@.len(),
                    e == view_entries(v@),
                    e.len() == v@.len(),
                    forall|m: int|
                        0 <= m < v@.len() ==> #[trigger] e[m] == (v@[m].0@, view_json(v@[m].1)),
                    out@ == seq!['{'] + entries_text(kept_entries(e.take(i as int))),
                    wrote_any == (kept_entries(e.take(i as int)).len() > 0),
                    ","@ == seq![','],
                    ":"@ == seq![':'],
                decreases v@.len() - i,
            {
                let ghost prev = kept_entries(e.take(i as int));
                proof {
                    lemma_kept_step(e, i as int);
                }
                let key = &v[i].0;
                if is_hit_key_exec(key) || has_kept_prefix_exec(key) {
                    if wrote_any {
                        out.append(",");
                    }
                    let q = quote(key.as_str());
                    out.append(q.as_str());
                    out.append(":");
                    write_json(&v[i].1, &mut out);
                    wrote_any = true;
                    proof {
                        lemma_ser_entries_push(prev, e[i as int]);
                        assert(out@ =~= seq!['{'] + entries_text(prev.push(e[i as int])));
                    }
                }
                i = i + 1;
            }
            proof {
                assert(e.take(v@.len() as int) =~= e);
            }
        },
        None => {
        },
    }
    out.append("}");
    proof {
        assert(entries_text(Seq::<(Seq<char>, JVal)>::empty()) =~= Seq::<char>::empty());
    }
    assert(out@ =~= params_data(settle_json@));
    out
}

// ---------------------------------------------------------------------------
// Placing the order
// ---------------------------------------------------------------------------

/// `data.bizOrderId` of an order response, when it is a string.
pub open spec fn order_id_of(res: JVal) -> Option<Seq<char>> {
    match jget(res, "data"@) {
        Some(d) => jget_str(d, "bizOrderId"@),
        None => None,
    }
}

/// What reading an order response needs: a `ret`, and the order id when it
/// reports success.
pub open spec fn submit_response_ready(res: JVal) -> bool {
    response_ret(res) is Some && (ret_success(res) ==> order_id_of(res) is Some)
}

/// Whether an order response has what reading it needs.
pub fn submit_response_ready_check(res: &Json) -> (r: bool)
    ensures
        r == submit_response_ready(res@),
{
    let ret = match find_response_ret(res) {
        Some(t) => t,
        None => return false,
    };
    if !ret_contains_success(ret) {
        return true;
    }
    match res.get("data") {
        Some(d) => match d.get("bizOrderId") {
            Some(x) => x.as_str().is_some(),
            None => false,
        },
        None => false,
    }
}

/// The outcome of one order call: the order id and the response when `ret`
/// reports success; otherwise the message of the failure.
pub fn check_submit_result(submit_result: Result<Json, String>) -> (r: Result<(String, Json), String>)
    requires
        submit_result matches Ok(j) ==> submit_response_ready(j@),
    ensures
        match submit_result {
            Err(e) => r == Err::<(String, Json), String>(e),
            Ok(j) => if ret_success(j@) {
                r matches Ok(p) && p.1 == j && order_id_of(j@) == Some(p.0@)
            } else {
                r matches Err(m) && m@ == "提单调用失败: "@ + response_ret(j@)->0
            },
        },
{
    match submit_result {
        Err(e) => Err(e),
        Ok(j) => {
            let outcome = {
                let ret = get_response_ret(&j);
                if !ret_contains_success(ret) {
                    let mut m = String::from_str("提单调用失败: ");
                    m.append(ret.as_str());
                    Err(m)
                } else {
                    let d = j.get("data").unwrap();
                    let id = d.get("bizOrderId").unwrap().as_str().unwrap();
                    Ok(id.clone())
                }
            };
            match outcome {
                Ok(id) => Ok((id, j)),
                Err(m) => Err(m),
            }
        },
    }
}

/// What the order flow does next.
#[derive(Debug)]
pub enum SubmitStep {
    /// An order was placed: stop.
    Ordered,
    /// Wait for the next of the concurrent calls to report.
    AwaitConcurrent,
    /// Make one more call and wait for its outcome.
    SendOne,
    /// Every call failed: give up.
    GiveUp,
}

/// The number of calls made one after another once the concurrent ones failed.
pub open spec fn sequential_limit() -> u32 {
    10
}

/// Progress of the order flow. First `concurrent` calls go out together (one
/// in a test run, three otherwise); if they all fail, up to ten more follow,
/// each after the outcome of the one before.
#[derive(Debug)]
pub struct SubmitPlan {
    /// Calls made together at the start.
    pub concurrent: u32,
    /// Outcomes of those calls received so far.
    pub received: u32,
    /// Calls made one after another so far.
    pub sequential: u32,
    /// An order was placed or the flow gave up.
    pub finished: bool,
}

/// The plan and the step after one outcome (whether it placed an order).
pub open spec fn next_state(p: SubmitPlan, ordered: bool) -> (SubmitPlan, SubmitStep) {
    if ordered {
        (SubmitPlan { finished: true, ..p }, SubmitStep::Ordered)
    } else if p.received < p.concurrent {
        if p.received + 1 < p.concurrent {
            (SubmitPlan { received: (p.received + 1) as u32, ..p }, SubmitStep::AwaitConcurrent)
        } else {
            (SubmitPlan { received: (p.received + 1) as u32, sequential: 1, ..p }, SubmitStep::SendOne)
        }
    } else if p.sequential < sequential_limit() {
        (SubmitPlan { sequential: (p.sequential + 1) as u32, ..p }, SubmitStep::SendOne)
    } else {
        (SubmitPlan { finished: true, ..p }, SubmitStep::GiveUp)
    }
}

/// The plan after `n` failed calls in a row.
pub open spec fn fail_times(p: SubmitPlan, n: nat) -> SubmitPlan
    decreases n,
{
    if n == 0 {
        p
    } else {
        next_state(fail_times(p, (n - 1) as nat), false).0
    }
}

/// A fresh plan.
pub open spec fn fresh_plan(is_test: bool) -> SubmitPlan {
    SubmitPlan { concurrent: if is_test { 1 } else { 3 }, received: 0, sequential: 0, finished: false }
}

impl SubmitPlan {
    /// The plan's counters are consistent: the one-by-one calls start only
    /// once every concurrent call has reported, and never exceed ten.
    pub open spec fn wf(self) -> bool {
        &&& 1 <= self.concurrent <= 3
        &&& self.received <= self.concurrent
        &&& self.sequential <= sequential_limit()
        &&& (self.sequential > 0 <==> self.received == self.concurrent)
    }

    /// Calls started so far.
    pub open spec fn calls_started(self) -> int {
        self.concurrent + self.sequential
    }

    /// A fresh plan: one call in a test run, three otherwise.
    pub fn new(is_test: bool) -> (p: SubmitPlan)
        ensures
            p.wf(),
            p.concurrent == (if is_test {
                1u32
            } else {
                3u32
            }),
            p.received == 0,
            p.sequential == 0,
            !p.finished,
    {
        SubmitPlan { concurrent: if is_test {
            1
        } else {
            3
        }, received: 0, sequential: 0, finished: false }
    }

    /// Whether the next outcome to read comes from a concurrent call.
    pub fn in_concurrent_phase(&self) -> (r: bool)
        ensures
            r == (self.received < self.concurrent),
    {
        self.received < self.concurrent
    }

    /// Takes in the outcome of one call (whether it placed an order) and
    /// says what to do next.
    pub fn on_outcome(&mut self, ordered: bool) -> (step: SubmitStep)
        requires
            old(self).wf(),
            !old(self).finished,
        ensures
            final(self).wf(),
            (*final(self), step) == next_state(*old(self), ordered),
            ordered ==> step is Ordered && final(self).finished,
            !ordered ==> !(step is Ordered),
    {
        if ordered {
            self.finished = true;
            return SubmitStep::Ordered;
        }
        if self.received < self.concurrent {
            self.received = self.received + 1;
            if self.received < self.concurrent {
                SubmitStep::AwaitConcurrent
            } else {
                self.sequential = 1;
                SubmitStep::SendOne
            }
        } else if self.sequential < 10 {
            self.sequential = self.sequential + 1;
            SubmitStep::SendOne
        } else {
            self.finished = true;
            SubmitStep::GiveUp
        }
    }
}

/// The order flow of the strategy: while calls fail, it waits for each of the
/// concurrent calls (one in a test run, three otherwise), then makes ten calls
/// one after another, and gives up exactly when the last of them fails;
/// it never starts more than the concurrent calls and ten more.
pub proof fn lemma_failed_calls(is_test: bool, n: nat)
    requires
        n < fresh_plan(is_test).concurrent + sequential_limit(),
    ensures
        ({
            let c = fresh_plan(is_test).concurrent;
            let p = fail_times(fresh_plan(is_test), n);
            &&& p.wf()
            &&& !p.finished
            &&& p.calls_started() <= c + sequential_limit()
            &&& n < c ==> p.received == n && p.sequential == 0
            &&& n >= c ==> p.received == c && p.sequential == n - c + 1
            &&& n < c - 1 ==> next_state(p, false).1 is AwaitConcurrent
            &&& c - 1 <= n < c + sequential_limit() - 1 ==> next_state(p, false).1 is SendOne
            &&& n == c + sequential_limit() - 1 ==> next_state(p, false).1 is GiveUp
        }),
    decreases n,
{
    if n > 0 {
        lemma_failed_calls(is_test, (n - 1) as nat);
    }
}

/// An order placed stops the flow at once, whatever the phase and the
/// counters: the step is `Ordered` and the plan is finished, with the
/// counters left as they were. A failed call never reads as an order.
pub proof fn lemma_order_stops_flow(p: SubmitPlan)
    requires
        p.wf(),
        !p.finished,
    ensures
        next_state(p, true).1 is Ordered,
        next_state(p, true).0.finished,
        next_state(p, true).0.received == p.received,
        next_state(p, true).0.sequential == p.sequential,
        next_state(p, true).0.concurrent == p.concurrent,
        !(next_state(p, false).1 is Ordered),
{
}

// ---------------------------------------------------------------------------
// The account
// ---------------------------------------------------------------------------

/// The accounts the tool serves.
pub open spec fn is_authorized_name(n: Seq<char>) -> bool {
    ||| n == "nuannuan44777"@
    ||| n == "lhy5246"@
    ||| n == "枝寄禾_雾"@
    ||| n == "繁花映星宇"@
    ||| n == "tb485515046"@
    ||| n == "tb861675844"@
    ||| n == "神淼o0"@
    ||| n == "tb325084889061"@
    ||| n == "魅影邪君丨"@
}

fn is_authorized_name_exec(n: &String) -> (r: bool)
    ensures
        r == is_authorized_name(n@),
{
    *n == String::from_str("nuannuan44777") || *n == String::from_str("lhy5246") || *n
        == String::from_str("枝寄禾_雾") || *n == String::from_str("繁花映星宇") || *n
        == String::from_str("tb485515046") || *n == String::from_str("tb861675844") || *n
        == String::from_str("神淼o0") || *n == String::from_str("tb325084889061") || *n
        == String::from_str("魅影邪君丨")
}

/// `data.nick` and `data.displayNick` of a user response, when both are strings.
pub open spec fn user_nicks(user: JVal) -> Option<(Seq<char>, Seq<char>)> {
    match jget(user, "data"@) {
        Some(d) => match (jget_str(d, "nick"@), jget_str(d, "displayNick"@)) {
            (Some(n), Some(dn)) => Some((n, dn)),
            _ => None,
        },
        None => None,
    }
}

/// Whether a user response carries `data.nick` and `data.displayNick` as strings.
pub fn user_nicks_present(user: &Json) -> (r: bool)
    ensures
        r == (user_nicks(user@) is Some),
{
    match user.get("data") {
        Some(d) => {
            let n = match d.get("nick") {
                Some(x) => x.as_str().is_some(),
                None => false,
            };
            let dn = match d.get("displayNick") {
                Some(x) => x.as_str().is_some(),
                None => false,
            };
            n && dn
        },
        None => false,
    }
}

/// The account is one the tool serves when its nick or its display nick is
/// on the list. On success the nick comes back; otherwise the refusal.
pub fn check_user_permission(user: &Json) -> (r: Result<String, String>)
    requires
        user_nicks(user@) is Some,
    ensures
        ({
            let (nick, display) = user_nicks(user@)->0;
            if is_authorized_name(nick) || is_authorized_name(display) {
                r matches Ok(n) && n@ == nick
            } else {
                r matches Err(m) && m@ == "未授权taobao账号<"@ + nick + ">"@
            }
        }),
{
    let d = user.get("data").unwrap();
    let nick = d.get("nick").unwrap().as_str().unwrap();
    let display = d.get("displayNick").unwrap().as_str().unwrap();
    if is_authorized_name_exec(nick) || is_authorized_name_exec(display) {
        Ok(nick.clone())
    } else {
        let mut m = String::from_str("未授权taobao账号<");
        m.append(nick.as_str());
        m.append(">");
        Err(m)
    }
}

/// An account whose nick or display nick is one of the names the tool
/// serves (nuannuan44777, lhy5246, 枝寄禾_雾, 繁花映星宇, tb485515046,
/// tb861675844, 神淼o0, tb325084889061, 魅影邪君丨) is accepted, and the check
/// hands back its nick.
pub proof fn lemma_listed_accounts_served(user: JVal, name: Seq<char>)
    requires
        user_nicks(user) is Some,
        ({
            let (nick, display) = user_nicks(user)->0;
            nick == name || display == name
        }),
        ({
            ||| name == "nuannuan44777"@
            ||| name == "lhy5246"@
            ||| name == "枝寄禾_雾"@
            ||| name == "繁花映星宇"@
            ||| name == "tb485515046"@
            ||| name == "tb861675844"@
            ||| name == "神淼o0"@
            ||| name == "tb325084889061"@
            ||| name == "魅影邪君丨"@
        }),
    ensures
        ({
            let (nick, display) = user_nicks(user)->0;
            is_authorized_name(nick) || is_authorized_name(display)
        }),
{
}

} // verus!
