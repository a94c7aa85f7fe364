//! The order call: URL parameters, urlencoded body and the JSON documents inside it.
use vstd::prelude::*;
use crate::json::{Json, JVal, jget, jget2, lemma_view_entries, view_entries, json_text, to_json_string};
use crate::urlencode::{UrlParams, encode_pairs, push_pair, pair_views, form_urlencoded};

verus! {

/// The URL parameters of the order call.
pub struct Param {
    jsv: String,
    app_key: String,
    t: String,
    sign: String,
    api: String,
    v: String,
    post: String,
    call_type: String,
    timeout: String,
    ttid: String,
    is_sec: String,
    ecode: String,
    anti_flood: String,
    data_type: String,
}

impl View for Param {
    type V = Seq<(Seq<char>, Seq<char>)>;

    /// The name/value pairs sent, in order.
    closed spec fn view(&self) -> Seq<(Seq<char>, Seq<char>)> {
        seq![
            ("jsv"@, self.jsv@),
            ("appKey"@, self.app_key@),
            ("t"@, self.t@),
            ("sign"@, self.sign@),
            ("api"@, self.api@),
            ("v"@, self.v@),
            ("post"@, self.post@),
            ("type"@, self.call_type@),
            ("timeout"@, self.timeout@),
            ("ttid"@, self.ttid@),
            ("isSec"@, self.is_sec@),
            ("ecode"@, self.ecode@),
            ("AntiFlood"@, self.anti_flood@),
            ("dataType"@, self.data_type@),
        ]
    }
}

impl Param {
    /// The pairs of `new`.
    pub open spec fn new_view(app_key: Seq<char>, t: Seq<char>, sign: Seq<char>) -> Seq<(Seq<char>, Seq<char>)> {
        seq![
            ("jsv"@, "2.5.1"@),
            ("appKey"@, app_key),
            ("t"@, t),
            ("sign"@, sign),
            ("api"@, "mtop.trade.order.create.h5"@),
            ("v"@, "4.0"@),
            ("post"@, "1"@),
            ("type"@, "originaljson"@),
            ("timeout"@, "15000"@),
            ("ttid"@, "#t#ip##_h5_2019"@),
            ("isSec"@, "1"@),
            ("ecode"@, "1"@),
            ("AntiFlood"@, "true"@),
            ("dataType"@, "jsonp"@),
        ]
    }

    /// The parameters of an order call signed with `sign` at time `t`.
    pub fn new(app_key: &str, t: &str, sign: &str) -> (p: Self)
        ensures
            p@ == Self::new_view(app_key@, t@, sign@),
    {
        Param {
            jsv: String::from_str("2.5.1"),
            app_key: String::from_str(app_key),
            t: String::from_str(t),
            sign: String::from_str(sign),
            api: String::from_str("mtop.trade.order.create.h5"),
            v: String::from_str("4.0"),
            post: String::from_str("1"),
            call_type: String::from_str("originaljson"),
            timeout: String::from_str("15000"),
            ttid: String::from_str("#t#ip##_h5_2019"),
            is_sec: String::from_str("1"),
            ecode: String::from_str("1"),
            anti_flood: String::from_str("true"),
            data_type: String::from_str("jsonp"),
        }
    }
}

impl UrlParams for Param {
    open spec fn url_pairs(&self) -> Seq<(Seq<char>, Seq<char>)> {
        self@
    }

    fn to_url_params(&self) -> (r: String) {
        let mut pairs: Vec<(String, String)> = Vec::new();
        push_pair(&mut pairs, "jsv", self.jsv.as_str());
        push_pair(&mut pairs, "appKey", self.app_key.as_str());
        push_pair(&mut pairs, "t", self.t.as_str());
        push_pair(&mut pairs, "sign", self.sign.as_str());
        push_pair(&mut pairs, "api", self.api.as_str());
        push_pair(&mut pairs, "v", self.v.as_str());
        push_pair(&mut pairs, "post", self.post.as_str());
        push_pair(&mut pairs, "type", self.call_type.as_str());
        push_pair(&mut pairs, "timeout", self.timeout.as_str());
        push_pair(&mut pairs, "ttid", self.ttid.as_str());
        push_pair(&mut pairs, "isSec", self.is_sec.as_str());
        push_pair(&mut pairs, "ecode", self.ecode.as_str());
        push_pair(&mut pairs, "AntiFlood", self.anti_flood.as_str());
        push_pair(&mut pairs, "dataType", self.data_type.as_str());
        assert(pair_views(pairs@) =~= self@);
        encode_pairs(&pairs)
    }
}

/// The body of the order call: the order document as `data`.
pub struct Payload {
    data: String,
}

impl View for Payload {
    type V = Seq<(Seq<char>, Seq<char>)>;

    /// The name/value pairs sent, in order.
    closed spec fn view(&self) -> Seq<(Seq<char>, Seq<char>)> {
        seq![
            ("data"@, self.data@),
        ]
    }
}

impl Payload {
    /// The pairs of `new`.
    pub open spec fn new_view(data: Seq<char>) -> Seq<(Seq<char>, Seq<char>)> {
        seq![
            ("data"@, data),
        ]
    }

    /// The body carrying `data`.
    pub fn new(data: &str) -> (p: Self)
        ensures
            p@ == Self::new_view(data@),
    {
        Payload {
            data: String::from_str(data),
        }
    }
}

impl UrlParams for Payload {
    open spec fn url_pairs(&self) -> Seq<(Seq<char>, Seq<char>)> {
        self@
    }

    fn to_url_params(&self) -> (r: String) {
        let mut pairs: Vec<(String, String)> = Vec::new();
        push_pair(&mut pairs, "data", self.data.as_str());
        assert(pair_views(pairs@) =~= self@);
        encode_pairs(&pairs)
    }
}

/// The order document's wrapper: the parameters document as JSON text.
pub struct PayloadData {
    params: String,
}

impl View for PayloadData {
    type V = JVal;

    /// The JSON document sent.
    closed spec fn view(&self) -> JVal {
        JVal::Obj(seq![("params"@, JVal::Str(self.params@))])
    }
}

impl PayloadData {
    /// The wrapper around the parameters text `data`.
    pub fn new(data: &str) -> (p: Self)
        ensures
            p@ == JVal::Obj(seq![("params"@, JVal::Str(data@))]),
    {
        PayloadData { params: String::from_str(data) }
    }

    /// The document as a JSON value.
    pub fn to_json(&self) -> (j: Json)
        ensures
            j@ == self@,
    {
        let v = vec![(String::from_str("params"), Json::Str(self.params.clone()))];
        proof {
            lemma_view_entries(v@);
            assert(view_entries(v@) =~= seq![("params"@, JVal::Str(self.params@))]);
        }
        Json::Obj(v)
    }
}

/// The view of an optional string member: `null` when absent.
pub open spec fn opt_str_view(o: Option<String>) -> JVal {
    match o {
        Some(s) => JVal::Str(s@),
        None => JVal::Null,
    }
}

fn opt_str_json(o: &Option<String>) -> (j: Json)
    ensures
        j@ == opt_str_view(*o),
{
    match o {
        Some(s) => Json::Str(s.clone()),
        None => Json::Null,
    }
}

/// The parameters document of an order: the kept settlement members, the
/// settlement's `linkage` and `hierarchy` as JSON text.
pub struct PayloadDataParams {
    operator: Option<String>,
    data: String,
    linkage: String,
    hierarchy: String,
    lifecycle: Option<String>,
}

impl View for PayloadDataParams {
    type V = JVal;

    /// The JSON document sent.
    closed spec fn view(&self) -> JVal {
        JVal::Obj(
            seq![
                ("operator"@, opt_str_view(self.operator)),
                ("data"@, JVal::Str(self.data@)),
                ("linkage"@, JVal::Str(self.linkage@)),
                ("hierarchy"@, JVal::Str(self.hierarchy@)),
                ("lifecycle"@, opt_str_view(self.lifecycle)),
            ],
        )
    }
}

/// The settlement response carries `data.linkage` and `data.hierarchy`.
pub open spec fn has_linkage_and_hierarchy(settle: JVal) -> bool {
    jget2(settle, "data"@, "linkage"@) is Some && jget2(settle, "data"@, "hierarchy"@) is Some
}

impl PayloadDataParams {
    /// The parameters document for the order data `data` (see
    /// `parse_params_data`) and the settlement response `settle_json`.
    pub fn new(settle_json: &Json, data: &str) -> (p: Self)
        requires
            has_linkage_and_hierarchy(settle_json@),
        ensures
            p@ == JVal::Obj(
                seq![
                    ("operator"@, JVal::Null),
                    ("data"@, JVal::Str(data@)),
                    ("linkage"@, JVal::Str(json_text(jget2(settle_json@, "data"@, "linkage"@)->0))),
                    ("hierarchy"@, JVal::Str(json_text(jget2(settle_json@, "data"@, "hierarchy"@)->0))),
                    ("lifecycle"@, JVal::Null),
                ],
            ),
    {
        let d = settle_json.get("data").unwrap();
        let linkage = to_json_string(d.get("linkage").unwrap());
        let hierarchy = to_json_string(d.get("hierarchy").unwrap());
        PayloadDataParams {
            operator: None,
            data: String::from_str(data),
            linkage,
            hierarchy,
            lifecycle: None,
        }
    }

    /// The document as a JSON value.
    pub fn to_json(&self) -> (j: Json)
        ensures
            j@ == self@,
    {
        let v = vec![
            (String::from_str("operator"), opt_str_json(&self.operator)),
            (String::from_str("data"), Json::Str(self.data.clone())),
            (String::from_str("linkage"), Json::Str(self.linkage.clone())),
            (String::from_str("hierarchy"), Json::Str(self.hierarchy.clone())),
            (String::from_str("lifecycle"), opt_str_json(&self.lifecycle)),
        ];
        proof {
            lemma_view_entries(v@);
            assert(view_entries(v@) =~= seq![
                ("operator"@, opt_str_view(self.operator)),
                ("data"@, JVal::Str(self.data@)),
                ("linkage"@, JVal::Str(self.linkage@)),
                ("hierarchy"@, JVal::Str(self.hierarchy@)),
                ("lifecycle"@, opt_str_view(self.lifecycle)),
            ]);
        }
        Json::Obj(v)
    }
}

} // verus!
