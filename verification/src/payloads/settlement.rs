//! The checkout call: its URL parameters and its urlencoded body.
use vstd::prelude::*;
use crate::urlencode::{UrlParams, encode_pairs, push_pair, pair_views, form_urlencoded};

verus! {

/// The URL parameters of the checkout call.
pub struct Param {
    jsv: String,
    app_key: String,
    t: String,
    sign: String,
    api: String,
    v: String,
    call_type: String,
    ttid: String,
    is_sec: String,
    ecode: String,
    anti_flood: String,
    anti_creep: String,
    h5_request: String,
    data_type: String,
}

impl View for Param {
    type V = Seq<(Seq<char>, Seq<char>)>;

    /// The name/value pairs sent, in order.
    closed spec fn view(&self) -> Seq<(Seq<char>, Seq<char>)> {
        seq![
            ("jsv"@, self.jsv@),
            ("appKey"@, self.app_key@),
            ("t"@, self.t@),
            ("sign"@, self.sign@),
            ("api"@, self.api@),
            ("v"@, self.v@),
            ("type"@, self.call_type@),
            ("ttid"@, self.ttid@),
            ("isSec"@, self.is_sec@),
            ("ecode"@, self.ecode@),
            ("AntiFlood"@, self.anti_flood@),
            ("AntiCreep"@, self.anti_creep@),
            ("H5Request"@, self.h5_request@),
            ("dataType"@, self.data_type@),
        ]
    }
}

impl Param {
    /// The pairs of `new`.
    pub open spec fn new_view(app_key: Seq<char>, t: Seq<char>, sign: Seq<char>) -> Seq<(Seq<char>, Seq<char>)> {
        seq![
            ("jsv"@, "2.5.1"@),
            ("appKey"@, app_key),
            ("t"@, t),
            ("sign"@, sign),
            ("api"@, "mtop.trade.order.build.h5"@),
            ("v"@, "4.0"@),
            ("type"@, "originaljson"@),
            ("ttid"@, "#t#ip##_h5_2019"@),
            ("isSec"@, "1"@),
            ("ecode"@, "1"@),
            ("AntiFlood"@, "true"@),
            ("AntiCreep"@, "true"@),
            ("H5Request"@, "true"@),
            ("dataType"@, "jsonp"@),
        ]
    }

    /// The parameters of a checkout call signed with `sign` at time `t`.
    pub fn new(app_key: &str, t: &str, sign: &str) -> (p: Self)
        ensures
            p@ == Self::new_view(app_key@, t@, sign@),
    {
        Param {
            jsv: String::from_str("2.5.1"),
            app_key: String::from_str(app_key),
            t: String::from_str(t),
            sign: String::from_str(sign),
            api: String::from_str("mtop.trade.order.build.h5"),
            v: String::from_str("4.0"),
            call_type: String::from_str("originaljson"),
            ttid: String::from_str("#t#ip##_h5_2019"),
            is_sec: String::from_str("1"),
            ecode: String::from_str("1"),
            anti_flood: String::from_str("true"),
            anti_creep: String::from_str("true"),
            h5_request: String::from_str("true"),
            data_type: String::from_str("jsonp"),
        }
    }
}

impl UrlParams for Param {
    open spec fn url_pairs(&self) -> Seq<(Seq<char>, Seq<char>)> {
        self@
    }

    fn to_url_params(&self) -> (r: String) {
        let mut pairs: Vec<(String, String)> = Vec::new();
        push_pair(&mut pairs, "jsv", self.jsv.as_str());
        push_pair(&mut pairs, "appKey", self.app_key.as_str());
        push_pair(&mut pairs, "t", self.t.as_str());
        push_pair(&mut pairs, "sign", self.sign.as_str());
        push_pair(&mut pairs, "api", self.api.as_str());
        push_pair(&mut pairs, "v", self.v.as_str());
        push_pair(&mut pairs, "type", self.call_type.as_str());
        push_pair(&mut pairs, "ttid", self.ttid.as_str());
        push_pair(&mut pairs, "isSec", self.is_sec.as_str());
        push_pair(&mut pairs, "ecode", self.ecode.as_str());
        push_pair(&mut pairs, "AntiFlood", self.anti_flood.as_str());
        push_pair(&mut pairs, "AntiCreep", self.anti_creep.as_str());
        push_pair(&mut pairs, "H5Request", self.h5_request.as_str());
        push_pair(&mut pairs, "dataType", self.data_type.as_str());
        assert(pair_views(pairs@) =~= self@);
        encode_pairs(&pairs)
    }
}

/// The body of the checkout call: the `buyNow` document as `data`.
pub struct Payload {
    data: String,
}

impl View for Payload {
    type V = Seq<(Seq<char>, Seq<char>)>;

    /// The name/value pairs sent, in order.
    closed spec fn view(&self) -> Seq<(Seq<char>, Seq<char>)> {
        seq![
            ("data"@, self.data@),
        ]
    }
}

impl Payload {
    /// The pairs of `new`.
    pub open spec fn new_view(data: Seq<char>) -> Seq<(Seq<char>, Seq<char>)> {
        seq![
            ("data"@, data),
        ]
    }

    /// The body carrying `data`.
    pub fn new(data: &str) -> (p: Self)
        ensures
            p@ == Self::new_view(data@),
    {
        Payload {
            data: String::from_str(data),
        }
    }
}

impl UrlParams for Payload {
    open spec fn url_pairs(&self) -> Seq<(Seq<char>, Seq<char>)> {
        self@
    }

    fn to_url_params(&self) -> (r: String) {
        let mut pairs: Vec<(String, String)> = Vec::new();
        push_pair(&mut pairs, "data", self.data.as_str());
        assert(pair_views(pairs@) =~= self@);
        encode_pairs(&pairs)
    }
}

} // verus!
