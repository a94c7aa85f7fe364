//! The account call: its URL parameters.
use vstd::prelude::*;
use crate::urlencode::{UrlParams, encode_pairs, push_pair, pair_views, form_urlencoded};

verus! {

/// The URL parameters of the account call.
pub struct Param {
    jsv: String,
    app_key: String,
    t: String,
    sign: String,
    api: String,
    v: String,
    call_type: String,
    prevent_fallback: String,
    data_type: String,
}

impl View for Param {
    type V = Seq<(Seq<char>, Seq<char>)>;

    /// The name/value pairs sent, in order.
    closed spec fn view(&self) -> Seq<(Seq<char>, Seq<char>)> {
        seq![
            ("jsv"@, self.jsv@),
            ("appKey"@, self.app_key@),
            ("t"@, self.t@),
            ("sign"@, self.sign@),
            ("api"@, self.api@),
            ("v"@, self.v@),
            ("type"@, self.call_type@),
            ("preventFallback"@, self.prevent_fallback@),
            ("dataType"@, self.data_type@),
        ]
    }
}

impl Param {
    /// The pairs of `new`.
    pub open spec fn new_view(app_key: Seq<char>, t: Seq<char>, sign: Seq<char>) -> Seq<(Seq<char>, Seq<char>)> {
        seq![
            ("jsv"@, "2.7.2"@),
            ("appKey"@, app_key),
            ("t"@, t),
            ("sign"@, sign),
            ("api"@, "mtop.user.getUserSimple"@),
            ("v"@, "5.0"@),
            ("type"@, "originaljson"@),
            ("preventFallback"@, "true"@),
            ("dataType"@, "jsonp"@),
        ]
    }

    /// The parameters of an account call signed with `sign` at time `t`.
    pub fn new(app_key: &str, t: &str, sign: &str) -> (p: Self)
        ensures
            p@ == Self::new_view(app_key@, t@, sign@),
    {
        Param {
            jsv: String::from_str("2.7.2"),
            app_key: String::from_str(app_key),
            t: String::from_str(t),
            sign: String::from_str(sign),
            api: String::from_str("mtop.user.getUserSimple"),
            v: String::from_str("5.0"),
            call_type: String::from_str("originaljson"),
            prevent_fallback: String::from_str("true"),
            data_type: String::from_str("jsonp"),
        }
    }
}

impl UrlParams for Param {
    open spec fn url_pairs(&self) -> Seq<(Seq<char>, Seq<char>)> {
        self@
    }

    fn to_url_params(&self) -> (r: String) {
        let mut pairs: Vec<(String, String)> = Vec::new();
        push_pair(&mut pairs, "jsv", self.jsv.as_str());
        push_pair(&mut pairs, "appKey", self.app_key.as_str());
        push_pair(&mut pairs, "t", self.t.as_str());
        push_pair(&mut pairs, "sign", self.sign.as_str());
        push_pair(&mut pairs, "api", self.api.as_str());
        push_pair(&mut pairs, "v", self.v.as_str());
        push_pair(&mut pairs, "type", self.call_type.as_str());
        push_pair(&mut pairs, "preventFallback", self.prevent_fallback.as_str());
        push_pair(&mut pairs, "dataType", self.data_type.as_str());
        assert(pair_views(pairs@) =~= self@);
        encode_pairs(&pairs)
    }
}

} // verus!
