//! The cart query: its JSON `data` document and its URL parameters.
use vstd::prelude::*;
use crate::json::{Json, JVal, Number, NumberV, lemma_view_entries, view_entries, json_text, to_json_string};
use crate::urlencode::{UrlParams, encode_pairs, push_pair, pair_views, form_urlencoded};

verus! {

/// Extra flags of the cart query.
pub struct ExParam {
    support_calculate_update: String,
    merge_combo: String,
    global_sell: String,
    spi_page: String,
}

impl View for ExParam {
    type V = JVal;

    /// The JSON document the flags are sent as.
    closed spec fn view(&self) -> JVal {
        JVal::Obj(
            seq![
                ("supportCalculateUpdate"@, JVal::Str(self.support_calculate_update@)),
                ("mergeCombo"@, JVal::Str(self.merge_combo@)),
                ("globalSell"@, JVal::Str(self.global_sell@)),
                ("spiPage"@, JVal::Str(self.spi_page@)),
            ],
        )
    }
}

impl ExParam {
    /// The flags the cart query is made with.
    pub fn new() -> (p: Self)
        ensures
            p@ == JVal::Obj(
                seq![
                    ("supportCalculateUpdate"@, JVal::Str("true"@)),
                    ("mergeCombo"@, JVal::Str("true"@)),
                    ("globalSell"@, JVal::Str("1"@)),
                    ("spiPage"@, JVal::Str("pcTao"@)),
                ],
            ),
    {
        ExParam {
            support_calculate_update: String::from_str("true"),
            merge_combo: String::from_str("true"),
            global_sell: String::from_str("1"),
            spi_page: String::from_str("pcTao"),
        }
    }

    /// The flags as a JSON value.
    pub fn to_json(&self) -> (j: Json)
        ensures
            j@ == self@,
    {
        let v = vec![
            (String::from_str("supportCalculateUpdate"), Json::Str(self.support_calculate_update.clone())),
            (String::from_str("mergeCombo"), Json::Str(self.merge_combo.clone())),
            (String::from_str("globalSell"), Json::Str(self.global_sell.clone())),
            (String::from_str("spiPage"), Json::Str(self.spi_page.clone())),
        ];
        proof {
            lemma_view_entries(v@);
            assert(view_entries(v@) =~= seq![
                ("supportCalculateUpdate"@, JVal::Str(self.support_calculate_update@)),
                ("mergeCombo"@, JVal::Str(self.merge_combo@)),
                ("globalSell"@, JVal::Str(self.global_sell@)),
                ("spiPage"@, JVal::Str(self.spi_page@)),
            ]);
        }
        Json::Obj(v)
    }
}

/// The `data` document of the cart query.
pub struct Payload {
    is_page: bool,
    pub cart_from: String,
    ext_status: String,
    net_type: u8,
    mixed: bool,
    ex_params: String,
}

impl View for Payload {
    type V = JVal;

    /// The JSON document sent as the query's `data`.
    closed spec fn view(&self) -> JVal {
        JVal::Obj(
            seq![
                ("isPage"@, JVal::Bool(self.is_page)),
                ("cartFrom"@, JVal::Str(self.cart_from@)),
                ("extStatus"@, JVal::Str(self.ext_status@)),
                ("netType"@, JVal::Num(NumberV::PosInt(self.net_type as u64))),
                ("mixed"@, JVal::Bool(self.mixed)),
                ("exParams"@, JVal::Str(self.ex_params@)),
            ],
        )
    }
}

impl Payload {
    /// The document of the cart query that `new` makes: the main-site cart,
    /// first page, with the flags of `ExParam::new` as JSON text in
    /// `exParams`.
    pub open spec fn new_view() -> JVal {
        JVal::Obj(
                seq![
                    ("isPage"@, JVal::Bool(true)),
                    ("cartFrom"@, JVal::Str("main_site"@)),
                    ("extStatus"@, JVal::Str("0"@)),
                    ("netType"@, JVal::Num(NumberV::PosInt(0))),
                    ("mixed"@, JVal::Bool(false)),
                    ("exParams"@, JVal::Str(json_text(ExParam::new_view()))),
                ],
            )
    }

    /// The cart query: the main-site cart, first page, with the flags of
    /// `ExParam::new` written as JSON text in `exParams`.
    pub fn new() -> (p: Self)
        ensures
            p@ == Self::new_view(),
    {
        let ex = ExParam::new();
        let exj = ex.to_json();
        let ex_params = to_json_string(&exj);
        Payload {
            is_page: true,
            ext_status: String::from_str("0"),
            cart_from: String::from_str("main_site"),
            net_type: 0,
            mixed: false,
            ex_params,
        }
    }

    /// The document as a JSON value.
    pub fn to_json(&self) -> (j: Json)
        ensures
            j@ == self@,
    {
        let v = vec![
            (String::from_str("isPage"), Json::Bool(self.is_page)),
            (String::from_str("cartFrom"), Json::Str(self.cart_from.clone())),
            (String::from_str("extStatus"), Json::Str(self.ext_status.clone())),
            (String::from_str("netType"), Json::Num(Number::PosInt(self.net_type as u64))),
            (String::from_str("mixed"), Json::Bool(self.mixed)),
            (String::from_str("exParams"), Json::Str(self.ex_params.clone())),
        ];
        proof {
            lemma_view_entries(v@);
            assert(view_entries(v@) =~= seq![
                ("isPage"@, JVal::Bool(self.is_page)),
                ("cartFrom"@, JVal::Str(self.cart_from@)),
                ("extStatus"@, JVal::Str(self.ext_status@)),
                ("netType"@, JVal::Num(NumberV::PosInt(self.net_type as u64))),
                ("mixed"@, JVal::Bool(self.mixed)),
                ("exParams"@, JVal::Str(self.ex_params@)),
            ]);
        }
        Json::Obj(v)
    }
}

impl ExParam {
    /// The document of `ExParam::new`.
    pub open spec fn new_view() -> JVal {
        JVal::Obj(
            seq![
                ("supportCalculateUpdate"@, JVal::Str("true"@)),
                ("mergeCombo"@, JVal::Str("true"@)),
                ("globalSell"@, JVal::Str("1"@)),
                ("spiPage"@, JVal::Str("pcTao"@)),
            ],
        )
    }
}

/// The URL parameters of the cart query.
pub struct Param {
    jsv: String,
    app_key: String,
    t: String,
    sign: String,
    api: String,
    v: String,
    call_type: String,
    ttid: String,
    is_sec: String,
    ecode: String,
    anti_flood: String,
    anti_creep: String,
    h5_request: String,
    data_type: String,
    callback: String,
    data: String,
}

impl View for Param {
    type V = Seq<(Seq<char>, Seq<char>)>;

    /// The name/value pairs sent, in order.
    closed spec fn view(&self) -> Seq<(Seq<char>, Seq<char>)> {
        seq![
            ("jsv"@, self.jsv@),
            ("appKey"@, self.app_key@),
            ("t"@, self.t@),
            ("sign"@, self.sign@),
            ("api"@, self.api@),
            ("v"@, self.v@),
            ("type"@, self.call_type@),
            ("ttid"@, self.ttid@),
            ("isSec"@, self.is_sec@),
            ("ecode"@, self.ecode@),
            ("AntiFlood"@, self.anti_flood@),
            ("AntiCreep"@, self.anti_creep@),
            ("H5Request"@, self.h5_request@),
            ("dataType"@, self.data_type@),
            ("callback"@, self.callback@),
            ("data"@, self.data@),
        ]
    }
}

impl Param {
    /// The pairs of `new`.
    pub open spec fn new_view(app_key: Seq<char>, t: Seq<char>, sign: Seq<char>, data: Seq<char>) -> Seq<(Seq<char>, Seq<char>)> {
        seq![
            ("jsv"@, "2.5.1"@),
            ("appKey"@, app_key),
            ("t"@, t),
            ("sign"@, sign),
            ("api"@, "mtop.trade.query.bag"@),
            ("v"@, "5.0"@),
            ("type"@, "jsonp"@),
            ("ttid"@, "h5"@),
            ("isSec"@, "0"@),
            ("ecode"@, "1"@),
            ("AntiFlood"@, "true"@),
            ("AntiCreep"@, "true"@),
            ("H5Request"@, "true"@),
            ("dataType"@, "jsonp"@),
            ("callback"@, "mtopjsonp2"@),
            ("data"@, data),
        ]
    }

    /// The parameters of a cart query signed with `sign` at time `t`.
    pub fn new(app_key: &str, t: &str, sign: &str, data: &str) -> (p: Self)
        ensures
            p@ == Self::new_view(app_key@, t@, sign@, data@),
    {
        Param {
            jsv: String::from_str("2.5.1"),
            app_key: String::from_str(app_key),
            t: String::from_str(t),
            sign: String::from_str(sign),
            api: String::from_str("mtop.trade.query.bag"),
            v: String::from_str("5.0"),
            call_type: String::from_str("jsonp"),
            ttid: String::from_str("h5"),
            is_sec: String::from_str("0"),
            ecode: String::from_str("1"),
            anti_flood: String::from_str("true"),
            anti_creep: String::from_str("true"),
            h5_request: String::from_str("true"),
            data_type: String::from_str("jsonp"),
            callback: String::from_str("mtopjsonp2"),
            data: String::from_str(data),
        }
    }
}

impl UrlParams for Param {
    open spec fn url_pairs(&self) -> Seq<(Seq<char>, Seq<char>)> {
        self@
    }

    fn to_url_params(&self) -> (r: String) {
        let mut pairs: Vec<(String, String)> = Vec::new();
        push_pair(&mut pairs, "jsv", self.jsv.as_str());
        push_pair(&mut pairs, "appKey", self.app_key.as_str());
        push_pair(&mut pairs, "t", self.t.as_str());
        push_pair(&mut pairs, "sign", self.sign.as_str());
        push_pair(&mut pairs, "api", self.api.as_str());
        push_pair(&mut pairs, "v", self.v.as_str());
        push_pair(&mut pairs, "type", self.call_type.as_str());
        push_pair(&mut pairs, "ttid", self.ttid.as_str());
        push_pair(&mut pairs, "isSec", self.is_sec.as_str());
        push_pair(&mut pairs, "ecode", self.ecode.as_str());
        push_pair(&mut pairs, "AntiFlood", self.anti_flood.as_str());
        push_pair(&mut pairs, "AntiCreep", self.anti_creep.as_str());
        push_pair(&mut pairs, "H5Request", self.h5_request.as_str());
        push_pair(&mut pairs, "dataType", self.data_type.as_str());
        push_pair(&mut pairs, "callback", self.callback.as_str());
        push_pair(&mut pairs, "data", self.data.as_str());
        assert(pair_views(pairs@) =~= self@);
        encode_pairs(&pairs)
    }
}

} // verus!
