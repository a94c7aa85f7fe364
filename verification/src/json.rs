//! A JSON document model, its lookups and its compact text form.
//!
//! `Json` holds a parsed response as plain values; its view `JVal` is the
//! mathematical document. Objects keep their entries in the order given; a
//! document parsed by the JSON reader has its keys in ascending order.
use vstd::prelude::*;
use crate::text::{decimal, decimal_string, hex_digit};

verus! {

broadcast use vstd::std_specs::vec::group_vec_axioms;

/// A JSON number as the document holds it: a non-negative integer, a
/// negative integer, or any other number kept as its written form.
#[derive(Debug)]
pub enum Number {
    PosInt(u64),
    NegInt(i64),
    Float(String),
}

/// The view of a `Number`.
pub enum NumberV {
    PosInt(u64),
    NegInt(i64),
    Float(Seq<char>),
}

/// A JSON value.
#[derive(Debug)]
pub enum Json {
    Null,
    Bool(bool),
    Num(Number),
    Str(String),
    Arr(Vec<Json>),
    Obj(Vec<(String, Json)>),
}

/// The view of a JSON value.
pub enum JVal {
    Null,
    Bool(bool),
    Num(NumberV),
    Str(Seq<char>),
    Arr(Seq<JVal>),
    Obj(Seq<(Seq<char>, JVal)>),
}

impl View for Number {
    type V = NumberV;

    open spec fn view(&self) -> NumberV {
        match self {
            Number::PosInt(n) => NumberV::PosInt(*n),
            Number::NegInt(n) => NumberV::NegInt(*n),
            Number::Float(s) => NumberV::Float(s@),
        }
    }
}

pub open spec fn view_items(s: Seq<Json>) -> Seq<JVal>
    decreases s,
{
    if s.len() == 0 {
        Seq::empty()
    } else {
        seq![view_json(s[0])] + view_items(s.drop_first())
    }
}

pub open spec fn view_entries(s: Seq<(String, Json)>) -> Seq<(Seq<char>, JVal)>
    decreases s,
{
    if s.len() == 0 {
        Seq::empty()
    } else {
        seq![(s[0].0@, view_json(s[0].1))] + view_entries(s.drop_first())
    }
}

pub open spec fn view_json(j: Json) -> JVal
    decreases j,
{
    match j {
        Json::Null => JVal::Null,
        Json::Bool(b) => JVal::Bool(b),
        Json::Num(n) => JVal::Num(n@),
        Json::Str(s) => JVal::Str(s@),
        Json::Arr(v) => JVal::Arr(view_items(v@)),
        Json::Obj(v) => JVal::Obj(view_entries(v@)),
    }
}

impl View for Json {
    type V = JVal;

    open spec fn view(&self) -> JVal {
        view_json(*self)
    }
}

pub proof fn lemma_view_items(s: Seq<Json>)
    ensures
        view_items(s).len() == s.len(),
        forall|k: int| 0 <= k < s.len() ==> #[trigger] view_items(s)[k] == view_json(s[k]),
    decreases s.len(),
{
    if s.len() > 0 {
        lemma_view_items(s.drop_first());
        assert forall|k: int| 0 <= k < s.len() implies #[trigger] view_items(s)[k] == view_json(
            s[k],
        ) by {
            if k > 0 {
                assert(s.drop_first()[k - 1] == s[k]);
            }
        }
    }
}

pub proof fn lemma_view_entries(s: Seq<(String, Json)>)
    ensures
        view_entries(s).len() == s.len(),
        forall|k: int|
            0 <= k < s.len() ==> #[trigger] view_entries(s)[k] == (s[k].0@, view_json(s[k].1)),
    decreases s.len(),
{
    if s.len() > 0 {
        lemma_view_entries(s.drop_first());
        assert forall|k: int| 0 <= k < s.len() implies #[trigger] view_entries(s)[k] == (
            s[k].0@,
            view_json(s[k].1),
        ) by {
            if k > 0 {
                assert(s.drop_first()[k - 1] == s[k]);
            }
        }
    }
}

/// The value of the first entry named `key`.
pub open spec fn lookup(entries: Seq<(Seq<char>, JVal)>, key: Seq<char>) -> Option<JVal>
    decreases entries.len(),
{
    if entries.len() == 0 {
        None
    } else if entries[0].0 == key {
        Some(entries[0].1)
    } else {
        lookup(entries.drop_first(), key)
    }
}

/// Member `key` of an object; nothing for any other value.
pub open spec fn jget(v: JVal, key: Seq<char>) -> Option<JVal> {
    match v {
        JVal::Obj(entries) => lookup(entries, key),
        _ => None,
    }
}

/// The text of a string value.
pub open spec fn jstr(v: JVal) -> Option<Seq<char>> {
    match v {
        JVal::Str(s) => Some(s),
        _ => None,
    }
}

/// Member `key` of `v` when that member is a string.
pub open spec fn jget_str(v: JVal, key: Seq<char>) -> Option<Seq<char>> {
    match jget(v, key) {
        Some(m) => jstr(m),
        None => None,
    }
}

/// Member `key` of member `outer`.
pub open spec fn jget2(v: JVal, outer: Seq<char>, key: Seq<char>) -> Option<JVal> {
    match jget(v, outer) {
        Some(m) => jget(m, key),
        None => None,
    }
}

/// The view of an optional borrowed value.
pub open spec fn view_opt(o: Option<&Json>) -> Option<JVal> {
    match o {
        Some(j) => Some(j@),
        None => None,
    }
}

proof fn lemma_lookup_skip(e: Seq<(Seq<char>, JVal)>, key: Seq<char>, i: int)
    requires
        0 <= i <= e.len(),
        forall|k: int| 0 <= k < i ==> e[k].0 != key,
    ensures
        lookup(e, key) == lookup(e.skip(i), key),
    decreases i,
{
    if i > 0 {
        lemma_lookup_skip(e.drop_first(), key, i - 1);
        assert(e.drop_first().skip(i - 1) =~= e.skip(i));
    } else {
        assert(e.skip(0) =~= e);
    }
}

impl Json {
    /// Member `key` of an object, as `serde_json::Value::get` with a string index.
    pub fn get(&self, key: &str) -> (r: Option<&Json>)
        ensures
            view_opt(r) == jget(self@, key@),
    {
        match self {
            Json::Obj(entries) => {
                let k = String::from_str(key);
                let ghost e = view_entries(entries@);
                proof {
                    lemma_view_entries(entries@);
                }
                assert(self@ == JVal::Obj(e));
                let mut i: usize = 0;
                while i < entries.len()
                    invariant
                        i <= entries@.len(),
                        e == view_entries(entries@),
                        e.len() == entries@.len(),
                        k@ == key@,
                        self@ == JVal::Obj(e),
                        forall|m: int|
                            0 <= m < entries@.len() ==> #[trigger] e[m] == (
                                entries@[m].0@,
                                view_json(entries@[m].1),
                            ),
                        forall|m: int| 0 <= m < i ==> e[m].0 != key@,
                    decreases entries@.len() - i,
                {
                    if entries[i].0 == k {
                        proof {
                            assert(e[i as int].0 == key@);
                            lemma_lookup_skip(e, key@, i as int);
                            assert(e.skip(i as int)[0] == e[i as int]);
                            assert(e.skip(i as int).len() > 0);
                            assert(lookup(e.skip(i as int), key@) == Some(e[i as int].1));
                        }
                        return Some(&entries[i].1);
                    }
                    i = i + 1;
                }
                proof {
                    lemma_lookup_skip(e, key@, i as int);
                    assert(e.skip(i as int).len() == 0);
                }
                None
            },
            _ => None,
        }
    }

    /// The string of a string value, as `serde_json::Value::as_str`.
    pub fn as_str(&self) -> (r: Option<&String>)
        ensures
            match r {
                Some(s) => jstr(self@) == Some(s@),
                None => jstr(self@) is None,
            },
    {
        match self {
            Json::Str(s) => Some(s),
            _ => None,
        }
    }

    /// The elements of an array value, as `serde_json::Value::as_array`.
    pub fn as_array(&self) -> (r: Option<&Vec<Json>>)
        ensures
            match r {
                Some(v) => self@ == JVal::Arr(view_items(v@)),
                None => !(self@ is Arr),
            },
    {
        match self {
            Json::Arr(v) => Some(v),
            _ => None,
        }
    }

    /// The entries of an object value, as `serde_json::Value::as_object`.
    pub fn as_object(&self) -> (r: Option<&Vec<(String, Json)>>)
        ensures
            match r {
                Some(v) => self@ == JVal::Obj(view_entries(v@)),
                None => !(self@ is Obj),
            },
    {
        match self {
            Json::Obj(v) => Some(v),
            _ => None,
        }
    }

    /// A non-negative integer value, as `serde_json::Value::as_u64`.
    pub fn as_u64(&self) -> (r: Option<u64>)
        ensures
            r == ju64(self@),
    {
        match self {
            Json::Num(Number::PosInt(n)) => Some(*n),
            _ => None,
        }
    }
}

/// The value of a non-negative integer number.
pub open spec fn ju64(v: JVal) -> Option<u64> {
    match v {
        JVal::Num(NumberV::PosInt(n)) => Some(n),
        _ => None,
    }
}

// ---------------------------------------------------------------------------
// Text form
// ---------------------------------------------------------------------------

/// How one character of a string is written inside a JSON string literal.
pub open spec fn json_escape_char(c: char) -> Seq<char> {
    if c == '"' {
        seq!['\\', '"']
    } else if c == '\\' {
        seq!['\\', '\\']
    } else if c == '\x08' {
        seq!['\\', 'b']
    } else if c == '\t' {
        seq!['\\', 't']
    } else if c == '\n' {
        seq!['\\', 'n']
    } else if c == '\x0c' {
        seq!['\\', 'f']
    } else if c == '\r' {
        seq!['\\', 'r']
    } else if (c as u32) < 0x20 {
        seq![
            '\\',
            'u',
            '0',
            '0',
            hex_digit(((c as u32) / 16) as nat),
            hex_digit(((c as u32) % 16) as nat),
        ]
    } else {
        seq![c]
    }
}

/// A string written as a JSON string literal, quotes included.
pub open spec fn json_quote(s: Seq<char>) -> Seq<char> {
    seq!['"'] + s.map_values(|c: char| json_escape_char(c)).flatten() + seq!['"']
}

/// The written form of a number.
pub open spec fn num_text(n: NumberV) -> Seq<char> {
    match n {
        NumberV::PosInt(u) => decimal(u as nat),
        NumberV::NegInt(i) => if i < 0 {
            seq!['-'] + decimal((-i) as nat)
        } else {
            decimal(i as nat)
        },
        NumberV::Float(t) => t,
    }
}

/// Compact JSON text of a value: no whitespace, members in the order held.
pub open spec fn json_text(v: JVal) -> Seq<char>
    decreases v,
{
    match v {
        JVal::Null => seq!['n', 'u', 'l', 'l'],
        JVal::Bool(b) => if b {
            seq!['t', 'r', 'u', 'e']
        } else {
            seq!['f', 'a', 'l', 's', 'e']
        },
        JVal::Num(n) => num_text(n),
        JVal::Str(s) => json_quote(s),
        JVal::Arr(items) => seq!['['] + items_text(items) + seq![']'],
        JVal::Obj(entries) => seq!['{'] + entries_text(entries) + seq!['}'],
    }
}

/// The elements' texts separated by commas.
pub open spec fn items_text(s: Seq<JVal>) -> Seq<char>
    decreases s,
{
    if s.len() == 0 {
        Seq::empty()
    } else if s.len() == 1 {
        json_text(s[0])
    } else {
        items_text(s.drop_last()) + seq![','] + json_text(s[s.len() - 1])
    }
}

/// The members' texts (`"key":value`) separated by commas.
pub open spec fn entries_text(s: Seq<(Seq<char>, JVal)>) -> Seq<char>
    decreases s,
{
    if s.len() == 0 {
        Seq::empty()
    } else if s.len() == 1 {
        json_quote(s[0].0) + seq![':'] + json_text(s[0].1)
    } else {
        entries_text(s.drop_last()) + seq![','] + json_quote(s[s.len() - 1].0) + seq![':'] + json_text(
            s[s.len() - 1].1,
        )
    }
}

#[verifier::external_type_specification]
#[verifier::external_body]
pub struct ExJsonError(serde_json::Error);

/// Writes a string as a JSON string literal.
/// Calls `serde_json::to_string` on a `&str`. The contract claims that the call
/// succeeds and yields the string in double quotes with `"`, `\` and the
/// control characters below U+0020 escaped as serde_json's escape table does
/// (`\b \t \n \f \r`, otherwise `\u00XX` in lower-case hex), every other
/// character unchanged.
#[verifier::external_body]
fn json_string_literal(s: &str) -> (r: Result<String, serde_json::Error>)
    ensures
        r is Ok,
        r->Ok_0@ == json_quote(s@),
{
    serde_json::to_string(s)
}

/// A string as a JSON string literal, quotes included.
pub fn quote(s: &str) -> (r: String)
    ensures
        r@ == json_quote(s@),
{
    match json_string_literal(s) {
        Ok(t) => t,
        Err(_) => {
            proof {
                assert(false);
            }
            String::new()
        },
    }
}

/// Appends the written form of a number.
fn write_number(n: &Number, out: &mut String)
    ensures
        final(out)@ == old(out)@ + num_text(n@),
{
    match n {
        Number::PosInt(u) => {
            let t = decimal_string(*u as u128);
            out.append(t.as_str());
        },
        Number::NegInt(i) => {
            if *i < 0 {
                let m: i128 = -(*i as i128);
                let t = decimal_string(m as u128);
                out.append("-");
                proof {
                    reveal_strlit("-");
                }
                out.append(t.as_str());
                assert(out@ =~= old(out)@ + num_text(n@));
            } else {
                let t = decimal_string(*i as u128);
                out.append(t.as_str());
            }
        },
        Number::Float(t) => {
            out.append(t.as_str());
        },
    }
}

/// Appends the compact JSON text of a value, as `serde_json::to_string` writes it.
pub fn write_json(j: &Json, out: &mut String)
    ensures
        final(out)@ == old(out)@ + json_text(j@),
    decreases j,
{
    match j {
        Json::Null => {
            out.append("null");
            proof {
                reveal_strlit("null");
            }
            assert(out@ =~= old(out)@ + json_text(j@));
        },
        Json::Bool(b) => {
            if *b {
                out.append("true");
                proof {
                    reveal_strlit("true");
                }
            } else {
                out.append("false");
                proof {
                    reveal_strlit("false");
                }
            }
            assert(out@ =~= old(out)@ + json_text(j@));
        },
        Json::Num(n) => {
            write_number(n, out);
        },
        Json::Str(s) => {
            let q = quote(s.as_str());
            out.append(q.as_str());
        },
        Json::Arr(v) => {
            let ghost start = out@;
            let ghost items = view_items(v@);
            proof {
                lemma_view_items(v@);
                reveal_strlit("[");
                reveal_strlit("]");
                reveal_strlit(",");
                assert("["@ =~= seq!['[']);
                assert("]"@ =~= seq![']']);
                assert(","@ =~= seq![',']);
            }
            out.append("[");
            let mut i: usize = 0;
            while i < v.len()
                invariant
                    i <= v@.len(),
                    items == view_items(v@),
                    items.len() == v@.len(),
                    forall|m: int| 0 <= m < v@.len() ==> #[trigger] items[m] == view_json(v@[m]),
                    out@ == start + seq!['['] + items_text(items.take(i as int)),
                    *j == Json::Arr(*v),
                    ","@ == seq![','],
                decreases v@.len() - i,
            {
                let ghost before = out@;
                if i > 0 {
                    out.append(",");
                }
                proof {
                    assert((*j)->Arr_0 == *v);
                    assert(decreases_to!(*j => (*j)->Arr_0));
                    assert(decreases_to!(*v => v[i as int]));
                }
                write_json(&v[i], out);
                proof {
                    let t = items.take(i + 1);
                    assert(t.drop_last() =~= items.take(i as int));
                    assert(t[t.len() - 1] == items[i as int]);
                    if i == 0 {
                        assert(items_text(items.take(0)) =~= Seq::<char>::empty());
                    }
                    assert(out@ =~= start + seq!['['] + items_text(t));
                }
                i = i + 1;
            }
            out.append("]");
            proof {
                assert(items.take(v@.len() as int) =~= items);
            }
            assert(out@ =~= old(out)@ + json_text(j@));
        },
        Json::Obj(v) => {
            let ghost start = out@;
            let ghost entries = view_entries(v@);
            proof {
                lemma_view_entries(v@);
                reveal_strlit("{");
                reveal_strlit("}");
                reveal_strlit(",");
                reveal_strlit(":");
                assert("{"@ =~= seq!['{']);
                assert("}"@ =~= seq!['}']);
                assert(","@ =~= seq![',']);
                assert(":"@ =~= seq![':']);
            }
            out.append("{");
            let mut i: usize = 0;
            while i < v.len()
                invariant
                    i <= v@.len(),
                    entries == view_entries(v@),
                    entries.len() == v@.len(),
                    forall|m: int|
                        0 <= m < v@.len() ==> #[trigger] entries[m] == (
                            v@[m].0@,
                            view_json(v@[m].1),
                        ),
                    out@ == start + seq!['{'] + entries_text(entries.take(i as int)),
                    *j == Json::Obj(*v),
                    ","@ == seq![','],
                    ":"@ == seq![':'],
                decreases v@.len() - i,
            {
                if i > 0 {
                    out.append(",");
                }
                let q = quote(v[i].0.as_str());
                out.append(q.as_str());
                out.append(":");
                proof {
                    assert((*j)->Obj_0 == *v);
                    assert(decreases_to!(*j => (*j)->Obj_0));
                    assert(decreases_to!(*v => v[i as int]));
                    assert(decreases_to!(v[i as int] => v[i as int].1));
                }
                write_json(&v[i].1, out);
                proof {
                    let t = entries.take(i + 1);
                    assert(t.drop_last() =~= entries.take(i as int));
                    assert(t[t.len() - 1] == entries[i as int]);
                    if i == 0 {
                        assert(entries_text(entries.take(0)) =~= Seq::<char>::empty());
                    }
                    assert(out@ =~= start + seq!['{'] + entries_text(t));
                }
                i = i + 1;
            }
            out.append("}");
            proof {
                assert(entries.take(v@.len() as int) =~= entries);
            }
            assert(out@ =~= old(out)@ + json_text(j@));
        },
    }
}

/// The compact JSON text of a value.
pub fn to_json_string(j: &Json) -> (r: String)
    ensures
        r@ == json_text(j@),
{
    let mut out = String::new();
    write_json(j, &mut out);
    assert(out@ =~= json_text(j@));
    out
}

} // verus!
