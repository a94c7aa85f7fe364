//! The browser's cookies for the shop's domain and the `Cookie` header made
//! from them.
use vstd::prelude::*;
use crate::text::join;

verus! {

/// One cookie as the browser stores it: what the header needs of it.
#[derive(Debug)]
pub struct CookieEntry {
    pub name: String,
    pub value: String,
    pub domain: String,
}

/// The cookies read from a browser.
pub struct Cookie {
    pub cookies: Vec<CookieEntry>,
}

/// `name=value` of the cookies whose domain is exactly `domain`, in order.
pub open spec fn cookie_items(cookies: Seq<CookieEntry>, domain: Seq<char>) -> Seq<Seq<char>>
    decreases cookies.len(),
{
    if cookies.len() == 0 {
        Seq::empty()
    } else {
        let rest = cookie_items(cookies.drop_last(), domain);
        let c = cookies.last();
        if c.domain@ == domain {
            rest.push(c.name@ + seq!['='] + c.value@)
        } else {
            rest
        }
    }
}

/// The position of the first cookie named `name`.
pub open spec fn first_named(cookies: Seq<CookieEntry>, name: Seq<char>) -> Option<int> {
    if exists|i: int| 0 <= i < cookies.len() && cookies[i].name@ == name {
        Some(
            choose|i: int|
                0 <= i < cookies.len() && cookies[i].name@ == name && forall|k: int|
                    0 <= k < i ==> cookies[k].name@ != name,
        )
    } else {
        None
    }
}

impl Cookie {
    /// The cookies of `domain` as a `Cookie` header value: `name=value`
    /// joined with `; `.
    pub fn to_cookies_str(&self, domain: &str) -> (r: String)
        ensures
            r@ == join(cookie_items(self.cookies@, domain@), "; "@),
    {
        let want = String::from_str(domain);
        let ghost all = self.cookies@;
        let mut items: Vec<String> = Vec::new();
        let mut i: usize = 0;
        while i < self.cookies.len()
            invariant
                i <= all.len(),
                all == self.cookies@,
                want@ == domain@,
                items@.map_values(|s: String| s@) == cookie_items(all.take(i as int), domain@),
            decreases all.len() - i,
        {
            let c = &self.cookies[i];
            let ghost t = all.take(i + 1);
            assert(t.drop_last() =~= all.take(i as int));
            assert(t.last() == all[i as int]);
            if c.domain == want {
                let mut item = c.name.clone();
                item.append("=");
                item.append(c.value.as_str());
                proof {
                    reveal_strlit("=");
                    assert("="@ =~= seq!['=']);
                }
                items.push(item);
                assert(items@.map_values(|s: String| s@) =~= cookie_items(t, domain@));
            }
            i = i + 1;
        }
        assert(all.take(all.len() as int) =~= all);
        crate::text::join_strings(&items, "; ")
    }

    /// The first cookie named `name`, as `Iterator::find` over the cookies.
    pub fn get_cookie(&self, name: &str) -> (r: Option<&CookieEntry>)
        ensures
            match first_named(self.cookies@, name@) {
                Some(i) => r == Some(&self.cookies@[i]),
                None => r is None,
            },
    {
        let want = String::from_str(name);
        let mut i: usize = 0;
        while i < self.cookies.len()
            invariant
                i <= self.cookies@.len(),
                want@ == name@,
                forall|k: int| 0 <= k < i ==> self.cookies@[k].name@ != name@,
            decreases self.cookies@.len() - i,
        {
            if self.cookies[i].name == want {
                let ghost j = choose|j: int|
                    0 <= j < self.cookies@.len() && self.cookies@[j].name@ == name@ && forall|k: int|
                        0 <= k < j ==> self.cookies@[k].name@ != name@;
                assert(0 <= i < self.cookies@.len() && self.cookies@[i as int].name@ == name@
                    && forall|k: int| 0 <= k < i ==> self.cookies@[k].name@ != name@);
                assert(j == i);
                return Some(&self.cookies[i]);
            }
            i = i + 1;
        }
        None
    }
}

} // verus!
