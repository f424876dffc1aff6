//! The outgoing HTTP request, as data.
use vstd::prelude::*;

verus! {

/// The views of a sequence of name/value pairs.
pub open spec fn pairs_view(v: Seq<(String, String)>) -> Seq<(Seq<char>, Seq<char>)> {
    v.map_values(|p: (String, String)| (p.0@, p.1@))
}

/// A GET request: its URL, its headers, and its query parameters in the order
/// they were added.
pub struct Request {
    pub url: String,
    pub headers: Vec<(String, String)>,
    pub query: Vec<(String, String)>,
}

pub struct RequestView {
    pub url: Seq<char>,
    pub headers: Seq<(Seq<char>, Seq<char>)>,
    pub query: Seq<(Seq<char>, Seq<char>)>,
}

impl View for Request {
    type V = RequestView;

    open spec fn view(&self) -> RequestView {
        RequestView {
            url: self.url@,
            headers: pairs_view(self.headers@),
            query: pairs_view(self.query@),
        }
    }
}

impl Request {
    /// A GET request of `url` with `headers` and no query parameter.
    pub fn get(url: String, headers: Vec<(String, String)>) -> (r: Request)
        ensures
            r@ == (RequestView { url: url@, headers: pairs_view(headers@), query: Seq::empty() }),
    {
        let r = Request { url, headers, query: Vec::new() };
        assert(pairs_view(r.query@) =~= Seq::empty());
        r
    }

    /// The same request with the query parameter `key=value` added last.
    pub fn query(self, key: &str, value: &str) -> (r: Request)
        ensures
            r@ == (RequestView { query: self@.query.push((key@, value@)), ..self@ }),
    {
        let mut q = self.query;
        let ghost before = q@;
        q.push((key.to_owned(), value.to_owned()));
        assert(pairs_view(q@) =~= pairs_view(before).push((key@, value@)));
        Request { url: self.url, headers: self.headers, query: q }
    }
}

/// The value of the first pair named `key`, if there is one.
pub open spec fn first_pair_value(pairs: Seq<(Seq<char>, Seq<char>)>, key: Seq<char>) -> Option<
    Seq<char>,
>
    decreases pairs.len(),
{
    if pairs.len() == 0 {
        None
    } else if pairs[0].0 == key {
        Some(pairs[0].1)
    } else {
        first_pair_value(pairs.drop_first(), key)
    }
}

/// The value of the first pair of `pairs` named `key`, if there is one.
pub fn find_value<'a>(pairs: &'a Vec<(String, String)>, key: &str) -> (r: Option<&'a String>)
    ensures
        r is Some <==> first_pair_value(pairs_view(pairs@), key@) is Some,
        r is Some ==> r->0@ == first_pair_value(pairs_view(pairs@), key@)->0,
{
    let ghost all = pairs_view(pairs@);
    let mut i: usize = 0;
    assert(all.subrange(0, all.len() as int) =~= all);
    while i < pairs.len()
        invariant
            i <= pairs@.len(),
            all == pairs_view(pairs@),
            first_pair_value(all, key@) == first_pair_value(all.subrange(i as int, all.len() as int), key@),
        decreases pairs@.len() - i,
    {
        assert(all.subrange(i as int, all.len() as int).drop_first() =~= all.subrange(i + 1, all.len() as int));
        if crate::text::str_eq(pairs[i].0.as_str(), key) {
            return Some(&pairs[i].1);
        }
        i = i + 1;
    }
    assert(all.subrange(i as int, all.len() as int).len() == 0);
    None
}

} // verus!
