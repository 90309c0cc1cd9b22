//! Query parameters and their form-encoding.
//!
//! A request's query is a list of named parameters whose values may be
//! absent.  Absent parameters are skipped — they never reach the encoded
//! query string — and the present ones keep their order.  The
//! form-encoding of the kept pairs is done by `serde_urlencoded` behind a
//! trusted wrapper.

use vstd::prelude::*;

verus! {

/// One named query parameter; an absent value means the parameter is
/// left out of the query string entirely.
#[derive(Debug)]
pub struct QueryParam {
    pub name: String,
    pub value: Option<String>,
}

impl QueryParam {
    /// A parameter with the given name and optional value.
    pub fn new(name: &str, value: Option<String>) -> (r: QueryParam)
        ensures
            r.name@ == name@,
            r.value == value,
    {
        QueryParam { name: name.to_owned(), value }
    }
}

/// The views of a list of string pairs.
pub open spec fn pair_views(pairs: Seq<(String, String)>) -> Seq<(Seq<char>, Seq<char>)> {
    pairs.map(|i: int, p: (String, String)| (p.0@, p.1@))
}

/// The pairs that reach the query string: parameters with a present value,
/// as (name, value), in their original order.
pub open spec fn present_pairs(params: Seq<QueryParam>) -> Seq<(Seq<char>, Seq<char>)>
    decreases params.len(),
{
    if params.len() == 0 {
        Seq::empty()
    } else {
        let rest = present_pairs(params.drop_first());
        match params[0].value {
            Some(v) => seq![(params[0].name@, v@)] + rest,
            None => rest,
        }
    }
}

/// Law: a parameter with an absent value leaves the query pairs unchanged.
pub proof fn lemma_absent_param_skipped(params: Seq<QueryParam>, p: QueryParam)
    requires
        p.value is None,
    ensures
        present_pairs(params.push(p)) == present_pairs(params),
    decreases params.len(),
{
    if params.len() == 0 {
        assert(params.push(p)[0] == p);
        assert(params.push(p).drop_first() =~= Seq::<QueryParam>::empty());
        assert(present_pairs(Seq::<QueryParam>::empty()) =~= Seq::<(Seq<char>, Seq<char>)>::empty());
        assert(present_pairs(params.push(p)) =~= present_pairs(params));
    } else {
        assert(params.push(p).drop_first() =~= params.drop_first().push(p));
        lemma_absent_param_skipped(params.drop_first(), p);
        assert(present_pairs(params.push(p)) =~= present_pairs(params));
    }
}

/// Law: a parameter with a present value is appended after all earlier
/// pairs, so the query keeps the parameters' order.
pub proof fn lemma_present_param_kept(params: Seq<QueryParam>, p: QueryParam)
    requires
        p.value is Some,
    ensures
        present_pairs(params.push(p)) == present_pairs(params).push(
            (p.name@, p.value->Some_0@),
        ),
    decreases params.len(),
{
    if params.len() == 0 {
        assert(params.push(p)[0] == p);
        assert(params.push(p).drop_first() =~= Seq::<QueryParam>::empty());
        assert(present_pairs(Seq::<QueryParam>::empty()) =~= Seq::<(Seq<char>, Seq<char>)>::empty());
        assert(present_pairs(params.push(p)) =~= present_pairs(params).push(
            (p.name@, p.value->Some_0@),
        ));
    } else {
        assert(params.push(p).drop_first() =~= params.drop_first().push(p));
        lemma_present_param_kept(params.drop_first(), p);
        assert(present_pairs(params.push(p)) =~= present_pairs(params).push(
            (p.name@, p.value->Some_0@),
        ));
    }
}

/// The pairs of `present_pairs`, as executable values.
pub fn present_query_pairs(params: &Vec<QueryParam>) -> (r: Vec<(String, String)>)
    ensures
        pair_views(r@) == present_pairs(params@),
{
    let mut out: Vec<(String, String)> = Vec::new();
    proof {
        assert(params@.subrange(0, 0) =~= Seq::<QueryParam>::empty());
        assert(pair_views(out@) =~= present_pairs(params@.subrange(0, 0)));
    }
    let mut i: usize = 0;
    while i < params.len()
        invariant
            i <= params@.len(),
            pair_views(out@) == present_pairs(params@.subrange(0, i as int)),
        decreases params@.len() - i,
    {
        let p = &params[i];
        proof {
            assert(params@.subrange(0, i + 1) =~= params@.subrange(0, i as int).push(
                params@[i as int],
            ));
        }
        match &p.value {
            Some(v) => {
                let pair = (p.name.clone(), v.clone());
                out.push(pair);
                proof {
                    lemma_present_param_kept(params@.subrange(0, i as int), params@[i as int]);
                    assert(pair_views(out@) =~= present_pairs(params@.subrange(0, i + 1)));
                }
            },
            None => {
                proof {
                    lemma_absent_param_skipped(params@.subrange(0, i as int), params@[i as int]);
                }
            },
        }
        i = i + 1;
    }
    proof {
        assert(params@.subrange(0, params@.len() as int) =~= params@);
    }
    out
}

/// The query pairs contributed by one optional parameter: one pair when
/// the value is present, none when it is absent.
pub open spec fn opt_pair(name: Seq<char>, value: Option<Seq<char>>) -> Seq<(Seq<char>, Seq<char>)> {
    match value {
        Some(v) => seq![(name, v)],
        None => Seq::empty(),
    }
}

/// The form-encoded text of a sequence of string pairs, as
/// `application/x-www-form-urlencoded` gives it.
pub uninterp spec fn urlencoded_of(pairs: Seq<(Seq<char>, Seq<char>)>) -> Seq<char>;

/// Relies on `serde_urlencoded::to_string`: form-encodes a sequence of
/// string pairs in their order, `name=value` joined by `&`.  For string
/// pairs the serializer has no failure path; an empty sequence encodes to
/// the empty string, and every pair writes at least its `=`.
#[verifier::external_body]
fn urlencode_pairs(pairs: &Vec<(String, String)>) -> (r: String)
    ensures
        r@ == urlencoded_of(pair_views(pairs@)),
        pairs@.len() == 0 ==> r@.len() == 0,
        pairs@.len() > 0 ==> r@.len() > 0,
{
    match serde_urlencoded::to_string(pairs) {
        Ok(s) => s,
        Err(_) => String::new(),
    }
}

/// The query string for a parameter list: the form-encoding of exactly the
/// present parameters.  An empty parameter set gives the empty string.
pub fn query_string(params: &Vec<QueryParam>) -> (r: String)
    ensures
        r@ == urlencoded_of(present_pairs(params@)),
        present_pairs(params@).len() == 0 <==> r@.len() == 0,
{
    let pairs = present_query_pairs(params);
    urlencode_pairs(&pairs)
}

} // verus!
