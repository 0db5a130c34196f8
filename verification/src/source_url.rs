//! Building the operator API request URLs.
//!
//! The inbound import request carries a URL the player copied from the
//! game; only its `authkey`, `authkey_ver` and `sign_type` query
//! parameters are passed through.  Each page request re-assembles them
//! onto the operator endpoint together with the fixed language and
//! page-size parameters, the category code and the pagination cursor.
//! URL parsing and percent-encoding are the `url` crate's work, behind
//! trusted wrappers; which pairs survive and in which order is proved.

use vstd::prelude::*;
use vstd::string::StringExecFns;
use vstd::string::StringSliceAdditionalSpecFns;

use crate::category::GachaType;
use crate::decimal::{str_eq, string_bytes};

verus! {

/// The decoded query pairs of a URL string, when it parses; a function
/// of the string alone.
pub uninterp spec fn url_query_of(s: Seq<u8>) -> Option<Seq<(Seq<u8>, Seq<u8>)>>;

/// The URL obtained by attaching the given query pairs, re-encoded, to
/// a base URL; a function of its arguments alone.
pub uninterp spec fn url_with_query_of(base: Seq<u8>, pairs: Seq<(Seq<u8>, Seq<u8>)>) -> Option<
    Seq<u8>,
>;

/// The UTF-8 bytes of each pair of strings.
pub open spec fn pairs_bytes(ps: Seq<(String, String)>) -> Seq<(Seq<u8>, Seq<u8>)> {
    Seq::new(ps.len(), |i: int| (string_bytes(ps[i].0), string_bytes(ps[i].1)))
}

/// Relies on `url::Url::parse` and `Url::query_pairs`: the decoded
/// `(key, value)` query pairs of the input, in order, both functions
/// of the input string alone.
#[verifier::external_body]
fn parse_query_pairs(s: &str) -> (r: Result<Vec<(String, String)>, String>)
    ensures
        r matches Ok(v) ==> url_query_of(s.spec_bytes()) == Some(pairs_bytes(v@)),
        r is Err <==> url_query_of(s.spec_bytes()) is None,
{
    match url::Url::parse(s) {
        Ok(u) => Ok(u.query_pairs().map(|(k, v)| (k.to_string(), v.to_string())).collect()),
        Err(e) => Err(format!("{e}")),
    }
}

/// Relies on `url::Url::parse`, `Url::query_pairs_mut` with
/// `Serializer::extend_pairs`, and `String::from(Url)`: parsing the
/// base and appending the percent-encoded pairs to its query are
/// functions of the arguments alone.
#[verifier::external_body]
fn url_with_query(base: &str, pairs: &Vec<(String, String)>) -> (r: Result<String, String>)
    ensures
        r matches Ok(u) ==> url_with_query_of(base.spec_bytes(), pairs_bytes(pairs@)) == Some(
            string_bytes(u),
        ),
        r is Err <==> url_with_query_of(base.spec_bytes(), pairs_bytes(pairs@)) is None,
{
    match url::Url::parse(base) {
        Ok(mut u) => {
            u.query_pairs_mut().extend_pairs(pairs.iter().map(|p| (&p.0, &p.1))).finish();
            Ok(String::from(u))
        },
        Err(e) => Err(format!("{e}")),
    }
}

/// The query parameters that are passed through to the operator API.
pub open spec fn spec_is_auth_param(name: Seq<u8>) -> bool {
    ||| name == "authkey".spec_bytes()
    ||| name == "authkey_ver".spec_bytes()
    ||| name == "sign_type".spec_bytes()
}

/// The auth pairs of a pair sequence, order kept.
pub open spec fn spec_filter_auth(ps: Seq<(Seq<u8>, Seq<u8>)>) -> Seq<(Seq<u8>, Seq<u8>)>
    decreases ps.len(),
{
    if ps.len() == 0 {
        Seq::empty()
    } else {
        let init = spec_filter_auth(ps.drop_last());
        if spec_is_auth_param(ps.last().0) {
            init.push(ps.last())
        } else {
            init
        }
    }
}

/// Keeps exactly the `authkey`, `authkey_ver` and `sign_type` pairs,
/// in their original order.
pub fn filter_auth_params(pairs: &Vec<(String, String)>) -> (r: Vec<(String, String)>)
    ensures
        pairs_bytes(r@) == spec_filter_auth(pairs_bytes(pairs@)),
{
    let mut out: Vec<(String, String)> = Vec::new();
    let mut i: usize = 0;
    proof {
        assert(pairs_bytes(pairs@).take(0) =~= Seq::<(Seq<u8>, Seq<u8>)>::empty());
        assert(pairs_bytes(out@) =~= spec_filter_auth(pairs_bytes(pairs@).take(0)));
    }
    while i < pairs.len()
        invariant
            0 <= i <= pairs@.len(),
            pairs_bytes(out@) == spec_filter_auth(pairs_bytes(pairs@).take(i as int)),
        decreases pairs@.len() - i,
    {
        let ghost pre = pairs_bytes(pairs@).take(i as int + 1);
        proof {
            assert(pre.drop_last() =~= pairs_bytes(pairs@).take(i as int));
            assert(pre.last() == pairs_bytes(pairs@)[i as int]);
        }
        let name = &pairs[i].0;
        if str_eq(name.as_str(), "authkey") || str_eq(name.as_str(), "authkey_ver") || str_eq(
            name.as_str(),
            "sign_type",
        ) {
            out.push((pairs[i].0.clone(), pairs[i].1.clone()));
            proof {
                assert(pairs_bytes(out@) =~= spec_filter_auth(pre));
            }
        } else {
            proof {
                assert(pairs_bytes(out@) =~= spec_filter_auth(pre));
            }
        }
        i = i + 1;
    }
    proof {
        assert(pairs_bytes(pairs@).take(i as int) =~= pairs_bytes(pairs@));
    }
    out
}

/// Extracts the auth passthrough parameters from the player's pasted
/// URL: exactly its `authkey`, `authkey_ver` and `sign_type` query
/// pairs, in order; an unparseable URL is the error.
pub fn auth_params_from_url(s: &str) -> (r: Result<Vec<(String, String)>, String>)
    ensures
        r matches Ok(v) ==> url_query_of(s.spec_bytes()) matches Some(q) && pairs_bytes(v@)
            == spec_filter_auth(q),
        r is Err <==> url_query_of(s.spec_bytes()) is None,
{
    match parse_query_pairs(s) {
        Ok(pairs) => Ok(filter_auth_params(&pairs)),
        Err(m) => Err(m),
    }
}

/// The operator endpoint the import fetches from.
pub fn operator_base() -> (s: &'static str)
    ensures
        s@ == spec_operator_base(),
{
    "https://public-operation-hk4e-sg.hoyoverse.com/gacha_info/api/getGachaLog"
}

pub open spec fn spec_operator_base() -> Seq<char> {
    "https://public-operation-hk4e-sg.hoyoverse.com/gacha_info/api/getGachaLog"@
}

/// The full pair list of one page request: the auth passthrough, the
/// fixed language and page size, the category code, and the cursor.
pub open spec fn spec_page_pairs(
    auth: Seq<(Seq<u8>, Seq<u8>)>,
    g: GachaType,
    end_id: Seq<u8>,
) -> Seq<(Seq<u8>, Seq<u8>)> {
    auth + seq![
        ("lang".spec_bytes(), "en".spec_bytes()),
        ("size".spec_bytes(), "20".spec_bytes()),
        ("gacha_type".spec_bytes(), g.spec_code_str()),
        ("end_id".spec_bytes(), end_id),
    ]
}

/// Builds the URL of one page request against the operator endpoint.
pub fn page_request_url(auth: &Vec<(String, String)>, g: GachaType, end_id: &str) -> (r: Result<
    String,
    String,
>)
    ensures
        r matches Ok(u) ==> url_with_query_of(
            spec_operator_base_bytes(),
            spec_page_pairs(pairs_bytes(auth@), g, end_id.spec_bytes()),
        ) == Some(string_bytes(u)),
        r is Err <==> url_with_query_of(
            spec_operator_base_bytes(),
            spec_page_pairs(pairs_bytes(auth@), g, end_id.spec_bytes()),
        ) is None,
{
    let mut pairs: Vec<(String, String)> = Vec::new();
    let mut i: usize = 0;
    while i < auth.len()
        invariant
            0 <= i <= auth@.len(),
            pairs@.len() == i,
            forall|k: int| 0 <= k < i ==> pairs@[k] == auth@[k],
        decreases auth@.len() - i,
    {
        pairs.push((auth[i].0.clone(), auth[i].1.clone()));
        i = i + 1;
    }
    pairs.push((String::from_str("lang"), String::from_str("en")));
    pairs.push((String::from_str("size"), String::from_str("20")));
    pairs.push((String::from_str("gacha_type"), String::from_str(g.code_str())));
    pairs.push((String::from_str("end_id"), String::from_str(end_id)));
    proof {
        assert(pairs_bytes(pairs@) =~= spec_page_pairs(
            pairs_bytes(auth@),
            g,
            end_id.spec_bytes(),
        ));
    }
    url_with_query(operator_base(), &pairs)
}

/// The operator endpoint as bytes, for the contracts above.
pub open spec fn spec_operator_base_bytes() -> Seq<u8> {
    "https://public-operation-hk4e-sg.hoyoverse.com/gacha_info/api/getGachaLog".spec_bytes()
}

} // verus!
