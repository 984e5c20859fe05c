//! The two ends of a lookup that are text: the keyword as it arrives in the
//! request's address, and the request that goes to the upstream.
//!
//! Addresses are taken apart and put together by the `url` crate. What it
//! returns is named here, not described: the contracts say which of its
//! results the library uses, and how.

use vstd::prelude::*;
use vstd::string::*;

verus! {

/// The address of the upstream's keyword search.
pub const UPSTREAM_ENDPOINT: &'static str = "https://dapi.kakao.com/v2/local/search/keyword.json";

/// The query parameter of an incoming request that carries the keyword.
pub const KEYWORD_PARAM: &'static str = "keyword";

/// The longest base address that [`with_query`] is given.
pub const MAX_BASE_LEN: usize = 2048;

/// The name and value pairs of the query of the address `url`, decoded, in
/// the order in which they stand there; `None` where `url` is no absolute
/// address.
pub uninterp spec fn url_query_pairs(url: Seq<char>) -> Option<Seq<(Seq<char>, Seq<char>)>>;

/// The address `base` with its query replaced by `query`, written out;
/// `None` where `base` is no absolute address.
pub uninterp spec fn url_with_query(base: Seq<char>, query: Seq<char>) -> Option<Seq<char>>;

/// The pairs of a list of owned pairs, as sequences of characters.
pub open spec fn pairs_view(pairs: Vec<(String, String)>) -> Seq<(Seq<char>, Seq<char>)> {
    Seq::new(pairs@.len(), |i: int| (pairs@[i].0@, pairs@[i].1@))
}

/// The view of a list of pairs that may be missing.
pub open spec fn optional_pairs_view(pairs: Option<Vec<(String, String)>>) -> Option<
    Seq<(Seq<char>, Seq<char>)>,
> {
    match pairs {
        Some(pairs) => Some(pairs_view(pairs)),
        None => None,
    }
}

/// The view of a string that may be missing.
pub open spec fn optional_text(text: Option<String>) -> Option<Seq<char>> {
    match text {
        Some(text) => Some(text@),
        None => None,
    }
}

/// Calls `url::Url::parse` on `url` and, where that succeeds,
/// `Url::query_pairs` on the result, collecting the pairs it yields as owned
/// strings. The contract claims only that the outcome is a function of the
/// text of `url`: it is what [`url_query_pairs`] names.
#[verifier::external_body]
fn query_pairs(url: &str) -> (pairs: Option<Vec<(String, String)>>)
    ensures
        optional_pairs_view(pairs) == url_query_pairs(url@),
{
    match url::Url::parse(url) {
        Ok(parsed) => Some(parsed.query_pairs().into_owned().collect()),
        Err(_) => None,
    }
}

/// Calls `url::Url::parse` on `base` and, where that succeeds,
/// `Url::set_query` with `query` and `Url::as_str` on the result. The
/// contract claims only that the outcome is a function of the two texts: it
/// is what [`url_with_query`] names. `set_query` records offsets in 32 bits
/// and panics where one does not fit: a short base without a fragment keeps
/// every offset it records small, however long `query` is.
#[verifier::external_body]
fn with_query(base: &str, query: &str) -> (url: Option<String>)
    requires
        base@.len() <= MAX_BASE_LEN,
        !base@.contains('#'),
    ensures
        optional_text(url) == url_with_query(base@, query@),
{
    match url::Url::parse(base) {
        Ok(mut parsed) => {
            parsed.set_query(Some(query));
            Some(parsed.as_str().to_owned())
        },
        Err(_) => None,
    }
}

/// The value of the first pair named `name`, and the empty text where no
/// pair has that name.
pub open spec fn first_value(pairs: Seq<(Seq<char>, Seq<char>)>, name: Seq<char>) -> Seq<char>
    decreases pairs.len(),
{
    if pairs.len() == 0 {
        Seq::empty()
    } else if pairs[0].0 == name {
        pairs[0].1
    } else {
        first_value(pairs.drop_first(), name)
    }
}

/// The keyword among the query pairs of a request: the value of the first
/// pair named `keyword`, as it is, and the empty keyword where there is none.
pub fn keyword_from_pairs(pairs: &Vec<(String, String)>) -> (keyword: String)
    ensures
        keyword@ == first_value(pairs_view(*pairs), KEYWORD_PARAM@),
{
    let name = KEYWORD_PARAM.to_owned();
    let ghost all = pairs_view(*pairs);
    let mut i: usize = 0;
    assert(all.skip(0) =~= all);
    while i < pairs.len()
        invariant
            i <= pairs@.len(),
            all == pairs_view(*pairs),
            name@ == KEYWORD_PARAM@,
            first_value(all, name@) == first_value(all.skip(i as int), name@),
        decreases pairs@.len() - i,
    {
        let ghost rest = all.skip(i as int);
        assert(rest[0] == all[i as int]);
        assert(rest.drop_first() =~= all.skip(i + 1));
        if pairs[i].0 == name {
            return pairs[i].1.clone();
        }
        i += 1;
    }
    String::new()
}

/// The keyword that the request at the address `url` asks for, or `None`
/// where `url` is no absolute address. A request without the parameter asks
/// for the empty keyword.
pub fn request_keyword(url: &str) -> (keyword: Option<String>)
    ensures
        optional_text(keyword) == match url_query_pairs(url@) {
            Some(pairs) => Some(first_value(pairs, KEYWORD_PARAM@)),
            None => None,
        },
{
    match query_pairs(url) {
        Some(pairs) => Some(keyword_from_pairs(&pairs)),
        None => None,
    }
}

/// The query that asks the upstream for `keyword`.
pub open spec fn query_text(keyword: Seq<char>) -> Seq<char> {
    "query="@ + keyword
}

/// The `Authorization` header that presents `api_key` to the upstream.
pub open spec fn authorization_text(api_key: Seq<char>) -> Seq<char> {
    "KakaoAK "@ + api_key
}

/// The request to send upstream: a `POST` to `url` with this
/// `Authorization` header.
#[derive(Debug, PartialEq, Eq)]
pub struct UpstreamRequest {
    pub url: String,
    pub authorization: String,
}

/// The view of an [`UpstreamRequest`].
pub ghost struct UpstreamRequestView {
    pub url: Seq<char>,
    pub authorization: Seq<char>,
}

impl View for UpstreamRequest {
    type V = UpstreamRequestView;

    open spec fn view(&self) -> UpstreamRequestView {
        UpstreamRequestView { url: self.url@, authorization: self.authorization@ }
    }
}

/// The view of a request that may be missing.
pub open spec fn optional_request(request: Option<UpstreamRequest>) -> Option<UpstreamRequestView> {
    match request {
        Some(request) => Some(request@),
        None => None,
    }
}

impl UpstreamRequest {
    /// The request to `url` that presents `api_key`.
    pub fn to(url: String, api_key: &str) -> (request: UpstreamRequest)
        ensures
            request@ == (UpstreamRequestView {
                url: url@,
                authorization: authorization_text(api_key@),
            }),
    {
        let mut authorization = "KakaoAK ".to_owned();
        authorization.append(api_key);
        UpstreamRequest { url, authorization }
    }
}

/// The query that asks the upstream for `keyword`: the keyword follows
/// `query=` as it is.
pub fn upstream_query(keyword: &str) -> (query: String)
    ensures
        query@ == query_text(keyword@),
{
    let mut query = "query=".to_owned();
    query.append(keyword);
    query
}

/// The request that asks the upstream for `keyword` with `api_key`: the
/// endpoint with the keyword as its query, as the `url` crate writes it out.
pub fn upstream_request(keyword: &str, api_key: &str) -> (request: Option<UpstreamRequest>)
    ensures
        optional_request(request) == match url_with_query(
            UPSTREAM_ENDPOINT@,
            query_text(keyword@),
        ) {
            Some(url) => Some(
                UpstreamRequestView { url, authorization: authorization_text(api_key@) },
            ),
            None => None,
        },
{
    let query = upstream_query(keyword);
    proof {
        reveal_strlit("https://dapi.kakao.com/v2/local/search/keyword.json");
    }
    match with_query(UPSTREAM_ENDPOINT, query.as_str()) {
        Some(url) => Some(UpstreamRequest::to(url, api_key)),
        None => None,
    }
}

} // verus!
