//! Forming requests, and turning the outcome of an exchange into a result.
use vstd::prelude::*;
use crate::region::{Limit, Region, region_token, limit_token};

verus! {

/// The host every endpoint lives on.
pub open spec fn base_url() -> Seq<char> {
    "https://bereal.devin.rest"@
}

/// Path of the latest-moments endpoint.
pub open spec fn latest_path() -> Seq<char> {
    "/v1/moments/latest"@
}

/// Path of the moment-history endpoint.
pub open spec fn all_path() -> Seq<char> {
    "/v1/moments/all"@
}

/// Path of the lookup endpoint.
pub open spec fn lookup_path() -> Seq<char> {
    "/v1/moments/lookup"@
}

/// A GET request: an endpoint path on the service's host and the query
/// parameters, in order, before any encoding.
#[derive(Debug, Clone)]
pub struct Request {
    pub path: String,
    pub query: Vec<(String, String)>,
}

impl Request {
    /// The query parameters as name and value sequences.
    pub open spec fn params(&self) -> Seq<(Seq<char>, Seq<char>)> {
        self.query.deep_view()
    }

    /// The full address of the endpoint, without the query.
    pub fn url(&self) -> (r: String)
        ensures
            r@ == base_url() + self.path@,
    {
        String::from_str("https://bereal.devin.rest").concat(self.path.as_str())
    }
}

/// Holds the API key; every request carries it as the `api_key` parameter.
pub struct BerealClient {
    api_key: String,
}

impl BerealClient {
    /// The key this client sends.
    pub closed spec fn key(&self) -> Seq<char> {
        self.api_key@
    }

    pub fn new(api_key: &str) -> (r: BerealClient)
        ensures
            r.key() == api_key@,
    {
        BerealClient { api_key: String::from_str(api_key) }
    }

    /// A request for `path` whose query is the key followed by `params`.
    fn request(&self, path: &str, params: Vec<(String, String)>) -> (r: Request)
        ensures
            r.path@ == path@,
            r.params() == seq![("api_key"@, self.key())] + params.deep_view(),
    {
        let mut query: Vec<(String, String)> = Vec::new();
        query.push((String::from_str("api_key"), self.api_key.clone()));
        let mut rest = params;
        query.append(&mut rest);
        let r = Request { path: String::from_str(path), query };
        assert(r.params() =~= seq![("api_key"@, self.key())] + params.deep_view());
        r
    }

    /// The request for the latest moment of every region.
    pub fn latest_moments_request(&self) -> (r: Request)
        ensures
            r.path@ == latest_path(),
            r.params() == seq![("api_key"@, self.key())],
    {
        let r = self.request("/v1/moments/latest", Vec::new());
        assert(r.params() =~= seq![("api_key"@, self.key())]);
        r
    }

    /// The request for past moments of every region, at most as many as
    /// `limit` asks for, as the server applies it.
    pub fn all_moments_request(&self, limit: &Limit) -> (r: Request)
        ensures
            r.path@ == all_path(),
            r.params() == seq![("api_key"@, self.key()), ("limit"@, limit_token(*limit))],
    {
        let mut params: Vec<(String, String)> = Vec::new();
        params.push((String::from_str("limit"), limit.to_param()));
        let r = self.request("/v1/moments/all", params);
        assert(r.params() =~= seq![("api_key"@, self.key()), ("limit"@, limit_token(*limit))]);
        r
    }

    /// The request for the moment of `region` that was active at `date` in
    /// `time_zone`. Both strings are sent as given; the server judges them.
    pub fn lookup_request(&self, time_zone: &str, date: &str, region: &Region) -> (r: Request)
        ensures
            r.path@ == lookup_path(),
            r.params() == seq![
                ("api_key"@, self.key()),
                ("time_zone"@, time_zone@),
                ("date"@, date@),
                ("region"@, region_token(*region)),
            ],
    {
        let mut params: Vec<(String, String)> = Vec::new();
        params.push((String::from_str("time_zone"), String::from_str(time_zone)));
        params.push((String::from_str("date"), String::from_str(date)));
        params.push((String::from_str("region"), region.to_string()));
        let r = self.request("/v1/moments/lookup", params);
        assert(r.params() =~= seq![
            ("api_key"@, self.key()),
            ("time_zone"@, time_zone@),
            ("date"@, date@),
            ("region"@, region_token(*region)),
        ]);
        r
    }
}

/// Why a call produced no result.
#[derive(Debug, Clone, Copy, PartialEq, Eq, Structural)]
pub enum ClientError {
    /// The server could not be reached, or the exchange broke off.
    Transport,
    /// The server answered with a status outside 200..=299.
    Status(u16),
    /// The server answered with success, but its body did not have the
    /// expected shape.
    Decode,
}

/// What came back from sending one request: nothing, or a status with the
/// body read into the expected record where it had that record's shape.
#[derive(Debug, Clone)]
pub enum Exchange<T> {
    Unreachable,
    Answered { status: u16, body: Option<T> },
}

/// A status in the success range.
pub open spec fn is_success(status: u16) -> bool {
    200 <= status <= 299
}

/// The result a call gives for an exchange: the record exactly as decoded,
/// or the failure that the exchange shows.
pub open spec fn settled<T>(e: Exchange<T>) -> Result<T, ClientError> {
    match e {
        Exchange::Unreachable => Err(ClientError::Transport),
        Exchange::Answered { status, body } => {
            if !is_success(status) {
                Err(ClientError::Status(status))
            } else {
                match body {
                    Some(v) => Ok(v),
                    None => Err(ClientError::Decode),
                }
            }
        },
    }
}

/// The result of a call, given what came back from sending its request.
pub fn settle<T>(e: Exchange<T>) -> (r: Result<T, ClientError>)
    ensures
        r == settled(e),
{
    match e {
        Exchange::Unreachable => Err(ClientError::Transport),
        Exchange::Answered { status, body } => {
            if status < 200 || status > 299 {
                Err(ClientError::Status(status))
            } else {
                match body {
                    Some(v) => Ok(v),
                    None => Err(ClientError::Decode),
                }
            }
        },
    }
}

/// A broken exchange, an error status or an unreadable body each give a
/// failure and never a record; a readable body with a success status gives
/// that record unchanged, and nothing else does.
pub proof fn lemma_failures_yield_no_record<T>(e: Exchange<T>)
    ensures
        settled(e) is Ok <==> (e is Answered && is_success(e->status) && e->body is Some),
        settled(e) is Ok ==> e->body == Some(settled(e)->Ok_0),
        e is Unreachable ==> settled(e) == Err::<T, ClientError>(ClientError::Transport),
        e is Answered && !is_success(e->status) ==> settled(e) == Err::<T, ClientError>(
            ClientError::Status(e->status),
        ),
        e is Answered && is_success(e->status) && e->body is None ==> settled(e) == Err::<
            T,
            ClientError,
        >(ClientError::Decode),
{
}

} // verus!
