use vstd::prelude::*;
use crate::config::Config;
use crate::serverless::ServerlessClient;
use crate::stateful::StatefulClient;

verus! {

/// What can stop an operation before or after the request is sent: unusable
/// configuration, caller input of the wrong shape, error statuses, bodies of
/// the wrong shape, and a project whose endpoints never appear.
#[derive(Clone, Debug, PartialEq, Eq)]
pub enum EssError {
    /// The authorization header built from the API key holds a character
    /// that no header value may hold.
    InvalidHeaderValue,
    /// `relative` could not be resolved against `base` as a URL.
    InvalidUrl { base: String, relative: String },
    /// A caller-supplied ID does not have the shape of an ID.
    InvalidId { id: String },
    /// Neither the command line nor the configuration names a region.
    MissingRegion,
    /// The server answered with a client or server error status.
    Http { status: u16 },
    /// The response body does not have the expected shape.
    Schema { message: String },
    /// A created project did not get its endpoints within the refetch bound.
    PollTimeout { refetches: u64 },
}

/// A one-line summary of a record, used by the compact output format.
pub trait ResultFormatting {
    /// The summary text.
    spec fn compact_view(&self) -> Seq<char>;

    fn compact(&self) -> (r: String)
        ensures
            r@ == self.compact_view(),
    ;
}

/// The HTTP verbs the API is driven with.
#[derive(Clone, Copy, Debug, PartialEq, Eq, Structural)]
pub enum HttpMethod {
    Get,
    Post,
    Delete,
}

/// A request ready to be sent: the verb, the absolute URL, the headers and
/// the body.
#[derive(Clone, Debug)]
pub struct HttpRequest {
    pub method: HttpMethod,
    pub url: String,
    pub headers: Vec<(String, String)>,
    pub body: Option<String>,
}

/// A list of headers as pairs of texts.
pub open spec fn headers_view(h: Seq<(String, String)>) -> Seq<(Seq<char>, Seq<char>)> {
    h.map_values(|p: (String, String)| (p.0@, p.1@))
}

/// The text of an optional string.
pub open spec fn opt_view(s: Option<String>) -> Option<Seq<char>> {
    match s {
        Some(v) => Some(v@),
        None => None,
    }
}

/// The value of the authorization header for an API key.
pub open spec fn auth_value(key: Seq<char>) -> Seq<char> {
    "ApiKey "@ + key
}

/// The fixed header set sent with every request.
pub open spec fn auth_headers(key: Seq<char>) -> Seq<(Seq<char>, Seq<char>)> {
    seq![("Content-Type"@, "application/json"@), ("Authorization"@, auth_value(key))]
}

/// A character that a header value may hold: a tab or a printable ASCII
/// character.
pub open spec fn is_header_char(c: char) -> bool {
    c == '\t' || (' ' <= c && c <= '~')
}

/// A text that can stand as a header value.
pub open spec fn is_header_value(s: Seq<char>) -> bool {
    forall|i: int| 0 <= i < s.len() ==> is_header_char(#[trigger] s[i])
}

/// Whether every character of `s` may stand in a header value.
pub fn check_header_value(s: &str) -> (r: bool)
    ensures
        r == is_header_value(s@),
{
    let n = s.unicode_len();
    let mut i: usize = 0;
    while i < n
        invariant
            n == s@.len(),
            i <= n,
            forall|j: int| 0 <= j < i ==> is_header_char(#[trigger] s@[j]),
        decreases n - i,
    {
        let c = s.get_char(i);
        if !(c == '\t' || (' ' <= c && c <= '~')) {
            return false;
        }
        i = i + 1;
    }
    true
}

/// What resolving `relative` against the absolute URL `base` gives, or
/// `None` where `base` is no URL or the result is none.
pub uninterp spec fn url_join(base: Seq<char>, relative: Seq<char>) -> Option<Seq<char>>;

/// A URL parse error of the url crate.
#[verifier::external_type_specification]
#[verifier::external_body]
pub struct ExUrlParseError(url::ParseError);

/// Relies on url::Url::parse, which reads `base` as an absolute URL, and on
/// url::Url::join, which resolves `relative` against it (standard URL-join
/// rules: a relative path replaces the last path segment, scheme and host
/// are kept). Both depend on the two texts alone.
#[verifier::external_body]
fn join_url(base: &str, relative: &str) -> (r: Result<String, url::ParseError>)
    ensures
        match r {
            Ok(u) => url_join(base@, relative@) == Some(u@),
            Err(_) => url_join(base@, relative@) is None,
        },
{
    let joined = url::Url::parse(base)?.join(relative)?;
    Ok(String::from(joined))
}

/// The pattern an ID matches.
pub const ID_PATTERN: &'static str = "^[a-z0-9-]{32,36}$";

/// A character that may appear in an ID.
pub open spec fn is_id_char(c: char) -> bool {
    ('a' <= c && c <= 'z') || ('0' <= c && c <= '9') || c == '-'
}

/// The shape of an ID: 32 to 36 characters, each a lowercase ASCII letter,
/// an ASCII digit or `-`.
pub open spec fn is_valid_id(s: Seq<char>) -> bool {
    &&& 32 <= s.len() <= 36
    &&& forall|i: int| 0 <= i < s.len() ==> is_id_char(#[trigger] s[i])
}

/// Relies on regex::Regex::new and regex::Regex::is_match: `^[a-z0-9-]{32,36}$`
/// compiles, and, anchored at both ends, matches exactly the texts of 32 to 36
/// characters that are each in `a`..=`z`, `0`..=`9` or `-`.
#[verifier::external_body]
fn matches_id_pattern(pattern: &str, text: &str) -> (r: bool)
    requires
        pattern@ == ID_PATTERN@,
    ensures
        r == is_valid_id(text@),
{
    match regex::Regex::new(pattern) {
        Ok(re) => re.is_match(text),
        Err(_) => false,
    }
}

/// Checks that a user-supplied ID has the shape of an ID, to catch a name
/// passed where an ID was meant before any request is made.
pub fn check_id(id: &str) -> (r: Result<(), EssError>)
    ensures
        r is Ok <==> is_valid_id(id@),
        r is Err ==> (r matches Err(EssError::InvalidId { id: bad }) && bad@ == id@),
{
    if matches_id_pattern(ID_PATTERN, id) {
        Ok(())
    } else {
        Err(EssError::InvalidId { id: id.to_owned() })
    }
}

/// Whether an HTTP status is a client or a server error.
pub open spec fn is_error_status(status: u16) -> bool {
    400 <= status <= 599
}

/// Checks the status of a response: a client or server error status becomes
/// an `Http` error and the body is dropped; any other status hands the body
/// back unchanged.
pub fn check_response(status: u16, body: String) -> (r: Result<String, EssError>)
    ensures
        is_error_status(status) ==> r == Err::<String, EssError>(EssError::Http { status }),
        !is_error_status(status) ==> r == Ok::<String, EssError>(body),
{
    if 400 <= status && status <= 599 {
        Err(EssError::Http { status })
    } else {
        Ok(body)
    }
}

/// The authenticated handle every mode client sends through: the
/// configuration it was built from and the fixed header set.
pub struct ESSClient {
    authorization: String,
    endpoints: Config,
}

impl ESSClient {
    /// The headers sent with every request.
    pub closed spec fn headers(self) -> Seq<(Seq<char>, Seq<char>)> {
        seq![("Content-Type"@, "application/json"@), ("Authorization"@, self.authorization@)]
    }

    /// The configuration the handle was built from.
    pub closed spec fn endpoints(self) -> Config {
        self.endpoints
    }

    /// Builds a handle from a configuration and the API key. Fails when the
    /// authorization header `ApiKey <key>` would not be a valid header value.
    pub fn new(endpoint: Config, key: &str) -> (r: Result<ESSClient, EssError>)
        ensures
            r is Ok <==> is_header_value(auth_value(key@)),
            r is Err ==> r == Err::<ESSClient, EssError>(EssError::InvalidHeaderValue),
            r matches Ok(c) ==> c.headers() == auth_headers(key@) && c.endpoints() == endpoint,
    {
        let mut authorization = String::from_str("ApiKey ");
        authorization.append(key);
        if check_header_value(authorization.as_str()) {
            Ok(ESSClient { authorization, endpoints: endpoint })
        } else {
            Err(EssError::InvalidHeaderValue)
        }
    }

    /// The configuration the handle was built from.
    pub fn config(&self) -> (r: &Config)
        ensures
            *r == self.endpoints(),
    {
        &self.endpoints
    }

    /// The serverless client: the resolved serverless endpoint's base path
    /// joined onto its URL, and the configured project.
    pub fn serverless(&self) -> (r: Result<ServerlessClient<'_>, EssError>)
        ensures
            ({
                let cfg = self.endpoints().serverless_endpoint();
                match url_join(cfg.url@, cfg.base_path@) {
                    Some(u) => r matches Ok(c) && c.base_url@ == u && c.project == self.endpoints().config.project
                        && *c.client == *self,
                    None => r matches Err(EssError::InvalidUrl { base: b, relative: rel }) && b@ == cfg.url@
                        && rel@ == cfg.base_path@,
                }
            }),
    {
        let cfg = self.endpoints.resolve_serverless();
        match join_url(cfg.url.as_str(), cfg.base_path.as_str()) {
            Ok(base_url) => Ok(
                ServerlessClient { project: self.endpoints.config.project.clone(), client: self, base_url },
            ),
            Err(_) => Err(EssError::InvalidUrl { base: cfg.url, relative: cfg.base_path }),
        }
    }

    /// The stateful client: the resolved stateful endpoint's base path joined
    /// onto its URL.
    pub fn stateful(&self) -> (r: Result<StatefulClient<'_>, EssError>)
        ensures
            ({
                let cfg = self.endpoints().stateful_endpoint();
                match url_join(cfg.url@, cfg.base_path@) {
                    Some(u) => r matches Ok(c) && c.base_url@ == u && *c.client == *self,
                    None => r matches Err(EssError::InvalidUrl { base: b, relative: rel }) && b@ == cfg.url@
                        && rel@ == cfg.base_path@,
                }
            }),
    {
        let cfg = self.endpoints.resolve_stateful();
        match join_url(cfg.url.as_str(), cfg.base_path.as_str()) {
            Ok(base_url) => Ok(StatefulClient { client: self, base_url }),
            Err(_) => Err(EssError::InvalidUrl { base: cfg.url, relative: cfg.base_path }),
        }
    }

    /// The fixed header set, as pairs of name and value.
    pub fn header_pairs(&self) -> (r: Vec<(String, String)>)
        ensures
            headers_view(r@) == self.headers(),
    {
        let mut r: Vec<(String, String)> = Vec::new();
        r.push((String::from_str("Content-Type"), String::from_str("application/json")));
        r.push((String::from_str("Authorization"), self.authorization.clone()));
        assert(headers_view(r@) =~= self.headers());
        r
    }

    /// Whether `r` is the request of verb `method` for `relative` under
    /// `base` with `body`, sent with this handle's headers, or the error
    /// that `relative` cannot be resolved against `base`.
    pub open spec fn is_request_for(
        self,
        r: Result<HttpRequest, EssError>,
        method: HttpMethod,
        base: Seq<char>,
        relative: Seq<char>,
        body: Option<Seq<char>>,
    ) -> bool {
        match url_join(base, relative) {
            Some(u) => match r {
                Ok(req) => {
                    &&& req.method == method
                    &&& req.url@ == u
                    &&& headers_view(req.headers@) == self.headers()
                    &&& opt_view(req.body) == body
                },
                Err(_) => false,
            },
            None => match r {
                Ok(_) => false,
                Err(e) => match e {
                    EssError::InvalidUrl { base: b, relative: rel } => b@ == base && rel@ == relative,
                    _ => false,
                },
            },
        }
    }

    fn request(&self, method: HttpMethod, endpoint: &str, relative_url: &str, body: Option<String>) -> (r: Result<
        HttpRequest,
        EssError,
    >)
        ensures
            self.is_request_for(r, method, endpoint@, relative_url@, opt_view(body)),
    {
        match join_url(endpoint, relative_url) {
            Ok(url) => Ok(HttpRequest { method, url, headers: self.header_pairs(), body }),
            Err(_) => Err(
                EssError::InvalidUrl { base: endpoint.to_owned(), relative: relative_url.to_owned() },
            ),
        }
    }

    /// The GET request for `relative_url` under `endpoint`.
    pub fn get(&self, endpoint: &str, relative_url: &str) -> (r: Result<HttpRequest, EssError>)
        ensures
            self.is_request_for(r, HttpMethod::Get, endpoint@, relative_url@, None),
    {
        self.request(HttpMethod::Get, endpoint, relative_url, None)
    }

    /// The POST request for `relative_url` under `endpoint`, with `body` if
    /// one is given.
    pub fn post(&self, endpoint: &str, relative_url: &str, body: Option<String>) -> (r: Result<
        HttpRequest,
        EssError,
    >)
        ensures
            self.is_request_for(r, HttpMethod::Post, endpoint@, relative_url@, opt_view(body)),
    {
        self.request(HttpMethod::Post, endpoint, relative_url, body)
    }

    /// The DELETE request for `relative_url` under `endpoint`.
    pub fn delete(&self, endpoint: &str, relative_url: &str) -> (r: Result<HttpRequest, EssError>)
        ensures
            self.is_request_for(r, HttpMethod::Delete, endpoint@, relative_url@, None),
    {
        self.request(HttpMethod::Delete, endpoint, relative_url, None)
    }
}

} // verus!
