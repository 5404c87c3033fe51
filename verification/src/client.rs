//! The connection to one Redmine instance and the five operations on it.

use crate::errors::{bad_url, missing_location, unparsable, Error, ErrorView};
use crate::json::{json_parsed, json_rendered, Json, JsonModel, RENDER_DEPTH};
use crate::text::{concat_str, decimal, decimal_string};
use vstd::prelude::*;
use vstd::string::StringSliceAdditionalSpecFns;

verus! {

/// The HTTP method of a request.
#[derive(Clone, Copy, Debug, PartialEq, Eq, Structural)]
pub enum Method {
    Get,
    Post,
    Put,
    Delete,
}

/// Whether a write builder creates a resource or updates one.
#[derive(Clone, Copy, Debug, PartialEq, Eq, Structural)]
pub enum BuilderKind {
    Create,
    Update,
}

impl BuilderKind {
    /// The method of the request that a write of this kind sends.
    pub open spec fn method(self) -> Method {
        match self {
            BuilderKind::Create => Method::Post,
            BuilderKind::Update => Method::Put,
        }
    }

    /// What a write of this kind returns for each end of the round trip.
    pub open spec fn result(self, reply: Result<ResponseView, Seq<char>>) -> Result<
        Seq<char>,
        ErrorView,
    > {
        match self {
            BuilderKind::Create => create_result(reply),
            BuilderKind::Update => update_result(reply),
        }
    }
}

/// One request, ready to be sent: the method, the absolute URL with its query
/// string, and the JSON body where there is one.
#[derive(Debug)]
pub struct Request {
    pub method: Method,
    pub url: String,
    pub body: Option<String>,
}

/// A [`Request`] as plain data.
pub struct RequestView {
    pub method: Method,
    pub url: Seq<char>,
    pub body: Option<Seq<char>>,
}

impl View for Request {
    type V = RequestView;

    open spec fn view(&self) -> RequestView {
        RequestView {
            method: self.method,
            url: self.url@,
            body: option_view(self.body),
        }
    }
}

/// What came back for a request: the status code, the `Location` header where
/// the response has one, and the body as text.
#[derive(Debug)]
pub struct Response {
    pub status: u16,
    pub location: Option<String>,
    pub body: String,
}

/// A [`Response`] as plain data.
pub struct ResponseView {
    pub status: u16,
    pub location: Option<Seq<char>>,
    pub body: Seq<char>,
}

impl View for Response {
    type V = ResponseView;

    open spec fn view(&self) -> ResponseView {
        ResponseView {
            status: self.status,
            location: option_view(self.location),
            body: self.body@,
        }
    }
}

impl ResponseView {
    /// Whether the status is one of 200..=299.
    pub open spec fn is_success(self) -> bool {
        200 <= self.status <= 299
    }
}

impl Response {
    /// Whether the status is one of 200..=299.
    pub fn is_success(&self) -> (r: bool)
        ensures
            r == self@.is_success(),
    {
        200 <= self.status && self.status <= 299
    }
}

/// The query pairs of a request as plain data.
pub open spec fn pairs_view(params: Seq<(String, String)>) -> Seq<(Seq<char>, Seq<char>)> {
    Seq::new(params.len(), |i: int| (params[i].0@, params[i].1@))
}

/// `params`, followed by `key` with the decimal numeral of an identifier
/// where there is one.
pub open spec fn with_param(
    params: Seq<(Seq<char>, Seq<char>)>,
    key: Seq<char>,
    value: Option<u32>,
) -> Seq<(Seq<char>, Seq<char>)> {
    match value {
        Some(id) => params.push((key, decimal(id as nat))),
        None => params,
    }
}

/// The value of the first pair under `key`, or `None` where there is none.
pub open spec fn param(params: Seq<(Seq<char>, Seq<char>)>, key: Seq<char>) -> Option<Seq<char>>
    decreases params.len(),
{
    if params.len() == 0 {
        None
    } else if params.first().0 == key {
        Some(params.first().1)
    } else {
        param(params.drop_first(), key)
    }
}

/// What a lookup finds after a pair was appended where there was one to
/// append: the value that was found before, else the new one under its key.
pub open spec fn param_after(
    before: Option<Seq<char>>,
    key: Seq<char>,
    added_key: Seq<char>,
    added: Option<Seq<char>>,
) -> Option<Seq<char>> {
    if before is Some {
        before
    } else if key == added_key {
        added
    } else {
        None
    }
}

/// The value that a constraint contributes: the decimal numeral of the
/// identifier, none where the constraint is not set.
pub open spec fn id_param(value: Option<u32>) -> Option<Seq<char>> {
    match value {
        Some(id) => Some(decimal(id as nat)),
        None => None,
    }
}

/// A lookup in a list with one more pair at its end finds what it found
/// before, else the new value where the key is its key.
pub proof fn lemma_param_push(
    params: Seq<(Seq<char>, Seq<char>)>,
    added_key: Seq<char>,
    added: Seq<char>,
    key: Seq<char>,
)
    ensures
        param(params.push((added_key, added)), key) == param_after(
            param(params, key),
            key,
            added_key,
            Some(added),
        ),
    decreases params.len(),
{
    let longer = params.push((added_key, added));
    if params.len() == 0 {
        assert(longer.first() == (added_key, added));
        assert(longer.drop_first() =~= Seq::empty());
        assert(param(longer.drop_first(), key) is None);
    } else {
        assert(longer.first() == params.first());
        assert(longer.drop_first() =~= params.drop_first().push((added_key, added)));
        lemma_param_push(params.drop_first(), added_key, added, key);
    }
}

/// A lookup after a constraint was appended where it was set.
pub proof fn lemma_with_param(
    params: Seq<(Seq<char>, Seq<char>)>,
    name: Seq<char>,
    value: Option<u32>,
)
    ensures
        forall|key: Seq<char>| #[trigger]
            param(with_param(params, name, value), key) == param_after(
                param(params, key),
                key,
                name,
                id_param(value),
            ),
{
    assert forall|key: Seq<char>| #[trigger]
        param(with_param(params, name, value), key) == param_after(
            param(params, key),
            key,
            name,
            id_param(value),
        ) by {
        if value is Some {
            lemma_param_push(params, name, id_param(value)->0, key);
        }
    }
}

/// Appends `key` with the decimal numeral of an identifier where there is one.
pub fn push_param(params: &mut Vec<(String, String)>, key: &str, value: Option<u32>)
    ensures
        pairs_view(final(params)@) == with_param(pairs_view(old(params)@), key@, value),
{
    if let Some(id) = value {
        params.push((String::from_str(key), decimal_string(id as u64)));
    }
    assert(pairs_view(params@) =~= with_param(pairs_view(old(params)@), key@, value));
}

/// The value that a body stands for: a parse error where the body is not
/// well-formed JSON; a failure of the operation stays as it is.
pub open spec fn parsed_body(fetched: Result<Seq<char>, ErrorView>) -> Result<
    JsonModel,
    ErrorView,
> {
    match fetched {
        Ok(body) => match json_parsed(body) {
            Some(j) => Ok(j),
            None => Err(ErrorView::Parse(unparsable())),
        },
        Err(e) => Err(e),
    }
}

/// Parses the body of a response.
pub fn parse_body(body: &str) -> (r: Result<Json, Error>)
    ensures
        match parsed_body(Ok(body@)) {
            Ok(j) => r matches Ok(got) && got@ == j,
            Err(e) => r matches Err(got) && got@ == e,
        },
{
    match Json::parse(body) {
        Some(j) => Ok(j),
        None => Err(Error::parse()),
    }
}

/// The size of an address and its query pairs before encoding: the bytes of
/// the address, and for each pair the bytes of its key and value and two more.
pub open spec fn url_weight(address: Seq<char>, params: Seq<(Seq<char>, Seq<char>)>) -> nat
    decreases params.len(),
{
    if params.len() == 0 {
        vstd::utf8::encode_utf8(address).len()
    } else {
        url_weight(address, params.drop_last()) + vstd::utf8::encode_utf8(params.last().0).len()
            + vstd::utf8::encode_utf8(params.last().1).len() + 2
    }
}

/// The largest weight for which a URL is composed.
pub const URL_BUDGET: usize = 0x0fff_ffff;

/// What `Url::parse_with_params` makes of an address and query pairs:
/// the serialization of the URL, or `None` where the address does not parse.
pub uninterp spec fn url_with_params(
    address: Seq<char>,
    params: Seq<(Seq<char>, Seq<char>)>,
) -> Option<Seq<char>>;

/// Calls `Url::parse_with_params`, which parses the address as an absolute URL
/// and appends each pair to its query string, form-urlencoded; the URL is
/// handed back as its serialization. The result is the named outcome of that
/// call: `None` exactly where the address does not parse. The URL keeps
/// 32-bit offsets into its serialization and the call panics where one does
/// not fit; the weight is bounded so that the serialization, a few times as
/// long at most, stays far below that.
#[verifier::external_body]
fn compose_url(address: &str, params: &Vec<(String, String)>) -> (r: Option<String>)
    requires
        url_weight(address@, pairs_view(params@)) <= URL_BUDGET,
    ensures
        r is Some == url_with_params(address@, pairs_view(params@)) is Some,
        r matches Some(u) ==> url_with_params(address@, pairs_view(params@)) == Some(u@),
{
    reqwest::Url::parse_with_params(address, params).ok().map(String::from)
}

/// Whether the weight of an address and its pairs is within [`URL_BUDGET`].
fn within_budget(address: &str, params: &Vec<(String, String)>) -> (r: bool)
    ensures
        r == (url_weight(address@, pairs_view(params@)) <= URL_BUDGET),
{
    let mut total: usize = address.as_bytes().len();
    if total > URL_BUDGET {
        proof {
            lemma_weight_grows(address@, pairs_view(params@), 0);
        }
        return false;
    }
    let mut i: usize = 0;
    assert(pairs_view(params@).take(0).len() == 0);
    while i < params.len()
        invariant
            i <= params@.len(),
            total == url_weight(address@, pairs_view(params@).take(i as int)),
            total <= URL_BUDGET,
        decreases params@.len() - i,
    {
        let k = params[i].0.as_str().as_bytes().len();
        let v = params[i].1.as_str().as_bytes().len();
        proof {
            let all = pairs_view(params@);
            assert(all.take(i + 1).drop_last() =~= all.take(i as int));
            assert(all.take(i + 1).last() == all[i as int]);
            assert(all[i as int] == (params@[i as int].0@, params@[i as int].1@));
            assert(url_weight(address@, all.take(i + 1)) == total + k + v + 2);
            lemma_weight_grows(address@, all, i + 1);
        }
        if k > URL_BUDGET || v > URL_BUDGET || total + k + v + 2 > URL_BUDGET {
            return false;
        }
        total = total + k + v + 2;
        i += 1;
    }
    proof {
        let all = pairs_view(params@);
        assert(all.take(i as int) =~= all);
    }
    true
}

/// The weight of a prefix of the pairs is at most that of all of them.
proof fn lemma_weight_grows(address: Seq<char>, params: Seq<(Seq<char>, Seq<char>)>, n: int)
    requires
        0 <= n <= params.len(),
    ensures
        url_weight(address, params.take(n)) <= url_weight(address, params),
    decreases params.len(),
{
    if n == params.len() {
        assert(params.take(n) =~= params);
    } else {
        assert(params.drop_last().take(n) =~= params.take(n));
        lemma_weight_grows(address, params.drop_last(), n);
    }
}

/// An optional text as plain data.
pub open spec fn option_view(text: Option<String>) -> Option<Seq<char>> {
    match text {
        Some(t) => Some(t@),
        None => None,
    }
}

/// What a transport hands back, as plain data: the response, or the
/// description of the failure.
pub open spec fn reply_view(out: Result<Response, String>) -> Result<ResponseView, Seq<char>> {
    match out {
        Ok(response) => Ok(response@),
        Err(message) => Err(message@),
    }
}

/// Whether `reply` is what the transport may hand back for `request`.
pub open spec fn exchanged<T: FnOnce(Request) -> Result<Response, String>>(
    transport: T,
    request: RequestView,
    reply: Result<ResponseView, Seq<char>>,
) -> bool {
    exists|q: Request, out: Result<Response, String>|
        q@ == request && #[trigger] call_ensures(transport, (q,), out) && reply == reply_view(out)
}

/// What [`RedmineClient::send`] returns for each end of the round trip.
pub open spec fn sent(reply: Result<ResponseView, Seq<char>>) -> Result<ResponseView, ErrorView> {
    match reply {
        Ok(response) => Ok(response),
        Err(message) => Err(ErrorView::Network(message)),
    }
}

/// The result of [`RedmineClient::send`] as plain data.
pub open spec fn sent_view(r: Result<Response, Error>) -> Result<ResponseView, ErrorView> {
    match r {
        Ok(response) => Ok(response@),
        Err(e) => Err(e@),
    }
}

/// A result that carries a text, as plain data.
pub open spec fn text_view(r: Result<String, Error>) -> Result<Seq<char>, ErrorView> {
    match r {
        Ok(text) => Ok(text@),
        Err(e) => Err(e@),
    }
}

/// A result that carries a flag, as plain data.
pub open spec fn flag_view(r: Result<bool, Error>) -> Result<bool, ErrorView> {
    match r {
        Ok(flag) => Ok(flag),
        Err(e) => Err(e@),
    }
}

/// The error of a response whose status is no success.
pub open spec fn refused(response: ResponseView) -> ErrorView {
    ErrorView::Api { status: response.status, body: response.body }
}

/// What a listing or a lookup returns: the body, whatever the status.
pub open spec fn get_result(reply: Result<ResponseView, Seq<char>>) -> Result<
    Seq<char>,
    ErrorView,
> {
    match reply {
        Ok(response) => Ok(response.body),
        Err(message) => Err(ErrorView::Network(message)),
    }
}

/// What a creation returns: the `Location` of a success, a protocol error
/// where a success has none, an API error for any other status.
pub open spec fn create_result(reply: Result<ResponseView, Seq<char>>) -> Result<
    Seq<char>,
    ErrorView,
> {
    match reply {
        Ok(response) => if !response.is_success() {
            Err(refused(response))
        } else {
            match response.location {
                Some(location) => Ok(location),
                None => Err(ErrorView::Protocol(missing_location())),
            }
        },
        Err(message) => Err(ErrorView::Network(message)),
    }
}

/// The confirmation of an update.
pub open spec fn confirmation() -> Seq<char> {
    "Success"@
}

/// What an update returns: the confirmation for a success, an API error for
/// any other status.
pub open spec fn update_result(reply: Result<ResponseView, Seq<char>>) -> Result<
    Seq<char>,
    ErrorView,
> {
    match reply {
        Ok(response) => if response.is_success() {
            Ok(confirmation())
        } else {
            Err(refused(response))
        },
        Err(message) => Err(ErrorView::Network(message)),
    }
}

/// What a deletion or another action without a result returns: `true` for a
/// success, an API error for any other status.
pub open spec fn delete_result(reply: Result<ResponseView, Seq<char>>) -> Result<bool, ErrorView> {
    match reply {
        Ok(response) => if response.is_success() {
            Ok(true)
        } else {
            Err(refused(response))
        },
        Err(message) => Err(ErrorView::Network(message)),
    }
}

/// The body of a response, whatever its status.
pub fn read_body(response: Response) -> (r: Result<String, Error>)
    ensures
        text_view(r) == get_result(Ok(response@)),
{
    Ok(response.body)
}

/// The location of what a creation made.
pub fn read_created(response: Response) -> (r: Result<String, Error>)
    ensures
        text_view(r) == create_result(Ok(response@)),
{
    if !response.is_success() {
        return Err(Error::Api { status: response.status, body: response.body });
    }
    match response.location {
        Some(location) => Ok(location),
        None => Err(Error::Protocol(String::from_str("Can't create issue."))),
    }
}

/// The confirmation of an update.
pub fn read_updated(response: Response) -> (r: Result<String, Error>)
    ensures
        text_view(r) == update_result(Ok(response@)),
{
    if response.is_success() {
        Ok(String::from_str("Success"))
    } else {
        Err(Error::Api { status: response.status, body: response.body })
    }
}

/// The confirmation of a deletion or of another action without a result.
pub fn read_deleted(response: Response) -> (r: Result<bool, Error>)
    ensures
        flag_view(r) == delete_result(Ok(response@)),
{
    if response.is_success() {
        Ok(true)
    } else {
        Err(Error::Api { status: response.status, body: response.body })
    }
}

/// Holds the address of a Redmine instance and the API key, and performs the
/// generic operations against it.
#[derive(Debug)]
pub struct RedmineClient {
    host: String,
    apikey: String,
}

/// A [`RedmineClient`] as plain data.
pub struct ConnectionView {
    pub host: Seq<char>,
    pub apikey: Seq<char>,
}

impl View for RedmineClient {
    type V = ConnectionView;

    closed spec fn view(&self) -> ConnectionView {
        ConnectionView { host: self.host@, apikey: self.apikey@ }
    }
}

impl ConnectionView {
    /// The address of an endpoint: the host followed by the path.
    pub open spec fn address(self, path: Seq<char>) -> Seq<char> {
        self.host + path
    }

    /// The query of a request: its own pairs, then the API key under `key`.
    pub open spec fn query(self, params: Seq<(Seq<char>, Seq<char>)>) -> Seq<
        (Seq<char>, Seq<char>),
    > {
        params.push(("key"@, self.apikey))
    }

    /// The URL of a request, or `None` where the address is not a URL or the
    /// request is too large to compose.
    pub open spec fn url(self, path: Seq<char>, params: Seq<(Seq<char>, Seq<char>)>) -> Option<
        Seq<char>,
    > {
        if url_weight(self.address(path), self.query(params)) <= URL_BUDGET {
            url_with_params(self.address(path), self.query(params))
        } else {
            None
        }
    }

    /// Whether `reply` is how the round trip of an operation may end: with
    /// what the transport hands back for the operation's request, or, where
    /// the operation has no URL, with the failure that says so.
    pub open spec fn round_trip<T: FnOnce(Request) -> Result<Response, String>>(
        self,
        transport: T,
        method: Method,
        path: Seq<char>,
        params: Seq<(Seq<char>, Seq<char>)>,
        body: Option<Seq<char>>,
        reply: Result<ResponseView, Seq<char>>,
    ) -> bool {
        match self.request(method, path, params, body) {
            Some(request) => exchanged(transport, request, reply),
            None => reply == Err::<ResponseView, Seq<char>>(bad_url(self.address(path))),
        }
    }

    /// The request of an operation, or `None` where it has no URL.
    pub open spec fn request(
        self,
        method: Method,
        path: Seq<char>,
        params: Seq<(Seq<char>, Seq<char>)>,
        body: Option<Seq<char>>,
    ) -> Option<RequestView> {
        match self.url(path, params) {
            Some(url) => Some(RequestView { method, url, body }),
            None => None,
        }
    }
}

impl RedmineClient {
    /// A connection to the instance at `host`, authenticated by `apikey`.
    pub fn new(host: String, apikey: String) -> (c: RedmineClient)
        ensures
            c@ == (ConnectionView { host: host@, apikey: apikey@ }),
    {
        RedmineClient { host, apikey }
    }

    /// The URL of the endpoint at `path` with the given query pairs and the
    /// API key; a network error where there is none.
    pub fn url(&self, path: &str, params: Vec<(String, String)>) -> (r: Result<String, Error>)
        ensures
            match self@.url(path@, pairs_view(params@)) {
                Some(u) => r matches Ok(s) && s@ == u,
                None => r matches Err(e) && e@ == ErrorView::Network(
                    bad_url(self@.address(path@)),
                ),
            },
    {
        let address = concat_str(self.host.as_str(), path);
        let mut query = params;
        query.push((String::from_str("key"), self.apikey.clone()));
        assert(pairs_view(query@) =~= self@.query(pairs_view(params@)));
        if within_budget(address.as_str(), &query) {
            match compose_url(address.as_str(), &query) {
                Some(u) => {
                    return Ok(u);
                },
                None => {},
            }
        }
        Err(Error::Network(concat_str("Can't parse url: ", address.as_str())))
    }

    /// Sends one request through the transport and hands back what it
    /// answered; a network error where the request has no URL or the
    /// transport failed.
    pub fn send<T: FnOnce(Request) -> Result<Response, String>>(
        &self,
        method: Method,
        path: &str,
        params: Vec<(String, String)>,
        body: Option<String>,
        transport: T,
    ) -> (r: Result<Response, Error>)
        requires
            forall|q: Request| call_requires(transport, (q,)),
        ensures
            exists|reply: Result<ResponseView, Seq<char>>|
                #[trigger] self@.round_trip(
                    transport,
                    method,
                    path@,
                    pairs_view(params@),
                    option_view(body),
                    reply,
                ) && sent_view(r) == sent(reply),
    {
        let ghost me = self@;
        let ghost pairs = pairs_view(params@);
        let ghost text = option_view(body);
        let url = match self.url(path, params) {
            Ok(url) => url,
            Err(e) => {
                assert(me.round_trip(
                    transport,
                    method,
                    path@,
                    pairs,
                    text,
                    Err(bad_url(me.address(path@))),
                ));
                return Err(e);
            },
        };
        let request = Request { method, url, body };
        let ghost asked = request;
        let out = transport(request);
        proof {
            assert(call_ensures(transport, (asked,), out));
            assert(exchanged(transport, asked@, reply_view(out)));
            assert(me.round_trip(transport, method, path@, pairs, text, reply_view(out)));
        }
        match out {
            Ok(response) => Ok(response),
            Err(message) => Err(Error::Network(message)),
        }
    }

    /// Performs a GET request to the endpoint at `path` with the given query
    /// pairs and returns the body of the response, whatever its status.
    pub fn get<T: FnOnce(Request) -> Result<Response, String>>(
        &self,
        path: &str,
        params: Vec<(String, String)>,
        transport: T,
    ) -> (r: Result<String, Error>)
        requires
            forall|q: Request| call_requires(transport, (q,)),
        ensures
            exists|reply: Result<ResponseView, Seq<char>>|
                #[trigger] self@.round_trip(transport, Method::Get, path@, pairs_view(params@), None, reply)
                    && text_view(r) == get_result(reply),
    {
        match self.send(Method::Get, path, params, None, transport) {
            Ok(response) => read_body(response),
            Err(e) => Err(e),
        }
    }

    /// Performs a POST request with `object` as its JSON body and hands back
    /// the response as it came.
    pub fn post<T: FnOnce(Request) -> Result<Response, String>>(
        &self,
        path: &str,
        object: &Json,
        transport: T,
    ) -> (r: Result<Response, Error>)
        requires
            forall|q: Request| call_requires(transport, (q,)),
            object@.within(RENDER_DEPTH as nat),
        ensures
            exists|reply: Result<ResponseView, Seq<char>>|
                #[trigger] self@.round_trip(
                    transport,
                    Method::Post,
                    path@,
                    Seq::empty(),
                    Some(json_rendered(object@)),
                    reply,
                ) && sent_view(r) == sent(reply),
    {
        let none: Vec<(String, String)> = Vec::new();
        assert(pairs_view(none@) =~= Seq::empty());
        self.send(Method::Post, path, none, Some(object.render()), transport)
    }

    /// Performs a POST request that creates what `object` describes and
    /// returns the location of the new resource.
    pub fn create<T: FnOnce(Request) -> Result<Response, String>>(
        &self,
        path: &str,
        object: &Json,
        transport: T,
    ) -> (r: Result<String, Error>)
        requires
            forall|q: Request| call_requires(transport, (q,)),
            object@.within(RENDER_DEPTH as nat),
        ensures
            exists|reply: Result<ResponseView, Seq<char>>|
                #[trigger] self@.round_trip(
                    transport,
                    Method::Post,
                    path@,
                    Seq::empty(),
                    Some(json_rendered(object@)),
                    reply,
                ) && text_view(r) == create_result(reply),
    {
        match self.post(path, object, transport) {
            Ok(response) => read_created(response),
            Err(e) => Err(e),
        }
    }

    /// Performs a PUT request that updates the resource at `path` with what
    /// `object` describes.
    pub fn update<T: FnOnce(Request) -> Result<Response, String>>(
        &self,
        path: &str,
        object: &Json,
        transport: T,
    ) -> (r: Result<String, Error>)
        requires
            forall|q: Request| call_requires(transport, (q,)),
            object@.within(RENDER_DEPTH as nat),
        ensures
            exists|reply: Result<ResponseView, Seq<char>>|
                #[trigger] self@.round_trip(
                    transport,
                    Method::Put,
                    path@,
                    Seq::empty(),
                    Some(json_rendered(object@)),
                    reply,
                ) && text_view(r) == update_result(reply),
    {
        let none: Vec<(String, String)> = Vec::new();
        assert(pairs_view(none@) =~= Seq::empty());
        match self.send(Method::Put, path, none, Some(object.render()), transport) {
            Ok(response) => read_updated(response),
            Err(e) => Err(e),
        }
    }

    /// Performs a DELETE request to the endpoint at `path`.
    pub fn delete<T: FnOnce(Request) -> Result<Response, String>>(
        &self,
        path: &str,
        transport: T,
    ) -> (r: Result<bool, Error>)
        requires
            forall|q: Request| call_requires(transport, (q,)),
        ensures
            exists|reply: Result<ResponseView, Seq<char>>|
                #[trigger] self@.round_trip(transport, Method::Delete, path@, Seq::empty(), None, reply)
                    && flag_view(r) == delete_result(reply),
    {
        let none: Vec<(String, String)> = Vec::new();
        assert(pairs_view(none@) =~= Seq::empty());
        match self.send(Method::Delete, path, none, None, transport) {
            Ok(response) => read_deleted(response),
            Err(e) => Err(e),
        }
    }

    /// The URL of the endpoint at `path`, with the API key as its only query pair.
    pub fn get_base_url(&self, path: &str) -> (r: Result<String, Error>)
        ensures
            match self@.url(path@, Seq::empty()) {
                Some(u) => r matches Ok(s) && s@ == u,
                None => r matches Err(e) && e@ == ErrorView::Network(
                    bad_url(self@.address(path@)),
                ),
            },
    {
        let none: Vec<(String, String)> = Vec::new();
        assert(pairs_view(none@) =~= Seq::empty());
        self.url(path, none)
    }
}

} // verus!
