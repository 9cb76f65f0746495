//! The client handle, and the HTTP requests that each API operation makes.

use vstd::prelude::*;
use crate::json::graphql_request_body;

verus! {

/// An HTTP client of `reqwest`, carried through unread.
#[verifier::external_type_specification]
#[verifier::external_body]
pub struct ExHttpClient(reqwest::Client);

/// A builder of `reqwest` HTTP clients, carried through unread.
#[verifier::external_type_specification]
#[verifier::external_body]
pub struct ExHttpClientBuilder(reqwest::ClientBuilder);

/// The error type of `reqwest`, carried through unread.
#[verifier::external_type_specification]
#[verifier::external_body]
pub struct ExHttpError(reqwest::Error);

/// `reqwest::Client::builder`: a builder with the default configuration.
/// Nothing is claimed of it.
#[verifier::external_body]
fn http_client_builder() -> reqwest::ClientBuilder {
    reqwest::Client::builder()
}

/// `reqwest::ClientBuilder::build`: the client that the builder describes, or the
/// error that kept it from being made (no TLS backend could be initialised, for
/// one). Which of the two comes back depends on the machine, so nothing is
/// claimed of the outcome.
#[verifier::external_body]
fn build_http_client(builder: reqwest::ClientBuilder) -> Result<reqwest::Client, reqwest::Error> {
    builder.build()
}

/// `Clone::clone` of `reqwest::Client`: a handle to the same connection pool.
/// Nothing is claimed of the result.
pub assume_specification[ <reqwest::Client as Clone>::clone ](client: &reqwest::Client) -> reqwest::Client;

/// Why a client could not be made.
#[derive(Debug)]
pub enum ClientError {
    /// The HTTP client could not be built; `reqwest`'s error says why.
    HttpClient(reqwest::Error),
}

/// The handle through which the API is used: an HTTP client and the API key.
#[derive(Clone)]
pub struct RunpodClient {
    http_client: reqwest::Client,
    api_key: String,
}

impl RunpodClient {
    /// The text of the API key of the client.
    pub open spec fn key(self) -> Seq<char> {
        self.key_string()@
    }

    /// The API key of the client, as the string it holds.
    pub closed spec fn key_string(self) -> String {
        self.api_key
    }

    /// A client that sends its requests through `http_client` and authenticates
    /// with `api_key`, converted to a string; the client's key is the string that
    /// the conversion gives.
    pub fn with_http_client<K: Into<String>>(http_client: reqwest::Client, api_key: K) -> (c: RunpodClient)
        ensures
            c.http() == http_client,
            call_ensures(K::into, (api_key,), c.key_string()),
    {
        RunpodClient { http_client, api_key: api_key.into() }
    }

    /// A client with a default HTTP client that authenticates with `api_key`,
    /// converted to a string; the client's key is the string that the conversion
    /// gives. Where the HTTP client cannot be built, the error says why.
    pub fn new<K: Into<String>>(api_key: K) -> (r: Result<RunpodClient, ClientError>)
        ensures
            r matches Ok(c) ==> call_ensures(K::into, (api_key,), c.key_string()),
            r matches Err(e) ==> e is HttpClient,
    {
        match build_http_client(http_client_builder()) {
            Ok(http_client) => Ok(RunpodClient::with_http_client(http_client, api_key)),
            Err(e) => Err(ClientError::HttpClient(e)),
        }
    }

    /// The API key of the client.
    pub fn api_key(&self) -> (k: &str)
        ensures
            k@ == self.key(),
    {
        self.api_key.as_str()
    }

    /// The HTTP client that the handle holds.
    pub closed spec fn http(self) -> reqwest::Client {
        self.http_client
    }

    /// The HTTP client through which requests are sent: the one the handle holds.
    pub fn http_client(&self) -> (h: &reqwest::Client)
        ensures
            *h == self.http(),
    {
        &self.http_client
    }

    /// The value of the `Authorization` header: `Bearer ` and the API key.
    pub fn authorization(&self) -> (h: String)
        ensures
            h@ == BEARER_PREFIX@ + self.key(),
    {
        let mut h = String::from_str(BEARER_PREFIX);
        h.append(self.api_key.as_str());
        h
    }
}

/// Where GraphQL requests go.
pub const RUNPOD_GRAPHQL_URL: &'static str = "https://api.runpod.io/graphql";

/// The root of the REST API.
pub const RUNPOD_REST_BASE_URL: &'static str = "https://rest.runpod.io/v1";

/// The root under which container logs are read.
pub const CONTAINER_LOGS_BASE_URL: &'static str = "https://hapi.runpod.net/containers";

/// What the `Authorization` header holds before the API key.
pub const BEARER_PREFIX: &'static str = "Bearer ";

/// The content type of GraphQL request bodies.
pub const JSON_CONTENT_TYPE: &'static str = "application/json";

/// The user agent that GraphQL requests name.
pub const USER_AGENT: &'static str = "Rust-RunPod-Client/1.0";

/// The REST collection of pods.
pub const PODS: &'static str = "pods";

/// The REST collection of network volumes.
pub const NETWORK_VOLUMES: &'static str = "networkvolumes";

/// The REST collection of endpoints.
pub const ENDPOINTS: &'static str = "endpoints";

/// The action that resumes a pod.
pub const START: &'static str = "start";

/// The action that stops a pod.
pub const STOP: &'static str = "stop";

/// The resource under a container that holds its logs.
pub const LOGS: &'static str = "logs";

/// An HTTP method that the API uses.
#[derive(Debug, Clone, Copy, PartialEq, Eq)]
pub enum HttpMethod {
    Get,
    Post,
    Patch,
    Delete,
}

/// A REST request: its method and its full URL.
#[derive(Debug)]
pub struct RestCall {
    pub method: HttpMethod,
    pub url: String,
}

/// A GraphQL request: where it goes and its JSON body.
#[derive(Debug)]
pub struct GraphQlCall {
    pub url: String,
    pub body: String,
}

/// `a`, a slash, then `b`.
pub open spec fn slash_join(a: Seq<char>, b: Seq<char>) -> Seq<char> {
    a + seq!['/'] + b
}

/// The URL of the REST resource at `path`.
pub open spec fn rest_url_text(path: Seq<char>) -> Seq<char> {
    slash_join(RUNPOD_REST_BASE_URL@, path)
}

/// The path of the member `id` of `collection`.
pub open spec fn member_path(collection: Seq<char>, id: Seq<char>) -> Seq<char> {
    slash_join(collection, id)
}

/// `a`, a slash, then `b`, as a string.
pub fn join_path(a: &str, b: &str) -> (p: String)
    ensures
        p@ == slash_join(a@, b@),
{
    let mut p = String::from_str(a);
    p.push('/');
    p.append(b);
    p
}

/// The URL of the REST resource at `path`.
pub fn rest_url(path: &str) -> (u: String)
    ensures
        u@ == rest_url_text(path@),
{
    join_path(RUNPOD_REST_BASE_URL, path)
}

/// A REST request with `method` for the resource at `path`.
pub fn rest_call(method: HttpMethod, path: &str) -> (c: RestCall)
    ensures
        c.method == method,
        c.url@ == rest_url_text(path@),
{
    RestCall { method, url: rest_url(path) }
}

/// The request that deletes the pod `pod_id`.
pub fn delete_pod_call(pod_id: &str) -> (c: RestCall)
    ensures
        c.method == HttpMethod::Delete,
        c.url@ == rest_url_text(member_path(PODS@, pod_id@)),
{
    rest_call(HttpMethod::Delete, join_path(PODS, pod_id).as_str())
}

/// The request that creates a pod.
pub fn create_pod_call() -> (c: RestCall)
    ensures
        c.method == HttpMethod::Post,
        c.url@ == rest_url_text(PODS@),
{
    rest_call(HttpMethod::Post, PODS)
}

/// The request that resumes the pod `pod_id`.
pub fn start_pod_call(pod_id: &str) -> (c: RestCall)
    ensures
        c.method == HttpMethod::Post,
        c.url@ == rest_url_text(slash_join(member_path(PODS@, pod_id@), START@)),
{
    let member = join_path(PODS, pod_id);
    rest_call(HttpMethod::Post, join_path(member.as_str(), START).as_str())
}

/// The request that stops the pod `pod_id`.
pub fn stop_pod_call(pod_id: &str) -> (c: RestCall)
    ensures
        c.method == HttpMethod::Post,
        c.url@ == rest_url_text(slash_join(member_path(PODS@, pod_id@), STOP@)),
{
    let member = join_path(PODS, pod_id);
    rest_call(HttpMethod::Post, join_path(member.as_str(), STOP).as_str())
}

/// The request that lists all pods.
pub fn list_pods_call() -> (c: RestCall)
    ensures
        c.method == HttpMethod::Get,
        c.url@ == rest_url_text(PODS@),
{
    rest_call(HttpMethod::Get, PODS)
}

/// The request that reads the pod `pod_id`.
pub fn get_pod_call(pod_id: &str) -> (c: RestCall)
    ensures
        c.method == HttpMethod::Get,
        c.url@ == rest_url_text(member_path(PODS@, pod_id@)),
{
    rest_call(HttpMethod::Get, join_path(PODS, pod_id).as_str())
}

/// The request that creates a network volume.
pub fn create_network_volume_call() -> (c: RestCall)
    ensures
        c.method == HttpMethod::Post,
        c.url@ == rest_url_text(NETWORK_VOLUMES@),
{
    rest_call(HttpMethod::Post, NETWORK_VOLUMES)
}

/// The request that lists all network volumes.
pub fn list_network_volumes_call() -> (c: RestCall)
    ensures
        c.method == HttpMethod::Get,
        c.url@ == rest_url_text(NETWORK_VOLUMES@),
{
    rest_call(HttpMethod::Get, NETWORK_VOLUMES)
}

/// The request that reads the network volume `id`.
pub fn get_network_volume_call(id: &str) -> (c: RestCall)
    ensures
        c.method == HttpMethod::Get,
        c.url@ == rest_url_text(member_path(NETWORK_VOLUMES@, id@)),
{
    rest_call(HttpMethod::Get, join_path(NETWORK_VOLUMES, id).as_str())
}

/// The request that renames or resizes the network volume `id`.
pub fn update_network_volume_call(id: &str) -> (c: RestCall)
    ensures
        c.method == HttpMethod::Patch,
        c.url@ == rest_url_text(member_path(NETWORK_VOLUMES@, id@)),
{
    rest_call(HttpMethod::Patch, join_path(NETWORK_VOLUMES, id).as_str())
}

/// The request that deletes the network volume `id`.
pub fn delete_network_volume_call(id: &str) -> (c: RestCall)
    ensures
        c.method == HttpMethod::Delete,
        c.url@ == rest_url_text(member_path(NETWORK_VOLUMES@, id@)),
{
    rest_call(HttpMethod::Delete, join_path(NETWORK_VOLUMES, id).as_str())
}

/// The request that lists all endpoints.
pub fn list_endpoints_call() -> (c: RestCall)
    ensures
        c.method == HttpMethod::Get,
        c.url@ == rest_url_text(ENDPOINTS@),
{
    rest_call(HttpMethod::Get, ENDPOINTS)
}

/// The request that reads the endpoint `id`.
pub fn get_endpoint_call(id: &str) -> (c: RestCall)
    ensures
        c.method == HttpMethod::Get,
        c.url@ == rest_url_text(member_path(ENDPOINTS@, id@)),
{
    rest_call(HttpMethod::Get, join_path(ENDPOINTS, id).as_str())
}

/// The request that creates an endpoint.
pub fn create_endpoint_call() -> (c: RestCall)
    ensures
        c.method == HttpMethod::Post,
        c.url@ == rest_url_text(ENDPOINTS@),
{
    rest_call(HttpMethod::Post, ENDPOINTS)
}

/// The request that updates the endpoint `id`.
pub fn update_endpoint_call(id: &str) -> (c: RestCall)
    ensures
        c.method == HttpMethod::Patch,
        c.url@ == rest_url_text(member_path(ENDPOINTS@, id@)),
{
    rest_call(HttpMethod::Patch, join_path(ENDPOINTS, id).as_str())
}

/// The request that deletes the endpoint `id`.
pub fn delete_endpoint_call(id: &str) -> (c: RestCall)
    ensures
        c.method == HttpMethod::Delete,
        c.url@ == rest_url_text(member_path(ENDPOINTS@, id@)),
{
    rest_call(HttpMethod::Delete, join_path(ENDPOINTS, id).as_str())
}

/// The URL of the logs of the container `container_id`.
pub fn container_logs_url(container_id: &str) -> (u: String)
    ensures
        u@ == slash_join(slash_join(CONTAINER_LOGS_BASE_URL@, container_id@), LOGS@),
{
    let c = join_path(CONTAINER_LOGS_BASE_URL, container_id);
    join_path(c.as_str(), LOGS)
}

/// The GraphQL request for `query`: to the GraphQL URL, with the body `{"query":...}`.
pub fn graphql_call(query: &str) -> (c: GraphQlCall)
    ensures
        c.url@ == RUNPOD_GRAPHQL_URL@,
        c.body@ == crate::json::graphql_body_text(query@),
        (forall|i: int| 0 <= i < query@.len() ==> !crate::json::needs_json_escape(#[trigger] query@[i]))
            ==> c.body@ == crate::json::GRAPHQL_BODY_OPEN@ + seq!['"'] + query@ + seq!['"']
            + crate::json::GRAPHQL_BODY_CLOSE@,
{
    GraphQlCall { url: String::from_str(RUNPOD_GRAPHQL_URL), body: graphql_request_body(query) }
}

} // verus!

