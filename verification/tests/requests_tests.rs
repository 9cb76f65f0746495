use runpod_client::client::{
    container_logs_url, create_endpoint_call, create_network_volume_call, create_pod_call,
    delete_endpoint_call, delete_network_volume_call, delete_pod_call, get_endpoint_call,
    get_network_volume_call, get_pod_call, graphql_call, list_endpoints_call,
    list_network_volumes_call, list_pods_call, rest_url, start_pod_call, stop_pod_call,
    update_endpoint_call, update_network_volume_call,
};
use runpod_client::{HttpMethod, RestCall, RunpodClient};

fn check(c: RestCall, method: HttpMethod, url: &str) {
    assert_eq!(c.method, method);
    assert_eq!(c.url, url);
}

#[test]
fn rest_urls_hang_under_the_base() {
    assert_eq!(rest_url("pods"), "https://rest.runpod.io/v1/pods");
    assert_eq!(rest_url(""), "https://rest.runpod.io/v1/");
}

#[test]
fn pod_requests() {
    check(delete_pod_call("abc"), HttpMethod::Delete, "https://rest.runpod.io/v1/pods/abc");
    check(create_pod_call(), HttpMethod::Post, "https://rest.runpod.io/v1/pods");
    check(start_pod_call("abc"), HttpMethod::Post, "https://rest.runpod.io/v1/pods/abc/start");
    check(stop_pod_call("abc"), HttpMethod::Post, "https://rest.runpod.io/v1/pods/abc/stop");
    check(list_pods_call(), HttpMethod::Get, "https://rest.runpod.io/v1/pods");
    check(get_pod_call("xyz"), HttpMethod::Get, "https://rest.runpod.io/v1/pods/xyz");
}

#[test]
fn network_volume_requests() {
    let base = "https://rest.runpod.io/v1/networkvolumes";
    check(create_network_volume_call(), HttpMethod::Post, base);
    check(list_network_volumes_call(), HttpMethod::Get, base);
    check(get_network_volume_call("v1"), HttpMethod::Get, &format!("{}/v1", base));
    check(update_network_volume_call("v1"), HttpMethod::Patch, &format!("{}/v1", base));
    check(delete_network_volume_call("v1"), HttpMethod::Delete, &format!("{}/v1", base));
}

#[test]
fn endpoint_requests() {
    let base = "https://rest.runpod.io/v1/endpoints";
    check(list_endpoints_call(), HttpMethod::Get, base);
    check(create_endpoint_call(), HttpMethod::Post, base);
    check(get_endpoint_call("e1"), HttpMethod::Get, &format!("{}/e1", base));
    check(update_endpoint_call("e1"), HttpMethod::Patch, &format!("{}/e1", base));
    check(delete_endpoint_call("e1"), HttpMethod::Delete, &format!("{}/e1", base));
}

#[test]
fn container_logs_address() {
    assert_eq!(container_logs_url("c9"), "https://hapi.runpod.net/containers/c9/logs");
}

#[test]
fn graphql_request_goes_to_graphql_url() {
    let c = graphql_call("query { x }");
    assert_eq!(c.url, "https://api.runpod.io/graphql");
    assert_eq!(c.body, "{\"query\":\"query { x }\"}");
}

#[test]
fn client_keeps_its_key() {
    let c = RunpodClient::new("secret-key").expect("the default HTTP client builds");
    assert_eq!(c.api_key(), "secret-key");
    assert_eq!(c.authorization(), "Bearer secret-key");
    let d = RunpodClient::new(String::from("other")).expect("the default HTTP client builds");
    assert_eq!(d.clone().api_key(), "other");
    let _ = d.http_client();
}

#[test]
fn client_from_a_given_http_client() {
    let http = reqwest::Client::builder().build().expect("the default HTTP client builds");
    let c = RunpodClient::with_http_client(http, "k2");
    assert_eq!(c.api_key(), "k2");
    assert_eq!(c.authorization(), "Bearer k2");
}
