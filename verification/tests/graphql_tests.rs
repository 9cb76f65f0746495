use runpod_client::graphql::{
    datacenters_data, datacenters_query, gpu_type_data, gpu_type_query, gpu_types_list_data,
    gpu_types_query,
};
use runpod_client::json::graphql_request_body;
use runpod_client::{
    DataCenter, DatacentersWithGpuAvailResponse, GPUTypesExtendedResponse, GPUTypesListResponse,
    GpuAvailability, GpuTypeExtended, GpuTypeMinimal, GraphQLError, GraphQLResponse,
    MyselfDataCenters,
};

fn s(x: &str) -> String {
    x.to_string()
}

fn error(msg: &str) -> GraphQLError {
    GraphQLError { message: s(msg), locations: Some(vec![serde_json::Value::Null]), path: None }
}

#[test]
fn list_query_text() {
    let expected = r#"
            query GpuTypes {
                gpuTypes {
                    id
                    displayName
                    memoryInGb
                }
            }
        "#;
    assert_eq!(gpu_types_query(), expected);
}

#[test]
fn query_by_id_text() {
    let gpu_type_id = "NVIDIA RTX A4000";
    let expected = format!(
        r#"
            query GpuTypes {{
                gpuTypes(input: {{
                    id: "{gpu_type_id}"
                }}) {{
                    id
                    displayName
                    memoryInGb
                    secureCloud
                    communityCloud
                    lowestPrice(input: {{gpuCount: 1}}) {{
                        minimumBidPrice
                        uninterruptablePrice
                    }}
                }}
            }}
            "#,
        gpu_type_id = gpu_type_id
    );
    assert_eq!(gpu_type_query(gpu_type_id), expected);
}

#[test]
fn datacenters_query_text() {
    let expected = r#"
        query MyDataCenters {
            myself {
                datacenters {
                    id
                    name
                }
            }
        }
    "#;
    assert_eq!(datacenters_query(), expected);
}

#[test]
fn body_escapes_like_serde_json() {
    for q in ["plain", "with \"quotes\" and \\ slash", "line\nfeed\ttab\u{1}", "", "é ü 漢"] {
        let mut object = serde_json::Map::new();
        object.insert(s("query"), serde_json::Value::String(s(q)));
        let expected = serde_json::to_string(&serde_json::Value::Object(object)).unwrap();
        assert_eq!(graphql_request_body(q), expected);
    }
    assert_eq!(graphql_request_body("a\nb"), "{\"query\":\"a\\nb\"}");
    assert_eq!(
        graphql_request_body("\u{8}\u{c}\r\u{1f}\"\\/"),
        "{\"query\":\"\\b\\f\\r\\u001f\\\"\\\\/\"}"
    );
}

#[test]
fn list_data_takes_gpu_types_and_errors() {
    let resp = GraphQLResponse {
        data: Some(GPUTypesListResponse {
            gpu_types: vec![GpuTypeMinimal { id: s("A"), display_name: s("a"), memory_in_gb: Some(24) }],
        }),
        errors: Some(vec![error("warn")]),
    };
    let r = gpu_types_list_data(resp);
    let data = r.data.unwrap();
    assert_eq!(data.len(), 1);
    assert_eq!(data[0].id, "A");
    assert_eq!(data[0].memory_in_gb, Some(24));
    assert_eq!(r.errors.unwrap()[0].message, "warn");
    let empty = gpu_types_list_data(GraphQLResponse { data: None, errors: None });
    assert!(empty.data.is_none() && empty.errors.is_none());
}

#[test]
fn extended_data_takes_gpu_types() {
    let resp = GraphQLResponse {
        data: Some(GPUTypesExtendedResponse {
            gpu_types: vec![GpuTypeExtended { id: s("B"), ..Default::default() }],
        }),
        errors: None,
    };
    let r = gpu_type_data(resp);
    assert_eq!(r.data.unwrap()[0].id, "B");
    assert!(r.errors.is_none());
}

#[test]
fn datacenter_data_takes_the_list() {
    let resp = GraphQLResponse {
        data: Some(DatacentersWithGpuAvailResponse {
            myself: MyselfDataCenters {
                datacenters: vec![DataCenter {
                    id: s("EU-RO-1"),
                    name: s("Romania"),
                    location: s("EU"),
                    countryCode: s("RO"),
                    gpuAvailability: vec![GpuAvailability { gpuTypeId: s("A"), count: 3 }],
                }],
            },
        }),
        errors: None,
    };
    let r = datacenters_data(resp);
    let dcs = r.data.unwrap();
    assert_eq!(dcs[0].id, "EU-RO-1");
    assert_eq!(dcs[0].gpuAvailability[0].count, 3);
    let e = datacenters_data(GraphQLResponse { data: None, errors: Some(vec![error("x")]) });
    assert!(e.data.is_none());
    assert_eq!(e.errors.unwrap().len(), 1);
}
