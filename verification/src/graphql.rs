//! GraphQL requests and the shaping of their responses.

use vstd::prelude::*;
use crate::catalog::{DataCenter, DatacentersWithGpuAvailResponse, GpuTypeExtended, GpuTypeMinimal};

verus! {

/// An error that a GraphQL response reports.
#[derive(Debug)]
pub struct GraphQLError {
    pub message: String,
    pub locations: Option<Vec<serde_json::Value>>,
    pub path: Option<Vec<String>>,
}

/// The envelope of a GraphQL response: its data and its errors.
#[derive(Debug, Default)]
pub struct GraphQLResponse<T> {
    pub data: Option<T>,
    pub errors: Option<Vec<GraphQLError>>,
}

/// The data of a response that lists GPU types.
#[derive(Debug, Default)]
pub struct GPUTypesListResponse {
    pub gpu_types: Vec<GpuTypeMinimal>,
}

/// The GPU types of a listing, with the errors that came with them.
#[derive(Debug, Default)]
pub struct GPUTypesListResponseData {
    pub data: Option<Vec<GpuTypeMinimal>>,
    pub errors: Option<Vec<GraphQLError>>,
}

/// The GPU types that a query by ID returned, with the errors that came with them.
#[derive(Debug, Default)]
pub struct GPUTypeResponseData {
    pub data: Option<Vec<GpuTypeExtended>>,
    pub errors: Option<Vec<GraphQLError>>,
}

/// The data of a response that lists GPU types with their clouds and prices.
#[derive(Debug, Default)]
pub struct GPUTypesExtendedResponse {
    pub gpu_types: Vec<GpuTypeExtended>,
}

/// The data centers of a listing, with the errors that came with them.
#[derive(Debug)]
pub struct DatacentersResponseData {
    pub data: Option<Vec<DataCenter>>,
    pub errors: Option<Vec<GraphQLError>>,
}

/// The data centers with GPU types of a listing, with the errors that came with them.
#[derive(Debug)]
pub struct DatacentersWithGpuTypes {
    pub data: Option<Vec<crate::catalog::DatacenterWithGpuTypes>>,
    pub errors: Option<Vec<GraphQLError>>,
}

/// The query that lists all GPU types with their memory.
pub const GPU_TYPES_QUERY: &'static str = "\n            query GpuTypes {\n                gpuTypes {\n                    id\n                    displayName\n                    memoryInGb\n                }\n            }\n        ";

/// The query for one GPU type, up to its ID.
pub const GPU_TYPE_QUERY_HEAD: &'static str = "\n            query GpuTypes {\n                gpuTypes(input: {\n                    id: \"";

/// The query for one GPU type, after its ID.
pub const GPU_TYPE_QUERY_TAIL: &'static str = "\"\n                }) {\n                    id\n                    displayName\n                    memoryInGb\n                    secureCloud\n                    communityCloud\n                    lowestPrice(input: {gpuCount: 1}) {\n                        minimumBidPrice\n                        uninterruptablePrice\n                    }\n                }\n            }\n            ";

/// The query that lists the data centers of the account.
pub const DATACENTERS_QUERY: &'static str = "\n        query MyDataCenters {\n            myself {\n                datacenters {\n                    id\n                    name\n                }\n            }\n        }\n    ";

/// The query that lists all GPU types with their memory.
pub fn gpu_types_query() -> (q: String)
    ensures
        q@ == GPU_TYPES_QUERY@,
{
    String::from_str(GPU_TYPES_QUERY)
}

/// The query for the GPU type `gpu_type_id`, with its clouds and lowest prices.
pub fn gpu_type_query(gpu_type_id: &str) -> (q: String)
    ensures
        q@ == GPU_TYPE_QUERY_HEAD@ + gpu_type_id@ + GPU_TYPE_QUERY_TAIL@,
{
    let mut q = String::from_str(GPU_TYPE_QUERY_HEAD);
    q.append(gpu_type_id);
    q.append(GPU_TYPE_QUERY_TAIL);
    q
}

/// The query that lists the data centers of the account.
pub fn datacenters_query() -> (q: String)
    ensures
        q@ == DATACENTERS_QUERY@,
{
    String::from_str(DATACENTERS_QUERY)
}

/// The GPU types of a listing response, with its errors unchanged.
pub fn gpu_types_list_data(resp: GraphQLResponse<GPUTypesListResponse>) -> (r: GPUTypesListResponseData)
    ensures
        r.data == (match resp.data {
            Some(d) => Some(d.gpu_types),
            None => None,
        }),
        r.errors == resp.errors,
{
    GPUTypesListResponseData {
        data: match resp.data {
            Some(d) => Some(d.gpu_types),
            None => None,
        },
        errors: resp.errors,
    }
}

/// The GPU types of a response to a query by ID, with its errors unchanged.
pub fn gpu_type_data(resp: GraphQLResponse<GPUTypesExtendedResponse>) -> (r: GPUTypeResponseData)
    ensures
        r.data == (match resp.data {
            Some(d) => Some(d.gpu_types),
            None => None,
        }),
        r.errors == resp.errors,
{
    GPUTypeResponseData {
        data: match resp.data {
            Some(d) => Some(d.gpu_types),
            None => None,
        },
        errors: resp.errors,
    }
}

/// The data centers of a `myself.datacenters` response, with its errors unchanged.
pub fn datacenters_data(resp: GraphQLResponse<DatacentersWithGpuAvailResponse>) -> (r: DatacentersResponseData)
    ensures
        r.data == (match resp.data {
            Some(d) => Some(d.myself.datacenters),
            None => None,
        }),
        r.errors == resp.errors,
{
    DatacentersResponseData {
        data: match resp.data {
            Some(d) => Some(d.myself.datacenters),
            None => None,
        },
        errors: resp.errors,
    }
}

} // verus!
