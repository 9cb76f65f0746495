//! Serverless endpoints.

use vstd::prelude::*;
use crate::env::StringMap;
use crate::graphql::GraphQLError;
use crate::pods::Pod;

verus! {

/// A serverless endpoint.
#[derive(Debug, Default)]
pub struct Endpoint {
    /// Unique ID of the endpoint.
    pub id: String,
    /// The user who created the endpoint.
    pub user_id: Option<String>,
    /// A user-defined name for the endpoint.
    pub name: Option<String>,
    /// The latest version of the endpoint, raised whenever its template or environment changes.
    pub version: Option<i32>,
    /// The compute type: "CPU" or "GPU".
    pub compute_type: Option<String>,
    /// The minimum number of workers that always run.
    pub workers_min: Option<i32>,
    /// The maximum number of workers that may run at once.
    pub workers_max: Option<i32>,
    /// Whether flash boot is used.
    pub flashboot: Option<bool>,
    /// Seconds a worker may run without a job before it is scaled down.
    pub idle_timeout: Option<i32>,
    /// The longest a single request may run, in milliseconds, before its worker is stopped.
    pub execution_timeout_ms: Option<i32>,
    /// How workers are scaled up: "QUEUE_DELAY" or "REQUEST_COUNT".
    pub scaler_type: Option<String>,
    /// Seconds of queue delay, or the divisor of the queue, that triggers scaling.
    pub scaler_value: Option<i32>,
    /// GPUs attached to each worker.
    pub gpu_count: Option<i32>,
    /// Acceptable GPU types, in order of preference.
    pub gpu_type_ids: Option<Vec<String>>,
    /// Acceptable CUDA versions for GPU endpoints.
    pub allowed_cuda_versions: Option<Vec<String>>,
    /// CPU instance IDs, for CPU endpoints only.
    pub instance_ids: Option<Vec<String>>,
    /// The attached network volume.
    pub network_volume_id: Option<String>,
    /// The data centers where workers may run.
    pub data_center_ids: Option<Vec<String>>,
    /// Environment variables of the endpoint.
    pub env: Option<StringMap>,
    /// The template the endpoint was created from.
    pub template_id: Option<String>,
    /// The template, where the response includes it.
    pub template: Option<Template>,
    /// When the endpoint was created, in UTC.
    pub created_at: Option<String>,
    /// The current workers, where the response includes them.
    pub workers: Option<Vec<Pod>>,
}

/// A list of endpoints, as listing them returns it.
pub type Endpoints = Vec<Endpoint>;

/// What creating an endpoint sends; the template is required.
#[derive(Debug, Default)]
pub struct EndpointCreateInput {
    pub template_id: String,
    pub name: Option<String>,
    pub workers_max: Option<i32>,
    pub workers_min: Option<i32>,
    pub flashboot: Option<bool>,
    pub execution_timeout_ms: Option<i32>,
    pub idle_timeout: Option<i32>,
    pub scaler_type: Option<String>,
    pub scaler_value: Option<i32>,
    pub gpu_type_ids: Option<Vec<String>>,
    pub gpu_count: Option<i32>,
    pub allowed_cuda_versions: Option<Vec<String>>,
    pub data_center_ids: Option<Vec<String>>,
    pub network_volume_id: Option<String>,
}

/// What updating an endpoint sends; members left out are not changed.
#[derive(Debug, Default)]
pub struct EndpointUpdateInput {
    pub name: Option<String>,
    pub workers_max: Option<i32>,
    pub workers_min: Option<i32>,
    pub flashboot: Option<bool>,
    pub execution_timeout_ms: Option<i32>,
    pub idle_timeout: Option<i32>,
    pub scaler_type: Option<String>,
    pub scaler_value: Option<i32>,
    pub gpu_type_ids: Option<Vec<String>>,
    pub gpu_count: Option<i32>,
    pub allowed_cuda_versions: Option<Vec<String>>,
    pub template_id: Option<String>,
    pub data_center_ids: Option<Vec<String>>,
    pub network_volume_id: Option<String>,
}

/// The template of an endpoint.
#[derive(Debug, Default)]
pub struct Template {
    pub id: Option<String>,
    pub name: Option<String>,
}

/// One endpoint, with the errors that came with it.
#[derive(Debug, Default)]
pub struct EndpointResponseData {
    pub data: Option<Endpoint>,
    pub errors: Option<Vec<GraphQLError>>,
}

/// A list of endpoints, with the errors that came with it.
#[derive(Debug, Default)]
pub struct EndpointsListResponseData {
    pub data: Option<Vec<Endpoint>>,
    pub errors: Option<Vec<GraphQLError>>,
}

} // verus!
