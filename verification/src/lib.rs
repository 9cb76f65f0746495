//! A client library for the RunPod cloud API: request planning, payload
//! construction and response shaping, with their contracts proved by Verus.

pub mod catalog;
pub mod client;
pub mod create;
pub mod endpoints;
pub mod env;
pub mod graphql;
pub mod json;
pub mod laws;
pub mod number;
pub mod pods;
pub mod text;
pub mod volumes;

pub use catalog::{
    DataCenter, Datacenter, DatacenterGpuType, DatacenterInfo, DatacenterWithGpuTypes,
    DatacentersWithGpuAvailResponse, GpuAvailability, GpuType, GpuTypeExtended, GpuTypeMinimal,
    GpuTypeWithDatacenters, Location, LowestPrice, MyselfData, MyselfDataCenters, MyselfResponse,
};
pub use client::{ClientError, GraphQlCall, HttpMethod, RestCall, RunpodClient};
pub use create::{CreateOnDemandPodRequest, CreateSpotPodRequest, OnDemandPodPayload, PodCreateInput};
pub use endpoints::{
    Endpoint, EndpointCreateInput, EndpointResponseData, EndpointUpdateInput, Endpoints,
    EndpointsListResponseData, Template,
};
pub use env::{EnvVar, StringMap};
pub use graphql::{
    DatacentersResponseData, DatacentersWithGpuTypes, GPUTypeResponseData, GPUTypesExtendedResponse,
    GPUTypesListResponse, GPUTypesListResponseData, GraphQLError, GraphQLResponse,
};
pub use number::F64Bits;
pub use pods::{
    GpuInfo, MachineHost, MachineInfo, MyselfPods, NetworkVolumeInfo, Pod, PodCreateResponseData,
    PodInfoFull, PodInfoMinimal, PodInfoMinimalStop, PodInfoResponseData, PodMachineInfo,
    PodRuntime, PodStartResponseData, PodStopResponseData, PodStorage, PodsListResponseData,
    RuntimeInfo, SavingsPlan,
};
pub use volumes::{NetworkVolume, NetworkVolumeCreateInput, NetworkVolumeUpdateInput};
