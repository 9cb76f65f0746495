//! GPU types and data centers, as the RunPod API describes them.

use vstd::prelude::*;
use crate::number::F64Bits;

verus! {

/// A GPU type with its prices.
#[derive(Debug)]
pub struct GpuType {
    pub id: String,
    pub display_name: String,
    pub memory_in_gb: F64Bits,
    pub secure_cloud: bool,
    pub community_cloud: bool,
    pub secure_price: Option<F64Bits>,
    pub community_price: Option<F64Bits>,
    pub community_spot_price: Option<F64Bits>,
    pub secure_spot_price: Option<F64Bits>,
}

/// The identity and memory of a GPU type.
#[derive(Debug, Default)]
pub struct GpuTypeMinimal {
    pub id: String,
    pub display_name: String,
    pub memory_in_gb: Option<i32>,
}

/// A GPU type with the clouds it runs in and its lowest price.
#[derive(Debug, Default)]
pub struct GpuTypeExtended {
    pub id: String,
    pub display_name: String,
    pub memory_in_gb: Option<i32>,
    pub secure_cloud: Option<bool>,
    pub community_cloud: Option<bool>,
    pub lowest_price: Option<LowestPrice>,
}

/// The lowest prices of a GPU type.
#[derive(Debug, Default)]
pub struct LowestPrice {
    pub minimum_bid_price: Option<F64Bits>,
    pub uninterruptable_price: Option<F64Bits>,
}

/// The `myself` member of a response that lists data centers with their GPU types.
#[derive(Debug)]
pub struct MyselfResponse {
    pub myself: MyselfData,
}

/// The data centers of the account.
#[derive(Debug)]
pub struct MyselfData {
    pub datacenters: Vec<DatacenterWithGpuTypes>,
}

/// A data center with the GPU types it offers.
#[derive(Debug, Clone)]
pub struct DatacenterWithGpuTypes {
    pub id: String,
    pub name: String,
    pub location: String,
    pub available: bool,
    pub gpu_types: Vec<DatacenterGpuType>,
}

/// A GPU type as a data center offers it.
#[derive(Debug, Clone)]
pub struct DatacenterGpuType {
    pub id: String,
    pub display_name: String,
    pub memory_in_gb: F64Bits,
    pub available: i32,
    pub secure_cloud: bool,
    pub community_cloud: bool,
    pub secure_price: Option<F64Bits>,
    pub community_price: Option<F64Bits>,
    pub community_spot_price: Option<F64Bits>,
    pub secure_spot_price: Option<F64Bits>,
}

/// The top-level data of a `myself.datacenters` response.
#[derive(Debug)]
pub struct DatacentersWithGpuAvailResponse {
    pub myself: MyselfDataCenters,
}

/// The array of data centers of a `myself.datacenters` response.
#[derive(Debug)]
pub struct MyselfDataCenters {
    pub datacenters: Vec<DataCenter>,
}

/// A data center with the availability of each GPU type in it. The data-center
/// query asks only for the ID and the name; the other members are empty where a
/// response leaves them out.
#[allow(non_snake_case)]
#[derive(Debug)]
pub struct DataCenter {
    pub id: String,
    pub name: String,
    pub location: String,
    pub countryCode: String,
    pub gpuAvailability: Vec<GpuAvailability>,
}

/// How many GPUs of one type a data center has available.
#[allow(non_snake_case)]
#[derive(Debug)]
pub struct GpuAvailability {
    pub gpuTypeId: String,
    pub count: i32,
}

/// A GPU type with the data centers that offer it.
#[derive(Debug)]
pub struct GpuTypeWithDatacenters {
    pub id: String,
    pub display_name: String,
    pub memory_in_gb: F64Bits,
    pub secure_cloud: bool,
    pub community_cloud: bool,
    pub secure_price: Option<F64Bits>,
    pub community_price: Option<F64Bits>,
    pub community_spot_price: Option<F64Bits>,
    pub secure_spot_price: Option<F64Bits>,
    pub datacenters: Vec<DatacenterInfo>,
}

/// A data center as a GPU type lists it.
#[derive(Debug)]
pub struct DatacenterInfo {
    pub id: String,
    pub name: String,
    pub available: bool,
    pub country_name: String,
}

/// A data center with its location and GPU types.
#[derive(Debug)]
pub struct Datacenter {
    pub id: String,
    pub name: String,
    pub available: bool,
    pub location: Location,
    pub gpu_types: Vec<GpuType>,
}

/// Where a data center stands.
#[derive(Debug)]
pub struct Location {
    pub country_name: String,
}

} // verus!
