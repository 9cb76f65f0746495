//! Requests that create pods, and the bodies that they are turned into.

use vstd::prelude::*;
use crate::env::{env_map, EnvVar, StringMap};
use crate::number::F64Bits;
use crate::text::{parse_port_list, port_list, text_or_default, text_or_empty};

verus! {

/// The body of a REST request that creates a pod.
#[derive(Debug, Default)]
pub struct PodCreateInput {
    pub name: Option<String>,
    pub locked: Option<bool>,
    pub image_name: Option<String>,
    pub container_registry_auth_id: Option<String>,
    pub container_disk_in_gb: Option<i32>,
    pub docker_start_cmd: Option<Vec<String>>,
    pub docker_entrypoint: Option<Vec<String>>,
    pub env: Option<StringMap>,
    pub ports: Option<Vec<String>>,
    pub volume_in_gb: Option<i32>,
    pub volume_mount_path: Option<String>,
    pub allowed_cuda_versions: Option<Vec<String>>,
    pub bid_per_gpu: Option<F64Bits>,
    pub cloud_type: Option<String>,
    pub country_codes: Option<Vec<String>>,
    pub data_center_ids: Option<Vec<String>>,
    pub gpu_type_ids: Option<Vec<String>>,
    pub min_ram_per_gpu: Option<i32>,
    pub min_vcpu_per_gpu: Option<i32>,
    pub gpu_type_priority: Option<String>,
    pub data_center_priority: Option<String>,
    pub support_public_ip: Option<bool>,
    pub min_download_mbps: Option<i32>,
    pub min_upload_mbps: Option<i32>,
    pub min_disk_bandwidth_mbps: Option<i32>,
    pub template_id: Option<String>,
    pub network_volume_id: Option<String>,
}

/// A request for an on-demand (reserved) pod. `ports` is a comma-separated list.
#[derive(Debug, Default)]
pub struct CreateOnDemandPodRequest {
    pub cloud_type: Option<String>,
    pub gpu_count: Option<i32>,
    pub volume_in_gb: Option<i32>,
    pub container_disk_in_gb: Option<i32>,
    pub min_vcpu_count: Option<i32>,
    pub min_memory_in_gb: Option<i32>,
    pub gpu_type_id: Option<String>,
    pub name: Option<String>,
    pub image_name: Option<String>,
    pub docker_args: Option<Vec<String>>,
    pub docker_entrypoint: Option<Vec<String>>,
    pub ports: Option<String>,
    pub network_volume_id: Option<String>,
    pub volume_mount_path: Option<String>,
    pub env: Vec<EnvVar>,
}

/// A request for a spot (interruptible) pod. `ports` is a comma-separated list.
#[derive(Debug, Default)]
pub struct CreateSpotPodRequest {
    pub bid_per_gpu: F64Bits,
    pub cloud_type: Option<String>,
    pub gpu_count: i32,
    pub volume_in_gb: i32,
    pub container_disk_in_gb: i32,
    pub min_vcpu_count: Option<i32>,
    pub min_memory_in_gb: Option<i32>,
    pub gpu_type_id: String,
    pub name: String,
    pub image_name: String,
    pub docker_entrypoint: Option<Vec<String>>,
    pub docker_args: Option<Vec<String>>,
    pub ports: Option<String>,
    pub network_volume_id: Option<String>,
    pub volume_mount_path: Option<String>,
    pub env: Vec<EnvVar>,
}

/// The cloud of secure data centers, the default.
pub const SECURE_CLOUD: &'static str = "SECURE";

/// The cloud of community hosts.
pub const COMMUNITY_CLOUD: &'static str = "COMMUNITY";

/// The cloud that a requested cloud type selects: `COMMUNITY` for `COMMUNITY`,
/// `SECURE` for anything else and where none is given.
pub open spec fn cloud_type_of(requested: Option<String>) -> Seq<char> {
    match requested {
        Some(c) => cloud_of_text(c@),
        None => SECURE_CLOUD@,
    }
}

/// The cloud that the cloud type `t` selects: `COMMUNITY` for `COMMUNITY`, `SECURE`
/// for anything else.
pub open spec fn cloud_of_text(t: Seq<char>) -> Seq<char> {
    if t == COMMUNITY_CLOUD@ {
        COMMUNITY_CLOUD@
    } else {
        SECURE_CLOUD@
    }
}

/// The GPU type IDs that one requested GPU type gives: none for the empty ID,
/// the ID alone otherwise.
pub open spec fn gpu_type_id_list(id: Seq<char>) -> Seq<Seq<char>> {
    if id.len() == 0 {
        Seq::<Seq<char>>::empty()
    } else {
        seq![id]
    }
}

/// The ports that an optional comma-separated list names; none where there is no list.
pub open spec fn requested_ports(ports: Option<String>) -> Seq<Seq<char>> {
    match ports {
        Some(s) => port_list(s@),
        None => Seq::<Seq<char>>::empty(),
    }
}

/// The cloud type that the request selects, as a string.
pub fn normalize_cloud_type(requested: &Option<String>) -> (c: String)
    ensures
        c@ == cloud_type_of(*requested),
{
    match requested {
        Some(s) => {
            let community = String::from_str(COMMUNITY_CLOUD);
            if *s == community {
                community
            } else {
                String::from_str(SECURE_CLOUD)
            }
        },
        None => String::from_str(SECURE_CLOUD),
    }
}

fn gpu_type_ids_for(id: &String) -> (ids: Vec<String>)
    ensures
        ids.deep_view() == gpu_type_id_list(id@),
{
    let mut ids: Vec<String> = Vec::new();
    if !id.as_str().is_empty() {
        ids.push(id.clone());
        assert(ids.deep_view() =~= seq![id@]);
    } else {
        assert(ids.deep_view() =~= Seq::<Seq<char>>::empty());
    }
    ids
}

fn ports_for(ports: &Option<String>) -> (list: Vec<String>)
    ensures
        list.deep_view() == requested_ports(*ports),
{
    match ports {
        Some(s) => parse_port_list(s.as_str()),
        None => {
            let list: Vec<String> = Vec::new();
            assert(list.deep_view() =~= Seq::<Seq<char>>::empty());
            list
        },
    }
}

fn copy_text(s: &Option<String>) -> (r: Option<String>)
    ensures
        r == *s,
{
    match s {
        Some(t) => Some(t.clone()),
        None => None,
    }
}

fn copy_strings(v: &Vec<String>) -> (r: Vec<String>)
    ensures
        r@ == v@,
{
    let mut r: Vec<String> = Vec::new();
    for i in 0..v.len()
        invariant
            r@ == v@.take(i as int),
    {
        r.push(v[i].clone());
        assert(r@ =~= v@.take(i + 1));
    }
    assert(v@.take(v.len() as int) =~= v@);
    r
}

fn copy_string_list(v: &Option<Vec<String>>) -> (r: Option<Vec<String>>)
    ensures
        r.deep_view() == v.deep_view(),
{
    match v {
        Some(list) => Some(copy_strings(list)),
        None => None,
    }
}

impl CreateOnDemandPodRequest {
    /// The REST body that creates the pod: the cloud type normalized, the GPU type
    /// as a one-element list (none if empty), the ports split at commas and trimmed,
    /// the environment as a map (a later variable overriding an earlier one), and a
    /// zero bid per GPU exactly where `is_spot` holds.
    pub fn to_pod_create_input(&self, is_spot: bool) -> (r: PodCreateInput)
        ensures
            r.name == self.name,
            r.image_name == self.image_name,
            r.container_disk_in_gb == self.container_disk_in_gb,
            r.volume_in_gb == self.volume_in_gb,
            r.volume_mount_path == self.volume_mount_path,
            r.ports matches Some(p) && p.deep_view() == requested_ports(self.ports),
            r.env matches Some(m) && m@ == env_map(self.env@),
            r.docker_start_cmd is None,
            r.docker_entrypoint.deep_view() == self.docker_entrypoint.deep_view(),
            r.locked is None,
            r.container_registry_auth_id is None,
            r.allowed_cuda_versions is None,
            r.cloud_type matches Some(c) && c@ == cloud_type_of(self.cloud_type),
            r.data_center_ids is None,
            r.gpu_type_ids matches Some(ids) && ids.deep_view() == (match self.gpu_type_id {
                Some(id) => gpu_type_id_list(id@),
                None => Seq::<Seq<char>>::empty(),
            }),
            r.min_ram_per_gpu == self.min_memory_in_gb,
            r.min_vcpu_per_gpu == self.min_vcpu_count,
            r.network_volume_id == self.network_volume_id,
            r.bid_per_gpu == (if is_spot {
                Some(F64Bits(0))
            } else {
                None
            }),
            r.country_codes is None,
            r.gpu_type_priority is None,
            r.data_center_priority is None,
            r.support_public_ip is None,
            r.min_download_mbps is None,
            r.min_upload_mbps is None,
            r.min_disk_bandwidth_mbps is None,
            r.template_id is None,
    {
        let cloud_type = normalize_cloud_type(&self.cloud_type);
        let gpu_type_ids = match &self.gpu_type_id {
            Some(id) => gpu_type_ids_for(id),
            None => {
                let ids: Vec<String> = Vec::new();
                assert(ids.deep_view() =~= Seq::<Seq<char>>::empty());
                ids
            },
        };
        let ports = ports_for(&self.ports);
        let env_map = StringMap::from_env_vars(&self.env);
        PodCreateInput {
            name: copy_text(&self.name),
            image_name: copy_text(&self.image_name),
            container_disk_in_gb: self.container_disk_in_gb,
            volume_in_gb: self.volume_in_gb,
            volume_mount_path: copy_text(&self.volume_mount_path),
            ports: Some(ports),
            env: Some(env_map),
            docker_start_cmd: None,
            docker_entrypoint: copy_string_list(&self.docker_entrypoint),
            locked: None,
            container_registry_auth_id: None,
            allowed_cuda_versions: None,
            cloud_type: Some(cloud_type),
            data_center_ids: None,
            gpu_type_ids: Some(gpu_type_ids),
            min_ram_per_gpu: self.min_memory_in_gb,
            min_vcpu_per_gpu: self.min_vcpu_count,
            network_volume_id: copy_text(&self.network_volume_id),
            bid_per_gpu: if is_spot {
                Some(F64Bits::zero())
            } else {
                None
            },
            country_codes: None,
            gpu_type_priority: None,
            data_center_priority: None,
            support_public_ip: None,
            min_download_mbps: None,
            min_upload_mbps: None,
            min_disk_bandwidth_mbps: None,
            template_id: None,
        }
    }
}

impl CreateSpotPodRequest {
    /// The REST body that creates the spot pod: as for an on-demand pod, with the
    /// name, image and disk sizes always given, the Docker arguments as the start
    /// command, no network volume, and the request's bid per GPU. The flag is not read.
    pub fn to_pod_create_input(&self, _is_spot: bool) -> (r: PodCreateInput)
        ensures
            r.name == Some(self.name),
            r.image_name == Some(self.image_name),
            r.container_disk_in_gb == Some(self.container_disk_in_gb),
            r.volume_in_gb == Some(self.volume_in_gb),
            r.volume_mount_path == self.volume_mount_path,
            r.ports matches Some(p) && p.deep_view() == requested_ports(self.ports),
            r.env matches Some(m) && m@ == env_map(self.env@),
            r.docker_start_cmd.deep_view() == self.docker_args.deep_view(),
            r.docker_entrypoint.deep_view() == self.docker_entrypoint.deep_view(),
            r.locked is None,
            r.container_registry_auth_id is None,
            r.allowed_cuda_versions is None,
            r.cloud_type matches Some(c) && c@ == cloud_type_of(self.cloud_type),
            r.data_center_ids is None,
            r.gpu_type_ids matches Some(ids) && ids.deep_view() == gpu_type_id_list(
                self.gpu_type_id@,
            ),
            r.min_ram_per_gpu == self.min_memory_in_gb,
            r.min_vcpu_per_gpu == self.min_vcpu_count,
            r.network_volume_id is None,
            r.bid_per_gpu == Some(self.bid_per_gpu),
            r.country_codes is None,
            r.gpu_type_priority is None,
            r.data_center_priority is None,
            r.support_public_ip is None,
            r.min_download_mbps is None,
            r.min_upload_mbps is None,
            r.min_disk_bandwidth_mbps is None,
            r.template_id is None,
    {
        let cloud_type = normalize_cloud_type(&self.cloud_type);
        let gpu_type_ids = gpu_type_ids_for(&self.gpu_type_id);
        let ports = ports_for(&self.ports);
        let env_map = StringMap::from_env_vars(&self.env);
        PodCreateInput {
            name: Some(self.name.clone()),
            image_name: Some(self.image_name.clone()),
            container_disk_in_gb: Some(self.container_disk_in_gb),
            volume_in_gb: Some(self.volume_in_gb),
            volume_mount_path: copy_text(&self.volume_mount_path),
            ports: Some(ports),
            env: Some(env_map),
            docker_start_cmd: copy_string_list(&self.docker_args),
            docker_entrypoint: copy_string_list(&self.docker_entrypoint),
            locked: None,
            container_registry_auth_id: None,
            allowed_cuda_versions: None,
            cloud_type: Some(cloud_type),
            data_center_ids: None,
            gpu_type_ids: Some(gpu_type_ids),
            min_ram_per_gpu: self.min_memory_in_gb,
            min_vcpu_per_gpu: self.min_vcpu_count,
            network_volume_id: None,
            bid_per_gpu: Some(self.bid_per_gpu),
            country_codes: None,
            gpu_type_priority: None,
            data_center_priority: None,
            support_public_ip: None,
            min_download_mbps: None,
            min_upload_mbps: None,
            min_disk_bandwidth_mbps: None,
            template_id: None,
        }
    }
}


/// The compute type of every pod that the library creates.
pub const GPU_COMPUTE: &'static str = "GPU";

/// The number of GPUs of an on-demand pod where the request names none.
pub const DEFAULT_GPU_COUNT: i32 = 1;

/// The volume size, in GB, of an on-demand pod where the request names none.
pub const DEFAULT_VOLUME_IN_GB: i32 = 20;

/// The container disk size, in GB, of an on-demand pod where the request names none.
pub const DEFAULT_CONTAINER_DISK_IN_GB: i32 = 50;

/// The minimum number of vCPUs per GPU where the request names none.
pub const DEFAULT_MIN_VCPU_PER_GPU: i32 = 2;

/// The minimum RAM per GPU, in GB, where the request names none.
pub const DEFAULT_MIN_RAM_PER_GPU: i32 = 8;

/// The body that creating an on-demand pod posts: every member is present, with a
/// default where the request leaves it out; the volume mount path and the network
/// volume are sent only where the request names them.
#[derive(Debug)]
pub struct OnDemandPodPayload {
    pub cloud_type: String,
    pub compute_type: String,
    pub gpu_count: i32,
    pub volume_in_gb: i32,
    pub container_disk_in_gb: i32,
    pub min_vcpu_per_gpu: i32,
    pub min_ram_per_gpu: i32,
    pub gpu_type_ids: Vec<String>,
    pub name: String,
    pub image_name: String,
    pub docker_entrypoint: Vec<String>,
    pub support_public_ip: bool,
    pub ports: Option<String>,
    pub env: StringMap,
    pub volume_mount_path: Option<String>,
    pub network_volume_id: Option<String>,
}

/// The number given, or `default` where there is none.
pub open spec fn number_or(n: Option<i32>, default: i32) -> i32 {
    match n {
        Some(v) => v,
        None => default,
    }
}

fn number_or_default(n: Option<i32>, default: i32) -> (r: i32)
    ensures
        r == number_or(n, default),
{
    match n {
        Some(v) => v,
        None => default,
    }
}

/// The body that creating the on-demand pod `req` posts: the cloud type as given
/// (`SECURE` where none is), GPU compute, the sizes given or their defaults, the
/// GPU type as a one-element list (the empty ID where none is given), the name,
/// image and entrypoint given or empty, a public IP asked for, the ports string as
/// given, and the environment as a map, a later variable overriding an earlier one.
pub fn on_demand_pod_payload(req: CreateOnDemandPodRequest) -> (p: OnDemandPodPayload)
    ensures
        p.cloud_type@ == (match req.cloud_type {
            Some(c) => c@,
            None => SECURE_CLOUD@,
        }),
        p.compute_type@ == GPU_COMPUTE@,
        p.gpu_count == number_or(req.gpu_count, DEFAULT_GPU_COUNT),
        p.volume_in_gb == number_or(req.volume_in_gb, DEFAULT_VOLUME_IN_GB),
        p.container_disk_in_gb == number_or(req.container_disk_in_gb, DEFAULT_CONTAINER_DISK_IN_GB),
        p.min_vcpu_per_gpu == number_or(req.min_vcpu_count, DEFAULT_MIN_VCPU_PER_GPU),
        p.min_ram_per_gpu == number_or(req.min_memory_in_gb, DEFAULT_MIN_RAM_PER_GPU),
        p.gpu_type_ids.deep_view() == seq![text_or_empty(req.gpu_type_id)],
        p.name@ == text_or_empty(req.name),
        p.image_name@ == text_or_empty(req.image_name),
        p.docker_entrypoint.deep_view() == (match req.docker_entrypoint {
            Some(v) => v.deep_view(),
            None => Seq::<Seq<char>>::empty(),
        }),
        p.support_public_ip,
        p.ports == req.ports,
        p.env@ == env_map(req.env@),
        p.volume_mount_path == req.volume_mount_path,
        p.network_volume_id == req.network_volume_id,
{
    let env = StringMap::from_env_vars(&req.env);
    let cloud_type = match req.cloud_type {
        Some(c) => c,
        None => String::from_str(SECURE_CLOUD),
    };
    let mut gpu_type_ids: Vec<String> = Vec::new();
    gpu_type_ids.push(text_or_default(req.gpu_type_id));
    assert(gpu_type_ids.deep_view() =~= seq![text_or_empty(req.gpu_type_id)]);
    let docker_entrypoint = match req.docker_entrypoint {
        Some(v) => v,
        None => {
            let v: Vec<String> = Vec::new();
            assert(v.deep_view() =~= Seq::<Seq<char>>::empty());
            v
        },
    };
    OnDemandPodPayload {
        cloud_type,
        compute_type: String::from_str(GPU_COMPUTE),
        gpu_count: number_or_default(req.gpu_count, DEFAULT_GPU_COUNT),
        volume_in_gb: number_or_default(req.volume_in_gb, DEFAULT_VOLUME_IN_GB),
        container_disk_in_gb: number_or_default(req.container_disk_in_gb, DEFAULT_CONTAINER_DISK_IN_GB),
        min_vcpu_per_gpu: number_or_default(req.min_vcpu_count, DEFAULT_MIN_VCPU_PER_GPU),
        min_ram_per_gpu: number_or_default(req.min_memory_in_gb, DEFAULT_MIN_RAM_PER_GPU),
        gpu_type_ids,
        name: text_or_default(req.name),
        image_name: text_or_default(req.image_name),
        docker_entrypoint,
        support_public_ip: true,
        ports: req.ports,
        env,
        volume_mount_path: req.volume_mount_path,
        network_volume_id: req.network_volume_id,
    }
}

} // verus!
