//! Pods as the REST API returns them, and the summaries the library makes of them.

use vstd::prelude::*;
use crate::env::{EnvVar, StringMap};
use crate::graphql::GraphQLError;
use crate::number::F64Bits;
use crate::text::{text_or_default, text_or_empty};
use crate::volumes::NetworkVolume;

verus! {

/// A pod as the REST API returns it. Members that the response leaves out hold
/// their defaults.
#[derive(Debug, Clone)]
pub struct Pod {
    pub id: String,
    pub name: Option<String>,
    pub desired_status: String,
    pub last_status_change: String,
    pub machine_id: String,
    pub memory_in_gb: F64Bits,
    pub vcpu_count: F64Bits,
    pub container_disk_in_gb: i32,
    pub volume_in_gb: F64Bits,
    pub volume_mount_path: Option<String>,
    pub volume_encrypted: bool,
    pub cost_per_hr: F64Bits,
    pub adjusted_cost_per_hr: F64Bits,
    pub interruptible: bool,
    pub ports: Vec<String>,
    pub public_ip: Option<String>,
    pub image: Option<String>,
    pub env: StringMap,
    pub last_started_at: Option<String>,
    pub gpu: Option<GpuInfo>,
    pub machine: Option<MachineInfo>,
    pub runtime: Option<RuntimeInfo>,
    pub network_volume: Option<NetworkVolumeInfo>,
    pub savings_plans: Option<Vec<SavingsPlan>>,
    pub docker_entrypoint: Option<Vec<String>>,
    pub docker_start_cmd: Option<Vec<String>>,
}

/// The GPUs of a pod.
#[derive(Debug, Clone)]
pub struct GpuInfo {
    pub id: String,
    pub count: i32,
    pub display_name: String,
}

/// The machine that a pod runs on.
#[derive(Debug, Clone, Default)]
pub struct MachineInfo {
    pub gpu_type_id: Option<String>,
    pub id: Option<String>,
    pub location: Option<String>,
    pub support_public_ip: Option<bool>,
    pub secure_cloud: Option<bool>,
}

/// How long a pod has been running.
#[derive(Debug, Clone, Copy)]
pub struct RuntimeInfo {
    pub uptime_in_seconds: Option<i32>,
}

/// The network volume attached to a pod.
#[derive(Debug, Clone)]
pub struct NetworkVolumeInfo {
    pub id: String,
    pub name: String,
    pub size: i32,
    pub data_center_id: String,
}

/// A savings plan of a pod.
#[derive(Debug, Clone)]
pub struct SavingsPlan {
    pub id: String,
    pub pod_id: String,
    pub gpu_type_id: String,
    pub cost_per_hr: F64Bits,
    pub start_time: String,
    pub end_time: String,
}

/// A full description of a pod.
#[derive(Debug, Clone)]
pub struct PodInfoFull {
    pub id: String,
    pub name: String,
    pub desired_status: String,
    pub last_status_change: String,
    pub machine_id: String,
    pub gpu_count: i32,
    pub memory_in_gb: F64Bits,
    pub vcpu_count: F64Bits,
    pub storage: PodStorage,
    pub runtime: Option<PodRuntime>,
    pub cost_per_hr: F64Bits,
    pub adjusted_cost_per_hr: F64Bits,
    pub interruptible: bool,
    pub ports: Vec<String>,
    pub public_ip: Option<String>,
    pub image: String,
    pub env: StringMap,
    pub last_started_at: Option<String>,
    pub network_volume: Option<NetworkVolume>,
    pub machine: Option<PodMachineInfo>,
    pub docker_entrypoint: Option<Vec<String>>,
    pub docker_start_cmd: Option<Vec<String>>,
}

/// The disks of a pod.
#[derive(Debug, Clone)]
pub struct PodStorage {
    pub container_disk_in_gb: i32,
    pub volume_in_gb: F64Bits,
    pub volume_mount_path: String,
    pub volume_encrypted: bool,
}

/// How long a pod has been running, in seconds.
#[derive(Debug, Clone, Copy)]
pub struct PodRuntime {
    pub uptime_in_seconds: i32,
}

/// The machine of a pod, each member at its default where the API left it out.
#[derive(Debug, Clone, Default)]
pub struct PodMachineInfo {
    pub id: String,
    pub location: String,
    pub support_public_ip: bool,
    pub secure_cloud: bool,
}

/// The pod that a create request made.
#[derive(Debug, Default)]
pub struct PodCreateResponseData {
    pub data: Option<Pod>,
    pub errors: Option<Vec<GraphQLError>>,
}

/// The pod that a start request resumed.
#[derive(Debug, Default)]
pub struct PodStartResponseData {
    pub data: Option<PodInfoMinimal>,
    pub errors: Option<Vec<GraphQLError>>,
}

/// The pod that a stop request stopped.
#[derive(Debug, Default)]
pub struct PodStopResponseData {
    pub data: Option<PodInfoMinimalStop>,
    pub errors: Option<Vec<GraphQLError>>,
}

/// The pods of the account.
#[derive(Debug, Default)]
pub struct PodsListResponseData {
    pub data: Option<MyselfPods>,
    pub errors: Option<Vec<GraphQLError>>,
}

/// One pod, described in full.
#[derive(Debug, Default)]
pub struct PodInfoResponseData {
    pub data: Option<PodInfoFull>,
    pub errors: Option<Vec<GraphQLError>>,
}

/// A list of pod descriptions.
#[derive(Debug, Default)]
pub struct MyselfPods {
    pub pods: Vec<PodInfoFull>,
}

/// A pod's identity and image.
#[derive(Debug, Default)]
pub struct PodInfoMinimal {
    pub id: String,
    pub image_name: String,
    pub env: Vec<EnvVar>,
    pub machine_id: String,
    pub machine: MachineHost,
}

/// A pod's identity and the status it was asked to reach.
#[derive(Debug, Default)]
pub struct PodInfoMinimalStop {
    pub id: String,
    pub desired_status: Option<String>,
}

/// The host of a pod's machine.
#[derive(Debug, Default)]
pub struct MachineHost {
    pub pod_host_id: Option<String>,
}

/// The value of an optional flag, `false` where there is none.
pub open spec fn flag_or_false(b: Option<bool>) -> bool {
    match b {
        Some(v) => v,
        None => false,
    }
}

/// The number of GPUs of a pod, 0 where it reports none.
pub open spec fn gpu_count_of(p: Pod) -> i32 {
    match p.gpu {
        Some(g) => g.count,
        None => 0,
    }
}

/// A pod's uptime, 0 seconds where the API left it out.
pub open spec fn runtime_of(r: RuntimeInfo) -> PodRuntime {
    PodRuntime {
        uptime_in_seconds: match r.uptime_in_seconds {
            Some(u) => u,
            None => 0,
        },
    }
}

/// A pod's network volume, as a volume description.
pub open spec fn network_volume_of(nv: NetworkVolumeInfo) -> NetworkVolume {
    NetworkVolume { id: nv.id, name: nv.name, size: nv.size, data_center_id: nv.data_center_id }
}

/// `m` describes the machine `info`, with defaults for what it leaves out.
pub open spec fn describes_machine(m: PodMachineInfo, info: MachineInfo) -> bool {
    &&& m.id@ == text_or_empty(info.id)
    &&& m.location@ == text_or_empty(info.location)
    &&& m.support_public_ip == flag_or_false(info.support_public_ip)
    &&& m.secure_cloud == flag_or_false(info.secure_cloud)
}

/// `info` describes the pod `p` in every member but the runtime.
pub open spec fn describes_pod_but_runtime(info: PodInfoFull, p: Pod) -> bool {
    &&& info.id == p.id
    &&& info.name@ == text_or_empty(p.name)
    &&& info.desired_status == p.desired_status
    &&& info.last_status_change == p.last_status_change
    &&& info.machine_id == p.machine_id
    &&& info.gpu_count == gpu_count_of(p)
    &&& info.memory_in_gb == p.memory_in_gb
    &&& info.vcpu_count == p.vcpu_count
    &&& info.storage.container_disk_in_gb == p.container_disk_in_gb
    &&& info.storage.volume_in_gb == p.volume_in_gb
    &&& info.storage.volume_mount_path@ == text_or_empty(p.volume_mount_path)
    &&& info.storage.volume_encrypted == p.volume_encrypted
    &&& info.cost_per_hr == p.cost_per_hr
    &&& info.adjusted_cost_per_hr == p.adjusted_cost_per_hr
    &&& info.interruptible == p.interruptible
    &&& info.ports == p.ports
    &&& info.public_ip == p.public_ip
    &&& info.image@ == text_or_empty(p.image)
    &&& info.env == p.env
    &&& info.last_started_at == p.last_started_at
    &&& info.network_volume == (match p.network_volume {
        Some(nv) => Some(network_volume_of(nv)),
        None => None,
    })
    &&& match (info.machine, p.machine) {
        (Some(m), Some(mi)) => describes_machine(m, mi),
        (None, None) => true,
        _ => false,
    }
    &&& info.docker_entrypoint == p.docker_entrypoint
    &&& info.docker_start_cmd == p.docker_start_cmd
}

/// `info` is the full description of the pod `p`, its runtime included.
pub open spec fn is_full_info(info: PodInfoFull, p: Pod) -> bool {
    &&& describes_pod_but_runtime(info, p)
    &&& info.runtime == (match p.runtime {
        Some(r) => Some(runtime_of(r)),
        None => None,
    })
}

/// `info` is the description of the pod `p` that a listing gives: no runtime.
pub open spec fn is_listing_info(info: PodInfoFull, p: Pod) -> bool {
    &&& describes_pod_but_runtime(info, p)
    &&& info.runtime is None
}

fn machine_summary(info: MachineInfo) -> (m: PodMachineInfo)
    ensures
        describes_machine(m, info),
{
    PodMachineInfo {
        id: text_or_default(info.id),
        location: text_or_default(info.location),
        support_public_ip: match info.support_public_ip {
            Some(b) => b,
            None => false,
        },
        secure_cloud: match info.secure_cloud {
            Some(b) => b,
            None => false,
        },
    }
}

/// Describes `p` in full, with its runtime where `with_runtime` holds and none otherwise.
fn describe_pod(p: Pod, with_runtime: bool) -> (info: PodInfoFull)
    ensures
        with_runtime ==> is_full_info(info, p),
        !with_runtime ==> is_listing_info(info, p),
{
    let gpu_count = match &p.gpu {
        Some(g) => g.count,
        None => 0,
    };
    let runtime = if with_runtime {
        match p.runtime {
            Some(r) => Some(
                PodRuntime {
                    uptime_in_seconds: match r.uptime_in_seconds {
                        Some(u) => u,
                        None => 0,
                    },
                },
            ),
            None => None,
        }
    } else {
        None
    };
    let ghost p0 = p;
    let network_volume = match p.network_volume {
        Some(nv) => Some(
            NetworkVolume {
                id: nv.id,
                name: nv.name,
                size: nv.size,
                data_center_id: nv.data_center_id,
            },
        ),
        None => None,
    };
    let machine = match p.machine {
        Some(m) => Some(machine_summary(m)),
        None => None,
    };
    let info = PodInfoFull {
        id: p.id,
        name: text_or_default(p.name),
        desired_status: p.desired_status,
        last_status_change: p.last_status_change,
        machine_id: p.machine_id,
        gpu_count,
        memory_in_gb: p.memory_in_gb,
        vcpu_count: p.vcpu_count,
        storage: PodStorage {
            container_disk_in_gb: p.container_disk_in_gb,
            volume_in_gb: p.volume_in_gb,
            volume_mount_path: text_or_default(p.volume_mount_path),
            volume_encrypted: p.volume_encrypted,
        },
        runtime,
        cost_per_hr: p.cost_per_hr,
        adjusted_cost_per_hr: p.adjusted_cost_per_hr,
        interruptible: p.interruptible,
        ports: p.ports,
        public_ip: p.public_ip,
        image: text_or_default(p.image),
        env: p.env,
        last_started_at: p.last_started_at,
        network_volume,
        machine,
        docker_entrypoint: p.docker_entrypoint,
        docker_start_cmd: p.docker_start_cmd,
    };
    assert(describes_pod_but_runtime(info, p0));
    info
}

/// The full description of one pod, as a get request answers it.
pub fn pod_info_response(pod: Pod) -> (r: PodInfoResponseData)
    ensures
        r.data matches Some(info) && is_full_info(info, pod),
        r.errors is None,
{
    PodInfoResponseData { data: Some(describe_pod(pod, true)), errors: None }
}

/// The descriptions of the pods of a listing, one per pod and in the same order,
/// each without a runtime.
pub fn pods_list_response(pods: Vec<Pod>) -> (r: PodsListResponseData)
    ensures
        r.data matches Some(my) && my.pods.len() == pods.len() && forall|i: int|
            0 <= i < pods.len() ==> is_listing_info(#[trigger] my.pods[i], pods[i]),
        r.errors is None,
{
    let ghost all = pods@;
    let mut rest = pods;
    let mut reversed: Vec<PodInfoFull> = Vec::new();
    while rest.len() > 0
        invariant
            rest@.len() + reversed@.len() == all.len(),
            rest@ == all.take(rest@.len() as int),
            forall|i: int|
                0 <= i < reversed@.len() ==> is_listing_info(
                    #[trigger] reversed@[i],
                    all[all.len() - 1 - i],
                ),
        decreases rest@.len(),
    {
        let p = rest.pop().unwrap();
        assert(rest@ =~= all.take(rest@.len() as int));
        reversed.push(describe_pod(p, false));
    }
    let mut listed: Vec<PodInfoFull> = Vec::new();
    while reversed.len() > 0
        invariant
            listed@.len() + reversed@.len() == all.len(),
            forall|i: int|
                0 <= i < reversed@.len() ==> is_listing_info(
                    #[trigger] reversed@[i],
                    all[all.len() - 1 - i],
                ),
            forall|i: int| 0 <= i < listed@.len() ==> is_listing_info(#[trigger] listed@[i], all[i]),
        decreases reversed@.len(),
    {
        let info = reversed.pop().unwrap();
        listed.push(info);
    }
    PodsListResponseData { data: Some(MyselfPods { pods: listed }), errors: None }
}

impl Pod {
    /// The identity and image of the pod; the other members empty.
    pub fn into_minimal(self) -> (m: PodInfoMinimal)
        ensures
            m.id == self.id,
            m.image_name@ == text_or_empty(self.image),
            m.env@.len() == 0,
            m.machine_id@.len() == 0,
            m.machine.pod_host_id is None,
    {
        PodInfoMinimal {
            id: self.id,
            image_name: text_or_default(self.image),
            env: Vec::new(),
            machine_id: String::new(),
            machine: MachineHost { pod_host_id: None },
        }
    }
}

/// The pod that a create request made, as its answer.
pub fn pod_create_response(pod: Pod) -> (r: PodCreateResponseData)
    ensures
        r.data == Some(pod),
        r.errors is None,
{
    PodCreateResponseData { data: Some(pod), errors: None }
}

/// The answer to a start request: the minimal description of the resumed pod.
pub fn pod_start_response(pod: Pod) -> (r: PodStartResponseData)
    ensures
        r.data matches Some(m) && m.id == pod.id && m.image_name@ == text_or_empty(pod.image)
            && m.env@.len() == 0 && m.machine_id@.len() == 0 && m.machine.pod_host_id is None,
        r.errors is None,
{
    PodStartResponseData { data: Some(pod.into_minimal()), errors: None }
}

/// The answer to a stop request: the pod's identity and the status it was asked to reach.
pub fn pod_stop_response(pod: Pod) -> (r: PodStopResponseData)
    ensures
        r.data == Some(PodInfoMinimalStop { id: pod.id, desired_status: Some(pod.desired_status) }),
        r.errors is None,
{
    PodStopResponseData {
        data: Some(PodInfoMinimalStop { id: pod.id, desired_status: Some(pod.desired_status) }),
        errors: None,
    }
}

} // verus!
