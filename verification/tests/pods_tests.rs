use runpod_client::pods::{
    pod_create_response, pod_info_response, pod_start_response, pod_stop_response,
    pods_list_response,
};
use runpod_client::{
    F64Bits, GpuInfo, MachineInfo, NetworkVolumeInfo, Pod, RuntimeInfo, StringMap,
};

fn s(x: &str) -> String {
    x.to_string()
}

fn f(x: f64) -> F64Bits {
    F64Bits(x.to_bits())
}

fn full_pod(id: &str) -> Pod {
    let mut env = StringMap::new();
    env.insert(s("KEY"), s("VALUE"));
    Pod {
        id: s(id),
        name: Some(s("name")),
        desired_status: s("RUNNING"),
        last_status_change: s("yesterday"),
        machine_id: s("m1"),
        memory_in_gb: f(31.5),
        vcpu_count: f(8.0),
        container_disk_in_gb: 50,
        volume_in_gb: f(20.0),
        volume_mount_path: Some(s("/workspace")),
        volume_encrypted: true,
        cost_per_hr: f(0.44),
        adjusted_cost_per_hr: f(0.4),
        interruptible: false,
        ports: vec![s("8888/http")],
        public_ip: Some(s("1.2.3.4")),
        image: Some(s("img")),
        env,
        last_started_at: Some(s("today")),
        gpu: Some(GpuInfo { id: s("g"), count: 2, display_name: s("A100") }),
        machine: Some(MachineInfo {
            gpu_type_id: Some(s("g")),
            id: Some(s("mach")),
            location: None,
            support_public_ip: Some(true),
            secure_cloud: None,
        }),
        runtime: Some(RuntimeInfo { uptime_in_seconds: Some(42) }),
        network_volume: Some(NetworkVolumeInfo {
            id: s("nv"),
            name: s("vol"),
            size: 100,
            data_center_id: s("EU-RO-1"),
        }),
        savings_plans: None,
        docker_entrypoint: Some(vec![s("sh")]),
        docker_start_cmd: None,
    }
}

fn bare_pod(id: &str) -> Pod {
    Pod {
        id: s(id),
        name: None,
        desired_status: s(""),
        last_status_change: s(""),
        machine_id: s(""),
        memory_in_gb: f(0.0),
        vcpu_count: f(0.0),
        container_disk_in_gb: 0,
        volume_in_gb: f(0.0),
        volume_mount_path: None,
        volume_encrypted: false,
        cost_per_hr: f(0.0),
        adjusted_cost_per_hr: f(0.0),
        interruptible: true,
        ports: vec![],
        public_ip: None,
        image: None,
        env: StringMap::new(),
        last_started_at: None,
        gpu: None,
        machine: None,
        runtime: Some(RuntimeInfo { uptime_in_seconds: None }),
        network_volume: None,
        savings_plans: None,
        docker_entrypoint: None,
        docker_start_cmd: Some(vec![s("run")]),
    }
}

#[test]
fn get_pod_describes_every_member() {
    let r = pod_info_response(full_pod("p1"));
    assert!(r.errors.is_none());
    let info = r.data.unwrap();
    assert_eq!(info.id, "p1");
    assert_eq!(info.name, "name");
    assert_eq!(info.desired_status, "RUNNING");
    assert_eq!(info.last_status_change, "yesterday");
    assert_eq!(info.machine_id, "m1");
    assert_eq!(info.gpu_count, 2);
    assert_eq!(f64::from_bits(info.memory_in_gb.0), 31.5);
    assert_eq!(f64::from_bits(info.vcpu_count.0), 8.0);
    assert_eq!(info.storage.container_disk_in_gb, 50);
    assert_eq!(f64::from_bits(info.storage.volume_in_gb.0), 20.0);
    assert_eq!(info.storage.volume_mount_path, "/workspace");
    assert!(info.storage.volume_encrypted);
    assert_eq!(info.runtime.unwrap().uptime_in_seconds, 42);
    assert_eq!(f64::from_bits(info.cost_per_hr.0), 0.44);
    assert_eq!(f64::from_bits(info.adjusted_cost_per_hr.0), 0.4);
    assert!(!info.interruptible);
    assert_eq!(info.ports, vec![s("8888/http")]);
    assert_eq!(info.public_ip, Some(s("1.2.3.4")));
    assert_eq!(info.image, "img");
    assert_eq!(info.env.get(&s("KEY")), Some(&s("VALUE")));
    assert_eq!(info.last_started_at, Some(s("today")));
    let nv = info.network_volume.unwrap();
    assert_eq!((nv.id.as_str(), nv.name.as_str(), nv.size, nv.data_center_id.as_str()), ("nv", "vol", 100, "EU-RO-1"));
    let m = info.machine.unwrap();
    assert_eq!(m.id, "mach");
    assert_eq!(m.location, "");
    assert!(m.support_public_ip);
    assert!(!m.secure_cloud);
    assert_eq!(info.docker_entrypoint, Some(vec![s("sh")]));
    assert_eq!(info.docker_start_cmd, None);
}

#[test]
fn get_pod_fills_defaults() {
    let info = pod_info_response(bare_pod("p2")).data.unwrap();
    assert_eq!(info.name, "");
    assert_eq!(info.gpu_count, 0);
    assert_eq!(info.storage.volume_mount_path, "");
    assert_eq!(info.image, "");
    assert_eq!(info.runtime.unwrap().uptime_in_seconds, 0);
    assert!(info.machine.is_none());
    assert!(info.network_volume.is_none());
    assert_eq!(info.docker_start_cmd, Some(vec![s("run")]));
}

#[test]
fn listing_keeps_order_and_drops_runtime() {
    let r = pods_list_response(vec![full_pod("a"), bare_pod("b"), full_pod("c")]);
    assert!(r.errors.is_none());
    let pods = r.data.unwrap().pods;
    let ids: Vec<&str> = pods.iter().map(|p| p.id.as_str()).collect();
    assert_eq!(ids, vec!["a", "b", "c"]);
    assert!(pods.iter().all(|p| p.runtime.is_none()));
    assert_eq!(pods[0].gpu_count, 2);
    assert_eq!(pods[1].name, "");
    assert!(pods_list_response(vec![]).data.unwrap().pods.is_empty());
}

#[test]
fn start_answer_is_minimal() {
    let r = pod_start_response(full_pod("p3"));
    assert!(r.errors.is_none());
    let m = r.data.unwrap();
    assert_eq!(m.id, "p3");
    assert_eq!(m.image_name, "img");
    assert!(m.env.is_empty());
    assert_eq!(m.machine_id, "");
    assert!(m.machine.pod_host_id.is_none());
    assert_eq!(bare_pod("p4").into_minimal().image_name, "");
}

#[test]
fn stop_answer_has_desired_status() {
    let r = pod_stop_response(full_pod("p5"));
    let d = r.data.unwrap();
    assert_eq!(d.id, "p5");
    assert_eq!(d.desired_status, Some(s("RUNNING")));
    assert!(r.errors.is_none());
}

#[test]
fn create_answer_holds_the_pod() {
    let r = pod_create_response(full_pod("p6"));
    assert_eq!(r.data.unwrap().id, "p6");
    assert!(r.errors.is_none());
}
