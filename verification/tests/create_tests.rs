use runpod_client::create::{normalize_cloud_type, on_demand_pod_payload};
use runpod_client::{CreateOnDemandPodRequest, CreateSpotPodRequest, EnvVar, F64Bits};

fn s(x: &str) -> String {
    x.to_string()
}

fn sample_on_demand() -> CreateOnDemandPodRequest {
    CreateOnDemandPodRequest {
        cloud_type: Some(s("SECURE")),
        gpu_count: Some(1),
        volume_in_gb: Some(20),
        container_disk_in_gb: Some(50),
        min_vcpu_count: Some(4),
        min_memory_in_gb: Some(16),
        gpu_type_id: Some(s("NVIDIA A100-SXM4-80GB")),
        name: Some(s("test_pod_from_rust")),
        image_name: Some(s("runpod/pytorch:2.1.0-py3.10-cuda11.8.0-devel-ubuntu22.04")),
        docker_args: None,
        docker_entrypoint: Some(vec![
            s("sh"),
            s("-c"),
            s("while true; do echo \"Hello from Docker Entrypoint!\"; sleep 5; done"),
        ]),
        ports: Some(s("8888")),
        volume_mount_path: None,
        env: vec![EnvVar { key: s("TEST_VAR"), value: s("test_value") }],
        network_volume_id: None,
    }
}

#[test]
fn cloud_type_is_normalized() {
    assert_eq!(normalize_cloud_type(&Some(s("COMMUNITY"))), "COMMUNITY");
    assert_eq!(normalize_cloud_type(&Some(s("SECURE"))), "SECURE");
    assert_eq!(normalize_cloud_type(&Some(s("community"))), "SECURE");
    assert_eq!(normalize_cloud_type(&Some(s("ALL"))), "SECURE");
    assert_eq!(normalize_cloud_type(&None), "SECURE");
}

#[test]
fn on_demand_input_copies_and_normalizes() {
    let req = sample_on_demand();
    let input = req.to_pod_create_input(false);
    assert_eq!(input.name, Some(s("test_pod_from_rust")));
    assert_eq!(input.image_name, req.image_name);
    assert_eq!(input.container_disk_in_gb, Some(50));
    assert_eq!(input.volume_in_gb, Some(20));
    assert_eq!(input.volume_mount_path, None);
    assert_eq!(input.ports, Some(vec![s("8888")]));
    let env = input.env.as_ref().unwrap();
    assert_eq!(env.entries(), &vec![(s("TEST_VAR"), s("test_value"))]);
    assert_eq!(input.docker_start_cmd, None);
    assert_eq!(input.docker_entrypoint, req.docker_entrypoint);
    assert_eq!(input.cloud_type, Some(s("SECURE")));
    assert_eq!(input.gpu_type_ids, Some(vec![s("NVIDIA A100-SXM4-80GB")]));
    assert_eq!(input.min_ram_per_gpu, Some(16));
    assert_eq!(input.min_vcpu_per_gpu, Some(4));
    assert_eq!(input.network_volume_id, None);
    assert_eq!(input.bid_per_gpu, None);
    assert_eq!(input.locked, None);
    assert_eq!(input.template_id, None);
    assert_eq!(input.support_public_ip, None);
}

#[test]
fn on_demand_input_as_spot_bids_zero() {
    let input = sample_on_demand().to_pod_create_input(true);
    assert_eq!(input.bid_per_gpu, Some(F64Bits(0.0f64.to_bits())));
}

#[test]
fn on_demand_input_with_empty_gpu_and_community_cloud() {
    let mut req = sample_on_demand();
    req.gpu_type_id = Some(s(""));
    req.cloud_type = Some(s("COMMUNITY"));
    req.ports = Some(s(" 22, ,8080 "));
    req.network_volume_id = Some(s("vol-1"));
    let input = req.to_pod_create_input(false);
    assert_eq!(input.gpu_type_ids, Some(vec![]));
    assert_eq!(input.cloud_type, Some(s("COMMUNITY")));
    assert_eq!(input.ports, Some(vec![s("22"), s("8080")]));
    assert_eq!(input.network_volume_id, Some(s("vol-1")));
    let none = CreateOnDemandPodRequest::default().to_pod_create_input(false);
    assert_eq!(none.gpu_type_ids, Some(vec![]));
    assert_eq!(none.ports, Some(vec![]));
    assert_eq!(none.cloud_type, Some(s("SECURE")));
}

#[test]
fn spot_input_carries_bid_and_docker_args() {
    let req = CreateSpotPodRequest {
        bid_per_gpu: F64Bits(0.5f64.to_bits()),
        cloud_type: Some(s("ALL")),
        gpu_count: 1,
        volume_in_gb: 10,
        container_disk_in_gb: 30,
        min_vcpu_count: None,
        min_memory_in_gb: Some(8),
        gpu_type_id: s("NVIDIA RTX A4000"),
        name: s("My Spot Pod"),
        image_name: s("runpod/pytorch:latest"),
        docker_entrypoint: None,
        docker_args: Some(vec![s("python"), s("main.py")]),
        ports: Some(s("8888/http,22/tcp")),
        network_volume_id: Some(s("ignored")),
        volume_mount_path: Some(s("/workspace")),
        env: vec![
            EnvVar { key: s("A"), value: s("1") },
            EnvVar { key: s("A"), value: s("2") },
        ],
    };
    for flag in [true, false] {
        let input = req.to_pod_create_input(flag);
        assert_eq!(input.name, Some(s("My Spot Pod")));
        assert_eq!(input.image_name, Some(s("runpod/pytorch:latest")));
        assert_eq!(input.container_disk_in_gb, Some(30));
        assert_eq!(input.volume_in_gb, Some(10));
        assert_eq!(input.volume_mount_path, Some(s("/workspace")));
        assert_eq!(input.ports, Some(vec![s("8888/http"), s("22/tcp")]));
        assert_eq!(input.env.as_ref().unwrap().entries(), &vec![(s("A"), s("2"))]);
        assert_eq!(input.docker_start_cmd, Some(vec![s("python"), s("main.py")]));
        assert_eq!(input.docker_entrypoint, None);
        assert_eq!(input.cloud_type, Some(s("SECURE")));
        assert_eq!(input.gpu_type_ids, Some(vec![s("NVIDIA RTX A4000")]));
        assert_eq!(input.min_ram_per_gpu, Some(8));
        assert_eq!(input.min_vcpu_per_gpu, None);
        assert_eq!(input.network_volume_id, None);
        assert_eq!(input.bid_per_gpu, Some(F64Bits(0.5f64.to_bits())));
    }
}

#[test]
fn on_demand_payload_fills_defaults() {
    let p = on_demand_pod_payload(CreateOnDemandPodRequest::default());
    assert_eq!(p.cloud_type, "SECURE");
    assert_eq!(p.compute_type, "GPU");
    assert_eq!(p.gpu_count, 1);
    assert_eq!(p.volume_in_gb, 20);
    assert_eq!(p.container_disk_in_gb, 50);
    assert_eq!(p.min_vcpu_per_gpu, 2);
    assert_eq!(p.min_ram_per_gpu, 8);
    assert_eq!(p.gpu_type_ids, vec![s("")]);
    assert_eq!(p.name, "");
    assert_eq!(p.image_name, "");
    assert!(p.docker_entrypoint.is_empty());
    assert!(p.support_public_ip);
    assert_eq!(p.ports, None);
    assert_eq!(p.env.len(), 0);
    assert_eq!(p.volume_mount_path, None);
    assert_eq!(p.network_volume_id, None);
}

#[test]
fn on_demand_payload_takes_given_values() {
    let mut req = sample_on_demand();
    req.cloud_type = Some(s("ALL"));
    req.volume_mount_path = Some(s("/workspace"));
    req.network_volume_id = Some(s("nv"));
    req.ports = Some(s("8888/http, 22/tcp"));
    let p = on_demand_pod_payload(req);
    assert_eq!(p.cloud_type, "ALL");
    assert_eq!(p.gpu_count, 1);
    assert_eq!(p.min_vcpu_per_gpu, 4);
    assert_eq!(p.min_ram_per_gpu, 16);
    assert_eq!(p.gpu_type_ids, vec![s("NVIDIA A100-SXM4-80GB")]);
    assert_eq!(p.name, "test_pod_from_rust");
    assert_eq!(p.docker_entrypoint.len(), 3);
    assert_eq!(p.ports, Some(s("8888/http, 22/tcp")));
    assert_eq!(p.env.get(&s("TEST_VAR")), Some(&s("test_value")));
    assert_eq!(p.volume_mount_path, Some(s("/workspace")));
    assert_eq!(p.network_volume_id, Some(s("nv")));
}
