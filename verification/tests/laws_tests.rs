use runpod_client::create::normalize_cloud_type;
use runpod_client::pods::{pod_info_response, pods_list_response};
use runpod_client::text::parse_port_list;
use runpod_client::{EnvVar, F64Bits, Pod, StringMap};

fn s(x: &str) -> String {
    x.to_string()
}

#[test]
fn law_parsed_ports_are_clean() {
    for text in ["a, b ,c", " ,x,,y , ", "\u{3000}80\u{3000},443", "", ",,,"] {
        for p in parse_port_list(text) {
            assert!(!p.is_empty());
            assert!(!p.contains(','));
            assert_eq!(p.trim(), p);
        }
    }
}

#[test]
fn law_ports_round_trip_through_join() {
    for text in ["a, b ,c", " ,x,,y , ", "8888/http", "", " , "] {
        let ports = parse_port_list(text);
        assert_eq!(parse_port_list(&ports.join(",")), ports);
    }
}

#[test]
fn law_env_map_last_wins_and_keys() {
    let env = vec![
        EnvVar { key: s("A"), value: s("1") },
        EnvVar { key: s("B"), value: s("2") },
        EnvVar { key: s("A"), value: s("3") },
    ];
    let m = StringMap::from_env_vars(&env);
    assert_eq!(m.get(&s("A")), Some(&s("3")));
    assert_eq!(m.get(&s("B")), Some(&s("2")));
    assert_eq!(m.get(&s("C")), None);
}

#[test]
fn law_cloud_type_is_idempotent() {
    for c in [None, Some(s("SECURE")), Some(s("COMMUNITY")), Some(s("ALL")), Some(s(""))] {
        let once = normalize_cloud_type(&c);
        assert!(once == "SECURE" || once == "COMMUNITY");
        assert_eq!(normalize_cloud_type(&Some(once.clone())), once);
    }
}

fn pod(id: &str, uptime: Option<i32>) -> Pod {
    Pod {
        id: s(id),
        name: Some(s("n")),
        desired_status: s("EXITED"),
        last_status_change: s("t"),
        machine_id: s("m"),
        memory_in_gb: F64Bits(1.5f64.to_bits()),
        vcpu_count: F64Bits(2.0f64.to_bits()),
        container_disk_in_gb: 5,
        volume_in_gb: F64Bits(0.0f64.to_bits()),
        volume_mount_path: None,
        volume_encrypted: false,
        cost_per_hr: F64Bits(0.1f64.to_bits()),
        adjusted_cost_per_hr: F64Bits(0.1f64.to_bits()),
        interruptible: true,
        ports: vec![s("22/tcp")],
        public_ip: None,
        image: Some(s("i")),
        env: StringMap::new(),
        last_started_at: None,
        gpu: None,
        machine: None,
        runtime: uptime.map(|u| runpod_client::RuntimeInfo { uptime_in_seconds: Some(u) }),
        network_volume: None,
        savings_plans: None,
        docker_entrypoint: None,
        docker_start_cmd: None,
    }
}

#[test]
fn law_listing_agrees_with_get_but_runtime() {
    let full = pod_info_response(pod("q", Some(7))).data.unwrap();
    let listed = pods_list_response(vec![pod("q", Some(7))]).data.unwrap().pods.remove(0);
    assert_eq!(full.runtime.unwrap().uptime_in_seconds, 7);
    assert!(listed.runtime.is_none());
    assert_eq!(full.id, listed.id);
    assert_eq!(full.name, listed.name);
    assert_eq!(full.desired_status, listed.desired_status);
    assert_eq!(full.memory_in_gb, listed.memory_in_gb);
    assert_eq!(full.ports, listed.ports);
    assert_eq!(full.image, listed.image);
    assert_eq!(full.storage.container_disk_in_gb, listed.storage.container_disk_in_gb);
    assert_eq!(full.interruptible, listed.interruptible);
}
