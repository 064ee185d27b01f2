use fks_nodes::config::{default_listen_addr, default_master_addr, MasterVariant, NodeConfig, NodeRole, DEFAULT_REPLICAS};
use fks_nodes::health::{health_report, health_report_at_unix, root_ok, LAST_SECOND_OF_9999};
use fks_nodes::replica::{ReplicaAction, ReplicaPhase};

fn worker(master: Option<&str>, replicas: u16, sim_latency_ms: u64) -> NodeConfig {
    NodeConfig {
        role: NodeRole::Worker,
        variant: MasterVariant::RawSocket,
        listen: default_listen_addr(),
        master: master.map(|m| m.to_string()),
        replicas,
        sim_latency_ms,
    }
}

#[test]
fn defaults_match_the_command_line() {
    let c = NodeConfig::master_defaults();
    assert_eq!(c.role, NodeRole::Master);
    assert_eq!(c.variant, MasterVariant::Http);
    assert_eq!(c.listen, "0.0.0.0:8080");
    assert_eq!(c.master, None);
    assert_eq!(c.replicas, 1);
    assert_eq!(DEFAULT_REPLICAS, 1);
    assert_eq!(c.sim_latency_ms, 0);
    assert_eq!(default_master_addr(), "127.0.0.1:8080");
}

#[test]
fn master_address_falls_back_to_default() {
    assert_eq!(worker(None, 1, 0).master_addr(), "127.0.0.1:8080");
    assert_eq!(worker(Some("10.1.2.3:7000"), 1, 0).master_addr(), "10.1.2.3:7000");
}

#[test]
fn latency_is_only_reported() {
    assert_eq!(worker(None, 1, 0).latency_notice(), None);
    assert_eq!(worker(None, 1, 250).latency_notice(), Some(250));
}

#[test]
fn plan_has_one_replica_per_count() {
    let plan = worker(Some("10.1.2.3:7000"), 2, 0).spawn_plan();
    assert_eq!(plan.len(), 2);
    for (i, r) in plan.iter().enumerate() {
        assert_eq!(r.index as usize, i);
        assert_eq!(r.master, "10.1.2.3:7000");
        assert_eq!(r.phase, ReplicaPhase::Connect);
    }
    assert_eq!(worker(None, 0, 0).spawn_plan().len(), 0);
    assert_eq!(worker(None, 65535, 0).spawn_plan().len(), 65535);
}

#[test]
fn payload_ignores_latency_setting() {
    for latency in [0u64, 5, 10000] {
        for mut r in worker(None, 3, latency).spawn_plan() {
            r.on_event(fks_nodes::replica::ReplicaEvent::Connected);
            match r.next_action() {
                ReplicaAction::Send(bytes) => assert_eq!(bytes, b"register".to_vec()),
                other => panic!("expected a send, got {:?}", other),
            }
        }
    }
}

#[test]
fn health_report_fields() {
    let r = health_report("2024-05-01T12:00:00Z".to_string());
    assert_eq!(r.status, "healthy");
    assert_eq!(r.service, "fks_nodes_master");
    assert_eq!(r.timestamp, "2024-05-01T12:00:00Z");
    assert!(root_ok());
}

#[test]
fn health_timestamp_is_rfc3339_utc() {
    let r = health_report_at_unix(1714564800, 0).unwrap();
    assert_eq!(r.status, "healthy");
    assert_eq!(r.service, "fks_nodes_master");
    assert_eq!(r.timestamp, "2024-05-01T12:00:00Z");
    let epoch = health_report_at_unix(0, 0).unwrap();
    assert_eq!(epoch.timestamp, "1970-01-01T00:00:00Z");
    let frac = health_report_at_unix(1714564800, 123_000_000).unwrap();
    assert_eq!(frac.timestamp, "2024-05-01T12:00:00.123Z");
    let last = health_report_at_unix(LAST_SECOND_OF_9999, 0).unwrap();
    assert_eq!(last.timestamp, "9999-12-31T23:59:59Z");
}

#[test]
fn health_timestamp_changes_between_calls() {
    let first = health_report_at_unix(1714564800, 0).unwrap();
    let second = health_report_at_unix(1714564801, 500_000_000).unwrap();
    assert_ne!(first.timestamp, second.timestamp);
}

#[test]
fn health_report_needs_a_representable_instant() {
    assert!(health_report_at_unix(i64::MAX, 0).is_none());
    assert!(health_report_at_unix(0, 2_000_000_000).is_none());
}
