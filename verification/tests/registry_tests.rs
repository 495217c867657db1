use stor_core::registry::{PollTriggerEvent, Registry};
use stor_core::requests::{CreatePool, CreateReplica, DestroyReplica};
use stor_core::resources::{NexusState, NexusStatus, Protocol, Replica, ReplicaOwners,
    ReplicaStatus, VolumeStatus};

const GIB: u64 = 1024 * 1024 * 1024;

fn registry_with_volume(num_replicas: u8, target: Option<String>) -> Registry {
    let mut reg = Registry::new();
    let created = reg.specs.create_volume("vx".to_string(), GIB, num_replicas, target);
    assert!(created.is_ok());
    reg
}

fn add_replica(reg: &mut Registry, uuid: &str, node: &str, pool: &str, volume: &str) {
    let r = reg.create_replica(CreateReplica {
        node: node.to_string(),
        name: None,
        uuid: uuid.to_string(),
        pool: pool.to_string(),
        size: GIB,
        thin: false,
        share: Protocol::Off,
        managed: true,
        owners: ReplicaOwners::new(Some(volume.to_string()), Vec::new()),
    });
    assert!(r.is_ok());
}

fn observe(reg: &mut Registry, uuid: &str, node: &str, pool: &str, status: ReplicaStatus) {
    reg.observe_replica_state(Replica {
        node: node.to_string(),
        name: uuid.to_string(),
        uuid: uuid.to_string(),
        pool: pool.to_string(),
        thin: false,
        size: GIB,
        share: Protocol::Off,
        uri: String::new(),
        status,
    });
}

#[test]
fn unbound_volume_online_when_replicas_meet_desired() {
    let mut reg = registry_with_volume(2, None);
    add_replica(&mut reg, "r1", "n1", "p1", "vx");
    add_replica(&mut reg, "r2", "n1", "p1", "vx");
    let st = reg.get_volume_state(&"vx".to_string()).unwrap();
    assert_eq!(st.status, VolumeStatus::Online);
    assert_eq!(st.size, GIB);
}

#[test]
fn unbound_volume_degraded_when_replicas_below_desired() {
    let mut reg = registry_with_volume(3, None);
    add_replica(&mut reg, "r1", "n1", "p1", "vx");
    let st = reg.get_volume_state(&"vx".to_string()).unwrap();
    assert_eq!(st.status, VolumeStatus::Degraded);
}

#[test]
fn unbound_volume_faulted_with_no_replicas() {
    let reg = registry_with_volume(3, None);
    let st = reg.get_volume_state(&"vx".to_string()).unwrap();
    assert_eq!(st.status, VolumeStatus::Faulted);
    assert_eq!(st.replica_topology.len(), 0);
}

#[test]
fn bound_but_unreachable_target_is_unknown() {
    let mut reg = registry_with_volume(1, Some("nx1".to_string()));
    add_replica(&mut reg, "r1", "n1", "p1", "vx");
    let st = reg.get_volume_state(&"vx".to_string()).unwrap();
    assert_eq!(st.status, VolumeStatus::Unknown);
    assert!(st.target.is_none());
}

#[test]
fn online_nexus_with_matching_children_is_online() {
    let mut reg = registry_with_volume(2, Some("nx1".to_string()));
    reg.specs
        .create_nexus("nx1".to_string(), "n1".to_string(), 2 * GIB, 2)
        .unwrap();
    reg.observe_nexus_state(NexusState {
        uuid: "nx1".to_string(),
        size: 2 * GIB,
        status: NexusStatus::Online,
        children: 2,
    });
    let st = reg.get_volume_state(&"vx".to_string()).unwrap();
    assert_eq!(st.status, VolumeStatus::Online);
    assert_eq!(st.size, 2 * GIB);
    assert!(st.target.is_some());
}

#[test]
fn online_nexus_with_child_mismatch_is_degraded() {
    let mut reg = registry_with_volume(2, Some("nx1".to_string()));
    reg.specs
        .create_nexus("nx1".to_string(), "n1".to_string(), 2 * GIB, 2)
        .unwrap();
    reg.observe_nexus_state(NexusState {
        uuid: "nx1".to_string(),
        size: 2 * GIB,
        status: NexusStatus::Online,
        children: 1,
    });
    let st = reg.get_volume_state(&"vx".to_string()).unwrap();
    assert_eq!(st.status, VolumeStatus::Degraded);
}

#[test]
fn faulted_nexus_is_carried_over() {
    let mut reg = registry_with_volume(2, Some("nx1".to_string()));
    reg.specs
        .create_nexus("nx1".to_string(), "n1".to_string(), 2 * GIB, 2)
        .unwrap();
    reg.observe_nexus_state(NexusState {
        uuid: "nx1".to_string(),
        size: 2 * GIB,
        status: NexusStatus::Faulted,
        children: 2,
    });
    let st = reg.get_volume_state(&"vx".to_string()).unwrap();
    assert_eq!(st.status, VolumeStatus::Faulted);
}

#[test]
fn unanswered_replica_gets_default_topology_not_an_error() {
    let mut reg = registry_with_volume(2, None);
    add_replica(&mut reg, "r1", "n1", "p1", "vx");
    add_replica(&mut reg, "r2", "n2", "p2", "vx");
    observe(&mut reg, "r1", "n1", "p1", ReplicaStatus::Online);
    // r2 never answers; the call must still succeed with a default entry.
    let st = reg.get_volume_state(&"vx".to_string()).unwrap();
    assert_eq!(st.replica_topology.len(), 2);
    let (k1, t1) = &st.replica_topology[0];
    assert_eq!(k1, "r1");
    assert_eq!(t1.node.as_deref(), Some("n1"));
    assert_eq!(t1.pool.as_deref(), Some("p1"));
    assert_eq!(t1.status, ReplicaStatus::Online);
    let (k2, t2) = &st.replica_topology[1];
    assert_eq!(k2, "r2");
    assert!(t2.node.is_none());
    assert!(t2.pool.is_none());
    assert_eq!(t2.status, ReplicaStatus::Unknown);
}

#[test]
fn topology_size_tracks_owned_specs_not_answers() {
    let mut reg = registry_with_volume(3, None);
    add_replica(&mut reg, "r1", "n1", "p1", "vx");
    add_replica(&mut reg, "r2", "n2", "p1", "vx");
    add_replica(&mut reg, "r3", "n3", "p1", "vx");
    // A replica of another volume must not appear.
    let other = reg.create_replica(CreateReplica {
        node: "n1".to_string(),
        name: None,
        uuid: "other".to_string(),
        pool: "p1".to_string(),
        size: GIB,
        thin: false,
        share: Protocol::Off,
        managed: true,
        owners: ReplicaOwners::new(Some("vy".to_string()), Vec::new()),
    });
    assert!(other.is_ok());
    let st = reg.get_volume_state(&"vx".to_string()).unwrap();
    assert_eq!(st.replica_topology.len(), 3);
    observe(&mut reg, "r2", "n2", "p1", ReplicaStatus::Online);
    let st = reg.get_volume_state(&"vx".to_string()).unwrap();
    assert_eq!(st.replica_topology.len(), 3);
}

#[test]
fn absent_volume_is_not_found() {
    let reg = Registry::new();
    let e = reg.get_volume_state(&"nope".to_string()).unwrap_err();
    assert_eq!(e.kind, stor_core::errors::ReplyErrorKind::NotFound);
    assert_eq!(e.resource, stor_core::errors::ResourceKind::Volume);
}

#[test]
fn create_pool_then_replica_derives_degraded_with_placement() {
    // End to end: pool on one node with one disk, one replica of a volume
    // that desires three.
    let mut reg = Registry::new();
    let pool = reg
        .create_pool(CreatePool {
            node: "n1".to_string(),
            id: "p".to_string(),
            disks: vec!["aio:///dev/sda".to_string()],
            labels: None,
        })
        .unwrap();
    assert_eq!(pool.node(), "n1");
    assert_eq!(pool.id(), "p");
    reg.specs
        .create_volume("vx".to_string(), GIB, 3, None)
        .unwrap();
    add_replica(&mut reg, "r1", "n1", "p", "vx");
    observe(&mut reg, "r1", "n1", "p", ReplicaStatus::Online);
    let st = reg.get_volume_state(&"vx".to_string()).unwrap();
    assert_eq!(st.status, VolumeStatus::Degraded);
    assert_eq!(st.size, GIB);
    assert_eq!(st.replica_topology.len(), 1);
    let (k, t) = &st.replica_topology[0];
    assert_eq!(k, "r1");
    assert_eq!(t.node.as_deref(), Some("n1"));
    assert_eq!(t.pool.as_deref(), Some("p"));
    assert_eq!(t.status, ReplicaStatus::Online);
}

#[test]
fn destroying_only_replica_faults_volume_with_empty_topology() {
    let mut reg = registry_with_volume(1, None);
    add_replica(&mut reg, "r1", "n1", "p1", "vx");
    observe(&mut reg, "r1", "n1", "p1", ReplicaStatus::Online);
    let st = reg.get_volume_state(&"vx".to_string()).unwrap();
    assert_eq!(st.status, VolumeStatus::Online);
    reg.destroy_replica(&DestroyReplica {
        node: "n1".to_string(),
        pool: "p1".to_string(),
        name: None,
        uuid: "r1".to_string(),
        disowners: ReplicaOwners::none(),
    })
    .unwrap();
    let st = reg.get_volume_state(&"vx".to_string()).unwrap();
    assert_eq!(st.status, VolumeStatus::Faulted);
    assert_eq!(st.replica_topology.len(), 0);
}

#[test]
fn get_volumes_lists_every_volume() {
    let mut reg = Registry::new();
    reg.specs
        .create_volume("v1".to_string(), GIB, 1, None)
        .unwrap();
    reg.specs
        .create_volume("v2".to_string(), 2 * GIB, 2, None)
        .unwrap();
    let vols = reg.get_volumes();
    assert_eq!(vols.len(), 2);
    assert_eq!(vols[0].spec.uuid, "v1");
    assert_eq!(vols[1].spec.uuid, "v2");
    assert_eq!(vols[0].state.status, VolumeStatus::Faulted);
}

#[test]
fn get_volume_pairs_spec_and_state() {
    let mut reg = registry_with_volume(1, None);
    add_replica(&mut reg, "r1", "n1", "p1", "vx");
    let v = reg.get_volume(&"vx".to_string()).unwrap();
    assert_eq!(v.spec.uuid, "vx");
    assert_eq!(v.status(), VolumeStatus::Online);
}

#[test]
fn notify_emits_exactly_when_degraded() {
    let mut reg = registry_with_volume(2, None);
    add_replica(&mut reg, "r1", "n1", "p1", "vx");
    let degraded = reg.get_volume(&"vx".to_string()).unwrap();
    let emitted = reg.notify_if_degraded(&degraded, PollTriggerEvent::VolumeDegraded);
    assert!(emitted);
    assert_eq!(reg.pending_triggers.len(), 1);
    // A healthy volume must not emit.
    add_replica(&mut reg, "r2", "n1", "p1", "vx");
    let online = reg.get_volume(&"vx".to_string()).unwrap();
    assert_eq!(online.status(), VolumeStatus::Online);
    let emitted = reg.notify_if_degraded(&online, PollTriggerEvent::VolumeDegraded);
    assert!(!emitted);
    assert_eq!(reg.pending_triggers.len(), 1);
}

#[test]
fn repeated_degraded_notifications_coalesce() {
    let mut reg = registry_with_volume(2, None);
    add_replica(&mut reg, "r1", "n1", "p1", "vx");
    let degraded = reg.get_volume(&"vx".to_string()).unwrap();
    assert!(reg.notify_if_degraded(&degraded, PollTriggerEvent::VolumeDegraded));
    assert!(reg.notify_if_degraded(&degraded, PollTriggerEvent::VolumeDegraded));
    assert!(reg.notify_if_degraded(&degraded, PollTriggerEvent::VolumeDegraded));
    assert_eq!(reg.pending_triggers.len(), 1);
    // A different event for the same volume is separate corrective work.
    assert!(reg.notify_if_degraded(&degraded, PollTriggerEvent::ResourceCreatedOrDeleted));
    assert_eq!(reg.pending_triggers.len(), 2);
    let drained = reg.drain_triggers();
    assert_eq!(drained.len(), 2);
    assert_eq!(drained[0].0, "vx");
    assert_eq!(drained[0].1, PollTriggerEvent::VolumeDegraded);
    assert_eq!(reg.pending_triggers.len(), 0);
}

#[test]
fn forgetting_a_state_returns_topology_to_default() {
    let mut reg = registry_with_volume(1, None);
    add_replica(&mut reg, "r1", "n1", "p1", "vx");
    observe(&mut reg, "r1", "n1", "p1", ReplicaStatus::Online);
    let st = reg.get_volume_state(&"vx".to_string()).unwrap();
    assert_eq!(st.replica_topology[0].1.status, ReplicaStatus::Online);
    reg.forget_replica_state(&"r1".to_string());
    let st = reg.get_volume_state(&"vx".to_string()).unwrap();
    assert!(st.replica_topology[0].1.node.is_none());
    assert_eq!(st.replica_topology[0].1.status, ReplicaStatus::Unknown);
}

#[test]
fn observing_twice_keeps_one_cache_entry() {
    let mut reg = registry_with_volume(1, None);
    add_replica(&mut reg, "r1", "n1", "p1", "vx");
    observe(&mut reg, "r1", "n1", "p1", ReplicaStatus::Online);
    observe(&mut reg, "r1", "n1", "p1", ReplicaStatus::Degraded);
    assert_eq!(reg.replica_states.len(), 1);
    let st = reg.get_volume_state(&"vx".to_string()).unwrap();
    assert_eq!(st.replica_topology[0].1.status, ReplicaStatus::Degraded);
}
