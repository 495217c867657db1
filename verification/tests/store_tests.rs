use stor_core::errors::{ReplyErrorKind, ResourceKind};
use stor_core::requests::{CreatePool, DestroyPool, ShareReplica, UnshareReplica, CreateReplica};
use stor_core::resources::{Protocol, ReplicaOwners, ReplicaShareProtocol};
use stor_core::store::SpecStore;

fn store_with_pool() -> SpecStore {
    let mut store = SpecStore::new();
    store
        .create_pool(CreatePool {
            node: "n1".to_string(),
            id: "p1".to_string(),
            disks: vec!["aio:///dev/sda".to_string()],
            labels: None,
        })
        .unwrap();
    store
}

fn store_with_replica() -> SpecStore {
    let mut store = store_with_pool();
    store
        .create_replica(CreateReplica {
            node: "n1".to_string(),
            name: None,
            uuid: "u1".to_string(),
            pool: "p1".to_string(),
            size: 100,
            thin: true,
            share: Protocol::Off,
            managed: true,
            owners: ReplicaOwners::none(),
        })
        .unwrap();
    store
}

#[test]
fn guarded_write_from_same_observation_wins_once() {
    // Two writers read the sequencer at 0; the first write is accepted and
    // advances it, the second, still presenting 0, conflicts.
    let mut store = store_with_pool();
    assert_eq!(store.pools[0].sequencer, 0);
    let first = store.update_pool_labels(
        &"p1".to_string(),
        0,
        Some(vec![("tier".to_string(), "fast".to_string())]),
    );
    assert_eq!(first.unwrap(), 1);
    assert_eq!(store.pools[0].sequencer, 1);
    let second = store.update_pool_labels(
        &"p1".to_string(),
        0,
        Some(vec![("tier".to_string(), "slow".to_string())]),
    );
    let e = second.unwrap_err();
    assert_eq!(e.kind, ReplyErrorKind::Conflict);
    // The losing write changed nothing.
    let labels = store.pools[0].labels.as_ref().unwrap();
    assert_eq!(labels[0].1, "fast");
    // Retrying with the fresh observation succeeds.
    let third = store.update_pool_labels(&"p1".to_string(), 1, None);
    assert_eq!(third.unwrap(), 2);
    assert!(store.pools[0].labels.is_none());
}

#[test]
fn update_of_absent_pool_is_not_found() {
    let mut store = SpecStore::new();
    let e = store
        .update_pool_labels(&"nope".to_string(), 0, None)
        .unwrap_err();
    assert_eq!(e.kind, ReplyErrorKind::NotFound);
}

#[test]
fn creating_an_existing_pool_conflicts() {
    let mut store = store_with_pool();
    let e = store
        .create_pool(CreatePool {
            node: "n2".to_string(),
            id: "p1".to_string(),
            disks: Vec::new(),
            labels: None,
        })
        .unwrap_err();
    assert_eq!(e.kind, ReplyErrorKind::Conflict);
    assert_eq!(e.resource, ResourceKind::Pool);
    assert_eq!(store.pools.len(), 1);
    assert_eq!(store.pools[0].node, "n1");
}

#[test]
fn destroying_a_pool_on_the_wrong_node_is_not_found() {
    let mut store = store_with_pool();
    let e = store
        .destroy_pool(&DestroyPool { node: "n2".to_string(), id: "p1".to_string() })
        .unwrap_err();
    assert_eq!(e.kind, ReplyErrorKind::NotFound);
    assert_eq!(store.pools.len(), 1);
    store
        .destroy_pool(&DestroyPool { node: "n1".to_string(), id: "p1".to_string() })
        .unwrap();
    assert_eq!(store.pools.len(), 0);
}

#[test]
fn replica_name_defaults_to_its_identifier() {
    let store = store_with_replica();
    assert_eq!(store.replicas[0].name, "u1");
    assert_eq!(store.replicas[0].uuid, "u1");
}

#[test]
fn share_returns_scheme_node_and_identifier() {
    let mut store = store_with_replica();
    let uri = store
        .share_replica(&ShareReplica {
            node: "n1".to_string(),
            pool: "p1".to_string(),
            name: None,
            uuid: "u1".to_string(),
            protocol: ReplicaShareProtocol::Nvmf,
        })
        .unwrap();
    assert_eq!(uri, "nvmf://n1/u1");
    assert_eq!(store.replicas[0].share, Protocol::Nvmf);
    assert_eq!(store.replicas[0].sequencer, 1);
}

#[test]
fn share_over_iscsi_uses_its_scheme() {
    let mut store = store_with_replica();
    let uri = store
        .share_replica(&ShareReplica {
            node: "n1".to_string(),
            pool: "p1".to_string(),
            name: None,
            uuid: "u1".to_string(),
            protocol: ReplicaShareProtocol::Iscsi,
        })
        .unwrap();
    assert_eq!(uri, "iscsi://n1/u1");
    assert_eq!(store.replicas[0].share, Protocol::Iscsi);
}

#[test]
fn share_of_absent_replica_is_not_found() {
    let mut store = store_with_pool();
    let e = store
        .share_replica(&ShareReplica {
            node: "n1".to_string(),
            pool: "p1".to_string(),
            name: None,
            uuid: "nope".to_string(),
            protocol: ReplicaShareProtocol::Nvmf,
        })
        .unwrap_err();
    assert_eq!(e.kind, ReplyErrorKind::NotFound);
    assert_eq!(e.resource, ResourceKind::Replica);
}

#[test]
fn unshare_turns_the_protocol_off_and_advances_the_sequencer() {
    let mut store = store_with_replica();
    store
        .share_replica(&ShareReplica {
            node: "n1".to_string(),
            pool: "p1".to_string(),
            name: None,
            uuid: "u1".to_string(),
            protocol: ReplicaShareProtocol::Nvmf,
        })
        .unwrap();
    store
        .unshare_replica(&UnshareReplica {
            node: "n1".to_string(),
            pool: "p1".to_string(),
            name: None,
            uuid: "u1".to_string(),
        })
        .unwrap();
    assert_eq!(store.replicas[0].share, Protocol::Off);
    assert_eq!(store.replicas[0].sequencer, 2);
}

#[test]
fn creating_an_existing_volume_conflicts() {
    let mut store = SpecStore::new();
    store
        .create_volume("v1".to_string(), 100, 1, None)
        .unwrap();
    let e = store
        .create_volume("v1".to_string(), 200, 2, None)
        .unwrap_err();
    assert_eq!(e.kind, ReplyErrorKind::Conflict);
    assert_eq!(e.resource, ResourceKind::Volume);
    assert_eq!(store.volumes.len(), 1);
    assert_eq!(store.volumes[0].size, 100);
}

#[test]
fn owned_replicas_are_selected_in_store_order() {
    let mut store = store_with_pool();
    for (uuid, vol) in [("a", "v1"), ("b", "v2"), ("c", "v1")] {
        store
            .create_replica(CreateReplica {
                node: "n1".to_string(),
                name: None,
                uuid: uuid.to_string(),
                pool: "p1".to_string(),
                size: 1,
                thin: false,
                share: Protocol::Off,
                managed: true,
                owners: ReplicaOwners::new(Some(vol.to_string()), Vec::new()),
            })
            .unwrap();
    }
    let owned = store.get_volume_replicas(&"v1".to_string());
    assert_eq!(owned.len(), 2);
    assert_eq!(owned[0].uuid, "a");
    assert_eq!(owned[1].uuid, "c");
}
