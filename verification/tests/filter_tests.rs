use stor_core::errors::ReplyErrorKind;
use stor_core::filter::Filter;
use stor_core::registry::Registry;
use stor_core::requests::{CreatePool, CreateReplica};
use stor_core::resources::{PoolState, PoolStatus, Protocol, Replica, ReplicaOwners,
    ReplicaStatus};

fn two_pool_registry() -> Registry {
    let mut reg = Registry::new();
    for (node, pool) in [("n1", "p1"), ("n2", "p2")] {
        reg.create_pool(CreatePool {
            node: node.to_string(),
            id: pool.to_string(),
            disks: vec![format!("aio:///dev/{}", pool)],
            labels: None,
        })
        .unwrap();
    }
    reg
}

fn observe_replica(reg: &mut Registry, uuid: &str, node: &str, pool: &str) {
    reg.observe_replica_state(Replica {
        node: node.to_string(),
        name: uuid.to_string(),
        uuid: uuid.to_string(),
        pool: pool.to_string(),
        thin: false,
        size: 1,
        share: Protocol::Off,
        uri: String::new(),
        status: ReplicaStatus::Online,
    });
}

#[test]
fn unfiltered_get_pools_returns_the_full_set() {
    let reg = two_pool_registry();
    let pools = reg.get_pools(&Filter::All).unwrap();
    assert_eq!(pools.len(), 2);
    assert_eq!(pools[0].id(), "p1");
    assert_eq!(pools[1].id(), "p2");
}

#[test]
fn node_pool_filter_selects_the_one_match_or_nothing() {
    let reg = two_pool_registry();
    let hit = reg
        .get_pools(&Filter::NodePool("n2".to_string(), "p2".to_string()))
        .unwrap();
    assert_eq!(hit.len(), 1);
    assert_eq!(hit[0].node(), "n2");
    assert_eq!(hit[0].id(), "p2");
    // Node and pool must both match.
    let miss = reg
        .get_pools(&Filter::NodePool("n1".to_string(), "p2".to_string()))
        .unwrap();
    assert_eq!(miss.len(), 0);
}

#[test]
fn node_filter_selects_by_node() {
    let reg = two_pool_registry();
    let pools = reg.get_pools(&Filter::Node("n1".to_string())).unwrap();
    assert_eq!(pools.len(), 1);
    assert_eq!(pools[0].id(), "p1");
}

#[test]
fn replica_shaped_filter_is_invalid_for_pools() {
    let reg = two_pool_registry();
    let e = reg
        .get_pools(&Filter::Replica("u1".to_string()))
        .unwrap_err();
    assert_eq!(e.kind, ReplyErrorKind::InvalidArgument);
}

#[test]
fn listed_pool_carries_its_cached_state() {
    let mut reg = two_pool_registry();
    reg.observe_pool_state(PoolState {
        node: "n1".to_string(),
        id: "p1".to_string(),
        disks: vec!["aio:///dev/p1".to_string()],
        status: PoolStatus::Online,
        capacity: 1000,
        used: 10,
    });
    let pools = reg.get_pools(&Filter::Pool("p1".to_string())).unwrap();
    assert_eq!(pools.len(), 1);
    let st = pools[0].state().as_ref().unwrap();
    assert_eq!(st.status, PoolStatus::Online);
    assert_eq!(st.capacity, 1000);
    let bare = reg.get_pools(&Filter::Pool("p2".to_string())).unwrap();
    assert!(bare[0].state().is_none());
}

#[test]
fn replica_filters_select_by_each_shape() {
    let mut reg = Registry::new();
    observe_replica(&mut reg, "u1", "n1", "p1");
    observe_replica(&mut reg, "u2", "n1", "p2");
    observe_replica(&mut reg, "u3", "n2", "p2");
    assert_eq!(reg.get_replicas(&Filter::All).len(), 3);
    assert_eq!(reg.get_replicas(&Filter::Node("n1".to_string())).len(), 2);
    assert_eq!(reg.get_replicas(&Filter::Pool("p2".to_string())).len(), 2);
    assert_eq!(
        reg.get_replicas(&Filter::NodePool("n1".to_string(), "p2".to_string()))
            .len(),
        1
    );
    let one = reg.get_replicas(&Filter::NodePoolReplica(
        "n2".to_string(),
        "p2".to_string(),
        "u3".to_string(),
    ));
    assert_eq!(one.len(), 1);
    assert_eq!(one[0].uuid, "u3");
    assert_eq!(
        reg.get_replicas(&Filter::NodeReplica("n1".to_string(), "u2".to_string()))
            .len(),
        1
    );
    assert_eq!(
        reg.get_replicas(&Filter::PoolReplica("p1".to_string(), "u1".to_string()))
            .len(),
        1
    );
    assert_eq!(reg.get_replicas(&Filter::Replica("u2".to_string())).len(), 1);
}

#[test]
fn volume_filter_resolves_ownership_through_the_specs() {
    let mut reg = Registry::new();
    reg.create_replica(CreateReplica {
        node: "n1".to_string(),
        name: None,
        uuid: "u1".to_string(),
        pool: "p1".to_string(),
        size: 1,
        thin: false,
        share: Protocol::Off,
        managed: true,
        owners: ReplicaOwners::new(Some("vx".to_string()), Vec::new()),
    })
    .unwrap();
    observe_replica(&mut reg, "u1", "n1", "p1");
    observe_replica(&mut reg, "u2", "n1", "p1");
    let of_vx = reg.get_replicas(&Filter::Volume("vx".to_string()));
    assert_eq!(of_vx.len(), 1);
    assert_eq!(of_vx[0].uuid, "u1");
    assert_eq!(reg.get_replicas(&Filter::Volume("vy".to_string())).len(), 0);
}
