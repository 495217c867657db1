use stor_core::errors::{ReplyErrorKind, ResourceKind};
use stor_core::facade::{destroy_pool_plan, destroy_replica_plan, put_replica_plan,
    share_replica_plan, unshare_replica_plan, CreateReplicaBody, Resolution};
use stor_core::filter::Filter;
use stor_core::resources::{Protocol, ReplicaShareProtocol};

fn body() -> CreateReplicaBody {
    CreateReplicaBody { size: 100, thin: true, share: Protocol::Off }
}

#[test]
fn destroy_pool_acts_directly_on_a_node_pool_filter() {
    let plan = destroy_pool_plan(Filter::NodePool("n1".to_string(), "p1".to_string())).unwrap();
    match plan {
        Resolution::Ready(cmd) => {
            assert_eq!(cmd.node, "n1");
            assert_eq!(cmd.id, "p1");
        },
        _ => panic!("expected a ready command"),
    }
}

#[test]
fn destroy_pool_discovers_the_node_for_a_bare_pool_filter() {
    let plan = destroy_pool_plan(Filter::Pool("p1".to_string())).unwrap();
    assert!(matches!(plan, Resolution::PoolNodeLookup(p) if p == "p1"));
}

#[test]
fn destroy_pool_rejects_other_filter_shapes() {
    let e = destroy_pool_plan(Filter::Node("n1".to_string())).unwrap_err();
    assert_eq!(e.kind, ReplyErrorKind::InvalidArgument);
    assert_eq!(e.resource, ResourceKind::Pool);
}

#[test]
fn put_replica_carries_the_body_into_the_command() {
    let plan = put_replica_plan(
        Filter::NodePoolReplica("n1".to_string(), "p1".to_string(), "u1".to_string()),
        body(),
    )
    .unwrap();
    match plan {
        Resolution::Ready(cmd) => {
            assert_eq!(cmd.node, "n1");
            assert_eq!(cmd.pool, "p1");
            assert_eq!(cmd.uuid, "u1");
            assert_eq!(cmd.size, 100);
            assert!(cmd.thin);
            assert_eq!(cmd.share, Protocol::Off);
        },
        _ => panic!("expected a ready command"),
    }
}

#[test]
fn put_replica_discovers_the_pool_node_first() {
    let plan = put_replica_plan(
        Filter::PoolReplica("p1".to_string(), "u1".to_string()),
        body(),
    )
    .unwrap();
    assert!(matches!(plan, Resolution::PoolNodeLookup(p) if p == "p1"));
}

#[test]
fn replica_mutations_discover_through_the_replica_itself() {
    let plan =
        destroy_replica_plan(Filter::PoolReplica("p1".to_string(), "u1".to_string())).unwrap();
    assert!(matches!(plan, Resolution::ReplicaNodeLookup(p, u) if p == "p1" && u == "u1"));
    let plan = share_replica_plan(
        Filter::PoolReplica("p1".to_string(), "u1".to_string()),
        ReplicaShareProtocol::Nvmf,
    )
    .unwrap();
    assert!(matches!(plan, Resolution::ReplicaNodeLookup(_, _)));
    let plan =
        unshare_replica_plan(Filter::PoolReplica("p1".to_string(), "u1".to_string())).unwrap();
    assert!(matches!(plan, Resolution::ReplicaNodeLookup(_, _)));
}

#[test]
fn share_plan_keeps_the_protocol() {
    let plan = share_replica_plan(
        Filter::NodePoolReplica("n1".to_string(), "p1".to_string(), "u1".to_string()),
        ReplicaShareProtocol::Iscsi,
    )
    .unwrap();
    match plan {
        Resolution::Ready(cmd) => assert_eq!(cmd.protocol, ReplicaShareProtocol::Iscsi),
        _ => panic!("expected a ready command"),
    }
}

#[test]
fn replica_plans_reject_other_filter_shapes() {
    let e = destroy_replica_plan(Filter::All).unwrap_err();
    assert_eq!(e.kind, ReplyErrorKind::InvalidArgument);
    assert_eq!(e.resource, ResourceKind::Replica);
    let e = unshare_replica_plan(Filter::Volume("vx".to_string())).unwrap_err();
    assert_eq!(e.kind, ReplyErrorKind::InvalidArgument);
    let e = share_replica_plan(Filter::Node("n1".to_string()), ReplicaShareProtocol::Nvmf)
        .unwrap_err();
    assert_eq!(e.kind, ReplyErrorKind::InvalidArgument);
    let e = put_replica_plan(Filter::Pool("p1".to_string()), body()).unwrap_err();
    assert_eq!(e.kind, ReplyErrorKind::InvalidArgument);
}
