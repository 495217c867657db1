use stor_core::errors::{ReplyError, ReplyErrorKind, ResourceKind};
use stor_core::registry::Registry;
use stor_core::requests::{CreatePool, ShareReplica, UnshareReplica};
use stor_core::resources::{PoolSpecStatus, PoolStatus, Protocol, ReplicaStatus};
use stor_core::server::{serve_create_pool, serve_create_replica, serve_get_pools,
    serve_get_replicas, serve_share_replica};
use stor_core::wire::{
    create_pool_request, create_replica_from_request, decode_create_pool_reply,
    decode_destroy_pool_reply, filter_from_pool_request, pool_from_wire, pool_to_wire,
    replica_from_wire, reply_error_from_wire, reply_error_to_wire, share_replica_request,
    unshare_replica_request, CreatePoolReply, CreatePoolReplyKind, CreateReplicaReplyKind,
    CreateReplicaRequest, DestroyPoolReply, GetPoolsReplyKind, GetPoolsRequest,
    GetReplicasReplyKind, GetReplicasRequest, PoolFilterShape, PoolFilter, ShareReplicaReplyKind,
    ShareReplicaRequest, WireMetadata, WirePool, WirePoolDefinition, WirePoolSpec, WirePoolState,
    WireReplica, WireReplicaOwners,
};
use stor_core::filter::Filter;

fn wire_pool() -> WirePool {
    WirePool {
        definition: Some(WirePoolDefinition {
            spec: Some(WirePoolSpec {
                node_id: "n1".to_string(),
                pool_id: "p1".to_string(),
                disks: vec!["aio:///dev/sda".to_string()],
                labels: None,
            }),
            metadata: Some(WireMetadata { uuid: None, status: 1 }),
        }),
        state: Some(WirePoolState {
            node_id: "n1".to_string(),
            pool_id: "p1".to_string(),
            disks_uri: vec!["aio:///dev/sda".to_string()],
            status: 1,
            capacity: 1000,
            used: 1,
        }),
    }
}

#[test]
fn pool_round_trips_through_the_wire() {
    let p = pool_from_wire(wire_pool()).unwrap();
    let spec = p.spec().as_ref().unwrap();
    assert_eq!(spec.node, "n1");
    assert_eq!(spec.id, "p1");
    // A created spec takes its health from the accompanying state.
    assert_eq!(spec.status, PoolSpecStatus::Created(PoolStatus::Online));
    let state = p.state().as_ref().unwrap();
    assert_eq!(state.status, PoolStatus::Online);
    let back = pool_to_wire(p);
    let ws = back.definition.unwrap();
    assert_eq!(ws.spec.unwrap().pool_id, "p1");
    assert_eq!(ws.metadata.unwrap().status, 1);
    assert_eq!(back.state.unwrap().capacity, 1000);
}

#[test]
fn created_spec_without_state_reports_default_health() {
    let mut w = wire_pool();
    w.state = None;
    let p = pool_from_wire(w).unwrap();
    let spec = p.spec().as_ref().unwrap();
    assert_eq!(spec.status, PoolSpecStatus::Created(PoolStatus::Unknown));
}

#[test]
fn malformed_wire_pool_is_invalid_argument() {
    // Missing metadata.
    let mut w = wire_pool();
    if let Some(d) = w.definition.as_mut() {
        d.metadata = None;
    }
    let e = pool_from_wire(w).unwrap_err();
    assert_eq!(e.kind, ReplyErrorKind::InvalidArgument);
    // Health code out of range.
    let mut w = wire_pool();
    if let Some(st) = w.state.as_mut() {
        st.status = 9;
    }
    let e = pool_from_wire(w).unwrap_err();
    assert_eq!(e.kind, ReplyErrorKind::InvalidArgument);
    // Neither part present.
    let e = pool_from_wire(WirePool { definition: None, state: None }).unwrap_err();
    assert_eq!(e.kind, ReplyErrorKind::InvalidArgument);
}

#[test]
fn replica_without_identifier_is_invalid() {
    let w = WireReplica {
        node_id: "n1".to_string(),
        name: "r".to_string(),
        replica_id: None,
        pool_id: "p1".to_string(),
        thin: false,
        size: 1,
        share: 0,
        uri: String::new(),
        status: 1,
    };
    let e = replica_from_wire(w).unwrap_err();
    assert_eq!(e.kind, ReplyErrorKind::InvalidArgument);
    assert_eq!(e.resource, ResourceKind::Replica);
}

#[test]
fn create_replica_request_validation() {
    let good = CreateReplicaRequest {
        node_id: "n1".to_string(),
        pool_id: "p1".to_string(),
        name: None,
        replica_id: Some("u1".to_string()),
        thin: true,
        size: 42,
        share: 1,
        managed: false,
        owners: Some(WireReplicaOwners {
            volume: Some("vx".to_string()),
            nexuses: vec!["nx1".to_string()],
        }),
    };
    let cmd = create_replica_from_request(good).unwrap();
    assert_eq!(cmd.uuid, "u1");
    assert_eq!(cmd.share, Protocol::Nvmf);
    assert_eq!(cmd.owners.volume.as_deref(), Some("vx"));
    assert_eq!(cmd.owners.nexuses, vec!["nx1".to_string()]);

    let missing_id = CreateReplicaRequest {
        node_id: "n1".to_string(),
        pool_id: "p1".to_string(),
        name: None,
        replica_id: None,
        thin: true,
        size: 42,
        share: 1,
        managed: false,
        owners: None,
    };
    let e = create_replica_from_request(missing_id).unwrap_err();
    assert_eq!(e.kind, ReplyErrorKind::InvalidArgument);

    let bad_share = CreateReplicaRequest {
        node_id: "n1".to_string(),
        pool_id: "p1".to_string(),
        name: None,
        replica_id: Some("u1".to_string()),
        thin: true,
        size: 42,
        share: 99,
        managed: false,
        owners: None,
    };
    let e = create_replica_from_request(bad_share).unwrap_err();
    assert_eq!(e.kind, ReplyErrorKind::InvalidArgument);
}

#[test]
fn reply_error_codes_round_trip() {
    for kind in [
        ReplyErrorKind::NotFound,
        ReplyErrorKind::Conflict,
        ReplyErrorKind::Unreachable,
        ReplyErrorKind::InvalidArgument,
        ReplyErrorKind::Internal,
    ] {
        let w = reply_error_to_wire(ReplyError::new(
            kind,
            ResourceKind::Replica,
            "src".to_string(),
            "extra".to_string(),
        ));
        let back = reply_error_from_wire(w);
        assert_eq!(back.kind, kind);
        assert_eq!(back.resource, ResourceKind::Replica);
        assert_eq!(back.source, "src");
        assert_eq!(back.extra, "extra");
    }
}

#[test]
fn absent_filter_decodes_to_no_constraint() {
    let f = filter_from_pool_request(GetPoolsRequest { filter: None });
    assert!(matches!(f, Filter::All));
    let f = filter_from_pool_request(GetPoolsRequest {
        filter: Some(PoolFilterShape::Pool(PoolFilter { pool_id: "p1".to_string() })),
    });
    assert!(matches!(f, Filter::Pool(p) if p == "p1"));
}

#[test]
fn absent_reply_payload_decodes_to_internal_error() {
    let e = decode_create_pool_reply(CreatePoolReply { reply: None }).unwrap_err();
    assert_eq!(e.kind, ReplyErrorKind::Internal);
    assert!(decode_destroy_pool_reply(DestroyPoolReply { error: None }).is_ok());
}

#[test]
fn served_pool_lifecycle_over_the_wire() {
    let mut reg = Registry::new();
    let req = create_pool_request(&CreatePool {
        node: "n1".to_string(),
        id: "p1".to_string(),
        disks: vec!["aio:///dev/sda".to_string()],
        labels: None,
    });
    let reply = serve_create_pool(&mut reg, req);
    match reply.reply {
        Some(CreatePoolReplyKind::Pool(wp)) => {
            let p = pool_from_wire(wp).unwrap();
            assert_eq!(p.id(), "p1");
        },
        _ => panic!("expected a pool reply"),
    }
    // An unfiltered listing over the wire shows it.
    let reply = serve_get_pools(&reg, GetPoolsRequest { filter: None });
    match reply.reply {
        Some(GetPoolsReplyKind::Pools(wps)) => {
            assert_eq!(wps.len(), 1);
            assert_eq!(wps[0].definition.as_ref().unwrap().spec.as_ref().unwrap().pool_id, "p1");
        },
        _ => panic!("expected a pools reply"),
    }
    // Creating the same pool again conflicts, carried as a wire error.
    let req = create_pool_request(&CreatePool {
        node: "n1".to_string(),
        id: "p1".to_string(),
        disks: Vec::new(),
        labels: None,
    });
    let reply = serve_create_pool(&mut reg, req);
    match reply.reply {
        Some(CreatePoolReplyKind::Error(we)) => {
            let e = reply_error_from_wire(we);
            assert_eq!(e.kind, ReplyErrorKind::Conflict);
        },
        _ => panic!("expected an error reply"),
    }
}

#[test]
fn served_replica_share_returns_the_uri() {
    let mut reg = Registry::new();
    let create = CreateReplicaRequest {
        node_id: "n1".to_string(),
        pool_id: "p1".to_string(),
        name: None,
        replica_id: Some("u1".to_string()),
        thin: false,
        size: 1,
        share: 0,
        managed: true,
        owners: None,
    };
    let reply = serve_create_replica(&mut reg, create);
    assert!(matches!(reply.reply, Some(CreateReplicaReplyKind::Replica(_))));
    let share = share_replica_request(&ShareReplica {
        node: "n1".to_string(),
        pool: "p1".to_string(),
        name: None,
        uuid: "u1".to_string(),
        protocol: stor_core::resources::ReplicaShareProtocol::Nvmf,
    });
    let reply = serve_share_replica(&mut reg, share);
    match reply.reply {
        Some(ShareReplicaReplyKind::Response(uri)) => assert_eq!(uri, "nvmf://n1/u1"),
        _ => panic!("expected a share response"),
    }
    // Unshare request builders carry the addressed location.
    let unshare = unshare_replica_request(&UnshareReplica {
        node: "n1".to_string(),
        pool: "p1".to_string(),
        name: None,
        uuid: "u1".to_string(),
    });
    assert_eq!(unshare.replica_id.as_deref(), Some("u1"));
}

#[test]
fn served_replica_listing_encodes_every_cached_state() {
    let mut reg = Registry::new();
    reg.observe_replica_state(stor_core::resources::Replica {
        node: "n1".to_string(),
        name: "u1".to_string(),
        uuid: "u1".to_string(),
        pool: "p1".to_string(),
        thin: false,
        size: 7,
        share: Protocol::Nvmf,
        uri: "nvmf://n1/u1".to_string(),
        status: ReplicaStatus::Online,
    });
    let reply = serve_get_replicas(&reg, GetReplicasRequest { filter: None });
    match reply.reply {
        Some(GetReplicasReplyKind::Replicas(wrs)) => {
            assert_eq!(wrs.len(), 1);
            assert_eq!(wrs[0].replica_id.as_deref(), Some("u1"));
            assert_eq!(wrs[0].share, 1);
            assert_eq!(wrs[0].status, 1);
            assert_eq!(wrs[0].uri, "nvmf://n1/u1");
        },
        _ => panic!("expected a replicas reply"),
    }
}
