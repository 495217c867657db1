//! The remote operation server adapter: translates inbound wire requests
//! into registry calls and registry results back into typed wire replies.
//! It performs no business logic beyond this translation and filter-shape
//! decoding; a request without a filter is served as the unfiltered case.

use vstd::prelude::*;

use crate::errors::ReplyErrorKind;
use crate::registry::{spec_find_replica_state, spec_pool_listing, spec_replica_listing, Registry};
use crate::resources::{PoolSpec, PoolV, ReplicaSpec, ReplicaStatus};
use crate::store::{spec_has_pool, spec_share_uri};
use crate::wire::{
    create_pool_from_request, create_replica_from_request, destroy_pool_from_request,
    destroy_replica_from_request, encode_create_pool_reply, encode_create_replica_reply,
    encode_destroy_pool_reply, encode_destroy_replica_reply, encode_get_pools_reply,
    encode_get_replicas_reply, encode_share_replica_reply, encode_unshare_replica_reply,
    filter_from_pool_request, filter_from_replica_request, share_replica_from_request,
    spec_create_pool_from_request, spec_error_kind_code, spec_filter_from_pool_request,
    spec_filter_from_replica_request, spec_owners_from_wire, spec_pool_status_code,
    spec_protocol_from_code, spec_replica_status_code, spec_replica_to_wire,
    spec_share_protocol_from_code, spec_spec_status_code, unshare_replica_from_request,
    CreatePoolReply, CreatePoolReplyKind, CreatePoolRequest, CreateReplicaReply,
    CreateReplicaReplyKind, CreateReplicaRequest, DestroyPoolReply, DestroyPoolRequest,
    DestroyReplicaReply, DestroyReplicaRequest, GetPoolsReply, GetPoolsReplyKind, GetPoolsRequest,
    GetReplicasReply, GetReplicasReplyKind, GetReplicasRequest, ShareReplicaReply,
    ShareReplicaReplyKind, ShareReplicaRequest, SpecStatus, UnshareReplicaReply,
    UnshareReplicaRequest, WirePool,
};

verus! {

/// Whether a wire pool carries exactly the composed pool `pv`.
pub open spec fn spec_wire_carries_pool(w: WirePool, pv: PoolV) -> bool {
    &&& match pv.spec {
        None => w.definition is None,
        Some(sv) => {
            &&& w.definition matches Some(d)
            &&& d.spec matches Some(ws)
            &&& d.metadata matches Some(meta)
            &&& ws.node_id == sv.node
            &&& ws.pool_id == sv.id
            &&& ws.disks@ == sv.disks
            &&& match sv.labels {
                None => ws.labels is None,
                Some(l) => ws.labels matches Some(m) && m.value@ == l,
            }
            &&& meta.status == spec_spec_status_code(SpecStatus::spec_from_pool(sv.status))
        },
    }
    &&& match pv.state {
        None => w.state is None,
        Some(stv) => {
            &&& w.state matches Some(wst)
            &&& wst.node_id == stv.node
            &&& wst.pool_id == stv.id
            &&& wst.disks_uri@ == stv.disks
            &&& wst.status == spec_pool_status_code(stv.status)
            &&& wst.capacity == stv.capacity
            &&& wst.used == stv.used
        },
    }
}

/// Serve a pool creation: translate, record the spec, and reply with the
/// composed pool or the typed error.
pub fn serve_create_pool(reg: &mut Registry, req: CreatePoolRequest) -> (w: CreatePoolReply)
    requires
        old(reg).wf(),
    ensures
        final(reg).wf(),
        ({
            let cmd = spec_create_pool_from_request(req);
            &&& (!spec_has_pool(old(reg).specs.pools@, cmd.id@) ==> final(reg).specs.pools@ == old(reg).specs.pools@.push(
                PoolSpec {
                    node: cmd.node,
                    id: cmd.id,
                    disks: cmd.disks,
                    labels: cmd.labels,
                    status: crate::resources::PoolSpecStatus::Created(
                        crate::resources::PoolStatus::Unknown,
                    ),
                    sequencer: 0,
                },
            ) && (w.reply matches Some(CreatePoolReplyKind::Pool(wp)) && spec_wire_carries_pool(
                wp,
                crate::registry::spec_composed_pool(
                    final(reg).specs.pools@.last(),
                    old(reg).pool_states@,
                ),
            )))
            &&& (spec_has_pool(old(reg).specs.pools@, cmd.id@) ==> final(reg).specs == old(reg).specs && (w.reply matches Some(CreatePoolReplyKind::Error(we)) && we.kind
                == spec_error_kind_code(ReplyErrorKind::Conflict)))
        }),
        final(reg).pool_states == old(reg).pool_states,
        final(reg).replica_states == old(reg).replica_states,
        final(reg).nexus_states == old(reg).nexus_states,
        final(reg).pending_triggers == old(reg).pending_triggers,
{
    let cmd = create_pool_from_request(req);
    let r = reg.create_pool(cmd);
    encode_create_pool_reply(r)
}

/// Serve a pool destruction.
pub fn serve_destroy_pool(reg: &mut Registry, req: DestroyPoolRequest) -> (w: DestroyPoolReply)
    requires
        old(reg).wf(),
    ensures
        final(reg).wf(),
        (exists|i: int|
            0 <= i < old(reg).specs.pools@.len() && (#[trigger] old(reg).specs.pools@[i]).id@
                == req.pool_id@ && old(reg).specs.pools@[i].node@ == req.node_id@) <==> w.error
            is None,
        w.error is None ==> exists|i: int|
            0 <= i < old(reg).specs.pools@.len() && (#[trigger] old(reg).specs.pools@[i]).id@
                == req.pool_id@ && old(reg).specs.pools@[i].node@ == req.node_id@ && final(reg).specs.pools@ == old(reg).specs.pools@.remove(i),
        w.error matches Some(we) ==> final(reg).specs == old(reg).specs && we.kind
            == spec_error_kind_code(ReplyErrorKind::NotFound),
        final(reg).pool_states == old(reg).pool_states,
        final(reg).replica_states == old(reg).replica_states,
        final(reg).nexus_states == old(reg).nexus_states,
        final(reg).pending_triggers == old(reg).pending_triggers,
{
    let cmd = destroy_pool_from_request(req);
    let r = reg.destroy_pool(&cmd);
    encode_destroy_pool_reply(r)
}

/// Serve a pool listing: an absent filter means no constraint, and a
/// filter shape pools do not know is answered with an invalid-argument
/// error.
pub fn serve_get_pools(reg: &Registry, req: GetPoolsRequest) -> (w: GetPoolsReply)
    ensures
        ({
            let f = spec_filter_from_pool_request(req);
            &&& (f.spec_valid_for_pools() ==> (w.reply matches Some(GetPoolsReplyKind::Pools(wps))
                && ({
                let listing = spec_pool_listing(reg.specs.pools@, reg.pool_states@, f);
                wps@.len() == listing.len() && forall|i: int|
                    0 <= i < wps@.len() ==> spec_wire_carries_pool(#[trigger] wps@[i], listing[i])
            })))
            &&& (!f.spec_valid_for_pools() ==> (w.reply matches Some(GetPoolsReplyKind::Error(we))
                && we.kind == spec_error_kind_code(ReplyErrorKind::InvalidArgument)))
        }),
{
    let filter = filter_from_pool_request(req);
    let r = reg.get_pools(&filter);
    encode_get_pools_reply(r)
}

/// Serve a replica creation: translate with validation, record the spec,
/// and reply with the composed replica or the typed error.
pub fn serve_create_replica(reg: &mut Registry, req: CreateReplicaRequest) -> (w:
    CreateReplicaReply)
    requires
        old(reg).wf(),
    ensures
        final(reg).wf(),
        (req.replica_id is None || spec_protocol_from_code(req.share) is None) ==> (*final(reg)
            == *old(reg) && (w.reply matches Some(CreateReplicaReplyKind::Error(we)) && we.kind
            == spec_error_kind_code(ReplyErrorKind::InvalidArgument))),
        req.replica_id matches Some(u) ==> ((spec_protocol_from_code(req.share) is Some
            && !crate::store::spec_has_replica(old(reg).specs.replicas@, u@)) ==> ({
            let s = final(reg).specs.replicas@.last();
            &&& final(reg).specs.replicas@.len() == old(reg).specs.replicas@.len() + 1
            &&& s.uuid == req.replica_id.unwrap()
            &&& s.node == req.node_id
            &&& s.pool == req.pool_id
            &&& s.size == req.size
            &&& s.thin == req.thin
            &&& s.share == spec_protocol_from_code(req.share).unwrap()
            &&& s.managed == req.managed
            &&& s.owners@ == spec_owners_from_wire(req.owners)
            &&& (w.reply matches Some(CreateReplicaReplyKind::Replica(wr)) && wr.replica_id
                matches Some(wu) && wu == s.uuid && wr.node_id == s.node && wr.pool_id == s.pool
                && wr.size == s.size && wr.thin == s.thin && (match spec_find_replica_state(
                old(reg).replica_states@,
                s.uuid@,
            ) {
                Some(st) => wr.uri == st.uri && wr.status == spec_replica_status_code(st.status),
                None => wr.uri@ == Seq::<char>::empty() && wr.status == spec_replica_status_code(
                    ReplicaStatus::Unknown,
                ),
            }))
        })),
        req.replica_id matches Some(u) ==> ((spec_protocol_from_code(req.share) is Some
            && crate::store::spec_has_replica(old(reg).specs.replicas@, u@)) ==> (final(reg).specs
            == old(reg).specs && (w.reply matches Some(CreateReplicaReplyKind::Error(we))
            && we.kind == spec_error_kind_code(ReplyErrorKind::Conflict)))),
        final(reg).pool_states == old(reg).pool_states,
        final(reg).replica_states == old(reg).replica_states,
        final(reg).nexus_states == old(reg).nexus_states,
        final(reg).pending_triggers == old(reg).pending_triggers,
{
    match create_replica_from_request(req) {
        Err(e) => encode_create_replica_reply(Err(e)),
        Ok(cmd) => {
            let r = reg.create_replica(cmd);
            encode_create_replica_reply(r)
        },
    }
}

/// Serve a replica destruction.
pub fn serve_destroy_replica(reg: &mut Registry, req: DestroyReplicaRequest) -> (w:
    DestroyReplicaReply)
    requires
        old(reg).wf(),
    ensures
        final(reg).wf(),
        req.replica_id is None ==> *final(reg) == *old(reg) && (w.error matches Some(we)
            && we.kind == spec_error_kind_code(ReplyErrorKind::InvalidArgument)),
        req.replica_id matches Some(u) ==> {
            &&& ((exists|i: int|
                0 <= i < old(reg).specs.replicas@.len() && (
                #[trigger] old(reg).specs.replicas@[i]).uuid@ == u@ && old(reg).specs.replicas@[i].node@ == req.node_id@ && old(reg).specs.replicas@[i].pool@
                    == req.pool_id@) <==> w.error is None)
            &&& (w.error is None ==> exists|i: int|
                0 <= i < old(reg).specs.replicas@.len() && (
                #[trigger] old(reg).specs.replicas@[i]).uuid@ == u@ && final(reg).specs.replicas@ == old(reg).specs.replicas@.remove(i))
            &&& (w.error matches Some(we) ==> final(reg).specs == old(reg).specs && we.kind
                == spec_error_kind_code(ReplyErrorKind::NotFound))
        },
        final(reg).pool_states == old(reg).pool_states,
        final(reg).replica_states == old(reg).replica_states,
        final(reg).nexus_states == old(reg).nexus_states,
        final(reg).pending_triggers == old(reg).pending_triggers,
{
    match destroy_replica_from_request(req) {
        Err(e) => encode_destroy_replica_reply(Err(e)),
        Ok(cmd) => {
            let r = reg.destroy_replica(&cmd);
            encode_destroy_replica_reply(r)
        },
    }
}

/// Serve a replica listing: an absent filter means no constraint.
pub fn serve_get_replicas(reg: &Registry, req: GetReplicasRequest) -> (w: GetReplicasReply)
    ensures
        w.reply matches Some(GetReplicasReplyKind::Replicas(wps)) && ({
            let listing = spec_replica_listing(
                reg.replica_states@,
                spec_filter_from_replica_request(req),
                reg.specs.replicas@,
            );
            wps@.len() == listing.len() && forall|i: int|
                0 <= i < wps@.len() ==> (#[trigger] wps@[i]) == spec_replica_to_wire(listing[i])
        }),
{
    let filter = filter_from_replica_request(req);
    let r = reg.get_replicas(&filter);
    encode_get_replicas_reply(Ok(r))
}

/// Serve a replica share: reply with the URI the replica is now reachable
/// under.
pub fn serve_share_replica(reg: &mut Registry, req: ShareReplicaRequest) -> (w: ShareReplicaReply)
    requires
        old(reg).wf(),
    ensures
        final(reg).wf(),
        (req.replica_id is None || spec_share_protocol_from_code(req.protocol) is None) ==> (
        *final(reg) == *old(reg) && (w.reply matches Some(ShareReplicaReplyKind::Error(we))
            && we.kind == spec_error_kind_code(ReplyErrorKind::InvalidArgument))),
        req.replica_id matches Some(u) ==> (spec_share_protocol_from_code(req.protocol)
            matches Some(proto) ==> {
            &&& ((exists|i: int|
                0 <= i < old(reg).specs.replicas@.len() && (
                #[trigger] old(reg).specs.replicas@[i]).uuid@ == u@ && old(reg).specs.replicas@[i].node@ == req.node_id@ && old(reg).specs.replicas@[i].pool@
                    == req.pool_id@ && old(reg).specs.replicas@[i].sequencer < u64::MAX) <==> (
            w.reply matches Some(ShareReplicaReplyKind::Response(_))))
            &&& (w.reply matches Some(ShareReplicaReplyKind::Response(uri)) ==> exists|i: int|
                0 <= i < old(reg).specs.replicas@.len() && (
                #[trigger] old(reg).specs.replicas@[i]).uuid@ == u@ && uri@ == spec_share_uri(
                    proto,
                    old(reg).specs.replicas@[i].node@,
                    u@,
                ) && final(reg).specs.replicas@ == old(reg).specs.replicas@.update(
                    i,
                    ReplicaSpec {
                        share: proto.spec_to_protocol(),
                        sequencer: (old(reg).specs.replicas@[i].sequencer + 1) as u64,
                        ..old(reg).specs.replicas@[i]
                    },
                ))
            &&& (w.reply matches Some(ShareReplicaReplyKind::Error(_)) ==> final(reg).specs == old(reg).specs)
        }),
        final(reg).pool_states == old(reg).pool_states,
        final(reg).replica_states == old(reg).replica_states,
        final(reg).nexus_states == old(reg).nexus_states,
        final(reg).pending_triggers == old(reg).pending_triggers,
{
    match share_replica_from_request(req) {
        Err(e) => encode_share_replica_reply(Err(e)),
        Ok(cmd) => {
            let r = reg.share_replica(&cmd);
            encode_share_replica_reply(r)
        },
    }
}

/// Serve a replica unshare.
pub fn serve_unshare_replica(reg: &mut Registry, req: UnshareReplicaRequest) -> (w:
    UnshareReplicaReply)
    requires
        old(reg).wf(),
    ensures
        final(reg).wf(),
        req.replica_id is None ==> *final(reg) == *old(reg) && (w.error matches Some(we)
            && we.kind == spec_error_kind_code(ReplyErrorKind::InvalidArgument)),
        req.replica_id matches Some(u) ==> {
            &&& ((exists|i: int|
                0 <= i < old(reg).specs.replicas@.len() && (
                #[trigger] old(reg).specs.replicas@[i]).uuid@ == u@ && old(reg).specs.replicas@[i].node@ == req.node_id@ && old(reg).specs.replicas@[i].pool@
                    == req.pool_id@ && old(reg).specs.replicas@[i].sequencer < u64::MAX) <==> (
            w.error is None))
            &&& (w.error is None ==> exists|i: int|
                0 <= i < old(reg).specs.replicas@.len() && (
                #[trigger] old(reg).specs.replicas@[i]).uuid@ == u@ && final(reg).specs.replicas@ == old(reg).specs.replicas@.update(
                    i,
                    ReplicaSpec {
                        share: crate::resources::Protocol::Off,
                        sequencer: (old(reg).specs.replicas@[i].sequencer + 1) as u64,
                        ..old(reg).specs.replicas@[i]
                    },
                ))
            &&& (w.error is Some ==> final(reg).specs == old(reg).specs)
        },
        final(reg).pool_states == old(reg).pool_states,
        final(reg).replica_states == old(reg).replica_states,
        final(reg).nexus_states == old(reg).nexus_states,
        final(reg).pending_triggers == old(reg).pending_triggers,
{
    match unshare_replica_from_request(req) {
        Err(e) => encode_unshare_replica_reply(Err(e)),
        Ok(cmd) => {
            let r = reg.unshare_replica(&cmd);
            encode_unshare_replica_reply(r)
        },
    }
}

} // verus!
