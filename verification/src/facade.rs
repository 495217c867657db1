//! Decision logic of the REST facade: each handler resolves the filter it
//! was addressed under into the one internal command it must issue.  A
//! filter that does not name the owning node cannot be acted on directly:
//! the facade first issues a discovery query, then re-plans with the node
//! filled in — the resolve-then-act pattern.

use vstd::prelude::*;

use crate::errors::{ReplyError, ReplyErrorKind, ResourceKind};
use crate::filter::Filter;
use crate::requests::{CreateReplica, DestroyPool, DestroyReplica, ShareReplica, UnshareReplica};
use crate::resources::{Protocol, ReplicaOwners, ReplicaShareProtocol};
use vstd::string::StringExecFns;

verus! {

/// What a handler must do for the filter it was addressed under: act now,
/// or first discover the owning node.
#[derive(Debug)]
pub enum Resolution<C> {
    /// The command can be issued as it stands.
    Ready(C),
    /// Query the pools constrained to this pool identifier and take the
    /// owning node from the answer.
    PoolNodeLookup(String),
    /// Query the replicas constrained to this pool and replica identifier
    /// and take the owning node from the answer.
    ReplicaNodeLookup(String, String),
}

/// The body of a replica-creation call: what the caller chooses beyond the
/// addressed location.
#[derive(Debug)]
pub struct CreateReplicaBody {
    /// Size in bytes.
    pub size: u64,
    /// Thin provisioning flag.
    pub thin: bool,
    /// Protocol to share the replica over, `Off` for unshared.
    pub share: Protocol,
}

impl CreateReplicaBody {
    /// The creation command this body denotes at the given location.
    pub fn bus_request(self, node: String, pool: String, uuid: String) -> (r: CreateReplica)
        ensures
            r.node == node,
            r.pool == pool,
            r.uuid == uuid,
            r.name is None,
            r.size == self.size,
            r.thin == self.thin,
            r.share == self.share,
            !r.managed,
            r.owners.volume is None,
            r.owners.nexuses@.len() == 0,
    {
        CreateReplica {
            node,
            name: None,
            uuid,
            pool,
            size: self.size,
            thin: self.thin,
            share: self.share,
            managed: false,
            owners: ReplicaOwners::none(),
        }
    }
}

/// The error a handler answers when addressed under a filter shape its
/// resource cannot be acted on by.
fn invalid_filter(resource: ResourceKind, source: &str) -> (r: ReplyError)
    ensures
        r.kind == ReplyErrorKind::InvalidArgument,
        r.resource == resource,
{
    ReplyError::new(
        ReplyErrorKind::InvalidArgument,
        resource,
        String::from_str(source),
        String::from_str("invalid filter for resource"),
    )
}

/// Plan a pool destruction: a node-and-pool filter can be acted on
/// directly, a bare pool filter needs the owning node discovered first, and
/// any other shape is invalid.
pub fn destroy_pool_plan(filter: Filter) -> (r: Result<Resolution<DestroyPool>, ReplyError>)
    ensures
        match filter {
            Filter::NodePool(n, p) => r matches Ok(Resolution::Ready(c)) && c.node == n && c.id
                == p,
            Filter::Pool(p) => r matches Ok(Resolution::PoolNodeLookup(q)) && q == p,
            _ => r matches Err(e) && e.kind == ReplyErrorKind::InvalidArgument && e.resource
                == ResourceKind::Pool,
        },
{
    match filter {
        Filter::NodePool(node, pool) => Ok(Resolution::Ready(DestroyPool { node, id: pool })),
        Filter::Pool(pool) => Ok(Resolution::PoolNodeLookup(pool)),
        _ => Err(invalid_filter(ResourceKind::Pool, "destroy_pool")),
    }
}

/// Plan a replica creation: a fully addressed filter can be acted on
/// directly, a pool-and-replica filter needs the pool's owning node
/// discovered first, and any other shape is invalid.
pub fn put_replica_plan(filter: Filter, body: CreateReplicaBody) -> (r: Result<
    Resolution<CreateReplica>,
    ReplyError,
>)
    ensures
        match filter {
            Filter::NodePoolReplica(n, p, u) => r matches Ok(Resolution::Ready(c)) && c.node == n
                && c.pool == p && c.uuid == u && c.size == body.size && c.thin == body.thin
                && c.share == body.share,
            Filter::PoolReplica(p, _u) => r matches Ok(Resolution::PoolNodeLookup(q)) && q == p,
            _ => r matches Err(e) && e.kind == ReplyErrorKind::InvalidArgument && e.resource
                == ResourceKind::Replica,
        },
{
    match filter {
        Filter::NodePoolReplica(node, pool, uuid) => Ok(
            Resolution::Ready(body.bus_request(node, pool, uuid)),
        ),
        Filter::PoolReplica(pool, _uuid) => Ok(Resolution::PoolNodeLookup(pool)),
        _ => Err(invalid_filter(ResourceKind::Replica, "put_replica")),
    }
}

/// Plan a replica destruction.
pub fn destroy_replica_plan(filter: Filter) -> (r: Result<Resolution<DestroyReplica>, ReplyError>)
    ensures
        match filter {
            Filter::NodePoolReplica(n, p, u) => r matches Ok(Resolution::Ready(c)) && c.node == n
                && c.pool == p && c.uuid == u && c.name is None && c.disowners.volume is None
                && c.disowners.nexuses@.len() == 0,
            Filter::PoolReplica(p, u) => r matches Ok(Resolution::ReplicaNodeLookup(q, v)) && q
                == p && v == u,
            _ => r matches Err(e) && e.kind == ReplyErrorKind::InvalidArgument && e.resource
                == ResourceKind::Replica,
        },
{
    match filter {
        Filter::NodePoolReplica(node, pool, uuid) => Ok(
            Resolution::Ready(
                DestroyReplica { node, pool, name: None, uuid, disowners: ReplicaOwners::none() },
            ),
        ),
        Filter::PoolReplica(pool, uuid) => Ok(Resolution::ReplicaNodeLookup(pool, uuid)),
        _ => Err(invalid_filter(ResourceKind::Replica, "destroy_replica")),
    }
}

/// Plan a replica share.
pub fn share_replica_plan(filter: Filter, protocol: ReplicaShareProtocol) -> (r: Result<
    Resolution<ShareReplica>,
    ReplyError,
>)
    ensures
        match filter {
            Filter::NodePoolReplica(n, p, u) => r matches Ok(Resolution::Ready(c)) && c.node == n
                && c.pool == p && c.uuid == u && c.name is None && c.protocol == protocol,
            Filter::PoolReplica(p, u) => r matches Ok(Resolution::ReplicaNodeLookup(q, v)) && q
                == p && v == u,
            _ => r matches Err(e) && e.kind == ReplyErrorKind::InvalidArgument && e.resource
                == ResourceKind::Replica,
        },
{
    match filter {
        Filter::NodePoolReplica(node, pool, uuid) => Ok(
            Resolution::Ready(ShareReplica { node, pool, name: None, uuid, protocol }),
        ),
        Filter::PoolReplica(pool, uuid) => Ok(Resolution::ReplicaNodeLookup(pool, uuid)),
        _ => Err(invalid_filter(ResourceKind::Replica, "share_replica")),
    }
}

/// Plan a replica unshare.
pub fn unshare_replica_plan(filter: Filter) -> (r: Result<Resolution<UnshareReplica>, ReplyError>)
    ensures
        match filter {
            Filter::NodePoolReplica(n, p, u) => r matches Ok(Resolution::Ready(c)) && c.node == n
                && c.pool == p && c.uuid == u && c.name is None,
            Filter::PoolReplica(p, u) => r matches Ok(Resolution::ReplicaNodeLookup(q, v)) && q
                == p && v == u,
            _ => r matches Err(e) && e.kind == ReplyErrorKind::InvalidArgument && e.resource
                == ResourceKind::Replica,
        },
{
    match filter {
        Filter::NodePoolReplica(node, pool, uuid) => Ok(
            Resolution::Ready(UnshareReplica { node, pool, name: None, uuid }),
        ),
        Filter::PoolReplica(pool, uuid) => Ok(Resolution::ReplicaNodeLookup(pool, uuid)),
        _ => Err(invalid_filter(ResourceKind::Replica, "unshare_replica")),
    }
}

} // verus!
