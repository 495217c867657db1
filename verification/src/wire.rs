//! Wire shapes: the plain-data mirror of the transport messages, and the
//! conversions between them and the library's own types.  Every required
//! field arriving absent or out of range is rejected with a typed
//! `InvalidArgument` error at this boundary rather than failing later.

use vstd::prelude::*;

use crate::errors::{ReplyError, ReplyErrorKind, ResourceKind};
use crate::filter::Filter;
use crate::requests::{CreatePool, CreatePoolInfo, CreateReplica, CreateReplicaInfo, DestroyPool,
    DestroyPoolInfo, DestroyReplica, DestroyReplicaInfo, ShareReplica, ShareReplicaInfo,
    UnshareReplica, UnshareReplicaInfo};
use crate::resources::{Pool, PoolSpec, PoolSpecStatus, PoolState, PoolStatus, Protocol, Replica,
    ReplicaOwners, ReplicaOwnersV, ReplicaShareProtocol, ReplicaStatus};
use vstd::string::StringExecFns;

verus! {

/// A string map carried on the wire as a list of pairs.
#[derive(Debug)]
pub struct StringMapValue {
    /// The entries.
    pub value: Vec<(String, String)>,
}

/// Spec lifecycle as carried on the wire, without the health payload.
#[derive(Clone, Copy, Debug, PartialEq, Eq, Structural)]
pub enum SpecStatus {
    Creating,
    Created,
    Deleting,
    Deleted,
}

/// The wire code of a spec lifecycle.
pub open spec fn spec_spec_status_code(s: SpecStatus) -> u32 {
    match s {
        SpecStatus::Creating => 0,
        SpecStatus::Created => 1,
        SpecStatus::Deleting => 2,
        SpecStatus::Deleted => 3,
    }
}

/// The spec lifecycle a wire code denotes, if in range.
pub open spec fn spec_spec_status_from_code(c: u32) -> Option<SpecStatus> {
    if c == 0 {
        Some(SpecStatus::Creating)
    } else if c == 1 {
        Some(SpecStatus::Created)
    } else if c == 2 {
        Some(SpecStatus::Deleting)
    } else if c == 3 {
        Some(SpecStatus::Deleted)
    } else {
        None
    }
}

/// Encode a spec lifecycle.
pub fn spec_status_code(s: SpecStatus) -> (r: u32)
    ensures
        r == spec_spec_status_code(s),
{
    match s {
        SpecStatus::Creating => 0,
        SpecStatus::Created => 1,
        SpecStatus::Deleting => 2,
        SpecStatus::Deleted => 3,
    }
}

/// Decode a spec lifecycle code.
pub fn spec_status_from_code(c: u32) -> (r: Option<SpecStatus>)
    ensures
        r == spec_spec_status_from_code(c),
{
    if c == 0 {
        Some(SpecStatus::Creating)
    } else if c == 1 {
        Some(SpecStatus::Created)
    } else if c == 2 {
        Some(SpecStatus::Deleting)
    } else if c == 3 {
        Some(SpecStatus::Deleted)
    } else {
        None
    }
}

impl SpecStatus {
    /// The wire lifecycle of a pool spec lifecycle.
    pub open spec fn spec_from_pool(s: PoolSpecStatus) -> SpecStatus {
        match s {
            PoolSpecStatus::Creating => SpecStatus::Creating,
            PoolSpecStatus::Created(_) => SpecStatus::Created,
            PoolSpecStatus::Deleting => SpecStatus::Deleting,
            PoolSpecStatus::Deleted => SpecStatus::Deleted,
        }
    }

    /// Strip the health payload off a pool spec lifecycle.
    pub fn from_pool(s: PoolSpecStatus) -> (r: SpecStatus)
        ensures
            r == SpecStatus::spec_from_pool(s),
    {
        match s {
            PoolSpecStatus::Creating => SpecStatus::Creating,
            PoolSpecStatus::Created(_) => SpecStatus::Created,
            PoolSpecStatus::Deleting => SpecStatus::Deleting,
            PoolSpecStatus::Deleted => SpecStatus::Deleted,
        }
    }

    /// The pool spec lifecycle a bare wire lifecycle denotes; a `Created`
    /// without an accompanying state reports default health.
    pub open spec fn spec_to_pool(self) -> PoolSpecStatus {
        match self {
            SpecStatus::Creating => PoolSpecStatus::Creating,
            SpecStatus::Created => PoolSpecStatus::Created(PoolStatus::Unknown),
            SpecStatus::Deleting => PoolSpecStatus::Deleting,
            SpecStatus::Deleted => PoolSpecStatus::Deleted,
        }
    }

    /// Rebuild a pool spec lifecycle with default health.
    pub fn to_pool(self) -> (r: PoolSpecStatus)
        ensures
            r == self.spec_to_pool(),
    {
        match self {
            SpecStatus::Creating => PoolSpecStatus::Creating,
            SpecStatus::Created => PoolSpecStatus::Created(PoolStatus::Unknown),
            SpecStatus::Deleting => PoolSpecStatus::Deleting,
            SpecStatus::Deleted => PoolSpecStatus::Deleted,
        }
    }
}

/// The wire code of a pool health.
pub open spec fn spec_pool_status_code(s: PoolStatus) -> u32 {
    match s {
        PoolStatus::Unknown => 0,
        PoolStatus::Online => 1,
        PoolStatus::Degraded => 2,
        PoolStatus::Faulted => 3,
    }
}

/// The pool health a wire code denotes, if in range.
pub open spec fn spec_pool_status_from_code(c: u32) -> Option<PoolStatus> {
    if c == 0 {
        Some(PoolStatus::Unknown)
    } else if c == 1 {
        Some(PoolStatus::Online)
    } else if c == 2 {
        Some(PoolStatus::Degraded)
    } else if c == 3 {
        Some(PoolStatus::Faulted)
    } else {
        None
    }
}

/// Encode a pool health.
pub fn pool_status_code(s: PoolStatus) -> (r: u32)
    ensures
        r == spec_pool_status_code(s),
{
    match s {
        PoolStatus::Unknown => 0,
        PoolStatus::Online => 1,
        PoolStatus::Degraded => 2,
        PoolStatus::Faulted => 3,
    }
}

/// Decode a pool health code.
pub fn pool_status_from_code(c: u32) -> (r: Option<PoolStatus>)
    ensures
        r == spec_pool_status_from_code(c),
{
    if c == 0 {
        Some(PoolStatus::Unknown)
    } else if c == 1 {
        Some(PoolStatus::Online)
    } else if c == 2 {
        Some(PoolStatus::Degraded)
    } else if c == 3 {
        Some(PoolStatus::Faulted)
    } else {
        None
    }
}

/// The wire code of a replica health.
pub open spec fn spec_replica_status_code(s: ReplicaStatus) -> u32 {
    match s {
        ReplicaStatus::Unknown => 0,
        ReplicaStatus::Online => 1,
        ReplicaStatus::Degraded => 2,
        ReplicaStatus::Faulted => 3,
    }
}

/// The replica health a wire code denotes, if in range.
pub open spec fn spec_replica_status_from_code(c: u32) -> Option<ReplicaStatus> {
    if c == 0 {
        Some(ReplicaStatus::Unknown)
    } else if c == 1 {
        Some(ReplicaStatus::Online)
    } else if c == 2 {
        Some(ReplicaStatus::Degraded)
    } else if c == 3 {
        Some(ReplicaStatus::Faulted)
    } else {
        None
    }
}

/// Encode a replica health.
pub fn replica_status_code(s: ReplicaStatus) -> (r: u32)
    ensures
        r == spec_replica_status_code(s),
{
    match s {
        ReplicaStatus::Unknown => 0,
        ReplicaStatus::Online => 1,
        ReplicaStatus::Degraded => 2,
        ReplicaStatus::Faulted => 3,
    }
}

/// Decode a replica health code.
pub fn replica_status_from_code(c: u32) -> (r: Option<ReplicaStatus>)
    ensures
        r == spec_replica_status_from_code(c),
{
    if c == 0 {
        Some(ReplicaStatus::Unknown)
    } else if c == 1 {
        Some(ReplicaStatus::Online)
    } else if c == 2 {
        Some(ReplicaStatus::Degraded)
    } else if c == 3 {
        Some(ReplicaStatus::Faulted)
    } else {
        None
    }
}

/// The wire code of a share protocol.
pub open spec fn spec_protocol_code(p: Protocol) -> u32 {
    match p {
        Protocol::Off => 0,
        Protocol::Nvmf => 1,
        Protocol::Iscsi => 2,
        Protocol::Nbd => 3,
    }
}

/// The share protocol a wire code denotes, if in range.
pub open spec fn spec_protocol_from_code(c: u32) -> Option<Protocol> {
    if c == 0 {
        Some(Protocol::Off)
    } else if c == 1 {
        Some(Protocol::Nvmf)
    } else if c == 2 {
        Some(Protocol::Iscsi)
    } else if c == 3 {
        Some(Protocol::Nbd)
    } else {
        None
    }
}

/// Encode a share protocol.
pub fn protocol_code(p: Protocol) -> (r: u32)
    ensures
        r == spec_protocol_code(p),
{
    match p {
        Protocol::Off => 0,
        Protocol::Nvmf => 1,
        Protocol::Iscsi => 2,
        Protocol::Nbd => 3,
    }
}

/// Decode a share protocol code.
pub fn protocol_from_code(c: u32) -> (r: Option<Protocol>)
    ensures
        r == spec_protocol_from_code(c),
{
    if c == 0 {
        Some(Protocol::Off)
    } else if c == 1 {
        Some(Protocol::Nvmf)
    } else if c == 2 {
        Some(Protocol::Iscsi)
    } else if c == 3 {
        Some(Protocol::Nbd)
    } else {
        None
    }
}

/// The wire code of a replica share protocol; zero never encodes one.
pub open spec fn spec_share_protocol_code(p: ReplicaShareProtocol) -> u32 {
    match p {
        ReplicaShareProtocol::Nvmf => 1,
        ReplicaShareProtocol::Iscsi => 2,
    }
}

/// The replica share protocol a wire code denotes, if in range.
pub open spec fn spec_share_protocol_from_code(c: u32) -> Option<ReplicaShareProtocol> {
    if c == 1 {
        Some(ReplicaShareProtocol::Nvmf)
    } else if c == 2 {
        Some(ReplicaShareProtocol::Iscsi)
    } else {
        None
    }
}

/// Encode a replica share protocol.
pub fn share_protocol_code(p: ReplicaShareProtocol) -> (r: u32)
    ensures
        r == spec_share_protocol_code(p),
{
    match p {
        ReplicaShareProtocol::Nvmf => 1,
        ReplicaShareProtocol::Iscsi => 2,
    }
}

/// Decode a replica share protocol code.
pub fn share_protocol_from_code(c: u32) -> (r: Option<ReplicaShareProtocol>)
    ensures
        r == spec_share_protocol_from_code(c),
{
    if c == 1 {
        Some(ReplicaShareProtocol::Nvmf)
    } else if c == 2 {
        Some(ReplicaShareProtocol::Iscsi)
    } else {
        None
    }
}

/// The error object carried on every failing reply.
#[derive(Debug)]
pub struct WireReplyError {
    /// Classification code.
    pub kind: u32,
    /// Resource kind code.
    pub resource: u32,
    /// Component that raised the error.
    pub source: String,
    /// Free-text detail.
    pub extra: String,
}

/// The wire code of an error classification.
pub open spec fn spec_error_kind_code(k: ReplyErrorKind) -> u32 {
    match k {
        ReplyErrorKind::NotFound => 0,
        ReplyErrorKind::Conflict => 1,
        ReplyErrorKind::Unreachable => 2,
        ReplyErrorKind::InvalidArgument => 3,
        ReplyErrorKind::Internal => 4,
    }
}

/// The error classification a wire code denotes; an unknown code degrades
/// to `Internal` rather than failing error delivery.
pub open spec fn spec_error_kind_from_code(c: u32) -> ReplyErrorKind {
    if c == 0 {
        ReplyErrorKind::NotFound
    } else if c == 1 {
        ReplyErrorKind::Conflict
    } else if c == 2 {
        ReplyErrorKind::Unreachable
    } else if c == 3 {
        ReplyErrorKind::InvalidArgument
    } else {
        ReplyErrorKind::Internal
    }
}

/// The wire code of a resource kind.
pub open spec fn spec_resource_code(k: ResourceKind) -> u32 {
    match k {
        ResourceKind::Unknown => 0,
        ResourceKind::Pool => 1,
        ResourceKind::Replica => 2,
        ResourceKind::Nexus => 3,
        ResourceKind::Volume => 4,
    }
}

/// The resource kind a wire code denotes; an unknown code degrades to
/// `Unknown`.
pub open spec fn spec_resource_from_code(c: u32) -> ResourceKind {
    if c == 0 {
        ResourceKind::Unknown
    } else if c == 1 {
        ResourceKind::Pool
    } else if c == 2 {
        ResourceKind::Replica
    } else if c == 3 {
        ResourceKind::Nexus
    } else if c == 4 {
        ResourceKind::Volume
    } else {
        ResourceKind::Unknown
    }
}

/// Encode a reply error for the wire.
pub fn reply_error_to_wire(e: ReplyError) -> (r: WireReplyError)
    ensures
        r.kind == spec_error_kind_code(e.kind),
        r.resource == spec_resource_code(e.resource),
        r.source == e.source,
        r.extra == e.extra,
{
    let kind: u32 = match e.kind {
        ReplyErrorKind::NotFound => 0,
        ReplyErrorKind::Conflict => 1,
        ReplyErrorKind::Unreachable => 2,
        ReplyErrorKind::InvalidArgument => 3,
        ReplyErrorKind::Internal => 4,
    };
    let resource: u32 = match e.resource {
        ResourceKind::Unknown => 0,
        ResourceKind::Pool => 1,
        ResourceKind::Replica => 2,
        ResourceKind::Nexus => 3,
        ResourceKind::Volume => 4,
    };
    WireReplyError { kind, resource, source: e.source, extra: e.extra }
}

/// Decode a reply error from the wire; out-of-range codes degrade rather
/// than losing the error.
pub fn reply_error_from_wire(w: WireReplyError) -> (r: ReplyError)
    ensures
        r.kind == spec_error_kind_from_code(w.kind),
        r.resource == spec_resource_from_code(w.resource),
        r.source == w.source,
        r.extra == w.extra,
{
    let kind = if w.kind == 0 {
        ReplyErrorKind::NotFound
    } else if w.kind == 1 {
        ReplyErrorKind::Conflict
    } else if w.kind == 2 {
        ReplyErrorKind::Unreachable
    } else if w.kind == 3 {
        ReplyErrorKind::InvalidArgument
    } else {
        ReplyErrorKind::Internal
    };
    let resource = if w.resource == 0 {
        ResourceKind::Unknown
    } else if w.resource == 1 {
        ResourceKind::Pool
    } else if w.resource == 2 {
        ResourceKind::Replica
    } else if w.resource == 3 {
        ResourceKind::Nexus
    } else if w.resource == 4 {
        ResourceKind::Volume
    } else {
        ResourceKind::Unknown
    };
    ReplyError { kind, resource, source: w.source, extra: w.extra }
}

/// Pool desired configuration as carried on the wire.
#[derive(Debug)]
pub struct WirePoolSpec {
    pub node_id: String,
    pub pool_id: String,
    pub disks: Vec<String>,
    pub labels: Option<StringMapValue>,
}

/// Record metadata as carried on the wire.
#[derive(Debug)]
pub struct WireMetadata {
    pub uuid: Option<String>,
    pub status: u32,
}

/// Pool definition: desired configuration plus record metadata.
#[derive(Debug)]
pub struct WirePoolDefinition {
    pub spec: Option<WirePoolSpec>,
    pub metadata: Option<WireMetadata>,
}

/// Pool observed state as carried on the wire.
#[derive(Debug)]
pub struct WirePoolState {
    pub node_id: String,
    pub pool_id: String,
    pub disks_uri: Vec<String>,
    pub status: u32,
    pub capacity: u64,
    pub used: u64,
}

/// A pool as carried on the wire.
#[derive(Debug)]
pub struct WirePool {
    pub definition: Option<WirePoolDefinition>,
    pub state: Option<WirePoolState>,
}

/// The wire form of a composed pool.
pub open spec fn spec_pool_to_wire(p: Pool) -> WirePool {
    WirePool {
        definition: match p.spec {
            None => None,
            Some(ps) => Some(
                WirePoolDefinition {
                    spec: Some(
                        WirePoolSpec {
                            node_id: ps.node,
                            pool_id: ps.id,
                            disks: ps.disks,
                            labels: match ps.labels {
                                None => None,
                                Some(l) => Some(StringMapValue { value: l }),
                            },
                        },
                    ),
                    metadata: Some(
                        WireMetadata {
                            uuid: None,
                            status: spec_spec_status_code(SpecStatus::spec_from_pool(ps.status)),
                        },
                    ),
                },
            ),
        },
        state: match p.state {
            None => None,
            Some(st) => Some(
                WirePoolState {
                    node_id: st.node,
                    pool_id: st.id,
                    disks_uri: st.disks,
                    status: spec_pool_status_code(st.status),
                    capacity: st.capacity,
                    used: st.used,
                },
            ),
        },
    }
}

/// Encode a composed pool for the wire.
pub fn pool_to_wire(p: Pool) -> (r: WirePool)
    ensures
        r == spec_pool_to_wire(p),
{
    let definition = match p.spec {
        None => None,
        Some(ps) => {
            let status = spec_status_code(SpecStatus::from_pool(ps.status));
            Some(
                WirePoolDefinition {
                    spec: Some(
                        WirePoolSpec {
                            node_id: ps.node,
                            pool_id: ps.id,
                            disks: ps.disks,
                            labels: match ps.labels {
                                None => None,
                                Some(l) => Some(StringMapValue { value: l }),
                            },
                        },
                    ),
                    metadata: Some(WireMetadata { uuid: None, status }),
                },
            )
        },
    };
    let state = match p.state {
        None => None,
        Some(st) => Some(
            WirePoolState {
                node_id: st.node,
                pool_id: st.id,
                disks_uri: st.disks,
                status: pool_status_code(st.status),
                capacity: st.capacity,
                used: st.used,
            },
        ),
    };
    WirePool { definition, state }
}

/// The pool state a wire pool state denotes, if its health code is in
/// range.
pub open spec fn spec_pool_state_from_wire(ws: WirePoolState) -> Option<PoolState> {
    match spec_pool_status_from_code(ws.status) {
        None => None,
        Some(st) => Some(
            PoolState {
                node: ws.node_id,
                id: ws.pool_id,
                disks: ws.disks_uri,
                status: st,
                capacity: ws.capacity,
                used: ws.used,
            },
        ),
    }
}

/// The composed pool a wire pool denotes, if every present part decodes
/// and at least one part is present.  A `Created` lifecycle takes its
/// health from the accompanying state, default health when none came.
pub open spec fn spec_pool_from_wire(wp: WirePool) -> Option<Pool> {
    let state = match wp.state {
        None => None,
        Some(ws) => spec_pool_state_from_wire(ws),
    };
    if wp.state is Some && state is None {
        None
    } else {
        match wp.definition {
            None => if state is None {
                None
            } else {
                Some(Pool { spec: None, state: state })
            },
            Some(def) => {
                if def.spec is None || def.metadata is None {
                    None
                } else {
                    let ws = def.spec.unwrap();
                    let meta = def.metadata.unwrap();
                    match spec_spec_status_from_code(meta.status) {
                        None => None,
                        Some(ss) => {
                            let pstatus = if ss is Created {
                                match state {
                                    None => PoolSpecStatus::Created(PoolStatus::Unknown),
                                    Some(st) => PoolSpecStatus::Created(st.status),
                                }
                            } else {
                                ss.spec_to_pool()
                            };
                            Some(
                                Pool {
                                    spec: Some(
                                        PoolSpec {
                                            node: ws.node_id,
                                            id: ws.pool_id,
                                            disks: ws.disks,
                                            labels: match ws.labels {
                                                None => None,
                                                Some(m) => Some(m.value),
                                            },
                                            status: pstatus,
                                            sequencer: 0,
                                        },
                                    ),
                                    state: state,
                                },
                            )
                        },
                    }
                }
            },
        }
    }
}

/// Decode a pool from the wire, validating every present part.
pub fn pool_from_wire(wp: WirePool) -> (r: Result<Pool, ReplyError>)
    ensures
        match spec_pool_from_wire(wp) {
            Some(p) => r matches Ok(rp) && rp == p,
            None => r matches Err(e) && e.kind == ReplyErrorKind::InvalidArgument && e.resource
                == ResourceKind::Pool,
        },
{
    let state: Option<PoolState> = match wp.state {
        None => None,
        Some(ws) => match pool_status_from_code(ws.status) {
            None => {
                return Err(invalid_pool_wire());
            },
            Some(st) => Some(
                PoolState {
                    node: ws.node_id,
                    id: ws.pool_id,
                    disks: ws.disks_uri,
                    status: st,
                    capacity: ws.capacity,
                    used: ws.used,
                },
            ),
        },
    };
    match wp.definition {
        None => {
            if state.is_none() {
                Err(invalid_pool_wire())
            } else {
                Ok(Pool { spec: None, state })
            }
        },
        Some(def) => {
            let ws = match def.spec {
                Some(ws) => ws,
                None => {
                    return Err(invalid_pool_wire());
                },
            };
            let meta = match def.metadata {
                Some(m) => m,
                None => {
                    return Err(invalid_pool_wire());
                },
            };
            let ss = match spec_status_from_code(meta.status) {
                Some(ss) => ss,
                None => {
                    return Err(invalid_pool_wire());
                },
            };
            let pstatus = if matches!(ss, SpecStatus::Created) {
                match &state {
                    None => PoolSpecStatus::Created(PoolStatus::Unknown),
                    Some(st) => PoolSpecStatus::Created(st.status),
                }
            } else {
                ss.to_pool()
            };
            Ok(
                Pool {
                    spec: Some(
                        PoolSpec {
                            node: ws.node_id,
                            id: ws.pool_id,
                            disks: ws.disks,
                            labels: match ws.labels {
                                None => None,
                                Some(m) => Some(m.value),
                            },
                            status: pstatus,
                            sequencer: 0,
                        },
                    ),
                    state,
                },
            )
        },
    }
}

/// The error returned when a wire pool is missing a required part or holds
/// an out-of-range code.
fn invalid_pool_wire() -> (r: ReplyError)
    ensures
        r.kind == ReplyErrorKind::InvalidArgument,
        r.resource == ResourceKind::Pool,
{
    ReplyError::new(
        ReplyErrorKind::InvalidArgument,
        ResourceKind::Pool,
        String::from_str("pool_from_wire"),
        String::from_str("malformed pool on the wire"),
    )
}

/// A replica as carried on the wire.
#[derive(Debug)]
pub struct WireReplica {
    pub node_id: String,
    pub name: String,
    pub replica_id: Option<String>,
    pub pool_id: String,
    pub thin: bool,
    pub size: u64,
    pub share: u32,
    pub uri: String,
    pub status: u32,
}

/// Replica owner references as carried on the wire.
#[derive(Debug)]
pub struct WireReplicaOwners {
    pub volume: Option<String>,
    pub nexuses: Vec<String>,
}

/// The wire form of an observed replica.
pub open spec fn spec_replica_to_wire(r: Replica) -> WireReplica {
    WireReplica {
        node_id: r.node,
        name: r.name,
        replica_id: Some(r.uuid),
        pool_id: r.pool,
        thin: r.thin,
        size: r.size,
        share: spec_protocol_code(r.share),
        uri: r.uri,
        status: spec_replica_status_code(r.status),
    }
}

/// Encode an observed replica for the wire.
pub fn replica_to_wire(r: Replica) -> (w: WireReplica)
    ensures
        w == spec_replica_to_wire(r),
{
    let share = protocol_code(r.share);
    let status = replica_status_code(r.status);
    WireReplica {
        node_id: r.node,
        name: r.name,
        replica_id: Some(r.uuid),
        pool_id: r.pool,
        thin: r.thin,
        size: r.size,
        share,
        uri: r.uri,
        status,
    }
}

/// The observed replica a wire replica denotes, if its identifier is
/// present and its codes are in range.
pub open spec fn spec_replica_from_wire(w: WireReplica) -> Option<Replica> {
    match w.replica_id {
        None => None,
        Some(uuid) => match spec_protocol_from_code(w.share) {
            None => None,
            Some(share) => match spec_replica_status_from_code(w.status) {
                None => None,
                Some(status) => Some(
                    Replica {
                        node: w.node_id,
                        name: w.name,
                        uuid: uuid,
                        pool: w.pool_id,
                        thin: w.thin,
                        size: w.size,
                        share: share,
                        uri: w.uri,
                        status: status,
                    },
                ),
            },
        },
    }
}

/// Decode an observed replica from the wire, validating identifier and
/// codes.
pub fn replica_from_wire(w: WireReplica) -> (r: Result<Replica, ReplyError>)
    ensures
        match spec_replica_from_wire(w) {
            Some(rep) => r matches Ok(rr) && rr == rep,
            None => r matches Err(e) && e.kind == ReplyErrorKind::InvalidArgument && e.resource
                == ResourceKind::Replica,
        },
{
    let uuid = match w.replica_id {
        Some(u) => u,
        None => {
            return Err(invalid_replica_wire());
        },
    };
    let share = match protocol_from_code(w.share) {
        Some(s) => s,
        None => {
            return Err(invalid_replica_wire());
        },
    };
    let status = match replica_status_from_code(w.status) {
        Some(s) => s,
        None => {
            return Err(invalid_replica_wire());
        },
    };
    Ok(
        Replica {
            node: w.node_id,
            name: w.name,
            uuid,
            pool: w.pool_id,
            thin: w.thin,
            size: w.size,
            share,
            uri: w.uri,
            status,
        },
    )
}

/// The error returned when a wire replica is missing a required field or
/// holds an out-of-range code.
fn invalid_replica_wire() -> (r: ReplyError)
    ensures
        r.kind == ReplyErrorKind::InvalidArgument,
        r.resource == ResourceKind::Replica,
{
    ReplyError::new(
        ReplyErrorKind::InvalidArgument,
        ResourceKind::Replica,
        String::from_str("replica_from_wire"),
        String::from_str("malformed replica on the wire"),
    )
}

/// The owner references wire owners denote.
pub open spec fn spec_owners_from_wire(w: Option<WireReplicaOwners>) -> ReplicaOwnersV {
    match w {
        None => ReplicaOwnersV { volume: None, nexuses: Seq::empty() },
        Some(o) => ReplicaOwnersV { volume: o.volume, nexuses: o.nexuses@ },
    }
}

/// Decode owner references; absent owners mean no owner.
pub fn owners_from_wire(w: Option<WireReplicaOwners>) -> (r: ReplicaOwners)
    ensures
        r@ == spec_owners_from_wire(w),
{
    match w {
        None => {
            let r = ReplicaOwners::none();
            proof {
                assert(r@.nexuses =~= Seq::<String>::empty());
            }
            r
        },
        Some(o) => {
            let r = ReplicaOwners { volume: o.volume, nexuses: o.nexuses };
            proof {
                assert(r@.nexuses =~= spec_owners_from_wire(Some(o)).nexuses);
            }
            r
        },
    }
}

/// Encode owner references for the wire.
pub fn owners_to_wire(o: ReplicaOwners) -> (w: WireReplicaOwners)
    ensures
        w.volume == o.volume,
        w.nexuses == o.nexuses,
{
    WireReplicaOwners { volume: o.volume, nexuses: o.nexuses }
}

/// Request: create a pool.
pub struct CreatePoolRequest {
    pub pool_id: String,
    pub node_id: String,
    pub disks: Vec<String>,
    pub labels: Option<StringMapValue>,
}

/// Request: destroy a pool.
pub struct DestroyPoolRequest {
    pub pool_id: String,
    pub node_id: String,
}

/// Request: create a replica.
pub struct CreateReplicaRequest {
    pub node_id: String,
    pub pool_id: String,
    pub name: Option<String>,
    pub replica_id: Option<String>,
    pub thin: bool,
    pub size: u64,
    pub share: u32,
    pub managed: bool,
    pub owners: Option<WireReplicaOwners>,
}

/// Request: destroy a replica.
pub struct DestroyReplicaRequest {
    pub node_id: String,
    pub pool_id: String,
    pub name: Option<String>,
    pub replica_id: Option<String>,
    pub owners: Option<WireReplicaOwners>,
}

/// Request: share a replica.
pub struct ShareReplicaRequest {
    pub node_id: String,
    pub pool_id: String,
    pub name: Option<String>,
    pub replica_id: Option<String>,
    pub protocol: u32,
}

/// Request: stop sharing a replica.
pub struct UnshareReplicaRequest {
    pub node_id: String,
    pub pool_id: String,
    pub name: Option<String>,
    pub replica_id: Option<String>,
}

/// Build a pool-creation request from any carrier of the needed data.
pub fn create_pool_request<T: CreatePoolInfo>(info: &T) -> (r: CreatePoolRequest)
    ensures
        r.pool_id@ == info.pool_id_view(),
        r.node_id@ == info.node_id_view(),
        r.disks.deep_view() == info.disks_view(),
{
    CreatePoolRequest {
        pool_id: info.pool_id(),
        node_id: info.node_id(),
        disks: info.disks(),
        labels: match info.labels() {
            None => None,
            Some(l) => Some(StringMapValue { value: l }),
        },
    }
}

/// The command a pool-creation request denotes; labels are optional.
pub open spec fn spec_create_pool_from_request(r: CreatePoolRequest) -> CreatePool {
    CreatePool {
        node: r.node_id,
        id: r.pool_id,
        disks: r.disks,
        labels: match r.labels {
            None => None,
            Some(m) => Some(m.value),
        },
    }
}

/// Translate a pool-creation request into the internal command.
pub fn create_pool_from_request(r: CreatePoolRequest) -> (c: CreatePool)
    ensures
        c == spec_create_pool_from_request(r),
{
    CreatePool {
        node: r.node_id,
        id: r.pool_id,
        disks: r.disks,
        labels: match r.labels {
            None => None,
            Some(m) => Some(m.value),
        },
    }
}

/// Build a pool-destruction request from any carrier of the needed data.
pub fn destroy_pool_request<T: DestroyPoolInfo>(info: &T) -> (r: DestroyPoolRequest)
    ensures
        r.pool_id@ == info.pool_id_view(),
        r.node_id@ == info.node_id_view(),
{
    DestroyPoolRequest { pool_id: info.pool_id(), node_id: info.node_id() }
}

/// Translate a pool-destruction request into the internal command.
pub fn destroy_pool_from_request(r: DestroyPoolRequest) -> (c: DestroyPool)
    ensures
        c.node == r.node_id,
        c.id == r.pool_id,
{
    DestroyPool { node: r.node_id, id: r.pool_id }
}

/// Build a replica-creation request from any carrier of the needed data.
pub fn create_replica_request<T: CreateReplicaInfo>(info: &T) -> (r: CreateReplicaRequest)
    ensures
        r.node_id@ == info.node_view(),
        r.pool_id@ == info.pool_view(),
        r.replica_id matches Some(u) && u@ == info.uuid_view(),
        r.thin == info.thin_view(),
        r.size == info.size_view(),
        r.share == spec_protocol_code(info.share_view()),
        r.managed == info.managed_view(),
        r.owners is Some,
{
    let owners = info.owners();
    CreateReplicaRequest {
        node_id: info.node(),
        pool_id: info.pool(),
        name: info.name(),
        replica_id: Some(info.uuid()),
        thin: info.thin(),
        size: info.size(),
        share: protocol_code(info.share()),
        managed: info.managed(),
        owners: Some(owners_to_wire(owners)),
    }
}

/// Translate a replica-creation request into the internal command,
/// validating the identifier and the share code.  Owner references are
/// decoded from the wire owners, no owner when absent.
pub fn create_replica_from_request(r: CreateReplicaRequest) -> (c: Result<
    CreateReplica,
    ReplyError,
>)
    ensures
        c is Ok <==> (r.replica_id is Some && spec_protocol_from_code(r.share) is Some),
        c matches Ok(cmd) ==> ({
            &&& cmd.node == r.node_id
            &&& cmd.name == r.name
            &&& cmd.uuid == r.replica_id.unwrap()
            &&& cmd.pool == r.pool_id
            &&& cmd.size == r.size
            &&& cmd.thin == r.thin
            &&& cmd.share == spec_protocol_from_code(r.share).unwrap()
            &&& cmd.managed == r.managed
            &&& cmd.owners@ == spec_owners_from_wire(r.owners)
        }),
        c matches Err(e) ==> e.kind == ReplyErrorKind::InvalidArgument && e.resource
            == ResourceKind::Replica,
{
    let uuid = match r.replica_id {
        Some(u) => u,
        None => {
            return Err(invalid_replica_wire());
        },
    };
    let share = match protocol_from_code(r.share) {
        Some(s) => s,
        None => {
            return Err(invalid_replica_wire());
        },
    };
    let owners = owners_from_wire(r.owners);
    Ok(
        CreateReplica {
            node: r.node_id,
            name: r.name,
            uuid,
            pool: r.pool_id,
            size: r.size,
            thin: r.thin,
            share,
            managed: r.managed,
            owners,
        },
    )
}

/// Build a replica-destruction request from any carrier of the needed
/// data.
pub fn destroy_replica_request<T: DestroyReplicaInfo>(info: &T) -> (r: DestroyReplicaRequest)
    ensures
        r.node_id@ == info.node_view(),
        r.pool_id@ == info.pool_view(),
        r.replica_id matches Some(u) && u@ == info.uuid_view(),
{
    let disowners = info.disowners();
    DestroyReplicaRequest {
        node_id: info.node(),
        pool_id: info.pool(),
        name: info.name(),
        replica_id: Some(info.uuid()),
        owners: Some(owners_to_wire(disowners)),
    }
}

/// Translate a replica-destruction request into the internal command,
/// validating the identifier.
pub fn destroy_replica_from_request(r: DestroyReplicaRequest) -> (c: Result<
    DestroyReplica,
    ReplyError,
>)
    ensures
        c is Ok <==> r.replica_id is Some,
        c matches Ok(cmd) ==> ({
            &&& cmd.node == r.node_id
            &&& cmd.pool == r.pool_id
            &&& cmd.name == r.name
            &&& cmd.uuid == r.replica_id.unwrap()
            &&& cmd.disowners@ == spec_owners_from_wire(r.owners)
        }),
        c matches Err(e) ==> e.kind == ReplyErrorKind::InvalidArgument && e.resource
            == ResourceKind::Replica,
{
    let uuid = match r.replica_id {
        Some(u) => u,
        None => {
            return Err(invalid_replica_wire());
        },
    };
    let disowners = owners_from_wire(r.owners);
    Ok(DestroyReplica { node: r.node_id, pool: r.pool_id, name: r.name, uuid, disowners })
}

/// Build a replica-sharing request from any carrier of the needed data.
pub fn share_replica_request<T: ShareReplicaInfo>(info: &T) -> (r: ShareReplicaRequest)
    ensures
        r.node_id@ == info.node_view(),
        r.pool_id@ == info.pool_view(),
        r.replica_id matches Some(u) && u@ == info.uuid_view(),
        r.protocol == spec_share_protocol_code(info.protocol_view()),
{
    ShareReplicaRequest {
        node_id: info.node(),
        pool_id: info.pool(),
        name: info.name(),
        replica_id: Some(info.uuid()),
        protocol: share_protocol_code(info.protocol()),
    }
}

/// Translate a replica-sharing request into the internal command,
/// validating the identifier and the protocol code.
pub fn share_replica_from_request(r: ShareReplicaRequest) -> (c: Result<ShareReplica, ReplyError>)
    ensures
        c is Ok <==> (r.replica_id is Some && spec_share_protocol_from_code(r.protocol) is Some),
        c matches Ok(cmd) ==> ({
            &&& cmd.node == r.node_id
            &&& cmd.pool == r.pool_id
            &&& cmd.name == r.name
            &&& cmd.uuid == r.replica_id.unwrap()
            &&& cmd.protocol == spec_share_protocol_from_code(r.protocol).unwrap()
        }),
        c matches Err(e) ==> e.kind == ReplyErrorKind::InvalidArgument && e.resource
            == ResourceKind::Replica,
{
    let uuid = match r.replica_id {
        Some(u) => u,
        None => {
            return Err(invalid_replica_wire());
        },
    };
    let protocol = match share_protocol_from_code(r.protocol) {
        Some(p) => p,
        None => {
            return Err(invalid_replica_wire());
        },
    };
    Ok(ShareReplica { node: r.node_id, pool: r.pool_id, name: r.name, uuid, protocol })
}

/// Build a replica-unsharing request from any carrier of the needed data.
pub fn unshare_replica_request<T: UnshareReplicaInfo>(info: &T) -> (r: UnshareReplicaRequest)
    ensures
        r.node_id@ == info.node_view(),
        r.pool_id@ == info.pool_view(),
        r.replica_id matches Some(u) && u@ == info.uuid_view(),
{
    UnshareReplicaRequest {
        node_id: info.node(),
        pool_id: info.pool(),
        name: info.name(),
        replica_id: Some(info.uuid()),
    }
}

/// Translate a replica-unsharing request into the internal command,
/// validating the identifier.
pub fn unshare_replica_from_request(r: UnshareReplicaRequest) -> (c: Result<
    UnshareReplica,
    ReplyError,
>)
    ensures
        c is Ok <==> r.replica_id is Some,
        c matches Ok(cmd) ==> ({
            &&& cmd.node == r.node_id
            &&& cmd.pool == r.pool_id
            &&& cmd.name == r.name
            &&& cmd.uuid == r.replica_id.unwrap()
        }),
        c matches Err(e) ==> e.kind == ReplyErrorKind::InvalidArgument && e.resource
            == ResourceKind::Replica,
{
    let uuid = match r.replica_id {
        Some(u) => u,
        None => {
            return Err(invalid_replica_wire());
        },
    };
    Ok(UnshareReplica { node: r.node_id, pool: r.pool_id, name: r.name, uuid })
}

/// Filter on a node.
pub struct NodeFilter {
    pub node_id: String,
}

/// Filter on a pool.
pub struct PoolFilter {
    pub pool_id: String,
}

/// Filter on a pool of a node.
pub struct NodePoolFilter {
    pub node_id: String,
    pub pool_id: String,
}

/// Filter on one replica of a pool of a node.
pub struct NodePoolReplicaFilter {
    pub node_id: String,
    pub pool_id: String,
    pub replica_id: String,
}

/// Filter on one replica of a node.
pub struct NodeReplicaFilter {
    pub node_id: String,
    pub replica_id: String,
}

/// Filter on one replica of a pool.
pub struct PoolReplicaFilter {
    pub pool_id: String,
    pub replica_id: String,
}

/// Filter on one replica.
pub struct ReplicaFilter {
    pub replica_id: String,
}

/// Filter on the replicas of a volume.
pub struct VolumeFilter {
    pub volume_id: String,
}

/// The filter shapes a pool query carries.
pub enum PoolFilterShape {
    Node(NodeFilter),
    Pool(PoolFilter),
    NodePool(NodePoolFilter),
}

/// The filter shapes a replica query carries.
pub enum ReplicaFilterShape {
    Node(NodeFilter),
    Pool(PoolFilter),
    NodePool(NodePoolFilter),
    NodePoolReplica(NodePoolReplicaFilter),
    NodeReplica(NodeReplicaFilter),
    PoolReplica(PoolReplicaFilter),
    Replica(ReplicaFilter),
    Volume(VolumeFilter),
}

/// Request: list pools, optionally constrained.
pub struct GetPoolsRequest {
    pub filter: Option<PoolFilterShape>,
}

/// Request: list replicas, optionally constrained.
pub struct GetReplicasRequest {
    pub filter: Option<ReplicaFilterShape>,
}

/// The wire shape of a pool query filter; shapes pools do not know are
/// carried as no constraint.
pub open spec fn spec_pool_filter_to_request(f: Filter) -> GetPoolsRequest {
    match f {
        Filter::Node(n) => GetPoolsRequest {
            filter: Some(PoolFilterShape::Node(NodeFilter { node_id: n })),
        },
        Filter::Pool(p) => GetPoolsRequest {
            filter: Some(PoolFilterShape::Pool(PoolFilter { pool_id: p })),
        },
        Filter::NodePool(n, p) => GetPoolsRequest {
            filter: Some(PoolFilterShape::NodePool(NodePoolFilter { node_id: n, pool_id: p })),
        },
        _ => GetPoolsRequest { filter: None },
    }
}

/// Encode a pool query filter for the wire.
pub fn pool_filter_to_request(f: Filter) -> (r: GetPoolsRequest)
    ensures
        r == spec_pool_filter_to_request(f),
{
    match f {
        Filter::Node(n) => GetPoolsRequest {
            filter: Some(PoolFilterShape::Node(NodeFilter { node_id: n })),
        },
        Filter::Pool(p) => GetPoolsRequest {
            filter: Some(PoolFilterShape::Pool(PoolFilter { pool_id: p })),
        },
        Filter::NodePool(n, p) => GetPoolsRequest {
            filter: Some(PoolFilterShape::NodePool(NodePoolFilter { node_id: n, pool_id: p })),
        },
        _ => GetPoolsRequest { filter: None },
    }
}

/// The filter a pool query carries: an absent shape means no constraint.
pub open spec fn spec_filter_from_pool_request(r: GetPoolsRequest) -> Filter {
    match r.filter {
        None => Filter::All,
        Some(PoolFilterShape::Node(nf)) => Filter::Node(nf.node_id),
        Some(PoolFilterShape::Pool(pf)) => Filter::Pool(pf.pool_id),
        Some(PoolFilterShape::NodePool(np)) => Filter::NodePool(np.node_id, np.pool_id),
    }
}

/// Decode the filter of a pool query; an absent shape means no constraint.
pub fn filter_from_pool_request(r: GetPoolsRequest) -> (f: Filter)
    ensures
        f == spec_filter_from_pool_request(r),
        f.spec_valid_for_pools(),
{
    match r.filter {
        None => Filter::All,
        Some(PoolFilterShape::Node(nf)) => Filter::Node(nf.node_id),
        Some(PoolFilterShape::Pool(pf)) => Filter::Pool(pf.pool_id),
        Some(PoolFilterShape::NodePool(np)) => Filter::NodePool(np.node_id, np.pool_id),
    }
}

/// The wire shape of a replica query filter.
pub open spec fn spec_replica_filter_to_request(f: Filter) -> GetReplicasRequest {
    match f {
        Filter::Node(n) => GetReplicasRequest {
            filter: Some(ReplicaFilterShape::Node(NodeFilter { node_id: n })),
        },
        Filter::Pool(p) => GetReplicasRequest {
            filter: Some(ReplicaFilterShape::Pool(PoolFilter { pool_id: p })),
        },
        Filter::NodePool(n, p) => GetReplicasRequest {
            filter: Some(ReplicaFilterShape::NodePool(NodePoolFilter { node_id: n, pool_id: p })),
        },
        Filter::NodePoolReplica(n, p, u) => GetReplicasRequest {
            filter: Some(
                ReplicaFilterShape::NodePoolReplica(
                    NodePoolReplicaFilter { node_id: n, pool_id: p, replica_id: u },
                ),
            ),
        },
        Filter::NodeReplica(n, u) => GetReplicasRequest {
            filter: Some(
                ReplicaFilterShape::NodeReplica(NodeReplicaFilter { node_id: n, replica_id: u }),
            ),
        },
        Filter::PoolReplica(p, u) => GetReplicasRequest {
            filter: Some(
                ReplicaFilterShape::PoolReplica(PoolReplicaFilter { pool_id: p, replica_id: u }),
            ),
        },
        Filter::Replica(u) => GetReplicasRequest {
            filter: Some(ReplicaFilterShape::Replica(ReplicaFilter { replica_id: u })),
        },
        Filter::Volume(v) => GetReplicasRequest {
            filter: Some(ReplicaFilterShape::Volume(VolumeFilter { volume_id: v })),
        },
        Filter::All => GetReplicasRequest { filter: None },
    }
}

/// Encode a replica query filter for the wire.
pub fn replica_filter_to_request(f: Filter) -> (r: GetReplicasRequest)
    ensures
        r == spec_replica_filter_to_request(f),
{
    match f {
        Filter::Node(n) => GetReplicasRequest {
            filter: Some(ReplicaFilterShape::Node(NodeFilter { node_id: n })),
        },
        Filter::Pool(p) => GetReplicasRequest {
            filter: Some(ReplicaFilterShape::Pool(PoolFilter { pool_id: p })),
        },
        Filter::NodePool(n, p) => GetReplicasRequest {
            filter: Some(ReplicaFilterShape::NodePool(NodePoolFilter { node_id: n, pool_id: p })),
        },
        Filter::NodePoolReplica(n, p, u) => GetReplicasRequest {
            filter: Some(
                ReplicaFilterShape::NodePoolReplica(
                    NodePoolReplicaFilter { node_id: n, pool_id: p, replica_id: u },
                ),
            ),
        },
        Filter::NodeReplica(n, u) => GetReplicasRequest {
            filter: Some(
                ReplicaFilterShape::NodeReplica(NodeReplicaFilter { node_id: n, replica_id: u }),
            ),
        },
        Filter::PoolReplica(p, u) => GetReplicasRequest {
            filter: Some(
                ReplicaFilterShape::PoolReplica(PoolReplicaFilter { pool_id: p, replica_id: u }),
            ),
        },
        Filter::Replica(u) => GetReplicasRequest {
            filter: Some(ReplicaFilterShape::Replica(ReplicaFilter { replica_id: u })),
        },
        Filter::Volume(v) => GetReplicasRequest {
            filter: Some(ReplicaFilterShape::Volume(VolumeFilter { volume_id: v })),
        },
        Filter::All => GetReplicasRequest { filter: None },
    }
}

/// The filter a replica query carries: an absent shape means no
/// constraint.
pub open spec fn spec_filter_from_replica_request(r: GetReplicasRequest) -> Filter {
    match r.filter {
        None => Filter::All,
        Some(ReplicaFilterShape::Node(nf)) => Filter::Node(nf.node_id),
        Some(ReplicaFilterShape::Pool(pf)) => Filter::Pool(pf.pool_id),
        Some(ReplicaFilterShape::NodePool(np)) => Filter::NodePool(np.node_id, np.pool_id),
        Some(ReplicaFilterShape::NodePoolReplica(f3)) => Filter::NodePoolReplica(
            f3.node_id,
            f3.pool_id,
            f3.replica_id,
        ),
        Some(ReplicaFilterShape::NodeReplica(f2)) => Filter::NodeReplica(f2.node_id, f2.replica_id),
        Some(ReplicaFilterShape::PoolReplica(f2)) => Filter::PoolReplica(f2.pool_id, f2.replica_id),
        Some(ReplicaFilterShape::Replica(rf)) => Filter::Replica(rf.replica_id),
        Some(ReplicaFilterShape::Volume(vf)) => Filter::Volume(vf.volume_id),
    }
}

/// Decode the filter of a replica query; an absent shape means no
/// constraint.
pub fn filter_from_replica_request(r: GetReplicasRequest) -> (f: Filter)
    ensures
        f == spec_filter_from_replica_request(r),
{
    match r.filter {
        None => Filter::All,
        Some(ReplicaFilterShape::Node(nf)) => Filter::Node(nf.node_id),
        Some(ReplicaFilterShape::Pool(pf)) => Filter::Pool(pf.pool_id),
        Some(ReplicaFilterShape::NodePool(np)) => Filter::NodePool(np.node_id, np.pool_id),
        Some(ReplicaFilterShape::NodePoolReplica(f3)) => Filter::NodePoolReplica(
            f3.node_id,
            f3.pool_id,
            f3.replica_id,
        ),
        Some(ReplicaFilterShape::NodeReplica(f2)) => Filter::NodeReplica(f2.node_id, f2.replica_id),
        Some(ReplicaFilterShape::PoolReplica(f2)) => Filter::PoolReplica(f2.pool_id, f2.replica_id),
        Some(ReplicaFilterShape::Replica(rf)) => Filter::Replica(rf.replica_id),
        Some(ReplicaFilterShape::Volume(vf)) => Filter::Volume(vf.volume_id),
    }
}

/// Reply payload of a pool creation.
pub enum CreatePoolReplyKind {
    Pool(WirePool),
    Error(WireReplyError),
}

/// Reply to a pool creation.
pub struct CreatePoolReply {
    pub reply: Option<CreatePoolReplyKind>,
}

/// Reply to a pool destruction.
pub struct DestroyPoolReply {
    pub error: Option<WireReplyError>,
}

/// Reply payload of a pool listing.
pub enum GetPoolsReplyKind {
    Pools(Vec<WirePool>),
    Error(WireReplyError),
}

/// Reply to a pool listing.
pub struct GetPoolsReply {
    pub reply: Option<GetPoolsReplyKind>,
}

/// Reply payload of a replica creation.
pub enum CreateReplicaReplyKind {
    Replica(WireReplica),
    Error(WireReplyError),
}

/// Reply to a replica creation.
pub struct CreateReplicaReply {
    pub reply: Option<CreateReplicaReplyKind>,
}

/// Reply to a replica destruction.
pub struct DestroyReplicaReply {
    pub error: Option<WireReplyError>,
}

/// Reply payload of a replica listing.
pub enum GetReplicasReplyKind {
    Replicas(Vec<WireReplica>),
    Error(WireReplyError),
}

/// Reply to a replica listing.
pub struct GetReplicasReply {
    pub reply: Option<GetReplicasReplyKind>,
}

/// Reply payload of a replica share.
pub enum ShareReplicaReplyKind {
    Response(String),
    Error(WireReplyError),
}

/// Reply to a replica share.
pub struct ShareReplicaReply {
    pub reply: Option<ShareReplicaReplyKind>,
}

/// Reply to a replica unshare.
pub struct UnshareReplicaReply {
    pub error: Option<WireReplyError>,
}

/// Encode a list of composed pools for the wire.
pub fn pools_to_wire(pools: Vec<Pool>) -> (r: Vec<WirePool>)
    ensures
        r@.len() == pools@.len(),
        forall|i: int| 0 <= i < r@.len() ==> (#[trigger] r@[i]) == spec_pool_to_wire(pools@[i]),
{
    let ghost all = pools@;
    let mut r: Vec<WirePool> = Vec::new();
    let mut rest = pools;
    let ghost mut i: int = 0;
    #[verifier::loop_isolation(false)]
    while rest.len() > 0
        invariant
            0 <= i,
            all.len() == i + rest@.len(),
            rest@ =~= all.skip(i),
            r@.len() == i,
            forall|k: int| 0 <= k < i ==> (#[trigger] r@[k]) == spec_pool_to_wire(all[k]),
        decreases rest@.len(),
    {
        let p = rest.remove(0);
        proof {
            assert(p == all[i]);
            assert(rest@ =~= all.skip(i + 1));
            i = i + 1;
        }
        r.push(pool_to_wire(p));
    }
    r
}

/// The decoded pool list, if every wire pool decodes.
pub open spec fn spec_pools_from_wire(ws: Seq<WirePool>) -> Option<Seq<Pool>>
    decreases ws.len(),
{
    if ws.len() == 0 {
        Some(Seq::empty())
    } else {
        match spec_pools_from_wire(ws.drop_last()) {
            None => None,
            Some(rest) => match spec_pool_from_wire(ws.last()) {
                None => None,
                Some(p) => Some(rest.push(p)),
            },
        }
    }
}

/// Decode a list of pools from the wire; the first malformed entry fails
/// the whole list.
pub fn pools_from_wire(ws: Vec<WirePool>) -> (r: Result<Vec<Pool>, ReplyError>)
    ensures
        match spec_pools_from_wire(ws@) {
            Some(ps) => r matches Ok(l) && l@ == ps,
            None => r matches Err(e) && e.kind == ReplyErrorKind::InvalidArgument && e.resource
                == ResourceKind::Pool,
        },
{
    let ghost all = ws@;
    let mut out: Vec<Pool> = Vec::new();
    let mut rest = ws;
    let ghost mut i: int = 0;
    #[verifier::loop_isolation(false)]
    while rest.len() > 0
        invariant
            0 <= i,
            all.len() == i + rest@.len(),
            rest@ =~= all.skip(i),
            spec_pools_from_wire(all.subrange(0, i)) matches Some(ps) && out@ == ps,
        decreases rest@.len(),
    {
        let w = rest.remove(0);
        let ghost i0 = i;
        proof {
            assert(w == all[i0]);
            assert(rest@ =~= all.skip(i0 + 1));
            assert(all.subrange(0, i0 + 1).drop_last() =~= all.subrange(0, i0));
        }
        match pool_from_wire(w) {
            Ok(p) => {
                out.push(p);
            },
            Err(e) => {
                proof {
                    lemma_pools_from_wire_prefix_none(all, i0);
                }
                return Err(e);
            },
        }
        proof {
            i = i + 1;
        }
    }
    proof {
        assert(all.subrange(0, all.len() as int) =~= all);
    }
    Ok(out)
}

/// Once one entry fails to decode, the whole list fails.
proof fn lemma_pools_from_wire_prefix_none(ws: Seq<WirePool>, i: int)
    requires
        0 <= i < ws.len(),
        spec_pool_from_wire(ws[i]) is None,
    ensures
        spec_pools_from_wire(ws) is None,
    decreases ws.len(),
{
    if ws.len() > 0 {
        if i == ws.len() - 1 {
        } else {
            lemma_pools_from_wire_prefix_none(ws.drop_last(), i);
        }
    }
}

/// Encode a list of observed replicas for the wire.
pub fn replicas_to_wire(reps: Vec<Replica>) -> (r: Vec<WireReplica>)
    ensures
        r@.len() == reps@.len(),
        forall|i: int| 0 <= i < r@.len() ==> (#[trigger] r@[i]) == spec_replica_to_wire(reps@[i]),
{
    let ghost all = reps@;
    let mut r: Vec<WireReplica> = Vec::new();
    let mut rest = reps;
    let ghost mut i: int = 0;
    #[verifier::loop_isolation(false)]
    while rest.len() > 0
        invariant
            0 <= i,
            all.len() == i + rest@.len(),
            rest@ =~= all.skip(i),
            r@.len() == i,
            forall|k: int| 0 <= k < i ==> (#[trigger] r@[k]) == spec_replica_to_wire(all[k]),
        decreases rest@.len(),
    {
        let p = rest.remove(0);
        proof {
            assert(p == all[i]);
            assert(rest@ =~= all.skip(i + 1));
            i = i + 1;
        }
        r.push(replica_to_wire(p));
    }
    r
}

/// The decoded replica list, if every wire replica decodes.
pub open spec fn spec_replicas_from_wire(ws: Seq<WireReplica>) -> Option<Seq<Replica>>
    decreases ws.len(),
{
    if ws.len() == 0 {
        Some(Seq::empty())
    } else {
        match spec_replicas_from_wire(ws.drop_last()) {
            None => None,
            Some(rest) => match spec_replica_from_wire(ws.last()) {
                None => None,
                Some(p) => Some(rest.push(p)),
            },
        }
    }
}

/// Decode a list of replicas from the wire; the first malformed entry
/// fails the whole list.
pub fn replicas_from_wire(ws: Vec<WireReplica>) -> (r: Result<Vec<Replica>, ReplyError>)
    ensures
        match spec_replicas_from_wire(ws@) {
            Some(ps) => r matches Ok(l) && l@ == ps,
            None => r matches Err(e) && e.kind == ReplyErrorKind::InvalidArgument && e.resource
                == ResourceKind::Replica,
        },
{
    let ghost all = ws@;
    let mut out: Vec<Replica> = Vec::new();
    let mut rest = ws;
    let ghost mut i: int = 0;
    #[verifier::loop_isolation(false)]
    while rest.len() > 0
        invariant
            0 <= i,
            all.len() == i + rest@.len(),
            rest@ =~= all.skip(i),
            spec_replicas_from_wire(all.subrange(0, i)) matches Some(ps) && out@ == ps,
        decreases rest@.len(),
    {
        let w = rest.remove(0);
        let ghost i0 = i;
        proof {
            assert(w == all[i0]);
            assert(rest@ =~= all.skip(i0 + 1));
            assert(all.subrange(0, i0 + 1).drop_last() =~= all.subrange(0, i0));
        }
        match replica_from_wire(w) {
            Ok(p) => {
                out.push(p);
            },
            Err(e) => {
                proof {
                    lemma_replicas_from_wire_prefix_none(all, i0);
                }
                return Err(e);
            },
        }
        proof {
            i = i + 1;
        }
    }
    proof {
        assert(all.subrange(0, all.len() as int) =~= all);
    }
    Ok(out)
}

/// Once one entry fails to decode, the whole list fails.
proof fn lemma_replicas_from_wire_prefix_none(ws: Seq<WireReplica>, i: int)
    requires
        0 <= i < ws.len(),
        spec_replica_from_wire(ws[i]) is None,
    ensures
        spec_replicas_from_wire(ws) is None,
    decreases ws.len(),
{
    if ws.len() > 0 {
        if i == ws.len() - 1 {
        } else {
            lemma_replicas_from_wire_prefix_none(ws.drop_last(), i);
        }
    }
}

/// Whether a wire error carries exactly the given reply error.
pub open spec fn spec_error_encoded(we: WireReplyError, e: ReplyError) -> bool {
    &&& we.kind == spec_error_kind_code(e.kind)
    &&& we.resource == spec_resource_code(e.resource)
    &&& we.source == e.source
    &&& we.extra == e.extra
}

/// The reply error a wire error decodes to.
pub open spec fn spec_error_decoded(we: WireReplyError, e: ReplyError) -> bool {
    &&& e.kind == spec_error_kind_from_code(we.kind)
    &&& e.resource == spec_resource_from_code(we.resource)
    &&& e.source == we.source
    &&& e.extra == we.extra
}

/// The error returned when a reply arrives without its payload.
fn absent_reply(resource: ResourceKind) -> (r: ReplyError)
    ensures
        r.kind == ReplyErrorKind::Internal,
        r.resource == resource,
{
    ReplyError::new(
        ReplyErrorKind::Internal,
        resource,
        String::from_str("decode_reply"),
        String::from_str("reply carries no payload"),
    )
}

/// Encode the outcome of a pool creation.
pub fn encode_create_pool_reply(r: Result<Pool, ReplyError>) -> (w: CreatePoolReply)
    ensures
        match r {
            Ok(p) => w.reply matches Some(CreatePoolReplyKind::Pool(wp)) && wp == spec_pool_to_wire(
                p,
            ),
            Err(e) => w.reply matches Some(CreatePoolReplyKind::Error(we)) && spec_error_encoded(
                we,
                e,
            ),
        },
{
    match r {
        Ok(p) => CreatePoolReply { reply: Some(CreatePoolReplyKind::Pool(pool_to_wire(p))) },
        Err(e) => CreatePoolReply {
            reply: Some(CreatePoolReplyKind::Error(reply_error_to_wire(e))),
        },
    }
}

/// Decode the outcome of a pool creation; an absent payload is an internal
/// error.
pub fn decode_create_pool_reply(w: CreatePoolReply) -> (r: Result<Pool, ReplyError>)
    ensures
        match w.reply {
            None => r matches Err(e) && e.kind == ReplyErrorKind::Internal,
            Some(CreatePoolReplyKind::Pool(wp)) => (match spec_pool_from_wire(wp) {
                Some(p) => r matches Ok(rp) && rp == p,
                None => r matches Err(e) && e.kind == ReplyErrorKind::InvalidArgument,
            }),
            Some(CreatePoolReplyKind::Error(we)) => r matches Err(e) && spec_error_decoded(we, e),
        },
{
    match w.reply {
        None => Err(absent_reply(ResourceKind::Pool)),
        Some(CreatePoolReplyKind::Pool(wp)) => pool_from_wire(wp),
        Some(CreatePoolReplyKind::Error(we)) => Err(reply_error_from_wire(we)),
    }
}

/// Encode the outcome of a pool destruction.
pub fn encode_destroy_pool_reply(r: Result<(), ReplyError>) -> (w: DestroyPoolReply)
    ensures
        match r {
            Ok(_) => w.error is None,
            Err(e) => w.error matches Some(we) && spec_error_encoded(we, e),
        },
{
    match r {
        Ok(_) => DestroyPoolReply { error: None },
        Err(e) => DestroyPoolReply { error: Some(reply_error_to_wire(e)) },
    }
}

/// Decode the outcome of a pool destruction.
pub fn decode_destroy_pool_reply(w: DestroyPoolReply) -> (r: Result<(), ReplyError>)
    ensures
        match w.error {
            None => r is Ok,
            Some(we) => r matches Err(e) && spec_error_decoded(we, e),
        },
{
    match w.error {
        None => Ok(()),
        Some(we) => Err(reply_error_from_wire(we)),
    }
}

/// Encode the outcome of a pool listing.
pub fn encode_get_pools_reply(r: Result<Vec<Pool>, ReplyError>) -> (w: GetPoolsReply)
    ensures
        match r {
            Ok(ps) => w.reply matches Some(GetPoolsReplyKind::Pools(wps)) && wps@.len() == ps@.len()
                && forall|i: int|
                0 <= i < wps@.len() ==> (#[trigger] wps@[i]) == spec_pool_to_wire(ps@[i]),
            Err(e) => w.reply matches Some(GetPoolsReplyKind::Error(we)) && spec_error_encoded(
                we,
                e,
            ),
        },
{
    match r {
        Ok(ps) => GetPoolsReply { reply: Some(GetPoolsReplyKind::Pools(pools_to_wire(ps))) },
        Err(e) => GetPoolsReply { reply: Some(GetPoolsReplyKind::Error(reply_error_to_wire(e))) },
    }
}

/// Decode the outcome of a pool listing; an absent payload is an internal
/// error.
pub fn decode_get_pools_reply(w: GetPoolsReply) -> (r: Result<Vec<Pool>, ReplyError>)
    ensures
        match w.reply {
            None => r matches Err(e) && e.kind == ReplyErrorKind::Internal,
            Some(GetPoolsReplyKind::Pools(wps)) => (match spec_pools_from_wire(wps@) {
                Some(ps) => r matches Ok(l) && l@ == ps,
                None => r matches Err(e) && e.kind == ReplyErrorKind::InvalidArgument,
            }),
            Some(GetPoolsReplyKind::Error(we)) => r matches Err(e) && spec_error_decoded(we, e),
        },
{
    match w.reply {
        None => Err(absent_reply(ResourceKind::Pool)),
        Some(GetPoolsReplyKind::Pools(wps)) => pools_from_wire(wps),
        Some(GetPoolsReplyKind::Error(we)) => Err(reply_error_from_wire(we)),
    }
}

/// Encode the outcome of a replica creation.
pub fn encode_create_replica_reply(r: Result<Replica, ReplyError>) -> (w: CreateReplicaReply)
    ensures
        match r {
            Ok(rep) => w.reply matches Some(CreateReplicaReplyKind::Replica(wr)) && wr
                == spec_replica_to_wire(rep),
            Err(e) => w.reply matches Some(CreateReplicaReplyKind::Error(we))
                && spec_error_encoded(we, e),
        },
{
    match r {
        Ok(rep) => CreateReplicaReply {
            reply: Some(CreateReplicaReplyKind::Replica(replica_to_wire(rep))),
        },
        Err(e) => CreateReplicaReply {
            reply: Some(CreateReplicaReplyKind::Error(reply_error_to_wire(e))),
        },
    }
}

/// Decode the outcome of a replica creation; an absent payload is an
/// internal error.
pub fn decode_create_replica_reply(w: CreateReplicaReply) -> (r: Result<Replica, ReplyError>)
    ensures
        match w.reply {
            None => r matches Err(e) && e.kind == ReplyErrorKind::Internal,
            Some(CreateReplicaReplyKind::Replica(wr)) => (match spec_replica_from_wire(wr) {
                Some(rep) => r matches Ok(rr) && rr == rep,
                None => r matches Err(e) && e.kind == ReplyErrorKind::InvalidArgument,
            }),
            Some(CreateReplicaReplyKind::Error(we)) => r matches Err(e) && spec_error_decoded(
                we,
                e,
            ),
        },
{
    match w.reply {
        None => Err(absent_reply(ResourceKind::Replica)),
        Some(CreateReplicaReplyKind::Replica(wr)) => replica_from_wire(wr),
        Some(CreateReplicaReplyKind::Error(we)) => Err(reply_error_from_wire(we)),
    }
}

/// Encode the outcome of a replica destruction.
pub fn encode_destroy_replica_reply(r: Result<(), ReplyError>) -> (w: DestroyReplicaReply)
    ensures
        match r {
            Ok(_) => w.error is None,
            Err(e) => w.error matches Some(we) && spec_error_encoded(we, e),
        },
{
    match r {
        Ok(_) => DestroyReplicaReply { error: None },
        Err(e) => DestroyReplicaReply { error: Some(reply_error_to_wire(e)) },
    }
}

/// Decode the outcome of a replica destruction.
pub fn decode_destroy_replica_reply(w: DestroyReplicaReply) -> (r: Result<(), ReplyError>)
    ensures
        match w.error {
            None => r is Ok,
            Some(we) => r matches Err(e) && spec_error_decoded(we, e),
        },
{
    match w.error {
        None => Ok(()),
        Some(we) => Err(reply_error_from_wire(we)),
    }
}

/// Encode the outcome of a replica listing.
pub fn encode_get_replicas_reply(r: Result<Vec<Replica>, ReplyError>) -> (w: GetReplicasReply)
    ensures
        match r {
            Ok(ps) => w.reply matches Some(GetReplicasReplyKind::Replicas(wps)) && wps@.len()
                == ps@.len() && forall|i: int|
                0 <= i < wps@.len() ==> (#[trigger] wps@[i]) == spec_replica_to_wire(ps@[i]),
            Err(e) => w.reply matches Some(GetReplicasReplyKind::Error(we)) && spec_error_encoded(
                we,
                e,
            ),
        },
{
    match r {
        Ok(ps) => GetReplicasReply {
            reply: Some(GetReplicasReplyKind::Replicas(replicas_to_wire(ps))),
        },
        Err(e) => GetReplicasReply {
            reply: Some(GetReplicasReplyKind::Error(reply_error_to_wire(e))),
        },
    }
}

/// Decode the outcome of a replica listing; an absent payload is an
/// internal error.
pub fn decode_get_replicas_reply(w: GetReplicasReply) -> (r: Result<Vec<Replica>, ReplyError>)
    ensures
        match w.reply {
            None => r matches Err(e) && e.kind == ReplyErrorKind::Internal,
            Some(GetReplicasReplyKind::Replicas(wps)) => (match spec_replicas_from_wire(wps@) {
                Some(ps) => r matches Ok(l) && l@ == ps,
                None => r matches Err(e) && e.kind == ReplyErrorKind::InvalidArgument,
            }),
            Some(GetReplicasReplyKind::Error(we)) => r matches Err(e) && spec_error_decoded(we, e),
        },
{
    match w.reply {
        None => Err(absent_reply(ResourceKind::Replica)),
        Some(GetReplicasReplyKind::Replicas(wps)) => replicas_from_wire(wps),
        Some(GetReplicasReplyKind::Error(we)) => Err(reply_error_from_wire(we)),
    }
}

/// Encode the outcome of a replica share.
pub fn encode_share_replica_reply(r: Result<String, ReplyError>) -> (w: ShareReplicaReply)
    ensures
        match r {
            Ok(uri) => w.reply matches Some(ShareReplicaReplyKind::Response(u)) && u == uri,
            Err(e) => w.reply matches Some(ShareReplicaReplyKind::Error(we)) && spec_error_encoded(
                we,
                e,
            ),
        },
{
    match r {
        Ok(uri) => ShareReplicaReply { reply: Some(ShareReplicaReplyKind::Response(uri)) },
        Err(e) => ShareReplicaReply {
            reply: Some(ShareReplicaReplyKind::Error(reply_error_to_wire(e))),
        },
    }
}

/// Decode the outcome of a replica share; an absent payload is an internal
/// error.
pub fn decode_share_replica_reply(w: ShareReplicaReply) -> (r: Result<String, ReplyError>)
    ensures
        match w.reply {
            None => r matches Err(e) && e.kind == ReplyErrorKind::Internal,
            Some(ShareReplicaReplyKind::Response(u)) => r matches Ok(uri) && uri == u,
            Some(ShareReplicaReplyKind::Error(we)) => r matches Err(e) && spec_error_decoded(we, e),
        },
{
    match w.reply {
        None => Err(absent_reply(ResourceKind::Replica)),
        Some(ShareReplicaReplyKind::Response(u)) => Ok(u),
        Some(ShareReplicaReplyKind::Error(we)) => Err(reply_error_from_wire(we)),
    }
}

/// Encode the outcome of a replica unshare.
pub fn encode_unshare_replica_reply(r: Result<(), ReplyError>) -> (w: UnshareReplicaReply)
    ensures
        match r {
            Ok(_) => w.error is None,
            Err(e) => w.error matches Some(we) && spec_error_encoded(we, e),
        },
{
    match r {
        Ok(_) => UnshareReplicaReply { error: None },
        Err(e) => UnshareReplicaReply { error: Some(reply_error_to_wire(e)) },
    }
}

/// Decode the outcome of a replica unshare.
pub fn decode_unshare_replica_reply(w: UnshareReplicaReply) -> (r: Result<(), ReplyError>)
    ensures
        match w.error {
            None => r is Ok,
            Some(we) => r matches Err(e) && spec_error_decoded(we, e),
        },
{
    match w.error {
        None => Ok(()),
        Some(we) => Err(reply_error_from_wire(we)),
    }
}

} // verus!
