//! The resource spec store: durable, versioned records of desired
//! configuration.  Every record carries a sequencer, a monotonic token
//! guarding concurrent mutation: a guarded write presents the sequencer value
//! it last observed and is rejected with a conflict when the record has moved
//! on — stale writes are never silently applied.

use vstd::prelude::*;
use vstd::string::StringExecFns;

use crate::errors::{ReplyError, ReplyErrorKind, ResourceKind};
use crate::filter::spec_owned_by;
use crate::requests::{CreatePool, CreateReplica, DestroyPool, DestroyReplica, ShareReplica,
    UnshareReplica};
use crate::resources::{NexusSpec, PoolSpec, PoolSpecStatus, PoolStatus, Protocol, ReplicaSpec,
    ReplicaSpecStatus, ReplicaStatus, ReplicaShareProtocol, VolumeSpec, VolumeSpecStatus};

verus! {

/// Whether some pool spec carries the given identifier.
pub open spec fn spec_has_pool(s: Seq<PoolSpec>, id: Seq<char>) -> bool {
    exists|i: int| 0 <= i < s.len() && (#[trigger] s[i]).id@ == id
}

/// Whether some replica spec carries the given identifier.
pub open spec fn spec_has_replica(s: Seq<ReplicaSpec>, uuid: Seq<char>) -> bool {
    exists|i: int| 0 <= i < s.len() && (#[trigger] s[i]).uuid@ == uuid
}

/// Whether some nexus spec carries the given identifier.
pub open spec fn spec_has_nexus(s: Seq<NexusSpec>, uuid: Seq<char>) -> bool {
    exists|i: int| 0 <= i < s.len() && (#[trigger] s[i]).uuid@ == uuid
}

/// Whether some volume spec carries the given identifier.
pub open spec fn spec_has_volume(s: Seq<VolumeSpec>, uuid: Seq<char>) -> bool {
    exists|i: int| 0 <= i < s.len() && (#[trigger] s[i]).uuid@ == uuid
}

/// Whether a guarded write presenting `observed` is accepted against `s`:
/// the addressed pool exists and still carries exactly that sequencer value.
pub open spec fn spec_pool_write_accepted(s: Seq<PoolSpec>, id: Seq<char>, observed: u64) -> bool {
    exists|i: int|
        0 <= i < s.len() && (#[trigger] s[i]).id@ == id && s[i].sequencer == observed && observed
            < u64::MAX
}

/// Sequencer-guarded writes exclude stale writers.  Two writers both
/// observed sequencer `t`; after one write was accepted the record carries
/// `t + 1`, so the other write, still presenting `t`, is rejected — of two
/// concurrent guarded writes from the same observation exactly one wins.
pub proof fn lemma_sequencer_excludes_stale_write(s1: Seq<PoolSpec>, id: Seq<char>, t: u64)
    requires
        forall|i: int, j: int|
            0 <= i < j < s1.len() ==> (#[trigger] s1[i]).id@ != (#[trigger] s1[j]).id@,
        exists|i: int|
            0 <= i < s1.len() && (#[trigger] s1[i]).id@ == id && s1[i].sequencer as int == t + 1,
    ensures
        !spec_pool_write_accepted(s1, id, t),
{
    if spec_pool_write_accepted(s1, id, t) {
        let j = choose|j: int|
            0 <= j < s1.len() && (#[trigger] s1[j]).id@ == id && s1[j].sequencer == t && t
                < u64::MAX;
        let i = choose|i: int|
            0 <= i < s1.len() && (#[trigger] s1[i]).id@ == id && s1[i].sequencer as int == t + 1;
        assert(i == j);
        assert(false);
    }
}

/// The replica specs owned by the given volume, in store order.
pub open spec fn spec_owned_replicas(s: Seq<ReplicaSpec>, volume: Seq<char>) -> Seq<ReplicaSpec>
    decreases s.len(),
{
    if s.len() == 0 {
        Seq::empty()
    } else {
        let rest = spec_owned_replicas(s.drop_last(), volume);
        if spec_owned_by(s.last(), volume) {
            rest.push(s.last())
        } else {
            rest
        }
    }
}

/// Selecting the owned replicas distributes over appending one spec.
pub proof fn lemma_owned_replicas_push(s: Seq<ReplicaSpec>, volume: Seq<char>, e: ReplicaSpec)
    ensures
        spec_owned_replicas(s.push(e), volume) == if spec_owned_by(e, volume) {
            spec_owned_replicas(s, volume).push(e)
        } else {
            spec_owned_replicas(s, volume)
        },
{
    assert(s.push(e).drop_last() =~= s);
}

/// Durable desired configuration for every resource kind.
pub struct SpecStore {
    /// Pool specs, identifiers unique.
    pub pools: Vec<PoolSpec>,
    /// Replica specs, identifiers unique.
    pub replicas: Vec<ReplicaSpec>,
    /// Nexus specs, identifiers unique.
    pub nexuses: Vec<NexusSpec>,
    /// Volume specs, identifiers unique.
    pub volumes: Vec<VolumeSpec>,
}

impl SpecStore {
    /// Identifiers are unique within each resource kind.
    pub open spec fn wf(self) -> bool {
        &&& forall|i: int, j: int|
            0 <= i < j < self.pools@.len() ==> (#[trigger] self.pools@[i]).id@ != (
            #[trigger] self.pools@[j]).id@
        &&& forall|i: int, j: int|
            0 <= i < j < self.replicas@.len() ==> (#[trigger] self.replicas@[i]).uuid@ != (
            #[trigger] self.replicas@[j]).uuid@
        &&& forall|i: int, j: int|
            0 <= i < j < self.nexuses@.len() ==> (#[trigger] self.nexuses@[i]).uuid@ != (
            #[trigger] self.nexuses@[j]).uuid@
        &&& forall|i: int, j: int|
            0 <= i < j < self.volumes@.len() ==> (#[trigger] self.volumes@[i]).uuid@ != (
            #[trigger] self.volumes@[j]).uuid@
    }

    /// An empty store.
    pub fn new() -> (r: SpecStore)
        ensures
            r.wf(),
            r.pools@.len() == 0,
            r.replicas@.len() == 0,
            r.nexuses@.len() == 0,
            r.volumes@.len() == 0,
    {
        SpecStore { pools: Vec::new(), replicas: Vec::new(), nexuses: Vec::new(), volumes: Vec::new() }
    }

    /// Index of the pool spec with the given identifier.
    pub fn find_pool(&self, id: &String) -> (r: Option<usize>)
        ensures
            match r {
                Some(i) => i < self.pools@.len() && self.pools@[i as int].id@ == id@,
                None => !spec_has_pool(self.pools@, id@),
            },
    {
        let mut i: usize = 0;
        while i < self.pools.len()
            invariant
                i <= self.pools@.len(),
                forall|j: int| 0 <= j < i ==> (#[trigger] self.pools@[j]).id@ != id@,
            decreases self.pools@.len() - i,
        {
            if self.pools[i].id.eq(id) {
                return Some(i);
            }
            i = i + 1;
        }
        None
    }

    /// Index of the replica spec with the given identifier.
    pub fn find_replica(&self, uuid: &String) -> (r: Option<usize>)
        ensures
            match r {
                Some(i) => i < self.replicas@.len() && self.replicas@[i as int].uuid@ == uuid@,
                None => !spec_has_replica(self.replicas@, uuid@),
            },
    {
        let mut i: usize = 0;
        while i < self.replicas.len()
            invariant
                i <= self.replicas@.len(),
                forall|j: int| 0 <= j < i ==> (#[trigger] self.replicas@[j]).uuid@ != uuid@,
            decreases self.replicas@.len() - i,
        {
            if self.replicas[i].uuid.eq(uuid) {
                return Some(i);
            }
            i = i + 1;
        }
        None
    }

    /// Index of the nexus spec with the given identifier.
    pub fn find_nexus(&self, uuid: &String) -> (r: Option<usize>)
        ensures
            match r {
                Some(i) => i < self.nexuses@.len() && self.nexuses@[i as int].uuid@ == uuid@,
                None => !spec_has_nexus(self.nexuses@, uuid@),
            },
    {
        let mut i: usize = 0;
        while i < self.nexuses.len()
            invariant
                i <= self.nexuses@.len(),
                forall|j: int| 0 <= j < i ==> (#[trigger] self.nexuses@[j]).uuid@ != uuid@,
            decreases self.nexuses@.len() - i,
        {
            if self.nexuses[i].uuid.eq(uuid) {
                return Some(i);
            }
            i = i + 1;
        }
        None
    }

    /// Index of the volume spec with the given identifier.
    pub fn find_volume(&self, uuid: &String) -> (r: Option<usize>)
        ensures
            match r {
                Some(i) => i < self.volumes@.len() && self.volumes@[i as int].uuid@ == uuid@,
                None => !spec_has_volume(self.volumes@, uuid@),
            },
    {
        let mut i: usize = 0;
        while i < self.volumes.len()
            invariant
                i <= self.volumes@.len(),
                forall|j: int| 0 <= j < i ==> (#[trigger] self.volumes@[j]).uuid@ != uuid@,
            decreases self.volumes@.len() - i,
        {
            if self.volumes[i].uuid.eq(uuid) {
                return Some(i);
            }
            i = i + 1;
        }
        None
    }

    /// Record a new pool spec.  Rejected with a conflict when a pool with the
    /// same identifier already exists.
    pub fn create_pool(&mut self, req: CreatePool) -> (r: Result<(), ReplyError>)
        requires
            old(self).wf(),
        ensures
            final(self).wf(),
            r is Ok <==> !spec_has_pool(old(self).pools@, req.id@),
            r is Ok ==> final(self).pools@ == old(self).pools@.push(
                PoolSpec {
                    node: req.node,
                    id: req.id,
                    disks: req.disks,
                    labels: req.labels,
                    status: PoolSpecStatus::Created(PoolStatus::Unknown),
                    sequencer: 0,
                },
            ),
            r matches Err(e) ==> *final(self) == *old(self) && e.kind == ReplyErrorKind::Conflict
                && e.resource == ResourceKind::Pool,
            final(self).replicas == old(self).replicas,
            final(self).nexuses == old(self).nexuses,
            final(self).volumes == old(self).volumes,
    {
        match self.find_pool(&req.id) {
            Some(_) => Err(
                ReplyError::new(
                    ReplyErrorKind::Conflict,
                    ResourceKind::Pool,
                    String::from_str("create_pool"),
                    String::from_str("pool already exists"),
                ),
            ),
            None => {
                let spec = PoolSpec {
                    node: req.node,
                    id: req.id,
                    disks: req.disks,
                    labels: req.labels,
                    status: PoolSpecStatus::Created(PoolStatus::Unknown),
                    sequencer: 0,
                };
                self.pools.push(spec);
                Ok(())
            },
        }
    }

    /// Remove the pool spec addressed by node and identifier.
    pub fn destroy_pool(&mut self, req: &DestroyPool) -> (r: Result<(), ReplyError>)
        requires
            old(self).wf(),
        ensures
            final(self).wf(),
            r is Ok <==> exists|i: int|
                0 <= i < old(self).pools@.len() && (#[trigger] old(self).pools@[i]).id@ == req.id@
                    && old(self).pools@[i].node@ == req.node@,
            r is Ok ==> exists|i: int|
                0 <= i < old(self).pools@.len() && (#[trigger] old(self).pools@[i]).id@ == req.id@
                    && old(self).pools@[i].node@ == req.node@ && final(self).pools@ == old(
                    self,
                ).pools@.remove(i),
            r matches Err(e) ==> *final(self) == *old(self) && e.kind == ReplyErrorKind::NotFound
                && e.resource == ResourceKind::Pool,
            final(self).replicas == old(self).replicas,
            final(self).nexuses == old(self).nexuses,
            final(self).volumes == old(self).volumes,
    {
        match self.find_pool(&req.id) {
            Some(i) => {
                if self.pools[i].node.eq(&req.node) {
                    self.pools.remove(i);
                    Ok(())
                } else {
                    Err(
                        ReplyError::new(
                            ReplyErrorKind::NotFound,
                            ResourceKind::Pool,
                            String::from_str("destroy_pool"),
                            String::from_str("pool is not on the given node"),
                        ),
                    )
                }
            },
            None => Err(
                ReplyError::new(
                    ReplyErrorKind::NotFound,
                    ResourceKind::Pool,
                    String::from_str("destroy_pool"),
                    String::from_str("pool not found"),
                ),
            ),
        }
    }

    /// Sequencer-guarded update of a pool's labels.  The caller presents the
    /// sequencer value it last observed; the write is applied, and the
    /// sequencer advanced, only when the record still carries that value.
    pub fn update_pool_labels(
        &mut self,
        id: &String,
        observed: u64,
        labels: Option<Vec<(String, String)>>,
    ) -> (r: Result<u64, ReplyError>)
        requires
            old(self).wf(),
        ensures
            final(self).wf(),
            r is Ok <==> spec_pool_write_accepted(old(self).pools@, id@, observed),
            r matches Ok(t) ==> t == observed + 1 && exists|i: int|
                0 <= i < old(self).pools@.len() && (#[trigger] old(self).pools@[i]).id@ == id@
                    && old(self).pools@[i].sequencer == observed && final(self).pools@ == old(
                    self,
                ).pools@.update(
                    i,
                    PoolSpec {
                        node: old(self).pools@[i].node,
                        id: old(self).pools@[i].id,
                        disks: old(self).pools@[i].disks,
                        labels: labels,
                        status: old(self).pools@[i].status,
                        sequencer: (observed + 1) as u64,
                    },
                ),
            r matches Err(e) ==> *final(self) == *old(self) && e.resource == ResourceKind::Pool && (
            if spec_has_pool(old(self).pools@, id@) {
                e.kind == ReplyErrorKind::Conflict
            } else {
                e.kind == ReplyErrorKind::NotFound
            }),
            final(self).replicas == old(self).replicas,
            final(self).nexuses == old(self).nexuses,
            final(self).volumes == old(self).volumes,
    {
        match self.find_pool(id) {
            None => Err(
                ReplyError::new(
                    ReplyErrorKind::NotFound,
                    ResourceKind::Pool,
                    String::from_str("update_pool_labels"),
                    String::from_str("pool not found"),
                ),
            ),
            Some(i) => {
                if self.pools[i].sequencer == observed && observed < u64::MAX {
                    let prev = self.pools.remove(i);
                    let next = PoolSpec {
                        node: prev.node,
                        id: prev.id,
                        disks: prev.disks,
                        labels: labels,
                        status: prev.status,
                        sequencer: observed + 1,
                    };
                    self.pools.insert(i, next);
                    proof {
                        assert(self.pools@ =~= old(self).pools@.update(
                            i as int,
                            PoolSpec {
                                node: old(self).pools@[i as int].node,
                                id: old(self).pools@[i as int].id,
                                disks: old(self).pools@[i as int].disks,
                                labels: labels,
                                status: old(self).pools@[i as int].status,
                                sequencer: (observed + 1) as u64,
                            },
                        ));
                    }
                    Ok(observed + 1)
                } else {
                    Err(
                        ReplyError::new(
                            ReplyErrorKind::Conflict,
                            ResourceKind::Pool,
                            String::from_str("update_pool_labels"),
                            String::from_str("sequencer mismatch"),
                        ),
                    )
                }
            },
        }
    }

    /// Record a new replica spec.  The replica name defaults to its
    /// identifier when absent.  Rejected with a conflict when a replica with
    /// the same identifier already exists.
    pub fn create_replica(&mut self, req: CreateReplica) -> (r: Result<(), ReplyError>)
        requires
            old(self).wf(),
        ensures
            final(self).wf(),
            r is Ok <==> !spec_has_replica(old(self).replicas@, req.uuid@),
            r is Ok ==> final(self).replicas@.len() == old(self).replicas@.len() + 1
                && final(self).replicas@ == old(self).replicas@.push(final(self).replicas@.last()) && (
            final(self).replicas@.last() == ReplicaSpec {
                name: match req.name {
                    Some(n) => n,
                    None => req.uuid,
                },
                uuid: req.uuid,
                node: req.node,
                pool: req.pool,
                size: req.size,
                thin: req.thin,
                share: req.share,
                managed: req.managed,
                owners: req.owners,
                status: ReplicaSpecStatus::Created(ReplicaStatus::Online),
                sequencer: 0,
            }),
            r matches Err(e) ==> *final(self) == *old(self) && e.kind == ReplyErrorKind::Conflict
                && e.resource == ResourceKind::Replica,
            final(self).pools == old(self).pools,
            final(self).nexuses == old(self).nexuses,
            final(self).volumes == old(self).volumes,
    {
        match self.find_replica(&req.uuid) {
            Some(_) => Err(
                ReplyError::new(
                    ReplyErrorKind::Conflict,
                    ResourceKind::Replica,
                    String::from_str("create_replica"),
                    String::from_str("replica already exists"),
                ),
            ),
            None => {
                let name = match req.name {
                    Some(n) => n,
                    None => req.uuid.clone(),
                };
                let spec = ReplicaSpec {
                    name,
                    uuid: req.uuid,
                    node: req.node,
                    pool: req.pool,
                    size: req.size,
                    thin: req.thin,
                    share: req.share,
                    managed: req.managed,
                    owners: req.owners,
                    status: ReplicaSpecStatus::Created(ReplicaStatus::Online),
                    sequencer: 0,
                };
                self.replicas.push(spec);
                Ok(())
            },
        }
    }

    /// Remove the replica spec addressed by node, pool and identifier.
    pub fn destroy_replica(&mut self, req: &DestroyReplica) -> (r: Result<(), ReplyError>)
        requires
            old(self).wf(),
        ensures
            final(self).wf(),
            r is Ok <==> exists|i: int|
                0 <= i < old(self).replicas@.len() && (#[trigger] old(self).replicas@[i]).uuid@
                    == req.uuid@ && old(self).replicas@[i].node@ == req.node@ && old(
                    self,
                ).replicas@[i].pool@ == req.pool@,
            r is Ok ==> exists|i: int|
                0 <= i < old(self).replicas@.len() && (#[trigger] old(self).replicas@[i]).uuid@
                    == req.uuid@ && old(self).replicas@[i].node@ == req.node@ && old(
                    self,
                ).replicas@[i].pool@ == req.pool@ && final(self).replicas@ == old(self).replicas@.remove(
                    i,
                ),
            r matches Err(e) ==> *final(self) == *old(self) && e.kind == ReplyErrorKind::NotFound
                && e.resource == ResourceKind::Replica,
            final(self).pools == old(self).pools,
            final(self).nexuses == old(self).nexuses,
            final(self).volumes == old(self).volumes,
    {
        match self.find_replica(&req.uuid) {
            Some(i) => {
                if self.replicas[i].node.eq(&req.node) && self.replicas[i].pool.eq(&req.pool) {
                    self.replicas.remove(i);
                    Ok(())
                } else {
                    Err(
                        ReplyError::new(
                            ReplyErrorKind::NotFound,
                            ResourceKind::Replica,
                            String::from_str("destroy_replica"),
                            String::from_str("replica is not at the given location"),
                        ),
                    )
                }
            },
            None => Err(
                ReplyError::new(
                    ReplyErrorKind::NotFound,
                    ResourceKind::Replica,
                    String::from_str("destroy_replica"),
                    String::from_str("replica not found"),
                ),
            ),
        }
    }
}

/// The share URI scheme prefix of a protocol.
pub open spec fn spec_protocol_prefix(p: ReplicaShareProtocol) -> Seq<char> {
    match p {
        ReplicaShareProtocol::Nvmf => "nvmf://"@,
        ReplicaShareProtocol::Iscsi => "iscsi://"@,
    }
}

/// The URI a replica is reachable under once shared: scheme, node, then the
/// replica identifier.
pub open spec fn spec_share_uri(p: ReplicaShareProtocol, node: Seq<char>, uuid: Seq<char>) -> Seq<
    char,
> {
    spec_protocol_prefix(p) + node + "/"@ + uuid
}

/// Build the URI a replica is shared under.
pub fn share_uri(p: ReplicaShareProtocol, node: &String, uuid: &String) -> (r: String)
    ensures
        r@ == spec_share_uri(p, node@, uuid@),
{
    let prefix: String = match p {
        ReplicaShareProtocol::Nvmf => String::from_str("nvmf://"),
        ReplicaShareProtocol::Iscsi => String::from_str("iscsi://"),
    };
    let r = prefix.concat(node.as_str()).concat("/").concat(uuid.as_str());
    r
}

impl SpecStore {
    /// Share a replica: record the protocol on its spec, advance the
    /// sequencer, and return the URI the replica is now reachable under.
    pub fn share_replica(&mut self, req: &ShareReplica) -> (r: Result<String, ReplyError>)
        requires
            old(self).wf(),
        ensures
            final(self).wf(),
            r is Ok <==> exists|i: int|
                0 <= i < old(self).replicas@.len() && (#[trigger] old(self).replicas@[i]).uuid@
                    == req.uuid@ && old(self).replicas@[i].node@ == req.node@ && old(
                    self,
                ).replicas@[i].pool@ == req.pool@ && old(self).replicas@[i].sequencer < u64::MAX,
            r matches Ok(uri) ==> exists|i: int|
                0 <= i < old(self).replicas@.len() && (#[trigger] old(self).replicas@[i]).uuid@
                    == req.uuid@ && uri@ == spec_share_uri(
                    req.protocol,
                    old(self).replicas@[i].node@,
                    req.uuid@,
                ) && final(self).replicas@ == old(self).replicas@.update(
                    i,
                    ReplicaSpec {
                        share: req.protocol.spec_to_protocol(),
                        sequencer: (old(self).replicas@[i].sequencer + 1) as u64,
                        ..old(self).replicas@[i]
                    },
                ),
            r matches Err(e) ==> *final(self) == *old(self) && e.resource == ResourceKind::Replica,
            final(self).pools == old(self).pools,
            final(self).nexuses == old(self).nexuses,
            final(self).volumes == old(self).volumes,
    {
        match self.find_replica(&req.uuid) {
            Some(i) => {
                if self.replicas[i].node.eq(&req.node) && self.replicas[i].pool.eq(&req.pool)
                    && self.replicas[i].sequencer < u64::MAX {
                    let prev = self.replicas.remove(i);
                    let uri = share_uri(req.protocol, &prev.node, &req.uuid);
                    let seq = prev.sequencer + 1;
                    let next = ReplicaSpec {
                        share: req.protocol.to_protocol(),
                        sequencer: seq,
                        ..prev
                    };
                    self.replicas.insert(i, next);
                    proof {
                        assert(self.replicas@ =~= old(self).replicas@.update(
                            i as int,
                            ReplicaSpec {
                                share: req.protocol.spec_to_protocol(),
                                sequencer: (old(self).replicas@[i as int].sequencer + 1) as u64,
                                ..old(self).replicas@[i as int]
                            },
                        ));
                    }
                    Ok(uri)
                } else {
                    Err(
                        ReplyError::new(
                            ReplyErrorKind::NotFound,
                            ResourceKind::Replica,
                            String::from_str("share_replica"),
                            String::from_str("replica is not at the given location"),
                        ),
                    )
                }
            },
            None => Err(
                ReplyError::new(
                    ReplyErrorKind::NotFound,
                    ResourceKind::Replica,
                    String::from_str("share_replica"),
                    String::from_str("replica not found"),
                ),
            ),
        }
    }

    /// Stop sharing a replica: record `Off` on its spec and advance the
    /// sequencer.
    pub fn unshare_replica(&mut self, req: &UnshareReplica) -> (r: Result<(), ReplyError>)
        requires
            old(self).wf(),
        ensures
            final(self).wf(),
            r is Ok <==> exists|i: int|
                0 <= i < old(self).replicas@.len() && (#[trigger] old(self).replicas@[i]).uuid@
                    == req.uuid@ && old(self).replicas@[i].node@ == req.node@ && old(
                    self,
                ).replicas@[i].pool@ == req.pool@ && old(self).replicas@[i].sequencer < u64::MAX,
            r is Ok ==> exists|i: int|
                0 <= i < old(self).replicas@.len() && (#[trigger] old(self).replicas@[i]).uuid@
                    == req.uuid@ && final(self).replicas@ == old(self).replicas@.update(
                    i,
                    ReplicaSpec {
                        share: Protocol::Off,
                        sequencer: (old(self).replicas@[i].sequencer + 1) as u64,
                        ..old(self).replicas@[i]
                    },
                ),
            r matches Err(e) ==> *final(self) == *old(self) && e.resource == ResourceKind::Replica,
            final(self).pools == old(self).pools,
            final(self).nexuses == old(self).nexuses,
            final(self).volumes == old(self).volumes,
    {
        match self.find_replica(&req.uuid) {
            Some(i) => {
                if self.replicas[i].node.eq(&req.node) && self.replicas[i].pool.eq(&req.pool)
                    && self.replicas[i].sequencer < u64::MAX {
                    let prev = self.replicas.remove(i);
                    let seq = prev.sequencer + 1;
                    let next = ReplicaSpec { share: Protocol::Off, sequencer: seq, ..prev };
                    self.replicas.insert(i, next);
                    proof {
                        assert(self.replicas@ =~= old(self).replicas@.update(
                            i as int,
                            ReplicaSpec {
                                share: Protocol::Off,
                                sequencer: (old(self).replicas@[i as int].sequencer + 1) as u64,
                                ..old(self).replicas@[i as int]
                            },
                        ));
                    }
                    Ok(())
                } else {
                    Err(
                        ReplyError::new(
                            ReplyErrorKind::NotFound,
                            ResourceKind::Replica,
                            String::from_str("unshare_replica"),
                            String::from_str("replica is not at the given location"),
                        ),
                    )
                }
            },
            None => Err(
                ReplyError::new(
                    ReplyErrorKind::NotFound,
                    ResourceKind::Replica,
                    String::from_str("unshare_replica"),
                    String::from_str("replica not found"),
                ),
            ),
        }
    }

    /// Record a new volume spec.
    pub fn create_volume(
        &mut self,
        uuid: String,
        size: u64,
        num_replicas: u8,
        target: Option<String>,
    ) -> (r: Result<(), ReplyError>)
        requires
            old(self).wf(),
        ensures
            final(self).wf(),
            r is Ok <==> !spec_has_volume(old(self).volumes@, uuid@),
            r is Ok ==> final(self).volumes@ == old(self).volumes@.push(
                VolumeSpec {
                    uuid: uuid,
                    size: size,
                    num_replicas: num_replicas,
                    target: target,
                    status: VolumeSpecStatus::Created,
                    sequencer: 0,
                },
            ),
            r matches Err(e) ==> *final(self) == *old(self) && e.kind == ReplyErrorKind::Conflict
                && e.resource == ResourceKind::Volume,
            final(self).pools == old(self).pools,
            final(self).replicas == old(self).replicas,
            final(self).nexuses == old(self).nexuses,
    {
        match self.find_volume(&uuid) {
            Some(_) => Err(
                ReplyError::new(
                    ReplyErrorKind::Conflict,
                    ResourceKind::Volume,
                    String::from_str("create_volume"),
                    String::from_str("volume already exists"),
                ),
            ),
            None => {
                let spec = VolumeSpec {
                    uuid,
                    size,
                    num_replicas,
                    target,
                    status: VolumeSpecStatus::Created,
                    sequencer: 0,
                };
                self.volumes.push(spec);
                Ok(())
            },
        }
    }

    /// Record a new nexus spec.
    pub fn create_nexus(&mut self, uuid: String, node: String, size: u64, children: u64) -> (r:
        Result<(), ReplyError>)
        requires
            old(self).wf(),
        ensures
            final(self).wf(),
            r is Ok <==> !spec_has_nexus(old(self).nexuses@, uuid@),
            r is Ok ==> final(self).nexuses@ == old(self).nexuses@.push(
                NexusSpec { uuid: uuid, node: node, size: size, children: children, sequencer: 0 },
            ),
            r matches Err(e) ==> *final(self) == *old(self) && e.kind == ReplyErrorKind::Conflict
                && e.resource == ResourceKind::Nexus,
            final(self).pools == old(self).pools,
            final(self).replicas == old(self).replicas,
            final(self).volumes == old(self).volumes,
    {
        match self.find_nexus(&uuid) {
            Some(_) => Err(
                ReplyError::new(
                    ReplyErrorKind::Conflict,
                    ResourceKind::Nexus,
                    String::from_str("create_nexus"),
                    String::from_str("nexus already exists"),
                ),
            ),
            None => {
                let spec = NexusSpec { uuid, node, size, children, sequencer: 0 };
                self.nexuses.push(spec);
                Ok(())
            },
        }
    }

    /// The replica specs owned by a volume, in store order.
    pub fn get_volume_replicas(&self, volume: &String) -> (r: Vec<ReplicaSpec>)
        ensures
            r@.len() == spec_owned_replicas(self.replicas@, volume@).len(),
            forall|k: int|
                0 <= k < r@.len() ==> (#[trigger] r@[k])@ == spec_owned_replicas(
                    self.replicas@,
                    volume@,
                )[k]@,
    {
        let ghost all = self.replicas@;
        let mut r: Vec<ReplicaSpec> = Vec::new();
        let mut i: usize = 0;
        while i < self.replicas.len()
            invariant
                i <= all.len(),
                all == self.replicas@,
                r@.len() == spec_owned_replicas(all.subrange(0, i as int), volume@).len(),
                forall|k: int|
                    0 <= k < r@.len() ==> (#[trigger] r@[k])@ == spec_owned_replicas(
                        all.subrange(0, i as int),
                        volume@,
                    )[k]@,
            decreases all.len() - i,
        {
            let rs = &self.replicas[i];
            let owned = match &rs.owners.volume {
                Some(v) => v.eq(volume),
                None => false,
            };
            proof {
                assert(all.subrange(0, i as int + 1) =~= all.subrange(0, i as int).push(
                    all[i as int],
                ));
                lemma_owned_replicas_push(all.subrange(0, i as int), volume@, all[i as int]);
            }
            if owned {
                r.push(rs.clone());
            }
            i = i + 1;
        }
        proof {
            assert(all.subrange(0, all.len() as int) =~= all);
        }
        r
    }

    /// The volume spec with the given identifier, if any.
    pub fn get_volume(&self, uuid: &String) -> (r: Option<VolumeSpec>)
        ensures
            r is Some <==> spec_has_volume(self.volumes@, uuid@),
            r matches Some(v) ==> exists|i: int|
                0 <= i < self.volumes@.len() && (#[trigger] self.volumes@[i]).uuid@ == uuid@ && v
                    == self.volumes@[i],
    {
        match self.find_volume(uuid) {
            Some(i) => Some(self.volumes[i].clone()),
            None => None,
        }
    }
}

} // verus!
