//! The registry: owns the spec store and a best-effort cache of last-known
//! remote state, derives volume state from specs and cached states, and
//! schedules reconciliation triggers when a volume is degraded.
//!
//! Derivation is read-only and never fails because one replica or nexus
//! cannot be reached: an unreachable entry degrades to a default topology
//! rather than aborting the whole computation.

use vstd::prelude::*;

use crate::errors::{ReplyError, ReplyErrorKind, ResourceKind};
use crate::filter::{pool_matches, replica_matches, spec_pool_matches, spec_replica_matches,
    Filter};
use crate::requests::{CreatePool, CreateReplica, DestroyPool, DestroyReplica, ShareReplica,
    UnshareReplica};
use crate::resources::{NexusSpec, NexusState, Pool, PoolSpec, PoolSpecStatus, PoolState,
    PoolStatus, PoolV, Replica, ReplicaSpec, ReplicaStatus, ReplicaTopology, Volume, VolumeSpec,
    VolumeState, VolumeStateV, VolumeStatus};
use crate::store::{spec_has_volume, spec_owned_replicas, SpecStore};
use vstd::string::StringExecFns;

verus! {

/// An event handed to the reconciliation subsystem when corrective work is
/// called for.
#[derive(Clone, Copy, Debug, PartialEq, Eq, Structural)]
pub enum PollTriggerEvent {
    /// The control plane just started.
    Start,
    /// A resource appeared or vanished.
    ResourceCreatedOrDeleted,
    /// A volume's derived status fell to degraded.
    VolumeDegraded,
}

/// The last-known observed state of a replica with the given identifier, if
/// any answer was cached: the first cache entry that carries it.
pub open spec fn spec_find_replica_state(s: Seq<Replica>, uuid: Seq<char>) -> Option<Replica>
    decreases s.len(),
{
    if s.len() == 0 {
        None
    } else if s[0].uuid@ == uuid {
        Some(s[0])
    } else {
        spec_find_replica_state(s.drop_first(), uuid)
    }
}

/// The last-known observed state of a pool with the given identifier.
pub open spec fn spec_find_pool_state(s: Seq<PoolState>, id: Seq<char>) -> Option<PoolState>
    decreases s.len(),
{
    if s.len() == 0 {
        None
    } else if s[0].id@ == id {
        Some(s[0])
    } else {
        spec_find_pool_state(s.drop_first(), id)
    }
}

/// The last-known observed state of a nexus with the given identifier.
pub open spec fn spec_find_nexus_state(s: Seq<NexusState>, uuid: Seq<char>) -> Option<NexusState>
    decreases s.len(),
{
    if s.len() == 0 {
        None
    } else if s[0].uuid@ == uuid {
        Some(s[0])
    } else {
        spec_find_nexus_state(s.drop_first(), uuid)
    }
}

/// The topology derived for a replica: its cached placement and health when
/// its node answered, the default topology otherwise.
pub open spec fn spec_topology_of(states: Seq<Replica>, uuid: Seq<char>) -> ReplicaTopology {
    match spec_find_replica_state(states, uuid) {
        Some(st) => ReplicaTopology {
            node: Some(st.node),
            pool: Some(st.pool),
            status: st.status,
        },
        None => ReplicaTopology { node: None, pool: None, status: ReplicaStatus::Unknown },
    }
}

/// The state of a volume's bound target: present only when the volume binds
/// a target, a nexus spec for it exists, and its state is cached.
pub open spec fn spec_target_nexus(
    nexuses: Seq<NexusSpec>,
    states: Seq<NexusState>,
    vspec: VolumeSpec,
) -> Option<NexusState> {
    match vspec.target {
        None => None,
        Some(t) => if crate::store::spec_has_nexus(nexuses, t@) {
            spec_find_nexus_state(states, t@)
        } else {
            None
        },
    }
}

/// The effective size of a volume: the target's size when its state is
/// known, the desired size otherwise.
pub open spec fn spec_volume_size(vspec: VolumeSpec, nexus: Option<NexusState>) -> u64 {
    match nexus {
        Some(ns) => ns.size,
        None => vspec.size,
    }
}

/// The derived status of a volume.
///
/// With a reachable target the volume takes the nexus-reported status,
/// except that an `Online` nexus serving a number of children other than the
/// desired replica count is overridden to `Degraded`: silent replica loss
/// under an apparently healthy target must surface.  Without a target the
/// status follows the replica count against the desired count; with a bound
/// but unreachable target nothing can be concluded.
pub open spec fn spec_volume_status(
    vspec: VolumeSpec,
    nexus: Option<NexusState>,
    replica_count: int,
) -> VolumeStatus {
    match nexus {
        Some(ns) => {
            if ns.status is Online && ns.children != vspec.num_replicas as u64 {
                VolumeStatus::Degraded
            } else {
                VolumeStatus::spec_from_nexus(ns.status)
            }
        },
        None => {
            if vspec.target is None {
                if replica_count >= vspec.num_replicas as int {
                    VolumeStatus::Online
                } else if replica_count == 0 {
                    VolumeStatus::Faulted
                } else {
                    VolumeStatus::Degraded
                }
            } else {
                VolumeStatus::Unknown
            }
        },
    }
}

/// A volume with no bound target derives its status from the replica count
/// against the desired count alone: online with at least as many attached
/// replicas as desired, faulted with none while some are desired, degraded
/// in between.
pub proof fn lemma_status_without_target(vspec: VolumeSpec, replica_count: int)
    requires
        vspec.target is None,
        0 <= replica_count,
    ensures
        replica_count >= vspec.num_replicas as int ==> spec_volume_status(vspec, None, replica_count)
            == VolumeStatus::Online,
        replica_count == 0 && vspec.num_replicas > 0 ==> spec_volume_status(
            vspec,
            None,
            replica_count,
        ) == VolumeStatus::Faulted,
        0 < replica_count < vspec.num_replicas as int ==> spec_volume_status(
            vspec,
            None,
            replica_count,
        ) == VolumeStatus::Degraded,
{
}

/// A bound nexus that reports online while serving a child count other
/// than the desired replica count derives a degraded volume: the override
/// takes precedence over the nexus-reported health.
pub proof fn lemma_online_nexus_child_mismatch_degrades(
    vspec: VolumeSpec,
    ns: NexusState,
    replica_count: int,
)
    requires
        ns.status is Online,
        ns.children != vspec.num_replicas as u64,
    ensures
        spec_volume_status(vspec, Some(ns), replica_count) == VolumeStatus::Degraded,
{
}

/// A replica whose node never answered — no state for it is cached —
/// still gets a topology entry: the default one, with no placement and
/// default health.  Derivation never fails on its account.
pub proof fn lemma_topology_defaults_when_unreachable(states: Seq<Replica>, uuid: Seq<char>)
    requires
        spec_find_replica_state(states, uuid) is None,
    ensures
        spec_topology_of(states, uuid) == (ReplicaTopology {
            node: None,
            pool: None,
            status: ReplicaStatus::Unknown,
        }),
{
}

/// The index of the volume spec carrying the given identifier.
pub open spec fn spec_volume_index(s: Seq<VolumeSpec>, uuid: Seq<char>) -> int {
    choose|i: int| 0 <= i < s.len() && (#[trigger] s[i]).uuid@ == uuid
}

/// Whether the queue holds a trigger for the given volume and event.
pub open spec fn spec_has_trigger(
    q: Seq<(String, PollTriggerEvent)>,
    uuid: Seq<char>,
    e: PollTriggerEvent,
) -> bool {
    exists|i: int| 0 <= i < q.len() && (#[trigger] q[i]).0@ == uuid && q[i].1 == e
}

/// The queue after publishing a trigger, coalescing duplicates: an already
/// pending trigger for the same volume and event is not queued again.
pub open spec fn spec_add_trigger(
    q: Seq<(String, PollTriggerEvent)>,
    t: (String, PollTriggerEvent),
) -> Seq<(String, PollTriggerEvent)> {
    if spec_has_trigger(q, t.0@, t.1) {
        q
    } else {
        q.push(t)
    }
}

/// Publishing the same trigger twice leaves the queue exactly as publishing
/// it once does: duplicate corrective work is coalesced away.
pub proof fn lemma_add_trigger_idempotent(
    q: Seq<(String, PollTriggerEvent)>,
    t: (String, PollTriggerEvent),
)
    ensures
        spec_add_trigger(spec_add_trigger(q, t), t) == spec_add_trigger(q, t),
{
    if !spec_has_trigger(q, t.0@, t.1) {
        let q1 = q.push(t);
        assert(q1[q.len() as int] == t);
        assert(spec_has_trigger(q1, t.0@, t.1));
    }
}

/// The registry: authoritative specs, best-effort state cache, pending
/// reconciliation triggers.
pub struct Registry {
    /// Durable desired configuration.
    pub specs: SpecStore,
    /// Last-known pool states, at most one per pool.
    pub pool_states: Vec<PoolState>,
    /// Last-known replica states, at most one per replica.
    pub replica_states: Vec<Replica>,
    /// Last-known nexus states, at most one per nexus.
    pub nexus_states: Vec<NexusState>,
    /// Pending reconciliation triggers, duplicates coalesced.
    pub pending_triggers: Vec<(String, PollTriggerEvent)>,
}

impl Registry {
    /// Specs are well formed and each cache holds at most one entry per
    /// resource.
    pub open spec fn wf(self) -> bool {
        &&& self.specs.wf()
        &&& forall|i: int, j: int|
            0 <= i < j < self.pool_states@.len() ==> (#[trigger] self.pool_states@[i]).id@ != (
            #[trigger] self.pool_states@[j]).id@
        &&& forall|i: int, j: int|
            0 <= i < j < self.replica_states@.len() ==> (
            #[trigger] self.replica_states@[i]).uuid@ != (#[trigger] self.replica_states@[j]).uuid@
        &&& forall|i: int, j: int|
            0 <= i < j < self.nexus_states@.len() ==> (#[trigger] self.nexus_states@[i]).uuid@ != (
            #[trigger] self.nexus_states@[j]).uuid@
    }

    /// An empty registry.
    pub fn new() -> (r: Registry)
        ensures
            r.wf(),
            r.specs.pools@.len() == 0,
            r.specs.replicas@.len() == 0,
            r.specs.nexuses@.len() == 0,
            r.specs.volumes@.len() == 0,
            r.pool_states@.len() == 0,
            r.replica_states@.len() == 0,
            r.nexus_states@.len() == 0,
            r.pending_triggers@.len() == 0,
    {
        Registry {
            specs: SpecStore::new(),
            pool_states: Vec::new(),
            replica_states: Vec::new(),
            nexus_states: Vec::new(),
            pending_triggers: Vec::new(),
        }
    }

    /// The cached state of the replica with the given identifier, if any.
    pub fn find_replica_state(&self, uuid: &String) -> (r: Option<Replica>)
        ensures
            r == spec_find_replica_state(self.replica_states@, uuid@),
    {
        let ghost all = self.replica_states@;
        let mut i: usize = 0;
        proof {
            assert(all.skip(0) =~= all);
        }
        while i < self.replica_states.len()
            invariant
                i <= all.len(),
                all == self.replica_states@,
                spec_find_replica_state(all, uuid@) == spec_find_replica_state(
                    all.skip(i as int),
                    uuid@,
                ),
            decreases all.len() - i,
        {
            proof {
                assert(all.skip(i as int)[0] == all[i as int]);
                assert(all.skip(i as int).drop_first() =~= all.skip(i as int + 1));
            }
            if self.replica_states[i].uuid.eq(uuid) {
                return Some(self.replica_states[i].clone());
            }
            i = i + 1;
        }
        proof {
            assert(all.skip(all.len() as int).len() == 0);
        }
        None
    }

    /// The cached state of the pool with the given identifier, if any.
    pub fn find_pool_state(&self, id: &String) -> (r: Option<PoolState>)
        ensures
            match spec_find_pool_state(self.pool_states@, id@) {
                None => r is None,
                Some(st) => r matches Some(rv) && rv@ == st@,
            },
    {
        let ghost all = self.pool_states@;
        let mut i: usize = 0;
        proof {
            assert(all.skip(0) =~= all);
        }
        while i < self.pool_states.len()
            invariant
                i <= all.len(),
                all == self.pool_states@,
                spec_find_pool_state(all, id@) == spec_find_pool_state(all.skip(i as int), id@),
            decreases all.len() - i,
        {
            proof {
                assert(all.skip(i as int)[0] == all[i as int]);
                assert(all.skip(i as int).drop_first() =~= all.skip(i as int + 1));
            }
            if self.pool_states[i].id.eq(id) {
                return Some(self.pool_states[i].clone());
            }
            i = i + 1;
        }
        proof {
            assert(all.skip(all.len() as int).len() == 0);
        }
        None
    }

    /// The cached state of the nexus with the given identifier, if any.
    pub fn find_nexus_state(&self, uuid: &String) -> (r: Option<NexusState>)
        ensures
            r == spec_find_nexus_state(self.nexus_states@, uuid@),
    {
        let ghost all = self.nexus_states@;
        let mut i: usize = 0;
        proof {
            assert(all.skip(0) =~= all);
        }
        while i < self.nexus_states.len()
            invariant
                i <= all.len(),
                all == self.nexus_states@,
                spec_find_nexus_state(all, uuid@) == spec_find_nexus_state(
                    all.skip(i as int),
                    uuid@,
                ),
            decreases all.len() - i,
        {
            proof {
                assert(all.skip(i as int)[0] == all[i as int]);
                assert(all.skip(i as int).drop_first() =~= all.skip(i as int + 1));
            }
            if self.nexus_states[i].uuid.eq(uuid) {
                return Some(self.nexus_states[i].clone());
            }
            i = i + 1;
        }
        proof {
            assert(all.skip(all.len() as int).len() == 0);
        }
        None
    }

    /// Construct the topology of one replica from its spec: the cached
    /// placement and health when its node answered, the default topology
    /// otherwise — a failed state query never fails the caller.
    pub fn replica_topology(&self, spec: &ReplicaSpec) -> (r: ReplicaTopology)
        ensures
            r == spec_topology_of(self.replica_states@, spec.uuid@),
    {
        match self.find_replica_state(&spec.uuid) {
            Some(state) => ReplicaTopology::new(Some(state.node), Some(state.pool), state.status),
            None => ReplicaTopology::unknown(),
        }
    }

    /// What `get_volume_state` promises of a successful result `st` for the
    /// volume with identifier `uuid`.
    pub open spec fn spec_volume_state_ok(self, uuid: Seq<char>, st: VolumeStateV) -> bool {
        let vspec = self.specs.volumes@[spec_volume_index(self.specs.volumes@, uuid)];
        let owned = spec_owned_replicas(self.specs.replicas@, uuid);
        let nexus = spec_target_nexus(self.specs.nexuses@, self.nexus_states@, vspec);
        &&& st.uuid@ == uuid
        &&& st.size == spec_volume_size(vspec, nexus)
        &&& st.status == spec_volume_status(vspec, nexus, owned.len() as int)
        &&& st.target == nexus
        &&& st.replica_topology.len() == owned.len()
        &&& forall|k: int|
            0 <= k < owned.len() ==> (#[trigger] st.replica_topology[k]).0@ == owned[k].uuid@
                && st.replica_topology[k].1 == spec_topology_of(
                self.replica_states@,
                owned[k].uuid@,
            )
    }

    /// Derive the state of a volume from its spec, its owned replica specs,
    /// and the cached states of its replicas and bound target.
    ///
    /// Fails only when the volume spec itself is absent; an unreachable
    /// replica or nexus degrades to a default entry instead of failing the
    /// read.
    pub fn get_volume_state(&self, volume_uuid: &String) -> (r: Result<VolumeState, ReplyError>)
        requires
            self.wf(),
        ensures
            r is Ok <==> spec_has_volume(self.specs.volumes@, volume_uuid@),
            r matches Err(e) ==> e.kind == ReplyErrorKind::NotFound && e.resource
                == ResourceKind::Volume,
            r matches Ok(st) ==> self.spec_volume_state_ok(volume_uuid@, st@),
    {
        let replica_specs = self.specs.get_volume_replicas(volume_uuid);
        let volume_spec = match self.specs.get_volume(volume_uuid) {
            Some(v) => v,
            None => {
                return Err(
                    ReplyError::new(
                        ReplyErrorKind::NotFound,
                        ResourceKind::Volume,
                        String::from_str("get_volume_state"),
                        String::from_str("volume not found"),
                    ),
                );
            },
        };
        proof {
            let i = spec_volume_index(self.specs.volumes@, volume_uuid@);
            assert(0 <= i < self.specs.volumes@.len() && self.specs.volumes@[i].uuid@
                == volume_uuid@);
            assert(volume_spec == self.specs.volumes@[i]);
        }
        let nexus_state: Option<NexusState> = match &volume_spec.target {
            None => None,
            Some(t) => match self.specs.find_nexus(t) {
                Some(_) => self.find_nexus_state(t),
                None => None,
            },
        };

        let ghost owned = spec_owned_replicas(self.specs.replicas@, volume_uuid@);
        let mut replica_topology: Vec<(String, ReplicaTopology)> = Vec::new();
        let mut i: usize = 0;
        while i < replica_specs.len()
            invariant
                i <= replica_specs@.len(),
                replica_specs@.len() == owned.len(),
                forall|k: int|
                    0 <= k < owned.len() ==> (#[trigger] replica_specs@[k])@ == owned[k]@,
                replica_topology@.len() == i,
                forall|k: int|
                    0 <= k < i ==> (#[trigger] replica_topology@[k]).0@ == owned[k].uuid@
                        && replica_topology@[k].1 == spec_topology_of(
                        self.replica_states@,
                        owned[k].uuid@,
                    ),
            decreases replica_specs@.len() - i,
        {
            let rs = &replica_specs[i];
            let topo = self.replica_topology(rs);
            replica_topology.push((rs.uuid.clone(), topo));
            i = i + 1;
        }

        let (size, status): (u64, VolumeStatus) = match &nexus_state {
            Some(ns) => {
                let status = if matches!(ns.status, crate::resources::NexusStatus::Online)
                    && ns.children != volume_spec.num_replicas as u64 {
                    VolumeStatus::Degraded
                } else {
                    VolumeStatus::from_nexus(ns.status)
                };
                (ns.size, status)
            },
            None => {
                let status = if volume_spec.target.is_none() {
                    if replica_specs.len() >= volume_spec.num_replicas as usize {
                        VolumeStatus::Online
                    } else if replica_specs.len() == 0 {
                        VolumeStatus::Faulted
                    } else {
                        VolumeStatus::Degraded
                    }
                } else {
                    VolumeStatus::Unknown
                };
                (volume_spec.size, status)
            },
        };

        Ok(
            VolumeState {
                uuid: volume_uuid.clone(),
                size,
                status,
                target: nexus_state,
                replica_topology,
            },
        )
    }

    /// A volume object: its spec paired with its freshly derived state.
    pub fn get_volume(&self, uuid: &String) -> (r: Result<Volume, ReplyError>)
        requires
            self.wf(),
        ensures
            r is Ok <==> spec_has_volume(self.specs.volumes@, uuid@),
            r matches Err(e) ==> e.kind == ReplyErrorKind::NotFound && e.resource
                == ResourceKind::Volume,
            r matches Ok(v) ==> v.spec == self.specs.volumes@[spec_volume_index(
                self.specs.volumes@,
                uuid@,
            )] && self.spec_volume_state_ok(uuid@, v.state@),
    {
        let spec = match self.specs.get_volume(uuid) {
            Some(v) => v,
            None => {
                return Err(
                    ReplyError::new(
                        ReplyErrorKind::NotFound,
                        ResourceKind::Volume,
                        String::from_str("get_volume"),
                        String::from_str("volume not found"),
                    ),
                );
            },
        };
        let state = self.get_volume_state(uuid)?;
        proof {
            let i = spec_volume_index(self.specs.volumes@, uuid@);
            assert(0 <= i < self.specs.volumes@.len() && self.specs.volumes@[i].uuid@ == uuid@);
            assert(spec == self.specs.volumes@[i]);
        }
        Ok(Volume::new(spec, state))
    }

    /// All volumes, each with its freshly derived state.  A volume whose
    /// derivation fails is skipped rather than failing the listing; with the
    /// spec store snapshotted for the whole walk no derivation can fail, so
    /// every volume is listed.
    pub fn get_volumes(&self) -> (r: Vec<Volume>)
        requires
            self.wf(),
        ensures
            r@.len() == self.specs.volumes@.len(),
            forall|i: int|
                0 <= i < r@.len() ==> (#[trigger] r@[i]).spec == self.specs.volumes@[i]
                    && self.spec_volume_state_ok(self.specs.volumes@[i].uuid@, r@[i].state@),
    {
        let mut volumes: Vec<Volume> = Vec::new();
        let mut i: usize = 0;
        while i < self.specs.volumes.len()
            invariant
                self.wf(),
                i <= self.specs.volumes@.len(),
                volumes@.len() == i,
                forall|k: int|
                    0 <= k < i ==> (#[trigger] volumes@[k]).spec == self.specs.volumes@[k]
                        && self.spec_volume_state_ok(
                        self.specs.volumes@[k].uuid@,
                        volumes@[k].state@,
                    ),
            decreases self.specs.volumes@.len() - i,
        {
            let spec = self.specs.volumes[i].clone();
            proof {
                assert(spec_has_volume(self.specs.volumes@, spec.uuid@));
            }
            if let Ok(state) = self.get_volume_state(&spec.uuid) {
                proof {
                    let vi = spec_volume_index(self.specs.volumes@, spec.uuid@);
                    assert(0 <= vi < self.specs.volumes@.len() && self.specs.volumes@[vi].uuid@
                        == spec.uuid@);
                    assert(vi == i as int);
                }
                volumes.push(Volume::new(spec, state));
            }
            i = i + 1;
        }
        volumes
    }
}

/// Whether the cache holds a state for the pool with the given identifier.
pub open spec fn spec_has_pool_state(s: Seq<PoolState>, id: Seq<char>) -> bool {
    exists|i: int| 0 <= i < s.len() && (#[trigger] s[i]).id@ == id
}

/// Whether the cache holds a state for the replica with the given
/// identifier.
pub open spec fn spec_has_replica_state(s: Seq<Replica>, uuid: Seq<char>) -> bool {
    exists|i: int| 0 <= i < s.len() && (#[trigger] s[i]).uuid@ == uuid
}

/// Whether the cache holds a state for the nexus with the given identifier.
pub open spec fn spec_has_nexus_state(s: Seq<NexusState>, uuid: Seq<char>) -> bool {
    exists|i: int| 0 <= i < s.len() && (#[trigger] s[i]).uuid@ == uuid
}

impl Registry {
    /// Cache a freshly fetched replica state, replacing any previous answer
    /// for the same replica.
    pub fn observe_replica_state(&mut self, st: Replica)
        requires
            old(self).wf(),
        ensures
            final(self).wf(),
            (exists|i: int|
                0 <= i < old(self).replica_states@.len() && (
                #[trigger] old(self).replica_states@[i]).uuid@ == st.uuid@ && final(self).replica_states@ == old(self).replica_states@.update(i, st)) || (
            !spec_has_replica_state(old(self).replica_states@, st.uuid@) && final(self).replica_states@ == old(self).replica_states@.push(st)),
            final(self).specs == old(self).specs,
            final(self).pool_states == old(self).pool_states,
            final(self).nexus_states == old(self).nexus_states,
            final(self).pending_triggers == old(self).pending_triggers,
    {
        let mut i: usize = 0;
        while i < self.replica_states.len()
            invariant
                i <= self.replica_states@.len(),
                *self == *old(self),
                old(self).wf(),
                forall|j: int| 0 <= j < i ==> (#[trigger] self.replica_states@[j]).uuid@ != st.uuid@,
            decreases self.replica_states@.len() - i,
        {
            if self.replica_states[i].uuid.eq(&st.uuid) {
                self.replica_states.remove(i);
                self.replica_states.insert(i, st);
                proof {
                    assert(self.replica_states@ =~= old(self).replica_states@.update(
                        i as int,
                        self.replica_states@[i as int],
                    ));
                    assert(forall|k: int|
                        0 <= k < self.replica_states@.len() ==> (#[trigger] self.replica_states@[k]).uuid@
                            == old(self).replica_states@[k].uuid@);
                }
                return;
            }
            i = i + 1;
        }
        self.replica_states.push(st);
    }

    /// Drop the cached replica state, as after a failed state query.
    pub fn forget_replica_state(&mut self, uuid: &String)
        requires
            old(self).wf(),
        ensures
            final(self).wf(),
            (exists|i: int|
                0 <= i < old(self).replica_states@.len() && (
                #[trigger] old(self).replica_states@[i]).uuid@ == uuid@ && final(self).replica_states@ == old(self).replica_states@.remove(i)) || (
            !spec_has_replica_state(old(self).replica_states@, uuid@) && final(self).replica_states@
                == old(self).replica_states@),
            final(self).specs == old(self).specs,
            final(self).pool_states == old(self).pool_states,
            final(self).nexus_states == old(self).nexus_states,
            final(self).pending_triggers == old(self).pending_triggers,
    {
        let mut i: usize = 0;
        while i < self.replica_states.len()
            invariant
                i <= self.replica_states@.len(),
                *self == *old(self),
                old(self).wf(),
                forall|j: int| 0 <= j < i ==> (#[trigger] self.replica_states@[j]).uuid@ != uuid@,
            decreases self.replica_states@.len() - i,
        {
            if self.replica_states[i].uuid.eq(uuid) {
                self.replica_states.remove(i);
                proof {
                    let s_old = old(self).replica_states@;
                    let s_new = self.replica_states@;
                    assert forall|a: int, b: int|
                        0 <= a < b < s_new.len() implies (#[trigger] s_new[a]).uuid@ != (
                    #[trigger] s_new[b]).uuid@ by {
                        let a0 = if a < i as int { a } else { a + 1 };
                        let b0 = if b < i as int { b } else { b + 1 };
                        assert(s_new[a] == s_old[a0]);
                        assert(s_new[b] == s_old[b0]);
                        assert(s_old[a0].uuid@ != s_old[b0].uuid@);
                    }
                }
                return;
            }
            i = i + 1;
        }
    }

    /// Cache a freshly fetched pool state, replacing any previous answer for
    /// the same pool.
    pub fn observe_pool_state(&mut self, st: PoolState)
        requires
            old(self).wf(),
        ensures
            final(self).wf(),
            (exists|i: int|
                0 <= i < old(self).pool_states@.len() && (#[trigger] old(self).pool_states@[i]).id@
                    == st.id@ && final(self).pool_states@ == old(self).pool_states@.update(i, st))
                || (!spec_has_pool_state(old(self).pool_states@, st.id@) && final(self).pool_states@
                == old(self).pool_states@.push(st)),
            final(self).specs == old(self).specs,
            final(self).replica_states == old(self).replica_states,
            final(self).nexus_states == old(self).nexus_states,
            final(self).pending_triggers == old(self).pending_triggers,
    {
        let mut i: usize = 0;
        while i < self.pool_states.len()
            invariant
                i <= self.pool_states@.len(),
                *self == *old(self),
                old(self).wf(),
                forall|j: int| 0 <= j < i ==> (#[trigger] self.pool_states@[j]).id@ != st.id@,
            decreases self.pool_states@.len() - i,
        {
            if self.pool_states[i].id.eq(&st.id) {
                self.pool_states.remove(i);
                self.pool_states.insert(i, st);
                proof {
                    assert(self.pool_states@ =~= old(self).pool_states@.update(
                        i as int,
                        self.pool_states@[i as int],
                    ));
                    assert(forall|k: int|
                        0 <= k < self.pool_states@.len() ==> (#[trigger] self.pool_states@[k]).id@
                            == old(self).pool_states@[k].id@);
                }
                return;
            }
            i = i + 1;
        }
        self.pool_states.push(st);
    }

    /// Cache a freshly fetched nexus state, replacing any previous answer
    /// for the same nexus.
    pub fn observe_nexus_state(&mut self, st: NexusState)
        requires
            old(self).wf(),
        ensures
            final(self).wf(),
            (exists|i: int|
                0 <= i < old(self).nexus_states@.len() && (
                #[trigger] old(self).nexus_states@[i]).uuid@ == st.uuid@ && final(self).nexus_states@ == old(self).nexus_states@.update(i, st)) || (
            !spec_has_nexus_state(old(self).nexus_states@, st.uuid@) && final(self).nexus_states@
                == old(self).nexus_states@.push(st)),
            final(self).specs == old(self).specs,
            final(self).pool_states == old(self).pool_states,
            final(self).replica_states == old(self).replica_states,
            final(self).pending_triggers == old(self).pending_triggers,
    {
        let mut i: usize = 0;
        while i < self.nexus_states.len()
            invariant
                i <= self.nexus_states@.len(),
                *self == *old(self),
                old(self).wf(),
                forall|j: int| 0 <= j < i ==> (#[trigger] self.nexus_states@[j]).uuid@ != st.uuid@,
            decreases self.nexus_states@.len() - i,
        {
            if self.nexus_states[i].uuid.eq(&st.uuid) {
                self.nexus_states.remove(i);
                self.nexus_states.insert(i, st);
                proof {
                    assert(self.nexus_states@ =~= old(self).nexus_states@.update(
                        i as int,
                        self.nexus_states@[i as int],
                    ));
                    assert(forall|k: int|
                        0 <= k < self.nexus_states@.len() ==> (#[trigger] self.nexus_states@[k]).uuid@
                            == old(self).nexus_states@[k].uuid@);
                }
                return;
            }
            i = i + 1;
        }
        self.nexus_states.push(st);
    }

    /// Drop the cached nexus state, as after a failed state query.
    pub fn forget_nexus_state(&mut self, uuid: &String)
        requires
            old(self).wf(),
        ensures
            final(self).wf(),
            (exists|i: int|
                0 <= i < old(self).nexus_states@.len() && (
                #[trigger] old(self).nexus_states@[i]).uuid@ == uuid@ && final(self).nexus_states@
                    == old(self).nexus_states@.remove(i)) || (!spec_has_nexus_state(
                old(self).nexus_states@,
                uuid@,
            ) && final(self).nexus_states@ == old(self).nexus_states@),
            final(self).specs == old(self).specs,
            final(self).pool_states == old(self).pool_states,
            final(self).replica_states == old(self).replica_states,
            final(self).pending_triggers == old(self).pending_triggers,
    {
        let mut i: usize = 0;
        while i < self.nexus_states.len()
            invariant
                i <= self.nexus_states@.len(),
                *self == *old(self),
                old(self).wf(),
                forall|j: int| 0 <= j < i ==> (#[trigger] self.nexus_states@[j]).uuid@ != uuid@,
            decreases self.nexus_states@.len() - i,
        {
            if self.nexus_states[i].uuid.eq(uuid) {
                self.nexus_states.remove(i);
                proof {
                    let s_old = old(self).nexus_states@;
                    let s_new = self.nexus_states@;
                    assert forall|a: int, b: int|
                        0 <= a < b < s_new.len() implies (#[trigger] s_new[a]).uuid@ != (
                    #[trigger] s_new[b]).uuid@ by {
                        let a0 = if a < i as int { a } else { a + 1 };
                        let b0 = if b < i as int { b } else { b + 1 };
                        assert(s_new[a] == s_old[a0]);
                        assert(s_new[b] == s_old[b0]);
                        assert(s_old[a0].uuid@ != s_old[b0].uuid@);
                    }
                }
                return;
            }
            i = i + 1;
        }
    }

    /// Publish a trigger to the reconciliation subsystem, coalescing an
    /// already pending trigger for the same volume and event.
    pub fn notify(&mut self, volume_uuid: &String, event: PollTriggerEvent)
        requires
            old(self).wf(),
        ensures
            final(self).wf(),
            final(self).pending_triggers@ == spec_add_trigger(
                old(self).pending_triggers@,
                (*volume_uuid, event),
            ),
            final(self).specs == old(self).specs,
            final(self).pool_states == old(self).pool_states,
            final(self).replica_states == old(self).replica_states,
            final(self).nexus_states == old(self).nexus_states,
    {
        let mut i: usize = 0;
        while i < self.pending_triggers.len()
            invariant
                i <= self.pending_triggers@.len(),
                *self == *old(self),
                old(self).wf(),
                forall|j: int|
                    0 <= j < i ==> !((#[trigger] self.pending_triggers@[j]).0@ == volume_uuid@
                        && self.pending_triggers@[j].1 == event),
            decreases self.pending_triggers@.len() - i,
        {
            if self.pending_triggers[i].0.eq(volume_uuid) && self.pending_triggers[i].1 == event {
                return;
            }
            i = i + 1;
        }
        self.pending_triggers.push((volume_uuid.clone(), event));
    }

    /// Publish `event` for the volume exactly when its derived status is
    /// degraded; a healthy volume leaves the registry untouched.
    pub fn notify_if_degraded(&mut self, volume: &Volume, event: PollTriggerEvent) -> (emitted:
        bool)
        requires
            old(self).wf(),
        ensures
            final(self).wf(),
            emitted <==> volume.state.status == VolumeStatus::Degraded,
            volume.state.status == VolumeStatus::Degraded ==> final(self).pending_triggers@
                == spec_add_trigger(old(self).pending_triggers@, (volume.spec.uuid, event)),
            volume.state.status != VolumeStatus::Degraded ==> *final(self) == *old(self),
            final(self).specs == old(self).specs,
            final(self).pool_states == old(self).pool_states,
            final(self).replica_states == old(self).replica_states,
            final(self).nexus_states == old(self).nexus_states,
    {
        if matches!(volume.state.status, VolumeStatus::Degraded) {
            self.notify(&volume.spec.uuid, event);
            true
        } else {
            false
        }
    }

    /// Hand every pending trigger to the reconciler, leaving the queue
    /// empty.
    pub fn drain_triggers(&mut self) -> (r: Vec<(String, PollTriggerEvent)>)
        requires
            old(self).wf(),
        ensures
            final(self).wf(),
            r@ == old(self).pending_triggers@,
            final(self).pending_triggers@.len() == 0,
            final(self).specs == old(self).specs,
            final(self).pool_states == old(self).pool_states,
            final(self).replica_states == old(self).replica_states,
            final(self).nexus_states == old(self).nexus_states,
    {
        let mut drained: Vec<(String, PollTriggerEvent)> = Vec::new();
        core::mem::swap(&mut drained, &mut self.pending_triggers);
        drained
    }
}

/// The pool a caller sees for one pool spec: the spec itself plus the
/// cached state for the same pool, when one is known.
pub open spec fn spec_composed_pool(s: PoolSpec, states: Seq<PoolState>) -> PoolV {
    PoolV {
        spec: Some(s@),
        state: match spec_find_pool_state(states, s.id@) {
            Some(st) => Some(st@),
            None => None,
        },
    }
}

/// The pools a filtered listing returns: every pool spec composed with its
/// cached state, kept when it satisfies the filter, in store order.
pub open spec fn spec_pool_listing(
    pools: Seq<PoolSpec>,
    states: Seq<PoolState>,
    f: Filter,
) -> Seq<PoolV>
    decreases pools.len(),
{
    if pools.len() == 0 {
        Seq::empty()
    } else {
        let rest = spec_pool_listing(pools.drop_last(), states, f);
        let pv = spec_composed_pool(pools.last(), states);
        if spec_pool_matches(pv, f) {
            rest.push(pv)
        } else {
            rest
        }
    }
}

/// A pool listing distributes over appending one pool spec.
pub proof fn lemma_pool_listing_push(
    pools: Seq<PoolSpec>,
    states: Seq<PoolState>,
    f: Filter,
    e: PoolSpec,
)
    ensures
        spec_pool_listing(pools.push(e), states, f) == ({
            let pv = spec_composed_pool(e, states);
            if spec_pool_matches(pv, f) {
                spec_pool_listing(pools, states, f).push(pv)
            } else {
                spec_pool_listing(pools, states, f)
            }
        }),
{
    assert(pools.push(e).drop_last() =~= pools);
}

/// The replicas a filtered listing returns: every cached replica state that
/// satisfies the filter, in cache order.
pub open spec fn spec_replica_listing(
    states: Seq<Replica>,
    f: Filter,
    replica_specs: Seq<ReplicaSpec>,
) -> Seq<Replica>
    decreases states.len(),
{
    if states.len() == 0 {
        Seq::empty()
    } else {
        let rest = spec_replica_listing(states.drop_last(), f, replica_specs);
        if spec_replica_matches(states.last(), f, replica_specs) {
            rest.push(states.last())
        } else {
            rest
        }
    }
}

/// A replica listing distributes over appending one cached state.
pub proof fn lemma_replica_listing_push(
    states: Seq<Replica>,
    f: Filter,
    replica_specs: Seq<ReplicaSpec>,
    e: Replica,
)
    ensures
        spec_replica_listing(states.push(e), f, replica_specs) == if spec_replica_matches(
            e,
            f,
            replica_specs,
        ) {
            spec_replica_listing(states, f, replica_specs).push(e)
        } else {
            spec_replica_listing(states, f, replica_specs)
        },
{
    assert(states.push(e).drop_last() =~= states);
}

impl Registry {
    /// The pools satisfying a filter, each composed from its spec and its
    /// cached state.  A filter shape that does not address pools is rejected
    /// as invalid rather than silently matching nothing.
    pub fn get_pools(&self, filter: &Filter) -> (r: Result<Vec<Pool>, ReplyError>)
        ensures
            r is Ok <==> filter.spec_valid_for_pools(),
            r matches Err(e) ==> e.kind == ReplyErrorKind::InvalidArgument && e.resource
                == ResourceKind::Pool,
            r matches Ok(l) ==> l@.len() == spec_pool_listing(
                self.specs.pools@,
                self.pool_states@,
                *filter,
            ).len() && forall|k: int|
                0 <= k < l@.len() ==> (#[trigger] l@[k])@ == spec_pool_listing(
                    self.specs.pools@,
                    self.pool_states@,
                    *filter,
                )[k],
    {
        if !filter.valid_for_pools() {
            return Err(
                ReplyError::new(
                    ReplyErrorKind::InvalidArgument,
                    ResourceKind::Pool,
                    String::from_str("get_pools"),
                    String::from_str("invalid filter for resource"),
                ),
            );
        }
        let ghost all = self.specs.pools@;
        let mut out: Vec<Pool> = Vec::new();
        let mut i: usize = 0;
        proof {
            assert(all.subrange(0, 0).len() == 0);
        }
        while i < self.specs.pools.len()
            invariant
                i <= all.len(),
                all == self.specs.pools@,
                out@.len() == spec_pool_listing(
                    all.subrange(0, i as int),
                    self.pool_states@,
                    *filter,
                ).len(),
                forall|k: int|
                    0 <= k < out@.len() ==> (#[trigger] out@[k])@ == spec_pool_listing(
                        all.subrange(0, i as int),
                        self.pool_states@,
                        *filter,
                    )[k],
            decreases all.len() - i,
        {
            let sp = self.specs.pools[i].clone();
            let st = self.find_pool_state(&sp.id);
            let p = Pool { spec: Some(sp), state: st };
            proof {
                assert(p@ == spec_composed_pool(all[i as int], self.pool_states@));
                assert(all.subrange(0, i as int + 1) =~= all.subrange(0, i as int).push(
                    all[i as int],
                ));
                lemma_pool_listing_push(
                    all.subrange(0, i as int),
                    self.pool_states@,
                    *filter,
                    all[i as int],
                );
            }
            if pool_matches(&p, filter) {
                out.push(p);
            }
            i = i + 1;
        }
        proof {
            assert(all.subrange(0, all.len() as int) =~= all);
        }
        Ok(out)
    }

    /// The cached replica states satisfying a filter; the `Volume` shape is
    /// resolved against the replica specs.  Every filter shape addresses
    /// replicas, so a listing is always returned.
    pub fn get_replicas(&self, filter: &Filter) -> (r: Vec<Replica>)
        ensures
            r@ == spec_replica_listing(self.replica_states@, *filter, self.specs.replicas@),
    {
        let ghost all = self.replica_states@;
        let mut out: Vec<Replica> = Vec::new();
        let mut i: usize = 0;
        while i < self.replica_states.len()
            invariant
                i <= all.len(),
                all == self.replica_states@,
                out@ == spec_replica_listing(
                    all.subrange(0, i as int),
                    *filter,
                    self.specs.replicas@,
                ),
            decreases all.len() - i,
        {
            let st = &self.replica_states[i];
            proof {
                assert(all.subrange(0, i as int + 1) =~= all.subrange(0, i as int).push(
                    all[i as int],
                ));
                lemma_replica_listing_push(
                    all.subrange(0, i as int),
                    *filter,
                    self.specs.replicas@,
                    all[i as int],
                );
            }
            if replica_matches(st, filter, &self.specs.replicas) {
                out.push(st.clone());
            }
            i = i + 1;
        }
        proof {
            assert(all.subrange(0, all.len() as int) =~= all);
        }
        out
    }

    /// Record a new pool spec and reply with the pool as callers see it.
    pub fn create_pool(&mut self, req: CreatePool) -> (r: Result<Pool, ReplyError>)
        requires
            old(self).wf(),
        ensures
            final(self).wf(),
            r is Ok <==> !crate::store::spec_has_pool(old(self).specs.pools@, req.id@),
            r is Ok ==> final(self).specs.pools@ == old(self).specs.pools@.push(
                PoolSpec {
                    node: req.node,
                    id: req.id,
                    disks: req.disks,
                    labels: req.labels,
                    status: PoolSpecStatus::Created(PoolStatus::Unknown),
                    sequencer: 0,
                },
            ),
            r matches Ok(p) ==> p@ == spec_composed_pool(
                final(self).specs.pools@.last(),
                old(self).pool_states@,
            ) && p@.wf(),
            r matches Err(e) ==> final(self).specs == old(self).specs && e.kind
                == ReplyErrorKind::Conflict && e.resource == ResourceKind::Pool,
            final(self).pool_states == old(self).pool_states,
            final(self).replica_states == old(self).replica_states,
            final(self).nexus_states == old(self).nexus_states,
            final(self).pending_triggers == old(self).pending_triggers,
    {
        match self.specs.create_pool(req) {
            Err(e) => Err(e),
            Ok(()) => {
                let n = self.specs.pools.len();
                let created = self.specs.pools[n - 1].clone();
                let st = self.find_pool_state(&created.id);
                Ok(Pool { spec: Some(created), state: st })
            },
        }
    }

    /// Remove the pool spec addressed by node and identifier.
    pub fn destroy_pool(&mut self, req: &DestroyPool) -> (r: Result<(), ReplyError>)
        requires
            old(self).wf(),
        ensures
            final(self).wf(),
            r is Ok <==> exists|i: int|
                0 <= i < old(self).specs.pools@.len() && (#[trigger] old(self).specs.pools@[i]).id@
                    == req.id@ && old(self).specs.pools@[i].node@ == req.node@,
            r is Ok ==> exists|i: int|
                0 <= i < old(self).specs.pools@.len() && (#[trigger] old(self).specs.pools@[i]).id@
                    == req.id@ && old(self).specs.pools@[i].node@ == req.node@ && final(self).specs.pools@ == old(self).specs.pools@.remove(i),
            r matches Err(e) ==> final(self).specs == old(self).specs && e.kind
                == ReplyErrorKind::NotFound && e.resource == ResourceKind::Pool,
            final(self).specs.replicas == old(self).specs.replicas,
            final(self).specs.nexuses == old(self).specs.nexuses,
            final(self).specs.volumes == old(self).specs.volumes,
            final(self).pool_states == old(self).pool_states,
            final(self).replica_states == old(self).replica_states,
            final(self).nexus_states == old(self).nexus_states,
            final(self).pending_triggers == old(self).pending_triggers,
    {
        self.specs.destroy_pool(req)
    }

    /// Record a new replica spec and reply with the replica as callers see
    /// it: configuration from the spec, URI and health from the cached state
    /// when its node already answered.
    pub fn create_replica(&mut self, req: CreateReplica) -> (r: Result<Replica, ReplyError>)
        requires
            old(self).wf(),
        ensures
            final(self).wf(),
            r is Ok <==> !crate::store::spec_has_replica(old(self).specs.replicas@, req.uuid@),
            r is Ok ==> final(self).specs.replicas@.len() == old(self).specs.replicas@.len() + 1
                && final(self).specs.replicas@ == old(self).specs.replicas@.push(
                final(self).specs.replicas@.last(),
            ) && (final(self).specs.replicas@.last() == ReplicaSpec {
                name: match req.name {
                    Some(n) => n,
                    None => req.uuid,
                },
                uuid: req.uuid,
                node: req.node,
                pool: req.pool,
                size: req.size,
                thin: req.thin,
                share: req.share,
                managed: req.managed,
                owners: req.owners,
                status: crate::resources::ReplicaSpecStatus::Created(ReplicaStatus::Online),
                sequencer: 0,
            }),
            r matches Ok(rep) ==> ({
                let s = final(self).specs.replicas@.last();
                &&& rep.node == s.node
                &&& rep.name == s.name
                &&& rep.uuid == s.uuid
                &&& rep.pool == s.pool
                &&& rep.thin == s.thin
                &&& rep.size == s.size
                &&& rep.share == s.share
                &&& match spec_find_replica_state(old(self).replica_states@, s.uuid@) {
                    Some(st) => rep.uri == st.uri && rep.status == st.status,
                    None => rep.uri@ == Seq::<char>::empty() && rep.status
                        == ReplicaStatus::Unknown,
                }
            }),
            r matches Err(e) ==> final(self).specs == old(self).specs && e.kind
                == ReplyErrorKind::Conflict && e.resource == ResourceKind::Replica,
            final(self).pool_states == old(self).pool_states,
            final(self).replica_states == old(self).replica_states,
            final(self).nexus_states == old(self).nexus_states,
            final(self).pending_triggers == old(self).pending_triggers,
    {
        match self.specs.create_replica(req) {
            Err(e) => Err(e),
            Ok(()) => {
                let n = self.specs.replicas.len();
                let s = self.specs.replicas[n - 1].clone();
                let (uri, status): (String, ReplicaStatus) = match self.find_replica_state(
                    &s.uuid,
                ) {
                    Some(st) => (st.uri, st.status),
                    None => (String::new(), ReplicaStatus::Unknown),
                };
                Ok(
                    Replica {
                        node: s.node,
                        name: s.name,
                        uuid: s.uuid,
                        pool: s.pool,
                        thin: s.thin,
                        size: s.size,
                        share: s.share,
                        uri,
                        status,
                    },
                )
            },
        }
    }

    /// Remove the replica spec addressed by node, pool and identifier.
    pub fn destroy_replica(&mut self, req: &DestroyReplica) -> (r: Result<(), ReplyError>)
        requires
            old(self).wf(),
        ensures
            final(self).wf(),
            r is Ok <==> exists|i: int|
                0 <= i < old(self).specs.replicas@.len() && (
                #[trigger] old(self).specs.replicas@[i]).uuid@ == req.uuid@ && old(self).specs.replicas@[i].node@ == req.node@ && old(self).specs.replicas@[i].pool@
                    == req.pool@,
            r is Ok ==> exists|i: int|
                0 <= i < old(self).specs.replicas@.len() && (
                #[trigger] old(self).specs.replicas@[i]).uuid@ == req.uuid@ && final(self).specs.replicas@ == old(self).specs.replicas@.remove(i),
            r matches Err(e) ==> final(self).specs == old(self).specs && e.kind
                == ReplyErrorKind::NotFound && e.resource == ResourceKind::Replica,
            final(self).specs.pools == old(self).specs.pools,
            final(self).specs.nexuses == old(self).specs.nexuses,
            final(self).specs.volumes == old(self).specs.volumes,
            final(self).pool_states == old(self).pool_states,
            final(self).replica_states == old(self).replica_states,
            final(self).nexus_states == old(self).nexus_states,
            final(self).pending_triggers == old(self).pending_triggers,
    {
        self.specs.destroy_replica(req)
    }

    /// Share a replica and reply with the URI it is now reachable under.
    pub fn share_replica(&mut self, req: &ShareReplica) -> (r: Result<String, ReplyError>)
        requires
            old(self).wf(),
        ensures
            final(self).wf(),
            r is Ok <==> exists|i: int|
                0 <= i < old(self).specs.replicas@.len() && (
                #[trigger] old(self).specs.replicas@[i]).uuid@ == req.uuid@ && old(self).specs.replicas@[i].node@ == req.node@ && old(self).specs.replicas@[i].pool@
                    == req.pool@ && old(self).specs.replicas@[i].sequencer < u64::MAX,
            r matches Ok(uri) ==> exists|i: int|
                0 <= i < old(self).specs.replicas@.len() && (
                #[trigger] old(self).specs.replicas@[i]).uuid@ == req.uuid@ && uri@
                    == crate::store::spec_share_uri(
                    req.protocol,
                    old(self).specs.replicas@[i].node@,
                    req.uuid@,
                ) && final(self).specs.replicas@ == old(self).specs.replicas@.update(
                    i,
                    ReplicaSpec {
                        share: req.protocol.spec_to_protocol(),
                        sequencer: (old(self).specs.replicas@[i].sequencer + 1) as u64,
                        ..old(self).specs.replicas@[i]
                    },
                ),
            r matches Err(e) ==> final(self).specs == old(self).specs && e.resource
                == ResourceKind::Replica,
            final(self).specs.pools == old(self).specs.pools,
            final(self).specs.nexuses == old(self).specs.nexuses,
            final(self).specs.volumes == old(self).specs.volumes,
            final(self).pool_states == old(self).pool_states,
            final(self).replica_states == old(self).replica_states,
            final(self).nexus_states == old(self).nexus_states,
            final(self).pending_triggers == old(self).pending_triggers,
    {
        self.specs.share_replica(req)
    }

    /// Stop sharing a replica.
    pub fn unshare_replica(&mut self, req: &UnshareReplica) -> (r: Result<(), ReplyError>)
        requires
            old(self).wf(),
        ensures
            final(self).wf(),
            r is Ok <==> exists|i: int|
                0 <= i < old(self).specs.replicas@.len() && (
                #[trigger] old(self).specs.replicas@[i]).uuid@ == req.uuid@ && old(self).specs.replicas@[i].node@ == req.node@ && old(self).specs.replicas@[i].pool@
                    == req.pool@ && old(self).specs.replicas@[i].sequencer < u64::MAX,
            r is Ok ==> exists|i: int|
                0 <= i < old(self).specs.replicas@.len() && (
                #[trigger] old(self).specs.replicas@[i]).uuid@ == req.uuid@ && final(self).specs.replicas@ == old(self).specs.replicas@.update(
                    i,
                    ReplicaSpec {
                        share: crate::resources::Protocol::Off,
                        sequencer: (old(self).specs.replicas@[i].sequencer + 1) as u64,
                        ..old(self).specs.replicas@[i]
                    },
                ),
            r matches Err(e) ==> final(self).specs == old(self).specs && e.resource
                == ResourceKind::Replica,
            final(self).specs.pools == old(self).specs.pools,
            final(self).specs.nexuses == old(self).specs.nexuses,
            final(self).specs.volumes == old(self).specs.volumes,
            final(self).pool_states == old(self).pool_states,
            final(self).replica_states == old(self).replica_states,
            final(self).nexus_states == old(self).nexus_states,
            final(self).pending_triggers == old(self).pending_triggers,
    {
        self.specs.unshare_replica(req)
    }
}

} // verus!
