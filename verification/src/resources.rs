//! Resource data model: desired configuration (specs) and observed runtime
//! condition (states) for pools, replicas, nexuses and volumes.
//!
//! Specs are durable and guarded by a per-resource sequencer; states are
//! ephemeral, fetched from the owning node and cached only as a best-effort
//! last-known value.

use vstd::prelude::*;

verus! {

/// Observed health of a pool.
#[derive(Clone, Copy, Debug, PartialEq, Eq, Structural)]
pub enum PoolStatus {
    Unknown,
    Online,
    Degraded,
    Faulted,
}

/// Observed health of a replica.
#[derive(Clone, Copy, Debug, PartialEq, Eq, Structural)]
pub enum ReplicaStatus {
    Unknown,
    Online,
    Degraded,
    Faulted,
}

/// Observed health of a nexus (the I/O-serving target).
#[derive(Clone, Copy, Debug, PartialEq, Eq, Structural)]
pub enum NexusStatus {
    Unknown,
    Online,
    Degraded,
    Faulted,
}

/// Effective health of a volume, derived from its constituents.
#[derive(Clone, Copy, Debug, PartialEq, Eq, Structural)]
pub enum VolumeStatus {
    Unknown,
    Online,
    Degraded,
    Faulted,
}

impl VolumeStatus {
    /// The volume status corresponding to a nexus status.
    pub open spec fn spec_from_nexus(s: NexusStatus) -> VolumeStatus {
        match s {
            NexusStatus::Unknown => VolumeStatus::Unknown,
            NexusStatus::Online => VolumeStatus::Online,
            NexusStatus::Degraded => VolumeStatus::Degraded,
            NexusStatus::Faulted => VolumeStatus::Faulted,
        }
    }

    /// Carry a nexus-reported health over to the volume it serves.
    pub fn from_nexus(s: NexusStatus) -> (r: VolumeStatus)
        ensures
            r == VolumeStatus::spec_from_nexus(s),
    {
        match s {
            NexusStatus::Unknown => VolumeStatus::Unknown,
            NexusStatus::Online => VolumeStatus::Online,
            NexusStatus::Degraded => VolumeStatus::Degraded,
            NexusStatus::Faulted => VolumeStatus::Faulted,
        }
    }
}

/// Protocol a resource may be shared over; `Off` means not shared.
#[derive(Clone, Copy, Debug, PartialEq, Eq, Structural)]
pub enum Protocol {
    Off,
    Nvmf,
    Iscsi,
    Nbd,
}

/// Protocols a replica can be shared over (a sharing request is never `Off`).
#[derive(Clone, Copy, Debug, PartialEq, Eq, Structural)]
pub enum ReplicaShareProtocol {
    Nvmf,
    Iscsi,
}

impl ReplicaShareProtocol {
    /// The share protocol as recorded on a replica spec.
    pub open spec fn spec_to_protocol(self) -> Protocol {
        match self {
            ReplicaShareProtocol::Nvmf => Protocol::Nvmf,
            ReplicaShareProtocol::Iscsi => Protocol::Iscsi,
        }
    }

    /// Widen a share protocol to the full protocol enumeration.
    pub fn to_protocol(self) -> (r: Protocol)
        ensures
            r == self.spec_to_protocol(),
    {
        match self {
            ReplicaShareProtocol::Nvmf => Protocol::Nvmf,
            ReplicaShareProtocol::Iscsi => Protocol::Iscsi,
        }
    }
}

/// Lifecycle of a pool spec.
#[derive(Clone, Copy, Debug, PartialEq, Eq, Structural)]
pub enum PoolSpecStatus {
    Creating,
    Created(PoolStatus),
    Deleting,
    Deleted,
}

/// Lifecycle of a replica spec.
#[derive(Clone, Copy, Debug, PartialEq, Eq, Structural)]
pub enum ReplicaSpecStatus {
    Creating,
    Created(ReplicaStatus),
    Deleting,
    Deleted,
}

/// Lifecycle of a volume spec.
#[derive(Clone, Copy, Debug, PartialEq, Eq, Structural)]
pub enum VolumeSpecStatus {
    Creating,
    Created,
    Deleting,
    Deleted,
}

/// Desired configuration of a pool.
#[derive(Debug)]
pub struct PoolSpec {
    /// Node that owns the pool.
    pub node: String,
    /// Pool identifier, unique among pools.
    pub id: String,
    /// Device URIs backing the pool.
    pub disks: Vec<String>,
    /// Free-form labels.
    pub labels: Option<Vec<(String, String)>>,
    /// Lifecycle status.
    pub status: PoolSpecStatus,
    /// Monotonic token guarding concurrent mutation.
    pub sequencer: u64,
}

/// Mathematical model of a `PoolSpec`.
pub struct PoolSpecV {
    pub node: String,
    pub id: String,
    pub disks: Seq<String>,
    pub labels: Option<Seq<(String, String)>>,
    pub status: PoolSpecStatus,
    pub sequencer: u64,
}

impl View for PoolSpec {
    type V = PoolSpecV;

    open spec fn view(&self) -> PoolSpecV {
        PoolSpecV {
            node: self.node,
            id: self.id,
            disks: self.disks@,
            labels: match self.labels {
                Some(l) => Some(l@),
                None => None,
            },
            status: self.status,
            sequencer: self.sequencer,
        }
    }
}

impl Clone for PoolSpec {
    fn clone(&self) -> (res: Self)
        ensures
            res@ == self@,
    {
        let res = PoolSpec {
            node: self.node.clone(),
            id: self.id.clone(),
            disks: clone_strings(&self.disks),
            labels: clone_labels(&self.labels),
            status: self.status,
            sequencer: self.sequencer,
        };
        proof {
            assert(res@.disks =~= self@.disks);
        }
        res
    }
}

/// Observed runtime condition of a pool, as reported by its node.
#[derive(Debug)]
pub struct PoolState {
    /// Node that reported the state.
    pub node: String,
    /// Pool identifier.
    pub id: String,
    /// Device URIs in use.
    pub disks: Vec<String>,
    /// Reported health.
    pub status: PoolStatus,
    /// Total capacity in bytes.
    pub capacity: u64,
    /// Used bytes.
    pub used: u64,
}

/// Mathematical model of a `PoolState`.
pub struct PoolStateV {
    pub node: String,
    pub id: String,
    pub disks: Seq<String>,
    pub status: PoolStatus,
    pub capacity: u64,
    pub used: u64,
}

impl View for PoolState {
    type V = PoolStateV;

    open spec fn view(&self) -> PoolStateV {
        PoolStateV {
            node: self.node,
            id: self.id,
            disks: self.disks@,
            status: self.status,
            capacity: self.capacity,
            used: self.used,
        }
    }
}

impl Clone for PoolState {
    fn clone(&self) -> (res: Self)
        ensures
            res@ == self@,
    {
        let res = PoolState {
            node: self.node.clone(),
            id: self.id.clone(),
            disks: clone_strings(&self.disks),
            status: self.status,
            capacity: self.capacity,
            used: self.used,
        };
        proof {
            assert(res@.disks =~= self@.disks);
        }
        res
    }
}

/// Owner references of a replica: the volume and/or nexuses that depend on
/// it.  A replica with no owners is eligible for garbage collection.
#[derive(Debug)]
pub struct ReplicaOwners {
    /// Owning volume, if any.
    pub volume: Option<String>,
    /// Owning nexuses.
    pub nexuses: Vec<String>,
}

/// Mathematical model of `ReplicaOwners`.
pub struct ReplicaOwnersV {
    pub volume: Option<String>,
    pub nexuses: Seq<String>,
}

impl View for ReplicaOwners {
    type V = ReplicaOwnersV;

    open spec fn view(&self) -> ReplicaOwnersV {
        ReplicaOwnersV { volume: self.volume, nexuses: self.nexuses@ }
    }
}

impl ReplicaOwners {
    /// Owners consisting of a volume and a list of nexuses.
    pub fn new(volume: Option<String>, nexuses: Vec<String>) -> (r: ReplicaOwners)
        ensures
            r.volume == volume,
            r.nexuses == nexuses,
    {
        ReplicaOwners { volume, nexuses }
    }

    /// No owner at all.
    pub fn none() -> (r: ReplicaOwners)
        ensures
            r.volume is None,
            r.nexuses@.len() == 0,
    {
        ReplicaOwners { volume: None, nexuses: Vec::new() }
    }
}

impl Clone for ReplicaOwners {
    fn clone(&self) -> (res: Self)
        ensures
            res@ == self@,
    {
        let res = ReplicaOwners {
            volume: clone_opt_string(&self.volume),
            nexuses: clone_strings(&self.nexuses),
        };
        proof {
            assert(res@.nexuses =~= self@.nexuses);
        }
        res
    }
}

/// Desired configuration of a replica.
#[derive(Debug)]
pub struct ReplicaSpec {
    /// Replica name.
    pub name: String,
    /// Replica identifier, unique among replicas.
    pub uuid: String,
    /// Node that holds the replica.
    pub node: String,
    /// Pool the replica is carved from.
    pub pool: String,
    /// Size in bytes.
    pub size: u64,
    /// Thin provisioning flag.
    pub thin: bool,
    /// Protocol the replica is shared over, `Off` when unshared.
    pub share: Protocol,
    /// Whether the control plane manages this replica.
    pub managed: bool,
    /// Owner references.
    pub owners: ReplicaOwners,
    /// Lifecycle status.
    pub status: ReplicaSpecStatus,
    /// Monotonic token guarding concurrent mutation.
    pub sequencer: u64,
}

/// Mathematical model of a `ReplicaSpec`.
pub struct ReplicaSpecV {
    pub name: String,
    pub uuid: String,
    pub node: String,
    pub pool: String,
    pub size: u64,
    pub thin: bool,
    pub share: Protocol,
    pub managed: bool,
    pub owners: ReplicaOwnersV,
    pub status: ReplicaSpecStatus,
    pub sequencer: u64,
}

impl View for ReplicaSpec {
    type V = ReplicaSpecV;

    open spec fn view(&self) -> ReplicaSpecV {
        ReplicaSpecV {
            name: self.name,
            uuid: self.uuid,
            node: self.node,
            pool: self.pool,
            size: self.size,
            thin: self.thin,
            share: self.share,
            managed: self.managed,
            owners: self.owners@,
            status: self.status,
            sequencer: self.sequencer,
        }
    }
}

impl Clone for ReplicaSpec {
    fn clone(&self) -> (res: Self)
        ensures
            res@ == self@,
    {
        ReplicaSpec {
            name: self.name.clone(),
            uuid: self.uuid.clone(),
            node: self.node.clone(),
            pool: self.pool.clone(),
            size: self.size,
            thin: self.thin,
            share: self.share,
            managed: self.managed,
            owners: self.owners.clone(),
            status: self.status,
            sequencer: self.sequencer,
        }
    }
}

/// Observed runtime condition of a replica, as reported by its node.
#[derive(Debug)]
pub struct Replica {
    /// Node that reported the replica.
    pub node: String,
    /// Replica name.
    pub name: String,
    /// Replica identifier.
    pub uuid: String,
    /// Pool holding the replica.
    pub pool: String,
    /// Thin provisioning flag.
    pub thin: bool,
    /// Size in bytes.
    pub size: u64,
    /// Protocol the replica is shared over.
    pub share: Protocol,
    /// URI under which the replica is reachable.
    pub uri: String,
    /// Reported health.
    pub status: ReplicaStatus,
}

impl Clone for Replica {
    fn clone(&self) -> (res: Self)
        ensures
            res == *self,
    {
        Replica {
            node: self.node.clone(),
            name: self.name.clone(),
            uuid: self.uuid.clone(),
            pool: self.pool.clone(),
            thin: self.thin,
            size: self.size,
            share: self.share,
            uri: self.uri.clone(),
            status: self.status,
        }
    }
}

/// Desired configuration of a nexus.
#[derive(Debug)]
pub struct NexusSpec {
    /// Nexus identifier, unique among nexuses.
    pub uuid: String,
    /// Node that serves the nexus.
    pub node: String,
    /// Size in bytes.
    pub size: u64,
    /// Desired number of children.
    pub children: u64,
    /// Monotonic token guarding concurrent mutation.
    pub sequencer: u64,
}

impl Clone for NexusSpec {
    fn clone(&self) -> (res: Self)
        ensures
            res == *self,
    {
        NexusSpec {
            uuid: self.uuid.clone(),
            node: self.node.clone(),
            size: self.size,
            children: self.children,
            sequencer: self.sequencer,
        }
    }
}

/// Observed runtime condition of a nexus: health and child count.
#[derive(Debug)]
pub struct NexusState {
    /// Nexus identifier.
    pub uuid: String,
    /// Size in bytes.
    pub size: u64,
    /// Reported health.
    pub status: NexusStatus,
    /// Number of children currently aggregated.
    pub children: u64,
}

impl Clone for NexusState {
    fn clone(&self) -> (res: Self)
        ensures
            res == *self,
    {
        NexusState {
            uuid: self.uuid.clone(),
            size: self.size,
            status: self.status,
            children: self.children,
        }
    }
}

/// Desired configuration of a volume.
#[derive(Debug)]
pub struct VolumeSpec {
    /// Volume identifier, unique among volumes.
    pub uuid: String,
    /// Desired size in bytes.
    pub size: u64,
    /// Desired number of replicas.
    pub num_replicas: u8,
    /// Bound nexus target, if any.
    pub target: Option<String>,
    /// Lifecycle status.
    pub status: VolumeSpecStatus,
    /// Monotonic token guarding concurrent mutation.
    pub sequencer: u64,
}

impl Clone for VolumeSpec {
    fn clone(&self) -> (res: Self)
        ensures
            res == *self,
    {
        VolumeSpec {
            uuid: self.uuid.clone(),
            size: self.size,
            num_replicas: self.num_replicas,
            target: clone_opt_string(&self.target),
            status: self.status,
            sequencer: self.sequencer,
        }
    }
}

/// Observed placement and health of one replica of a volume.
#[derive(Debug)]
pub struct ReplicaTopology {
    /// Node holding the replica, absent when the replica did not answer.
    pub node: Option<String>,
    /// Pool holding the replica, absent when the replica did not answer.
    pub pool: Option<String>,
    /// Reported health, `Unknown` when the replica did not answer.
    pub status: ReplicaStatus,
}

impl ReplicaTopology {
    /// Topology of a replica whose node answered.
    pub fn new(node: Option<String>, pool: Option<String>, status: ReplicaStatus) -> (r:
        ReplicaTopology)
        ensures
            r.node == node,
            r.pool == pool,
            r.status == status,
    {
        ReplicaTopology { node, pool, status }
    }

    /// Topology of a replica whose node could not be reached: no placement,
    /// default health.
    pub fn unknown() -> (r: ReplicaTopology)
        ensures
            r.node is None,
            r.pool is None,
            r.status == ReplicaStatus::Unknown,
    {
        ReplicaTopology { node: None, pool: None, status: ReplicaStatus::Unknown }
    }
}

impl Clone for ReplicaTopology {
    fn clone(&self) -> (res: Self)
        ensures
            res == *self,
    {
        ReplicaTopology {
            node: clone_opt_string(&self.node),
            pool: clone_opt_string(&self.pool),
            status: self.status,
        }
    }
}

/// A pool as callers see it: desired configuration and/or last observed
/// state.  At least one of the two parts is always present.
#[derive(Debug)]
pub struct Pool {
    /// Desired configuration, if known.
    pub spec: Option<PoolSpec>,
    /// Last observed state, if known.
    pub state: Option<PoolState>,
}

/// Mathematical model of a `Pool`.
pub struct PoolV {
    pub spec: Option<PoolSpecV>,
    pub state: Option<PoolStateV>,
}

impl View for Pool {
    type V = PoolV;

    open spec fn view(&self) -> PoolV {
        PoolV {
            spec: match self.spec {
                Some(s) => Some(s@),
                None => None,
            },
            state: match self.state {
                Some(s) => Some(s@),
                None => None,
            },
        }
    }
}

impl PoolV {
    /// A pool is well formed when at least one part is present.
    pub open spec fn wf(self) -> bool {
        self.spec is Some || self.state is Some
    }

    /// The node owning the pool: the reporting node when a state is present,
    /// the configured node otherwise.
    pub open spec fn node(self) -> String
        recommends
            self.wf(),
    {
        match self.state {
            Some(st) => st.node,
            None => self.spec.unwrap().node,
        }
    }

    /// The pool identifier: from the state when present, from the spec
    /// otherwise.
    pub open spec fn id(self) -> String
        recommends
            self.wf(),
    {
        match self.state {
            Some(st) => st.id,
            None => self.spec.unwrap().id,
        }
    }
}

impl Pool {
    /// Compose a pool from its parts; absent only when both parts are.
    pub fn try_new(spec: Option<PoolSpec>, state: Option<PoolState>) -> (r: Option<Pool>)
        ensures
            r is Some <==> (spec is Some || state is Some),
            r matches Some(p) ==> p@ == (PoolV {
                spec: match spec {
                    Some(s) => Some(s@),
                    None => None,
                },
                state: match state {
                    Some(s) => Some(s@),
                    None => None,
                },
            }) && p@.wf(),
    {
        match (&spec, &state) {
            (None, None) => None,
            _ => Some(Pool { spec, state }),
        }
    }

    /// Desired configuration, if known.
    pub fn spec(&self) -> (r: &Option<PoolSpec>)
        ensures
            r == &self.spec,
    {
        &self.spec
    }

    /// Last observed state, if known.
    pub fn state(&self) -> (r: &Option<PoolState>)
        ensures
            r == &self.state,
    {
        &self.state
    }

    /// The node owning the pool.
    pub fn node(&self) -> (r: String)
        requires
            self@.wf(),
        ensures
            r@ == self@.node()@,
    {
        match &self.state {
            Some(st) => st.node.clone(),
            None => match &self.spec {
                Some(sp) => sp.node.clone(),
                None => String::new(),
            },
        }
    }

    /// The pool identifier.
    pub fn id(&self) -> (r: String)
        requires
            self@.wf(),
        ensures
            r@ == self@.id()@,
    {
        match &self.state {
            Some(st) => st.id.clone(),
            None => match &self.spec {
                Some(sp) => sp.id.clone(),
                None => String::new(),
            },
        }
    }
}

impl Clone for Pool {
    fn clone(&self) -> (res: Self)
        ensures
            res@ == self@,
    {
        Pool {
            spec: match &self.spec {
                Some(s) => Some(s.clone()),
                None => None,
            },
            state: match &self.state {
                Some(s) => Some(s.clone()),
                None => None,
            },
        }
    }
}

/// Fully derived runtime condition of a volume; never stored, recomputed on
/// every read.
#[derive(Debug)]
pub struct VolumeState {
    /// Volume identifier.
    pub uuid: String,
    /// Effective size: the target's size when a target state is known, the
    /// desired size otherwise.
    pub size: u64,
    /// Derived health.
    pub status: VolumeStatus,
    /// State of the bound target, when bound and reachable.
    pub target: Option<NexusState>,
    /// Observed placement and health, one entry per replica spec owned by
    /// the volume, keyed by replica identifier.
    pub replica_topology: Vec<(String, ReplicaTopology)>,
}

/// Mathematical model of a `VolumeState`.
pub struct VolumeStateV {
    pub uuid: String,
    pub size: u64,
    pub status: VolumeStatus,
    pub target: Option<NexusState>,
    pub replica_topology: Seq<(String, ReplicaTopology)>,
}

impl View for VolumeState {
    type V = VolumeStateV;

    open spec fn view(&self) -> VolumeStateV {
        VolumeStateV {
            uuid: self.uuid,
            size: self.size,
            status: self.status,
            target: self.target,
            replica_topology: self.replica_topology@,
        }
    }
}

/// A volume as callers see it: desired configuration plus derived state.
#[derive(Debug)]
pub struct Volume {
    /// Desired configuration.
    pub spec: VolumeSpec,
    /// Derived state.
    pub state: VolumeState,
}

impl Volume {
    /// Pair a volume spec with its derived state.
    pub fn new(spec: VolumeSpec, state: VolumeState) -> (r: Volume)
        ensures
            r.spec == spec,
            r.state@ == state@,
    {
        Volume { spec, state }
    }

    /// The derived status of the volume.
    pub fn status(&self) -> (r: VolumeStatus)
        ensures
            r == self.state.status,
    {
        self.state.status
    }
}

/// Clone an optional identifier, preserving its value exactly.
pub fn clone_opt_string(v: &Option<String>) -> (r: Option<String>)
    ensures
        r == *v,
{
    match v {
        None => None,
        Some(s) => Some(s.clone()),
    }
}

/// Clone a list of strings, preserving its contents exactly.
pub fn clone_strings(v: &Vec<String>) -> (r: Vec<String>)
    ensures
        r@ == v@,
{
    let mut r: Vec<String> = Vec::new();
    let mut i: usize = 0;
    while i < v.len()
        invariant
            i <= v@.len(),
            r@ =~= v@.subrange(0, i as int),
        decreases v@.len() - i,
    {
        r.push(v[i].clone());
        i = i + 1;
    }
    proof {
        assert(r@ =~= v@);
    }
    r
}

/// Clone an optional label list, preserving its contents exactly.
pub fn clone_labels(v: &Option<Vec<(String, String)>>) -> (r: Option<Vec<(String, String)>>)
    ensures
        match *v {
            None => r is None,
            Some(l) => r matches Some(rl) && rl@ == l@,
        },
{
    match v {
        None => None,
        Some(l) => {
            let mut r: Vec<(String, String)> = Vec::new();
            let mut i: usize = 0;
            while i < l.len()
                invariant
                    i <= l@.len(),
                    r@ =~= l@.subrange(0, i as int),
                decreases l@.len() - i,
            {
                r.push((l[i].0.clone(), l[i].1.clone()));
                i = i + 1;
            }
            proof {
                assert(r@ =~= l@);
            }
            Some(r)
        },
    }
}

} // verus!
