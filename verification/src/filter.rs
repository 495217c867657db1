//! Query filters: a `Get` operation is constrained to a node, a pool, a
//! resource identifier, an owning volume, or a combination thereof.  Exactly
//! one filter shape is active per call; `None` means "no constraint".

use vstd::prelude::*;

use crate::resources::{Pool, PoolV, Replica, ReplicaSpec};

verus! {

/// The shape constraining a `Get` operation.
#[derive(Debug)]
pub enum Filter {
    /// No constraint.
    All,
    /// All resources on a node.
    Node(String),
    /// All resources of a pool.
    Pool(String),
    /// All resources of a pool on a node.
    NodePool(String, String),
    /// One replica of a pool on a node.
    NodePoolReplica(String, String, String),
    /// One replica on a node.
    NodeReplica(String, String),
    /// One replica of a pool.
    PoolReplica(String, String),
    /// One replica.
    Replica(String),
    /// All replicas owned by a volume.
    Volume(String),
}

impl Clone for Filter {
    fn clone(&self) -> (res: Self)
        ensures
            res == *self,
    {
        match self {
            Filter::All => Filter::All,
            Filter::Node(n) => Filter::Node(n.clone()),
            Filter::Pool(p) => Filter::Pool(p.clone()),
            Filter::NodePool(n, p) => Filter::NodePool(n.clone(), p.clone()),
            Filter::NodePoolReplica(n, p, r) => Filter::NodePoolReplica(
                n.clone(),
                p.clone(),
                r.clone(),
            ),
            Filter::NodeReplica(n, r) => Filter::NodeReplica(n.clone(), r.clone()),
            Filter::PoolReplica(p, r) => Filter::PoolReplica(p.clone(), r.clone()),
            Filter::Replica(r) => Filter::Replica(r.clone()),
            Filter::Volume(v) => Filter::Volume(v.clone()),
        }
    }
}

impl Filter {
    /// The filter shapes a pool query accepts.
    pub open spec fn spec_valid_for_pools(self) -> bool {
        match self {
            Filter::All => true,
            Filter::Node(_) => true,
            Filter::Pool(_) => true,
            Filter::NodePool(_, _) => true,
            _ => false,
        }
    }

    /// Whether a pool query accepts this filter shape.
    pub fn valid_for_pools(&self) -> (r: bool)
        ensures
            r == self.spec_valid_for_pools(),
    {
        match self {
            Filter::All => true,
            Filter::Node(_) => true,
            Filter::Pool(_) => true,
            Filter::NodePool(_, _) => true,
            _ => false,
        }
    }
}

/// Whether a composed pool satisfies a (pool-valid) filter.
pub open spec fn spec_pool_matches(p: PoolV, f: Filter) -> bool {
    match f {
        Filter::All => true,
        Filter::Node(n) => p.node()@ == n@,
        Filter::Pool(id) => p.id()@ == id@,
        Filter::NodePool(n, id) => p.node()@ == n@ && p.id()@ == id@,
        _ => false,
    }
}

/// Decide whether a composed pool satisfies a filter.
pub fn pool_matches(p: &Pool, f: &Filter) -> (r: bool)
    requires
        p@.wf(),
    ensures
        r == spec_pool_matches(p@, *f),
{
    match f {
        Filter::All => true,
        Filter::Node(n) => {
            let pn = p.node();
            pn.eq(n)
        },
        Filter::Pool(id) => {
            let pid = p.id();
            pid.eq(id)
        },
        Filter::NodePool(n, id) => {
            let pn = p.node();
            let pid = p.id();
            pn.eq(n) && pid.eq(id)
        },
        _ => false,
    }
}

/// Whether a replica spec is owned by the given volume.
pub open spec fn spec_owned_by(rs: ReplicaSpec, volume: Seq<char>) -> bool {
    match rs.owners.volume {
        Some(v) => v@ == volume,
        None => false,
    }
}

/// Whether some replica spec with the given replica identifier is owned by
/// the given volume.
pub open spec fn spec_replica_of_volume(
    replica_specs: Seq<ReplicaSpec>,
    uuid: Seq<char>,
    volume: Seq<char>,
) -> bool {
    exists|i: int|
        0 <= i < replica_specs.len() && replica_specs[i].uuid@ == uuid && spec_owned_by(
            replica_specs[i],
            volume,
        )
}

/// Whether an observed replica satisfies a filter.  The `Volume` shape is
/// resolved against the replica specs: it selects the replicas owned by that
/// volume.
pub open spec fn spec_replica_matches(
    r: Replica,
    f: Filter,
    replica_specs: Seq<ReplicaSpec>,
) -> bool {
    match f {
        Filter::All => true,
        Filter::Node(n) => r.node@ == n@,
        Filter::Pool(p) => r.pool@ == p@,
        Filter::NodePool(n, p) => r.node@ == n@ && r.pool@ == p@,
        Filter::NodePoolReplica(n, p, u) => r.node@ == n@ && r.pool@ == p@ && r.uuid@ == u@,
        Filter::NodeReplica(n, u) => r.node@ == n@ && r.uuid@ == u@,
        Filter::PoolReplica(p, u) => r.pool@ == p@ && r.uuid@ == u@,
        Filter::Replica(u) => r.uuid@ == u@,
        Filter::Volume(v) => spec_replica_of_volume(replica_specs, r.uuid@, v@),
    }
}

/// Decide whether an observed replica satisfies a filter, resolving the
/// `Volume` shape against the replica specs.
pub fn replica_matches(r: &Replica, f: &Filter, replica_specs: &Vec<ReplicaSpec>) -> (res: bool)
    ensures
        res == spec_replica_matches(*r, *f, replica_specs@),
{
    match f {
        Filter::All => true,
        Filter::Node(n) => r.node.eq(n),
        Filter::Pool(p) => r.pool.eq(p),
        Filter::NodePool(n, p) => r.node.eq(n) && r.pool.eq(p),
        Filter::NodePoolReplica(n, p, u) => r.node.eq(n) && r.pool.eq(p) && r.uuid.eq(u),
        Filter::NodeReplica(n, u) => r.node.eq(n) && r.uuid.eq(u),
        Filter::PoolReplica(p, u) => r.pool.eq(p) && r.uuid.eq(u),
        Filter::Replica(u) => r.uuid.eq(u),
        Filter::Volume(v) => replica_of_volume(replica_specs, &r.uuid, v),
    }
}

/// Decide whether some replica spec with the given identifier is owned by
/// the given volume.
pub fn replica_of_volume(replica_specs: &Vec<ReplicaSpec>, uuid: &String, volume: &String) -> (res:
    bool)
    ensures
        res == spec_replica_of_volume(replica_specs@, uuid@, volume@),
{
    let mut i: usize = 0;
    while i < replica_specs.len()
        invariant
            i <= replica_specs@.len(),
            forall|j: int|
                0 <= j < i ==> !(replica_specs@[j].uuid@ == uuid@ && spec_owned_by(
                    replica_specs@[j],
                    volume@,
                )),
        decreases replica_specs@.len() - i,
    {
        let rs = &replica_specs[i];
        if rs.uuid.eq(uuid) {
            match &rs.owners.volume {
                Some(v) => {
                    if v.eq(volume) {
                        return true;
                    }
                },
                None => {},
            }
        }
        i = i + 1;
    }
    false
}

} // verus!
