//! Internal command types: the one shape each mutating operation is
//! expressed in, plus the info traits through which request carriers expose
//! the data an operation needs.

use vstd::prelude::*;

use crate::resources::{clone_labels, clone_opt_string, clone_strings, Protocol, ReplicaOwners,
    ReplicaShareProtocol};

verus! {

/// Command: create a pool on a node.
#[derive(Debug)]
pub struct CreatePool {
    /// Node to host the pool.
    pub node: String,
    /// Pool identifier.
    pub id: String,
    /// Device URIs backing the pool.
    pub disks: Vec<String>,
    /// Free-form labels.
    pub labels: Option<Vec<(String, String)>>,
}

impl Clone for CreatePool {
    fn clone(&self) -> (res: Self)
        ensures
            res.node == self.node,
            res.id == self.id,
            res.disks@ == self.disks@,
            match self.labels {
                None => res.labels is None,
                Some(l) => res.labels matches Some(rl) && rl@ == l@,
            },
    {
        CreatePool {
            node: self.node.clone(),
            id: self.id.clone(),
            disks: clone_strings(&self.disks),
            labels: clone_labels(&self.labels),
        }
    }
}

/// Command: destroy a pool on a node.
#[derive(Debug)]
pub struct DestroyPool {
    /// Node hosting the pool.
    pub node: String,
    /// Pool identifier.
    pub id: String,
}

impl Clone for DestroyPool {
    fn clone(&self) -> (res: Self)
        ensures
            res == *self,
    {
        DestroyPool { node: self.node.clone(), id: self.id.clone() }
    }
}

/// Command: create a replica on a pool.
#[derive(Debug)]
pub struct CreateReplica {
    /// Node holding the pool.
    pub node: String,
    /// Replica name, defaulted from the identifier when absent.
    pub name: Option<String>,
    /// Replica identifier.
    pub uuid: String,
    /// Pool to carve the replica from.
    pub pool: String,
    /// Size in bytes.
    pub size: u64,
    /// Thin provisioning flag.
    pub thin: bool,
    /// Protocol to share the replica over, `Off` for unshared.
    pub share: Protocol,
    /// Whether the control plane manages this replica.
    pub managed: bool,
    /// Owner references.
    pub owners: ReplicaOwners,
}

impl Clone for CreateReplica {
    fn clone(&self) -> (res: Self)
        ensures
            res.node == self.node,
            res.name == self.name,
            res.uuid == self.uuid,
            res.pool == self.pool,
            res.size == self.size,
            res.thin == self.thin,
            res.share == self.share,
            res.managed == self.managed,
            res.owners@ == self.owners@,
    {
        CreateReplica {
            node: self.node.clone(),
            name: clone_opt_string(&self.name),
            uuid: self.uuid.clone(),
            pool: self.pool.clone(),
            size: self.size,
            thin: self.thin,
            share: self.share,
            managed: self.managed,
            owners: self.owners.clone(),
        }
    }
}

/// Command: destroy a replica.
#[derive(Debug)]
pub struct DestroyReplica {
    /// Node holding the replica.
    pub node: String,
    /// Pool holding the replica.
    pub pool: String,
    /// Replica name, if known.
    pub name: Option<String>,
    /// Replica identifier.
    pub uuid: String,
    /// Owner references to strip before destruction.
    pub disowners: ReplicaOwners,
}

impl Clone for DestroyReplica {
    fn clone(&self) -> (res: Self)
        ensures
            res.node == self.node,
            res.pool == self.pool,
            res.name == self.name,
            res.uuid == self.uuid,
            res.disowners@ == self.disowners@,
    {
        DestroyReplica {
            node: self.node.clone(),
            pool: self.pool.clone(),
            name: clone_opt_string(&self.name),
            uuid: self.uuid.clone(),
            disowners: self.disowners.clone(),
        }
    }
}

/// Command: share a replica over a protocol.
#[derive(Debug)]
pub struct ShareReplica {
    /// Node holding the replica.
    pub node: String,
    /// Pool holding the replica.
    pub pool: String,
    /// Replica name, if known.
    pub name: Option<String>,
    /// Replica identifier.
    pub uuid: String,
    /// Protocol to share over.
    pub protocol: ReplicaShareProtocol,
}

impl Clone for ShareReplica {
    fn clone(&self) -> (res: Self)
        ensures
            res == *self,
    {
        ShareReplica {
            node: self.node.clone(),
            pool: self.pool.clone(),
            name: clone_opt_string(&self.name),
            uuid: self.uuid.clone(),
            protocol: self.protocol,
        }
    }
}

/// Command: stop sharing a replica.
#[derive(Debug)]
pub struct UnshareReplica {
    /// Node holding the replica.
    pub node: String,
    /// Pool holding the replica.
    pub pool: String,
    /// Replica name, if known.
    pub name: Option<String>,
    /// Replica identifier.
    pub uuid: String,
}

impl Clone for UnshareReplica {
    fn clone(&self) -> (res: Self)
        ensures
            res == *self,
    {
        UnshareReplica {
            node: self.node.clone(),
            pool: self.pool.clone(),
            name: clone_opt_string(&self.name),
            uuid: self.uuid.clone(),
        }
    }
}

/// Data a pool-creation carrier exposes.
pub trait CreatePoolInfo {
    /// The pool identifier, as a mathematical value.
    spec fn pool_id_view(&self) -> Seq<char>;

    /// The owning node, as a mathematical value.
    spec fn node_id_view(&self) -> Seq<char>;

    /// The backing devices, as mathematical values.
    spec fn disks_view(&self) -> Seq<Seq<char>>;

    /// The pool identifier.
    fn pool_id(&self) -> (r: String)
        ensures
            r@ == self.pool_id_view(),
    ;

    /// The owning node.
    fn node_id(&self) -> (r: String)
        ensures
            r@ == self.node_id_view(),
    ;

    /// The backing devices.
    fn disks(&self) -> (r: Vec<String>)
        ensures
            r.deep_view() == self.disks_view(),
    ;

    /// The labels, if any.
    fn labels(&self) -> Option<Vec<(String, String)>>;
}

/// Data a pool-destruction carrier exposes.
pub trait DestroyPoolInfo {
    /// The pool identifier, as a mathematical value.
    spec fn pool_id_view(&self) -> Seq<char>;

    /// The owning node, as a mathematical value.
    spec fn node_id_view(&self) -> Seq<char>;

    /// The pool identifier.
    fn pool_id(&self) -> (r: String)
        ensures
            r@ == self.pool_id_view(),
    ;

    /// The owning node.
    fn node_id(&self) -> (r: String)
        ensures
            r@ == self.node_id_view(),
    ;
}

impl CreatePoolInfo for CreatePool {
    open spec fn pool_id_view(&self) -> Seq<char> {
        self.id@
    }

    open spec fn node_id_view(&self) -> Seq<char> {
        self.node@
    }

    open spec fn disks_view(&self) -> Seq<Seq<char>> {
        self.disks.deep_view()
    }

    fn pool_id(&self) -> (r: String) {
        self.id.clone()
    }

    fn node_id(&self) -> (r: String) {
        self.node.clone()
    }

    fn disks(&self) -> (r: Vec<String>) {
        let d = clone_strings(&self.disks);
        proof {
            assert(d.deep_view() =~= self.disks.deep_view());
        }
        d
    }

    fn labels(&self) -> Option<Vec<(String, String)>> {
        clone_labels(&self.labels)
    }
}

impl DestroyPoolInfo for DestroyPool {
    open spec fn pool_id_view(&self) -> Seq<char> {
        self.id@
    }

    open spec fn node_id_view(&self) -> Seq<char> {
        self.node@
    }

    fn pool_id(&self) -> (r: String) {
        self.id.clone()
    }

    fn node_id(&self) -> (r: String) {
        self.node.clone()
    }
}

/// Data a replica-creation carrier exposes.
pub trait CreateReplicaInfo {
    /// The node, as a mathematical value.
    spec fn node_view(&self) -> Seq<char>;

    /// The pool, as a mathematical value.
    spec fn pool_view(&self) -> Seq<char>;

    /// The replica identifier, as a mathematical value.
    spec fn uuid_view(&self) -> Seq<char>;

    /// The requested size.
    spec fn size_view(&self) -> u64;

    /// The thin provisioning flag.
    spec fn thin_view(&self) -> bool;

    /// The share protocol.
    spec fn share_view(&self) -> Protocol;

    /// The managed flag.
    spec fn managed_view(&self) -> bool;

    /// The node to hold the replica.
    fn node(&self) -> (r: String)
        ensures
            r@ == self.node_view(),
    ;

    /// The replica name, if given.
    fn name(&self) -> Option<String>;

    /// The replica identifier.
    fn uuid(&self) -> (r: String)
        ensures
            r@ == self.uuid_view(),
    ;

    /// The pool to carve the replica from.
    fn pool(&self) -> (r: String)
        ensures
            r@ == self.pool_view(),
    ;

    /// The size in bytes.
    fn size(&self) -> (r: u64)
        ensures
            r == self.size_view(),
    ;

    /// The thin provisioning flag.
    fn thin(&self) -> (r: bool)
        ensures
            r == self.thin_view(),
    ;

    /// The protocol to share over, `Off` for unshared.
    fn share(&self) -> (r: Protocol)
        ensures
            r == self.share_view(),
    ;

    /// Whether the control plane manages this replica.
    fn managed(&self) -> (r: bool)
        ensures
            r == self.managed_view(),
    ;

    /// The owner references.
    fn owners(&self) -> ReplicaOwners;
}

impl CreateReplicaInfo for CreateReplica {
    open spec fn node_view(&self) -> Seq<char> {
        self.node@
    }

    open spec fn pool_view(&self) -> Seq<char> {
        self.pool@
    }

    open spec fn uuid_view(&self) -> Seq<char> {
        self.uuid@
    }

    open spec fn size_view(&self) -> u64 {
        self.size
    }

    open spec fn thin_view(&self) -> bool {
        self.thin
    }

    open spec fn share_view(&self) -> Protocol {
        self.share
    }

    open spec fn managed_view(&self) -> bool {
        self.managed
    }

    fn node(&self) -> (r: String) {
        self.node.clone()
    }

    fn name(&self) -> Option<String> {
        clone_opt_string(&self.name)
    }

    fn uuid(&self) -> (r: String) {
        self.uuid.clone()
    }

    fn pool(&self) -> (r: String) {
        self.pool.clone()
    }

    fn size(&self) -> (r: u64) {
        self.size
    }

    fn thin(&self) -> (r: bool) {
        self.thin
    }

    fn share(&self) -> (r: Protocol) {
        self.share
    }

    fn managed(&self) -> (r: bool) {
        self.managed
    }

    fn owners(&self) -> ReplicaOwners {
        self.owners.clone()
    }
}

/// Data a replica-destruction carrier exposes.
pub trait DestroyReplicaInfo {
    /// The node, as a mathematical value.
    spec fn node_view(&self) -> Seq<char>;

    /// The pool, as a mathematical value.
    spec fn pool_view(&self) -> Seq<char>;

    /// The replica identifier, as a mathematical value.
    spec fn uuid_view(&self) -> Seq<char>;

    /// The node holding the replica.
    fn node(&self) -> (r: String)
        ensures
            r@ == self.node_view(),
    ;

    /// The pool holding the replica.
    fn pool(&self) -> (r: String)
        ensures
            r@ == self.pool_view(),
    ;

    /// The replica name, if known.
    fn name(&self) -> Option<String>;

    /// The replica identifier.
    fn uuid(&self) -> (r: String)
        ensures
            r@ == self.uuid_view(),
    ;

    /// The owner references to strip.
    fn disowners(&self) -> ReplicaOwners;
}

impl DestroyReplicaInfo for DestroyReplica {
    open spec fn node_view(&self) -> Seq<char> {
        self.node@
    }

    open spec fn pool_view(&self) -> Seq<char> {
        self.pool@
    }

    open spec fn uuid_view(&self) -> Seq<char> {
        self.uuid@
    }

    fn node(&self) -> (r: String) {
        self.node.clone()
    }

    fn pool(&self) -> (r: String) {
        self.pool.clone()
    }

    fn name(&self) -> Option<String> {
        clone_opt_string(&self.name)
    }

    fn uuid(&self) -> (r: String) {
        self.uuid.clone()
    }

    fn disowners(&self) -> ReplicaOwners {
        self.disowners.clone()
    }
}

/// Data a replica-sharing carrier exposes.
pub trait ShareReplicaInfo {
    /// The node, as a mathematical value.
    spec fn node_view(&self) -> Seq<char>;

    /// The pool, as a mathematical value.
    spec fn pool_view(&self) -> Seq<char>;

    /// The replica identifier, as a mathematical value.
    spec fn uuid_view(&self) -> Seq<char>;

    /// The requested protocol.
    spec fn protocol_view(&self) -> ReplicaShareProtocol;

    /// The node holding the replica.
    fn node(&self) -> (r: String)
        ensures
            r@ == self.node_view(),
    ;

    /// The pool holding the replica.
    fn pool(&self) -> (r: String)
        ensures
            r@ == self.pool_view(),
    ;

    /// The replica name, if known.
    fn name(&self) -> Option<String>;

    /// The replica identifier.
    fn uuid(&self) -> (r: String)
        ensures
            r@ == self.uuid_view(),
    ;

    /// The protocol to share over.
    fn protocol(&self) -> (r: ReplicaShareProtocol)
        ensures
            r == self.protocol_view(),
    ;
}

/// Data a replica-unsharing carrier exposes.
pub trait UnshareReplicaInfo {
    /// The node, as a mathematical value.
    spec fn node_view(&self) -> Seq<char>;

    /// The pool, as a mathematical value.
    spec fn pool_view(&self) -> Seq<char>;

    /// The replica identifier, as a mathematical value.
    spec fn uuid_view(&self) -> Seq<char>;

    /// The node holding the replica.
    fn node(&self) -> (r: String)
        ensures
            r@ == self.node_view(),
    ;

    /// The pool holding the replica.
    fn pool(&self) -> (r: String)
        ensures
            r@ == self.pool_view(),
    ;

    /// The replica name, if known.
    fn name(&self) -> Option<String>;

    /// The replica identifier.
    fn uuid(&self) -> (r: String)
        ensures
            r@ == self.uuid_view(),
    ;
}

impl ShareReplicaInfo for ShareReplica {
    open spec fn node_view(&self) -> Seq<char> {
        self.node@
    }

    open spec fn pool_view(&self) -> Seq<char> {
        self.pool@
    }

    open spec fn uuid_view(&self) -> Seq<char> {
        self.uuid@
    }

    open spec fn protocol_view(&self) -> ReplicaShareProtocol {
        self.protocol
    }

    fn node(&self) -> (r: String) {
        self.node.clone()
    }

    fn pool(&self) -> (r: String) {
        self.pool.clone()
    }

    fn name(&self) -> Option<String> {
        clone_opt_string(&self.name)
    }

    fn uuid(&self) -> (r: String) {
        self.uuid.clone()
    }

    fn protocol(&self) -> (r: ReplicaShareProtocol) {
        self.protocol
    }
}

impl UnshareReplicaInfo for UnshareReplica {
    open spec fn node_view(&self) -> Seq<char> {
        self.node@
    }

    open spec fn pool_view(&self) -> Seq<char> {
        self.pool@
    }

    open spec fn uuid_view(&self) -> Seq<char> {
        self.uuid@
    }

    fn node(&self) -> (r: String) {
        self.node.clone()
    }

    fn pool(&self) -> (r: String) {
        self.pool.clone()
    }

    fn name(&self) -> Option<String> {
        clone_opt_string(&self.name)
    }

    fn uuid(&self) -> (r: String) {
        self.uuid.clone()
    }
}

} // verus!
