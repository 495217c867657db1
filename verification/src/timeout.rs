//! Per-operation timeout policy of the remote operation client.
//!
//! Every call gets a fresh connection, so the chosen timeout bounds both
//! connection establishment and the call itself.  A caller-scoped timeout
//! wins when present; otherwise the budget is computed from the operation
//! kind over the client's base timeout, fixed at construction from
//! configuration and defaulting to five seconds.

use vstd::prelude::*;

verus! {

/// The default request timeout in milliseconds, used when configuration
/// supplies none.
pub const DEFAULT_REQ_TIMEOUT_MS: u64 = 5000;

/// The connect timeout in milliseconds applied before each replica call.
pub const REPLICA_CONNECT_TIMEOUT_MS: u64 = 500;

/// The operation kinds a remote operation client issues.
#[derive(Clone, Copy, Debug, PartialEq, Eq, Structural)]
pub enum OperationId {
    CreatePool,
    DestroyPool,
    GetPools,
    CreateReplica,
    DestroyReplica,
    GetReplicas,
    ShareReplica,
    UnshareReplica,
}

/// A caller-scoped request context: an optional timeout override in
/// milliseconds that replaces the computed per-operation budget.
#[derive(Clone, Copy, Debug, PartialEq, Eq, Structural)]
pub struct Context {
    /// Timeout override, if the caller scoped one.
    pub timeout_ms: Option<u64>,
}

/// The factor an operation kind applies to the base timeout: mutating
/// operations that allocate or free device state get a larger budget than
/// listings.
pub open spec fn spec_op_factor(op: OperationId) -> u64 {
    match op {
        OperationId::CreatePool => 4,
        OperationId::DestroyPool => 2,
        OperationId::GetPools => 1,
        OperationId::CreateReplica => 4,
        OperationId::DestroyReplica => 2,
        OperationId::GetReplicas => 1,
        OperationId::ShareReplica => 2,
        OperationId::UnshareReplica => 2,
    }
}

/// The computed budget for an operation: the base timeout scaled by the
/// operation's factor, saturating instead of overflowing.
pub open spec fn spec_op_timeout(op: OperationId, base_ms: u64) -> u64 {
    if base_ms * spec_op_factor(op) > u64::MAX {
        u64::MAX
    } else {
        (base_ms * spec_op_factor(op)) as u64
    }
}

/// Scale the base timeout by the operation's factor.
pub fn op_timeout(op: OperationId, base_ms: u64) -> (r: u64)
    ensures
        r == spec_op_timeout(op, base_ms),
{
    let factor: u64 = match op {
        OperationId::CreatePool => 4,
        OperationId::DestroyPool => 2,
        OperationId::GetPools => 1,
        OperationId::CreateReplica => 4,
        OperationId::DestroyReplica => 2,
        OperationId::GetReplicas => 1,
        OperationId::ShareReplica => 2,
        OperationId::UnshareReplica => 2,
    };
    if base_ms > u64::MAX / factor {
        u64::MAX
    } else {
        base_ms * factor
    }
}

/// The timeout a call runs under: the caller-scoped override when present,
/// the computed per-operation budget otherwise.
pub open spec fn spec_request_timeout(ctx: Option<Context>, op: OperationId, base_ms: u64) -> u64 {
    match ctx {
        Some(c) => match c.timeout_ms {
            Some(t) => t,
            None => spec_op_timeout(op, base_ms),
        },
        None => spec_op_timeout(op, base_ms),
    }
}

/// Choose the timeout for one call.
pub fn request_timeout(ctx: &Option<Context>, op: OperationId, base_ms: u64) -> (r: u64)
    ensures
        r == spec_request_timeout(*ctx, op, base_ms),
{
    match ctx {
        Some(c) => match c.timeout_ms {
            Some(t) => t,
            None => op_timeout(op, base_ms),
        },
        None => op_timeout(op, base_ms),
    }
}

/// The duration, in whole milliseconds, that a human-readable duration
/// string denotes, if it is well formed and the count fits; a function of
/// the characters alone.
pub uninterp spec fn spec_parsed_millis(s: Seq<char>) -> Option<u64>;

/// Relies on humantime::parse_duration: parses strings such as a count with
/// a unit suffix into a duration; the result depends on the characters
/// alone, and parsing never panics.
#[verifier::external_body]
fn parse_duration_millis(s: &str) -> (r: Option<u64>)
    ensures
        r == spec_parsed_millis(s@),
{
    match humantime::parse_duration(s) {
        Ok(d) => u64::try_from(d.as_millis()).ok(),
        Err(_) => None,
    }
}

/// The base timeout a client is constructed with: the configured duration
/// when one is supplied and parses, the default otherwise.
pub open spec fn spec_base_timeout(cfg: Option<Seq<char>>) -> u64 {
    match cfg {
        Some(s) => match spec_parsed_millis(s) {
            Some(ms) => ms,
            None => DEFAULT_REQ_TIMEOUT_MS,
        },
        None => DEFAULT_REQ_TIMEOUT_MS,
    }
}

/// Resolve the configured base timeout, falling back to the default when
/// configuration supplies none or an unparsable one.
pub fn base_timeout_from_config(cfg: &Option<String>) -> (r: u64)
    ensures
        r == spec_base_timeout(match *cfg {
            Some(s) => Some(s@),
            None => None,
        }),
{
    match cfg {
        Some(s) => match parse_duration_millis(s.as_str()) {
            Some(ms) => ms,
            None => DEFAULT_REQ_TIMEOUT_MS,
        },
        None => DEFAULT_REQ_TIMEOUT_MS,
    }
}

} // verus!
