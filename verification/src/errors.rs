//! Typed reply errors: every internal failure surfaces to callers as a
//! structured `{kind, resource, source, extra}` object, never as a raw
//! transport exception.

use vstd::prelude::*;

verus! {

/// Classification of a reply error.
#[derive(Clone, Copy, Debug, PartialEq, Eq, Structural)]
pub enum ReplyErrorKind {
    /// The addressed resource is absent.
    NotFound,
    /// A sequencer-guarded write observed a stale sequencer.
    Conflict,
    /// The remote node did not answer within its budget.
    Unreachable,
    /// The request shape is malformed (missing field, bad filter).
    InvalidArgument,
    /// An internal invariant was violated.
    Internal,
}

/// Resource kind an error refers to.
#[derive(Clone, Copy, Debug, PartialEq, Eq, Structural)]
pub enum ResourceKind {
    Unknown,
    Pool,
    Replica,
    Nexus,
    Volume,
}

/// Structured error carried on every failing reply.
#[derive(Debug)]
pub struct ReplyError {
    /// Classification.
    pub kind: ReplyErrorKind,
    /// Resource kind the failing operation addressed.
    pub resource: ResourceKind,
    /// Component that raised the error.
    pub source: String,
    /// Free-text detail.
    pub extra: String,
}

impl Clone for ReplyError {
    fn clone(&self) -> (res: Self)
        ensures
            res == *self,
    {
        ReplyError {
            kind: self.kind,
            resource: self.resource,
            source: self.source.clone(),
            extra: self.extra.clone(),
        }
    }
}

impl ReplyError {
    /// An error with the given classification and detail strings.
    pub fn new(kind: ReplyErrorKind, resource: ResourceKind, source: String, extra: String) -> (r:
        ReplyError)
        ensures
            r.kind == kind,
            r.resource == resource,
            r.source == source,
            r.extra == extra,
    {
        ReplyError { kind, resource, source, extra }
    }
}

} // verus!
