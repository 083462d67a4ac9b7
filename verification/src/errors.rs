//! The two-valued error taxonomy every failure is folded into before it
//! crosses the service boundary, and its mapping onto RPC statuses.

use vstd::prelude::*;

verus! {

/// Whose fault a failure is. Exactly these two kinds cross the service
/// boundary: no provider-specific fault ever escapes the adapters.
#[derive(Clone, Copy, PartialEq, Eq, Structural, Debug)]
pub enum ErrorKind {
    /// The caller can correct this: bad language pair, malformed parameters,
    /// invalid credentials-as-validation.
    UserError,
    /// The service or a provider is at fault: outages, transport failures,
    /// unparseable responses, unclassified faults.
    InternalError,
}

/// The status the RPC layer reports for a failed operation. Neither status
/// carries a message body: callers learn only whose fault the failure was.
#[derive(Clone, Copy, PartialEq, Eq, Structural, Debug)]
pub enum RpcStatusKind {
    InvalidArgument,
    Internal,
}

/// The status reported for each error kind.
pub open spec fn status_of(kind: ErrorKind) -> RpcStatusKind {
    match kind {
        ErrorKind::UserError => RpcStatusKind::InvalidArgument,
        ErrorKind::InternalError => RpcStatusKind::Internal,
    }
}

/// Maps the error taxonomy onto the RPC status a failed operation reports:
/// the caller's fault becomes invalid-argument, the service's becomes
/// internal.
pub fn status_for_error(kind: ErrorKind) -> (r: RpcStatusKind)
    ensures
        r == status_of(kind),
{
    match kind {
        ErrorKind::UserError => RpcStatusKind::InvalidArgument,
        ErrorKind::InternalError => RpcStatusKind::Internal,
    }
}

} // verus!
