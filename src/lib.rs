//! Decides whether two paths name the same file object, from the identity
//! keys that the host's metadata queries give for them.
//!
//! Where identity is read from a path's metadata (device and inode numbers),
//! [`is_same_file`] turns the two query results into the answer. Where it is
//! read through open handles, a [`HandleSession`] decides in what order the
//! handles are opened, queried and released, and gives the same answer.
use vstd::prelude::*;

pub mod handle;
pub mod key;

pub use handle::{HandleSession, Outcome, Request, SessionRecord, Slot, Step};
pub use key::FileKey;

verus! {

/// The answer owed for two identity queries: the failure of the first query
/// if it failed, else that of the second, else whether the keys are equal.
pub open spec fn same_file_verdict<E>(first: Result<FileKey, E>, second: Result<FileKey, E>) -> Result<
    bool,
    E,
> {
    match first {
        Err(e) => Err(e),
        Ok(a) => match second {
            Err(e) => Err(e),
            Ok(b) => Ok(a == b),
        },
    }
}

/// Returns whether two paths may name the same file, given what the identity
/// query of each path gave.
///
/// A failed query is passed on as it is, the first path's before the second's;
/// no boolean stands in for it. Otherwise the answer is `true` exactly when the
/// two keys are equal.
pub fn is_same_file<E>(first: Result<FileKey, E>, second: Result<FileKey, E>) -> (r: Result<bool, E>)
    ensures
        r == same_file_verdict(first, second),
{
    match first {
        Err(e) => Err(e),
        Ok(a) => match second {
            Err(e) => Err(e),
            Ok(b) => Ok(a == b),
        },
    }
}

/// A path compared with itself is the same file: when both queries give one
/// key, as they do for one existing path, the answer is `true`, whether the
/// keys were read by metadata queries or through a handle session.
pub proof fn lemma_same_key_is_same_file<E>(k: FileKey)
    ensures
        same_file_verdict::<E>(Ok(k), Ok(k)) == Ok::<bool, E>(true),
        forall|r: SessionRecord<E>|
            r.failure is None && r.first == Some(k) && r.second == Some(k) ==> #[trigger] r.verdict()
                == Ok::<bool, E>(true),
{
}

/// A failed query never turns into a `false`: if either path could not be
/// queried (it does not exist, access was denied), the answer is an error,
/// and a handle session that met a failure answers with that failure.
pub proof fn lemma_failed_query_is_error<E>(first: Result<FileKey, E>, second: Result<FileKey, E>)
    requires
        first is Err || second is Err,
    ensures
        same_file_verdict(first, second) is Err,
        forall|r: SessionRecord<E>|
            r.failure is Some ==> #[trigger] r.verdict() == Err::<bool, E>(r.failure->0),
{
}

} // verus!
