//! Identifiers of the business models, and the sources of fresh identifiers
//! and timestamps.
use vstd::prelude::*;

verus! {

/// A type that wraps the raw UUID of one kind of business model, so that the
/// identifier of one model cannot be passed where another's is expected.
pub trait BusinessModelUuid: Sized {
    /// The wrapped raw UUID.
    spec fn inner(&self) -> u128;

    /// Wraps the raw UUID that a database row refers to.
    fn new_from_model(value: u128) -> (res: Self)
        ensures
            res.inner() == value,
    ;

    /// The wrapped raw UUID.
    fn get_inner(&self) -> (res: u128)
        ensures
            res == self.inner(),
    ;
}

/// A UUID of version 4 with the RFC 4122 variant, as a 128-bit big-endian
/// value.
pub open spec fn is_v4_uuid(u: u128) -> bool {
    (u >> 76u128) & 0xfu128 == 4u128 && (u >> 62u128) & 0x3u128 == 2u128
}

/// `uuid::Uuid::new_v4`, as its 128-bit big-endian value: a random UUID whose
/// version field is 4 and whose variant bits are those of RFC 4122.  The
/// other 122 bits are random and nothing is claimed of them.
#[verifier::external_body]
pub(crate) fn new_random_uuid() -> (res: u128)
    ensures
        is_v4_uuid(res),
{
    uuid::Uuid::new_v4().as_u128()
}

/// `time::OffsetDateTime::now_utc`, as nanoseconds since the Unix epoch.
/// The result depends on the clock; nothing is claimed of it.
#[verifier::external_body]
pub(crate) fn now_unix_nanos() -> (res: i128) {
    time::OffsetDateTime::now_utc().unix_timestamp_nanos()
}

} // verus!
