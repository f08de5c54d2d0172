//! The boundary layer: status codes, failure classification, owned messages
//! and one response envelope per operation.

use vstd::prelude::*;

pub mod errors;
pub mod message;
pub mod ownership;
pub mod responses;
pub mod sector_builder;
pub mod status;

verus! {

/// The configured length in bytes of a proof of replication.
pub const API_POREP_PROOF_BYTES: usize = 384;

/// The configured length in bytes of a proof of spacetime.
pub const API_POST_PROOF_BYTES: usize = 192;

/// Every byte of `bytes` is zero: the value that a fixed-size payload field
/// has when nothing was written to it.
pub open spec fn all_zero(bytes: Seq<u8>) -> bool {
    forall|i: int| 0 <= i < bytes.len() ==> bytes[i] == 0
}

} // verus!
