//! Response envelopes and error classification for the foreign-function
//! boundary of a storage-proof service.

pub mod api;
