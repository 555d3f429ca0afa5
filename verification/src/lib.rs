//! Response modeling for a remote stats service: a generic result envelope
//! that resolves into exactly one of two strongly typed outcomes, and the
//! cache-expiry rule that reads the envelope's embedded cache metadata.

pub mod cache;
pub mod packet;
