//! Lifecycle orchestration for confidential VM images backed by a virtual TPM.
//!
//! The library decides; the caller acts. Every pipeline is a state machine
//! that hands out one request at a time and is fed the host's reply.

pub mod customize;
pub mod fetch;
pub mod host;
pub mod invocation;
pub mod limited;
pub mod nbd;
pub mod retry;
pub mod seed;
pub mod sequence;
pub mod sidecar;
pub mod stop;
pub mod text;
pub mod vm;
