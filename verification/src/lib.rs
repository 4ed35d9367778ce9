//! A wake-word listener core: the sample channel between the capture callback
//! and the processing loop, the chunker that cuts the stream into inference
//! units, and the protocol spoken with the detection engine process.

pub mod capture;
pub mod channel;
pub mod chunker;
pub mod config;
pub mod precise;
pub mod session;
pub mod wire;
