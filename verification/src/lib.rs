//! Hypogaol: a FIDO2-first orchestrator for LUKS2 volumes. The library holds
//! the decision logic — what each command refuses, in which order it drives
//! the LUKS2/FIDO2/filesystem ports, and how every failure is explained —
//! while the ports themselves are implemented by the caller.
pub mod adapters;
pub mod cli;
pub mod domain;
pub mod ports;
pub mod text;
