//! Candidate-testing engine for recovering a secret from its digest or from a
//! live login service: wordlist sharding, a strided keyspace generator, the
//! shared first-match slot, the candidate tester and the online session
//! state machine.

pub mod config;
pub mod digest;
pub mod fingerprint;
pub mod keyspace;
pub mod outcome;
pub mod partition;
pub mod search;
pub mod session;
