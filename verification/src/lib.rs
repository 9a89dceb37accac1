//! Bandersnatch verifiable random functions: a directly attributable proof
//! and an anonymous ring proof over one shared output derivation.
//!
//! Every value that crosses the library is held in its canonical byte
//! encoding, and the contracts speak of those encodings. The curve
//! arithmetic and the proof systems are the backend's: `backend` lists each
//! call into it together with what is assumed of the call.

pub mod actors;
pub mod backend;
pub mod envelope;
pub mod error;
pub mod ietf;
pub mod keys;
pub mod ring;
pub mod suite;
