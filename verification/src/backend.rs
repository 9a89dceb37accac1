//! The calls into the curve and proof backend.
//!
//! Nothing in these modules is proved. Each function states what is assumed
//! of the backend call in its body, and each bodiless spec function names
//! the result of one backend computation on encoded values.

pub mod curve;
pub mod ietf;
pub mod ring;
pub mod suite;
pub mod text;
