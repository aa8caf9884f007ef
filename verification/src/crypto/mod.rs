//! The three cryptographic layers: device authentication (`auth`), the
//! transport session (`session`) and end-to-end message protection
//! (`e2e`), plus safety numbers for out-of-band key comparison.

pub mod auth;
pub mod e2e;
pub mod primitives;
pub mod safety_number;
pub mod session;
