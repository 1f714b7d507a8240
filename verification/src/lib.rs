//! The cryptographic core of a peer-to-peer messenger: a registry that maps
//! algorithm descriptors to primitives, the X3DH key agreement built on it,
//! and the rules under which a signed login request earns a session.

pub mod aes;
pub mod algorithms;
pub mod backend;
pub mod bytes;
pub mod credentials;
pub mod errors;
pub mod keys;
pub mod laws;
pub mod limits;
pub mod random;
pub mod registry;
pub mod session;
pub mod types;
pub mod x3dh;
