//! TLS certificates of a small certificate authority.
//!
//! The crate builds authority, client and server certificates, answers certificate signing
//! requests, and reads certificates and PKCS#12 archives back. The rules (which fields a
//! certificate gets, which input is refused, how times are counted) are stated in contracts and
//! proved; the cryptography and the encodings are the work of `rcgen`, `openssl` and
//! `x509-parser`, each of whose calls stands behind one item of `clock`, `rcgen_api`,
//! `openssl_api` or `x509_api`.
pub mod model;
pub mod clock;
pub mod openssl_api;
pub mod x509_api;
pub mod rcgen_api;
pub mod text;
pub mod builder;
pub mod acme;
pub mod reading;
pub mod laws;
