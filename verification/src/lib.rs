//! Authentication core of a small account service: password hashing, signed
//! bearer tokens with a fixed lifetime, a registry of revoked tokens, and the
//! decisions behind the register, login, logout and profile endpoints.
//!
//! Every function here is verified against the contract in its header. The
//! few private functions marked `external_body` call into Argon2, the JWT
//! signer and the system clock; their contracts are believed, not proved.

pub mod config;
pub mod handlers;
pub mod header;
pub mod password;
pub mod response;
pub mod state;
pub mod token;
pub mod user;
