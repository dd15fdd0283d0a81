//! Provisioning of an RSA key pair into sealed storage, and decryption of a
//! ciphertext block with that key, as seen from inside a trusted boundary.
pub mod errors;
pub mod vault;
pub mod codec;
pub mod decryption;
pub mod boundary;
