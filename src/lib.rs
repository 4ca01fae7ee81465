//! Noise XK transport security over X25519, ChaCha20-Poly1305 and SHA-256,
//! with an address type that may route a connection through a proxy.

pub mod primitives;
pub mod ec;
pub mod noise;
pub mod xk;
pub mod addr;
