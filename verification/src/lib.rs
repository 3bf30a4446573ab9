//! Public-key authenticated encryption in the NaCl `crypto_box` family.
//!
//! Two parties that each hold an X25519 key pair derive the same symmetric
//! key from their own secret key and the other's public key, and use it to
//! seal and open messages. [`SalsaBox`] pairs the agreement with
//! XSalsa20-Poly1305, [`ChaChaBox`] with XChaCha20-Poly1305; only the latter
//! authenticates associated data.
//!
//! The curve arithmetic, the two key expansions, the stream ciphers and the
//! authenticator are taken from the crates that implement them. Their results
//! appear in the contracts under names of their own (`x25519_spec`,
//! `hsalsa20_spec`, `xsalsa20_keystream`, ...); what this crate proves is how
//! they are put together: which key a box holds, what the six operations
//! leave in the caller's buffers, when they fail, and that what one side
//! seals the other side opens.

pub mod aead;
pub mod bytes;
pub mod chacha_box;
pub mod curve;
pub mod error;
pub mod kdf;
pub mod keys;
pub mod laws;
pub mod random;
pub mod salsa_box;
pub mod wipe;
pub mod xchacha;
pub mod xsalsa;

pub use crate::aead::{Nonce, Tag, NONCE_SIZE, TAG_SIZE};
pub use crate::chacha_box::ChaChaBox;
pub use crate::error::{BoxError, InvalidLength};
pub use crate::keys::{PublicKey, SecretKey, KEY_SIZE};
pub use crate::random::generate_nonce;
pub use crate::salsa_box::{Box, SalsaBox};
