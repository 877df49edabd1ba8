//! Password credentials in two stages: a keyed digest of the password
//! (HMAC-SHA256, rendered as lower-case hexadecimal) is fed to an adaptive,
//! salted hash (bcrypt), and the record that comes out is what a caller stores.

pub mod adaptive;
pub mod error;
pub mod hex;
pub mod keyed;
pub mod laws;
pub mod password;

pub use crate::adaptive::AdaptiveError;
pub use crate::error::PasswordError;
pub use crate::hex::to_lower_hex;
pub use crate::keyed::hmac_password;
pub use crate::password::{hash_outcome, hash_password, verify_outcome, verify_password};
