//! The capabilities that the core is given: persistence, hashing of PINs and
//! a source of fresh secrets; and the settings that a device is built with.

use crate::persist::Persist;
use crate::secret::Secret;
use vstd::prelude::*;

verus! {

/// The length of a freshly generated secret, in bytes.
pub const FRESH_SECRET_LENGTH: usize = 32;

/// The settings that a device is built with.
#[derive(Clone, Copy, PartialEq, Eq, Structural, Debug)]
pub struct Customization {
    /// Whether the device may be provisioned for enterprise attestation.
    pub enterprise_attestation: bool,
    /// The number of PIN attempts that a full retry budget holds.
    pub max_pin_retries: u8,
    /// The number of operations gated by user presence that one token covers.
    pub token_window: u8,
}

/// The capability bundle that is handed to the core with every command.
pub trait Env: Persist {
    /// The hash of a PIN under a salt.
    spec fn pin_hash(salt: Seq<u8>, pin: Seq<u8>) -> Seq<u8>;

    /// Hashes a PIN under a salt.
    fn hash_pin(&self, salt: &Vec<u8>, pin: &Secret) -> (hash: Secret)
        ensures
            hash@ == Self::pin_hash(salt@, pin@),
    ;

    /// A fresh secret from the device's source of randomness.
    fn generate_secret(&self) -> (secret: Secret)
        ensures
            secret@.len() == FRESH_SECRET_LENGTH,
    ;
}

} // verus!
