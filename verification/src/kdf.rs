//! The password-stretching configuration of an account.
//!
//! The identity service announces, per account, which key derivation function
//! to run and with what cost parameters. This module models that descriptor
//! and the rules that make it acceptable: an Argon2id descriptor must carry
//! its memory and parallelism parameters, and the cost parameters must lie in
//! ranges this client is willing to spend CPU on.

use vstd::prelude::*;

use crate::error::LoginError;

verus! {

/// The password-stretching algorithms the protocol can announce.
#[derive(Debug, Clone, Copy, PartialEq, Eq, Structural)]
pub enum KdfKind {
    Pbkdf2,
    Argon2id,
}

/// The KDF descriptor fetched for one account; immutable once fetched and
/// alive for one login attempt.
#[derive(Debug, Clone, PartialEq, Eq)]
pub struct KdfConfig {
    pub kind: KdfKind,
    /// PBKDF2 round count, or the Argon2id time cost.
    pub iterations: u32,
    /// Argon2id memory parameter; `None` for PBKDF2.
    pub memory: Option<u32>,
    /// Argon2id lane count; `None` for PBKDF2.
    pub parallelism: Option<u32>,
}

/// Upper bound on the iteration count this client will spend; a larger
/// server-supplied value is rejected rather than silently clamped.
pub const MAX_KDF_ITERATIONS: u32 = 10_000_000;

/// Upper bound on the Argon2id memory parameter (the wire value is multiplied
/// by 1024 before it reaches the Argon2id primitive).
pub const MAX_ARGON2_MEMORY: u32 = 1024;

/// Upper bound on the Argon2id lane count, as the Argon2id primitive itself
/// enforces.
pub const MAX_ARGON2_PARALLELISM: u32 = 0xFF_FFFF;

/// An Argon2id descriptor must carry both of its extra parameters; their
/// absence is a malformed response, never defaulted.
pub open spec fn spec_params_present(c: KdfConfig) -> bool {
    c.kind == KdfKind::Argon2id ==> c.memory is Some && c.parallelism is Some
}

/// The cost parameters this client will run: at least one round, and no
/// unbounded CPU or memory burn.
pub open spec fn spec_costs_acceptable(c: KdfConfig) -> bool {
    &&& 1 <= c.iterations <= MAX_KDF_ITERATIONS
    &&& (c.kind == KdfKind::Argon2id ==> {
        &&& c.memory is Some && 1 <= c.memory->0 <= MAX_ARGON2_MEMORY
        &&& c.parallelism is Some && 1 <= c.parallelism->0 <= MAX_ARGON2_PARALLELISM
    })
}

/// A descriptor the key-derivation engine accepts.
pub open spec fn spec_kdf_acceptable(c: KdfConfig) -> bool {
    spec_params_present(c) && spec_costs_acceptable(c)
}

impl KdfConfig {
    /// Exec mirror of [`spec_params_present`].
    pub fn params_present(&self) -> (r: bool)
        ensures
            r == spec_params_present(*self),
    {
        match self.kind {
            KdfKind::Pbkdf2 => true,
            KdfKind::Argon2id => self.memory.is_some() && self.parallelism.is_some(),
        }
    }

    /// Exec mirror of [`spec_costs_acceptable`].
    pub fn costs_acceptable(&self) -> (r: bool)
        ensures
            r == spec_costs_acceptable(*self),
    {
        if self.iterations < 1 || self.iterations > MAX_KDF_ITERATIONS {
            return false;
        }
        match self.kind {
            KdfKind::Pbkdf2 => true,
            KdfKind::Argon2id => {
                let mem_ok = match self.memory {
                    Some(m) => 1 <= m && m <= MAX_ARGON2_MEMORY,
                    None => false,
                };
                let par_ok = match self.parallelism {
                    Some(p) => 1 <= p && p <= MAX_ARGON2_PARALLELISM,
                    None => false,
                };
                mem_ok && par_ok
            },
        }
    }
}

/// The four numeric fields of a prelogin response, exactly as the wire gives
/// them, before any range or presence check.
#[derive(Debug, Clone, PartialEq, Eq)]
pub struct PreloginFields {
    /// The KDF kind discriminant (`0` = PBKDF2, `1` = Argon2id on the wire).
    pub kdf: u64,
    pub iterations: u64,
    pub memory: Option<u64>,
    pub parallelism: Option<u64>,
}

/// The wire knows exactly two KDF kind discriminants.
pub open spec fn spec_kind_known(f: PreloginFields) -> bool {
    f.kdf == 0 || f.kdf == 1
}

/// Every numeric field of the descriptor fits the width its config field has.
pub open spec fn spec_fields_fit(f: PreloginFields) -> bool {
    &&& f.iterations <= u32::MAX
    &&& (f.memory is Some ==> f.memory->0 <= u32::MAX)
    &&& (f.parallelism is Some ==> f.parallelism->0 <= u32::MAX)
}

/// The descriptor a known, in-range prelogin response decodes to, verbatim.
pub open spec fn spec_decoded_config(f: PreloginFields) -> KdfConfig
    recommends
        spec_kind_known(f),
        spec_fields_fit(f),
{
    KdfConfig {
        kind: if f.kdf == 0 { KdfKind::Pbkdf2 } else { KdfKind::Argon2id },
        iterations: f.iterations as u32,
        memory: match f.memory {
            Some(m) => Some(m as u32),
            None => None,
        },
        parallelism: match f.parallelism {
            Some(p) => Some(p as u32),
            None => None,
        },
    }
}

/// Decode the raw prelogin fields into a [`KdfConfig`].
///
/// An unknown kind discriminant fails with `UnsupportedKdf` — never a silent
/// default. A numeric field too large for its width is a malformed response.
/// Presence and range of the cost parameters are judged later, by the
/// key-derivation engine.
pub fn decode_kdf_config(f: &PreloginFields) -> (r: Result<KdfConfig, LoginError>)
    ensures
        r is Ok <==> spec_kind_known(*f) && spec_fields_fit(*f),
        r is Ok ==> r->Ok_0 == spec_decoded_config(*f),
        !spec_kind_known(*f) ==> r == Err::<KdfConfig, LoginError>(LoginError::UnsupportedKdf),
        spec_kind_known(*f) && !spec_fields_fit(*f) ==> (r matches Err(LoginError::ProtocolFailure { status, .. }) && status == 200),
{
    if f.kdf != 0 && f.kdf != 1 {
        return Err(LoginError::UnsupportedKdf);
    }
    let iterations = match u64_to_u32(f.iterations) {
        Some(i) => i,
        None => {
            return Err(protocol_shape_error());
        },
    };
    let memory = match f.memory {
        Some(m) => match u64_to_u32(m) {
            Some(m32) => Some(m32),
            None => {
                return Err(protocol_shape_error());
            },
        },
        None => None,
    };
    let parallelism = match f.parallelism {
        Some(p) => match u64_to_u32(p) {
            Some(p32) => Some(p32),
            None => {
                return Err(protocol_shape_error());
            },
        },
        None => None,
    };
    Ok(KdfConfig {
        kind: if f.kdf == 0 { KdfKind::Pbkdf2 } else { KdfKind::Argon2id },
        iterations,
        memory,
        parallelism,
    })
}

/// Narrow a wire integer to the width a config field has.
fn u64_to_u32(v: u64) -> (r: Option<u32>)
    ensures
        r is Some <==> v <= u32::MAX,
        r is Some ==> r->0 == v as u32,
{
    if v <= u32::MAX as u64 {
        Some(v as u32)
    } else {
        None
    }
}

/// The error for a prelogin response whose shape is wrong even though the
/// request itself succeeded: the descriptor only ever stands in the body of
/// a 200 answer, so that is the status the diagnostic carries.
fn protocol_shape_error() -> (r: LoginError)
    ensures
        r matches LoginError::ProtocolFailure { status, .. } && status == 200,
{
    LoginError::ProtocolFailure { status: 200, detail: "prelogin field out of range".to_owned() }
}

} // verus!
