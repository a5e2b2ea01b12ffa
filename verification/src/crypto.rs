//! The key-derivation engine.
//!
//! Turns (password, email, [`KdfConfig`]) into a 32-byte master key, expands
//! that key into an encryption key and a MAC key, and computes the two
//! password-verification hashes of the protocol. The cryptographic primitives
//! themselves come from outside crates; each is reached through one trusted
//! wrapper whose result is a named, deterministic function of its arguments,
//! so everything built on top of them is verified.

use base64::Engine;
use sha2::Digest;
use vstd::prelude::*;
use vstd::utf8::encode_utf8;

use crate::error::LoginError;
use crate::kdf::{KdfConfig, KdfKind, spec_costs_acceptable, spec_kdf_acceptable,
    spec_params_present};

verus! {

// ----- named results of the outside cryptographic primitives -----

/// The SHA-256 digest of `data`: 32 bytes, a function of `data` alone.
pub uninterp spec fn spec_sha256(data: Seq<u8>) -> Seq<u8>;

/// The first 32 bytes of PBKDF2-HMAC-SHA256 over (`password`, `salt`) with
/// `rounds` rounds: a function of the three arguments alone.
pub uninterp spec fn spec_pbkdf2_sha256(password: Seq<u8>, salt: Seq<u8>, rounds: u32) -> Seq<u8>;

/// The 32-byte Argon2id (version 0x13) hash of (`password`, `salt`) under the
/// given memory, time and parallelism costs: a function of the arguments alone.
pub uninterp spec fn spec_argon2id(password: Seq<u8>, salt: Seq<u8>, m_cost: u32, t_cost: u32, p_cost: u32) -> Seq<u8>;

/// The 32-byte HKDF-SHA256 expansion of the pseudorandom key `prk` under the
/// label `info`: a function of the two arguments alone.
pub uninterp spec fn spec_hkdf_sha256_expand(prk: Seq<u8>, info: Seq<u8>) -> Seq<u8>;

// ----- the trusted wrappers that reach them -----

/// Relies on `sha2::Sha256` through `digest::Digest::digest`: the SHA-256
/// digest of the input, always 32 bytes, depending on the input alone.
#[verifier::external_body]
fn sha256(data: &[u8]) -> (r: Vec<u8>)
    ensures
        r@ == spec_sha256(data@),
        r@.len() == 32,
{
    sha2::Sha256::digest(data).to_vec()
}

/// Relies on `pbkdf2::pbkdf2_hmac::<sha2::Sha256>`: fills the output with
/// PBKDF2-HMAC-SHA256 of (password, salt, rounds). HMAC accepts keys of any
/// length, so the call cannot fail, for any round count.
#[verifier::external_body]
fn pbkdf2_sha256(password: &[u8], salt: &[u8], rounds: u32) -> (r: Vec<u8>)
    ensures
        r@ == spec_pbkdf2_sha256(password@, salt@, rounds),
        r@.len() == 32,
{
    let mut out = vec![0u8; 32];
    pbkdf2::pbkdf2_hmac::<sha2::Sha256>(password, salt, rounds, &mut out);
    out
}

/// Relies on `argon2::Argon2::hash_password_into` with `Algorithm::Argon2id`
/// and `Version::V0x13`, and on `argon2::Params::new` with a 32-byte output.
/// `Params::new` rejects `m_cost < 8`, `m_cost < p_cost * 8`, `t_cost < 1`
/// and `p_cost` outside `1..=0xFF_FFFF`; the hash call itself additionally
/// rejects a salt shorter than 8 or longer than `u32::MAX` bytes and a
/// password longer than `u32::MAX` bytes. Exactly inside those bounds the
/// crate's source returns `Ok`. The bound on `p_cost` is required up front:
/// `Params::new` computes `p_cost * 8` unchecked, which can overflow for a
/// larger value.
#[verifier::external_body]
fn argon2id_hash(password: &[u8], salt: &[u8], m_cost: u32, t_cost: u32, p_cost: u32) -> (r: Option<Vec<u8>>)
    requires
        p_cost <= 0xFF_FFFF,
    ensures
        r is Some ==> r->0@ == spec_argon2id(password@, salt@, m_cost, t_cost, p_cost)
            && r->0@.len() == 32,
        r is Some <==> (8 <= m_cost && p_cost * 8 <= m_cost && 1 <= t_cost && 1 <= p_cost
            && 8 <= salt@.len() <= u32::MAX && password@.len() <= u32::MAX),
{
    let params = match argon2::Params::new(m_cost, t_cost, p_cost, Some(32)) {
        Ok(p) => p,
        Err(_) => return None,
    };
    let ctx = argon2::Argon2::new(argon2::Algorithm::Argon2id, argon2::Version::V0x13, params);
    let mut out = vec![0u8; 32];
    match ctx.hash_password_into(password, salt, &mut out) {
        Ok(()) => Some(out),
        Err(_) => None,
    }
}

/// Relies on `hkdf::Hkdf::<sha2::Sha256>::from_prk` and `expand`: `from_prk`
/// accepts any pseudorandom key of at least 32 bytes, and `expand` fills any
/// output of at most 255 * 32 bytes, so with a 32-byte key and a 32-byte
/// output neither can fail.
#[verifier::external_body]
fn hkdf_sha256_expand32(prk: &[u8], info: &[u8]) -> (r: Vec<u8>)
    requires
        prk@.len() == 32,
    ensures
        r@ == spec_hkdf_sha256_expand(prk@, info@),
        r@.len() == 32,
{
    let hk = hkdf::Hkdf::<sha2::Sha256>::from_prk(prk).unwrap();
    let mut out = vec![0u8; 32];
    hk.expand(info, &mut out).unwrap();
    out
}

// ----- stage A: the master key -----

/// The master key an acceptable configuration derives from (password, email):
/// PBKDF2 salts with the email itself, Argon2id with the SHA-256 digest of
/// the email, and the wire memory parameter is scaled by 1024 before it
/// reaches the primitive.
pub open spec fn spec_master_key(password: Seq<char>, email: Seq<char>, c: KdfConfig) -> Seq<u8>
    recommends
        spec_kdf_acceptable(c),
{
    match c.kind {
        KdfKind::Pbkdf2 => spec_pbkdf2_sha256(encode_utf8(password), encode_utf8(email), c.iterations),
        KdfKind::Argon2id => spec_argon2id(
            encode_utf8(password),
            spec_sha256(encode_utf8(email)),
            (c.memory->0 * 1024) as u32,
            c.iterations,
            c.parallelism->0,
        ),
    }
}

/// Derive the 32-byte master key from the user's password and email under the
/// account's KDF descriptor.
///
/// A descriptor whose kind requires parameters it does not carry fails with
/// `UnsupportedKdf`; one whose cost parameters lie outside the ranges this
/// client will run fails with `DerivationFailure`, before any work is done.
/// For an acceptable PBKDF2 descriptor the derivation always succeeds. An
/// acceptable Argon2id descriptor succeeds whenever the parallelism fits the
/// memory (the primitive demands eight memory blocks per lane, here
/// `parallelism <= memory * 128`) and the password is at most `u32::MAX`
/// bytes; outside that, the primitive's refusal surfaces as
/// `DerivationFailure`.
pub fn derive_master_key(password: &str, email: &str, config: &KdfConfig) -> (r: Result<Vec<u8>, LoginError>)
    ensures
        r is Ok ==> spec_kdf_acceptable(*config)
            && r->Ok_0@ == spec_master_key(password@, email@, *config)
            && r->Ok_0@.len() == 32,
        !spec_params_present(*config) ==> r == Err::<Vec<u8>, LoginError>(LoginError::UnsupportedKdf),
        spec_params_present(*config) && !spec_costs_acceptable(*config)
            ==> r == Err::<Vec<u8>, LoginError>(LoginError::DerivationFailure),
        spec_kdf_acceptable(*config) && config.kind == KdfKind::Pbkdf2 ==> r is Ok,
        spec_kdf_acceptable(*config) && config.kind == KdfKind::Argon2id
            ==> (r is Ok || r == Err::<Vec<u8>, LoginError>(LoginError::DerivationFailure)),
        spec_kdf_acceptable(*config) && config.kind == KdfKind::Argon2id
            && config.parallelism->0 <= config.memory->0 * 128
            && encode_utf8(password@).len() <= u32::MAX ==> r is Ok,
{
    if !config.params_present() {
        return Err(LoginError::UnsupportedKdf);
    }
    if !config.costs_acceptable() {
        return Err(LoginError::DerivationFailure);
    }
    match config.kind {
        KdfKind::Pbkdf2 => {
            Ok(pbkdf2_sha256(password.as_bytes(), email.as_bytes(), config.iterations))
        },
        KdfKind::Argon2id => {
            let memory = match config.memory {
                Some(m) => m,
                None => {
                    return Err(LoginError::UnsupportedKdf);
                },
            };
            let parallelism = match config.parallelism {
                Some(p) => p,
                None => {
                    return Err(LoginError::UnsupportedKdf);
                },
            };
            let salt = sha256(email.as_bytes());
            match argon2id_hash(password.as_bytes(), salt.as_slice(), memory * 1024, config.iterations, parallelism) {
                Some(key) => Ok(key),
                None => Err(LoginError::DerivationFailure),
            }
        },
    }
}

/// Law: master-key derivation is deterministic. Any two keys that satisfy the
/// derivation's postcondition for the same password, email and configuration
/// are byte-identical.
pub proof fn lemma_derive_master_key_deterministic(
    password: Seq<char>,
    email: Seq<char>,
    c: KdfConfig,
    k1: Seq<u8>,
    k2: Seq<u8>,
)
    requires
        k1 == spec_master_key(password, email, c),
        k2 == spec_master_key(password, email, c),
    ensures
        k1 == k2,
{
}

// ----- stage B: stretching into the two sub-keys -----

/// The ASCII bytes of the HKDF info label `"enc"`.
pub open spec fn spec_enc_info() -> Seq<u8> {
    seq![101u8, 110u8, 99u8]
}

/// The ASCII bytes of the HKDF info label `"mac"`.
pub open spec fn spec_mac_info() -> Seq<u8> {
    seq![109u8, 97u8, 99u8]
}

/// What the encryption key of a master key is: HKDF-SHA256 expansion under
/// the `"enc"` label.
pub open spec fn spec_enc_key(mk: Seq<u8>) -> Seq<u8> {
    spec_hkdf_sha256_expand(mk, spec_enc_info())
}

/// What the MAC key of a master key is: HKDF-SHA256 expansion under the
/// `"mac"` label.
pub open spec fn spec_mac_key(mk: Seq<u8>) -> Seq<u8> {
    spec_hkdf_sha256_expand(mk, spec_mac_info())
}

/// The expanded key material of one login attempt: exactly 32 bytes of
/// encryption key and 32 bytes of MAC key.
#[derive(Debug, Clone, PartialEq, Eq)]
pub struct MasterKeyMaterial {
    pub encryption_key: Vec<u8>,
    pub mac_key: Vec<u8>,
}

impl MasterKeyMaterial {
    /// Both sub-keys are exactly 32 bytes.
    pub open spec fn wf(&self) -> bool {
        self.encryption_key@.len() == 32 && self.mac_key@.len() == 32
    }
}

/// Expand a 32-byte master key into its encryption and MAC sub-keys, with the
/// master key as the HKDF pseudorandom key and no salt. Deterministic: the
/// two outputs are functions of the master key alone, under the two distinct
/// labels.
pub fn stretch(master_key: &Vec<u8>) -> (r: MasterKeyMaterial)
    requires
        master_key@.len() == 32,
    ensures
        r.wf(),
        r.encryption_key@ == spec_enc_key(master_key@),
        r.mac_key@ == spec_mac_key(master_key@),
{
    let enc_info: Vec<u8> = vec![101u8, 110u8, 99u8];
    let mac_info: Vec<u8> = vec![109u8, 97u8, 99u8];
    proof {
        assert(enc_info@ =~= spec_enc_info());
        assert(mac_info@ =~= spec_mac_info());
    }
    let encryption_key = hkdf_sha256_expand32(master_key.as_slice(), enc_info.as_slice());
    let mac_key = hkdf_sha256_expand32(master_key.as_slice(), mac_info.as_slice());
    MasterKeyMaterial { encryption_key, mac_key }
}

// ----- the two password-verification hashes -----

/// What each verification hash is for: proving password knowledge to the
/// server, or verifying locally without network access.
#[derive(Debug, Clone, Copy, PartialEq, Eq, Structural)]
pub enum HashPurpose {
    ServerAuthorization,
    LocalAuthorization,
}

/// The fixed, protocol-constant round count of each purpose: 1 for the server
/// hash, 2 for the local hash. Distinct by design, so the two hashes are
/// distinguishable even though both come from the same master key.
pub open spec fn spec_purpose_rounds(p: HashPurpose) -> u32 {
    match p {
        HashPurpose::ServerAuthorization => 1,
        HashPurpose::LocalAuthorization => 2,
    }
}

impl HashPurpose {
    /// Exec mirror of [`spec_purpose_rounds`].
    pub fn iterations(&self) -> (r: u32)
        ensures
            r == spec_purpose_rounds(*self),
    {
        match self {
            HashPurpose::ServerAuthorization => 1,
            HashPurpose::LocalAuthorization => 2,
        }
    }
}

/// What a verification hash is: PBKDF2-HMAC-SHA256 with the master key as the
/// password, the account password as the salt, and the purpose's fixed round
/// count.
pub open spec fn spec_auth_hash(master_key: Seq<u8>, password: Seq<char>, p: HashPurpose) -> Seq<u8> {
    spec_pbkdf2_sha256(master_key, encode_utf8(password), spec_purpose_rounds(p))
}

/// Compute the 32-byte password-verification hash of a master key for the
/// given purpose. Recomputing from the same inputs is idempotent, and the two
/// purposes hash under different round counts.
pub fn auth_hash(master_key: &Vec<u8>, password: &str, purpose: HashPurpose) -> (r: Vec<u8>)
    ensures
        r@ == spec_auth_hash(master_key@, password@, purpose),
        r@.len() == 32,
{
    pbkdf2_sha256(master_key.as_slice(), password.as_bytes(), purpose.iterations())
}

/// Law: the server and local verification hashes of one (master key,
/// password) pair are PBKDF2 expansions under the fixed round counts 1 and
/// 2 respectively — distinct counts, so the protocol can tell the two hashes
/// apart. That the primitive maps distinct round counts to distinct bytes is
/// a property of PBKDF2 itself, checked by test.
pub proof fn lemma_auth_hash_purposes_distinct(master_key: Seq<u8>, password: Seq<char>)
    ensures
        spec_auth_hash(master_key, password, HashPurpose::ServerAuthorization)
            == spec_pbkdf2_sha256(master_key, encode_utf8(password), 1),
        spec_auth_hash(master_key, password, HashPurpose::LocalAuthorization)
            == spec_pbkdf2_sha256(master_key, encode_utf8(password), 2),
        spec_purpose_rounds(HashPurpose::ServerAuthorization)
            != spec_purpose_rounds(HashPurpose::LocalAuthorization),
{
}

/// Law: the two stretched sub-keys expand the same master key under
/// distinct info labels — the structural half of the guarantee that the
/// encryption and MAC key material do not alias. That HKDF maps the two
/// labels to different bytes is a property of the primitive itself, checked
/// by test.
pub proof fn lemma_stretch_uses_distinct_labels(master_key: Seq<u8>)
    ensures
        spec_enc_key(master_key) == spec_hkdf_sha256_expand(master_key, spec_enc_info()),
        spec_mac_key(master_key) == spec_hkdf_sha256_expand(master_key, spec_mac_info()),
        spec_enc_info() != spec_mac_info(),
{
    assert(spec_enc_info()[0] != spec_mac_info()[0]);
}

// ----- base64, as the wire needs it -----

/// The 62 characters the two base64 alphabets share.
pub const B64_ALPHANUM: [char; 62] = [
    'A', 'B', 'C', 'D', 'E', 'F', 'G', 'H', 'I', 'J', 'K', 'L', 'M',
    'N', 'O', 'P', 'Q', 'R', 'S', 'T', 'U', 'V', 'W', 'X', 'Y', 'Z',
    'a', 'b', 'c', 'd', 'e', 'f', 'g', 'h', 'i', 'j', 'k', 'l', 'm',
    'n', 'o', 'p', 'q', 'r', 's', 't', 'u', 'v', 'w', 'x', 'y', 'z',
    '0', '1', '2', '3', '4', '5', '6', '7', '8', '9',
];

/// The character a six-bit value encodes to, in an alphabet whose last two
/// characters are `c62` and `c63`.
pub open spec fn spec_b64_char(i: int, c62: char, c63: char) -> char {
    if i < 62 {
        B64_ALPHANUM@[i]
    } else if i == 62 {
        c62
    } else {
        c63
    }
}

/// Base64 without padding: each full 3-byte group becomes 4 characters, a
/// trailing byte becomes 2, and two trailing bytes become 3, zero-filling the
/// last six-bit value.
pub open spec fn spec_b64_groups(data: Seq<u8>, c62: char, c63: char) -> Seq<char>
    decreases data.len(),
{
    if data.len() == 0 {
        seq![]
    } else if data.len() == 1 {
        let b0 = data[0] as int;
        seq![
            spec_b64_char(b0 / 4, c62, c63),
            spec_b64_char((b0 % 4) * 16, c62, c63),
        ]
    } else if data.len() == 2 {
        let b0 = data[0] as int;
        let b1 = data[1] as int;
        seq![
            spec_b64_char(b0 / 4, c62, c63),
            spec_b64_char((b0 % 4) * 16 + b1 / 16, c62, c63),
            spec_b64_char((b1 % 16) * 4, c62, c63),
        ]
    } else {
        let b0 = data[0] as int;
        let b1 = data[1] as int;
        let b2 = data[2] as int;
        seq![
            spec_b64_char(b0 / 4, c62, c63),
            spec_b64_char((b0 % 4) * 16 + b1 / 16, c62, c63),
            spec_b64_char((b1 % 16) * 4 + b2 / 64, c62, c63),
            spec_b64_char(b2 % 64, c62, c63),
        ] + spec_b64_groups(data.skip(3), c62, c63)
    }
}

/// The standard base64 encoding: the `+` / `/` alphabet, padded with `=` to a
/// multiple of four characters.
pub open spec fn spec_base64_standard(data: Seq<u8>) -> Seq<char> {
    let raw = spec_b64_groups(data, '+', '/');
    if data.len() % 3 == 1 {
        raw + seq!['=', '=']
    } else if data.len() % 3 == 2 {
        raw + seq!['=']
    } else {
        raw
    }
}

/// The URL-safe base64 encoding without padding: the `-` / `_` alphabet.
pub open spec fn spec_base64_url_safe_no_pad(data: Seq<u8>) -> Seq<char> {
    spec_b64_groups(data, '-', '_')
}

/// The two base64 encodings the protocol uses.
pub struct Base64;

impl Base64 {
    /// Relies on base64's `STANDARD` engine: the canonical RFC 4648 base64
    /// encoding with the `+` / `/` alphabet and `=` padding.
    #[verifier::external_body]
    pub fn encode(input: &[u8]) -> (r: String)
        ensures
            r@ == spec_base64_standard(input@),
    {
        base64::engine::general_purpose::STANDARD.encode(input)
    }

    /// Relies on base64's `URL_SAFE_NO_PAD` engine: the RFC 4648 URL-safe
    /// alphabet (`-` / `_`) without padding.
    #[verifier::external_body]
    pub fn encode_url_safe(input: &[u8]) -> (r: String)
        ensures
            r@ == spec_base64_url_safe_no_pad(input@),
    {
        base64::engine::general_purpose::URL_SAFE_NO_PAD.encode(input)
    }
}

} // verus!
