//! Algorithm resolution: mapping each HMAC variant to its provider mechanism
//! code, its underlying hash algorithm, and the hash's output length.
//!
//! All three mappings are pure, total and exhaustive over the six variants.

use vstd::prelude::*;

verus! {

/// The supported HMAC variants. A stateless tag that selects both a provider
/// mechanism code and an expected output length.
#[allow(non_camel_case_types)]
#[derive(Clone, Copy, Debug, PartialEq, Eq, Structural)]
pub enum HmacAlgorithm {
    HMAC_SHA2_256,
    HMAC_SHA2_384,
    HMAC_SHA2_512,
    HMAC_SHA3_256,
    HMAC_SHA3_384,
    HMAC_SHA3_512,
}

/// The underlying hash algorithm of an HMAC variant, used solely to look up
/// the digest output length.
#[allow(non_camel_case_types)]
#[derive(Clone, Copy, Debug, PartialEq, Eq, Structural)]
pub enum HashAlgorithm {
    SHA2_256,
    SHA2_384,
    SHA2_512,
    SHA3_256,
    SHA3_384,
    SHA3_512,
}

/// The driver's error taxonomy.
#[derive(Clone, Copy, Debug, PartialEq, Eq, Structural)]
pub enum Error {
    /// The message length exceeds the provider's 32-bit length field.
    /// Detected locally, before any provider interaction.
    InputTooLarge,
    /// A failure surfaced by a provider call, carrying the provider's native
    /// error code. Never retried.
    ProviderError(u64),
    /// Defensive only: an algorithm tag outside the exhaustive mappings.
    /// Unreachable while the mappings cover every variant.
    UnsupportedAlgorithm,
}

/// PKCS#11 mechanism code for HMAC over SHA-256.
pub const CKM_SHA256_HMAC: u64 = 0x251;

/// PKCS#11 mechanism code for HMAC over SHA-384.
pub const CKM_SHA384_HMAC: u64 = 0x261;

/// PKCS#11 mechanism code for HMAC over SHA-512.
pub const CKM_SHA512_HMAC: u64 = 0x271;

/// PKCS#11 mechanism code for HMAC over SHA3-256.
pub const CKM_SHA3_256_HMAC: u64 = 0x2b1;

/// PKCS#11 mechanism code for HMAC over SHA3-384.
pub const CKM_SHA3_384_HMAC: u64 = 0x2c1;

/// PKCS#11 mechanism code for HMAC over SHA3-512.
pub const CKM_SHA3_512_HMAC: u64 = 0x2d1;

/// PKCS#11 attribute code that scopes a key object for signing use.
pub const CKA_SIGN: u64 = 0x108;

/// The PKCS#11 mechanism code of an HMAC variant.
pub open spec fn spec_ckm(alg: HmacAlgorithm) -> u64 {
    match alg {
        HmacAlgorithm::HMAC_SHA2_256 => CKM_SHA256_HMAC,
        HmacAlgorithm::HMAC_SHA2_384 => CKM_SHA384_HMAC,
        HmacAlgorithm::HMAC_SHA2_512 => CKM_SHA512_HMAC,
        HmacAlgorithm::HMAC_SHA3_256 => CKM_SHA3_256_HMAC,
        HmacAlgorithm::HMAC_SHA3_384 => CKM_SHA3_384_HMAC,
        HmacAlgorithm::HMAC_SHA3_512 => CKM_SHA3_512_HMAC,
    }
}

/// The underlying hash algorithm of an HMAC variant.
pub open spec fn spec_hash_of(alg: HmacAlgorithm) -> HashAlgorithm {
    match alg {
        HmacAlgorithm::HMAC_SHA2_256 => HashAlgorithm::SHA2_256,
        HmacAlgorithm::HMAC_SHA2_384 => HashAlgorithm::SHA2_384,
        HmacAlgorithm::HMAC_SHA2_512 => HashAlgorithm::SHA2_512,
        HmacAlgorithm::HMAC_SHA3_256 => HashAlgorithm::SHA3_256,
        HmacAlgorithm::HMAC_SHA3_384 => HashAlgorithm::SHA3_384,
        HmacAlgorithm::HMAC_SHA3_512 => HashAlgorithm::SHA3_512,
    }
}

/// The digest output length of a hash algorithm, in bytes.
pub open spec fn spec_hash_len(alg: HashAlgorithm) -> usize {
    match alg {
        HashAlgorithm::SHA2_256 => 32,
        HashAlgorithm::SHA2_384 => 48,
        HashAlgorithm::SHA2_512 => 64,
        HashAlgorithm::SHA3_256 => 32,
        HashAlgorithm::SHA3_384 => 48,
        HashAlgorithm::SHA3_512 => 64,
    }
}

/// The expected HMAC tag length of an HMAC variant, in bytes.
pub open spec fn spec_hmac_len(alg: HmacAlgorithm) -> usize {
    spec_hash_len(spec_hash_of(alg))
}

/// Resolves an HMAC variant to its provider mechanism code. Total: succeeds
/// on every variant.
pub fn hmac_alg_to_ckm(alg: &HmacAlgorithm) -> (r: Result<u64, Error>)
    ensures
        r == Ok::<u64, Error>(spec_ckm(*alg)),
{
    match alg {
        HmacAlgorithm::HMAC_SHA2_256 => Ok(CKM_SHA256_HMAC),
        HmacAlgorithm::HMAC_SHA2_384 => Ok(CKM_SHA384_HMAC),
        HmacAlgorithm::HMAC_SHA2_512 => Ok(CKM_SHA512_HMAC),
        HmacAlgorithm::HMAC_SHA3_256 => Ok(CKM_SHA3_256_HMAC),
        HmacAlgorithm::HMAC_SHA3_384 => Ok(CKM_SHA3_384_HMAC),
        HmacAlgorithm::HMAC_SHA3_512 => Ok(CKM_SHA3_512_HMAC),
    }
}

/// Resolves an HMAC variant to its underlying hash algorithm. Total: succeeds
/// on every variant.
pub fn hmac_alg_to_hash_alg(alg: &HmacAlgorithm) -> (r: Result<HashAlgorithm, Error>)
    ensures
        r == Ok::<HashAlgorithm, Error>(spec_hash_of(*alg)),
{
    match alg {
        HmacAlgorithm::HMAC_SHA2_256 => Ok(HashAlgorithm::SHA2_256),
        HmacAlgorithm::HMAC_SHA2_384 => Ok(HashAlgorithm::SHA2_384),
        HmacAlgorithm::HMAC_SHA2_512 => Ok(HashAlgorithm::SHA2_512),
        HmacAlgorithm::HMAC_SHA3_256 => Ok(HashAlgorithm::SHA3_256),
        HmacAlgorithm::HMAC_SHA3_384 => Ok(HashAlgorithm::SHA3_384),
        HmacAlgorithm::HMAC_SHA3_512 => Ok(HashAlgorithm::SHA3_512),
    }
}

/// Looks up the digest output length of a hash algorithm. Total: succeeds on
/// every variant.
pub fn hash_alg_to_hash_len(alg: &HashAlgorithm) -> (r: Result<usize, Error>)
    ensures
        r == Ok::<usize, Error>(spec_hash_len(*alg)),
{
    match alg {
        HashAlgorithm::SHA2_256 => Ok(32),
        HashAlgorithm::SHA2_384 => Ok(48),
        HashAlgorithm::SHA2_512 => Ok(64),
        HashAlgorithm::SHA3_256 => Ok(32),
        HashAlgorithm::SHA3_384 => Ok(48),
        HashAlgorithm::SHA3_512 => Ok(64),
    }
}

/// Resolves an HMAC variant to its expected tag length, by composing the hash
/// mapping with the length lookup. Total: succeeds on every variant.
pub fn hmac_alg_to_hmac_len(alg: &HmacAlgorithm) -> (r: Result<usize, Error>)
    ensures
        r == Ok::<usize, Error>(spec_hmac_len(*alg)),
{
    let hash_alg = hmac_alg_to_hash_alg(alg)?;
    hash_alg_to_hash_len(&hash_alg)
}

/// Law: every algorithm's expected tag length is the fixed constant of its
/// hash family: 32 bytes for the 256-bit family, 48 for 384, 64 for 512.
pub proof fn lemma_expected_lengths()
    ensures
        spec_hmac_len(HmacAlgorithm::HMAC_SHA2_256) == 32,
        spec_hmac_len(HmacAlgorithm::HMAC_SHA2_384) == 48,
        spec_hmac_len(HmacAlgorithm::HMAC_SHA2_512) == 64,
        spec_hmac_len(HmacAlgorithm::HMAC_SHA3_256) == 32,
        spec_hmac_len(HmacAlgorithm::HMAC_SHA3_384) == 48,
        spec_hmac_len(HmacAlgorithm::HMAC_SHA3_512) == 64,
{
}

} // verus!
