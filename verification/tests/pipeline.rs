//! End-to-end tests of the HMAC driver, run against a software provider built
//! on the hmac, sha2 and sha3 crates.

use hmac::Hmac;
use hmac::KeyInit;
use hmac::Mac;
use hmac::SimpleHmac;
use sha2::Sha256;
use sha2::Sha384;
use sha2::Sha512;
use sha3::Sha3_256;
use sha3::Sha3_384;
use sha3::Sha3_512;

use hmac_driver::alg::Error;
use hmac_driver::alg::HmacAlgorithm;
use hmac_driver::alg::hmac_alg_to_hmac_len;
use hmac_driver::driver::Action;
use hmac_driver::driver::Event;
use hmac_driver::driver::HmacDriver;
use hmac_driver::driver::Outcome;

const ALL_ALGS: [HmacAlgorithm; 6] = [
    HmacAlgorithm::HMAC_SHA2_256,
    HmacAlgorithm::HMAC_SHA2_384,
    HmacAlgorithm::HMAC_SHA2_512,
    HmacAlgorithm::HMAC_SHA3_256,
    HmacAlgorithm::HMAC_SHA3_384,
    HmacAlgorithm::HMAC_SHA3_512,
];

enum Ctx {
    S256(Hmac<Sha256>),
    S384(Hmac<Sha384>),
    S512(Hmac<Sha512>),
    K256(SimpleHmac<Sha3_256>),
    K384(SimpleHmac<Sha3_384>),
    K512(SimpleHmac<Sha3_512>),
}

/// A provider in software: performs each action the driver asks for and
/// answers with the matching event. Can be told to fail the key import or to
/// report a wrong output length, to exercise the driver's failure paths.
struct SoftProvider {
    key: Vec<u8>,
    ctx: Option<Ctx>,
    fail_import_with: Option<u64>,
    misreport_final_len: bool,
    actions_seen: Vec<String>,
}

impl SoftProvider {
    fn new() -> SoftProvider {
        SoftProvider {
            key: Vec::new(),
            ctx: None,
            fail_import_with: None,
            misreport_final_len: false,
            actions_seen: Vec::new(),
        }
    }

    fn perform(&mut self, action: Action) -> Event {
        match action {
            Action::EnsureInitialized => {
                self.actions_seen.push(String::from("ensure_initialized"));
                Event::Initialized
            }
            Action::AcquireSlot => {
                self.actions_seen.push(String::from("acquire_slot"));
                Event::SlotAcquired(11)
            }
            Action::ImportKey { key, .. } => {
                self.actions_seen.push(String::from("import_key"));
                if let Some(code) = self.fail_import_with {
                    return Event::ProviderFailed(code);
                }
                self.key = key;
                Event::KeyImported(22)
            }
            Action::CreateContext { mechanism, .. } => {
                self.actions_seen.push(String::from("create_context"));
                let ctx = match mechanism {
                    0x251 => Ctx::S256(Hmac::<Sha256>::new_from_slice(&self.key).unwrap()),
                    0x261 => Ctx::S384(Hmac::<Sha384>::new_from_slice(&self.key).unwrap()),
                    0x271 => Ctx::S512(Hmac::<Sha512>::new_from_slice(&self.key).unwrap()),
                    0x2b1 => Ctx::K256(SimpleHmac::<Sha3_256>::new_from_slice(&self.key).unwrap()),
                    0x2c1 => Ctx::K384(SimpleHmac::<Sha3_384>::new_from_slice(&self.key).unwrap()),
                    0x2d1 => Ctx::K512(SimpleHmac::<Sha3_512>::new_from_slice(&self.key).unwrap()),
                    _ => return Event::ProviderFailed(0x70),
                };
                self.ctx = Some(ctx);
                Event::ContextCreated(33)
            }
            Action::Feed { data, .. } => {
                self.actions_seen.push(String::from("feed"));
                match self.ctx.as_mut().unwrap() {
                    Ctx::S256(m) => m.update(&data),
                    Ctx::S384(m) => m.update(&data),
                    Ctx::S512(m) => m.update(&data),
                    Ctx::K256(m) => m.update(&data),
                    Ctx::K384(m) => m.update(&data),
                    Ctx::K512(m) => m.update(&data),
                }
                Event::Fed
            }
            Action::Finalize { mut digest, .. } => {
                self.actions_seen.push(String::from("finalize"));
                let out: Vec<u8> = match self.ctx.take().unwrap() {
                    Ctx::S256(m) => m.finalize().into_bytes().as_slice().to_vec(),
                    Ctx::S384(m) => m.finalize().into_bytes().as_slice().to_vec(),
                    Ctx::S512(m) => m.finalize().into_bytes().as_slice().to_vec(),
                    Ctx::K256(m) => m.finalize().into_bytes().as_slice().to_vec(),
                    Ctx::K384(m) => m.finalize().into_bytes().as_slice().to_vec(),
                    Ctx::K512(m) => m.finalize().into_bytes().as_slice().to_vec(),
                };
                let written = out.len().min(digest.len());
                digest[..written].copy_from_slice(&out[..written]);
                let reported = if self.misreport_final_len {
                    (written as u32) + 1
                } else {
                    written as u32
                };
                Event::Finalized(digest, reported)
            }
        }
    }
}

enum RunResult {
    Tag(Vec<u8>),
    Failed(Error),
    Aborted,
}

/// Runs one HMAC computation through the driver against a provider.
fn run_with(provider: &mut SoftProvider, alg: &HmacAlgorithm, key: &[u8], data: &[u8]) -> RunResult {
    let started = match HmacDriver::start(alg, key.to_vec(), data.to_vec()) {
        Ok(pair) => pair,
        Err(e) => return RunResult::Failed(e),
    };
    let (mut driver, mut action) = started;
    loop {
        let event = provider.perform(action);
        match driver.step(event) {
            Outcome::Next(next) => action = next,
            Outcome::Done(tag) => return RunResult::Tag(tag),
            Outcome::Fail(e) => return RunResult::Failed(e),
            Outcome::Fatal => return RunResult::Aborted,
        }
    }
}

fn hmac_of(alg: &HmacAlgorithm, key: &[u8], data: &[u8]) -> Vec<u8> {
    match run_with(&mut SoftProvider::new(), alg, key, data) {
        RunResult::Tag(tag) => tag,
        RunResult::Failed(_) => panic!("pipeline failed"),
        RunResult::Aborted => panic!("pipeline aborted"),
    }
}

fn one_eager<D: hmac::EagerHash>(key: &[u8], data: &[u8]) -> Vec<u8> {
    let mut m = Hmac::<D>::new_from_slice(key).unwrap();
    m.update(data);
    m.finalize().into_bytes().as_slice().to_vec()
}

fn one_simple<D: hmac::digest::Digest + hmac::digest::common::BlockSizeUser>(
    key: &[u8],
    data: &[u8],
) -> Vec<u8> {
    let mut m = SimpleHmac::<D>::new_from_slice(key).unwrap();
    m.update(data);
    m.finalize().into_bytes().as_slice().to_vec()
}

/// The same computation made directly with the hmac crate, as an oracle.
fn direct_hmac(alg: &HmacAlgorithm, key: &[u8], data: &[u8]) -> Vec<u8> {
    match alg {
        HmacAlgorithm::HMAC_SHA2_256 => one_eager::<Sha256>(key, data),
        HmacAlgorithm::HMAC_SHA2_384 => one_eager::<Sha384>(key, data),
        HmacAlgorithm::HMAC_SHA2_512 => one_eager::<Sha512>(key, data),
        HmacAlgorithm::HMAC_SHA3_256 => one_simple::<Sha3_256>(key, data),
        HmacAlgorithm::HMAC_SHA3_384 => one_simple::<Sha3_384>(key, data),
        HmacAlgorithm::HMAC_SHA3_512 => one_simple::<Sha3_512>(key, data),
    }
}

#[test]
fn known_answer_sha2_256_quick_brown_fox() {
    let tag = hmac_of(
        &HmacAlgorithm::HMAC_SHA2_256,
        b"key",
        b"The quick brown fox jumps over the lazy dog",
    );
    assert_eq!(
        hex::encode(&tag),
        "f7bc83f430538424b13298e6aa6fb143ef4d59a14946175997479dbc2d1a3cd8"
    );
}

#[test]
fn known_answer_rfc4231_case1_sha2_256() {
    let key = vec![0x0bu8; 20];
    let tag = hmac_of(&HmacAlgorithm::HMAC_SHA2_256, &key, b"Hi There");
    assert_eq!(
        hex::encode(&tag),
        "b0344c61d8db38535ca8afceaf0bf12b881dc200c9833da726e9376c2e32cff7"
    );
}

#[test]
fn known_answer_rfc4231_case1_sha2_384() {
    let key = vec![0x0bu8; 20];
    let tag = hmac_of(&HmacAlgorithm::HMAC_SHA2_384, &key, b"Hi There");
    assert_eq!(
        hex::encode(&tag),
        "afd03944d84895626b0825f4ab46907f15f9dadbe4101ec682aa034c7cebc59cfaea9ea9076ede7f4af152e8b2fa9cb6"
    );
}

#[test]
fn known_answer_rfc4231_case1_sha2_512() {
    let key = vec![0x0bu8; 20];
    let tag = hmac_of(&HmacAlgorithm::HMAC_SHA2_512, &key, b"Hi There");
    assert_eq!(
        hex::encode(&tag),
        "87aa7cdea5ef619d4ff0b4241a1d6cb02379f4e2ce4ec2787ad0b30545e17cdedaa833b7d6b8a702038b274eaea3f4e4be9d914eeb61f1702e696c203a126854"
    );
}

#[test]
fn pipeline_matches_direct_computation_for_every_algorithm() {
    let key = b"a moderately long test key, longer than one block of the hash";
    let data = b"some message bytes for the cross-check";
    for alg in &ALL_ALGS {
        let via_driver = hmac_of(alg, key, data);
        let direct = direct_hmac(alg, key, data);
        assert_eq!(via_driver, direct);
    }
}

#[test]
fn tag_length_equals_expected_length_for_every_algorithm() {
    for alg in &ALL_ALGS {
        let expected = hmac_alg_to_hmac_len(alg).unwrap();
        let tag = hmac_of(alg, b"key", b"data");
        assert_eq!(tag.len(), expected);
    }
}

#[test]
fn repeated_runs_return_byte_identical_tags() {
    for alg in &ALL_ALGS {
        let first = hmac_of(alg, b"fixed key", b"fixed data");
        let second = hmac_of(alg, b"fixed key", b"fixed data");
        assert_eq!(first, second);
    }
}

#[test]
fn flipping_any_key_bit_changes_the_tag() {
    let key = b"abc";
    let data = b"hello";
    let base = hmac_of(&HmacAlgorithm::HMAC_SHA2_256, key, data);
    for byte in 0..key.len() {
        for bit in 0..8 {
            let mut flipped = key.to_vec();
            flipped[byte] ^= 1u8 << bit;
            let tag = hmac_of(&HmacAlgorithm::HMAC_SHA2_256, &flipped, data);
            assert_ne!(base, tag);
        }
    }
}

#[test]
fn flipping_any_data_bit_changes_the_tag() {
    let key = b"abc";
    let data = b"hello";
    let base = hmac_of(&HmacAlgorithm::HMAC_SHA3_512, key, data);
    for byte in 0..data.len() {
        for bit in 0..8 {
            let mut flipped = data.to_vec();
            flipped[byte] ^= 1u8 << bit;
            let tag = hmac_of(&HmacAlgorithm::HMAC_SHA3_512, key, &flipped);
            assert_ne!(base, tag);
        }
    }
}

#[test]
fn empty_data_produces_the_hmac_of_the_empty_message() {
    let tag = hmac_of(&HmacAlgorithm::HMAC_SHA2_256, b"", b"");
    assert_eq!(
        hex::encode(&tag),
        "b613679a0814d9ec772f95d778c35fc5ff1697c493715653c6c712144292c5ad"
    );
}

#[test]
fn empty_data_is_accepted_by_every_algorithm() {
    for alg in &ALL_ALGS {
        let expected = hmac_alg_to_hmac_len(alg).unwrap();
        let tag = hmac_of(alg, b"some key", b"");
        assert_eq!(tag.len(), expected);
        assert_eq!(tag, direct_hmac(alg, b"some key", b""));
    }
}

#[test]
fn import_failure_surfaces_provider_error_and_stops_the_pipeline() {
    let mut provider = SoftProvider::new();
    provider.fail_import_with = Some(0x70);
    let result = run_with(&mut provider, &HmacAlgorithm::HMAC_SHA2_256, b"key", b"data");
    match result {
        RunResult::Failed(Error::ProviderError(code)) => assert_eq!(code, 0x70),
        _ => panic!("expected a provider error"),
    }
    assert!(provider.actions_seen.contains(&String::from("import_key")));
    assert!(!provider.actions_seen.contains(&String::from("create_context")));
    assert!(!provider.actions_seen.contains(&String::from("feed")));
    assert!(!provider.actions_seen.contains(&String::from("finalize")));
}

#[test]
fn misreported_output_length_aborts_instead_of_returning_a_tag() {
    let mut provider = SoftProvider::new();
    provider.misreport_final_len = true;
    let result = run_with(&mut provider, &HmacAlgorithm::HMAC_SHA2_256, b"key", b"data");
    assert!(matches!(result, RunResult::Aborted));
}

#[test]
fn an_event_out_of_order_is_fatal() {
    let (mut driver, _action) =
        HmacDriver::start(&HmacAlgorithm::HMAC_SHA2_256, b"key".to_vec(), b"data".to_vec())
            .unwrap();
    let outcome = driver.step(Event::Fed);
    assert!(matches!(outcome, Outcome::Fatal));
}
