//! The privacy kernel: what the user has consented to, and encryption of
//! what is kept. Everything is opted out of until the user says otherwise.

use vstd::prelude::*;
use vstd::slice::slice_to_vec;
use crate::clock::now_timestamp;
use crate::text::same_text;

verus! {

/// The bytes of a key.
pub const KEY_BYTES: usize = 32;

/// The bytes of a nonce.
pub const NONCE_BYTES: usize = 24;

/// The bytes by which a ciphertext is longer than its plaintext.
pub const TAG_BYTES: usize = 16;

/// That consent for a capability was withdrawn, and why.
#[derive(Debug)]
pub struct ConsentRevocation {
    pub capability: String,
    pub revoked_at: i64,
    pub reason: Option<String>,
}

/// What the user has opted into, since when, and what was withdrawn.
#[derive(Debug)]
pub struct ConsentLedger {
    pub opt_in_cloud_sync: bool,
    pub opt_in_behavioral_logging: bool,
    pub opt_in_emotion_detection: bool,
    pub opt_in_automation: bool,
    pub consent_timestamp: i64,
    pub revocation_history: Vec<ConsentRevocation>,
}

impl Clone for ConsentRevocation {
    fn clone(&self) -> (r: Self)
        ensures
            r == *self,
    {
        ConsentRevocation {
            capability: self.capability.clone(),
            revoked_at: self.revoked_at,
            reason: crate::text::clone_option(&self.reason),
        }
    }
}

impl Clone for ConsentLedger {
    fn clone(&self) -> (r: Self)
        ensures
            r@ == self@,
    {
        let mut history: Vec<ConsentRevocation> = Vec::new();
        let mut i: usize = 0;
        while i < self.revocation_history.len()
            invariant
                i <= self.revocation_history.len(),
                history@ == self.revocation_history@.subrange(0, i as int),
            decreases self.revocation_history.len() - i,
        {
            history.push(self.revocation_history[i].clone());
            i += 1;
        }
        assert(self.revocation_history@.subrange(0, self.revocation_history@.len() as int)
            == self.revocation_history@);
        ConsentLedger {
            opt_in_cloud_sync: self.opt_in_cloud_sync,
            opt_in_behavioral_logging: self.opt_in_behavioral_logging,
            opt_in_emotion_detection: self.opt_in_emotion_detection,
            opt_in_automation: self.opt_in_automation,
            consent_timestamp: self.consent_timestamp,
            revocation_history: history,
        }
    }
}

/// What a ledger holds.
pub struct LedgerView {
    pub opt_in_cloud_sync: bool,
    pub opt_in_behavioral_logging: bool,
    pub opt_in_emotion_detection: bool,
    pub opt_in_automation: bool,
    pub consent_timestamp: i64,
    pub revocation_history: Seq<ConsentRevocation>,
}

impl View for ConsentLedger {
    type V = LedgerView;

    open spec fn view(&self) -> LedgerView {
        LedgerView {
            opt_in_cloud_sync: self.opt_in_cloud_sync,
            opt_in_behavioral_logging: self.opt_in_behavioral_logging,
            opt_in_emotion_detection: self.opt_in_emotion_detection,
            opt_in_automation: self.opt_in_automation,
            consent_timestamp: self.consent_timestamp,
            revocation_history: self.revocation_history@,
        }
    }
}

/// The ledger made at `now`: everything is opted out of.
pub open spec fn fresh_ledger(now: i64) -> LedgerView {
    LedgerView {
        opt_in_cloud_sync: false,
        opt_in_behavioral_logging: false,
        opt_in_emotion_detection: false,
        opt_in_automation: false,
        consent_timestamp: now,
        revocation_history: Seq::empty(),
    }
}

/// A ledger with `capability` opted into; a name that stands for no
/// capability changes nothing.
pub open spec fn granted(ledger: LedgerView, capability: Seq<char>) -> LedgerView {
    LedgerView {
        opt_in_cloud_sync: ledger.opt_in_cloud_sync || capability == "cloud_sync"@,
        opt_in_behavioral_logging: ledger.opt_in_behavioral_logging || capability
            == "behavioral_logging"@,
        opt_in_emotion_detection: ledger.opt_in_emotion_detection || capability
            == "emotion_detection"@,
        opt_in_automation: ledger.opt_in_automation || capability == "automation"@,
        ..ledger
    }
}

/// A ledger after `capability` was withdrawn at `now` for `reason`: the
/// capability is opted out of, and the revocation is noted behind the earlier
/// ones. A name that stands for no capability is noted all the same.
pub open spec fn revoked(
    ledger: LedgerView,
    capability: String,
    reason: Option<String>,
    now: i64,
) -> LedgerView {
    LedgerView {
        opt_in_cloud_sync: ledger.opt_in_cloud_sync && capability@ != "cloud_sync"@,
        opt_in_behavioral_logging: ledger.opt_in_behavioral_logging && capability@
            != "behavioral_logging"@,
        opt_in_emotion_detection: ledger.opt_in_emotion_detection && capability@
            != "emotion_detection"@,
        opt_in_automation: ledger.opt_in_automation && capability@ != "automation"@,
        consent_timestamp: ledger.consent_timestamp,
        revocation_history: ledger.revocation_history.push(
            ConsentRevocation { capability, revoked_at: now, reason },
        ),
    }
}

impl ConsentLedger {
    /// A ledger made at `now`, with everything opted out of.
    pub fn new_at(now: i64) -> (r: Self)
        ensures
            r@ == fresh_ledger(now),
    {
        ConsentLedger {
            opt_in_cloud_sync: false,
            opt_in_behavioral_logging: false,
            opt_in_emotion_detection: false,
            opt_in_automation: false,
            consent_timestamp: now,
            revocation_history: Vec::new(),
        }
    }

    /// A ledger made at the time the clock reads, with everything opted out
    /// of.
    pub fn new() -> (r: Self)
        ensures
            exists|now: i64| r@ == fresh_ledger(now),
            !r.opt_in_cloud_sync,
    {
        ConsentLedger::new_at(now_timestamp())
    }

    /// Opts into `capability`; a name that stands for no capability changes
    /// nothing.
    pub fn grant(&mut self, capability: &str)
        ensures
            final(self)@ == granted(old(self)@, capability@),
    {
        if same_text(capability, "cloud_sync") {
            self.opt_in_cloud_sync = true;
        } else if same_text(capability, "behavioral_logging") {
            self.opt_in_behavioral_logging = true;
        } else if same_text(capability, "emotion_detection") {
            self.opt_in_emotion_detection = true;
        } else if same_text(capability, "automation") {
            self.opt_in_automation = true;
        }
        proof {
            lemma_capability_names_differ();
        }
    }

    /// Opts out of `capability` as if the clock read `now`, and notes the
    /// revocation with its reason.
    pub fn revoke_consent_at(&mut self, capability: String, reason: Option<String>, now: i64)
        ensures
            final(self)@ == revoked(old(self)@, capability, reason, now),
    {
        if same_text(capability.as_str(), "cloud_sync") {
            self.opt_in_cloud_sync = false;
        } else if same_text(capability.as_str(), "behavioral_logging") {
            self.opt_in_behavioral_logging = false;
        } else if same_text(capability.as_str(), "emotion_detection") {
            self.opt_in_emotion_detection = false;
        } else if same_text(capability.as_str(), "automation") {
            self.opt_in_automation = false;
        }
        proof {
            lemma_capability_names_differ();
        }
        self.revocation_history.push(ConsentRevocation { capability, revoked_at: now, reason });
    }

    /// Opts out of `capability` and notes the revocation, with its reason, at
    /// the time the clock reads.
    pub fn revoke_consent(&mut self, capability: String, reason: Option<String>)
        ensures
            exists|now: i64| final(self)@ == #[trigger] revoked(old(self)@, capability, reason, now),
    {
        let now = now_timestamp();
        self.revoke_consent_at(capability, reason, now);
    }

    /// Whether data may be synchronised to the cloud.
    pub fn can_sync_to_cloud(&self) -> (r: bool)
        ensures
            r == self@.opt_in_cloud_sync,
    {
        self.opt_in_cloud_sync
    }
}

/// The four names of capabilities are four different texts.
pub proof fn lemma_capability_names_differ()
    ensures
        "cloud_sync"@ != "behavioral_logging"@,
        "cloud_sync"@ != "emotion_detection"@,
        "cloud_sync"@ != "automation"@,
        "behavioral_logging"@ != "emotion_detection"@,
        "behavioral_logging"@ != "automation"@,
        "emotion_detection"@ != "automation"@,
{
    reveal_strlit("cloud_sync");
    reveal_strlit("behavioral_logging");
    reveal_strlit("emotion_detection");
    reveal_strlit("automation");
    assert("cloud_sync"@.len() == 10);
    assert("behavioral_logging"@.len() == 18);
    assert("emotion_detection"@.len() == 17);
    assert("automation"@.len() == 10);
    assert("cloud_sync"@[0] == 'c');
    assert("automation"@[0] == 'a');
}

impl Default for ConsentLedger {
    fn default() -> (r: Self)
        ensures
            exists|now: i64| r@ == fresh_ledger(now),
            !r.opt_in_cloud_sync,
    {
        ConsentLedger::new()
    }
}

/// The ciphertext that secretbox makes of a message under a nonce and a key.
pub uninterp spec fn sealed(message: Seq<u8>, nonce: Seq<u8>, key: Seq<u8>) -> Seq<u8>;

/// The message that secretbox recovers from a ciphertext under a nonce and a
/// key, if the ciphertext is authentic.
pub uninterp spec fn opened(ciphertext: Seq<u8>, nonce: Seq<u8>, key: Seq<u8>) -> Option<Seq<u8>>;

/// Whether `sodiumoxide::init` succeeded. Nothing is claimed of the answer.
#[verifier::external_body]
fn sodium_ready() -> bool {
    sodiumoxide::init().is_ok()
}

/// A key from `sodiumoxide::crypto::secretbox::gen_key`, as plain bytes. The
/// bytes are random; all that is claimed is that there are 32 of them.
#[verifier::external_body]
fn fresh_key() -> (key: Vec<u8>)
    ensures
        key@.len() == KEY_BYTES,
{
    sodiumoxide::crypto::secretbox::gen_key().0.to_vec()
}

/// A nonce from `sodiumoxide::crypto::secretbox::gen_nonce`, as plain bytes.
/// The bytes are random; all that is claimed is that there are 24 of them.
#[verifier::external_body]
fn fresh_nonce() -> (nonce: Vec<u8>)
    ensures
        nonce@.len() == NONCE_BYTES,
{
    sodiumoxide::crypto::secretbox::gen_nonce().0.to_vec()
}

/// `sodiumoxide::crypto::secretbox::seal` on plain bytes. The ciphertext
/// depends on the message, the nonce and the key alone, and is 16 bytes longer
/// than the message. The nonce must have 24 bytes and the key 32, the sizes
/// that `from_slice` accepts.
#[verifier::external_body]
fn seal_with(message: &[u8], nonce: &[u8], key: &[u8]) -> (ciphertext: Vec<u8>)
    requires
        nonce@.len() == NONCE_BYTES,
        key@.len() == KEY_BYTES,
        message@.len() + TAG_BYTES <= usize::MAX,
    ensures
        ciphertext@ == sealed(message@, nonce@, key@),
        ciphertext@.len() == message@.len() + TAG_BYTES,
{
    let nonce = sodiumoxide::crypto::secretbox::Nonce::from_slice(nonce).unwrap();
    let key = sodiumoxide::crypto::secretbox::Key::from_slice(key).unwrap();
    sodiumoxide::crypto::secretbox::seal(message, &nonce, &key)
}

/// `sodiumoxide::crypto::secretbox::open` on plain bytes. Whether the
/// ciphertext is accepted, and the message that comes out, depend on the
/// ciphertext, the nonce and the key alone. The nonce must have 24 bytes and
/// the key 32.
#[verifier::external_body]
fn open_with(ciphertext: &[u8], nonce: &[u8], key: &[u8]) -> (message: Option<Vec<u8>>)
    requires
        nonce@.len() == NONCE_BYTES,
        key@.len() == KEY_BYTES,
    ensures
        match message {
            Some(m) => opened(ciphertext@, nonce@, key@) == Some(m@),
            None => opened(ciphertext@, nonce@, key@) is None,
        },
{
    let nonce = sodiumoxide::crypto::secretbox::Nonce::from_slice(nonce).unwrap();
    let key = sodiumoxide::crypto::secretbox::Key::from_slice(key).unwrap();
    sodiumoxide::crypto::secretbox::open(ciphertext, &nonce, &key).ok()
}

/// What encryption under `key` with `nonce` gives: the nonce, then the
/// ciphertext.
pub open spec fn encrypted_form(message: Seq<u8>, nonce: Seq<u8>, key: Seq<u8>) -> Seq<u8> {
    nonce + sealed(message, nonce, key)
}

/// What decryption under `key` recovers, given what secretbox made of the
/// ciphertext behind the nonce.
pub open spec fn decrypted_form(encrypted: Seq<u8>, key: Seq<u8>) -> Result<Seq<u8>, Seq<char>> {
    if encrypted.len() < NONCE_BYTES {
        Err("Encrypted data too short"@)
    } else {
        match opened(
            encrypted.subrange(NONCE_BYTES as int, encrypted.len() as int),
            encrypted.subrange(0, NONCE_BYTES as int),
            key,
        ) {
            Some(message) => Ok(message),
            None => Err("Decryption failed: ()"@),
        }
    }
}

/// Encrypts and decrypts under one key that it holds.
pub struct EncryptionManager {
    key: Vec<u8>,
}

impl EncryptionManager {
    /// The key.
    pub closed spec fn key(&self) -> Seq<u8> {
        self.key@
    }

    /// The key has the size that secretbox asks for.
    #[verifier::type_invariant]
    pub open spec fn wf(self) -> bool {
        self.key().len() == KEY_BYTES
    }

    /// A manager with a fresh random key; fails where the cryptographic
    /// library cannot be initialised.
    pub fn new() -> (r: Result<Self, String>)
        ensures
            match r {
                Ok(manager) => manager.key().len() == KEY_BYTES,
                Err(e) => e@ == "Failed to init sodiumoxide: ()"@,
            },
    {
        if !sodium_ready() {
            return Err("Failed to init sodiumoxide: ()".to_string());
        }
        Ok(EncryptionManager { key: fresh_key() })
    }

    /// Encrypts `data` with the nonce given: the result is the nonce followed
    /// by the ciphertext. Fails where the nonce has not 24 bytes.
    pub fn encrypt_with_nonce(&self, data: &[u8], nonce: &[u8]) -> (r: Result<Vec<u8>, String>)
        requires
            data@.len() + NONCE_BYTES + TAG_BYTES <= usize::MAX,
        ensures
            match r {
                Ok(bytes) => nonce@.len() == NONCE_BYTES && bytes@ == encrypted_form(
                    data@,
                    nonce@,
                    self.key(),
                ) && bytes@.len() == data@.len() + NONCE_BYTES + TAG_BYTES,
                Err(e) => nonce@.len() != NONCE_BYTES && e@ == "Invalid nonce"@,
            },
    {
        proof {
            use_type_invariant(self);
        }
        if nonce.len() != NONCE_BYTES {
            return Err("Invalid nonce".to_string());
        }
        let ciphertext = seal_with(data, nonce, self.key.as_slice());
        let mut result = slice_to_vec(nonce);
        result.extend_from_slice(ciphertext.as_slice());
        assert(result@ =~= nonce@ + ciphertext@);
        Ok(result)
    }

    /// Encrypts `data` with a fresh random nonce: the result is the nonce
    /// followed by the ciphertext.
    pub fn encrypt(&self, data: &[u8]) -> (r: Result<Vec<u8>, String>)
        requires
            data@.len() + NONCE_BYTES + TAG_BYTES <= usize::MAX,
        ensures
            r matches Ok(bytes) && bytes@.len() == data@.len() + NONCE_BYTES + TAG_BYTES && exists|
                nonce: Seq<u8>,
            |
                nonce.len() == NONCE_BYTES && bytes@ == #[trigger] encrypted_form(
                    data@,
                    nonce,
                    self.key(),
                ),
    {
        let nonce = fresh_nonce();
        self.encrypt_with_nonce(data, nonce.as_slice())
    }

    /// Decrypts what `encrypt` made: the first 24 bytes are the nonce, the
    /// rest is the ciphertext. Fails where there are fewer than 24 bytes, and
    /// where the ciphertext is not authentic.
    pub fn decrypt(&self, encrypted: &[u8]) -> (r: Result<Vec<u8>, String>)
        ensures
            match r {
                Ok(message) => decrypted_form(encrypted@, self.key()) == Ok::<Seq<u8>, Seq<char>>(
                    message@,
                ),
                Err(e) => decrypted_form(encrypted@, self.key()) == Err::<Seq<u8>, Seq<char>>(e@),
            },
    {
        proof {
            use_type_invariant(self);
        }
        if encrypted.len() < NONCE_BYTES {
            return Err("Encrypted data too short".to_string());
        }
        let (nonce, ciphertext) = encrypted.split_at(NONCE_BYTES);
        match open_with(ciphertext, nonce, self.key.as_slice()) {
            Some(message) => Ok(message),
            None => Err("Decryption failed: ()".to_string()),
        }
    }
}

} // verus!
