//! Pairing-code management with an HMAC-SHA256 challenge-response.
//!
//! 1. The host issues a six-digit code (valid for 120 s) or a custom code
//!    (no expiry), shown to the user.
//! 2. On a join request the host draws a random 32-byte challenge and sends
//!    it base64-encoded.
//! 3. The client answers base64(HMAC-SHA256(key = code, data = challenge)).
//! 4. The host checks the answer with a constant-time HMAC verification. The
//!    challenge is dropped after one attempt, so an answer cannot be replayed.
//!
//! Whatever depends on the clock is also offered as a function of the elapsed
//! time since the code was issued (`*_after`), which is what the contracts
//! describe exactly.

use vstd::prelude::*;

use crate::clock;
use crate::auth::crypto::{
    base64_decode, base64_decoding, base64_encode, base64_encoding, gen_range_inclusive,
    hmac_data_limit, hmac_sha256, hmac_sha256_sign, hmac_sha256_verify, random_32_bytes,
    thread_rng,
};
use crate::text::{decimal, decimal_string};
use vstd::utf8::encode_utf8;

verus! {

/// Lifetime of a generated (non-custom) code, in seconds.
pub const CODE_EXPIRY_SECS: u64 = 120;

/// Lifetime of a generated code, in nanoseconds.
pub const CODE_EXPIRY_NANOS: u128 = 120_000_000_000;

/// Remaining lifetime reported for a custom code, in seconds.
pub const CUSTOM_CODE_EXPIRES_IN_SECS: u32 = 3600;

/// The abstract state of a `PairingManager`.
pub struct PairingState {
    /// The current code, if any.
    pub code: Option<Seq<char>>,
    /// Whether an issue time is recorded.
    pub issued: bool,
    /// The outstanding challenge, if any.
    pub challenge: Option<Seq<u8>>,
    /// Whether the code was set by the user (custom codes never expire).
    pub custom: bool,
}

/// Why the client could not answer a challenge.
#[derive(Debug, Clone, Copy, PartialEq, Eq)]
pub enum PairingError {
    /// The challenge text is not valid base64.
    InvalidChallenge,
}

/// The codes `generate_code` issues: the decimal notation of a number from
/// 100000 to 999999.
pub open spec fn is_generated_code(code: Seq<char>) -> bool {
    exists|n: nat| 100_000 <= n <= 999_999 && #[trigger] decimal(n) == code
}

/// The HMAC key derived from a code: its UTF-8 bytes.
pub open spec fn code_key(code: Seq<char>) -> Seq<u8> {
    encode_utf8(code)
}

/// Whether `response_b64` is the base64 of the HMAC-SHA256 of `challenge`
/// under `code`.
pub open spec fn response_matches(code: Seq<char>, challenge: Seq<u8>, response_b64: Seq<char>) -> bool {
    base64_decoding(response_b64) == Some(hmac_sha256(code_key(code), challenge))
}

/// Whether `challenge_b64` is valid base64 and `response_b64` answers the
/// challenge it decodes to under `code`.
pub open spec fn challenge_answered(code: Seq<char>, challenge_b64: Seq<char>, response_b64: Seq<char>) -> bool {
    match base64_decoding(challenge_b64) {
        Some(ch) => response_matches(code, ch, response_b64),
        None => false,
    }
}

/// Whether the challenge that `challenge_b64` decodes to (if any) is short
/// enough for HMAC-SHA256.
pub open spec fn challenge_hashable(challenge_b64: Seq<char>) -> bool {
    match base64_decoding(challenge_b64) {
        Some(ch) => ch.len() < hmac_data_limit(),
        None => true,
    }
}

/// The answer a client computes for `challenge_b64` under `code`, if the
/// challenge is valid base64.
pub open spec fn client_response(code: Seq<char>, challenge_b64: Seq<char>) -> Option<Seq<char>> {
    match base64_decoding(challenge_b64) {
        Some(ch) => Some(base64_encoding(hmac_sha256(code_key(code), ch))),
        None => None,
    }
}

/// Whether the code is usable `elapsed` nanoseconds after it was issued.
pub open spec fn code_live(s: PairingState, elapsed: u128) -> bool {
    &&& s.code is Some
    &&& s.issued
    &&& (s.custom || elapsed <= CODE_EXPIRY_NANOS)
}

/// What `verify_hmac_with_challenge` answers `elapsed` nanoseconds after
/// the code was issued, for a challenge short enough to hash.
pub open spec fn stateless_outcome(
    s: PairingState,
    elapsed: u128,
    challenge_b64: Seq<char>,
    response_b64: Seq<char>,
) -> bool {
    code_live(s, elapsed) && challenge_answered(s.code->0, challenge_b64, response_b64)
}

/// Whether a code, an issue time and a challenge are all present.
pub open spec fn session_open(s: PairingState) -> bool {
    s.code is Some && s.issued && s.challenge is Some
}

/// What `verify_hmac` answers `elapsed` nanoseconds after the code was issued.
pub open spec fn verify_outcome(s: PairingState, elapsed: u128, response_b64: Seq<char>) -> bool {
    session_open(s) && code_live(s, elapsed) && response_matches(
        s.code->0,
        s.challenge->0,
        response_b64,
    )
}

/// The state after `verify_hmac`: an open session loses its challenge.
pub open spec fn after_verify(s: PairingState) -> PairingState {
    if session_open(s) {
        PairingState { challenge: None, ..s }
    } else {
        s
    }
}

/// What `expires_in_secs` reports `elapsed` nanoseconds after issue.
pub open spec fn expires_in_outcome(s: PairingState, elapsed: u128) -> Option<u32> {
    if s.custom {
        Some(CUSTOM_CODE_EXPIRES_IN_SECS)
    } else if s.issued {
        let secs = elapsed / 1_000_000_000;
        if secs < CODE_EXPIRY_SECS {
            Some((CODE_EXPIRY_SECS - secs) as u32)
        } else {
            Some(0u32)
        }
    } else {
        None
    }
}

/// Holds the current pairing code and the outstanding challenge.
pub struct PairingManager {
    current_code: Option<String>,
    issued_at: Option<std::time::Instant>,
    /// Server-side challenge bytes; cleared after first use or expiry.
    active_challenge: Option<[u8; 32]>,
    is_custom: bool,
}

impl View for PairingManager {
    type V = PairingState;

    closed spec fn view(&self) -> PairingState {
        PairingState {
            code: match self.current_code {
                Some(c) => Some(c@),
                None => None,
            },
            issued: self.issued_at is Some,
            challenge: match self.active_challenge {
                Some(ch) => Some(ch@),
                None => None,
            },
            custom: self.is_custom,
        }
    }
}

/// Whether `response_b64` answers `challenge` under `code`. HMAC-SHA256
/// cannot hash data of `hmac_data_limit()` bytes or more; such a challenge
/// is never answered.
pub fn response_accepted(code: &str, challenge: &[u8], response_b64: &str) -> (ok: bool)
    ensures
        ok ==> response_matches(code@, challenge@, response_b64@),
        (challenge@.len() < hmac_data_limit() && response_matches(
            code@,
            challenge@,
            response_b64@,
        )) ==> ok,
{
    let response = match base64_decode(response_b64) {
        Ok(r) => r,
        Err(_) => return false,
    };
    match hmac_sha256_verify(code.as_bytes(), challenge, response.as_slice()) {
        Ok(()) => true,
        Err(_) => false,
    }
}

/// The client's answer to a challenge: the base64 of the HMAC-SHA256 of the
/// decoded challenge under the pairing code, which the host accepts.
pub fn compute_hmac_response(pairing_code: &str, challenge_b64: &str) -> (r: Result<
    String,
    PairingError,
>)
    requires
        challenge_b64.len() < hmac_data_limit(),
    ensures
        match r {
            Ok(resp) => client_response(pairing_code@, challenge_b64@) == Some(resp@)
                && challenge_answered(pairing_code@, challenge_b64@, resp@),
            Err(e) => e == PairingError::InvalidChallenge && base64_decoding(challenge_b64@) is None,
        },
{
    let challenge = match base64_decode(challenge_b64) {
        Ok(c) => c,
        Err(_) => return Err(PairingError::InvalidChallenge),
    };
    let tag = hmac_sha256_sign(pairing_code.as_bytes(), challenge.as_slice());
    Ok(base64_encode(tag.as_slice()))
}

impl PairingManager {
    /// No code, no challenge.
    pub fn new() -> (m: Self)
        ensures
            m@ == (PairingState { code: None, issued: false, challenge: None, custom: false }),
    {
        PairingManager { current_code: None, issued_at: None, active_challenge: None, is_custom: false }
    }

    /// Generates a new random six-digit code, valid for 120 s, and drops any
    /// outstanding challenge.
    pub fn generate_code(&mut self) -> (code: String)
        ensures
            is_generated_code(code@),
            final(self)@ == (PairingState {
                code: Some(code@),
                issued: true,
                challenge: None,
                custom: false,
            }),
    {
        let mut rng = thread_rng();
        let n = gen_range_inclusive(&mut rng, 100_000, 999_999);
        let code = decimal_string(n);
        assert(decimal(n as nat) == code@);
        self.current_code = Some(code.clone());
        self.issued_at = Some(clock::now());
        self.active_challenge = None;
        self.is_custom = false;
        code
    }

    /// Sets a custom code, which never expires, and drops any outstanding
    /// challenge.
    pub fn set_code(&mut self, code: String)
        ensures
            final(self)@ == (PairingState {
                code: Some(code@),
                issued: true,
                challenge: None,
                custom: true,
            }),
    {
        self.current_code = Some(code);
        self.issued_at = Some(clock::now());
        self.active_challenge = None;
        self.is_custom = true;
    }

    /// Nanoseconds since the code was issued, read from the clock; 0 when no
    /// issue time is recorded.
    fn elapsed_nanos(&self) -> (e: u128)
        ensures
            self.issued_at is None ==> e == 0,
    {
        match &self.issued_at {
            Some(t) => clock::nanos_since(t),
            None => 0,
        }
    }

    /// Whether the code is usable `elapsed_nanos` after it was issued.
    pub fn valid_after(&self, elapsed_nanos: u128) -> (ok: bool)
        ensures
            ok == code_live(self@, elapsed_nanos),
    {
        match (&self.current_code, &self.issued_at) {
            (Some(_), Some(_)) => self.is_custom || elapsed_nanos <= CODE_EXPIRY_NANOS,
            _ => false,
        }
    }

    /// Whether a code is present and, unless it is custom, not older than
    /// 120 s by the clock.
    pub fn has_valid_code(&self) -> (ok: bool)
        ensures
            exists|e: u128| ok == code_live(self@, e),
            ok ==> self@.code is Some && self@.issued,
            (self@.code is Some && self@.issued && self@.custom) ==> ok,
    {
        let e = self.elapsed_nanos();
        let ok = self.valid_after(e);
        assert(ok == code_live(self@, e));
        ok
    }

    /// Draws a fresh challenge if a valid code is present; it replaces any
    /// outstanding one. Returns it base64-encoded.
    pub fn generate_challenge(&mut self) -> (r: Option<String>)
        ensures
            r is None ==> final(self)@ == old(self)@ && !(old(self)@.code is Some && old(
                self,
            )@.issued && old(self)@.custom),
            r matches Some(text) ==> {
                &&& old(self)@.code is Some
                &&& old(self)@.issued
                &&& final(self)@.challenge matches Some(ch) && ch.len() == 32 && text@
                    == base64_encoding(ch) && base64_decoding(text@) == Some(ch)
                &&& text@.len() == 44
                &&& vstd::utf8::is_ascii_chars(text@)
                &&& final(self)@ == (PairingState { challenge: final(self)@.challenge, ..old(self)@ })
            },
    {
        if !self.has_valid_code() {
            return None;
        }
        let mut rng = thread_rng();
        let challenge = random_32_bytes(&mut rng);
        let encoded = base64_encode(vstd::array::array_as_slice(&challenge));
        self.active_challenge = Some(challenge);
        Some(encoded)
    }

    /// Checks the client's answer against the outstanding challenge,
    /// `elapsed_nanos` after the code was issued. An open session loses its
    /// challenge whatever the outcome.
    pub fn verify_hmac_after(&mut self, elapsed_nanos: u128, response_b64: &str) -> (ok: bool)
        ensures
            ok == verify_outcome(old(self)@, elapsed_nanos, response_b64@),
            final(self)@ == after_verify(old(self)@),
    {
        let (code, challenge) = match (&self.current_code, &self.issued_at, &self.active_challenge) {
            (Some(c), Some(_), Some(ch)) => (c.clone(), *ch),
            _ => return false,
        };
        if !self.is_custom && elapsed_nanos > CODE_EXPIRY_NANOS {
            self.active_challenge = None;
            return false;
        }
        self.active_challenge = None;
        response_accepted(code.as_str(), vstd::array::array_as_slice(&challenge), response_b64)
    }

    /// Checks the client's answer against the outstanding challenge, by the
    /// clock. The challenge is dropped after this one attempt.
    pub fn verify_hmac(&mut self, response_b64: &str) -> (ok: bool)
        ensures
            exists|e: u128| ok == verify_outcome(old(self)@, e, response_b64@),
            final(self)@ == after_verify(old(self)@),
    {
        let e = self.elapsed_nanos();
        self.verify_hmac_after(e, response_b64)
    }

    /// Drops the code and the challenge.
    pub fn invalidate(&mut self)
        ensures
            final(self)@ == (PairingState { code: None, issued: false, challenge: None, custom: false }),
    {
        self.current_code = None;
        self.issued_at = None;
        self.active_challenge = None;
        self.is_custom = false;
    }

    /// A fresh challenge for a valid code, base64-encoded, without storing it.
    pub fn generate_challenge_stateless(&self) -> (r: Option<String>)
        ensures
            r is Some ==> self@.code is Some && self@.issued,
            (self@.code is Some && self@.issued && self@.custom) ==> r is Some,
            r matches Some(text) ==> exists|ch: Seq<u8>|
                ch.len() == 32 && text@ == #[trigger] base64_encoding(ch),
    {
        if !self.has_valid_code() {
            return None;
        }
        let mut rng = thread_rng();
        let challenge = random_32_bytes(&mut rng);
        let encoded = base64_encode(vstd::array::array_as_slice(&challenge));
        assert(encoded@ == base64_encoding(challenge@));
        Some(encoded)
    }

    /// Checks an answer to a challenge the host handed out without storing
    /// it, `elapsed_nanos` after the code was issued.
    pub fn verify_hmac_with_challenge_after(
        &self,
        elapsed_nanos: u128,
        challenge_b64: &str,
        response_b64: &str,
    ) -> (ok: bool)
        ensures
            ok ==> stateless_outcome(self@, elapsed_nanos, challenge_b64@, response_b64@),
            challenge_hashable(challenge_b64@) ==> ok == stateless_outcome(
                self@,
                elapsed_nanos,
                challenge_b64@,
                response_b64@,
            ),
    {
        let code = match (&self.current_code, &self.issued_at) {
            (Some(c), Some(_)) => c,
            _ => return false,
        };
        if !self.is_custom && elapsed_nanos > CODE_EXPIRY_NANOS {
            return false;
        }
        let challenge = match base64_decode(challenge_b64) {
            Ok(c) => c,
            Err(_) => return false,
        };
        response_accepted(code.as_str(), challenge.as_slice(), response_b64)
    }

    /// Checks an answer to a challenge the host handed out without storing
    /// it, by the clock.
    pub fn verify_hmac_with_challenge(&self, challenge_b64: &str, response_b64: &str) -> (ok: bool)
        ensures
            ok ==> self@.code is Some && self@.issued && challenge_answered(
                self@.code->0,
                challenge_b64@,
                response_b64@,
            ),
            (self@.code is Some && self@.issued && self@.custom && challenge_hashable(challenge_b64@)
                && challenge_answered(self@.code->0, challenge_b64@, response_b64@)) ==> ok,
    {
        let e = self.elapsed_nanos();
        let ok = self.verify_hmac_with_challenge_after(e, challenge_b64, response_b64);
        ok
    }

    /// The code if it is usable `elapsed_nanos` after it was issued.
    pub fn current_code_after(&self, elapsed_nanos: u128) -> (r: Option<String>)
        ensures
            match r {
                Some(c) => code_live(self@, elapsed_nanos) && self@.code == Some(c@),
                None => !code_live(self@, elapsed_nanos),
            },
    {
        if self.valid_after(elapsed_nanos) {
            self.current_code.clone()
        } else {
            None
        }
    }

    /// The code if it is valid by the clock.
    pub fn current_code(&self) -> (r: Option<String>)
        ensures
            r matches Some(c) ==> self@.code == Some(c@) && self@.issued,
            (self@.code is Some && self@.issued && self@.custom) ==> r is Some,
            !(self@.code is Some && self@.issued) ==> r is None,
    {
        let e = self.elapsed_nanos();
        self.current_code_after(e)
    }

    /// Seconds left before the code expires, `elapsed_nanos` after issue:
    /// 3600 for a custom code, 0 once expired, `None` with no issue time.
    pub fn expires_in_secs_after(&self, elapsed_nanos: u128) -> (r: Option<u32>)
        ensures
            r == expires_in_outcome(self@, elapsed_nanos),
    {
        if self.is_custom {
            Some(CUSTOM_CODE_EXPIRES_IN_SECS)
        } else if self.issued_at.is_some() {
            let elapsed = elapsed_nanos / 1_000_000_000;
            if elapsed < CODE_EXPIRY_SECS as u128 {
                Some((CODE_EXPIRY_SECS as u128 - elapsed) as u32)
            } else {
                Some(0)
            }
        } else {
            None
        }
    }

    /// Seconds left before the code expires, by the clock.
    pub fn expires_in_secs(&self) -> (r: Option<u32>)
        ensures
            exists|e: u128| r == expires_in_outcome(self@, e),
            self@.custom ==> r == Some(CUSTOM_CODE_EXPIRES_IN_SECS),
            (!self@.custom && !self@.issued) ==> r is None,
            (!self@.custom && self@.issued) ==> (r is Some && r->0 <= CODE_EXPIRY_SECS),
    {
        let e = self.elapsed_nanos();
        self.expires_in_secs_after(e)
    }
}

/// How a pairing code is shown to the user when sharing starts.
pub struct CodeAnnouncement {
    /// The text shown in place of the code.
    pub code: String,
    /// Seconds the code stays valid, as shown.
    pub expires_in: u32,
}

/// Shown validity of a stored unattended PIN.
pub const UNATTENDED_PIN_EXPIRES_IN: u32 = 999_999;

/// The state after `invalidate`.
pub open spec fn no_code_state() -> PairingState {
    PairingState { code: None, issued: false, challenge: None, custom: false }
}

/// The state after `set_code(code)`.
pub open spec fn custom_code_state(code: Seq<char>) -> PairingState {
    PairingState { code: Some(code), issued: true, challenge: None, custom: true }
}

/// The state after `generate_code` returned `code`.
pub open spec fn generated_code_state(code: Seq<char>) -> PairingState {
    PairingState { code: Some(code), issued: true, challenge: None, custom: false }
}

/// Whether a stored unattended PIN is present and not empty.
pub open spec fn pin_usable(pin: Option<String>) -> bool {
    match pin {
        Some(p) => p@.len() > 0,
        None => false,
    }
}

impl PairingManager {
    /// Chooses the code for a sharing session and announces it. In
    /// unattended mode a non-empty stored PIN becomes the (custom) code and
    /// is shown masked, valid for 999999 s; without one the manager is left
    /// without a code and "None (Unsecured)" is shown with 0 s. Otherwise a
    /// fresh six-digit code is generated and shown with its 120 s.
    pub fn announce_code(&mut self, unattended: bool, stored_pin: Option<String>) -> (a:
        CodeAnnouncement)
        ensures
            unattended && pin_usable(stored_pin) ==> {
                &&& final(self)@ == custom_code_state(stored_pin->0@)
                &&& a.code@ == "********"@
                &&& a.expires_in == UNATTENDED_PIN_EXPIRES_IN
            },
            unattended && !pin_usable(stored_pin) ==> {
                &&& final(self)@ == no_code_state()
                &&& a.code@ == "None (Unsecured)"@
                &&& a.expires_in == 0
            },
            !unattended ==> {
                &&& is_generated_code(a.code@)
                &&& final(self)@ == generated_code_state(a.code@)
                &&& a.expires_in == CODE_EXPIRY_SECS
            },
    {
        if unattended {
            match stored_pin {
                Some(pin) => {
                    if !pin.as_str().is_empty() {
                        self.set_code(pin);
                        CodeAnnouncement {
                            code: String::from_str("********"),
                            expires_in: UNATTENDED_PIN_EXPIRES_IN,
                        }
                    } else {
                        self.invalidate();
                        CodeAnnouncement { code: String::from_str("None (Unsecured)"), expires_in: 0 }
                    }
                },
                None => {
                    self.invalidate();
                    CodeAnnouncement { code: String::from_str("None (Unsecured)"), expires_in: 0 }
                },
            }
        } else {
            let code = self.generate_code();
            CodeAnnouncement { code, expires_in: CODE_EXPIRY_SECS as u32 }
        }
    }

    /// Sets up the code of a command-line sharing session: none in
    /// unattended mode, the code given on the command line if any, else a
    /// freshly generated one. Returns the code in force.
    pub fn start_session_code(&mut self, unattended: bool, custom: Option<String>) -> (r: Option<
        String,
    >)
        ensures
            unattended ==> r is None && final(self)@ == no_code_state(),
            !unattended && custom is Some ==> r is Some && r->0@ == custom->0@ && final(self)@
                == custom_code_state(custom->0@),
            !unattended && custom is None ==> r is Some && is_generated_code(r->0@)
                && final(self)@ == generated_code_state(r->0@),
    {
        if unattended {
            self.invalidate();
            None
        } else {
            match custom {
                Some(c) => {
                    let shown = c.clone();
                    self.set_code(c);
                    Some(shown)
                },
                None => Some(self.generate_code()),
            }
        }
    }
}

/// The answer a client computes for the challenge text the host sent is
/// accepted while the code is live: a response whose base64 decodes to the
/// HMAC-SHA256 of the decoded challenge under the code verifies.
pub proof fn lemma_challenge_response_round_trip(
    s: PairingState,
    elapsed: u128,
    challenge_b64: Seq<char>,
    response_b64: Seq<char>,
)
    requires
        session_open(s),
        code_live(s, elapsed),
        base64_decoding(challenge_b64) == Some(s.challenge->0),
        challenge_answered(s.code->0, challenge_b64, response_b64),
    ensures
        verify_outcome(s, elapsed, response_b64),
        verify_outcome(after_verify(s), elapsed, response_b64) == false,
{
}

/// A challenge text as `generate_challenge` gives it, 44 ASCII
/// characters, is short enough for `compute_hmac_response` to answer.
pub proof fn lemma_challenge_text_fits(t: &str)
    requires
        t@.len() == 44,
        vstd::utf8::is_ascii_chars(t@),
    ensures
        t.len() < hmac_data_limit(),
{
    vstd::string::is_ascii_spec_bytes(t);
}

/// A challenge is good for one attempt: after `verify_hmac`, whatever it
/// answered, no response verifies until a new challenge is drawn.
pub proof fn lemma_challenge_single_use(s: PairingState, elapsed: u128, response_b64: Seq<char>)
    ensures
        !verify_outcome(after_verify(s), elapsed, response_b64),
        after_verify(after_verify(s)) == after_verify(s),
{
}

/// After `invalidate`, no code is valid, none is reported, and no expiry is
/// reported, whatever time has passed.
pub proof fn lemma_invalidated_manager_has_no_code(elapsed: u128)
    ensures
        !code_live(PairingState { code: None, issued: false, challenge: None, custom: false }, elapsed),
        expires_in_outcome(
            PairingState { code: None, issued: false, challenge: None, custom: false },
            elapsed,
        ) is None,
{
}

/// A custom code never expires: it stays valid and reports 3600 seconds left
/// whatever time has passed.
pub proof fn lemma_custom_code_never_expires(s: PairingState, elapsed: u128)
    requires
        s.code is Some,
        s.issued,
        s.custom,
    ensures
        code_live(s, elapsed),
        expires_in_outcome(s, elapsed) == Some(CUSTOM_CODE_EXPIRES_IN_SECS),
{
}

/// A generated code is valid for exactly 120 seconds, and the remaining time
/// reported counts down the whole seconds left, reaching 0 once 120 whole
/// seconds have passed.
pub proof fn lemma_generated_code_expiry(s: PairingState, elapsed: u128)
    requires
        s.code is Some,
        s.issued,
        !s.custom,
    ensures
        code_live(s, elapsed) <==> elapsed <= CODE_EXPIRY_NANOS,
        expires_in_outcome(s, elapsed) == Some(
            if elapsed / 1_000_000_000 < 120 { (120 - elapsed / 1_000_000_000) as u32 } else { 0u32 },
        ),
        expires_in_outcome(s, elapsed) == Some(0u32) <==> elapsed >= CODE_EXPIRY_NANOS,
{
}

} // verus!
