use beacon_pulse::auth::pairing::{compute_hmac_response, PairingError, PairingManager};

fn is_six_digit_code(code: &str) -> bool {
    code.len() == 6 && code.chars().all(|c| c.is_ascii_digit()) && !code.starts_with('0')
}

#[test]
fn new_manager_has_no_code() {
    let pm = PairingManager::new();
    assert!(!pm.has_valid_code());
    assert_eq!(pm.current_code(), None);
    assert_eq!(pm.expires_in_secs(), None);
}

#[test]
fn generated_code_is_six_digits_and_expires_in_120s() {
    let mut pm = PairingManager::new();
    let code = pm.generate_code();
    assert!(is_six_digit_code(&code), "bad code {}", code);
    let n: u32 = code.parse().unwrap();
    assert!((100_000..=999_999).contains(&n));
    assert!(pm.has_valid_code());
    assert_eq!(pm.current_code(), Some(code));
    let left = pm.expires_in_secs().unwrap();
    assert!(left <= 120 && left >= 119, "left {}", left);
}

#[test]
fn generated_code_is_valid_until_120s_after_issue() {
    let mut pm = PairingManager::new();
    pm.generate_code();
    assert!(pm.valid_after(0));
    assert!(pm.valid_after(120_000_000_000));
    assert!(!pm.valid_after(120_000_000_001));
    assert_eq!(pm.expires_in_secs_after(0), Some(120));
    assert_eq!(pm.expires_in_secs_after(1_500_000_000), Some(119));
    assert_eq!(pm.expires_in_secs_after(119_999_999_999), Some(1));
    assert_eq!(pm.expires_in_secs_after(120_000_000_000), Some(0));
    assert_eq!(pm.current_code_after(121_000_000_000), None);
}

#[test]
fn custom_code_never_expires() {
    let mut pm = PairingManager::new();
    pm.set_code("424242".to_string());
    assert_eq!(pm.current_code(), Some("424242".to_string()));
    assert_eq!(pm.expires_in_secs(), Some(3600));
    assert!(pm.valid_after(u128::MAX));
    assert_eq!(pm.expires_in_secs_after(10_000_000_000_000), Some(3600));
}

#[test]
fn invalidate_drops_the_code() {
    let mut pm = PairingManager::new();
    pm.set_code("111111".to_string());
    pm.invalidate();
    assert!(!pm.has_valid_code());
    assert_eq!(pm.current_code(), None);
    assert_eq!(pm.expires_in_secs(), None);
    assert_eq!(pm.generate_challenge(), None);
    assert_eq!(pm.generate_challenge_stateless(), None);
}

#[test]
fn client_response_matches_known_hmac() {
    let challenge = "VGhlIHF1aWNrIGJyb3duIGZveCBqdW1wcyBvdmVyIHRoZSBsYXp5IGRvZw==";
    let r = compute_hmac_response("key", challenge).unwrap();
    assert_eq!(r, "97yD9DBThCSxMpjmqm+xQ+9NWaFJRhdZl0edvC0aPNg=");
}

#[test]
fn client_response_rejects_bad_base64() {
    assert_eq!(
        compute_hmac_response("123456", "not base64!"),
        Err(PairingError::InvalidChallenge)
    );
}

#[test]
fn challenge_response_round_trip() {
    let mut pm = PairingManager::new();
    let code = pm.generate_code();
    let challenge = pm.generate_challenge().unwrap();
    assert_eq!(challenge.len(), 44);
    let response = compute_hmac_response(&code, &challenge).unwrap();
    assert!(pm.verify_hmac(&response));
}

#[test]
fn challenge_is_single_use() {
    let mut pm = PairingManager::new();
    pm.set_code("555555".to_string());
    let challenge = pm.generate_challenge().unwrap();
    let response = compute_hmac_response("555555", &challenge).unwrap();
    assert!(pm.verify_hmac(&response));
    assert!(!pm.verify_hmac(&response), "a response must not be replayable");
}

#[test]
fn wrong_code_is_rejected_and_consumes_challenge() {
    let mut pm = PairingManager::new();
    pm.set_code("123456".to_string());
    let challenge = pm.generate_challenge().unwrap();
    let wrong = compute_hmac_response("654321", &challenge).unwrap();
    assert!(!pm.verify_hmac(&wrong));
    let right = compute_hmac_response("123456", &challenge).unwrap();
    assert!(!pm.verify_hmac(&right), "the challenge was used up");
    assert!(!pm.verify_hmac("%%%"));
}

#[test]
fn expired_code_refuses_the_answer() {
    let mut pm = PairingManager::new();
    let code = pm.generate_code();
    let challenge = pm.generate_challenge().unwrap();
    let response = compute_hmac_response(&code, &challenge).unwrap();
    assert!(!pm.verify_hmac_after(120_000_000_001, &response));
}

#[test]
fn stateless_challenge_verifies_and_can_repeat() {
    let mut pm = PairingManager::new();
    pm.set_code("777777".to_string());
    let challenge = pm.generate_challenge_stateless().unwrap();
    let response = compute_hmac_response("777777", &challenge).unwrap();
    assert!(pm.verify_hmac_with_challenge(&challenge, &response));
    assert!(pm.verify_hmac_with_challenge(&challenge, &response));
    assert!(!pm.verify_hmac_with_challenge("%%", &response));
    let fixed = "AAECAwQFBgcICQoLDA0ODxAREhMUFRYXGBkaGxwdHh8=";
    let other = compute_hmac_response("123456", fixed).unwrap();
    assert_eq!(other, "wgxv5q+7DUR2Sz+CDTjMyAqnYFjmZRxzaYx8xMFntXo=");
    assert!(!pm.verify_hmac_with_challenge(fixed, &other));
}

#[test]
fn announce_code_attended_generates() {
    let mut pm = PairingManager::new();
    let a = pm.announce_code(false, Some("999".to_string()));
    assert!(is_six_digit_code(&a.code));
    assert_eq!(a.expires_in, 120);
    assert_eq!(pm.current_code(), Some(a.code.clone()));
}

#[test]
fn announce_code_unattended_with_pin_masks_it() {
    let mut pm = PairingManager::new();
    let a = pm.announce_code(true, Some("2468".to_string()));
    assert_eq!(a.code, "********");
    assert_eq!(a.expires_in, 999_999);
    assert_eq!(pm.current_code(), Some("2468".to_string()));
    assert_eq!(pm.expires_in_secs(), Some(3600));
}

#[test]
fn announce_code_unattended_without_pin_is_unsecured() {
    let mut pm = PairingManager::new();
    pm.set_code("1".to_string());
    let a = pm.announce_code(true, Some(String::new()));
    assert_eq!(a.code, "None (Unsecured)");
    assert_eq!(a.expires_in, 0);
    assert_eq!(pm.current_code(), None);
    let b = pm.announce_code(true, None);
    assert_eq!(b.code, "None (Unsecured)");
    assert_eq!(b.expires_in, 0);
}

#[test]
fn session_code_choice() {
    let mut pm = PairingManager::new();
    assert_eq!(pm.start_session_code(true, Some("12".to_string())), None);
    assert_eq!(pm.current_code(), None);
    assert_eq!(
        pm.start_session_code(false, Some("888888".to_string())),
        Some("888888".to_string())
    );
    assert_eq!(pm.expires_in_secs(), Some(3600));
    let generated = pm.start_session_code(false, None).unwrap();
    assert!(is_six_digit_code(&generated));
    assert_eq!(pm.current_code(), Some(generated));
}
