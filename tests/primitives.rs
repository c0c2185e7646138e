use todo_api::otp::{check_otp_expiry, generate_otp, otp_is_fresh, OtpExpiryError};
use todo_api::password::{hash_password, verify_password, PasswordError};
use todo_api::text::{contains_substring, parse_bearer, title_matches};
use todo_api::token::{check_claims_expiry, decode_jwt, encode_jwt, issue_claims, TokenError};

#[test]
fn password_hash_verifies_only_the_password() {
    let h = hash_password("hunter2").unwrap();
    assert!(h.starts_with("$argon2id$"));
    assert_ne!(h, "hunter2");
    assert_eq!(verify_password(&h, "hunter2"), Ok(true));
    assert_eq!(verify_password(&h, "hunter3"), Ok(false));
    assert_eq!(verify_password("not a hash", "hunter2"), Err(PasswordError::VerificationError));
}

#[test]
fn token_valid_for_two_hours() {
    let secret = b"s3cret";
    let t = 1_700_000_000u64;
    let token = encode_jwt("a@x.com", t, secret);
    assert_eq!(token.split('.').count(), 3);
    let c = decode_jwt(&token, secret, t).unwrap();
    assert_eq!(c.email, "a@x.com");
    assert_eq!(c.iat, t);
    assert_eq!(c.exp, t + 7200);
    assert!(decode_jwt(&token, secret, t + 7200).is_ok());
    assert_eq!(decode_jwt(&token, secret, t + 7201).unwrap_err(), TokenError::Expired);
    assert_eq!(decode_jwt(&token, b"other", t).unwrap_err(), TokenError::Invalid);
    assert_eq!(decode_jwt("garbage", secret, t).unwrap_err(), TokenError::Invalid);
}

#[test]
fn claims_expiry_boundary() {
    let c = issue_claims("a@x.com", 100);
    assert_eq!(c.exp, 7300);
    assert_eq!(c.iat, 100);
    assert!(check_claims_expiry(c, 7300).is_ok());
    let c = issue_claims("a@x.com", 100);
    assert_eq!(check_claims_expiry(c, 7301).unwrap_err(), TokenError::Expired);
}

#[test]
fn otp_codes_are_digits_of_requested_length() {
    for n in [0usize, 1, 5, 12] {
        let code = generate_otp(n);
        assert_eq!(code.chars().count(), n);
        assert!(code.chars().all(|c| c.is_ascii_digit()));
    }
}

#[test]
fn otp_window_is_four_minutes() {
    assert!(otp_is_fresh(1000, 1240));
    assert!(!otp_is_fresh(1000, 1241));
    assert!(otp_is_fresh(1000, 900));
}

#[test]
fn otp_expiry_from_timestamp_text() {
    let recent = chrono::Utc::now().to_rfc3339();
    assert_eq!(check_otp_expiry(&recent), Ok(()));
    let old = (chrono::Utc::now() - chrono::Duration::minutes(5)).to_rfc3339();
    assert_eq!(check_otp_expiry(&old), Err(OtpExpiryError::Expired));
    assert_eq!(check_otp_expiry("yesterday"), Err(OtpExpiryError::InvalidDatetime));
}

#[test]
fn bearer_header_parsing() {
    assert_eq!(parse_bearer("Bearer abc.def"), Some("abc.def".to_string()));
    assert_eq!(parse_bearer("\tBearer\u{3000}tok  more"), Some("tok".to_string()));
    assert_eq!(parse_bearer("Bearer"), None);
    assert_eq!(parse_bearer("Bearer   "), None);
    assert_eq!(parse_bearer("Token abc"), None);
    assert_eq!(parse_bearer("BearerX abc"), None);
    assert_eq!(parse_bearer(""), None);
}

#[test]
fn substring_search() {
    assert!(contains_substring("groceries", "cer"));
    assert!(contains_substring("abc", ""));
    assert!(contains_substring("", ""));
    assert!(!contains_substring("", "a"));
    assert!(!contains_substring("ab", "abc"));
    assert!(contains_substring("aab", "ab"));
    assert!(!contains_substring("Groceries", "groc"));
    assert!(title_matches("Groceries", "GROC"));
    assert!(title_matches("ÉTÉ", "été"));
    assert!(!title_matches("Taxes", "groc"));
}
