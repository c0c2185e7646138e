use todo_api::auth::{
    authorize_user, credential_decision, register_user, create_user_handler, get_user_by_email, login_handler, otp_creator_service,
    otp_fetch_service, upload_img, verify_email, AppState, UploadOutcome,
};
use todo_api::errors::{ApiError, ErrorClass};
use todo_api::models::{CreateUserSchema, LoginSchema, OtpSchema, VerifyEmailSchema};
use todo_api::otps::OtpStore;
use todo_api::password::{verify_password, PasswordError};
use todo_api::token::encode_jwt;

const NOW: u64 = 1_700_000_000;

fn state() -> AppState {
    AppState::new(b"test-secret".to_vec())
}

fn signup(username: &str, email: &str, password: &str) -> CreateUserSchema {
    CreateUserSchema {
        username: username.to_string(),
        email: email.to_string(),
        password: password.to_string(),
    }
}

#[test]
fn second_registration_with_same_email_conflicts() {
    let mut st = state();
    let first = create_user_handler(&mut st, signup("ann", "a@x.com", "pw-one"), NOW).unwrap();
    assert_eq!(first.email, "a@x.com");
    let before = get_user_by_email("a@x.com", &st.users).unwrap();
    let second = create_user_handler(&mut st, signup("bob", "a@x.com", "pw-two"), NOW + 5);
    let err = second.unwrap_err();
    assert_eq!(err, ApiError::EmailTaken);
    assert_eq!(err.class(), ErrorClass::Conflict);
    assert_eq!(err.status_code(), 400);
    let after = get_user_by_email("a@x.com", &st.users).unwrap();
    assert_eq!(before, after);
    assert_eq!(after.username, "ann");
    assert_eq!(st.users.len(), 1);
    assert_eq!(st.otps.len(), 1);
}

#[test]
fn registration_stores_hash_and_five_digit_code() {
    let mut st = state();
    let reg = create_user_handler(&mut st, signup("ann", "a@x.com", "secret"), NOW).unwrap();
    assert_eq!(reg.otp.len(), 5);
    assert!(reg.otp.chars().all(|c| c.is_ascii_digit()));
    let user = get_user_by_email("a@x.com", &st.users).unwrap();
    assert_ne!(user.password, "secret");
    assert_eq!(verify_password(&user.password, "secret"), Ok(true));
    assert_eq!(user.email_verified, Some(false));
    assert_eq!(user.created_at, Some(NOW));
    let row = otp_fetch_service(&st.otps, &reg.otp).unwrap();
    assert_eq!(row.email, "a@x.com");
    assert_eq!(row.created_at, Some(NOW));
}

fn stored_code(st: &mut AppState, email: &str, code: &str, at: u64) {
    let otp = OtpSchema { email: email.to_string(), otp: code.to_string() };
    let kept = otp_creator_service(&mut st.otps, otp, at);
    assert_eq!(kept, code);
}

fn verify(st: &mut AppState, email: &str, code: &str, at: u64) -> Result<(), ApiError> {
    verify_email(st, VerifyEmailSchema { email: email.to_string(), otp: code.to_string() }, at)
}

#[test]
fn verification_needs_matching_live_code() {
    let mut st = state();
    create_user_handler(&mut st, signup("ann", "a@x.com", "pw"), NOW).unwrap();
    stored_code(&mut st, "a@x.com", "12345", NOW);
    // wrong code, wrong email, empty code
    assert_eq!(verify(&mut st, "a@x.com", "54321", NOW + 10), Err(ApiError::InvalidOrExpiredOtp));
    assert_eq!(verify(&mut st, "b@x.com", "12345", NOW + 10), Err(ApiError::InvalidOrExpiredOtp));
    assert_eq!(verify(&mut st, "a@x.com", "", NOW + 10), Err(ApiError::InvalidOrExpiredOtp));
    // expired: more than four minutes later
    assert_eq!(verify(&mut st, "a@x.com", "12345", NOW + 241), Err(ApiError::InvalidOrExpiredOtp));
    let user = get_user_by_email("a@x.com", &st.users).unwrap();
    assert_eq!(user.email_verified, Some(false));
    // exactly four minutes is still valid
    assert_eq!(verify(&mut st, "a@x.com", "12345", NOW + 240), Ok(()));
    let user = get_user_by_email("a@x.com", &st.users).unwrap();
    assert_eq!(user.email_verified, Some(true));
    assert_eq!(user.updated_at, Some(NOW + 240));
}

#[test]
fn verification_of_unknown_user_fails() {
    let mut st = state();
    stored_code(&mut st, "ghost@x.com", "99999", NOW);
    let r = verify(&mut st, "ghost@x.com", "99999", NOW + 1);
    assert_eq!(r, Err(ApiError::UnknownEmail));
}

#[test]
fn latest_code_wins_on_collision() {
    let mut store = OtpStore::new();
    let a = OtpSchema { email: "a@x.com".to_string(), otp: "11111".to_string() };
    let b = OtpSchema { email: "b@x.com".to_string(), otp: "11111".to_string() };
    otp_creator_service(&mut store, a, NOW);
    otp_creator_service(&mut store, b, NOW + 1);
    let row = otp_fetch_service(&store, "11111").unwrap();
    assert_eq!(row.email, "b@x.com");
    assert!(otp_fetch_service(&store, "22222").is_none());
    assert_eq!(store.len(), 2);
}

fn login(st: &AppState, email: &str, password: &str, at: u64) -> Result<todo_api::auth::LoginResponse, ApiError> {
    login_handler(st, LoginSchema { email: email.to_string(), password: password.to_string() }, at)
}

#[test]
fn login_requires_verified_email() {
    let mut st = state();
    let reg = create_user_handler(&mut st, signup("ann", "a@x.com", "pw"), NOW).unwrap();
    let err = login(&st, "a@x.com", "pw", NOW + 1).unwrap_err();
    assert_eq!(err, ApiError::EmailNotVerified);
    assert_eq!(err.class(), ErrorClass::Auth);
    assert_eq!(err.status_code(), 401);
    assert_eq!(err.message(), "Please verify your email first");
    verify(&mut st, "a@x.com", &reg.otp, NOW + 2).unwrap();
    let ok = login(&st, "a@x.com", "pw", NOW + 3).unwrap();
    assert!(!ok.token.is_empty());
    assert_eq!(ok.user.email, "a@x.com");
    assert_eq!(ok.user.email_verified, Some(true));
    let who = authorize_user(&st, Some(&format!("Bearer {}", ok.token)), NOW + 4).unwrap();
    assert_eq!(who.email, "a@x.com");
}

#[test]
fn login_with_wrong_credentials_fails() {
    let mut st = state();
    create_user_handler(&mut st, signup("ann", "a@x.com", "pw"), NOW).unwrap();
    assert_eq!(login(&st, "nobody@x.com", "pw", NOW).unwrap_err(), ApiError::IncorrectCredentials);
    let err = login(&st, "a@x.com", "wrong", NOW).unwrap_err();
    assert_eq!(err, ApiError::IncorrectCredentials);
    assert_eq!(err.class(), ErrorClass::Auth);
    assert_eq!(err.status_code(), 401);
}

#[test]
fn gate_rejects_missing_or_malformed_headers() {
    let mut st = state();
    create_user_handler(&mut st, signup("ann", "a@x.com", "pw"), NOW).unwrap();
    let e = authorize_user(&st, None, NOW).unwrap_err();
    assert_eq!(e, ApiError::MissingAuthHeader);
    assert_eq!(e.class(), ErrorClass::Auth);
    assert_eq!(e.status_code(), 403);
    assert_eq!(authorize_user(&st, Some("Basic abc"), NOW).unwrap_err(), ApiError::MissingAuthHeader);
    assert_eq!(authorize_user(&st, Some("Bearer"), NOW).unwrap_err(), ApiError::MissingAuthHeader);
    assert_eq!(authorize_user(&st, Some("bearer abc"), NOW).unwrap_err(), ApiError::MissingAuthHeader);
    let e = authorize_user(&st, Some("Bearer not.a.jwt"), NOW).unwrap_err();
    assert_eq!(e, ApiError::InvalidToken);
    assert_eq!(e.status_code(), 401);
}

#[test]
fn gate_checks_signature_expiry_and_subject() {
    let mut st = state();
    create_user_handler(&mut st, signup("ann", "a@x.com", "pw"), NOW).unwrap();
    let good = encode_jwt("a@x.com", NOW, b"test-secret");
    let header = format!("  Bearer   {}  extra", good);
    assert_eq!(authorize_user(&st, Some(&header), NOW + 7200).unwrap().username, "ann");
    let expired = authorize_user(&st, Some(&header), NOW + 7201).unwrap_err();
    assert_eq!(expired, ApiError::InvalidToken);
    let forged = encode_jwt("a@x.com", NOW, b"other-secret");
    let e = authorize_user(&st, Some(&format!("Bearer {}", forged)), NOW).unwrap_err();
    assert_eq!(e, ApiError::InvalidToken);
    let stranger = encode_jwt("b@x.com", NOW, b"test-secret");
    let e = authorize_user(&st, Some(&format!("Bearer {}", stranger)), NOW).unwrap_err();
    assert_eq!(e, ApiError::NotAuthorized);
    assert_eq!(e.class(), ErrorClass::Auth);
}

#[test]
fn upload_outcomes_update_profile_image() {
    let mut st = state();
    create_user_handler(&mut st, signup("ann", "a@x.com", "pw"), NOW).unwrap();
    let user = get_user_by_email("a@x.com", &st.users).unwrap();
    assert_eq!(upload_img(&mut st, &user, UploadOutcome::NoFile, NOW), Err(ApiError::NoFileToUpload));
    assert_eq!(upload_img(&mut st, &user, UploadOutcome::Failed, NOW), Err(ApiError::UploadFailed));
    let url = "https://img.example/ann.png".to_string();
    assert_eq!(upload_img(&mut st, &user, UploadOutcome::Uploaded(url.clone()), NOW + 9), Ok(()));
    let after = get_user_by_email("a@x.com", &st.users).unwrap();
    assert_eq!(after.img, Some(url));
    assert_eq!(after.updated_at, Some(NOW + 9));
}

#[test]
fn credential_decision_outcomes() {
    let mut st = state();
    create_user_handler(&mut st, signup("ann", "a@x.com", "pw"), NOW).unwrap();
    let mut user = get_user_by_email("a@x.com", &st.users).unwrap();
    assert_eq!(credential_decision(&user, Ok(true)), Err(ApiError::EmailNotVerified));
    user.email_verified = None;
    assert_eq!(credential_decision(&user, Ok(true)), Err(ApiError::EmailNotVerified));
    user.email_verified = Some(true);
    assert_eq!(credential_decision(&user, Ok(true)), Ok(()));
    assert_eq!(credential_decision(&user, Ok(false)), Err(ApiError::IncorrectCredentials));
    let e = credential_decision(&user, Err(PasswordError::VerificationError)).unwrap_err();
    assert_eq!(e, ApiError::PasswordCheckFailed);
    assert_eq!(e.class(), ErrorClass::Internal);
    assert_eq!(e.status_code(), 500);
    assert_eq!(e.message(), "Password verification failed");
}

#[test]
fn register_with_given_hash_id_and_code_is_exact() {
    let mut st = state();
    let r = register_user(&mut st, signup("ann", "a@x.com", "pw"), "$argon2id$x".to_string(), 5, "00042".to_string(), NOW).unwrap();
    assert_eq!(r.otp, "00042");
    assert_eq!(r.email, "a@x.com");
    let u = get_user_by_email("a@x.com", &st.users).unwrap();
    assert_eq!(u.id, 5);
    assert_eq!(u.password, "$argon2id$x");
    assert_eq!(u.email_verified, Some(false));
    assert_eq!(otp_fetch_service(&st.otps, "00042").unwrap().email, "a@x.com");
    let e = register_user(&mut st, signup("bob", "b@x.com", "pw"), "h".to_string(), 5, "11111".to_string(), NOW).unwrap_err();
    assert_eq!(e, ApiError::StorageFailure);
    let e = register_user(&mut st, signup("bob", "a@x.com", "pw"), "h".to_string(), 6, "11111".to_string(), NOW).unwrap_err();
    assert_eq!(e, ApiError::EmailTaken);
    assert_eq!(st.users.len(), 1);
    assert_eq!(st.otps.len(), 1);
}
