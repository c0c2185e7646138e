//! Registration, email verification, login and the bearer-token gate.

use vstd::prelude::*;
use crate::errors::{ApiError, ErrorClass};
use crate::lists::ListRepository;
use crate::models::{
    CreateUserSchema, ListModel, LoginSchema, OtpModel, OtpSchema, UserModel, UserResponse,
    VerifyEmailSchema, user_response_of,
};
use crate::otp::{all_digits, generate_otp, otp_fresh, otp_is_fresh, OTP_LENGTH};
use crate::otps::{latest_with_code, lemma_latest_is_stored, OtpStore};
use crate::password::{
    argon2_verdict, hash_password, is_argon2id_phc, verify_password, PasswordError,
};
use crate::text::{bearer_token, parse_bearer};
use crate::token::{
    decode_jwt, encode_jwt, hs256_claims, hs256_jwt, issued_claims, token_check,
    TOKEN_LIFETIME_SECS,
};
use crate::users::{
    emails_unique, find_user, has_email, lemma_find_user_at, mark_verified, set_image,
    user_insert_outcome, verified_user, UserDirectory,
};

verus! {

/// Everything the service keeps: the three tables and the token secret.
pub struct AppState {
    pub users: UserDirectory,
    pub otps: OtpStore,
    pub lists: ListRepository,
    pub jwt_secret: Vec<u8>,
}

impl AppState {
    pub open spec fn wf(&self) -> bool {
        self.users.wf() && self.lists.wf()
    }

    /// Empty tables and the given token secret.
    pub fn new(jwt_secret: Vec<u8>) -> (r: Self)
        ensures
            r.wf(),
            r.users@ == Seq::<UserModel>::empty(),
            r.otps@ == Seq::<OtpModel>::empty(),
            r.lists@ == Seq::<ListModel>::empty(),
            r.jwt_secret@ == jwt_secret@,
    {
        AppState {
            users: UserDirectory::new(),
            otps: OtpStore::new(),
            lists: ListRepository::new(),
            jwt_secret,
        }
    }
}

/// Relies on `uuid::Uuid::new_v4` and `Uuid::as_u128`: a random UUID.
/// Nothing is known of its value.
#[verifier::external_body]
pub(crate) fn new_record_id() -> (r: u128) {
    uuid::Uuid::new_v4().as_u128()
}

/// What a successful registration hands on for mailing the passcode.
#[derive(Debug)]
pub struct Registration {
    pub username: String,
    pub email: String,
    pub otp: String,
}

/// `u` is the record a registration of `body` at time `now` creates: the
/// password is stored as a self-describing Argon2id hash that verifies it,
/// and the email is not yet verified.
pub open spec fn registered_user(u: UserModel, body: CreateUserSchema, now: u64) -> bool {
    &&& u.username@ == body.username@
    &&& u.email@ == body.email@
    &&& argon2_verdict(u.password@, body.password@) == Some(true)
    &&& is_argon2id_phc(u.password@)
    &&& u.email_verified == Some(false)
    &&& u.img is None
    &&& u.created_at == Some(now)
    &&& u.updated_at == Some(now)
}

/// The user with this email address, if any.
pub fn get_user_by_email(email: &str, users: &UserDirectory) -> (r: Option<UserModel>)
    requires
        users.wf(),
    ensures
        r == find_user(users@, email@),
{
    users.find_by_email(email)
}

/// Stores a passcode for an email address at time `now`; earlier codes for
/// the address stay.
pub fn otp_creator_service(otps: &mut OtpStore, otp_body: OtpSchema, now: u64) -> (r: String)
    ensures
        r == otp_body.otp,
        final(otps)@ == old(otps)@.push(
            OtpModel { email: otp_body.email, otp: otp_body.otp, created_at: Some(now) },
        ),
{
    let code = otp_body.otp.clone();
    otps.insert(OtpModel { email: otp_body.email, otp: otp_body.otp, created_at: Some(now) });
    code
}

/// The most recently stored passcode record with exactly this code.
pub fn otp_fetch_service(otps: &OtpStore, otp: &str) -> (r: Option<OtpModel>)
    ensures
        r == latest_with_code(otps@, otp@),
{
    otps.fetch_by_code(otp)
}

/// The record that registering `body` with hash `hashed` and id `id` at time
/// `now` stores.
pub open spec fn new_user_row(body: CreateUserSchema, hashed: String, id: u128, now: u64) -> UserModel {
    UserModel {
        id,
        username: body.username,
        email: body.email,
        password: hashed,
        email_verified: Some(false),
        img: None,
        created_at: Some(now),
        updated_at: Some(now),
    }
}

/// Stores the user `body` with password hash `hashed` and id `id` at time
/// `now`, and the passcode `otp` for the email address. A taken email is a
/// conflict and a taken id a storage failure; either changes nothing.
pub fn register_user(
    state: &mut AppState,
    body: CreateUserSchema,
    hashed: String,
    id: u128,
    otp: String,
    now: u64,
) -> (r: Result<Registration, ApiError>)
    requires
        old(state).wf(),
    ensures
        final(state).wf(),
        final(state).lists@ == old(state).lists@,
        final(state).jwt_secret@ == old(state).jwt_secret@,
        match user_insert_outcome(old(state).users@, new_user_row(body, hashed, id, now)) {
            Err(e) => r == Err::<Registration, ApiError>(e) && final(state).users@ == old(
                state,
            ).users@ && final(state).otps@ == old(state).otps@,
            Ok(()) => r matches Ok(reg) && reg.username == body.username && reg.email
                == body.email && reg.otp == otp && final(state).users@ == old(state).users@.push(
                new_user_row(body, hashed, id, now),
            ) && final(state).otps@ == old(state).otps@.push(
                OtpModel { email: body.email, otp, created_at: Some(now) },
            ),
        },
{
    let row = UserModel {
        id,
        username: body.username.clone(),
        email: body.email.clone(),
        password: hashed,
        email_verified: Some(false),
        img: None,
        created_at: Some(now),
        updated_at: Some(now),
    };
    match state.users.insert(row) {
        Ok(()) => {},
        Err(e) => {
            return Err(e);
        },
    }
    let otp_body = OtpSchema { email: body.email.clone(), otp };
    let stored = otp_creator_service(&mut state.otps, otp_body, now);
    Ok(Registration { username: body.username, email: body.email, otp: stored })
}

/// Registers a user at time `now` and stores a fresh five-digit passcode for
/// the email address. An address already registered is a conflict, and a
/// failed registration changes nothing. Hashing fails only for a password
/// too long to hash, and storing only when a fresh random id collides, which
/// needs an existing user.
pub fn create_user_handler(state: &mut AppState, body: CreateUserSchema, now: u64) -> (r: Result<
    Registration,
    ApiError,
>)
    requires
        old(state).wf(),
    ensures
        final(state).wf(),
        final(state).lists@ == old(state).lists@,
        final(state).jwt_secret@ == old(state).jwt_secret@,
        has_email(old(state).users@, body.email@) ==> r == Err::<Registration, ApiError>(
            ApiError::EmailTaken,
        ),
        !has_email(old(state).users@, body.email@) ==> r is Ok || r == Err::<
            Registration,
            ApiError,
        >(ApiError::HashingFailed) || r == Err::<Registration, ApiError>(
            ApiError::StorageFailure,
        ),
        r == Err::<Registration, ApiError>(ApiError::HashingFailed) ==> body.password@.len()
            > 0x3FFF_FFFF,
        r == Err::<Registration, ApiError>(ApiError::StorageFailure) ==> old(
            state,
        ).users@.len() > 0,
        r is Err ==> final(state).users@ == old(state).users@ && final(state).otps@ == old(
            state,
        ).otps@,
        r matches Ok(reg) ==> {
            &&& final(state).users@.len() == old(state).users@.len() + 1
            &&& final(state).users@.drop_last() == old(state).users@
            &&& registered_user(final(state).users@.last(), body, now)
            &&& reg.username@ == body.username@
            &&& reg.email@ == body.email@
            &&& reg.otp@.len() == OTP_LENGTH
            &&& all_digits(reg.otp@)
            &&& final(state).otps@ == old(state).otps@.push(
                OtpModel { email: reg.email, otp: reg.otp, created_at: Some(now) },
            )
        },
{
    if state.users.find_by_email(body.email.as_str()).is_some() {
        return Err(ApiError::EmailTaken);
    }
    let hashed = match hash_password(body.password.as_str()) {
        Ok(h) => h,
        Err(_) => {
            return Err(ApiError::HashingFailed);
        },
    };
    let ghost b = body;
    let ghost h = hashed;
    let id = new_record_id();
    let otp = generate_otp(OTP_LENGTH);
    let r = register_user(state, body, hashed, id, otp, now);
    proof {
        if r is Ok {
            assert(state.users@.drop_last() =~= old(state).users@);
            assert(state.users@.last() == new_user_row(b, h, id, now));
        }
    }
    r
}

/// The outcome of presenting `code` for `email` at time `now`: the most
/// recent record with that code must be for that email and not expired.
pub open spec fn otp_outcome(otps: Seq<OtpModel>, email: Seq<char>, code: Seq<char>, now: u64) -> Result<
    (),
    ApiError,
> {
    if code.len() == 0 {
        Err(ApiError::InvalidOrExpiredOtp)
    } else {
        match latest_with_code(otps, code) {
            None => Err(ApiError::InvalidOrExpiredOtp),
            Some(row) => if row.email@ != email {
                Err(ApiError::InvalidOrExpiredOtp)
            } else {
                match row.created_at {
                    None => Err(ApiError::InvalidOrExpiredOtp),
                    Some(c) => if otp_fresh(c as int, now as int) {
                        Ok(())
                    } else {
                        Err(ApiError::InvalidOrExpiredOtp)
                    },
                }
            },
        }
    }
}

/// The outcome of an email verification: a valid passcode, then a user with
/// that email.
pub open spec fn verify_outcome(
    users: Seq<UserModel>,
    otps: Seq<OtpModel>,
    email: Seq<char>,
    code: Seq<char>,
    now: u64,
) -> Result<(), ApiError> {
    match otp_outcome(otps, email, code, now) {
        Err(e) => Err(e),
        Ok(()) => if has_email(users, email) {
            Ok(())
        } else {
            Err(ApiError::UnknownEmail)
        },
    }
}

/// Checks the passcode `body.otp` for `body.email` at time `now` and, if it
/// holds, marks the user's email verified.
pub fn verify_email(state: &mut AppState, body: VerifyEmailSchema, now: u64) -> (r: Result<
    (),
    ApiError,
>)
    requires
        old(state).wf(),
    ensures
        final(state).wf(),
        r == verify_outcome(old(state).users@, old(state).otps@, body.email@, body.otp@, now),
        r is Ok ==> final(state).users@ == mark_verified(old(state).users@, body.email@, now),
        r is Err ==> final(state).users@ == old(state).users@,
        final(state).otps@ == old(state).otps@,
        final(state).lists@ == old(state).lists@,
        final(state).jwt_secret@ == old(state).jwt_secret@,
{
    if body.otp.as_str().is_empty() {
        return Err(ApiError::InvalidOrExpiredOtp);
    }
    let row = match otp_fetch_service(&state.otps, body.otp.as_str()) {
        Some(row) => row,
        None => {
            return Err(ApiError::InvalidOrExpiredOtp);
        },
    };
    if row.email != body.email {
        return Err(ApiError::InvalidOrExpiredOtp);
    }
    let created = match row.created_at {
        Some(c) => c,
        None => {
            return Err(ApiError::InvalidOrExpiredOtp);
        },
    };
    if !otp_is_fresh(created as i128, now as i128) {
        return Err(ApiError::InvalidOrExpiredOtp);
    }
    if state.users.mark_email_verified(body.email.as_str(), now) {
        Ok(())
    } else {
        Err(ApiError::UnknownEmail)
    }
}

/// Whether a login may proceed to issuing a token, given the stored user and
/// what checking the password against the stored hash gave.
pub fn credential_decision(user: &UserModel, verdict: Result<bool, PasswordError>) -> (r: Result<
    (),
    ApiError,
>)
    ensures
        match verdict {
            Err(_) => r == Err::<(), ApiError>(ApiError::PasswordCheckFailed),
            Ok(false) => r == Err::<(), ApiError>(ApiError::IncorrectCredentials),
            Ok(true) => if user.email_verified == Some(true) {
                r is Ok
            } else {
                r == Err::<(), ApiError>(ApiError::EmailNotVerified)
            },
        },
{
    match verdict {
        Err(_) => Err(ApiError::PasswordCheckFailed),
        Ok(false) => Err(ApiError::IncorrectCredentials),
        Ok(true) => if user.email_verified == Some(true) {
            Ok(())
        } else {
            Err(ApiError::EmailNotVerified)
        },
    }
}

/// A user and a freshly issued token.
#[derive(Debug)]
pub struct LoginResponse {
    pub user: UserResponse,
    pub token: String,
}

/// The outcome of a login at time `now`: the stored hash must verify the
/// password and the email must be verified; the token is then issued.
pub open spec fn login_outcome(
    users: Seq<UserModel>,
    email: Seq<char>,
    password: Seq<char>,
    now: u64,
    secret: Seq<u8>,
) -> Result<(UserModel, Seq<char>), ApiError> {
    match find_user(users, email) {
        None => Err(ApiError::IncorrectCredentials),
        Some(u) => match argon2_verdict(u.password@, password) {
            None => Err(ApiError::PasswordCheckFailed),
            Some(false) => Err(ApiError::IncorrectCredentials),
            Some(true) => if u.email_verified != Some(true) {
                Err(ApiError::EmailNotVerified)
            } else {
                Ok((u, hs256_jwt((now + TOKEN_LIFETIME_SECS) as u64, now, email, secret)))
            },
        },
    }
}

/// Logs a user in at time `now` and issues a two-hour token for the email.
pub fn login_handler(state: &AppState, body: LoginSchema, now: u64) -> (r: Result<
    LoginResponse,
    ApiError,
>)
    requires
        state.wf(),
        now <= u64::MAX - TOKEN_LIFETIME_SECS,
    ensures
        match login_outcome(state.users@, body.email@, body.password@, now, state.jwt_secret@) {
            Ok((u, t)) => r matches Ok(resp) && resp.user == user_response_of(u) && resp.token@
                == t,
            Err(e) => r matches Err(x) && x == e,
        },
        r matches Ok(resp) ==> hs256_claims(resp.token@, state.jwt_secret@) == Some(
            issued_claims(body.email@, now),
        ),
{
    let user = match get_user_by_email(body.email.as_str(), &state.users) {
        Some(u) => u,
        None => {
            return Err(ApiError::IncorrectCredentials);
        },
    };
    let verdict = verify_password(user.password.as_str(), body.password.as_str());
    match credential_decision(&user, verdict) {
        Ok(()) => {},
        Err(e) => {
            return Err(e);
        },
    }
    let token = encode_jwt(body.email.as_str(), now, state.jwt_secret.as_slice());
    Ok(LoginResponse { user: UserResponse::from(user), token })
}

/// The header's text, if present.
pub open spec fn header_view(h: Option<&str>) -> Option<Seq<char>> {
    match h {
        Some(s) => Some(s@),
        None => None,
    }
}

/// The outcome of the bearer gate at time `now`: a `Bearer <token>` header
/// whose token verifies, has not expired, and names a known user.
pub open spec fn gate_outcome(
    users: Seq<UserModel>,
    header: Option<Seq<char>>,
    secret: Seq<u8>,
    now: u64,
) -> Result<UserModel, ApiError> {
    match header {
        None => Err(ApiError::MissingAuthHeader),
        Some(h) => match bearer_token(h) {
            None => Err(ApiError::MissingAuthHeader),
            Some(t) => match token_check(t, secret, now) {
                Err(_) => Err(ApiError::InvalidToken),
                Ok(c) => match find_user(users, c.2) {
                    None => Err(ApiError::NotAuthorized),
                    Some(u) => Ok(u),
                },
            },
        },
    }
}

/// Resolves the `Authorization` header of a request (`None` when absent or
/// not visible ASCII) to the user it authenticates at time `now`. Nothing
/// is changed: a rejected request goes no further.
pub fn authorize_user(state: &AppState, auth_header: Option<&str>, now: u64) -> (r: Result<
    UserModel,
    ApiError,
>)
    requires
        state.wf(),
    ensures
        r == gate_outcome(state.users@, header_view(auth_header), state.jwt_secret@, now),
{
    let header = match auth_header {
        Some(h) => h,
        None => {
            return Err(ApiError::MissingAuthHeader);
        },
    };
    let token = match parse_bearer(header) {
        Some(t) => t,
        None => {
            return Err(ApiError::MissingAuthHeader);
        },
    };
    let claims = match decode_jwt(token.as_str(), state.jwt_secret.as_slice(), now) {
        Ok(c) => c,
        Err(_) => {
            return Err(ApiError::InvalidToken);
        },
    };
    match get_user_by_email(claims.email.as_str(), &state.users) {
        Some(u) => Ok(u),
        None => Err(ApiError::NotAuthorized),
    }
}

/// What the image host did with an uploaded profile image.
#[derive(Debug)]
pub enum UploadOutcome {
    /// The request carried no file part.
    NoFile,
    /// The host refused or the transfer failed.
    Failed,
    /// The host stored the image at this secure URL.
    Uploaded(String),
}

/// Records the outcome of a profile image upload for `current_user` at time
/// `now`: the URL of a stored image becomes the user's image.
pub fn upload_img(state: &mut AppState, current_user: &UserModel, upload: UploadOutcome, now: u64) -> (r: Result<
    (),
    ApiError,
>)
    requires
        old(state).wf(),
    ensures
        final(state).wf(),
        final(state).otps@ == old(state).otps@,
        final(state).lists@ == old(state).lists@,
        final(state).jwt_secret@ == old(state).jwt_secret@,
        match upload {
            UploadOutcome::NoFile => r == Err::<(), ApiError>(ApiError::NoFileToUpload)
                && final(state).users@ == old(state).users@,
            UploadOutcome::Failed => r == Err::<(), ApiError>(ApiError::UploadFailed)
                && final(state).users@ == old(state).users@,
            UploadOutcome::Uploaded(url) => final(state).users@ == set_image(
                old(state).users@,
                current_user.email@,
                url,
                now,
            ) && (r is Ok <==> has_email(old(state).users@, current_user.email@)) && (r is Err
                ==> r == Err::<(), ApiError>(ApiError::StorageFailure)),
        },
{
    match upload {
        UploadOutcome::NoFile => Err(ApiError::NoFileToUpload),
        UploadOutcome::Failed => Err(ApiError::UploadFailed),
        UploadOutcome::Uploaded(url) => {
            if state.users.set_profile_image(current_user.email.as_str(), url, now) {
                Ok(())
            } else {
                Err(ApiError::StorageFailure)
            }
        },
    }
}

/// Once a registration of an email address has succeeded, the address is
/// taken, so every later registration of it is refused as a conflict
/// (`EmailTaken`, changing nothing), and the record found under the address
/// stays the first user's.
pub proof fn lemma_duplicate_registration_conflicts(
    before: Seq<UserModel>,
    first: UserModel,
    second: UserModel,
)
    requires
        emails_unique(before.push(first)),
        second.email@ == first.email@,
    ensures
        has_email(before.push(first), second.email@),
        user_insert_outcome(before.push(first), second) == Err::<(), ApiError>(
            ApiError::EmailTaken,
        ),
        find_user(before.push(first), first.email@) == Some(first),
{
    let after = before.push(first);
    assert(after[before.len() as int] == first);
    lemma_find_user_at(after, before.len() as int);
}

/// `r` carries exactly `code` and `email` and is still valid at `now`.
pub open spec fn live_code_record(r: OtpModel, email: Seq<char>, code: Seq<char>, now: u64) -> bool {
    &&& r.otp@ == code
    &&& r.email@ == email
    &&& match r.created_at {
        Some(c) => otp_fresh(c as int, now as int),
        None => false,
    }
}

/// An email verification succeeds only if a stored passcode record carries
/// exactly the submitted, non-empty code and the submitted email, and was
/// created no more than four minutes before `now`; otherwise it fails.
pub proof fn lemma_verification_requires_live_code(
    users: Seq<UserModel>,
    otps: Seq<OtpModel>,
    email: Seq<char>,
    code: Seq<char>,
    now: u64,
)
    ensures
        verify_outcome(users, otps, email, code, now) is Ok ==> code.len() > 0 && exists|i: int|
            0 <= i < otps.len() && #[trigger] live_code_record(otps[i], email, code, now),
{
    if verify_outcome(users, otps, email, code, now) is Ok {
        lemma_latest_is_stored(otps, code);
        let i = choose|i: int|
            0 <= i < otps.len() && otps[i] == latest_with_code(otps, code)->0 && #[trigger] otps[i].otp@
                == code;
        assert(live_code_record(otps[i], email, code, now));
    }
}

/// The users after verifying `email` still have unique emails, and the
/// record under `email` is the verified form of the one before.
pub proof fn lemma_find_after_verification(users: Seq<UserModel>, email: Seq<char>, t: u64)
    requires
        emails_unique(users),
        has_email(users, email),
    ensures
        emails_unique(mark_verified(users, email, t)),
        find_user(mark_verified(users, email, t), email) == Some(
            verified_user(find_user(users, email)->0, t),
        ),
{
    let k = choose|i: int| 0 <= i < users.len() && #[trigger] users[i].email@ == email;
    let m = mark_verified(users, email, t);
    assert forall|i: int, j: int|
        0 <= i < m.len() && 0 <= j < m.len() && i != j implies #[trigger] m[i].email@
        != #[trigger] m[j].email@ by {
        assert(users[i].email@ != users[j].email@);
    }
    lemma_find_user_at(m, k);
}

/// With the right password, login is refused with the auth-class
/// `EmailNotVerified` while the email is not verified; once it is verified
/// (at any time `t`), the same login returns the verified user and the token
/// issued for the email at `now`.
pub proof fn lemma_login_needs_verified_email(
    users: Seq<UserModel>,
    email: Seq<char>,
    password: Seq<char>,
    now: u64,
    secret: Seq<u8>,
    t: u64,
)
    requires
        emails_unique(users),
        find_user(users, email) matches Some(u) && argon2_verdict(u.password@, password) == Some(
            true,
        ) && u.email_verified != Some(true),
    ensures
        login_outcome(users, email, password, now, secret) == Err::<(UserModel, Seq<char>), ApiError>(
            ApiError::EmailNotVerified,
        ),
        ApiError::EmailNotVerified.spec_class() == ErrorClass::Auth,
        login_outcome(mark_verified(users, email, t), email, password, now, secret) == Ok::<
            (UserModel, Seq<char>),
            ApiError,
        >(
            (
                verified_user(find_user(users, email)->0, t),
                hs256_jwt((now + TOKEN_LIFETIME_SECS) as u64, now, email, secret),
            ),
        ),
{
    lemma_find_after_verification(users, email, t);
}

/// The bearer gate rejects a request that has no `Authorization` header or
/// whose header is not `Bearer <token>`, and every rejection it makes is
/// auth-class.
pub proof fn lemma_gate_rejections_are_auth(
    users: Seq<UserModel>,
    header: Option<Seq<char>>,
    secret: Seq<u8>,
    now: u64,
)
    ensures
        header is None ==> gate_outcome(users, header, secret, now) == Err::<UserModel, ApiError>(
            ApiError::MissingAuthHeader,
        ),
        header matches Some(h) && bearer_token(h) is None ==> gate_outcome(users, header, secret, now)
            == Err::<UserModel, ApiError>(ApiError::MissingAuthHeader),
        gate_outcome(users, header, secret, now) matches Err(e) ==> e.spec_class()
            == ErrorClass::Auth,
{
}

} // verus!
