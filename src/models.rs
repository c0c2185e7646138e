//! The records the tables hold and the shapes of requests and responses.
//! Identifiers are UUIDs held as `u128`; times are whole seconds since the
//! Unix epoch.

use vstd::prelude::*;

verus! {

/// A registered user. `password` holds the Argon2 PHC hash, never the
/// password itself; `email_verified` counts as verified only when `Some(true)`.
#[derive(Debug, Clone, PartialEq, Eq)]
pub struct UserModel {
    pub id: u128,
    pub username: String,
    pub email: String,
    pub password: String,
    pub email_verified: Option<bool>,
    pub img: Option<String>,
    pub created_at: Option<u64>,
    pub updated_at: Option<u64>,
}

/// A list item owned by the user `user_id`.
#[derive(Debug, Clone, PartialEq, Eq)]
pub struct ListModel {
    pub id: u128,
    pub title: String,
    pub user_id: u128,
    pub descr: Option<String>,
    pub body: Option<String>,
    pub importance: String,
    pub created_at: Option<u64>,
    pub updated_at: Option<u64>,
}

/// A stored one-time passcode for an email address.
#[derive(Debug, Clone, PartialEq, Eq)]
pub struct OtpModel {
    pub email: String,
    pub otp: String,
    pub created_at: Option<u64>,
}

/// The fields of a new list item.
#[derive(Debug, Clone, PartialEq, Eq)]
pub struct CreateListSchema {
    pub title: String,
    pub descr: Option<String>,
    pub body: Option<String>,
    pub importance: String,
}

/// Which page of a user's items to return, and an optional title filter.
#[derive(Debug, Clone, PartialEq, Eq)]
pub struct PaginationSchema {
    pub page: Option<usize>,
    pub page_size: Option<usize>,
    pub search_title: Option<String>,
}

/// A partial update of the item `id`: each supplied field replaces the
/// stored one, each absent field keeps it.
#[derive(Debug, Clone, PartialEq, Eq)]
pub struct UpdateListSchema {
    pub title: Option<String>,
    pub descr: Option<String>,
    pub body: Option<String>,
    pub importance: Option<String>,
    pub id: u128,
}

/// A passcode to store for an email address.
#[derive(Debug, Clone, PartialEq, Eq)]
pub struct OtpSchema {
    pub email: String,
    pub otp: String,
}

/// Page and limit of a listing query.
#[derive(Debug, Clone, PartialEq, Eq, Default)]
pub struct FilterOptions {
    pub page: Option<usize>,
    pub limit: Option<usize>,
}

/// A path parameter holding an id.
#[derive(Debug, Clone, PartialEq, Eq)]
pub struct ParamOptions {
    pub id: String,
}

/// A registration request.
#[derive(Debug, Clone, PartialEq, Eq)]
pub struct CreateUserSchema {
    pub username: String,
    pub email: String,
    pub password: String,
}

/// A login request.
#[derive(Debug, Clone, PartialEq, Eq)]
pub struct LoginSchema {
    pub email: String,
    pub password: String,
}

/// A user as shown to clients: the stored record without its password hash.
#[derive(Debug, Clone, PartialEq, Eq)]
pub struct UserResponse {
    pub id: u128,
    pub username: String,
    pub email: String,
    pub email_verified: Option<bool>,
    pub img: Option<String>,
    pub created_at: Option<u64>,
    pub updated_at: Option<u64>,
}

/// Optional new values for a user's email, password and image.
#[derive(Debug, Clone, PartialEq, Eq)]
pub struct UpdateUserSchema {
    pub email: Option<String>,
    pub password: Option<String>,
    pub img: Option<String>,
}

/// An email verification request carrying the passcode that was mailed.
#[derive(Debug, Clone, PartialEq, Eq)]
pub struct VerifyEmailSchema {
    pub email: String,
    pub otp: String,
}

/// A list item as shown to clients.
#[derive(Debug, Clone, PartialEq, Eq)]
pub struct ListResponse {
    pub id: u128,
    pub title: String,
    pub descr: Option<String>,
    pub body: Option<String>,
    pub user_id: u128,
    pub importance: String,
    pub created_at: Option<u64>,
    pub updated_at: Option<u64>,
}

/// The importance of a list item is one of `high`, `medium` and `low`.
pub open spec fn valid_importance(s: Seq<char>) -> bool {
    s == "high"@ || s == "medium"@ || s == "low"@
}

/// Whether `s` is a valid importance.
pub fn is_valid_importance(s: &str) -> (r: bool)
    ensures
        r == valid_importance(s@),
{
    let t = s.to_string();
    t == "high".to_string() || t == "medium".to_string() || t == "low".to_string()
}

/// A copy of an optional string with the same contents.
pub fn copy_opt_string(o: &Option<String>) -> (r: Option<String>)
    ensures
        r == *o,
{
    match o {
        Some(s) => Some(s.clone()),
        None => None,
    }
}

impl UserModel {
    /// A field-for-field copy.
    pub fn duplicate(&self) -> (r: Self)
        ensures
            r == *self,
    {
        UserModel {
            id: self.id,
            username: self.username.clone(),
            email: self.email.clone(),
            password: self.password.clone(),
            email_verified: self.email_verified,
            img: copy_opt_string(&self.img),
            created_at: self.created_at,
            updated_at: self.updated_at,
        }
    }
}

impl ListModel {
    /// A field-for-field copy.
    pub fn duplicate(&self) -> (r: Self)
        ensures
            r == *self,
    {
        ListModel {
            id: self.id,
            title: self.title.clone(),
            user_id: self.user_id,
            descr: copy_opt_string(&self.descr),
            body: copy_opt_string(&self.body),
            importance: self.importance.clone(),
            created_at: self.created_at,
            updated_at: self.updated_at,
        }
    }
}

impl OtpModel {
    /// A field-for-field copy.
    pub fn duplicate(&self) -> (r: Self)
        ensures
            r == *self,
    {
        OtpModel { email: self.email.clone(), otp: self.otp.clone(), created_at: self.created_at }
    }
}

/// The client view of a user record.
pub open spec fn user_response_of(u: UserModel) -> UserResponse {
    UserResponse {
        id: u.id,
        username: u.username,
        email: u.email,
        email_verified: u.email_verified,
        img: u.img,
        created_at: u.created_at,
        updated_at: u.updated_at,
    }
}

impl From<UserModel> for UserResponse {
    fn from(value: UserModel) -> (r: UserResponse) {
        UserResponse {
            id: value.id,
            username: value.username,
            email: value.email,
            email_verified: value.email_verified,
            img: value.img,
            created_at: value.created_at,
            updated_at: value.updated_at,
        }
    }
}

impl vstd::std_specs::convert::FromSpecImpl<UserModel> for UserResponse {
    open spec fn obeys_from_spec() -> bool {
        true
    }

    open spec fn from_spec(v: UserModel) -> UserResponse {
        user_response_of(v)
    }
}

/// The client view of a list item.
pub open spec fn list_response_of(l: ListModel) -> ListResponse {
    ListResponse {
        id: l.id,
        title: l.title,
        descr: l.descr,
        body: l.body,
        user_id: l.user_id,
        importance: l.importance,
        created_at: l.created_at,
        updated_at: l.updated_at,
    }
}

impl From<ListModel> for ListResponse {
    fn from(value: ListModel) -> (r: ListResponse) {
        ListResponse {
            id: value.id,
            title: value.title,
            descr: value.descr,
            body: value.body,
            user_id: value.user_id,
            importance: value.importance,
            created_at: value.created_at,
            updated_at: value.updated_at,
        }
    }
}

impl vstd::std_specs::convert::FromSpecImpl<ListModel> for ListResponse {
    open spec fn obeys_from_spec() -> bool {
        true
    }

    open spec fn from_spec(v: ListModel) -> ListResponse {
        list_response_of(v)
    }
}

} // verus!
