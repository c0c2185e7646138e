//! The user directory: user records keyed by a unique email address.

use vstd::prelude::*;
use crate::errors::ApiError;
use crate::models::UserModel;

verus! {

/// No two records share an email address.
pub open spec fn emails_unique(s: Seq<UserModel>) -> bool {
    forall|i: int, j: int|
        0 <= i < s.len() && 0 <= j < s.len() && i != j ==> #[trigger] s[i].email@
            != #[trigger] s[j].email@
}

/// No two records share an id.
pub open spec fn user_ids_unique(s: Seq<UserModel>) -> bool {
    forall|i: int, j: int|
        0 <= i < s.len() && 0 <= j < s.len() && i != j ==> #[trigger] s[i].id != #[trigger] s[j].id
}

/// Some record holds the email address `e`.
pub open spec fn has_email(s: Seq<UserModel>, e: Seq<char>) -> bool {
    exists|i: int| 0 <= i < s.len() && #[trigger] s[i].email@ == e
}

/// Some record has the id `id`.
pub open spec fn has_user_id(s: Seq<UserModel>, id: u128) -> bool {
    exists|i: int| 0 <= i < s.len() && #[trigger] s[i].id == id
}

/// The record with email address `e`, if any.
pub open spec fn find_user(s: Seq<UserModel>, e: Seq<char>) -> Option<UserModel> {
    if has_email(s, e) {
        Some(s[choose|i: int| 0 <= i < s.len() && #[trigger] s[i].email@ == e])
    } else {
        None
    }
}

/// What inserting `row` answers: a duplicate email is a conflict, a
/// duplicate id a storage failure.
pub open spec fn user_insert_outcome(s: Seq<UserModel>, row: UserModel) -> Result<(), ApiError> {
    if has_email(s, row.email@) {
        Err(ApiError::EmailTaken)
    } else if has_user_id(s, row.id) {
        Err(ApiError::StorageFailure)
    } else {
        Ok(())
    }
}

/// `u` with its email marked verified at time `now`.
pub open spec fn verified_user(u: UserModel, now: u64) -> UserModel {
    UserModel { email_verified: Some(true), updated_at: Some(now), ..u }
}

/// `u` with profile image `url`, updated at time `now`.
pub open spec fn user_with_image(u: UserModel, url: String, now: u64) -> UserModel {
    UserModel { img: Some(url), updated_at: Some(now), ..u }
}

/// The records after marking the one with email `e` verified at `now`.
pub open spec fn mark_verified(s: Seq<UserModel>, e: Seq<char>, now: u64) -> Seq<UserModel> {
    Seq::new(s.len(), |i: int| if s[i].email@ == e { verified_user(s[i], now) } else { s[i] })
}

/// The records after giving the one with email `e` the image `url` at `now`.
pub open spec fn set_image(s: Seq<UserModel>, e: Seq<char>, url: String, now: u64) -> Seq<
    UserModel,
> {
    Seq::new(
        s.len(),
        |i: int| if s[i].email@ == e { user_with_image(s[i], url, now) } else { s[i] },
    )
}

/// A uniquely keyed record is the one `find_user` names.
pub proof fn lemma_find_user_at(s: Seq<UserModel>, k: int)
    requires
        emails_unique(s),
        0 <= k < s.len(),
    ensures
        find_user(s, s[k].email@) == Some(s[k]),
{
    assert(has_email(s, s[k].email@));
}

/// The user records, with unique emails and ids.
pub struct UserDirectory {
    rows: Vec<UserModel>,
}

impl View for UserDirectory {
    type V = Seq<UserModel>;

    closed spec fn view(&self) -> Seq<UserModel> {
        self.rows@
    }
}

impl UserDirectory {
    pub open spec fn wf(&self) -> bool {
        emails_unique(self@) && user_ids_unique(self@)
    }

    /// An empty directory.
    pub fn new() -> (r: Self)
        ensures
            r@ == Seq::<UserModel>::empty(),
            r.wf(),
    {
        UserDirectory { rows: Vec::new() }
    }

    /// The number of users.
    pub fn len(&self) -> (r: usize)
        ensures
            r == self@.len(),
    {
        self.rows.len()
    }

    fn index_of_email(&self, email: &String) -> (r: Option<usize>)
        ensures
            match r {
                Some(k) => k < self@.len() && self@[k as int].email@ == email@,
                None => !has_email(self@, email@),
            },
    {
        let mut i: usize = 0;
        while i < self.rows.len()
            invariant
                i <= self.rows@.len(),
                forall|j: int| 0 <= j < i ==> self.rows@[j].email@ != email@,
            decreases self.rows@.len() - i,
        {
            if self.rows[i].email == *email {
                return Some(i);
            }
            i = i + 1;
        }
        None
    }

    fn contains_id(&self, id: u128) -> (r: bool)
        ensures
            r == has_user_id(self@, id),
    {
        let mut i: usize = 0;
        while i < self.rows.len()
            invariant
                i <= self.rows@.len(),
                forall|j: int| 0 <= j < i ==> self.rows@[j].id != id,
            decreases self.rows@.len() - i,
        {
            if self.rows[i].id == id {
                return true;
            }
            i = i + 1;
        }
        false
    }

    /// The user with this email address, if any.
    pub fn find_by_email(&self, email: &str) -> (r: Option<UserModel>)
        requires
            self.wf(),
        ensures
            r == find_user(self@, email@),
    {
        let e = email.to_string();
        match self.index_of_email(&e) {
            Some(k) => {
                proof {
                    lemma_find_user_at(self@, k as int);
                }
                Some(self.rows[k].duplicate())
            },
            None => None,
        }
    }

    /// Adds `row` unless its email or id is already taken; on failure nothing
    /// changes.
    pub fn insert(&mut self, row: UserModel) -> (r: Result<(), ApiError>)
        requires
            old(self).wf(),
        ensures
            final(self).wf(),
            r == user_insert_outcome(old(self)@, row),
            r is Ok ==> final(self)@ == old(self)@.push(row),
            r is Err ==> final(self)@ == old(self)@,
    {
        if self.index_of_email(&row.email).is_some() {
            return Err(ApiError::EmailTaken);
        }
        if self.contains_id(row.id) {
            return Err(ApiError::StorageFailure);
        }
        self.rows.push(row);
        proof {
            let s = self.rows@;
            assert forall|i: int, j: int|
                0 <= i < s.len() && 0 <= j < s.len() && i != j implies #[trigger] s[i].email@
                != #[trigger] s[j].email@ by {
                if i == s.len() - 1 {
                    assert(!(old(self)@[j].email@ == row.email@));
                } else if j == s.len() - 1 {
                    assert(!(old(self)@[i].email@ == row.email@));
                }
            }
            assert forall|i: int, j: int|
                0 <= i < s.len() && 0 <= j < s.len() && i != j implies #[trigger] s[i].id
                != #[trigger] s[j].id by {
                if i == s.len() - 1 {
                    assert(!(old(self)@[j].id == row.id));
                } else if j == s.len() - 1 {
                    assert(!(old(self)@[i].id == row.id));
                }
            }
        }
        Ok(())
    }

    /// Marks the user with this email verified at time `now`; `false` when
    /// there is no such user.
    pub fn mark_email_verified(&mut self, email: &str, now: u64) -> (r: bool)
        requires
            old(self).wf(),
        ensures
            final(self).wf(),
            r == has_email(old(self)@, email@),
            final(self)@ == mark_verified(old(self)@, email@, now),
    {
        let e = email.to_string();
        match self.index_of_email(&e) {
            None => {
                proof {
                    assert(self@ =~= mark_verified(self@, email@, now));
                }
                false
            },
            Some(k) => {
                let u = self.rows[k].duplicate();
                let updated = UserModel {
                    email_verified: Some(true),
                    updated_at: Some(now),
                    ..u
                };
                self.rows.set(k, updated);
                proof {
                    let s = old(self)@;
                    assert forall|i: int| 0 <= i < s.len() && i != k implies s[i].email@
                        != email@ by {
                        assert(s[i].email@ != s[k as int].email@);
                    }
                    assert(self@ =~= mark_verified(s, email@, now));
                }
                true
            },
        }
    }

    /// Sets the profile image of the user with this email at time `now`;
    /// `false` when there is no such user.
    pub fn set_profile_image(&mut self, email: &str, url: String, now: u64) -> (r: bool)
        requires
            old(self).wf(),
        ensures
            final(self).wf(),
            r == has_email(old(self)@, email@),
            final(self)@ == set_image(old(self)@, email@, url, now),
    {
        let e = email.to_string();
        match self.index_of_email(&e) {
            None => {
                proof {
                    assert(self@ =~= set_image(self@, email@, url, now));
                }
                false
            },
            Some(k) => {
                let u = self.rows[k].duplicate();
                let ghost url_copy = url;
                let updated = UserModel { img: Some(url), updated_at: Some(now), ..u };
                self.rows.set(k, updated);
                proof {
                    let s = old(self)@;
                    assert forall|i: int| 0 <= i < s.len() && i != k implies s[i].email@
                        != email@ by {
                        assert(s[i].email@ != s[k as int].email@);
                    }
                    assert(self@ =~= set_image(s, email@, url_copy, now));
                }
                true
            },
        }
    }
}

} // verus!
