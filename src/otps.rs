//! The passcode store: every passcode ever issued, in the order stored.
//! Earlier codes for an email are kept when a new one is stored.

use vstd::prelude::*;
use crate::models::OtpModel;

verus! {

/// The most recently stored record whose code is exactly `code`.
pub open spec fn latest_with_code(s: Seq<OtpModel>, code: Seq<char>) -> Option<OtpModel>
    decreases s.len(),
{
    if s.len() == 0 {
        None
    } else if s.last().otp@ == code {
        Some(s.last())
    } else {
        latest_with_code(s.drop_last(), code)
    }
}

/// A record that `latest_with_code` finds is stored and carries the code.
pub proof fn lemma_latest_is_stored(s: Seq<OtpModel>, code: Seq<char>)
    requires
        latest_with_code(s, code) is Some,
    ensures
        exists|i: int|
            0 <= i < s.len() && s[i] == latest_with_code(s, code)->0 && #[trigger] s[i].otp@
                == code,
    decreases s.len(),
{
    if s.last().otp@ == code {
        assert(s[s.len() - 1].otp@ == code);
    } else {
        lemma_latest_is_stored(s.drop_last(), code);
        let i = choose|i: int|
            0 <= i < s.drop_last().len() && s.drop_last()[i] == latest_with_code(
                s.drop_last(),
                code,
            )->0 && #[trigger] s.drop_last()[i].otp@ == code;
        assert(s[i] == s.drop_last()[i]);
    }
}

/// The stored passcodes.
pub struct OtpStore {
    rows: Vec<OtpModel>,
}

impl View for OtpStore {
    type V = Seq<OtpModel>;

    closed spec fn view(&self) -> Seq<OtpModel> {
        self.rows@
    }
}

impl OtpStore {
    /// An empty store.
    pub fn new() -> (r: Self)
        ensures
            r@ == Seq::<OtpModel>::empty(),
    {
        OtpStore { rows: Vec::new() }
    }

    /// The number of stored passcodes.
    pub fn len(&self) -> (r: usize)
        ensures
            r == self@.len(),
    {
        self.rows.len()
    }

    /// Stores `row` after all earlier ones.
    pub fn insert(&mut self, row: OtpModel)
        ensures
            final(self)@ == old(self)@.push(row),
    {
        self.rows.push(row);
    }

    /// The most recently stored passcode record with exactly this code,
    /// whatever its email.
    pub fn fetch_by_code(&self, code: &str) -> (r: Option<OtpModel>)
        ensures
            r == latest_with_code(self@, code@),
    {
        let c = code.to_string();
        let mut i: usize = self.rows.len();
        proof {
            assert(self.rows@.subrange(0, i as int) =~= self.rows@);
        }
        while i > 0
            invariant
                i <= self.rows@.len(),
                c@ == code@,
                latest_with_code(self.rows@.subrange(0, i as int), code@) == latest_with_code(
                    self.rows@,
                    code@,
                ),
            decreases i,
        {
            let ghost prefix = self.rows@.subrange(0, i as int);
            assert(prefix.drop_last() =~= self.rows@.subrange(0, i - 1));
            assert(prefix.last() == self.rows@[i - 1]);
            if self.rows[i - 1].otp == c {
                return Some(self.rows[i - 1].duplicate());
            }
            i = i - 1;
        }
        proof {
            assert(self.rows@.subrange(0, 0) =~= Seq::<OtpModel>::empty());
        }
        None
    }
}

} // verus!
