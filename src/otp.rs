//! One-time passcodes: random numeric codes and their four-minute window.

use vstd::prelude::*;
use vstd::string::StringExecFns;

verus! {

/// How long a passcode stays valid after it was stored, in seconds.
pub const OTP_LIFETIME_SECS: i128 = 240;

/// The number of digits in a passcode sent at registration.
pub const OTP_LENGTH: usize = 5;

/// A passcode created at `created_at` is still valid at `now` (both in seconds).
pub open spec fn otp_fresh(created_at: int, now: int) -> bool {
    now - created_at <= OTP_LIFETIME_SECS
}

pub open spec fn is_digit(c: char) -> bool {
    '0' <= c && c <= '9'
}

/// `s` consists of decimal digits only.
pub open spec fn all_digits(s: Seq<char>) -> bool {
    forall|i: int| 0 <= i < s.len() ==> #[trigger] is_digit(s[i])
}

/// Relies on `rand::Rng::gen_range(0..10)` on `rand::thread_rng()`, which
/// returns a value of the half-open range.
#[verifier::external_body]
fn random_digit() -> (d: u8)
    ensures
        d < 10,
{
    rand::Rng::gen_range(&mut rand::thread_rng(), 0..10u8)
}

/// The seconds since the Unix epoch that chrono's RFC 3339 parse of a
/// `DateTime<Utc>` gives for `s`, or `None` if it rejects `s`.
pub uninterp spec fn utc_seconds_of(s: Seq<char>) -> Option<i64>;

/// Relies on `<chrono::DateTime<chrono::Utc> as FromStr>::from_str` and
/// `DateTime::timestamp`: the result depends on the text alone.
#[verifier::external_body]
fn parse_utc_seconds(s: &str) -> (r: Option<i64>)
    ensures
        r == utc_seconds_of(s@),
{
    s.parse::<chrono::DateTime<chrono::Utc>>().ok().map(|t| t.timestamp())
}

/// Relies on `chrono::Utc::now`: the current time in whole seconds. Nothing
/// is known of its value.
#[verifier::external_body]
fn utc_now_seconds() -> (r: i64) {
    chrono::Utc::now().timestamp()
}

fn digit_text(d: u8) -> (r: &'static str)
    requires
        d < 10,
    ensures
        r@.len() == 1,
        is_digit(r@[0]),
{
    proof {
        reveal_strlit("0");
        reveal_strlit("1");
        reveal_strlit("2");
        reveal_strlit("3");
        reveal_strlit("4");
        reveal_strlit("5");
        reveal_strlit("6");
        reveal_strlit("7");
        reveal_strlit("8");
        reveal_strlit("9");
    }
    match d {
        0 => "0",
        1 => "1",
        2 => "2",
        3 => "3",
        4 => "4",
        5 => "5",
        6 => "6",
        7 => "7",
        8 => "8",
        _ => "9",
    }
}

/// A string of `length` independently drawn random decimal digits.
pub fn generate_otp(length: usize) -> (r: String)
    ensures
        r@.len() == length,
        all_digits(r@),
{
    let mut otp = String::new();
    let mut i: usize = 0;
    while i < length
        invariant
            i <= length,
            otp@.len() == i,
            all_digits(otp@),
        decreases length - i,
    {
        let d = random_digit();
        let old_otp = Ghost(otp@);
        otp.append(digit_text(d));
        proof {
            assert forall|k: int| 0 <= k < otp@.len() implies #[trigger] is_digit(otp@[k]) by {
                if k < i {
                    assert(otp@[k] == old_otp@[k]);
                }
            }
        }
        i = i + 1;
    }
    otp
}

/// Whether a passcode created at `created_at` is still valid at `now`.
pub fn otp_is_fresh(created_at: i128, now: i128) -> (r: bool)
    requires
        -0x1_0000_0000_0000_0000 <= created_at <= 0x1_0000_0000_0000_0000,
        -0x1_0000_0000_0000_0000 <= now <= 0x1_0000_0000_0000_0000,
    ensures
        r == otp_fresh(created_at as int, now as int),
{
    now - created_at <= OTP_LIFETIME_SECS
}

/// Why a stored creation time was not accepted.
#[derive(Debug, Clone, Copy, PartialEq, Eq, Structural)]
pub enum OtpExpiryError {
    /// The creation time is not an RFC 3339 timestamp.
    InvalidDatetime,
    /// More than four minutes have passed since the creation time.
    Expired,
}

/// Checks an RFC 3339 creation time against the current clock.
pub fn check_otp_expiry(created_at: &str) -> (r: Result<(), OtpExpiryError>)
    ensures
        utc_seconds_of(created_at@) is None <==> r == Err::<(), OtpExpiryError>(
            OtpExpiryError::InvalidDatetime,
        ),
{
    match parse_utc_seconds(created_at) {
        None => Err(OtpExpiryError::InvalidDatetime),
        Some(created) => {
            let now = utc_now_seconds();
            if otp_is_fresh(created as i128, now as i128) {
                Ok(())
            } else {
                Err(OtpExpiryError::Expired)
            }
        },
    }
}

} // verus!
