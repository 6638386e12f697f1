//! Small checks and values shared by the request handlers.

use vstd::prelude::*;
use vstd::string::StrSliceExecFns;
use vstd::string::StringExecFns;

verus! {

/// `s` holds the character `c`.
pub fn has_char(s: &str, c: char) -> (r: bool)
    ensures
        r == s@.contains(c),
{
    let n = s.unicode_len();
    let mut i: usize = 0;
    while i < n
        invariant
            i <= n,
            n == s@.len(),
            forall|k: int| 0 <= k < i ==> s@[k] != c,
        decreases n - i,
    {
        if s.get_char(i) == c {
            return true;
        }
        i = i + 1;
    }
    false
}

/// A rough check of an email address: it holds an `@` and a `.`.
pub fn is_valid_email(email: &str) -> (r: bool)
    ensures
        r == (email@.contains('@') && email@.contains('.')),
{
    has_char(email, '@') && has_char(email, '.')
}

/// `part` is one contiguous stretch of `whole`.
pub open spec fn is_slice_of(part: Seq<char>, whole: Seq<char>) -> bool {
    exists|i: int, j: int| 0 <= i <= j <= whole.len() && part == whole.subrange(i, j)
}

/// What `str::trim` leaves of `s`.
pub uninterp spec fn trimmed(s: Seq<char>) -> Seq<char>;

/// Relies on `str::trim`: `s` without its leading and trailing whitespace,
/// which is one contiguous part of `s`.
#[verifier::external_body]
fn trim_text(s: &str) -> (r: String)
    ensures
        r@ == trimmed(s@),
        is_slice_of(r@, s@),
{
    s.trim().to_string()
}

/// `input` without leading and trailing whitespace.
pub fn sanitize_input(input: &str) -> (r: String)
    ensures
        r@ == trimmed(input@),
        is_slice_of(r@, input@),
{
    trim_text(input)
}

/// How long an access token lives by default, in seconds.
pub const DEFAULT_TOKEN_LIFETIME_SECS: i64 = 3600;

/// The claims an access token carries.
#[derive(Debug)]
pub struct Claims {
    /// The user id.
    pub sub: i32,
    pub email: String,
    /// When the token expires, in seconds since the epoch.
    pub exp: i64,
    /// When the token was issued, in seconds since the epoch.
    pub iat: i64,
}

impl Claims {
    /// The claims of a token for `sub` issued at `issued_at` that lives
    /// `lifetime` seconds; none when the expiry is not representable.
    pub fn issue(sub: i32, email: &str, issued_at: i64, lifetime: i64) -> (r: Option<Claims>)
        ensures
            match r {
                Some(c) => {
                    &&& issued_at + lifetime <= i64::MAX
                    &&& issued_at + lifetime >= i64::MIN
                    &&& c.sub == sub
                    &&& c.email@ == email@
                    &&& c.iat == issued_at
                    &&& c.exp == issued_at + lifetime
                },
                None => issued_at + lifetime > i64::MAX || issued_at + lifetime < i64::MIN,
            },
    {
        match issued_at.checked_add(lifetime) {
            Some(exp) => Some(Claims { sub, email: String::from_str(email), exp, iat: issued_at }),
            None => None,
        }
    }
}

} // verus!
