use vstd::prelude::*;
use vstd::string::StrSliceExecFns;
use vstd::string::StringExecFns;
use crate::domain::email::Email;
use crate::domain::password::Password;
use crate::domain::user::{User, UserV};

verus! {

// ---------------------------------------------------------------------------
// Decimal parsing, as std's `u32` parsing accepts it: an optional leading
// `'+'`, then one or more digits, value at most `u32::MAX`.
// ---------------------------------------------------------------------------

pub open spec fn is_digit(c: char) -> bool {
    '0' as u32 <= c as u32 <= '9' as u32
}

pub open spec fn digit_value(c: char) -> int {
    c as u32 - '0' as u32
}

pub open spec fn all_digits(s: Seq<char>) -> bool {
    forall|i: int| 0 <= i < s.len() ==> is_digit(#[trigger] s[i])
}

pub open spec fn digits_value(s: Seq<char>) -> int
    decreases s.len(),
{
    if s.len() == 0 {
        0
    } else {
        digits_value(s.drop_last()) * 10 + digit_value(s.last())
    }
}

/// The digits of a numeric string, the optional leading `'+'` stripped.
pub open spec fn numeric_part(s: Seq<char>) -> Seq<char> {
    if s.len() > 0 && s[0] == '+' {
        s.skip(1)
    } else {
        s
    }
}

pub open spec fn parses_as_u32(s: Seq<char>) -> bool {
    &&& numeric_part(s).len() > 0
    &&& all_digits(numeric_part(s))
    &&& digits_value(numeric_part(s)) <= u32::MAX
}

proof fn lemma_digits_value_nonneg(s: Seq<char>)
    requires
        all_digits(s),
    ensures
        digits_value(s) >= 0,
    decreases s.len(),
{
    if s.len() > 0 {
        assert(all_digits(s.drop_last()));
        lemma_digits_value_nonneg(s.drop_last());
    }
}

/// A digit string is worth at least any of its prefixes.
proof fn lemma_digits_value_prefix_le(s: Seq<char>, i: int)
    requires
        all_digits(s),
        0 <= i <= s.len(),
    ensures
        digits_value(s.subrange(0, i)) <= digits_value(s),
    decreases s.len() - i,
{
    if i == s.len() {
        assert(s.subrange(0, i) =~= s);
    } else {
        lemma_digits_value_prefix_le(s, i + 1);
        assert(s.subrange(0, i + 1).drop_last() =~= s.subrange(0, i));
        assert(all_digits(s.subrange(0, i)));
        lemma_digits_value_nonneg(s.subrange(0, i));
        assert(digits_value(s.subrange(0, i + 1)) == digits_value(s.subrange(0, i)) * 10
            + digit_value(s.subrange(0, i + 1).last()));
    }
}

/// Parses a decimal `u32` exactly as std does: optional `'+'`, digits only,
/// rejecting the empty digit string and values above `u32::MAX`.
fn parse_decimal_u32(s: &str) -> (r: Option<u32>)
    ensures
        r matches Some(v) ==> parses_as_u32(s@) && v == digits_value(numeric_part(s@)),
        r is None ==> !parses_as_u32(s@),
{
    let n = s.unicode_len();
    let mut start: usize = 0;
    if n > 0 && s.get_char(0) == '+' {
        start = 1;
    }
    proof {
        if start == 1 {
            assert(numeric_part(s@) =~= s@.skip(1));
        } else {
            assert(numeric_part(s@) =~= s@);
        }
    }
    let ghost num = numeric_part(s@);
    if start == n {
        return None;
    }
    let mut i: usize = start;
    let mut acc: u64 = 0;
    while i < n
        invariant
            start <= i <= n,
            n == s@.len(),
            start <= 1,
            num == numeric_part(s@),
            num =~= s@.skip(start as int),
            num.len() == n - start,
            all_digits(num.subrange(0, i - start)),
            acc == digits_value(num.subrange(0, i - start)),
            acc <= u32::MAX,
        decreases n - i,
    {
        let c = s.get_char(i);
        let cv = c as u32;
        if cv < 48 || cv > 57 {
            proof {
                assert(num[i - start] == s@[i as int]);
                assert(!is_digit(num[i - start]));
            }
            return None;
        }
        let d = (cv - 48) as u64;
        let next = acc * 10 + d;
        proof {
            assert(num.subrange(0, i + 1 - start).drop_last() =~= num.subrange(0, i - start));
            assert(num.subrange(0, i + 1 - start).last() == s@[i as int]);
            assert(all_digits(num.subrange(0, i + 1 - start)));
        }
        if next > 0xffff_ffff {
            proof {
                if all_digits(num) {
                    lemma_digits_value_prefix_le(num, i + 1 - start);
                }
            }
            return None;
        }
        acc = next;
        i += 1;
    }
    proof {
        assert(num.subrange(0, n - start) =~= num);
    }
    Some(acc as u32)
}

pub open spec fn pow10(k: nat) -> int
    decreases k,
{
    if k == 0 {
        1
    } else {
        10 * pow10((k - 1) as nat)
    }
}

/// The one-character string for a decimal digit.
fn digit_str(d: u32) -> (r: &'static str)
    requires
        d < 10,
    ensures
        r@.len() == 1,
        is_digit(r@[0]),
        digit_value(r@[0]) == d,
{
    proof {
        reveal_strlit("0");
        reveal_strlit("1");
        reveal_strlit("2");
        reveal_strlit("3");
        reveal_strlit("4");
        reveal_strlit("5");
        reveal_strlit("6");
        reveal_strlit("7");
        reveal_strlit("8");
        reveal_strlit("9");
    }
    match d {
        0 => "0",
        1 => "1",
        2 => "2",
        3 => "3",
        4 => "4",
        5 => "5",
        6 => "6",
        7 => "7",
        8 => "8",
        _ => "9",
    }
}

/// Renders `v` as exactly `k` decimal digits, leading zeroes included.
fn decimal_digits(v: u32, k: usize) -> (s: String)
    requires
        v < pow10(k as nat),
    ensures
        s@.len() == k,
        all_digits(s@),
        digits_value(s@) == v,
    decreases k,
{
    if k == 0 {
        String::new()
    } else {
        proof {
            assert(pow10(k as nat) == 10 * pow10((k - 1) as nat));
            lemma_pow10_pos((k - 1) as nat);
        }
        let rest = v / 10;
        assert(rest < pow10((k - 1) as nat)) by {
            assert(v < 10 * pow10((k - 1) as nat));
        };
        let mut s = decimal_digits(rest, k - 1);
        let ghost prefix = s@;
        let d = v % 10;
        s.append(digit_str(d));
        proof {
            assert(s@.drop_last() =~= prefix);
            assert(all_digits(s@));
            assert(digits_value(s@) == digits_value(prefix) * 10 + digit_value(s@.last()));
            assert(digits_value(s@) == (v / 10) * 10 + v % 10);
        }
        s
    }
}

proof fn lemma_pow10_pos(k: nat)
    ensures
        pow10(k) >= 1,
    decreases k,
{
    if k > 0 {
        lemma_pow10_pos((k - 1) as nat);
    }
}

// ---------------------------------------------------------------------------
// LoginAttemptId
// ---------------------------------------------------------------------------

/// What `uuid::Uuid::parse_str` followed by `Uuid::to_string` yields: `None`
/// when the input is not UUID syntax, else the canonical hyphenated form.
pub uninterp spec fn uuid_canon(s: Seq<char>) -> Option<Seq<char>>;

/// Relies on `uuid::Uuid::parse_str` and `Uuid::to_string`: whether a string
/// is UUID syntax, and its canonical hyphenated rendering, depend on the
/// characters alone, and the canonical form re-parses to itself.
#[verifier::external_body]
fn parse_uuid_canonical(s: &str) -> (r: Option<String>)
    ensures
        (match r {
            Some(t) => uuid_canon(s@) == Some(t@) && uuid_canon(t@) == Some(t@),
            None => uuid_canon(s@) is None,
        }),
{
    match uuid::Uuid::parse_str(s) {
        Ok(u) => Some(u.to_string()),
        Err(_) => None,
    }
}

/// Relies on `uuid::Uuid::new_v4` and `Uuid::to_string`: a fresh random UUID
/// rendered in the canonical hyphenated form, which re-parses to itself.
#[verifier::external_body]
fn fresh_uuid_string() -> (r: String)
    ensures
        uuid_canon(r@) == Some(r@),
{
    uuid::Uuid::new_v4().to_string()
}

/// An opaque random identifier for one login attempt that awaits its second
/// factor; syntactically a UUID, held in canonical hyphenated form.
#[derive(Debug)]
pub struct LoginAttemptId(String);

impl View for LoginAttemptId {
    type V = Seq<char>;

    closed spec fn view(&self) -> Seq<char> {
        self.0@
    }
}

impl LoginAttemptId {
    /// Accepts exactly UUID syntax and normalizes it to the canonical form.
    pub fn parse(id: String) -> (r: Result<Self, String>)
        ensures
            r matches Ok(l) ==> uuid_canon(id@) == Some(l@),
            r is Err ==> uuid_canon(id@) is None,
    {
        match parse_uuid_canonical(id.as_str()) {
            Some(c) => Ok(LoginAttemptId(c)),
            None => Err("Invalid login attempt id".to_owned()),
        }
    }

    pub fn as_ref(&self) -> (r: &String)
        ensures
            r@ == self@,
    {
        &self.0
    }

    pub fn clone(&self) -> (r: Self)
        ensures
            r == *self,
    {
        LoginAttemptId(self.0.clone())
    }
}

impl Default for LoginAttemptId {
    /// A fresh random attempt id, in canonical form.
    fn default() -> (r: Self)
        ensures
            uuid_canon(r@) == Some(r@),
    {
        LoginAttemptId(fresh_uuid_string())
    }
}

impl PartialEq for LoginAttemptId {
    fn eq(&self, other: &Self) -> bool {
        self.0 == other.0
    }
}

impl vstd::std_specs::cmp::PartialEqSpecImpl for LoginAttemptId {
    open spec fn obeys_eq_spec() -> bool {
        true
    }

    open spec fn eq_spec(&self, other: &Self) -> bool {
        self@ == other@
    }
}

// ---------------------------------------------------------------------------
// TwoFACode
// ---------------------------------------------------------------------------

/// A string is a two-factor code when it parses as a `u32` in
/// `[100_000, 999_999]`. The string itself is kept: comparison is by exact
/// string equality, so `"0100000"` and `"100000"` are distinct codes.
pub open spec fn two_fa_code_valid(s: Seq<char>) -> bool {
    parses_as_u32(s) && 100_000 <= digits_value(numeric_part(s)) <= 999_999
}

/// Relies on rand's `gen_range`: a uniform draw from the inclusive range
/// handed to it; nothing is assumed beyond the bounds.
#[verifier::external_body]
fn random_two_fa_value() -> (r: u32)
    ensures
        100_000 <= r <= 999_999,
{
    rand::Rng::gen_range(&mut rand::thread_rng(), 100_000..=999_999)
}

/// A six-digit one-time code for the second login factor.
#[derive(Debug)]
pub struct TwoFACode(String);

impl View for TwoFACode {
    type V = Seq<char>;

    closed spec fn view(&self) -> Seq<char> {
        self.0@
    }
}

impl TwoFACode {
    /// Accepts exactly the strings that parse as a `u32` in
    /// `[100_000, 999_999]`, and keeps the string as given.
    pub fn parse(code: String) -> (r: Result<Self, String>)
        ensures
            r matches Ok(c) ==> two_fa_code_valid(code@) && c@ == code@,
            r is Err ==> !two_fa_code_valid(code@),
    {
        match parse_decimal_u32(code.as_str()) {
            Some(v) => {
                if 100_000 <= v && v <= 999_999 {
                    Ok(TwoFACode(code))
                } else {
                    Err("Invalid 2FA code".to_owned())
                }
            },
            None => Err("Invalid 2FA code".to_owned()),
        }
    }

    pub fn as_ref(&self) -> (r: &String)
        ensures
            r@ == self@,
    {
        &self.0
    }

    pub fn clone(&self) -> (r: Self)
        ensures
            r == *self,
    {
        TwoFACode(self.0.clone())
    }
}

impl Default for TwoFACode {
    /// A fresh uniformly random code, rendered as exactly six digits.
    fn default() -> (r: Self)
        ensures
            two_fa_code_valid(r@),
    {
        let v = random_two_fa_value();
        proof {
            reveal_with_fuel(pow10, 7);
        }
        let s = decimal_digits(v, 6);
        proof {
            assert(s@[0] != '+');
            assert(numeric_part(s@) =~= s@);
        }
        TwoFACode(s)
    }
}

impl PartialEq for TwoFACode {
    fn eq(&self, other: &Self) -> bool {
        self.0 == other.0
    }
}

impl vstd::std_specs::cmp::PartialEqSpecImpl for TwoFACode {
    open spec fn obeys_eq_spec() -> bool {
        true
    }

    open spec fn eq_spec(&self, other: &Self) -> bool {
        self@ == other@
    }
}

// ---------------------------------------------------------------------------
// Store errors
// ---------------------------------------------------------------------------

#[derive(Debug, PartialEq, Eq, Structural)]
pub enum UserStoreError {
    UserAlreadyExists,
    UserNotFound,
    InvalidCredentials,
    UnexpectedError,
}

#[derive(Debug, PartialEq, Eq, Structural)]
pub enum BannedTokenStoreError {
    UnexpectedError,
}

#[derive(Debug, PartialEq, Eq, Structural)]
pub enum TwoFACodeStoreError {
    LoginAttemptIdNotFound,
    UnexpectedError,
}

// ---------------------------------------------------------------------------
// Store contracts
// ---------------------------------------------------------------------------

/// Owner of the user records, keyed by email. `add_user` must observe a
/// duplicate atomically; `validate_user` checks a candidate password.
pub trait UserStore: Sized {
    /// The records currently held, as a map from email to user.
    spec fn users(&self) -> Map<Seq<char>, UserV>;

    fn add_user(&mut self, user: User) -> (r: Result<(), UserStoreError>)
        ensures
            (match r {
                Ok(()) => !old(self).users().dom().contains(user@.email) && final(self).users()
                    == old(self).users().insert(user@.email, user@),
                Err(UserStoreError::UserAlreadyExists) => old(self).users().dom().contains(
                    user@.email,
                ) && final(self).users() == old(self).users(),
                Err(_) => false,
            }),
    ;

    fn get_user(&self, email: &Email) -> (r: Result<User, UserStoreError>)
        ensures
            (match r {
                Ok(u) => self.users().dom().contains(email@) && u@ == self.users()[email@]
                    && u@.email == email@,
                Err(UserStoreError::UserNotFound) => !self.users().dom().contains(email@),
                Err(_) => false,
            }),
    ;

    fn validate_user(&self, email: &Email, password: &Password) -> (r: Result<
        (),
        UserStoreError,
    >)
        ensures
            (match r {
                Ok(()) => self.users().dom().contains(email@) && self.users()[email@].password
                    == password@,
                Err(UserStoreError::UserNotFound) => !self.users().dom().contains(email@),
                Err(UserStoreError::InvalidCredentials) => self.users().dom().contains(email@)
                    && self.users()[email@].password != password@,
                Err(_) => false,
            }),
    ;
}

/// Owner of the set of revoked session tokens. Absence means "not known to
/// be revoked", not "valid".
pub trait BannedTokenStore: Sized {
    /// The tokens currently recorded as revoked.
    spec fn tokens(&self) -> Set<Seq<char>>;

    fn add_token(&mut self, token: String) -> (r: Result<(), BannedTokenStoreError>)
        ensures
            r is Ok,
            final(self).tokens() == old(self).tokens().insert(token@),
    ;

    fn contains_token(&self, token: &str) -> (r: Result<bool, BannedTokenStoreError>)
        ensures
            r matches Ok(b) && b == self.tokens().contains(token@),
    ;
}

/// Owner of at most one pending (attempt id, code) pair per email.
/// `add_code` overwrites any prior pending challenge: last writer wins.
pub trait TwoFACodeStore: Sized {
    /// The pending challenges, as a map from email to (attempt id, code).
    spec fn codes(&self) -> Map<Seq<char>, (Seq<char>, Seq<char>)>;

    fn add_code(&mut self, email: Email, login_attempt_id: LoginAttemptId, code: TwoFACode) -> (r:
        Result<(), TwoFACodeStoreError>)
        ensures
            r is Ok,
            final(self).codes() == old(self).codes().insert(email@, (login_attempt_id@, code@)),
    ;

    fn remove_code(&mut self, email: &Email) -> (r: Result<(), TwoFACodeStoreError>)
        ensures
            final(self).codes() == old(self).codes().remove(email@),
            r is Ok <==> old(self).codes().dom().contains(email@),
            r is Err ==> r matches Err(TwoFACodeStoreError::UnexpectedError),
    ;

    fn get_code(&self, email: &Email) -> (r: Result<
        (LoginAttemptId, TwoFACode),
        TwoFACodeStoreError,
    >)
        ensures
            (match r {
                Ok(pair) => self.codes().dom().contains(email@) && self.codes()[email@] == (
                    pair.0@,
                    pair.1@,
                ),
                Err(TwoFACodeStoreError::LoginAttemptIdNotFound) => !self.codes().dom().contains(
                    email@,
                ),
                Err(_) => false,
            }),
    ;
}

} // verus!
