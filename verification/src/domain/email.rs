use vstd::prelude::*;
use vstd::string::StrSliceExecFns;

verus! {

/// An email address is accepted when it is non-empty and contains an `'@'`.
/// Equality is exact string comparison: no case folding or normalization.
pub open spec fn email_valid(s: Seq<char>) -> bool {
    s.len() > 0 && s.contains('@')
}

/// A validated email address, the unique key for user records and for
/// pending two-factor challenges.
#[derive(Debug)]
pub struct Email(String);

impl View for Email {
    type V = Seq<char>;

    closed spec fn view(&self) -> Seq<char> {
        self.0@
    }
}

impl Email {
    /// Accepts exactly the non-empty strings that contain an `'@'`.
    pub fn parse(email: String) -> (r: Result<Self, String>)
        ensures
            r matches Ok(e) ==> email_valid(email@) && e@ == email@,
            r is Err ==> !email_valid(email@),
    {
        let n = email.as_str().unicode_len();
        let mut i: usize = 0;
        let mut found = false;
        while i < n && !found
            invariant
                n == email@.len(),
                i <= n,
                !found ==> forall|j: int| 0 <= j < i ==> email@[j] != '@',
                found ==> email@.contains('@'),
            decreases n - i,
        {
            if email.as_str().get_char(i) == '@' {
                found = true;
            }
            i += 1;
        }
        if n > 0 && found {
            Ok(Email(email))
        } else {
            Err("Failed to parse string to an Email type".to_owned())
        }
    }

    pub fn as_ref(&self) -> (r: &String)
        ensures
            r@ == self@,
    {
        &self.0
    }

    pub fn clone(&self) -> (r: Self)
        ensures
            r == *self,
    {
        Email(self.0.clone())
    }
}

impl PartialEq for Email {
    fn eq(&self, other: &Self) -> bool {
        self.0 == other.0
    }
}

impl vstd::std_specs::cmp::PartialEqSpecImpl for Email {
    open spec fn obeys_eq_spec() -> bool {
        true
    }

    open spec fn eq_spec(&self, other: &Self) -> bool {
        self@ == other@
    }
}

} // verus!
