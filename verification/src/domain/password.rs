use vstd::prelude::*;

verus! {

/// A candidate password is accepted when its UTF-8 encoding is at least
/// eight bytes long.
pub open spec fn password_valid(s: Seq<char>) -> bool {
    vstd::utf8::encode_utf8(s).len() >= 8
}

/// A validated password. Held only transiently before hashing; the in-memory
/// credential store compares it by value.
#[derive(Debug)]
pub struct Password(String);

impl View for Password {
    type V = Seq<char>;

    closed spec fn view(&self) -> Seq<char> {
        self.0@
    }
}

impl Password {
    /// Accepts exactly the strings of at least eight bytes.
    pub fn parse(password: String) -> (r: Result<Self, String>)
        ensures
            r matches Ok(p) ==> password_valid(password@) && p@ == password@,
            r is Err ==> !password_valid(password@),
    {
        if password.as_str().as_bytes().len() >= 8 {
            Ok(Password(password))
        } else {
            Err("invalid password".to_owned())
        }
    }

    pub fn as_ref(&self) -> (r: &String)
        ensures
            r@ == self@,
    {
        &self.0
    }

    pub fn clone(&self) -> (r: Self)
        ensures
            r == *self,
    {
        Password(self.0.clone())
    }
}

impl PartialEq for Password {
    fn eq(&self, other: &Self) -> bool {
        self.0 == other.0
    }
}

impl vstd::std_specs::cmp::PartialEqSpecImpl for Password {
    open spec fn obeys_eq_spec() -> bool {
        true
    }

    open spec fn eq_spec(&self, other: &Self) -> bool {
        self@ == other@
    }
}

} // verus!
