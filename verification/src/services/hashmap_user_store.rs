use vstd::prelude::*;
use crate::domain::data_stores::{UserStore, UserStoreError};
use crate::domain::email::Email;
use crate::domain::password::Password;
use crate::domain::user::{User, UserV};

verus! {

/// The records a sequence of users stands for, keyed by email.
/// The first record for an email wins; the store never keeps two.
pub open spec fn user_map_of(s: Seq<User>) -> Map<Seq<char>, UserV>
    decreases s.len(),
{
    if s.len() == 0 {
        Map::empty()
    } else {
        user_map_of(s.skip(1)).insert(s[0]@.email, s[0]@)
    }
}

proof fn lemma_user_map_domain(s: Seq<User>, e: Seq<char>)
    ensures
        user_map_of(s).dom().contains(e) <==> exists|i: int|
            0 <= i < s.len() && #[trigger] s[i]@.email == e,
    decreases s.len(),
{
    if s.len() > 0 {
        lemma_user_map_domain(s.skip(1), e);
        if user_map_of(s).dom().contains(e) {
            if s[0]@.email == e {
                assert(s[0]@.email == e);
            } else {
                let i = choose|i: int| 0 <= i < s.skip(1).len() && #[trigger] s.skip(1)[i]@.email
                    == e;
                assert(s[i + 1]@.email == e);
            }
        }
        if exists|i: int| 0 <= i < s.len() && #[trigger] s[i]@.email == e {
            let i = choose|i: int| 0 <= i < s.len() && #[trigger] s[i]@.email == e;
            if i > 0 {
                assert(s.skip(1)[i - 1]@.email == e);
            }
        }
    }
}

/// The first record carrying an email is the one the map holds.
proof fn lemma_user_map_first(s: Seq<User>, i: int)
    requires
        0 <= i < s.len(),
        forall|j: int| 0 <= j < i ==> #[trigger] s[j]@.email != s[i]@.email,
    ensures
        user_map_of(s).dom().contains(s[i]@.email),
        user_map_of(s)[s[i]@.email] == s[i]@,
    decreases i,
{
    if i == 0 {
    } else {
        assert(forall|j: int| 0 <= j < i - 1 ==> #[trigger] s.skip(1)[j]@.email == s[j + 1]@.email);
        lemma_user_map_first(s.skip(1), i - 1);
        assert(s.skip(1)[i - 1]@ == s[i]@);
        assert(s[0]@.email != s[i]@.email);
    }
}

/// Appending a record for a fresh email inserts it into the map.
proof fn lemma_user_map_push_absent(s: Seq<User>, u: User)
    requires
        !user_map_of(s).dom().contains(u@.email),
    ensures
        user_map_of(s.push(u)) == user_map_of(s).insert(u@.email, u@),
    decreases s.len(),
{
    if s.len() == 0 {
        assert(s.push(u).skip(1) =~= Seq::<User>::empty());
        assert(s.push(u)[0] == u);
        assert(user_map_of(Seq::<User>::empty()) =~= Map::<Seq<char>, UserV>::empty());
        assert(user_map_of(s.push(u)) =~= user_map_of(s).insert(u@.email, u@));
    } else {
        let ss = s.skip(1);
        assert(s.push(u).skip(1) =~= ss.push(u));
        lemma_user_map_domain(s, u@.email);
        assert(s[0]@.email != u@.email);
        assert(!user_map_of(ss).dom().contains(u@.email)) by {
            lemma_user_map_domain(ss, u@.email);
            assert(forall|i: int|
                0 <= i < ss.len() ==> #[trigger] ss[i]@.email == s[i + 1]@.email);
        };
        lemma_user_map_push_absent(ss, u);
        assert(user_map_of(s.push(u)) == user_map_of(ss.push(u)).insert(s[0]@.email, s[0]@)) by {
            assert(s.push(u)[0] == s[0]);
        };
        assert(user_map_of(s.push(u)) =~= user_map_of(s).insert(u@.email, u@));
    }
}

/// Finds the first record for an email, if any.
fn find_user(users: &Vec<User>, email: &Email) -> (r: Option<usize>)
    ensures
        r matches Some(i) ==> i < users@.len() && user_map_of(users@).dom().contains(email@)
            && users@[i as int]@.email == email@ && user_map_of(users@)[email@] == users@[
            i as int
        ]@,
        r is None ==> !user_map_of(users@).dom().contains(email@),
{
    let n = users.len();
    let mut i: usize = 0;
    while i < n
        invariant
            i <= n,
            n == users@.len(),
            forall|j: int| 0 <= j < i ==> #[trigger] users@[j]@.email != email@,
        decreases n - i,
    {
        if users[i].email == *email {
            proof {
                lemma_user_map_first(users@, i as int);
            }
            return Some(i);
        }
        i += 1;
    }
    proof {
        lemma_user_map_domain(users@, email@);
    }
    None
}

/// The in-memory credential store, for tests and single-process use.
/// Candidate passwords are compared by value against the stored one.
pub struct HashmapUserStore {
    users: Vec<User>,
}

impl Default for HashmapUserStore {
    fn default() -> (r: Self)
        ensures
            r.users() == Map::<Seq<char>, UserV>::empty(),
    {
        HashmapUserStore { users: Vec::new() }
    }
}

impl UserStore for HashmapUserStore {
    closed spec fn users(&self) -> Map<Seq<char>, UserV> {
        user_map_of(self.users@)
    }

    fn add_user(&mut self, user: User) -> (r: Result<(), UserStoreError>) {
        match find_user(&self.users, &user.email) {
            Some(_) => Err(UserStoreError::UserAlreadyExists),
            None => {
                proof {
                    lemma_user_map_push_absent(self.users@, user);
                }
                self.users.push(user);
                Ok(())
            },
        }
    }

    fn get_user(&self, email: &Email) -> (r: Result<User, UserStoreError>) {
        match find_user(&self.users, email) {
            Some(i) => Ok(self.users[i].clone()),
            None => Err(UserStoreError::UserNotFound),
        }
    }

    fn validate_user(&self, email: &Email, password: &Password) -> (r: Result<
        (),
        UserStoreError,
    >) {
        match find_user(&self.users, email) {
            Some(i) => {
                if self.users[i].password == *password {
                    Ok(())
                } else {
                    Err(UserStoreError::InvalidCredentials)
                }
            },
            None => Err(UserStoreError::UserNotFound),
        }
    }
}

} // verus!
