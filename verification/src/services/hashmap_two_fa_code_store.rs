use vstd::prelude::*;

use crate::domain::data_stores::{LoginAttemptId, TwoFACode, TwoFACodeStore, TwoFACodeStoreError};
use crate::domain::email::Email;

verus! {

/// One pending challenge: the email it belongs to, the attempt id, the code.
pub type PendingEntry = (Email, LoginAttemptId, TwoFACode);

/// The pending challenges a sequence of entries stands for, keyed by email.
/// The first entry for an email wins; the store never keeps two.
pub open spec fn code_map_of(s: Seq<PendingEntry>) -> Map<Seq<char>, (Seq<char>, Seq<char>)>
    decreases s.len(),
{
    if s.len() == 0 {
        Map::empty()
    } else {
        code_map_of(s.skip(1)).insert(s[0].0@, (s[0].1@, s[0].2@))
    }
}

/// The entries left when every entry for one email is dropped.
pub open spec fn without_email(s: Seq<PendingEntry>, e: Seq<char>) -> Seq<PendingEntry>
    decreases s.len(),
{
    if s.len() == 0 {
        s
    } else if s[0].0@ == e {
        without_email(s.skip(1), e)
    } else {
        seq![s[0]] + without_email(s.skip(1), e)
    }
}

proof fn lemma_code_map_domain(s: Seq<PendingEntry>, e: Seq<char>)
    ensures
        code_map_of(s).dom().contains(e) <==> exists|i: int|
            0 <= i < s.len() && #[trigger] s[i].0@ == e,
    decreases s.len(),
{
    if s.len() > 0 {
        lemma_code_map_domain(s.skip(1), e);
        if code_map_of(s).dom().contains(e) {
            if s[0].0@ == e {
                assert(s[0].0@ == e);
            } else {
                let i = choose|i: int| 0 <= i < s.skip(1).len() && #[trigger] s.skip(1)[i].0@ == e;
                assert(s[i + 1].0@ == e);
            }
        }
        if exists|i: int| 0 <= i < s.len() && #[trigger] s[i].0@ == e {
            let i = choose|i: int| 0 <= i < s.len() && #[trigger] s[i].0@ == e;
            if i > 0 {
                assert(s.skip(1)[i - 1].0@ == e);
            }
        }
    }
}

/// The first entry carrying an email is the one the map holds.
proof fn lemma_code_map_first(s: Seq<PendingEntry>, i: int)
    requires
        0 <= i < s.len(),
        forall|j: int| 0 <= j < i ==> #[trigger] s[j].0@ != s[i].0@,
    ensures
        code_map_of(s).dom().contains(s[i].0@),
        code_map_of(s)[s[i].0@] == (s[i].1@, s[i].2@),
    decreases i,
{
    if i == 0 {
    } else {
        assert(forall|j: int| 0 <= j < i - 1 ==> #[trigger] s.skip(1)[j].0@ == s[j + 1].0@);
        lemma_code_map_first(s.skip(1), i - 1);
        assert(s.skip(1)[i - 1] == s[i]);
        assert(s[0].0@ != s[i].0@);
    }
}

/// Appending an entry for a fresh email inserts it into the map.
proof fn lemma_code_map_push_absent(s: Seq<PendingEntry>, x: PendingEntry)
    requires
        !code_map_of(s).dom().contains(x.0@),
    ensures
        code_map_of(s.push(x)) == code_map_of(s).insert(x.0@, (x.1@, x.2@)),
    decreases s.len(),
{
    if s.len() == 0 {
        assert(s.push(x).skip(1) =~= Seq::<PendingEntry>::empty());
        assert(s.push(x)[0] == x);
        assert(code_map_of(Seq::<PendingEntry>::empty()) =~= Map::<
            Seq<char>,
            (Seq<char>, Seq<char>),
        >::empty());
        assert(code_map_of(s.push(x)) =~= code_map_of(s).insert(x.0@, (x.1@, x.2@)));
    } else {
        let ss = s.skip(1);
        assert(s.push(x).skip(1) =~= ss.push(x));
        assert(s.push(x)[0] == s[0]);
        lemma_code_map_domain(s, x.0@);
        assert(s[0].0@ != x.0@);
        assert(!code_map_of(ss).dom().contains(x.0@)) by {
            lemma_code_map_domain(ss, x.0@);
            assert(forall|i: int| 0 <= i < ss.len() ==> #[trigger] ss[i].0@ == s[i + 1].0@);
        };
        lemma_code_map_push_absent(ss, x);
        assert(code_map_of(s.push(x)) =~= code_map_of(s).insert(x.0@, (x.1@, x.2@)));
    }
}

/// Dropping every entry for an email removes exactly that key.
proof fn lemma_without_removes(s: Seq<PendingEntry>, e: Seq<char>)
    ensures
        code_map_of(without_email(s, e)) == code_map_of(s).remove(e),
    decreases s.len(),
{
    if s.len() == 0 {
        assert(code_map_of(without_email(s, e)) =~= code_map_of(s).remove(e));
    } else {
        lemma_without_removes(s.skip(1), e);
        if s[0].0@ == e {
            assert(code_map_of(without_email(s, e)) =~= code_map_of(s).remove(e));
        } else {
            let w = seq![s[0]] + without_email(s.skip(1), e);
            assert(w.skip(1) =~= without_email(s.skip(1), e));
            assert(w[0] == s[0]);
            assert(code_map_of(without_email(s, e)) =~= code_map_of(s).remove(e));
        }
    }
}

/// Appending an entry commutes with dropping an email it does not carry.
proof fn lemma_without_push(s: Seq<PendingEntry>, x: PendingEntry, e: Seq<char>)
    ensures
        without_email(s.push(x), e) == (if x.0@ == e {
            without_email(s, e)
        } else {
            without_email(s, e).push(x)
        }),
    decreases s.len(),
{
    if s.len() == 0 {
        assert(s.push(x).skip(1) =~= Seq::<PendingEntry>::empty());
        assert(s.push(x)[0] == x);
        assert(without_email(Seq::<PendingEntry>::empty(), e) =~= Seq::<PendingEntry>::empty());
        if x.0@ == e {
            assert(without_email(s.push(x), e) =~= without_email(s, e));
        } else {
            assert(without_email(s.push(x), e) =~= without_email(s, e).push(x));
        }
    } else {
        assert(s.push(x).skip(1) =~= s.skip(1).push(x));
        assert(s.push(x)[0] == s[0]);
        lemma_without_push(s.skip(1), x, e);
        if x.0@ == e {
            assert(without_email(s.push(x), e) =~= without_email(s, e));
        } else {
            assert(without_email(s.push(x), e) =~= without_email(s, e).push(x));
        }
    }
}

/// Finds the first entry for an email, if any.
fn find_code(codes: &Vec<PendingEntry>, email: &Email) -> (r: Option<usize>)
    ensures
        r matches Some(i) ==> i < codes@.len() && code_map_of(codes@).dom().contains(email@)
            && codes@[i as int].0@ == email@ && code_map_of(codes@)[email@] == (
            codes@[i as int].1@,
            codes@[i as int].2@,
        ),
        r is None ==> !code_map_of(codes@).dom().contains(email@),
{
    let n = codes.len();
    let mut i: usize = 0;
    while i < n
        invariant
            i <= n,
            n == codes@.len(),
            forall|j: int| 0 <= j < i ==> #[trigger] codes@[j].0@ != email@,
        decreases n - i,
    {
        if codes[i].0 == *email {
            proof {
                lemma_code_map_first(codes@, i as int);
            }
            return Some(i);
        }
        i += 1;
    }
    proof {
        lemma_code_map_domain(codes@, email@);
    }
    None
}

/// Rebuilds the entries with every entry for one email dropped.
fn filtered_codes(codes: &Vec<PendingEntry>, email: &Email) -> (r: Vec<PendingEntry>)
    ensures
        r@ == without_email(codes@, email@),
{
    let n = codes.len();
    let mut out: Vec<PendingEntry> = Vec::new();
    let mut i: usize = 0;
    proof {
        assert(codes@.take(0) =~= Seq::<PendingEntry>::empty());
    }
    while i < n
        invariant
            i <= n,
            n == codes@.len(),
            out@ == without_email(codes@.take(i as int), email@),
        decreases n - i,
    {
        proof {
            assert(codes@.take(i + 1) =~= codes@.take(i as int).push(codes@[i as int]));
            lemma_without_push(codes@.take(i as int), codes@[i as int], email@);
        }
        if !(codes[i].0 == *email) {
            let entry = (codes[i].0.clone(), codes[i].1.clone(), codes[i].2.clone());
            assert(entry == codes@[i as int]);
            out.push(entry);
        }
        i += 1;
    }
    proof {
        assert(codes@.take(n as int) =~= codes@);
    }
    out
}

/// The in-memory two-factor challenge store. It does not track expiry: a
/// pending pair stays until it is overwritten or removed, a known gap of the
/// in-memory implementation.
pub struct HashmapTwoFACodeStore {
    codes: Vec<PendingEntry>,
}

impl Default for HashmapTwoFACodeStore {
    fn default() -> (r: Self)
        ensures
            r.codes() == Map::<Seq<char>, (Seq<char>, Seq<char>)>::empty(),
    {
        HashmapTwoFACodeStore { codes: Vec::new() }
    }
}

impl TwoFACodeStore for HashmapTwoFACodeStore {
    closed spec fn codes(&self) -> Map<Seq<char>, (Seq<char>, Seq<char>)> {
        code_map_of(self.codes@)
    }

    fn add_code(&mut self, email: Email, login_attempt_id: LoginAttemptId, code: TwoFACode) -> (r:
        Result<(), TwoFACodeStoreError>) {
        let ghost orig = self.codes@;
        let filtered = filtered_codes(&self.codes, &email);
        self.codes = filtered;
        proof {
            lemma_without_removes(orig, email@);
        }
        let entry = (email, login_attempt_id, code);
        proof {
            lemma_code_map_push_absent(self.codes@, entry);
        }
        self.codes.push(entry);
        proof {
            assert(code_map_of(self.codes@) =~= code_map_of(orig).insert(
                entry.0@,
                (entry.1@, entry.2@),
            ));
        }
        Ok(())
    }

    fn remove_code(&mut self, email: &Email) -> (r: Result<(), TwoFACodeStoreError>) {
        let ghost orig = self.codes@;
        let present = match find_code(&self.codes, email) {
            Some(_) => true,
            None => false,
        };
        let filtered = filtered_codes(&self.codes, email);
        self.codes = filtered;
        proof {
            lemma_without_removes(orig, email@);
        }
        if present {
            Ok(())
        } else {
            Err(TwoFACodeStoreError::UnexpectedError)
        }
    }

    fn get_code(&self, email: &Email) -> (r: Result<
        (LoginAttemptId, TwoFACode),
        TwoFACodeStoreError,
    >) {
        match find_code(&self.codes, email) {
            Some(i) => Ok((self.codes[i].1.clone(), self.codes[i].2.clone())),
            None => Err(TwoFACodeStoreError::LoginAttemptIdNotFound),
        }
    }
}

} // verus!
