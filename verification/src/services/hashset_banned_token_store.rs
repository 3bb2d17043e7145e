use vstd::prelude::*;

use crate::domain::data_stores::{BannedTokenStore, BannedTokenStoreError};

verus! {

/// The set of tokens a sequence of strings stands for.
pub open spec fn token_set_of(s: Seq<String>) -> Set<Seq<char>>
    decreases s.len(),
{
    if s.len() == 0 {
        Set::empty()
    } else {
        token_set_of(s.skip(1)).insert(s[0]@)
    }
}

proof fn lemma_token_set_domain(s: Seq<String>, t: Seq<char>)
    ensures
        token_set_of(s).contains(t) <==> exists|i: int| 0 <= i < s.len() && #[trigger] s[i]@ == t,
    decreases s.len(),
{
    if s.len() > 0 {
        lemma_token_set_domain(s.skip(1), t);
        if token_set_of(s).contains(t) {
            if s[0]@ == t {
                assert(s[0]@ == t);
            } else {
                let i = choose|i: int| 0 <= i < s.skip(1).len() && #[trigger] s.skip(1)[i]@ == t;
                assert(s[i + 1]@ == t);
            }
        }
        if exists|i: int| 0 <= i < s.len() && #[trigger] s[i]@ == t {
            let i = choose|i: int| 0 <= i < s.len() && #[trigger] s[i]@ == t;
            if i > 0 {
                assert(s.skip(1)[i - 1]@ == t);
            }
        }
    }
}

proof fn lemma_token_set_push(s: Seq<String>, x: String)
    ensures
        token_set_of(s.push(x)) == token_set_of(s).insert(x@),
    decreases s.len(),
{
    if s.len() == 0 {
        assert(s.push(x).skip(1) =~= Seq::<String>::empty());
        assert(s.push(x)[0] == x);
        assert(token_set_of(Seq::<String>::empty()) =~= Set::<Seq<char>>::empty());
        assert(token_set_of(s.push(x)) =~= token_set_of(s).insert(x@));
    } else {
        assert(s.push(x).skip(1) =~= s.skip(1).push(x));
        assert(s.push(x)[0] == s[0]);
        lemma_token_set_push(s.skip(1), x);
        assert(token_set_of(s.push(x)) =~= token_set_of(s).insert(x@));
    }
}

/// Whether a token already stands in the sequence.
fn holds_token(tokens: &Vec<String>, token: &String) -> (r: bool)
    ensures
        r == token_set_of(tokens@).contains(token@),
{
    let n = tokens.len();
    let mut i: usize = 0;
    while i < n
        invariant
            i <= n,
            n == tokens@.len(),
            forall|j: int| 0 <= j < i ==> #[trigger] tokens@[j]@ != token@,
        decreases n - i,
    {
        if tokens[i] == *token {
            proof {
                lemma_token_set_domain(tokens@, token@);
            }
            return true;
        }
        i += 1;
    }
    proof {
        lemma_token_set_domain(tokens@, token@);
    }
    false
}

/// The in-memory revocation store: process-local, lost on restart, which is
/// acceptable for single-instance and test deployments.
pub struct HashsetBannedTokenStore {
    tokens: Vec<String>,
}

impl Default for HashsetBannedTokenStore {
    fn default() -> (r: Self)
        ensures
            r.tokens() == Set::<Seq<char>>::empty(),
    {
        HashsetBannedTokenStore { tokens: Vec::new() }
    }
}

impl BannedTokenStore for HashsetBannedTokenStore {
    closed spec fn tokens(&self) -> Set<Seq<char>> {
        token_set_of(self.tokens@)
    }

    fn add_token(&mut self, token: String) -> (r: Result<(), BannedTokenStoreError>) {
        if holds_token(&self.tokens, &token) {
            proof {
                assert(token_set_of(self.tokens@) =~= token_set_of(self.tokens@).insert(token@));
            }
        } else {
            proof {
                lemma_token_set_push(self.tokens@, token);
            }
            self.tokens.push(token);
        }
        Ok(())
    }

    fn contains_token(&self, token: &str) -> (r: Result<bool, BannedTokenStoreError>) {
        let owned = token.to_owned();
        Ok(holds_token(&self.tokens, &owned))
    }
}

} // verus!
