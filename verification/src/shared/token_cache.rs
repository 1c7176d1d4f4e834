use vstd::prelude::*;

verus! {

/// The session tokens that have already passed validation.
pub struct TokenCache {
    tokens: Vec<String>,
}

/// No token occurs twice.
pub open spec fn distinct_tokens(tokens: Seq<String>) -> bool {
    forall|i: int, j: int|
        0 <= i < tokens.len() && 0 <= j < tokens.len() && i != j ==> #[trigger] tokens[i]@
            != #[trigger] tokens[j]@
}

impl View for TokenCache {
    type V = Set<Seq<char>>;

    closed spec fn view(&self) -> Set<Seq<char>> {
        Set::new(|t: Seq<char>| exists|i: int| 0 <= i < self.tokens@.len() && #[trigger] self.tokens@[i]@ == t)
    }
}

impl TokenCache {
    /// Each token is kept once.
    #[verifier::type_invariant]
    spec fn wf(&self) -> bool {
        distinct_tokens(self.tokens@)
    }

    /// An empty cache.
    pub fn new() -> (cache: TokenCache)
        ensures
            cache@ == Set::<Seq<char>>::empty(),
    {
        let cache = TokenCache { tokens: Vec::new() };
        assert(cache@ =~= Set::<Seq<char>>::empty());
        cache
    }

    /// Whether `token` has already passed validation.
    pub fn contains(&self, token: &String) -> (found: bool)
        ensures
            found == self@.contains(token@),
    {
        let mut i: usize = 0;
        while i < self.tokens.len()
            invariant
                0 <= i <= self.tokens@.len(),
                forall|j: int| 0 <= j < i ==> #[trigger] self.tokens@[j]@ != token@,
            decreases self.tokens@.len() - i,
        {
            if self.tokens[i] == *token {
                assert(self.tokens@[i as int]@ == token@);
                return true;
            }
            i = i + 1;
        }
        false
    }

    /// Remembers `token`; returns whether it was new.
    pub fn insert(&mut self, token: String) -> (added: bool)
        ensures
            final(self)@ == old(self)@.insert(token@),
            added == !old(self)@.contains(token@),
    {
        proof {
            use_type_invariant(&*self);
        }
        if self.contains(&token) {
            assert(self@ =~= self@.insert(token@));
            return false;
        }
        let mut tokens: Vec<String> = Vec::new();
        std::mem::swap(&mut tokens, &mut self.tokens);
        let ghost before = tokens@;
        assert(before == old(self).tokens@);
        tokens.push(token);
        let ghost after = tokens@;
        assert(distinct_tokens(after)) by {
            assert forall|i: int, j: int|
                0 <= i < after.len() && 0 <= j < after.len() && i != j implies #[trigger] after[i]@
                != #[trigger] after[j]@ by {
                if i < before.len() && j < before.len() {
                    assert(after[i] == before[i] && after[j] == before[j]);
                } else if i < before.len() {
                    assert(after[i] == before[i]);
                    assert(!(exists|k: int| 0 <= k < before.len() && #[trigger] before[k]@ == after[j]@));
                } else {
                    assert(after[j] == before[j]);
                }
            }
        }
        self.tokens = tokens;
        assert forall|t: Seq<char>| self@.contains(t) <==> (old(self)@.contains(t) || t == token@) by {
            if self@.contains(t) {
                let k = choose|k: int| 0 <= k < after.len() && #[trigger] after[k]@ == t;
                if k < before.len() {
                    assert(after[k] == before[k]);
                }
            }
            if old(self)@.contains(t) {
                let k = choose|k: int| 0 <= k < before.len() && #[trigger] before[k]@ == t;
                assert(after[k] == before[k]);
            }
            if t == token@ {
                assert(after[before.len() as int]@ == t);
            }
        }
        assert(self@ =~= old(self)@.insert(token@));
        true
    }
}

} // verus!
