use vstd::prelude::*;

use crate::text::{
    chars_of, first_index_of, string_of, lowercase, to_lowercase, trim_bounds, trimmed,
    utf8_len, utf8_len_of,
};
use crate::value_objects::error::ValidationError;

verus! {

/// The longest e-mail address accepted, in bytes of UTF-8.
pub const MAX_EMAIL_BYTES: u128 = 254;

/// An (already trimmed and lower-cased) address that `Email` accepts: not
/// empty, at most 254 bytes, with a non-empty part before its first `@`
/// and, after it, a non-empty domain that holds a dot.
pub open spec fn is_valid_email(e: Seq<char>) -> bool {
    let at = first_index_of(e, '@');
    &&& e.len() > 0
    &&& utf8_len(e) <= MAX_EMAIL_BYTES
    &&& at > 0
    &&& at < e.len() - 1
    &&& e.subrange(at + 1, e.len() as int).contains('.')
}

/// What `Email::new` keeps of its input: the text trimmed, then lower-cased.
pub open spec fn normalized_email(input: Seq<char>) -> Seq<char> {
    lowercase(trimmed(input))
}

/// The e-mail address of a payer, trimmed, lower-cased and validated.
#[derive(Debug, PartialEq)]
pub struct Email(String);

impl View for Email {
    type V = Seq<char>;

    closed spec fn view(&self) -> Seq<char> {
        self.0@
    }
}

proof fn lemma_first_index_prefix(s: Seq<char>, c: char, k: int)
    requires
        0 <= k <= s.len(),
        forall|m: int| 0 <= m < k ==> s[m] != c,
    ensures
        first_index_of(s.subrange(0, k), c) == -1,
    decreases k,
{
    if k > 0 {
        let p = s.subrange(0, k);
        assert(p.drop_last() =~= s.subrange(0, k - 1));
        lemma_first_index_prefix(s, c, k - 1);
    }
}

proof fn lemma_first_index_extend(s: Seq<char>, c: char, k: int)
    requires
        0 <= k < s.len(),
        first_index_of(s.subrange(0, k), c) >= 0,
    ensures
        first_index_of(s.subrange(0, k + 1), c) == first_index_of(s.subrange(0, k), c),
{
    assert(s.subrange(0, k + 1).drop_last() =~= s.subrange(0, k));
}

proof fn lemma_first_index_whole(s: Seq<char>, c: char, k: int)
    requires
        0 <= k <= s.len(),
        first_index_of(s.subrange(0, k), c) >= 0,
    ensures
        first_index_of(s, c) == first_index_of(s.subrange(0, k), c),
    decreases s.len() - k,
{
    if k < s.len() {
        lemma_first_index_extend(s, c, k);
        lemma_first_index_whole(s, c, k + 1);
    } else {
        assert(s.subrange(0, k) =~= s);
    }
}

impl Email {
    /// Every `Email` that `new` builds holds a valid address.
    pub open spec fn well_formed(self) -> bool {
        is_valid_email(self@)
    }

    #[verifier::type_invariant]
    spec fn holds_valid_address(self) -> bool {
        is_valid_email(self.0@)
    }

    /// Trims and lower-cases `email`, and accepts the result when it is a
    /// valid address.
    pub fn new(email: &str) -> (r: Result<Self, ValidationError>)
        ensures
            r is Ok <==> is_valid_email(normalized_email(email@)),
            r matches Ok(e) ==> e@ == normalized_email(email@) && e.well_formed(),
            r matches Err(e) ==> e == ValidationError::InvalidEmail,
    {
        let all = chars_of(email);
        let (i, j) = trim_bounds(&all);
        let trimmed_text = string_of(&all, i, j);
        let lowered = to_lowercase(trimmed_text.as_str());
        let e = chars_of(lowered.as_str());
        let n = e.len();
        if n == 0 {
            return Err(ValidationError::InvalidEmail);
        }
        let bytes = utf8_len_of(&e, 0, n);
        proof {
            assert(e@.subrange(0, n as int) =~= e@);
        }
        if bytes > MAX_EMAIL_BYTES {
            return Err(ValidationError::InvalidEmail);
        }
        // the first '@' splits the address into its local part and its domain
        let mut at: usize = 0;
        while at < n && e[at] != '@'
            invariant
                at <= n == e.len(),
                forall|m: int| 0 <= m < at ==> e@[m] != '@',
            decreases n - at,
        {
            at = at + 1;
        }
        proof {
            lemma_first_index_prefix(e@, '@', at as int);
            if at < n {
                assert(e@.subrange(0, at + 1).drop_last() =~= e@.subrange(0, at as int));
                lemma_first_index_whole(e@, '@', at + 1);
            } else {
                assert(e@.subrange(0, at as int) =~= e@);
            }
        }
        if at == n {
            return Err(ValidationError::InvalidEmail);
        }
        if at == 0 {
            return Err(ValidationError::InvalidEmail);
        }
        if at + 1 == n {
            return Err(ValidationError::InvalidEmail);
        }
        let mut k: usize = at + 1;
        while k < n && e[k] != '.'
            invariant
                at + 1 <= k <= n == e.len(),
                forall|m: int| at + 1 <= m < k ==> e@[m] != '.',
            decreases n - k,
        {
            k = k + 1;
        }
        let ghost domain = e@.subrange(at + 1, n as int);
        if k == n {
            proof {
                assert forall|m: int| 0 <= m < domain.len() implies domain[m] != '.' by {
                    assert(domain[m] == e@[m + at + 1]);
                }
            }
            return Err(ValidationError::InvalidEmail);
        }
        proof {
            assert(domain[k - at - 1] == '.');
        }
        Ok(Email(lowered))
    }

    /// The address's text, a valid address.
    pub fn as_str(&self) -> (r: &str)
        ensures
            r@ == self@,
            is_valid_email(r@),
    {
        proof {
            use_type_invariant(self);
        }
        self.0.as_str()
    }
}

impl Clone for Email {
    /// A copy of the same address.
    fn clone(&self) -> (r: Self)
        ensures
            r@ == self@,
    {
        proof {
            use_type_invariant(self);
        }
        Email(self.0.clone())
    }
}

} // verus!
