use vstd::prelude::*;

use crate::error::ValidationError;
use crate::text::{
    chars_of, is_alphabetic, is_white_space, string_of, sub_vec, trim_bounds, trimmed,
    alphabetic, utf8_len, utf8_len_of, white_space,
};

verus! {

/// The characters that may separate the parts of a name: white space,
/// hyphens and apostrophes.
pub open spec fn is_name_separator(c: char) -> bool {
    is_white_space(c) || c == '-' || c == '\''
}

/// The characters a name may hold: letters and separators.
pub open spec fn is_name_char(c: char) -> bool {
    alphabetic(c) || is_name_separator(c)
}

/// A (trimmed) name that `Name` accepts: 3 to 120 bytes of UTF-8, made of
/// letters and separators, neither starting nor ending with a hyphen or an
/// apostrophe, without two separators in a row, with at least one letter.
pub open spec fn is_valid_name(n: Seq<char>) -> bool {
    &&& 3 <= utf8_len(n) <= 120
    &&& n.len() > 0
    &&& n[0] != '-' && n[0] != '\''
    &&& n.last() != '-' && n.last() != '\''
    &&& forall|i: int| 0 <= i < n.len() ==> is_name_char(#[trigger] n[i])
    &&& forall|i: int|
        0 <= i < n.len() - 1 ==> !(is_name_separator(#[trigger] n[i]) && is_name_separator(
            n[i + 1],
        ))
    &&& exists|i: int| 0 <= i < n.len() && alphabetic(#[trigger] n[i])
}

/// The name of a payer, trimmed and validated.
pub struct Name(String);

impl View for Name {
    type V = Seq<char>;

    closed spec fn view(&self) -> Seq<char> {
        self.0@
    }
}

impl Name {
    #[verifier::type_invariant]
    spec fn well_formed(self) -> bool {
        is_valid_name(self.0@)
    }

    /// Trims `name` and accepts it when the trimmed text is a valid name.
    pub fn new(name: &str) -> (r: Result<Self, ValidationError>)
        ensures
            r is Ok <==> is_valid_name(trimmed(name@)),
            r matches Ok(n) ==> n@ == trimmed(name@),
            r matches Err(e) ==> e == ValidationError::InvalidName,
    {
        let all = chars_of(name);
        let (i, j) = trim_bounds(&all);
        let chars = sub_vec(&all, i, j);
        Self::validate(&chars)?;
        let text = string_of(&chars, 0, chars.len());
        proof {
            assert(chars@.subrange(0, chars@.len() as int) =~= chars@);
        }
        Ok(Name(text))
    }

    fn validate(name: &Vec<char>) -> (r: Result<(), ValidationError>)
        ensures
            r is Ok <==> is_valid_name(name@),
            r matches Err(e) ==> e == ValidationError::InvalidName,
    {
        let n = name.len();
        let bytes = utf8_len_of(name, 0, n);
        proof {
            assert(name@.subrange(0, n as int) =~= name@);
        }
        if bytes < 3 || bytes > 120 {
            return Err(ValidationError::InvalidName);
        }
        if n == 0 {
            return Err(ValidationError::InvalidName);
        }
        if name[0] == '-' || name[n - 1] == '-' || name[0] == '\'' || name[n - 1] == '\'' {
            return Err(ValidationError::InvalidName);
        }
        let mut previous_separator = false;
        let mut k: usize = 0;
        while k < n
            invariant
                n == name.len(),
                k <= n,
                forall|m: int| 0 <= m < k ==> is_name_char(#[trigger] name@[m]),
                forall|m: int|
                    0 <= m < k - 1 ==> !(is_name_separator(#[trigger] name@[m])
                        && is_name_separator(name@[m + 1])),
                previous_separator == (k > 0 && is_name_separator(name@[k - 1])),
            decreases n - k,
        {
            let c = name[k];
            let is_separator = white_space(c) || c == '-' || c == '\'';
            let is_valid = is_alphabetic(c) || is_separator;
            if !is_valid {
                return Err(ValidationError::InvalidName);
            }
            if is_separator {
                if previous_separator {
                    proof {
                        assert(is_name_separator(name@[k - 1]) && is_name_separator(
                            name@[(k - 1) + 1],
                        ));
                    }
                    return Err(ValidationError::InvalidName);
                }
                previous_separator = true;
            } else {
                previous_separator = false;
            }
            k = k + 1;
        }
        let mut k: usize = 0;
        while k < n
            invariant
                n == name.len(),
                k <= n,
                forall|m: int| 0 <= m < k ==> !alphabetic(#[trigger] name@[m]),
                3 <= utf8_len(name@) <= 120,
                n > 0,
                name@[0] != '-' && name@[0] != '\'',
                name@.last() != '-' && name@.last() != '\'',
                forall|m: int| 0 <= m < n ==> is_name_char(#[trigger] name@[m]),
                forall|m: int|
                    0 <= m < n - 1 ==> !(is_name_separator(#[trigger] name@[m])
                        && is_name_separator(name@[m + 1])),
            decreases n - k,
        {
            if is_alphabetic(name[k]) {
                return Ok(());
            }
            k = k + 1;
        }
        Err(ValidationError::InvalidName)
    }

    /// The name's text, a valid name.
    pub fn as_str(&self) -> (r: &str)
        ensures
            r@ == self@,
            is_valid_name(r@),
    {
        proof {
            use_type_invariant(self);
        }
        self.0.as_str()
    }
}

} // verus!
