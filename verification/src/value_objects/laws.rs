//! Laws of the value objects: what they keep is itself acceptable, and an
//! expiry, once reached, stays reached.

use vstd::prelude::*;

use crate::text::{
    digit_value, all_ascii, ascii_lower, ascii_lower_char, is_white_space, lowercase, trim_end, trim_start,
    trimmed,
};
use crate::value_objects::payer::email::{is_valid_email, normalized_email};
use crate::value_objects::expiration::UtcDateTime;
use crate::value_objects::payer::document::{
    cnpj_weights_first, cnpj_weights_second, descending_weights, is_valid_cnpj_digits,
    is_valid_cpf_digits, is_valid_document, only_digits, weighted_sum, DocumentType,
};
use crate::value_objects::payer::name::is_valid_name;

verus! {

proof fn lemma_trim_start_head(s: Seq<char>)
    ensures
        trim_start(s).len() == 0 || !is_white_space(trim_start(s)[0]),
    decreases s.len(),
{
    if s.len() > 0 && is_white_space(s[0]) {
        lemma_trim_start_head(s.drop_first());
    }
}

proof fn lemma_trim_end_shape(s: Seq<char>)
    ensures
        trim_end(s).len() <= s.len(),
        trim_end(s) == s.subrange(0, trim_end(s).len() as int),
        trim_end(s).len() == 0 || !is_white_space(trim_end(s).last()),
        s.len() > 0 && !is_white_space(s[0]) ==> trim_end(s).len() > 0,
    decreases s.len(),
{
    if s.len() > 0 && is_white_space(s.last()) {
        lemma_trim_end_shape(s.drop_last());
        let t = trim_end(s.drop_last());
        assert(s.drop_last().subrange(0, t.len() as int) =~= s.subrange(0, t.len() as int));
        if s.len() > 1 && !is_white_space(s[0]) {
            assert(s.drop_last()[0] == s[0]);
        }
    } else {
        assert(s.subrange(0, s.len() as int) =~= s);
    }
}

/// Trimming is idempotent: trimmed text has nothing left to trim.
pub proof fn trimming_is_idempotent(s: Seq<char>)
    ensures
        trimmed(trimmed(s)) == trimmed(s),
{
    let t = trim_start(s);
    let u = trimmed(s);
    lemma_trim_start_head(s);
    lemma_trim_end_shape(t);
    if u.len() > 0 {
        assert(u[0] == t[0]);
    }
    assert(trim_start(u) == u);
    lemma_trim_end_shape(u);
    assert(trim_end(u) == u);
}

/// The text a `Name` keeps is a name that `Name::new` accepts again and
/// keeps unchanged.
pub proof fn kept_name_is_accepted_again(input: Seq<char>)
    requires
        is_valid_name(trimmed(input)),
    ensures
        is_valid_name(trimmed(trimmed(input))),
        trimmed(trimmed(input)) == trimmed(input),
{
    trimming_is_idempotent(input);
}

proof fn lemma_only_digits_are_digits(s: Seq<char>)
    ensures
        forall|i: int|
            0 <= i < only_digits(s).len() ==> '0' <= #[trigger] only_digits(s)[i] <= '9',
    decreases s.len(),
{
    if s.len() > 0 {
        let prev = only_digits(s.drop_last());
        lemma_only_digits_are_digits(s.drop_last());
        assert forall|i: int| 0 <= i < only_digits(s).len() implies '0' <= #[trigger] only_digits(
            s,
        )[i] <= '9' by {
            if i < prev.len() {
                assert(only_digits(s)[i] == prev[i]);
            }
        }
    }
}

proof fn lemma_only_digits_keeps_digits(s: Seq<char>)
    requires
        forall|i: int| 0 <= i < s.len() ==> '0' <= #[trigger] s[i] <= '9',
    ensures
        only_digits(s) == s,
    decreases s.len(),
{
    if s.len() > 0 {
        lemma_only_digits_keeps_digits(s.drop_last());
        assert(s.drop_last().push(s.last()) =~= s);
    }
}

/// The digits a `Document` keeps form a valid number of the same type:
/// dropping punctuation neither makes nor breaks a document.
pub proof fn kept_document_number_is_valid(number: Seq<char>, document_type: DocumentType)
    ensures
        is_valid_document(only_digits(number), document_type) == is_valid_document(
            number,
            document_type,
        ),
{
    lemma_only_digits_are_digits(number);
    lemma_only_digits_keeps_digits(only_digits(number));
}

/// An expiry, once reached, stays reached: if it has come by `earlier`, it
/// has come by every later instant.
pub proof fn expiry_is_permanent(expires_at: UtcDateTime, earlier: UtcDateTime, later: UtcDateTime)
    requires
        expires_at.no_later_than(earlier),
        earlier.no_later_than(later),
    ensures
        expires_at.no_later_than(later),
{
}

proof fn lemma_lower_keeps_white_space(c: char)
    ensures
        is_white_space(ascii_lower_char(c)) == is_white_space(c),
        (c as u32) < 0x80 ==> (ascii_lower_char(c) as u32) < 0x80,
        ascii_lower_char(ascii_lower_char(c)) == ascii_lower_char(c),
{
}

proof fn lemma_trim_start_lower(s: Seq<char>)
    ensures
        trim_start(ascii_lower(s)) == ascii_lower(trim_start(s)),
    decreases s.len(),
{
    if s.len() > 0 {
        lemma_lower_keeps_white_space(s[0]);
        assert(ascii_lower(s)[0] == ascii_lower_char(s[0]));
        assert(ascii_lower(s).drop_first() =~= ascii_lower(s.drop_first()));
        lemma_trim_start_lower(s.drop_first());
    } else {
        assert(ascii_lower(s) =~= s);
    }
}

proof fn lemma_trim_end_lower(s: Seq<char>)
    ensures
        trim_end(ascii_lower(s)) == ascii_lower(trim_end(s)),
    decreases s.len(),
{
    if s.len() > 0 {
        lemma_lower_keeps_white_space(s.last());
        assert(ascii_lower(s).last() == ascii_lower_char(s.last()));
        assert(ascii_lower(s).drop_last() =~= ascii_lower(s.drop_last()));
        lemma_trim_end_lower(s.drop_last());
    } else {
        assert(ascii_lower(s) =~= s);
    }
}

/// An accepted address whose trimmed text is ASCII is kept in a form that
/// `Email::new` accepts again and keeps unchanged: normalizing twice is
/// normalizing once.
pub proof fn kept_ascii_email_is_accepted_again(input: Seq<char>)
    requires
        is_valid_email(normalized_email(input)),
        all_ascii(trimmed(input)),
    ensures
        normalized_email(normalized_email(input)) == normalized_email(input),
        is_valid_email(normalized_email(normalized_email(input))),
{
    let t = trimmed(input);
    let n = ascii_lower(t);
    assert(normalized_email(input) == n);
    trimming_is_idempotent(input);
    lemma_trim_start_lower(t);
    lemma_trim_end_lower(trim_start(t));
    assert(trimmed(n) == ascii_lower(trimmed(t)));
    assert(trimmed(n) == n);
    assert forall|i: int| 0 <= i < n.len() implies (#[trigger] n[i] as u32) < 0x80 by {
        lemma_lower_keeps_white_space(t[i]);
    }
    assert(all_ascii(n));
    assert forall|i: int| 0 <= i < n.len() implies #[trigger] ascii_lower(n)[i] == n[i] by {
        lemma_lower_keeps_white_space(t[i]);
    }
    assert(ascii_lower(n) =~= n);
    assert(lowercase(n) == n);
}


/// The sum of the first `k` digits of `d`, each times its weight when `n`
/// digits are weighed: 2 for the rightmost, one more for each place to the
/// left.
pub open spec fn rising_sum(d: Seq<char>, n: int, k: nat) -> int
    decreases k,
{
    if k == 0 {
        0
    } else {
        rising_sum(d, n, (k - 1) as nat) + ((d[k - 1] as int) - 48) * (n + 1 - (k - 1))
    }
}

/// The sum of the first `k` digits of `d`, each times its weight when `n`
/// digits are weighed: 2 for the rightmost, one more for each place to the
/// left, starting again at 2 after 9.
pub open spec fn cycling_sum(d: Seq<char>, n: int, k: nat) -> int
    decreases k,
{
    if k == 0 {
        0
    } else {
        cycling_sum(d, n, (k - 1) as nat) + ((d[k - 1] as int) - 48) * (2 + (n - 1 - (k - 1)) % 8)
    }
}

proof fn lemma_digit_code(c: char)
    ensures
        digit_value(c) == (c as int) - 48,
{
    assert(('0' as u32) == 48);
}

proof fn lemma_rising_sum(d: Seq<char>, n: int, m: nat, k: nat)
    requires
        k <= m,
        n + 1 == m + 1,
    ensures
        rising_sum(d, n, k) == weighted_sum(d, descending_weights(n + 1, m), k),
    decreases k,
{
    if k > 0 {
        lemma_rising_sum(d, n, m, (k - 1) as nat);
        lemma_digit_code(d[k - 1]);
    }
}

proof fn lemma_cycling_first(d: Seq<char>, k: nat)
    requires
        k <= 12,
    ensures
        cycling_sum(d, 12, k) == weighted_sum(d, cnpj_weights_first(), k),
    decreases k,
{
    if k > 0 {
        lemma_cycling_first(d, (k - 1) as nat);
        let i = k - 1;
        lemma_digit_code(d[i]);
        assert(2 + (12 - 1 - i) % 8 == cnpj_weights_first()[i]) by {
            assert(i == 0 || i == 1 || i == 2 || i == 3 || i == 4 || i == 5 || i == 6 || i == 7
                || i == 8 || i == 9 || i == 10 || i == 11);
        }
    }
}

proof fn lemma_cycling_second(d: Seq<char>, k: nat)
    requires
        k <= 13,
    ensures
        cycling_sum(d, 13, k) == weighted_sum(d, cnpj_weights_second(), k),
    decreases k,
{
    if k > 0 {
        lemma_cycling_second(d, (k - 1) as nat);
        let i = k - 1;
        lemma_digit_code(d[i]);
        assert(2 + (13 - 1 - i) % 8 == cnpj_weights_second()[i]) by {
            assert(i == 0 || i == 1 || i == 2 || i == 3 || i == 4 || i == 5 || i == 6 || i == 7
                || i == 8 || i == 9 || i == 10 || i == 11 || i == 12);
        }
    }
}

/// What makes a CPF valid, over its digits `d` (punctuation ignored): there
/// are eleven, not all the same, and each of the last two is the mod-11
/// check digit of all the digits before it, weighed 2, 3, 4, ... from the
/// right: with `s` that sum, the digit is 0 when `s % 11 < 2` and
/// `11 - s % 11` otherwise. Both check digits are fixed, not only the last.
pub proof fn cpf_check_digits(text: Seq<char>)
    ensures
        ({
            let d = only_digits(text);
            let s1 = rising_sum(d, 9, 9);
            let s2 = rising_sum(d, 10, 10);
            is_valid_document(text, DocumentType::Cpf) == is_valid_cpf_digits(d)
                && (is_valid_cpf_digits(d) <==> (d.len() == 11 && (exists|i: int|
                0 <= i < 11 && #[trigger] d[i] != d[0]) && (d[9] as int) - 48 == (if s1 % 11 < 2 {
                0
            } else {
                11 - s1 % 11
            }) && (d[10] as int) - 48 == (if s2 % 11 < 2 {
                0
            } else {
                11 - s2 % 11
            })))
        }),
{
    let d = only_digits(text);
    lemma_rising_sum(d, 9, 9, 9);
    lemma_rising_sum(d, 10, 10, 10);
    if d.len() == 11 {
        lemma_digit_code(d[9]);
        lemma_digit_code(d[10]);
    }
}

/// What makes a CNPJ valid, over its digits `d` (punctuation ignored):
/// there are fourteen, not all the same, and each of the last two is the
/// mod-11 check digit of all the digits before it, weighed 2, 3, ..., 9
/// from the right and then 2, 3, ... again: with `s` that sum, the digit is
/// 0 when `s % 11 < 2` and `11 - s % 11` otherwise.
pub proof fn cnpj_check_digits(text: Seq<char>)
    ensures
        ({
            let d = only_digits(text);
            let s1 = cycling_sum(d, 12, 12);
            let s2 = cycling_sum(d, 13, 13);
            is_valid_document(text, DocumentType::Cnpj) == is_valid_cnpj_digits(d)
                && (is_valid_cnpj_digits(d) <==> (d.len() == 14 && (exists|i: int|
                0 <= i < 14 && #[trigger] d[i] != d[0]) && (d[12] as int) - 48 == (if s1 % 11 < 2 {
                0
            } else {
                11 - s1 % 11
            }) && (d[13] as int) - 48 == (if s2 % 11 < 2 {
                0
            } else {
                11 - s2 % 11
            })))
        }),
{
    let d = only_digits(text);
    lemma_cycling_first(d, 12);
    lemma_cycling_second(d, 13);
    if d.len() == 14 {
        lemma_digit_code(d[12]);
        lemma_digit_code(d[13]);
    }
}

} // verus!
