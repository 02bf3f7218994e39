use vstd::prelude::*;

use crate::text::{
    ascii_lower, ascii_lower_char, chars_of, digit_value, is_ascii_digit, push_char, to_ascii_lower_char,
    trim_bounds, trimmed,
};
use crate::value_objects::error::ValidationError;

verus! {

/// The kinds of Brazilian taxpayer documents: CPF for people, CNPJ for
/// companies.
#[derive(Debug, PartialEq, Eq, Structural)]
pub enum DocumentType {
    Cpf,
    Cnpj,
}

/// What `DocumentType::new` answers for `value`: the text trimmed and
/// lower-cased in ASCII must read `cpf` or `cnpj`.
pub open spec fn document_type_of(value: Seq<char>) -> Result<DocumentType, ValidationError> {
    let t = ascii_lower(trimmed(value));
    if t == seq!['c', 'p', 'f'] {
        Ok(DocumentType::Cpf)
    } else if t == seq!['c', 'n', 'p', 'j'] {
        Ok(DocumentType::Cnpj)
    } else {
        Err(ValidationError::InvalidDocument)
    }
}

impl DocumentType {
    pub fn new(value: &str) -> (r: Result<Self, ValidationError>)
        ensures
            r == document_type_of(value@),
    {
        let all = chars_of(value);
        let (i, j) = trim_bounds(&all);
        let ghost t = ascii_lower(all@.subrange(i as int, j as int));
        assert(t.len() == j - i);
        assert(seq!['c', 'p', 'f'].len() == 3);
        assert(seq!['c', 'n', 'p', 'j'].len() == 4);
        if j - i == 3 {
            let c0 = to_ascii_lower_char(all[i]);
            let c1 = to_ascii_lower_char(all[i + 1]);
            let c2 = to_ascii_lower_char(all[i + 2]);
            proof {
                assert(t[0] == c0 && t[1] == c1 && t[2] == c2);
            }
            if c0 == 'c' && c1 == 'p' && c2 == 'f' {
                assert(t =~= seq!['c', 'p', 'f']);
                return Ok(DocumentType::Cpf);
            }
            proof {
                if t == seq!['c', 'p', 'f'] {
                    assert(t[0] == 'c' && t[1] == 'p' && t[2] == 'f');
                }
            }
        } else if j - i == 4 {
            let c0 = to_ascii_lower_char(all[i]);
            let c1 = to_ascii_lower_char(all[i + 1]);
            let c2 = to_ascii_lower_char(all[i + 2]);
            let c3 = to_ascii_lower_char(all[i + 3]);
            proof {
                assert(t[0] == c0 && t[1] == c1 && t[2] == c2 && t[3] == c3);
            }
            if c0 == 'c' && c1 == 'n' && c2 == 'p' && c3 == 'j' {
                assert(t =~= seq!['c', 'n', 'p', 'j']);
                return Ok(DocumentType::Cnpj);
            }
            proof {
                if t == seq!['c', 'n', 'p', 'j'] {
                    assert(t[0] == 'c' && t[1] == 'n' && t[2] == 'p' && t[3] == 'j');
                }
            }
        }
        Err(ValidationError::InvalidDocument)
    }
}

/// The ASCII digits of `s`, in order, everything else dropped.
pub open spec fn only_digits(s: Seq<char>) -> Seq<char>
    decreases s.len(),
{
    if s.len() == 0 {
        seq![]
    } else if is_ascii_digit(s.last()) {
        only_digits(s.drop_last()).push(s.last())
    } else {
        only_digits(s.drop_last())
    }
}

/// Whether every character of `s` equals the first.
pub open spec fn all_equal(s: Seq<char>) -> bool {
    forall|i: int| 0 <= i < s.len() ==> #[trigger] s[i] == s[0]
}

/// `d[0] * w[0] + ... + d[n-1] * w[n-1]`, over the digit values of `d`.
pub open spec fn weighted_sum(d: Seq<char>, w: Seq<int>, n: nat) -> int
    decreases n,
{
    if n == 0 {
        0
    } else {
        weighted_sum(d, w, (n - 1) as nat) + digit_value(d[n - 1]) * w[n - 1]
    }
}

/// The check digit that a weighted sum yields: 0 when the sum leaves a
/// remainder below 2 when divided by 11, else 11 minus that remainder.
pub open spec fn check_digit(sum: int) -> int {
    if sum % 11 < 2 {
        0
    } else {
        11 - sum % 11
    }
}

/// The descending weights `first, first - 1, ..., first - n + 1`.
pub open spec fn descending_weights(first: int, n: nat) -> Seq<int> {
    Seq::new(n, |i: int| first - i)
}

/// The weights of a CNPJ's first check digit.
pub open spec fn cnpj_weights_first() -> Seq<int> {
    seq![5, 4, 3, 2, 9, 8, 7, 6, 5, 4, 3, 2]
}

/// The weights of a CNPJ's second check digit.
pub open spec fn cnpj_weights_second() -> Seq<int> {
    seq![6, 5, 4, 3, 2, 9, 8, 7, 6, 5, 4, 3, 2]
}

/// The digits of a valid CPF: eleven, not all equal, the tenth and the
/// eleventh being the check digits of the nine and ten before them.
pub open spec fn is_valid_cpf_digits(d: Seq<char>) -> bool {
    &&& d.len() == 11
    &&& !all_equal(d)
    &&& digit_value(d[9]) == check_digit(weighted_sum(d, descending_weights(10, 9), 9))
    &&& digit_value(d[10]) == check_digit(weighted_sum(d, descending_weights(11, 10), 10))
}

/// The digits of a valid CNPJ: fourteen, not all equal, the thirteenth and
/// the fourteenth being the check digits of the twelve and thirteen before
/// them.
pub open spec fn is_valid_cnpj_digits(d: Seq<char>) -> bool {
    &&& d.len() == 14
    &&& !all_equal(d)
    &&& digit_value(d[12]) == check_digit(weighted_sum(d, cnpj_weights_first(), 12))
    &&& digit_value(d[13]) == check_digit(weighted_sum(d, cnpj_weights_second(), 13))
}

/// Whether `number`, its non-digits ignored, is a valid document of the
/// given type.
pub open spec fn is_valid_document(number: Seq<char>, document_type: DocumentType) -> bool {
    match document_type {
        DocumentType::Cpf => is_valid_cpf_digits(only_digits(number)),
        DocumentType::Cnpj => is_valid_cnpj_digits(only_digits(number)),
    }
}

/// A validated CPF or CNPJ, kept as its digits alone.
#[derive(Debug, PartialEq)]
pub struct Document {
    number: String,
    document_type: DocumentType,
}

impl Document {
    #[verifier::type_invariant]
    spec fn well_formed(self) -> bool {
        &&& is_valid_document(self.number@, self.document_type)
        &&& only_digits(self.number@) == self.number@
    }

    /// The digits of the document.
    pub closed spec fn spec_number(self) -> Seq<char> {
        self.number@
    }

    /// The type of the document.
    pub closed spec fn spec_document_type(self) -> DocumentType {
        self.document_type
    }

    /// The digits of the document: ASCII digits alone, forming a valid
    /// number of the document's type.
    pub fn number(&self) -> (r: &str)
        ensures
            r@ == self.spec_number(),
            only_digits(r@) == r@,
            forall|i: int| 0 <= i < r@.len() ==> is_ascii_digit(#[trigger] r@[i]),
            is_valid_document(r@, self.spec_document_type()),
    {
        proof {
            use_type_invariant(self);
            lemma_only_digits_all_digits(self.number@);
        }
        self.number.as_str()
    }

    /// The type of the document, of which its number is a valid one.
    pub fn document_type(&self) -> (r: &DocumentType)
        ensures
            *r == self.spec_document_type(),
            is_valid_document(self.spec_number(), *r),
            only_digits(self.spec_number()) == self.spec_number(),
    {
        proof {
            use_type_invariant(self);
        }
        &self.document_type
    }

    /// Accepts `number` when, its non-digits ignored, it is a valid document
    /// of `document_type`, and keeps its digits alone.
    pub fn new(number: &str, document_type: DocumentType) -> (r: Result<Self, ValidationError>)
        ensures
            r is Ok <==> is_valid_document(number@, document_type),
            r matches Ok(d) ==> d.spec_number() == only_digits(number@) && d.spec_document_type()
                == document_type,
            r matches Err(e) ==> e == ValidationError::InvalidDocument,
    {
        match document_type {
            DocumentType::Cpf => validar_cpf(number)?,
            DocumentType::Cnpj => validar_cnpj(number)?,
        }
        let normalized = Self::normalize(number);
        proof {
            lemma_only_digits_idempotent(number@);
        }
        Ok(Document { number: normalized, document_type })
    }

    fn normalize(document: &str) -> (r: String)
        ensures
            r@ == only_digits(document@),
    {
        somente_numeros(document)
    }
}

proof fn lemma_only_digits_all_digits(s: Seq<char>)
    ensures
        forall|i: int| 0 <= i < only_digits(s).len() ==> is_ascii_digit(#[trigger] only_digits(s)[i]),
    decreases s.len(),
{
    if s.len() > 0 {
        let prev = only_digits(s.drop_last());
        lemma_only_digits_all_digits(s.drop_last());
        assert forall|i: int| 0 <= i < only_digits(s).len() implies is_ascii_digit(
            #[trigger] only_digits(s)[i],
        ) by {
            if i < prev.len() {
                assert(only_digits(s)[i] == prev[i]);
            }
        }
    }
}

proof fn lemma_only_digits_of_digits(s: Seq<char>)
    requires
        forall|i: int| 0 <= i < s.len() ==> is_ascii_digit(#[trigger] s[i]),
    ensures
        only_digits(s) == s,
    decreases s.len(),
{
    if s.len() > 0 {
        lemma_only_digits_of_digits(s.drop_last());
        assert(s.drop_last().push(s.last()) =~= s);
    }
}

proof fn lemma_only_digits_idempotent(s: Seq<char>)
    ensures
        only_digits(only_digits(s)) == only_digits(s),
{
    lemma_only_digits_all_digits(s);
    lemma_only_digits_of_digits(only_digits(s));
}

/// Whether `cpf`, its non-digits ignored, is a valid CPF.
pub fn validar_cpf(cpf: &str) -> (r: Result<(), ValidationError>)
    ensures
        r is Ok <==> is_valid_cpf_digits(only_digits(cpf@)),
        r matches Err(e) ==> e == ValidationError::InvalidDocument,
{
    let digits_only = somente_numeros(cpf);
    let chars = chars_of(digits_only.as_str());
    proof {
        lemma_only_digits_all_digits(cpf@);
    }
    if chars.len() != 11 {
        return Err(ValidationError::InvalidDocument);
    }
    if todos_iguais(&chars) {
        return Err(ValidationError::InvalidDocument);
    }
    let digits = str_para_digits(&chars)?;
    let dv1 = calcular_digito(&digits, 9, 10);
    let dv2 = calcular_digito(&digits, 10, 11);
    proof {
        lemma_descending_matches(chars@, digits@, 10, 9);
        lemma_descending_matches(chars@, digits@, 11, 10);
    }
    if digits[9] != dv1 || digits[10] != dv2 {
        return Err(ValidationError::InvalidDocument);
    }
    Ok(())
}

/// Whether `cnpj`, its non-digits ignored, is a valid CNPJ.
pub fn validar_cnpj(cnpj: &str) -> (r: Result<(), ValidationError>)
    ensures
        r is Ok <==> is_valid_cnpj_digits(only_digits(cnpj@)),
        r matches Err(e) ==> e == ValidationError::InvalidDocument,
{
    let digits_only = somente_numeros(cnpj);
    let chars = chars_of(digits_only.as_str());
    proof {
        lemma_only_digits_all_digits(cnpj@);
    }
    if chars.len() != 14 {
        return Err(ValidationError::InvalidDocument);
    }
    if todos_iguais(&chars) {
        return Err(ValidationError::InvalidDocument);
    }
    let digits = str_para_digits(&chars)?;
    let pesos_dv1: [u32; 12] = [5, 4, 3, 2, 9, 8, 7, 6, 5, 4, 3, 2];
    let pesos_dv2: [u32; 13] = [6, 5, 4, 3, 2, 9, 8, 7, 6, 5, 4, 3, 2];
    proof {
        assert(pesos_dv1@ =~= seq![5u32, 4, 3, 2, 9, 8, 7, 6, 5, 4, 3, 2]);
        assert(pesos_dv2@ =~= seq![6u32, 5, 4, 3, 2, 9, 8, 7, 6, 5, 4, 3, 2]);
    }
    let soma1 = weighted(&digits, &pesos_dv1, 12);
    let dv1 = if soma1 % 11 < 2 {
        0
    } else {
        11 - soma1 % 11
    };
    let soma2 = weighted(&digits, &pesos_dv2, 13);
    let dv2 = if soma2 % 11 < 2 {
        0
    } else {
        11 - soma2 % 11
    };
    proof {
        assert forall|i: int| 0 <= i < 12 implies pesos_dv1@[i] as int == #[trigger] cnpj_weights_first()[i] by {
            assert(pesos_dv1@ =~= seq![5u32, 4, 3, 2, 9, 8, 7, 6, 5, 4, 3, 2]);
        }
        assert forall|i: int| 0 <= i < 13 implies pesos_dv2@[i] as int == #[trigger] cnpj_weights_second()[i] by {
            assert(pesos_dv2@ =~= seq![6u32, 5, 4, 3, 2, 9, 8, 7, 6, 5, 4, 3, 2]);
        }
        lemma_dot_matches(chars@, digits@, pesos_dv1@, cnpj_weights_first(), 12);
        lemma_dot_matches(chars@, digits@, pesos_dv2@, cnpj_weights_second(), 13);
    }
    if digits[12] != dv1 || digits[13] != dv2 {
        return Err(ValidationError::InvalidDocument);
    }
    Ok(())
}

/// The ASCII digits of `input`, in order.
fn somente_numeros(input: &str) -> (r: String)
    ensures
        r@ == only_digits(input@),
{
    let chars = chars_of(input);
    let mut out = String::new();
    let mut k: usize = 0;
    while k < chars.len()
        invariant
            k <= chars.len(),
            out@ == only_digits(chars@.subrange(0, k as int)),
        decreases chars.len() - k,
    {
        let c = chars[k];
        proof {
            assert(chars@.subrange(0, k + 1).drop_last() =~= chars@.subrange(0, k as int));
        }
        if '0' <= c && c <= '9' {
            push_char(&mut out, c);
        }
        k = k + 1;
    }
    proof {
        assert(chars@.subrange(0, chars@.len() as int) =~= chars@);
    }
    out
}

/// Whether every character of `input` equals the first.
fn todos_iguais(input: &Vec<char>) -> (r: bool)
    ensures
        r == all_equal(input@),
{
    let n = input.len();
    if n == 0 {
        return true;
    }
    let first = input[0];
    let mut k: usize = 0;
    while k < n
        invariant
            n == input.len() > 0,
            first == input@[0],
            k <= n,
            forall|m: int| 0 <= m < k ==> #[trigger] input@[m] == input@[0],
        decreases n - k,
    {
        if input[k] != first {
            return false;
        }
        k = k + 1;
    }
    true
}

/// The values of the digits `input`, which holds ASCII digits alone.
fn str_para_digits(input: &Vec<char>) -> (r: Result<Vec<u32>, ValidationError>)
    requires
        forall|i: int| 0 <= i < input.len() ==> is_ascii_digit(#[trigger] input@[i]),
    ensures
        r is Ok,
        r matches Ok(d) ==> d.len() == input.len(),
        r matches Ok(d) ==> forall|i: int|
            0 <= i < d.len() ==> #[trigger] d@[i] == digit_value(input@[i]) && d@[i] <= 9,
{
    let mut out: Vec<u32> = Vec::new();
    let mut k: usize = 0;
    while k < input.len()
        invariant
            k <= input.len(),
            forall|i: int| 0 <= i < input.len() ==> is_ascii_digit(#[trigger] input@[i]),
            out.len() == k,
            forall|i: int|
                0 <= i < k ==> out@[i] == digit_value(#[trigger] input@[i]) && out@[i] <= 9,
        decreases input.len() - k,
    {
        let c = input[k];
        let d = (c as u32) - ('0' as u32);
        out.push(d);
        k = k + 1;
    }
    Ok(out)
}

/// `digits[0] * weights[0] + ... + digits[n-1] * weights[n-1]`.
fn weighted(digits: &Vec<u32>, weights: &[u32], n: usize) -> (r: u32)
    requires
        n <= digits.len(),
        n <= weights@.len(),
        n <= 14,
        forall|i: int| 0 <= i < n ==> #[trigger] digits@[i] <= 9,
        forall|i: int| 0 <= i < n ==> #[trigger] weights@[i] <= 11,
    ensures
        r == dot(digits@, weights@, n as nat),
        r <= 99 * n,
{
    let mut total: u32 = 0;
    let mut k: usize = 0;
    while k < n
        invariant
            k <= n <= digits.len(),
            n <= weights@.len(),
            n <= 14,
            forall|i: int| 0 <= i < n ==> #[trigger] digits@[i] <= 9,
            forall|i: int| 0 <= i < n ==> #[trigger] weights@[i] <= 11,
            total == dot(digits@, weights@, k as nat),
            total <= 99 * k,
        decreases n - k,
    {
        let d = digits[k];
        let w = weights[k];
        assert(d * w <= 99) by (nonlinear_arith)
            requires
                d <= 9,
                w <= 11,
        ;
        total = total + d * w;
        k = k + 1;
    }
    total
}

/// `d[0] * w[0] + ... + d[n-1] * w[n-1]` over machine integers.
pub open spec fn dot(d: Seq<u32>, w: Seq<u32>, n: nat) -> int
    decreases n,
{
    if n == 0 {
        0
    } else {
        dot(d, w, (n - 1) as nat) + d[n - 1] * w[n - 1]
    }
}

/// `d[0] * first + d[1] * (first - 1) + ...` over the first `n` values.
pub open spec fn descending_dot(d: Seq<u32>, first: int, n: nat) -> int
    decreases n,
{
    if n == 0 {
        0
    } else {
        descending_dot(d, first, (n - 1) as nat) + d[n - 1] * (first - (n - 1))
    }
}

/// The check digit of `base[..n]` under the weights `peso_inicial`,
/// `peso_inicial - 1`, ..., down to 2. The bound on `peso_inicial` keeps the
/// weighted sum within a `u32`.
fn calcular_digito(base: &Vec<u32>, n: usize, peso_inicial: u32) -> (r: u32)
    requires
        n <= base.len(),
        n + 1 == peso_inicial <= 1000,
        forall|i: int| 0 <= i < n ==> #[trigger] base@[i] <= 9,
    ensures
        r == check_digit(descending_dot(base@, peso_inicial as int, n as nat)),
{
    let mut soma: u32 = 0;
    let mut k: usize = 0;
    while k < n
        invariant
            k <= n <= base.len(),
            n + 1 == peso_inicial <= 1000,
            forall|i: int| 0 <= i < n ==> #[trigger] base@[i] <= 9,
            soma == descending_dot(base@, peso_inicial as int, k as nat),
            soma <= 9000 * k,
        decreases n - k,
    {
        let d = base[k];
        let p = peso_inicial - (k as u32);
        assert(d * p <= 9000) by (nonlinear_arith)
            requires
                d <= 9,
                p <= 1000,
        ;
        soma = soma + d * p;
        k = k + 1;
    }
    let resto = soma % 11;
    if resto < 2 {
        0
    } else {
        11 - resto
    }
}

proof fn lemma_descending_matches(chars: Seq<char>, digits: Seq<u32>, first: int, n: nat)
    requires
        n <= chars.len(),
        n <= digits.len(),
        forall|i: int| 0 <= i < n ==> digits[i] == digit_value(#[trigger] chars[i]),
    ensures
        descending_dot(digits, first, n) == weighted_sum(chars, descending_weights(first, n), n),
{
    lemma_descending_prefix(chars, digits, first, n, n);
}

proof fn lemma_descending_prefix(chars: Seq<char>, digits: Seq<u32>, first: int, len: nat, n: nat)
    requires
        n <= len,
        len <= chars.len(),
        len <= digits.len(),
        forall|i: int| 0 <= i < len ==> digits[i] == digit_value(#[trigger] chars[i]),
    ensures
        descending_dot(digits, first, n) == weighted_sum(chars, descending_weights(first, len), n),
    decreases n,
{
    if n > 0 {
        lemma_descending_prefix(chars, digits, first, len, (n - 1) as nat);
        assert(digits[n - 1] == digit_value(chars[n - 1]));
    }
}

proof fn lemma_dot_matches(chars: Seq<char>, digits: Seq<u32>, w32: Seq<u32>, w: Seq<int>, n: nat)
    requires
        n <= chars.len(),
        n <= digits.len(),
        n <= w32.len(),
        forall|i: int| 0 <= i < n ==> digits[i] == digit_value(#[trigger] chars[i]),
        forall|i: int| 0 <= i < n ==> w32[i] as int == #[trigger] w[i],
    ensures
        dot(digits, w32, n) == weighted_sum(chars, w, n),
    decreases n,
{
    if n > 0 {
        lemma_dot_matches(chars, digits, w32, w, (n - 1) as nat);
        assert(digits[n - 1] == digit_value(chars[n - 1]));
        assert(w32[n - 1] as int == w[n - 1]);
    }
}

} // verus!
