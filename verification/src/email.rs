use vstd::prelude::*;
use vstd::slice::slice_subrange;
use crate::Validator;
use crate::ip::{check_ip, is_ip_text, InvalidIpError};
use crate::text::{
    split_on, find_first, lemma_first_sep_bounds, lemma_split_on_nonempty, is_alnum, is_word_byte,
    DOT, AT_SIGN, DASH, OPEN_BRACKET, CLOSE_BRACKET,
};

verus! {

/// Validates that a byte string is an email address in the common restricted
/// form: a user part of word bytes singly separated by punctuation, one at
/// sign, and a domain of dot-separated labels or a bracketed IP address.
pub struct EmailValidator;

#[derive(Debug, PartialEq, Eq, Structural, Clone)]
pub enum InvalidEmailError {
    /// An empty string is not an email address.
    EmptyValue,
    /// No at sign was found in the given address.
    ATNotFound,
    /// More than one at sign was found in the given address.
    MultipleATCharacters,
    /// The user part exceeds the maximum of 64 bytes.
    UserPartTooLong,
    /// The domain part exceeds the maximum of 255 bytes.
    DomainPartTooLong,
    /// The user part is not well formed.
    InvalidUser,
    /// The domain part is not well formed.
    InvalidDomain,
    /// The bracketed domain part is not an IP address.
    InvalidAddr(InvalidIpError),
}

/// The punctuation bytes the user part may carry between word bytes:
/// . ! # $ % & ' * + / = ? ^ _ ` { | } ~ -
pub open spec fn is_user_special(c: u8) -> bool {
    ||| c == 46  // .
    ||| c == 33  // !
    ||| c == 35  // #
    ||| c == 36  // $
    ||| c == 37  // %
    ||| c == 38  // &
    ||| c == 39  // '
    ||| c == 42  // *
    ||| c == 43  // +
    ||| c == 47  // /
    ||| c == 61  // =
    ||| c == 63  // ?
    ||| c == 94  // ^
    ||| c == 96  // `
    ||| c == 123  // {
    ||| c == 124  // |
    ||| c == 125  // }
    ||| c == 126  // ~
    ||| c == 45  // -
}

/// A byte the user part may hold anywhere.
pub open spec fn is_user_byte(c: u8) -> bool {
    is_word_byte(c) || is_user_special(c)
}

/// A well-formed user part: nonempty, begins and ends with a word byte, holds
/// only user bytes, and never two punctuation bytes in a row.
pub open spec fn user_part_ok(s: Seq<u8>) -> bool {
    &&& s.len() > 0
    &&& is_word_byte(s[0])
    &&& is_word_byte(s[s.len() - 1])
    &&& forall|i: int| 0 <= i < s.len() ==> is_user_byte(#[trigger] s[i])
    &&& forall|i: int| 0 <= i < s.len() - 1 ==> (!is_word_byte(#[trigger] s[i]) ==> is_word_byte(s[i + 1]))
}

/// A well-formed domain label: one to 63 bytes, begins and ends with a letter
/// or digit, and holds only letters, digits and dashes.
pub open spec fn label_ok(s: Seq<u8>) -> bool {
    &&& 1 <= s.len() <= 63
    &&& is_alnum(s[0])
    &&& is_alnum(s[s.len() - 1])
    &&& forall|i: int| 0 <= i < s.len() ==> (is_alnum(#[trigger] s[i]) || s[i] == DASH)
}

/// A well-formed domain: every dot-separated label is well formed.
pub open spec fn domain_ok(s: Seq<u8>) -> bool {
    let parts = split_on(s, DOT);
    forall|i: int| 0 <= i < parts.len() ==> label_ok(#[trigger] parts[i])
}

/// The outcome of the email check: `None` for a valid address, or the exact
/// failure, following the order of the checks.
pub open spec fn email_result(s: Seq<u8>) -> Option<InvalidEmailError> {
    let parts = split_on(s, AT_SIGN);
    if s.len() == 0 {
        Some(InvalidEmailError::EmptyValue)
    } else if parts.len() > 2 {
        Some(InvalidEmailError::MultipleATCharacters)
    } else if parts.len() == 1 {
        Some(InvalidEmailError::ATNotFound)
    } else {
        let user = parts[0];
        let domain = parts[1];
        if user.len() > 64 {
            Some(InvalidEmailError::UserPartTooLong)
        } else if domain.len() > 255 {
            Some(InvalidEmailError::DomainPartTooLong)
        } else if !user_part_ok(user) {
            Some(InvalidEmailError::InvalidUser)
        } else if domain_ok(domain) {
            None
        } else if domain.len() >= 2 && domain[0] == OPEN_BRACKET
            && domain[domain.len() - 1] == CLOSE_BRACKET {
            if is_ip_text(domain.subrange(1, domain.len() - 1)) {
                None
            } else {
                Some(InvalidEmailError::InvalidAddr(InvalidIpError))
            }
        } else {
            Some(InvalidEmailError::InvalidDomain)
        }
    }
}

fn is_word_exec(c: u8) -> (b: bool)
    ensures
        b == is_word_byte(c),
{
    (c >= 48 && c <= 57) || (c >= 65 && c <= 90) || (c >= 97 && c <= 122) || c == 95
}

fn is_alnum_exec(c: u8) -> (b: bool)
    ensures
        b == is_alnum(c),
{
    (c >= 48 && c <= 57) || (c >= 65 && c <= 90) || (c >= 97 && c <= 122)
}

fn is_user_special_exec(c: u8) -> (b: bool)
    ensures
        b == is_user_special(c),
{
    c == 46 || c == 33 || c == 35 || c == 36 || c == 37 || c == 38 || c == 39 || c == 42
        || c == 43 || c == 47 || c == 61 || c == 63 || c == 94 || c == 96 || c == 123 || c == 124
        || c == 125 || c == 126 || c == 45
}

/// Checks the user part for shape: word bytes, singly separated punctuation,
/// word bytes at both ends.
fn check_user(s: &[u8]) -> (b: bool)
    ensures
        b == user_part_ok(s@),
{
    let n = s.len();
    if n == 0 {
        return false;
    }
    if !is_word_exec(s[0]) {
        return false;
    }
    if !is_word_exec(s[n - 1]) {
        return false;
    }
    let mut i: usize = 0;
    while i < n
        invariant
            i <= n,
            n == s@.len(),
            forall|j: int| 0 <= j < i ==> is_user_byte(#[trigger] s@[j]),
            forall|j: int| 0 <= j < i - 1 ==> (!is_word_byte(#[trigger] s@[j]) ==> is_word_byte(s@[j + 1])),
        decreases n - i,
    {
        let c = s[i];
        if !(is_word_exec(c) || is_user_special_exec(c)) {
            return false;
        }
        if i > 0 && !is_word_exec(c) && !is_word_exec(s[i - 1]) {
            return false;
        }
        i = i + 1;
    }
    true
}

/// Checks one domain label for shape.
fn check_label(s: &[u8]) -> (b: bool)
    ensures
        b == label_ok(s@),
{
    let n = s.len();
    if n == 0 || n > 63 {
        return false;
    }
    if !is_alnum_exec(s[0]) || !is_alnum_exec(s[n - 1]) {
        return false;
    }
    let mut i: usize = 0;
    while i < n
        invariant
            i <= n,
            n == s@.len(),
            forall|j: int| 0 <= j < i ==> (is_alnum(#[trigger] s@[j]) || s@[j] == DASH),
        decreases n - i,
    {
        if !is_alnum_exec(s[i]) && s[i] != DASH {
            return false;
        }
        i = i + 1;
    }
    true
}

/// Checks a whole domain label by label.
fn check_domain(s: &[u8]) -> (b: bool)
    ensures
        b == domain_ok(s@),
    decreases s@.len(),
{
    let n = s.len();
    let d = find_first(s, DOT);
    proof {
        lemma_first_sep_bounds(s@, DOT);
    }
    if d == n {
        let ok = check_label(s);
        proof {
            let parts = split_on(s@, DOT);
            assert(parts =~~= seq![s@]);
            assert(parts[0] == s@);
        }
        return ok;
    }
    let head = slice_subrange(s, 0, d);
    let rest = slice_subrange(s, d + 1, n);
    proof {
        assert(head@ =~= s@.take(d as int));
        assert(rest@ =~= s@.skip(d as int + 1));
    }
    let head_ok = check_label(head);
    let rest_ok = check_domain(rest);
    proof {
        let parts = split_on(s@, DOT);
        let rest_parts = split_on(rest@, DOT);
        assert(parts =~~= seq![s@.take(d as int)] + rest_parts);
        assert(parts[0] == head@);
        assert(forall|i: int| 1 <= i < parts.len() ==> parts[i] == #[trigger] rest_parts[i - 1]);
        lemma_split_on_nonempty(rest@, DOT);
        if head_ok && rest_ok {
            assert forall|i: int| 0 <= i < parts.len() implies label_ok(#[trigger] parts[i]) by {
                if i >= 1 {
                    assert(label_ok(rest_parts[i - 1]));
                }
            }
        }
        if !head_ok {
            assert(!label_ok(parts[0]));
        }
        if head_ok && !rest_ok {
            let i = choose|i: int| 0 <= i < rest_parts.len() && !label_ok(#[trigger] rest_parts[i]);
            assert(!label_ok(parts[i + 1]));
        }
    }
    head_ok && rest_ok
}

impl Validator<Vec<u8>> for EmailValidator {
    type Error = InvalidEmailError;

    open spec fn spec_valid(&self, value: Vec<u8>) -> bool {
        email_result(value@) is None
    }

    open spec fn spec_error(&self, value: Vec<u8>, error: InvalidEmailError) -> bool {
        email_result(value@) == Some(error)
    }

    fn validate(&self, value: &Vec<u8>) -> (r: Result<(), InvalidEmailError>) {
        let s = value.as_slice();
        let n = s.len();
        if n == 0 {
            return Err(InvalidEmailError::EmptyValue);
        }
        let at = find_first(s, AT_SIGN);
        proof {
            lemma_first_sep_bounds(s@, AT_SIGN);
        }
        if at == n {
            proof {
                let parts = split_on(s@, AT_SIGN);
                assert(parts =~~= seq![s@]);
            }
            return Err(InvalidEmailError::ATNotFound);
        }
        let user = slice_subrange(s, 0, at);
        let domain = slice_subrange(s, at + 1, n);
        proof {
            assert(user@ =~= s@.take(at as int));
            assert(domain@ =~= s@.skip(at as int + 1));
        }
        let at2 = find_first(domain, AT_SIGN);
        proof {
            lemma_first_sep_bounds(domain@, AT_SIGN);
        }
        let ghost parts = split_on(s@, AT_SIGN);
        if at2 < domain.len() {
            proof {
                let domain_parts = split_on(domain@, AT_SIGN);
                assert(parts =~~= seq![s@.take(at as int)] + domain_parts);
                let domain_rest = split_on(domain@.skip(at2 as int + 1), AT_SIGN);
                assert(domain_parts =~~= seq![domain@.take(at2 as int)] + domain_rest);
                lemma_split_on_nonempty(domain@.skip(at2 as int + 1), AT_SIGN);
                assert(parts.len() > 2);
            }
            return Err(InvalidEmailError::MultipleATCharacters);
        }
        proof {
            let domain_parts = split_on(domain@, AT_SIGN);
            assert(domain_parts =~~= seq![domain@]);
            assert(parts =~~= seq![user@, domain@]);
            assert(parts[0] == user@ && parts[1] == domain@);
        }
        if user.len() > 64 {
            return Err(InvalidEmailError::UserPartTooLong);
        }
        if domain.len() > 255 {
            return Err(InvalidEmailError::DomainPartTooLong);
        }
        if !check_user(user) {
            return Err(InvalidEmailError::InvalidUser);
        }
        if check_domain(domain) {
            return Ok(());
        }
        let dn = domain.len();
        if dn >= 2 && domain[0] == OPEN_BRACKET && domain[dn - 1] == CLOSE_BRACKET {
            let inner = slice_subrange(domain, 1, dn - 1);
            proof {
                assert(inner@ =~= domain@.subrange(1, domain@.len() - 1));
            }
            if check_ip(inner) {
                return Ok(());
            } else {
                return Err(InvalidEmailError::InvalidAddr(InvalidIpError));
            }
        }
        Err(InvalidEmailError::InvalidDomain)
    }
}

} // verus!
