use vstd::prelude::*;
use vstd::slice::slice_subrange;

verus! {

/// Byte values named for readability; Verus does not accept byte literals.
pub const DOT: u8 = 46;
pub const AT_SIGN: u8 = 64;
pub const DASH: u8 = 45;
pub const DIGIT_ZERO: u8 = 48;
pub const DIGIT_NINE: u8 = 57;
pub const UPPER_A: u8 = 65;
pub const UPPER_Z: u8 = 90;
pub const LOWER_A: u8 = 97;
pub const LOWER_Z: u8 = 122;
pub const UNDERSCORE: u8 = 95;
pub const COLON: u8 = 58;
pub const OPEN_BRACKET: u8 = 91;
pub const CLOSE_BRACKET: u8 = 93;

/// A decimal digit.
pub open spec fn is_digit(c: u8) -> bool {
    DIGIT_ZERO <= c <= DIGIT_NINE
}

/// An ASCII letter or digit.
pub open spec fn is_alnum(c: u8) -> bool {
    ||| DIGIT_ZERO <= c <= DIGIT_NINE
    ||| UPPER_A <= c <= UPPER_Z
    ||| LOWER_A <= c <= LOWER_Z
}

/// A hexadecimal digit.
pub open spec fn is_hex_digit(c: u8) -> bool {
    ||| DIGIT_ZERO <= c <= DIGIT_NINE
    ||| UPPER_A <= c <= 70
    ||| LOWER_A <= c <= 102
}

/// An ASCII word byte: a letter, a digit, or an underscore.
pub open spec fn is_word_byte(c: u8) -> bool {
    is_alnum(c) || c == UNDERSCORE
}

/// The index of the first occurrence of `sep` in `s`, or `s.len()` if `sep`
/// does not occur.
pub open spec fn first_sep(s: Seq<u8>, sep: u8) -> nat
    decreases s.len(),
{
    if s.len() == 0 {
        0
    } else if s[0] == sep {
        0
    } else {
        let r = first_sep(s.drop_first(), sep) + 1;
        if r > s.len() {
            s.len()
        } else {
            r
        }
    }
}

/// The chunks of `s` between occurrences of `sep`, in order; always at least
/// one chunk, and empty chunks where separators meet.
pub open spec fn split_on(s: Seq<u8>, sep: u8) -> Seq<Seq<u8>>
    decreases s.len(),
{
    let d = first_sep(s, sep);
    if d == s.len() {
        seq![s]
    } else {
        seq![s.take(d as int)] + split_on(s.skip(d as int + 1), sep)
    }
}

pub proof fn lemma_first_sep_bounds(s: Seq<u8>, sep: u8)
    ensures
        first_sep(s, sep) <= s.len(),
        first_sep(s, sep) < s.len() ==> s[first_sep(s, sep) as int] == sep,
        forall|j: int| 0 <= j < first_sep(s, sep) ==> s[j] != sep,
    decreases s.len(),
{
    if s.len() > 0 && s[0] != sep {
        lemma_first_sep_bounds(s.drop_first(), sep);
        assert forall|j: int| 0 <= j < first_sep(s, sep) implies s[j] != sep by {
            if j > 0 {
                assert(s.drop_first()[j - 1] != sep);
            }
        }
    }
}

/// The index before which `sep` does not occur, and at which it does (unless
/// it is the length), is exactly `first_sep`.
pub proof fn lemma_first_sep_is(s: Seq<u8>, sep: u8, i: int)
    requires
        0 <= i <= s.len(),
        forall|j: int| 0 <= j < i ==> s[j] != sep,
        i < s.len() ==> s[i] == sep,
    ensures
        first_sep(s, sep) == i,
    decreases s.len(),
{
    if s.len() > 0 && s[0] != sep {
        assert forall|j: int| 0 <= j < i - 1 implies s.drop_first()[j] != sep by {
            assert(s[j + 1] != sep);
        }
        lemma_first_sep_is(s.drop_first(), sep, i - 1);
    }
}

pub proof fn lemma_split_on_nonempty(s: Seq<u8>, sep: u8)
    ensures
        split_on(s, sep).len() >= 1,
{
}

/// Finds the first occurrence of `sep` in `s`, returning `s.len()` if absent.
pub fn find_first(s: &[u8], sep: u8) -> (r: usize)
    ensures
        r == first_sep(s@, sep),
        r <= s@.len(),
{
    let n = s.len();
    let mut i: usize = 0;
    while i < n
        invariant
            i <= n,
            n == s@.len(),
            forall|j: int| 0 <= j < i ==> s@[j] != sep,
        decreases n - i,
    {
        if s[i] == sep {
            proof {
                lemma_first_sep_is(s@, sep, i as int);
            }
            return i;
        }
        i = i + 1;
    }
    proof {
        lemma_first_sep_is(s@, sep, i as int);
    }
    i
}

/// Splits a byte string into its chunks between occurrences of `sep`.
pub fn split_chunks<'a>(s: &'a [u8], sep: u8) -> (out: Vec<&'a [u8]>)
    ensures
        out@.len() == split_on(s@, sep).len(),
        forall|k: int| 0 <= k < out@.len() ==> (#[trigger] out@[k])@ == split_on(s@, sep)[k],
    decreases s@.len(),
{
    let n = s.len();
    let d = find_first(s, sep);
    proof {
        lemma_first_sep_bounds(s@, sep);
    }
    if d == n {
        let mut out: Vec<&[u8]> = Vec::new();
        out.push(s);
        proof {
            let parts = split_on(s@, sep);
            assert(parts =~~= seq![s@]);
            assert(out@[0] == s);
        }
        out
    } else {
        let head = slice_subrange(s, 0, d);
        let rest_s = slice_subrange(s, d + 1, n);
        proof {
            assert(head@ =~= s@.take(d as int));
            assert(rest_s@ =~= s@.skip(d as int + 1));
        }
        let rest = split_chunks(rest_s, sep);
        let ghost rest_view = rest@;
        let mut out = rest;
        out.insert(0, head);
        proof {
            let parts = split_on(s@, sep);
            let rest_parts = split_on(rest_s@, sep);
            assert(parts =~~= seq![s@.take(d as int)] + rest_parts);
            assert(out@ =~= seq![head] + rest_view);
            assert forall|k: int| 0 <= k < out@.len() implies (#[trigger] out@[k])@ == parts[k] by {
                if k >= 1 {
                    assert(out@[k] == rest_view[k - 1]);
                    assert(rest_view[k - 1]@ == rest_parts[k - 1]);
                    assert(parts[k] == rest_parts[k - 1]);
                }
            }
        }
        out
    }
}

} // verus!
