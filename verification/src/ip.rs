use vstd::prelude::*;
use vstd::slice::slice_subrange;
use crate::Validator;
use crate::text::{split_on, split_chunks, find_first, lemma_first_sep_bounds, lemma_split_on_nonempty, is_digit, is_hex_digit, DOT, COLON, DIGIT_ZERO, DIGIT_NINE};

verus! {

/// Checks that a byte string is a textual IP address: a dotted-quad IPv4
/// address, or an IPv6 address of colon-separated hexadecimal fields with at
/// most one `::` compression and an optional embedded dotted-quad tail.
pub struct IpAddressValidator;

/// The failure reported for a byte string that is not an IP address.
#[derive(Debug, PartialEq, Eq, Structural, Clone, Copy)]
pub struct InvalidIpError;

/// The decimal value of a digit string.
pub open spec fn dec_value(s: Seq<u8>) -> int
    decreases s.len(),
{
    if s.len() == 0 {
        0
    } else {
        dec_value(s.drop_last()) * 10 + (s.last() - DIGIT_ZERO)
    }
}

/// One address component: one to three digits, no leading zero, value at
/// most 255.
pub open spec fn octet_ok(s: Seq<u8>) -> bool {
    &&& 1 <= s.len() <= 3
    &&& forall|i: int| 0 <= i < s.len() ==> is_digit(#[trigger] s[i])
    &&& (s.len() > 1 ==> s[0] != DIGIT_ZERO)
    &&& dec_value(s) <= 255
}

/// Splitting on dots yields exactly `k` chunks, every one a valid octet.
pub open spec fn octet_chunks_ok(s: Seq<u8>, k: nat) -> bool {
    let parts = split_on(s, DOT);
    parts.len() == k && (forall|i: int| 0 <= i < parts.len() ==> octet_ok(#[trigger] parts[i]))
}

/// A dotted-quad address: four dot-separated chunks, each a valid octet.
pub open spec fn is_ipv4(s: Seq<u8>) -> bool {
    octet_chunks_ok(s, 4)
}

/// One IPv6 field: one to four hexadecimal digits.
pub open spec fn hex_group_ok(s: Seq<u8>) -> bool {
    1 <= s.len() <= 4 && (forall|i: int| 0 <= i < s.len() ==> is_hex_digit(#[trigger] s[i]))
}

/// An uncompressed IPv6 address: eight hexadecimal fields, or six fields and
/// an embedded dotted-quad standing for the last two.
pub open spec fn ipv6_full(parts: Seq<Seq<u8>>) -> bool {
    ||| (parts.len() == 8 && (forall|k: int| 0 <= k < 8 ==> hex_group_ok(#[trigger] parts[k])))
    ||| (parts.len() == 7 && (forall|k: int| 0 <= k < 6 ==> hex_group_ok(#[trigger] parts[k]))
        && is_ipv4(parts[6]))
}

/// The fields after a `::` compression: either nothing (one trailing empty
/// chunk), or nonempty hexadecimal fields with an optional embedded
/// dotted-quad standing for the last two; the compression stands for at least
/// one zero field, so the field counts sum to at most seven.
pub open spec fn compressed_rest_ok(r: Seq<Seq<u8>>, head_count: int) -> bool {
    if r.len() == 1 && r[0].len() == 0 {
        head_count <= 7
    } else {
        &&& r.len() >= 0
        &&& forall|k: int| 0 <= k < r.len() ==> (#[trigger] r[k]).len() > 0
        &&& forall|k: int| 0 <= k < r.len() - 1 ==> hex_group_ok(#[trigger] r[k])
        &&& (r.len() > 0 ==> hex_group_ok(r[r.len() - 1]) || is_ipv4(r[r.len() - 1]))
        &&& (r.len() == 0 ==> false)
        &&& head_count + r.len() + (if r.len() > 0 && is_ipv4(r[r.len() - 1]) {
            1int
        } else {
            0int
        }) <= 7
    }
}

/// A compressed IPv6 address, the compression marked by the chunk at `h`:
/// `h` hexadecimal head fields, the `::`, and the rest.
pub open spec fn compressed_at(parts: Seq<Seq<u8>>, h: int) -> bool {
    &&& 0 <= h < parts.len()
    &&& forall|k: int| 0 <= k < h ==> hex_group_ok(#[trigger] parts[k])
    &&& parts[h].len() == 0
    &&& (h == 0 ==> parts.len() >= 2 && parts[1].len() == 0)
    &&& compressed_rest_ok(parts.skip(if h == 0 { 2int } else { h + 1 }), h)
}

/// An IPv6 address: the colon-separated chunks form an uncompressed address,
/// or a compressed one.
pub open spec fn is_ipv6(s: Seq<u8>) -> bool {
    let parts = split_on(s, COLON);
    ipv6_full(parts) || (exists|h: int| compressed_at(parts, h))
}

/// A textual IP address, of either family.
pub open spec fn is_ip_text(s: Seq<u8>) -> bool {
    is_ipv4(s) || is_ipv6(s)
}

fn digit_at(s: &[u8], i: usize) -> (d: u32)
    requires
        i < s@.len(),
        is_digit(s@[i as int]),
    ensures
        d == s@[i as int] - DIGIT_ZERO,
{
    (s[i] - DIGIT_ZERO) as u32
}

fn check_octet(s: &[u8]) -> (b: bool)
    ensures
        b == octet_ok(s@),
{
    let n = s.len();
    if n == 0 || n > 3 {
        return false;
    }
    let mut i: usize = 0;
    while i < n
        invariant
            i <= n,
            n == s@.len(),
            forall|j: int| 0 <= j < i ==> is_digit(#[trigger] s@[j]),
        decreases n - i,
    {
        if s[i] < DIGIT_ZERO || s[i] > DIGIT_NINE {
            return false;
        }
        i = i + 1;
    }
    if n > 1 && s[0] == DIGIT_ZERO {
        return false;
    }
    let v: u32 = if n == 1 {
        digit_at(s, 0)
    } else if n == 2 {
        digit_at(s, 0) * 10 + digit_at(s, 1)
    } else {
        digit_at(s, 0) * 100 + digit_at(s, 1) * 10 + digit_at(s, 2)
    };
    proof {
        reveal_with_fuel(dec_value, 4);
        if n == 2 {
            assert(s@.drop_last() =~= seq![s@[0]]);
            assert(seq![s@[0]].drop_last() =~= Seq::<u8>::empty());
        }
        if n == 3 {
            assert(s@.drop_last() =~= seq![s@[0], s@[1]]);
            assert(seq![s@[0], s@[1]].drop_last() =~= seq![s@[0]]);
            assert(seq![s@[0]].drop_last() =~= Seq::<u8>::empty());
        }
        assert(v == dec_value(s@));
    }
    v <= 255
}

/// Checks that `s` splits on dots into exactly `k` valid octets.
fn check_octet_chunks(s: &[u8], k: usize) -> (b: bool)
    ensures
        b == octet_chunks_ok(s@, k as nat),
    decreases s@.len(),
{
    let n = s.len();
    let d = find_first(s, DOT);
    proof {
        lemma_first_sep_bounds(s@, DOT);
    }
    if d == n {
        let ok = check_octet(s);
        proof {
            let parts = split_on(s@, DOT);
            assert(parts =~~= seq![s@]);
            assert(parts[0] == s@);
        }
        return k == 1 && ok;
    }
    let head = slice_subrange(s, 0, d);
    let rest = slice_subrange(s, d + 1, n);
    proof {
        assert(head@ =~= s@.take(d as int));
        assert(rest@ =~= s@.skip(d as int + 1));
        lemma_split_on_nonempty(rest@, DOT);
    }
    if k <= 1 {
        proof {
            let parts = split_on(s@, DOT);
            assert(parts.len() == 1 + split_on(rest@, DOT).len());
        }
        return false;
    }
    let head_ok = check_octet(head);
    let rest_ok = check_octet_chunks(rest, k - 1);
    proof {
        let parts = split_on(s@, DOT);
        let rest_parts = split_on(rest@, DOT);
        assert(parts =~= seq![s@.take(d as int)] + rest_parts);
        assert(parts[0] == head@);
        assert(forall|i: int| 1 <= i < parts.len() ==> parts[i] == #[trigger] rest_parts[i - 1]);
        if head_ok && rest_ok {
            assert forall|i: int| 0 <= i < parts.len() implies octet_ok(#[trigger] parts[i]) by {
                if i >= 1 {
                    assert(octet_ok(rest_parts[i - 1]));
                }
            }
        }
        if !head_ok {
            assert(!octet_ok(parts[0]));
        }
        if head_ok && !rest_ok && rest_parts.len() == k - 1 {
            let i = choose|i: int| 0 <= i < rest_parts.len() && !octet_ok(#[trigger] rest_parts[i]);
            assert(!octet_ok(parts[i + 1]));
        }
    }
    head_ok && rest_ok
}

/// Checks that a byte string is a dotted-quad IP address.
pub fn check_ipv4(s: &[u8]) -> (b: bool)
    ensures
        b == is_ipv4(s@),
{
    check_octet_chunks(s, 4)
}

fn is_hex_exec(c: u8) -> (b: bool)
    ensures
        b == is_hex_digit(c),
{
    (c >= 48 && c <= 57) || (c >= 65 && c <= 70) || (c >= 97 && c <= 102)
}

fn check_hex_group(s: &[u8]) -> (b: bool)
    ensures
        b == hex_group_ok(s@),
{
    let n = s.len();
    if n == 0 || n > 4 {
        return false;
    }
    let mut i: usize = 0;
    while i < n
        invariant
            i <= n,
            n == s@.len(),
            forall|j: int| 0 <= j < i ==> is_hex_digit(#[trigger] s@[j]),
        decreases n - i,
    {
        if !is_hex_exec(s[i]) {
            return false;
        }
        i = i + 1;
    }
    true
}

/// Checks that every chunk in `[from, to)` is a hexadecimal field.
fn all_hex_groups(parts: &Vec<&[u8]>, from: usize, to: usize) -> (b: bool)
    requires
        from <= to <= parts@.len(),
    ensures
        b == (forall|k: int| from <= k < to ==> hex_group_ok((#[trigger] parts@[k])@)),
{
    let mut k: usize = from;
    while k < to
        invariant
            from <= k <= to <= parts@.len(),
            forall|j: int| from <= j < k ==> hex_group_ok((#[trigger] parts@[j])@),
        decreases to - k,
    {
        if !check_hex_group(parts[k]) {
            proof {
                assert(!hex_group_ok(parts@[k as int]@));
            }
            return false;
        }
        k = k + 1;
    }
    true
}

/// Checks that every chunk in `[from, to)` is nonempty.
fn all_nonempty(parts: &Vec<&[u8]>, from: usize, to: usize) -> (b: bool)
    requires
        from <= to <= parts@.len(),
    ensures
        b == (forall|k: int| from <= k < to ==> (#[trigger] parts@[k])@.len() > 0),
{
    let mut k: usize = from;
    while k < to
        invariant
            from <= k <= to <= parts@.len(),
            forall|j: int| from <= j < k ==> (#[trigger] parts@[j])@.len() > 0,
        decreases to - k,
    {
        if parts[k].len() == 0 {
            proof {
                assert(parts@[k as int]@.len() == 0);
            }
            return false;
        }
        k = k + 1;
    }
    true
}

/// The first empty chunk, if any.
fn first_empty(parts: &Vec<&[u8]>) -> (r: Option<usize>)
    ensures
        match r {
            Some(f) => f < parts@.len() && (#[trigger] parts@[f as int])@.len() == 0 && (forall|
                j: int,
            | 0 <= j < f ==> (#[trigger] parts@[j])@.len() > 0),
            None => forall|k: int| 0 <= k < parts@.len() ==> (#[trigger] parts@[k])@.len() > 0,
        },
{
    let n = parts.len();
    let mut f: usize = 0;
    while f < n
        invariant
            f <= n,
            n == parts@.len(),
            forall|j: int| 0 <= j < f ==> (#[trigger] parts@[j])@.len() > 0,
        decreases n - f,
    {
        if parts[f].len() == 0 {
            return Some(f);
        }
        f = f + 1;
    }
    None
}

/// A compression can only be marked at the first empty chunk.
proof fn lemma_compressed_unique(parts: Seq<Seq<u8>>, f: int)
    requires
        0 <= f < parts.len(),
        parts[f].len() == 0,
        forall|j: int| 0 <= j < f ==> (#[trigger] parts[j]).len() > 0,
    ensures
        forall|h: int| h != f ==> !compressed_at(parts, h),
{
    assert forall|h: int| h != f implies !compressed_at(parts, h) by {
        if 0 <= h < parts.len() {
            if h < f {
                assert(parts[h].len() > 0);
            } else {
                if compressed_at(parts, h) {
                    assert(hex_group_ok(parts[f]));
                }
            }
        }
    }
}

/// Checks that a byte string is an IPv6 address.
pub fn check_ipv6(s: &[u8]) -> (b: bool)
    ensures
        b == is_ipv6(s@),
{
    let parts = split_chunks(s, COLON);
    let ghost sparts = split_on(s@, COLON);
    let n = parts.len();
    proof {
        assert(n == sparts.len());
        assert(forall|k: int| 0 <= k < n ==> (#[trigger] parts@[k])@ == sparts[k]);
    }
    let full_ok: bool = if n == 8 {
        let b = all_hex_groups(&parts, 0, 8);
        proof {
            if b {
                assert forall|k: int| 0 <= k < 8 implies hex_group_ok(#[trigger] sparts[k]) by {
                    assert(hex_group_ok(parts@[k]@));
                }
            } else {
                let k = choose|k: int| 0 <= k < 8 && !hex_group_ok((#[trigger] parts@[k])@);
                assert(!hex_group_ok(sparts[k]));
            }
        }
        b
    } else if n == 7 {
        let b = all_hex_groups(&parts, 0, 6);
        let v4 = check_ipv4(parts[6]);
        proof {
            if b {
                assert forall|k: int| 0 <= k < 6 implies hex_group_ok(#[trigger] sparts[k]) by {
                    assert(hex_group_ok(parts@[k]@));
                }
            } else {
                let k = choose|k: int| 0 <= k < 6 && !hex_group_ok((#[trigger] parts@[k])@);
                assert(!hex_group_ok(sparts[k]));
            }
            assert(parts@[6]@ == sparts[6]);
        }
        b && v4
    } else {
        false
    };
    proof {
        assert(full_ok == ipv6_full(sparts));
    }
    let comp_ok: bool = match first_empty(&parts) {
        None => {
            proof {
                assert forall|h: int| !compressed_at(sparts, h) by {
                    if 0 <= h < sparts.len() {
                        assert(parts@[h]@.len() > 0);
                    }
                }
            }
            false
        },
        Some(f) => {
            proof {
                assert forall|j: int| 0 <= j < f implies (#[trigger] sparts[j]).len() > 0 by {
                    assert(parts@[j]@.len() > 0);
                }
                assert(sparts[f as int].len() == 0);
                lemma_compressed_unique(sparts, f as int);
            }
            let head_hex = all_hex_groups(&parts, 0, f);
            if !head_hex {
                proof {
                    let k = choose|k: int| 0 <= k < f && !hex_group_ok((#[trigger] parts@[k])@);
                    assert(!hex_group_ok(sparts[k]));
                    assert(!compressed_at(sparts, f as int));
                }
                false
            } else {
                proof {
                    assert forall|j: int| 0 <= j < f implies hex_group_ok(#[trigger] sparts[j]) by {
                        assert(hex_group_ok(parts@[j]@));
                    }
                }
                let r0: usize = if f == 0 {
                    2
                } else {
                    f + 1
                };
                if f == 0 && !(n >= 2 && parts[1].len() == 0) {
                    proof {
                        assert(!compressed_at(sparts, f as int));
                    }
                    false
                } else if r0 > n {
                    // only possible for a trailing single colon
                    proof {
                        assert(!compressed_at(sparts, f as int));
                    }
                    false
                } else {
                    let ghost r = sparts.skip(r0 as int);
                    proof {
                        assert(r.len() == n - r0);
                        assert(forall|k: int| 0 <= k < r.len() ==> #[trigger] r[k] == sparts[r0 + k]);
                    }
                    let rlen = n - r0;
                    if rlen == 1 && parts[r0].len() == 0 {
                        let ok = f <= 7;
                        proof {
                            assert(r[0] == sparts[r0 as int]);
                            assert(compressed_rest_ok(r, f as int) == (f <= 7));
                            if ok {
                                assert(compressed_at(sparts, f as int));
                            } else {
                                assert(!compressed_at(sparts, f as int));
                            }
                        }
                        ok
                    } else if rlen == 0 {
                        proof {
                            assert(!compressed_rest_ok(r, f as int));
                            assert(!compressed_at(sparts, f as int));
                        }
                        false
                    } else {
                        let nonempty = all_nonempty(&parts, r0, n);
                        let mid_hex = all_hex_groups(&parts, r0, n - 1);
                        let last_hex = check_hex_group(parts[n - 1]);
                        let last_v4 = check_ipv4(parts[n - 1]);
                        let weight = rlen + (if last_v4 {
                            1
                        } else {
                            0
                        });
                        let ok = nonempty && mid_hex && (last_hex || last_v4) && f + weight <= 7;
                        proof {
                            assert(r[r.len() - 1] == sparts[n - 1]);
                            assert(parts@[n - 1]@ == sparts[n - 1]);
                            if nonempty {
                                assert forall|k: int| 0 <= k < r.len() implies
                                    (#[trigger] r[k]).len() > 0 by {
                                    assert(parts@[r0 + k]@.len() > 0);
                                }
                            } else {
                                let k = choose|k: int| r0 <= k < n
                                    && !((#[trigger] parts@[k])@.len() > 0);
                                assert(r[k - r0].len() == 0);
                            }
                            if mid_hex {
                                assert forall|k: int| 0 <= k < r.len() - 1 implies
                                    hex_group_ok(#[trigger] r[k]) by {
                                    assert(hex_group_ok(parts@[r0 + k]@));
                                }
                            } else {
                                let k = choose|k: int| r0 <= k < n - 1
                                    && !hex_group_ok((#[trigger] parts@[k])@);
                                assert(!hex_group_ok(r[k - r0]));
                            }
                            if r.len() == 1 && r[0].len() == 0 {
                                assert(parts@[r0 as int]@.len() == 0);
                            }
                            assert(compressed_rest_ok(r, f as int) == ok);
                            if ok {
                                assert(compressed_at(sparts, f as int));
                            } else {
                                assert(!compressed_at(sparts, f as int));
                            }
                        }
                        ok
                    }
                }
            }
        },
    };
    proof {
        assert(comp_ok == (exists|h: int| compressed_at(sparts, h)));
    }
    full_ok || comp_ok
}

/// Checks that a byte string is a textual IP address of either family.
pub fn check_ip(s: &[u8]) -> (b: bool)
    ensures
        b == is_ip_text(s@),
{
    if check_ipv4(s) {
        true
    } else {
        check_ipv6(s)
    }
}

impl Validator<Vec<u8>> for IpAddressValidator {
    type Error = InvalidIpError;

    open spec fn spec_valid(&self, value: Vec<u8>) -> bool {
        is_ip_text(value@)
    }

    open spec fn spec_error(&self, value: Vec<u8>, error: InvalidIpError) -> bool {
        error == InvalidIpError
    }

    fn validate(&self, value: &Vec<u8>) -> (r: Result<(), InvalidIpError>) {
        if check_ip(value.as_slice()) {
            Ok(())
        } else {
            Err(InvalidIpError)
        }
    }
}

} // verus!
