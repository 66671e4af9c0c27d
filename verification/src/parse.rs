use vstd::prelude::*;
use crate::expr::{ValidatorExpr, MAX_TUPLE_ARITY};
use crate::text::{is_digit, DIGIT_ZERO, DIGIT_NINE, LOWER_A, LOWER_Z, UNDERSCORE};
use crate::ip::dec_value;

verus! {

pub const SPACE: u8 = 32;
pub const TAB: u8 = 9;
pub const OPEN_PAREN: u8 = 40;
pub const CLOSE_PAREN: u8 = 41;
pub const COMMA: u8 = 44;
pub const EQUALS_SIGN: u8 = 61;

/// A byte that may separate tokens.
pub open spec fn is_ws(c: u8) -> bool {
    c == SPACE || c == TAB
}

/// A byte of a validator or option name: a lower-case letter or underscore.
pub open spec fn is_name_byte(c: u8) -> bool {
    LOWER_A <= c <= LOWER_Z || c == UNDERSCORE
}

/// The character classes the scanner runs over.
pub const CLASS_WS: u8 = 0;
pub const CLASS_NAME: u8 = 1;
pub const CLASS_DIGIT: u8 = 2;

pub open spec fn in_class(class: u8, c: u8) -> bool {
    if class == CLASS_WS {
        is_ws(c)
    } else if class == CLASS_NAME {
        is_name_byte(c)
    } else {
        is_digit(c)
    }
}

/// The first position at or after `pos` whose byte is not of the class, or
/// the input's length.
pub open spec fn scan_end(s: Seq<u8>, pos: nat, class: u8) -> nat
    decreases s.len() - pos,
{
    if pos < s.len() && in_class(class, s[pos as int]) {
        scan_end(s, (pos + 1) as nat, class)
    } else {
        pos
    }
}

pub proof fn lemma_scan_end_is(s: Seq<u8>, pos: nat, class: u8, i: nat)
    requires
        pos <= i <= s.len(),
        forall|j: int| pos <= j < i ==> in_class(class, #[trigger] s[j]),
        i < s.len() ==> !in_class(class, s[i as int]),
    ensures
        scan_end(s, pos, class) == i,
    decreases i - pos,
{
    if pos < i {
        lemma_scan_end_is(s, (pos + 1) as nat, class, i);
    }
}

/// Scans past the bytes of one class, returning the first position after them.
pub fn scan(s: &[u8], pos: usize, class: u8) -> (r: usize)
    requires
        pos <= s@.len(),
    ensures
        r == scan_end(s@, pos as nat, class),
        pos <= r <= s@.len(),
        forall|j: int| pos <= j < r ==> in_class(class, #[trigger] s@[j]),
        r < s@.len() ==> !in_class(class, s@[r as int]),
{
    let n = s.len();
    let mut i: usize = pos;
    while i < n
        invariant
            pos <= i <= n,
            n == s@.len(),
            forall|j: int| pos <= j < i ==> in_class(class, #[trigger] s@[j]),
        decreases n - i,
    {
        let c = s[i];
        let member = if class == CLASS_WS {
            c == SPACE || c == TAB
        } else if class == CLASS_NAME {
            (c >= LOWER_A && c <= LOWER_Z) || c == UNDERSCORE
        } else {
            c >= DIGIT_ZERO && c <= DIGIT_NINE
        };
        if !member {
            proof {
                lemma_scan_end_is(s@, pos as nat, class, i as nat);
            }
            return i;
        }
        i = i + 1;
    }
    proof {
        lemma_scan_end_is(s@, pos as nat, class, i as nat);
    }
    i
}

/// The validator names of the specification grammar, as byte strings.
pub open spec fn kw_not_empty() -> Seq<u8> {
    seq![110u8, 111u8, 116u8, 95u8, 101u8, 109u8, 112u8, 116u8, 121u8]
}

pub open spec fn kw_email() -> Seq<u8> {
    seq![101u8, 109u8, 97u8, 105u8, 108u8]
}

pub open spec fn kw_url() -> Seq<u8> {
    seq![117u8, 114u8, 108u8]
}

pub open spec fn kw_ip() -> Seq<u8> {
    seq![105u8, 112u8]
}

pub open spec fn kw_ignore() -> Seq<u8> {
    seq![105u8, 103u8, 110u8, 111u8, 114u8, 101u8]
}

pub open spec fn kw_length() -> Seq<u8> {
    seq![108u8, 101u8, 110u8, 103u8, 116u8, 104u8]
}

pub open spec fn kw_elements() -> Seq<u8> {
    seq![101u8, 108u8, 101u8, 109u8, 101u8, 110u8, 116u8, 115u8]
}

pub open spec fn kw_and() -> Seq<u8> {
    seq![97u8, 110u8, 100u8]
}

pub open spec fn kw_or() -> Seq<u8> {
    seq![111u8, 114u8]
}

pub open spec fn kw_tuple() -> Seq<u8> {
    seq![116u8, 117u8, 112u8, 108u8, 101u8]
}

/// The length option names.
pub open spec fn kw_min() -> Seq<u8> {
    seq![109u8, 105u8, 110u8]
}

pub open spec fn kw_max() -> Seq<u8> {
    seq![109u8, 97u8, 120u8]
}

pub open spec fn kw_equal() -> Seq<u8> {
    seq![101u8, 113u8, 117u8, 97u8, 108u8]
}

/// A number for each validator name, 0 for an unknown one.
pub open spec fn kw_code(id: Seq<u8>) -> int {
    if id == kw_not_empty() {
        1
    } else if id == kw_email() {
        2
    } else if id == kw_url() {
        3
    } else if id == kw_ip() {
        4
    } else if id == kw_ignore() {
        5
    } else if id == kw_length() {
        6
    } else if id == kw_elements() {
        7
    } else if id == kw_and() {
        8
    } else if id == kw_or() {
        9
    } else if id == kw_tuple() {
        10
    } else {
        0
    }
}

/// A number for each length option name, 0 for an unknown one.
pub open spec fn opt_code(id: Seq<u8>) -> int {
    if id == kw_min() {
        1
    } else if id == kw_max() {
        2
    } else if id == kw_equal() {
        3
    } else {
        0
    }
}

/// Classifies the name at `s[from..to]` as one of the validator names.
fn keyword_code(s: &[u8], from: usize, to: usize) -> (k: u32)
    requires
        from <= to <= s@.len(),
    ensures
        k as int == kw_code(s@.subrange(from as int, to as int)),
{
    let ghost id = s@.subrange(from as int, to as int);
    let n = to - from;
    if n == 2 {
        if s[from] == 105 && s[from + 1] == 112 {
            proof { assert(id =~= kw_ip()); }
            return 4;
        }
        if s[from] == 111 && s[from + 1] == 114 {
            proof { assert(id =~= kw_or()); }
            return 9;
        }
    } else if n == 3 {
        if s[from] == 117 && s[from + 1] == 114 && s[from + 2] == 108 {
            proof { assert(id =~= kw_url()); }
            return 3;
        }
        if s[from] == 97 && s[from + 1] == 110 && s[from + 2] == 100 {
            proof { assert(id =~= kw_and()); }
            return 8;
        }
    } else if n == 5 {
        if s[from] == 101 && s[from + 1] == 109 && s[from + 2] == 97 && s[from + 3] == 105
            && s[from + 4] == 108 {
            proof { assert(id =~= kw_email()); }
            return 2;
        }
        if s[from] == 116 && s[from + 1] == 117 && s[from + 2] == 112 && s[from + 3] == 108
            && s[from + 4] == 101 {
            proof { assert(id =~= kw_tuple()); }
            return 10;
        }
    } else if n == 6 {
        if s[from] == 105 && s[from + 1] == 103 && s[from + 2] == 110 && s[from + 3] == 111
            && s[from + 4] == 114 && s[from + 5] == 101 {
            proof { assert(id =~= kw_ignore()); }
            return 5;
        }
        if s[from] == 108 && s[from + 1] == 101 && s[from + 2] == 110 && s[from + 3] == 103
            && s[from + 4] == 116 && s[from + 5] == 104 {
            proof { assert(id =~= kw_length()); }
            return 6;
        }
    } else if n == 8 {
        if s[from] == 101 && s[from + 1] == 108 && s[from + 2] == 101 && s[from + 3] == 109
            && s[from + 4] == 101 && s[from + 5] == 110 && s[from + 6] == 116 && s[from + 7]
            == 115 {
            proof { assert(id =~= kw_elements()); }
            return 7;
        }
    } else if n == 9 {
        if s[from] == 110 && s[from + 1] == 111 && s[from + 2] == 116 && s[from + 3] == 95
            && s[from + 4] == 101 && s[from + 5] == 109 && s[from + 6] == 112 && s[from + 7]
            == 116 && s[from + 8] == 121 {
            proof { assert(id =~= kw_not_empty()); }
            return 1;
        }
    }
    proof {
        assert(id.len() == n);
        assert(forall|j: int| 0 <= j < n ==> id[j] == s@[from + j]);
    }
    0
}

/// Classifies the name at `s[from..to]` as one of the length option names.
fn option_code(s: &[u8], from: usize, to: usize) -> (k: u32)
    requires
        from <= to <= s@.len(),
    ensures
        k as int == opt_code(s@.subrange(from as int, to as int)),
{
    let ghost id = s@.subrange(from as int, to as int);
    let n = to - from;
    if n == 3 {
        if s[from] == 109 && s[from + 1] == 105 && s[from + 2] == 110 {
            proof { assert(id =~= kw_min()); }
            return 1;
        }
        if s[from] == 109 && s[from + 1] == 97 && s[from + 2] == 120 {
            proof { assert(id =~= kw_max()); }
            return 2;
        }
    } else if n == 5 {
        if s[from] == 101 && s[from + 1] == 113 && s[from + 2] == 117 && s[from + 3] == 97
            && s[from + 4] == 108 {
            proof { assert(id =~= kw_equal()); }
            return 3;
        }
    }
    proof {
        assert(id.len() == n);
        assert(forall|j: int| 0 <= j < n ==> id[j] == s@[from + j]);
    }
    0
}

/// The failures of specification parsing, each reported with its position.
#[derive(Debug, PartialEq, Eq, Structural, Clone, Copy)]
pub enum ParseErrorKind {
    /// Nesting exceeded the parser's recursion budget.
    TooDeep,
    /// A validator or option name was expected.
    ExpectedName,
    /// The name is not a known validator.
    UnknownValidator,
    ExpectedOpenParen,
    ExpectedCloseParen,
    ExpectedComma,
    ExpectedEquals,
    /// The name is not a known length option.
    UnknownLengthOption,
    ExpectedNumber,
    /// The number does not fit the machine's size type.
    NumberTooLarge,
    /// A length specification needs at least one of its options.
    NoLengthOptions,
    /// A tuple takes between two and thirteen children.
    TupleArity,
    /// Input remained after the specification.
    TrailingInput,
}

/// A parse failure: the byte position it was found at, and its kind.
#[derive(Debug, PartialEq, Eq, Structural, Clone, Copy)]
pub struct ParseError {
    pub pos: usize,
    pub kind: ParseErrorKind,
}

/// The mathematical mirror of `ValidatorExpr`, with sequences for children.
pub enum SpecExpr {
    NotEmpty,
    Email,
    Url,
    IpAddr,
    Length { min: Option<usize>, max: Option<usize> },
    And(Box<SpecExpr>, Box<SpecExpr>),
    Or(Box<SpecExpr>, Box<SpecExpr>),
    Elements(Box<SpecExpr>),
    Tuple(Seq<SpecExpr>),
    Ignore,
    Default,
}

/// The mathematical value of an expression tree.
pub open spec fn abs_expr(e: ValidatorExpr) -> SpecExpr
    decreases e,
{
    match e {
        ValidatorExpr::NotEmpty => SpecExpr::NotEmpty,
        ValidatorExpr::Email => SpecExpr::Email,
        ValidatorExpr::Url => SpecExpr::Url,
        ValidatorExpr::IpAddr => SpecExpr::IpAddr,
        ValidatorExpr::Length { min, max } => SpecExpr::Length { min, max },
        ValidatorExpr::And(l, r) => SpecExpr::And(Box::new(abs_expr(*l)), Box::new(abs_expr(*r))),
        ValidatorExpr::Or(l, r) => SpecExpr::Or(Box::new(abs_expr(*l)), Box::new(abs_expr(*r))),
        ValidatorExpr::Elements(inner) => SpecExpr::Elements(Box::new(abs_expr(*inner))),
        ValidatorExpr::Tuple(cs) => SpecExpr::Tuple(abs_exprs(cs@)),
        ValidatorExpr::Ignore => SpecExpr::Ignore,
        ValidatorExpr::Default => SpecExpr::Default,
    }
}

pub open spec fn abs_exprs(es: Seq<ValidatorExpr>) -> Seq<SpecExpr>
    decreases es,
{
    if es.len() == 0 {
        Seq::empty()
    } else {
        seq![abs_expr(es[0])] + abs_exprs(es.drop_first())
    }
}

/// The outcome of parsing one expression: the expression, the positions of
/// diagnosed-and-resolved conflicts, and the position after it; or a failure.
pub enum Parsed {
    POk(SpecExpr, Seq<nat>, nat),
    PErr(nat, ParseErrorKind),
}

/// The outcome of parsing a comma-separated expression list.
pub enum ItemsParsed {
    IOk(Seq<SpecExpr>, Seq<nat>, nat),
    IErr(nat, ParseErrorKind),
}

/// The outcome of parsing length options: each option's last assigned value,
/// the position of the last `equal` name, and the position after the list.
pub enum OptsParsed {
    OOk {
        min: Option<usize>,
        max: Option<usize>,
        equal: Option<usize>,
        equal_pos: nat,
        pos: nat,
    },
    OErr(nat, ParseErrorKind),
}

/// The outcome of parsing a number.
pub enum NumParsed {
    NOk(usize, nat),
    NErr(nat, ParseErrorKind),
}

/// Parses a decimal number at `pos`: its digits read as a decimal value,
/// which must fit the machine's size type.
pub open spec fn spec_parse_number(s: Seq<u8>, pos: nat) -> NumParsed {
    let e = scan_end(s, pos, CLASS_DIGIT);
    if e == pos {
        NumParsed::NErr(pos, ParseErrorKind::ExpectedNumber)
    } else {
        let v = dec_value(s.subrange(pos as int, e as int));
        if v > usize::MAX {
            NumParsed::NErr(pos, ParseErrorKind::NumberTooLarge)
        } else {
            NumParsed::NOk(v as usize, e)
        }
    }
}

/// Parses one validator specification expression at `pos`. The grammar is
/// `name` or `name(args)`: `and` and `or` take exactly two nested
/// specifications, `elements` exactly one, `tuple` a comma-separated list of
/// two to thirteen, and `length` a list of `min`, `max` or `equal` options;
/// `equal` beside `min` or `max` is diagnosed but resolved in favour of
/// `equal` for both bounds. The fuel bounds recursion and exceeds any nesting
/// an input of this length can express.
pub open spec fn spec_parse_expr(s: Seq<u8>, pos: nat, fuel: nat) -> Parsed
    decreases fuel,
{
    if fuel == 0 {
        Parsed::PErr(pos, ParseErrorKind::TooDeep)
    } else {
        let p0 = scan_end(s, pos, CLASS_WS);
        let pe = scan_end(s, p0, CLASS_NAME);
        if pe == p0 {
            Parsed::PErr(p0, ParseErrorKind::ExpectedName)
        } else {
            let code = kw_code(s.subrange(p0 as int, pe as int));
            if code == 1 {
                Parsed::POk(SpecExpr::NotEmpty, seq![], pe)
            } else if code == 2 {
                Parsed::POk(SpecExpr::Email, seq![], pe)
            } else if code == 3 {
                Parsed::POk(SpecExpr::Url, seq![], pe)
            } else if code == 4 {
                Parsed::POk(SpecExpr::IpAddr, seq![], pe)
            } else if code == 5 {
                Parsed::POk(SpecExpr::Ignore, seq![], pe)
            } else if code == 8 || code == 9 {
                let q = scan_end(s, pe, CLASS_WS);
                if !(q < s.len() && s[q as int] == OPEN_PAREN) {
                    Parsed::PErr(q, ParseErrorKind::ExpectedOpenParen)
                } else {
                    match spec_parse_expr(s, (q + 1) as nat, (fuel - 1) as nat) {
                        Parsed::PErr(p, k) => Parsed::PErr(p, k),
                        Parsed::POk(left, w1, p1) => {
                            let c = scan_end(s, p1, CLASS_WS);
                            if !(c < s.len() && s[c as int] == COMMA) {
                                Parsed::PErr(c, ParseErrorKind::ExpectedComma)
                            } else {
                                match spec_parse_expr(s, (c + 1) as nat, (fuel - 1) as nat) {
                                    Parsed::PErr(p, k) => Parsed::PErr(p, k),
                                    Parsed::POk(right, w2, p2) => {
                                        let z = scan_end(s, p2, CLASS_WS);
                                        if !(z < s.len() && s[z as int] == CLOSE_PAREN) {
                                            Parsed::PErr(z, ParseErrorKind::ExpectedCloseParen)
                                        } else if code == 8 {
                                            Parsed::POk(
                                                SpecExpr::And(Box::new(left), Box::new(right)),
                                                w1 + w2,
                                                (z + 1) as nat,
                                            )
                                        } else {
                                            Parsed::POk(
                                                SpecExpr::Or(Box::new(left), Box::new(right)),
                                                w1 + w2,
                                                (z + 1) as nat,
                                            )
                                        }
                                    },
                                }
                            }
                        },
                    }
                }
            } else if code == 7 {
                let q = scan_end(s, pe, CLASS_WS);
                if !(q < s.len() && s[q as int] == OPEN_PAREN) {
                    Parsed::PErr(q, ParseErrorKind::ExpectedOpenParen)
                } else {
                    match spec_parse_expr(s, (q + 1) as nat, (fuel - 1) as nat) {
                        Parsed::PErr(p, k) => Parsed::PErr(p, k),
                        Parsed::POk(inner, w1, p1) => {
                            let z = scan_end(s, p1, CLASS_WS);
                            if !(z < s.len() && s[z as int] == CLOSE_PAREN) {
                                Parsed::PErr(z, ParseErrorKind::ExpectedCloseParen)
                            } else {
                                Parsed::POk(SpecExpr::Elements(Box::new(inner)), w1, (z + 1) as nat)
                            }
                        },
                    }
                }
            } else if code == 6 {
                let q = scan_end(s, pe, CLASS_WS);
                if !(q < s.len() && s[q as int] == OPEN_PAREN) {
                    Parsed::PErr(q, ParseErrorKind::ExpectedOpenParen)
                } else {
                    match spec_parse_opts(s, (q + 1) as nat, (fuel - 1) as nat) {
                        OptsParsed::OErr(p, k) => Parsed::PErr(p, k),
                        OptsParsed::OOk { min, max, equal, equal_pos, pos: p1 } => {
                            let z = scan_end(s, p1, CLASS_WS);
                            if !(z < s.len() && s[z as int] == CLOSE_PAREN) {
                                Parsed::PErr(z, ParseErrorKind::ExpectedCloseParen)
                            } else {
                                match equal {
                                    Option::Some(v) => Parsed::POk(
                                        SpecExpr::Length { min: Some(v), max: Some(v) },
                                        if min is Some || max is Some {
                                            seq![equal_pos]
                                        } else {
                                            seq![]
                                        },
                                        (z + 1) as nat,
                                    ),
                                    Option::None => {
                                        if min is Some || max is Some {
                                            Parsed::POk(
                                                SpecExpr::Length { min, max },
                                                seq![],
                                                (z + 1) as nat,
                                            )
                                        } else {
                                            Parsed::PErr(p0, ParseErrorKind::NoLengthOptions)
                                        }
                                    },
                                }
                            }
                        },
                    }
                }
            } else if code == 10 {
                let q = scan_end(s, pe, CLASS_WS);
                if !(q < s.len() && s[q as int] == OPEN_PAREN) {
                    Parsed::PErr(q, ParseErrorKind::ExpectedOpenParen)
                } else {
                    match spec_parse_items(s, (q + 1) as nat, (fuel - 1) as nat) {
                        ItemsParsed::IErr(p, k) => Parsed::PErr(p, k),
                        ItemsParsed::IOk(items, w1, p1) => {
                            let z = scan_end(s, p1, CLASS_WS);
                            if !(z < s.len() && s[z as int] == CLOSE_PAREN) {
                                Parsed::PErr(z, ParseErrorKind::ExpectedCloseParen)
                            } else if 2 <= items.len() <= MAX_TUPLE_ARITY {
                                Parsed::POk(SpecExpr::Tuple(items), w1, (z + 1) as nat)
                            } else {
                                Parsed::PErr(p0, ParseErrorKind::TupleArity)
                            }
                        },
                    }
                }
            } else {
                Parsed::PErr(p0, ParseErrorKind::UnknownValidator)
            }
        }
    }
}

/// Parses a comma-separated list of expressions.
pub open spec fn spec_parse_items(s: Seq<u8>, pos: nat, fuel: nat) -> ItemsParsed
    decreases fuel,
{
    if fuel == 0 {
        ItemsParsed::IErr(pos, ParseErrorKind::TooDeep)
    } else {
        match spec_parse_expr(s, pos, (fuel - 1) as nat) {
            Parsed::PErr(p, k) => ItemsParsed::IErr(p, k),
            Parsed::POk(e, w, p1) => {
                let c = scan_end(s, p1, CLASS_WS);
                if c < s.len() && s[c as int] == COMMA {
                    match spec_parse_items(s, (c + 1) as nat, (fuel - 1) as nat) {
                        ItemsParsed::IErr(p, k) => ItemsParsed::IErr(p, k),
                        ItemsParsed::IOk(rest, w2, p2) => ItemsParsed::IOk(
                            seq![e] + rest,
                            w + w2,
                            p2,
                        ),
                    }
                } else {
                    ItemsParsed::IOk(seq![e], w, p1)
                }
            },
        }
    }
}

/// Parses `name = number` length options separated by commas; a later
/// assignment of the same option wins, and the last `equal`'s position is
/// kept for diagnostics.
pub open spec fn spec_parse_opts(s: Seq<u8>, pos: nat, fuel: nat) -> OptsParsed
    decreases fuel,
{
    if fuel == 0 {
        OptsParsed::OErr(pos, ParseErrorKind::TooDeep)
    } else {
        let p0 = scan_end(s, pos, CLASS_WS);
        let pe = scan_end(s, p0, CLASS_NAME);
        if pe == p0 {
            OptsParsed::OErr(p0, ParseErrorKind::ExpectedName)
        } else {
            let oc = opt_code(s.subrange(p0 as int, pe as int));
            if oc == 0 {
                OptsParsed::OErr(p0, ParseErrorKind::UnknownLengthOption)
            } else {
                let q = scan_end(s, pe, CLASS_WS);
                if !(q < s.len() && s[q as int] == EQUALS_SIGN) {
                    OptsParsed::OErr(q, ParseErrorKind::ExpectedEquals)
                } else {
                    let v0 = scan_end(s, (q + 1) as nat, CLASS_WS);
                    match spec_parse_number(s, v0) {
                        NumParsed::NErr(p, k) => OptsParsed::OErr(p, k),
                        NumParsed::NOk(v, p1) => {
                            let c = scan_end(s, p1, CLASS_WS);
                            if c < s.len() && s[c as int] == COMMA {
                                match spec_parse_opts(s, (c + 1) as nat, (fuel - 1) as nat) {
                                    OptsParsed::OErr(p, k) => OptsParsed::OErr(p, k),
                                    OptsParsed::OOk { min, max, equal, equal_pos, pos: pz } => {
                                        if oc == 1 {
                                            OptsParsed::OOk {
                                                min: if min is Some { min } else { Some(v) },
                                                max,
                                                equal,
                                                equal_pos,
                                                pos: pz,
                                            }
                                        } else if oc == 2 {
                                            OptsParsed::OOk {
                                                min,
                                                max: if max is Some { max } else { Some(v) },
                                                equal,
                                                equal_pos,
                                                pos: pz,
                                            }
                                        } else {
                                            OptsParsed::OOk {
                                                min,
                                                max,
                                                equal: if equal is Some { equal } else { Some(v) },
                                                equal_pos: if equal is Some { equal_pos } else { p0 },
                                                pos: pz,
                                            }
                                        }
                                    },
                                }
                            } else {
                                if oc == 1 {
                                    OptsParsed::OOk {
                                        min: Some(v),
                                        max: None,
                                        equal: None,
                                        equal_pos: 0,
                                        pos: p1,
                                    }
                                } else if oc == 2 {
                                    OptsParsed::OOk {
                                        min: None,
                                        max: Some(v),
                                        equal: None,
                                        equal_pos: 0,
                                        pos: p1,
                                    }
                                } else {
                                    OptsParsed::OOk {
                                        min: None,
                                        max: None,
                                        equal: Some(v),
                                        equal_pos: p0,
                                        pos: p1,
                                    }
                                }
                            }
                        },
                    }
                }
            }
        }
    }
}

/// Parses a whole specification: one expression with nothing but separators
/// after it.
pub open spec fn spec_parse(s: Seq<u8>) -> Parsed {
    match spec_parse_expr(s, 0, 2 * s.len() + 16) {
        Parsed::PErr(p, k) => Parsed::PErr(p, k),
        Parsed::POk(e, w, p) => {
            let z = scan_end(s, p, CLASS_WS);
            if z == s.len() {
                Parsed::POk(e, w, z)
            } else {
                Parsed::PErr(z, ParseErrorKind::TrailingInput)
            }
        },
    }
}

/// Warning positions as mathematical numbers.
pub open spec fn to_nats(v: Seq<usize>) -> Seq<nat> {
    v.map_values(|x: usize| x as nat)
}

fn parse_number(s: &[u8], pos: usize) -> (r: Result<(usize, usize), (usize, ParseErrorKind)>)
    requires
        pos <= s@.len(),
    ensures
        match r {
            Ok((v, p)) => spec_parse_number(s@, pos as nat) == NumParsed::NOk(v, p as nat) && pos
                <= p <= s@.len(),
            Err((p, k)) => spec_parse_number(s@, pos as nat) == NumParsed::NErr(p as nat, k),
        },
{
    let e = scan(s, pos, CLASS_DIGIT);
    if e == pos {
        return Err((pos, ParseErrorKind::ExpectedNumber));
    }
    let ghost num = s@.subrange(pos as int, e as int);
    let mut v: u128 = 0;
    let mut over = false;
    let mut j: usize = pos;
    while j < e
        invariant
            pos <= j <= e <= s@.len(),
            num == s@.subrange(pos as int, e as int),
            forall|t: int| pos <= t < e ==> in_class(CLASS_DIGIT, #[trigger] s@[t]),
            !over ==> v == dec_value(s@.subrange(pos as int, j as int)) && v <= usize::MAX as u128,
            over ==> dec_value(s@.subrange(pos as int, j as int)) > usize::MAX,
        decreases e - j,
    {
        proof {
            let cur = s@.subrange(pos as int, (j + 1) as int);
            assert(cur.drop_last() =~= s@.subrange(pos as int, j as int));
            assert(cur.last() == s@[j as int]);
            assert(is_digit(s@[j as int]));
        }
        let d = s[j] - DIGIT_ZERO;
        if !over {
            let nv = v * 10 + (d as u128);
            if nv > (usize::MAX as u128) {
                over = true;
            } else {
                v = nv;
            }
        }
        j = j + 1;
    }
    proof {
        assert(s@.subrange(pos as int, j as int) == num);
    }
    if over {
        Err((pos, ParseErrorKind::NumberTooLarge))
    } else {
        Ok((v as usize, e))
    }
}

/// The values length options resolve to.
struct OptValues {
    min: Option<usize>,
    max: Option<usize>,
    equal: Option<usize>,
    equal_pos: usize,
}

fn parse_opts(s: &[u8], pos: usize, fuel: u128) -> (r: Result<
    (OptValues, usize),
    (usize, ParseErrorKind),
>)
    requires
        pos <= s@.len(),
    ensures
        match r {
            Ok((o, p)) => spec_parse_opts(s@, pos as nat, fuel as nat) == (OptsParsed::OOk {
                min: o.min,
                max: o.max,
                equal: o.equal,
                equal_pos: o.equal_pos as nat,
                pos: p as nat,
            }) && p <= s@.len(),
            Err((p, k)) => spec_parse_opts(s@, pos as nat, fuel as nat) == OptsParsed::OErr(
                p as nat,
                k,
            ),
        },
    decreases fuel,
{
    if fuel == 0 {
        return Err((pos, ParseErrorKind::TooDeep));
    }
    let p0 = scan(s, pos, CLASS_WS);
    let pe = scan(s, p0, CLASS_NAME);
    if pe == p0 {
        return Err((p0, ParseErrorKind::ExpectedName));
    }
    let oc = option_code(s, p0, pe);
    if oc == 0 {
        return Err((p0, ParseErrorKind::UnknownLengthOption));
    }
    let q = scan(s, pe, CLASS_WS);
    if !(q < s.len() && s[q] == EQUALS_SIGN) {
        return Err((q, ParseErrorKind::ExpectedEquals));
    }
    let v0 = scan(s, q + 1, CLASS_WS);
    let (v, p1) = match parse_number(s, v0) {
        Ok(x) => x,
        Err(err) => {
            return Err(err);
        },
    };
    let c = scan(s, p1, CLASS_WS);
    if c < s.len() && s[c] == COMMA {
        match parse_opts(s, c + 1, fuel - 1) {
            Err(err) => Err(err),
            Ok((o, pz)) => {
                if oc == 1 {
                    let min = if o.min.is_some() {
                        o.min
                    } else {
                        Some(v)
                    };
                    Ok((OptValues { min, max: o.max, equal: o.equal, equal_pos: o.equal_pos }, pz))
                } else if oc == 2 {
                    let max = if o.max.is_some() {
                        o.max
                    } else {
                        Some(v)
                    };
                    Ok((OptValues { min: o.min, max, equal: o.equal, equal_pos: o.equal_pos }, pz))
                } else {
                    if o.equal.is_some() {
                        Ok((o, pz))
                    } else {
                        Ok((
                            OptValues { min: o.min, max: o.max, equal: Some(v), equal_pos: p0 },
                            pz,
                        ))
                    }
                }
            },
        }
    } else {
        if oc == 1 {
            Ok((OptValues { min: Some(v), max: None, equal: None, equal_pos: 0 }, p1))
        } else if oc == 2 {
            Ok((OptValues { min: None, max: Some(v), equal: None, equal_pos: 0 }, p1))
        } else {
            Ok((OptValues { min: None, max: None, equal: Some(v), equal_pos: p0 }, p1))
        }
    }
}

fn parse_expr(s: &[u8], pos: usize, fuel: u128, warns: &mut Vec<usize>) -> (r: Result<
    (ValidatorExpr, usize),
    (usize, ParseErrorKind),
>)
    requires
        pos <= s@.len(),
    ensures
        match r {
            Ok((e, p)) => {
                &&& spec_parse_expr(s@, pos as nat, fuel as nat) matches Parsed::POk(se, ws, sp)
                &&& abs_expr(e) == se
                &&& p as nat == sp
                &&& p <= s@.len()
                &&& to_nats(final(warns)@) == to_nats(old(warns)@) + ws
                &&& crate::expr::expr_wf(e)
            },
            Err((p, k)) => spec_parse_expr(s@, pos as nat, fuel as nat) == Parsed::PErr(
                p as nat,
                k,
            ),
        },
    decreases fuel,
{
    if fuel == 0 {
        return Err((pos, ParseErrorKind::TooDeep));
    }
    let p0 = scan(s, pos, CLASS_WS);
    let pe = scan(s, p0, CLASS_NAME);
    if pe == p0 {
        return Err((p0, ParseErrorKind::ExpectedName));
    }
    let code = keyword_code(s, p0, pe);
    if code == 1 || code == 2 || code == 3 || code == 4 || code == 5 {
        let e = if code == 1 {
            ValidatorExpr::NotEmpty
        } else if code == 2 {
            ValidatorExpr::Email
        } else if code == 3 {
            ValidatorExpr::Url
        } else if code == 4 {
            ValidatorExpr::IpAddr
        } else {
            ValidatorExpr::Ignore
        };
        proof {
            assert(to_nats(warns@) + Seq::<nat>::empty() =~= to_nats(warns@));
        }
        return Ok((e, pe));
    }
    if code == 0 {
        return Err((p0, ParseErrorKind::UnknownValidator));
    }
    let q = scan(s, pe, CLASS_WS);
    if !(q < s.len() && s[q] == OPEN_PAREN) {
        return Err((q, ParseErrorKind::ExpectedOpenParen));
    }
    if code == 8 || code == 9 {
        let ghost w0 = warns@;
        let (left, p1) = match parse_expr(s, q + 1, fuel - 1, warns) {
            Ok(x) => x,
            Err(err) => {
                return Err(err);
            },
        };
        let ghost w1 = warns@;
        let c = scan(s, p1, CLASS_WS);
        if !(c < s.len() && s[c] == COMMA) {
            return Err((c, ParseErrorKind::ExpectedComma));
        }
        let (right, p2) = match parse_expr(s, c + 1, fuel - 1, warns) {
            Ok(x) => x,
            Err(err) => {
                return Err(err);
            },
        };
        let z = scan(s, p2, CLASS_WS);
        if !(z < s.len() && s[z] == CLOSE_PAREN) {
            return Err((z, ParseErrorKind::ExpectedCloseParen));
        }
        let e = if code == 8 {
            ValidatorExpr::And(Box::new(left), Box::new(right))
        } else {
            ValidatorExpr::Or(Box::new(left), Box::new(right))
        };
        return Ok((e, z + 1));
    }
    if code == 7 {
        let (inner, p1) = match parse_expr(s, q + 1, fuel - 1, warns) {
            Ok(x) => x,
            Err(err) => {
                return Err(err);
            },
        };
        let z = scan(s, p1, CLASS_WS);
        if !(z < s.len() && s[z] == CLOSE_PAREN) {
            return Err((z, ParseErrorKind::ExpectedCloseParen));
        }
        return Ok((ValidatorExpr::Elements(Box::new(inner)), z + 1));
    }
    if code == 6 {
        let (o, p1) = match parse_opts(s, q + 1, fuel - 1) {
            Ok(x) => x,
            Err(err) => {
                return Err(err);
            },
        };
        let z = scan(s, p1, CLASS_WS);
        if !(z < s.len() && s[z] == CLOSE_PAREN) {
            return Err((z, ParseErrorKind::ExpectedCloseParen));
        }
        match o.equal {
            Some(v) => {
                let ghost wbefore = warns@;
                if o.min.is_some() || o.max.is_some() {
                    warns.push(o.equal_pos);
                    proof {
                        assert(to_nats(warns@) =~= to_nats(wbefore) + seq![o.equal_pos as nat]);
                    }
                } else {
                    proof {
                        assert(to_nats(warns@) + Seq::<nat>::empty() =~= to_nats(warns@));
                    }
                }
                return Ok((ValidatorExpr::Length { min: Some(v), max: Some(v) }, z + 1));
            },
            None => {
                if o.min.is_some() || o.max.is_some() {
                    proof {
                        assert(to_nats(warns@) + Seq::<nat>::empty() =~= to_nats(warns@));
                    }
                    return Ok((ValidatorExpr::Length { min: o.min, max: o.max }, z + 1));
                } else {
                    return Err((p0, ParseErrorKind::NoLengthOptions));
                }
            },
        }
    }
    // code == 10: tuple
    let (items, p1) = match parse_items(s, q + 1, fuel - 1, warns) {
        Ok(x) => x,
        Err(err) => {
            return Err(err);
        },
    };
    let z = scan(s, p1, CLASS_WS);
    if !(z < s.len() && s[z] == CLOSE_PAREN) {
        return Err((z, ParseErrorKind::ExpectedCloseParen));
    }
    let arity = items.len();
    if 2 <= arity && arity <= MAX_TUPLE_ARITY {
        return Ok((ValidatorExpr::Tuple(items), z + 1));
    }
    Err((p0, ParseErrorKind::TupleArity))
}

fn parse_items(s: &[u8], pos: usize, fuel: u128, warns: &mut Vec<usize>) -> (r: Result<
    (Vec<ValidatorExpr>, usize),
    (usize, ParseErrorKind),
>)
    requires
        pos <= s@.len(),
    ensures
        match r {
            Ok((items, p)) => {
                &&& spec_parse_items(s@, pos as nat, fuel as nat) matches ItemsParsed::IOk(
                    sitems,
                    ws,
                    sp,
                )
                &&& abs_exprs(items@) == sitems
                &&& items@.len() == sitems.len()
                &&& p as nat == sp
                &&& p <= s@.len()
                &&& to_nats(final(warns)@) == to_nats(old(warns)@) + ws
                &&& forall|i: int| 0 <= i < items@.len() ==> crate::expr::expr_wf(
                    #[trigger] items@[i],
                )
            },
            Err((p, k)) => spec_parse_items(s@, pos as nat, fuel as nat) == ItemsParsed::IErr(
                p as nat,
                k,
            ),
        },
    decreases fuel,
{
    if fuel == 0 {
        return Err((pos, ParseErrorKind::TooDeep));
    }
    let (e, p1) = match parse_expr(s, pos, fuel - 1, warns) {
        Ok(x) => x,
        Err(err) => {
            return Err(err);
        },
    };
    let c = scan(s, p1, CLASS_WS);
    if c < s.len() && s[c] == COMMA {
        match parse_items(s, c + 1, fuel - 1, warns) {
            Err(err) => Err(err),
            Ok((rest, p2)) => {
                let ghost rest_view = rest@;
                let mut items = rest;
                items.insert(0, e);
                proof {
                    assert(items@ =~= seq![e] + rest_view);
                    assert(items@.drop_first() =~= rest_view);
                    assert(abs_exprs(items@) =~= seq![abs_expr(e)] + abs_exprs(rest_view));
                }
                Ok((items, p2))
            },
        }
    } else {
        let mut items: Vec<ValidatorExpr> = Vec::new();
        items.push(e);
        proof {
            assert(items@ =~= seq![e]);
            assert(items@[0] == e);
            assert(items@.drop_first() =~= Seq::<ValidatorExpr>::empty());
            assert(abs_exprs(items@.drop_first()) =~= Seq::<SpecExpr>::empty());
            assert(abs_exprs(items@) =~= seq![abs_expr(e)] + Seq::<SpecExpr>::empty());
            assert(seq![abs_expr(e)] + Seq::<SpecExpr>::empty() =~= seq![abs_expr(e)]);
        }
        Ok((items, p1))
    }
}

/// Parses a member's validator specification text into an expression tree.
/// On success it also returns the positions of `equal` options that were
/// diagnosed as conflicting with `min` or `max` but resolved in `equal`'s
/// favour; on failure, the position and kind of the first error.
pub fn parse_validator_spec(s: &[u8]) -> (r: Result<(ValidatorExpr, Vec<usize>), ParseError>)
    ensures
        match r {
            Ok((e, warns)) => {
                &&& spec_parse(s@) matches Parsed::POk(se, ws, _)
                &&& abs_expr(e) == se
                &&& to_nats(warns@) == ws
                &&& crate::expr::expr_wf(e)
            },
            Err(pe) => spec_parse(s@) == Parsed::PErr(pe.pos as nat, pe.kind) && pe.kind
                != ParseErrorKind::TooDeep,
        },
{
    proof {
        lemma_spec_parse_total(s@);
    }
    let mut warns: Vec<usize> = Vec::new();
    let n = s.len();
    let fuel: u128 = 2 * (n as u128) + 16;
    proof {
        assert(fuel as nat == 2 * s@.len() + 16);
    }
    match parse_expr(s, 0, fuel, &mut warns) {
        Err((p, k)) => Err(ParseError { pos: p, kind: k }),
        Ok((e, p)) => {
            let z = scan(s, p, CLASS_WS);
            if z == n {
                proof {
                    assert(to_nats(warns@) =~= Seq::<nat>::empty() + to_nats(warns@));
                }
                Ok((e, warns))
            } else {
                Err(ParseError { pos: z, kind: ParseErrorKind::TrailingInput })
            }
        },
    }
}


pub proof fn lemma_scan_end_bounds(s: Seq<u8>, pos: nat, class: u8)
    requires
        pos <= s.len(),
    ensures
        pos <= scan_end(s, pos, class) <= s.len(),
    decreases s.len() - pos,
{
    if pos < s.len() && in_class(class, s[pos as int]) {
        lemma_scan_end_bounds(s, (pos + 1) as nat, class);
    }
}

/// Parsing always consumes input on success, and the recursion budget is
/// never the reason a parse fails: with fuel of at least twice the remaining
/// input plus two, no outcome reports an exceeded budget.
#[verifier::rlimit(100)]
pub proof fn lemma_parse_progress(s: Seq<u8>, pos: nat, fuel: nat)
    requires
        pos <= s.len(),
    ensures
        spec_parse_expr(s, pos, fuel) matches Parsed::POk(e2, w2, p2) ==> pos < p2 <= s.len(),
        fuel >= 2 * (s.len() - pos) + 1 ==> (spec_parse_expr(s, pos, fuel) matches Parsed::PErr(
            p2,
            k2,
        ) ==> k2 != ParseErrorKind::TooDeep),
        spec_parse_items(s, pos, fuel) matches ItemsParsed::IOk(e2, w2, p2) ==> pos < p2
            <= s.len(),
        fuel >= 2 * (s.len() - pos) + 2 ==> (spec_parse_items(s, pos, fuel)
            matches ItemsParsed::IErr(p2, k2) ==> k2 != ParseErrorKind::TooDeep),
        spec_parse_opts(s, pos, fuel) matches OptsParsed::OOk { pos: p2, .. } ==> pos < p2
            <= s.len(),
        fuel >= 2 * (s.len() - pos) + 2 ==> (spec_parse_opts(s, pos, fuel)
            matches OptsParsed::OErr(p2, k2) ==> k2 != ParseErrorKind::TooDeep),
    decreases fuel,
{
    if fuel == 0 {
        return;
    }
    let sub = (fuel - 1) as nat;
    // the expression grammar
    let p0 = scan_end(s, pos, CLASS_WS);
    lemma_scan_end_bounds(s, pos, CLASS_WS);
    let pe = scan_end(s, p0, CLASS_NAME);
    lemma_scan_end_bounds(s, p0, CLASS_NAME);
    if pe != p0 {
        let q = scan_end(s, pe, CLASS_WS);
        lemma_scan_end_bounds(s, pe, CLASS_WS);
        if q < s.len() && s[q as int] == OPEN_PAREN {
            lemma_parse_progress(s, (q + 1) as nat, sub);
            if let Parsed::POk(l2, w2, p1) = spec_parse_expr(s, (q + 1) as nat, sub) {
                let c = scan_end(s, p1, CLASS_WS);
                lemma_scan_end_bounds(s, p1, CLASS_WS);
                if c < s.len() && s[c as int] == COMMA {
                    lemma_parse_progress(s, (c + 1) as nat, sub);
                    if let Parsed::POk(r2, w3, p2) = spec_parse_expr(s, (c + 1) as nat, sub) {
                        lemma_scan_end_bounds(s, p2, CLASS_WS);
                    }
                }
            }
            if let ItemsParsed::IOk(is2, w2, p1) = spec_parse_items(s, (q + 1) as nat, sub) {
                lemma_scan_end_bounds(s, p1, CLASS_WS);
            }
            if let OptsParsed::OOk { pos: p1, .. } = spec_parse_opts(s, (q + 1) as nat, sub) {
                lemma_scan_end_bounds(s, p1, CLASS_WS);
            }
        }
    }
    // the item list grammar: an expression, then optionally a comma and more
    lemma_parse_progress(s, pos, sub);
    if let Parsed::POk(e2, w2, p1) = spec_parse_expr(s, pos, sub) {
        let c = scan_end(s, p1, CLASS_WS);
        lemma_scan_end_bounds(s, p1, CLASS_WS);
        if c < s.len() && s[c as int] == COMMA {
            lemma_parse_progress(s, (c + 1) as nat, sub);
        }
    }
    // the length option grammar: name = number, then optionally a comma and more
    if pe != p0 {
        let oq = scan_end(s, pe, CLASS_WS);
        lemma_scan_end_bounds(s, pe, CLASS_WS);
        if oq < s.len() && s[oq as int] == EQUALS_SIGN {
            let v0 = scan_end(s, (oq + 1) as nat, CLASS_WS);
            lemma_scan_end_bounds(s, (oq + 1) as nat, CLASS_WS);
            lemma_scan_end_bounds(s, v0, CLASS_DIGIT);
            if let NumParsed::NOk(v2, p1) = spec_parse_number(s, v0) {
                let c = scan_end(s, p1, CLASS_WS);
                lemma_scan_end_bounds(s, p1, CLASS_WS);
                if c < s.len() && s[c as int] == COMMA {
                    lemma_parse_progress(s, (c + 1) as nat, sub);
                }
            }
        }
    }
}

/// The recursion budget a whole-specification parse runs with is never the
/// reason it fails.
pub proof fn lemma_spec_parse_total(s: Seq<u8>)
    ensures
        spec_parse(s) matches Parsed::PErr(p, k) ==> k != ParseErrorKind::TooDeep,
{
    lemma_parse_progress(s, 0, 2 * s.len() + 16);
}

} // verus!
