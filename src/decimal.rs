use vstd::prelude::*;
use vstd::string::*;

verus! {

/// Longest numeric text accepted, sign excluded (dot included).
pub const MAX_BODY_LEN: usize = 38;

pub open spec fn is_digit(c: char) -> bool {
    '0' <= c && c <= '9'
}

pub open spec fn digit_of(c: char) -> int {
    (c as int) - ('0' as int)
}

/// Value of a sequence of decimal digits, most significant first.
pub open spec fn digits_value(d: Seq<char>) -> int
    decreases d.len(),
{
    if d.len() == 0 {
        0
    } else {
        digits_value(d.drop_last()) * 10 + digit_of(d.last())
    }
}

pub open spec fn pow10(n: nat) -> int
    decreases n,
{
    if n == 0 {
        1
    } else {
        10 * pow10((n - 1) as nat)
    }
}

/// Length of a leading `+` or `-`.
pub open spec fn sign_len(s: Seq<char>) -> int {
    if s.len() > 0 && (s[0] == '-' || s[0] == '+') {
        1
    } else {
        0
    }
}

/// The text after its sign.
pub open spec fn text_body(s: Seq<char>) -> Seq<char> {
    s.subrange(sign_len(s), s.len() as int)
}

/// `b` holds a `.` at `p` and digits everywhere else.
pub open spec fn dotted_at(b: Seq<char>, p: int) -> bool {
    0 <= p < b.len() && b[p] == '.' && forall|k: int| 0 <= k < b.len() && k != p ==> is_digit(b[k])
}

pub open spec fn has_dot(b: Seq<char>) -> bool {
    exists|p: int| dotted_at(b, p)
}

pub open spec fn dot_pos(b: Seq<char>) -> int {
    choose|p: int| dotted_at(b, p)
}

pub open spec fn all_digits(b: Seq<char>) -> bool {
    forall|k: int| 0 <= k < b.len() ==> is_digit(b[k])
}

/// A body of digits with at most one `.` and at least one digit.
pub open spec fn numeric_body(b: Seq<char>) -> bool {
    (b.len() >= 1 && all_digits(b)) || (b.len() >= 2 && has_dot(b))
}

/// Text that this library reads as a number: an optional sign, then digits with
/// at most one decimal point, at least one digit and at most `MAX_BODY_LEN` characters.
pub open spec fn is_numeric_text(s: Seq<char>) -> bool {
    numeric_body(text_body(s)) && text_body(s).len() <= MAX_BODY_LEN
}

pub open spec fn mantissa_digits(b: Seq<char>) -> Seq<char> {
    if has_dot(b) {
        b.remove(dot_pos(b))
    } else {
        b
    }
}

pub open spec fn scale_of(b: Seq<char>) -> int {
    if has_dot(b) {
        b.len() - 1 - dot_pos(b)
    } else {
        0
    }
}

/// Exact decimal number: `(-1)^negative * mantissa / 10^scale`.
#[derive(Clone, Copy, Debug, PartialEq, Eq, Structural)]
pub struct Decimal {
    pub negative: bool,
    pub mantissa: u128,
    pub scale: u32,
}

/// The decimal that numeric text denotes.
pub open spec fn decimal_of(s: Seq<char>) -> Decimal {
    Decimal {
        negative: sign_len(s) == 1 && s[0] == '-',
        mantissa: digits_value(mantissa_digits(text_body(s))) as u128,
        scale: scale_of(text_body(s)) as u32,
    }
}

proof fn lemma_digits_value_bound(d: Seq<char>)
    requires
        all_digits(d),
    ensures
        0 <= digits_value(d) < pow10(d.len()),
    decreases d.len(),
{
    if d.len() > 0 {
        let e = d.drop_last();
        assert(all_digits(e));
        lemma_digits_value_bound(e);
        let v = digits_value(e);
        let p = pow10(e.len());
        assert(v * 10 + digit_of(d.last()) < p * 10) by (nonlinear_arith)
            requires
                0 <= v < p,
                0 <= digit_of(d.last()) <= 9,
        ;
    }
}

proof fn lemma_pow10_monotone(a: nat, b: nat)
    requires
        a <= b,
    ensures
        1 <= pow10(a) <= pow10(b),
    decreases b,
{
    if b > 0 {
        if a < b {
            lemma_pow10_monotone(a, (b - 1) as nat);
        } else {
            lemma_pow10_monotone((a - 1) as nat, (b - 1) as nat);
        }
    }
}

proof fn lemma_pow10_max()
    ensures
        pow10(MAX_BODY_LEN as nat) < u128::MAX,
{
    reveal_with_fuel(pow10, 40);
}

proof fn lemma_dot_unique(b: Seq<char>, p: int)
    requires
        dotted_at(b, p),
    ensures
        has_dot(b),
        dot_pos(b) == p,
{
    let q = dot_pos(b);
    assert(dotted_at(b, q));
    if q != p {
        assert(is_digit(b[q]));
    }
}

/// Read numeric text as an exact decimal; `None` when the text is not numeric.
pub fn parse_decimal(s: &str) -> (r: Option<Decimal>)
    ensures
        r is Some <==> is_numeric_text(s@),
        r matches Some(d) ==> d == decimal_of(s@),
{
    let n = s.unicode_len();
    let start: usize = if n > 0 && (s.get_char(0) == '-' || s.get_char(0) == '+') {
        1
    } else {
        0
    };
    let ghost b = s@.subrange(start as int, n as int);
    assert(b == text_body(s@));
    let blen: usize = n - start;
    if blen > MAX_BODY_LEN {
        return None;
    }
    let mut acc: u128 = 0;
    let mut dot: Option<usize> = None;
    let mut j: usize = 0;
    let ghost mut processed: Seq<char> = Seq::empty();
    while j < blen
        invariant
            n == s@.len(),
            start as int == sign_len(s@),
            b == text_body(s@),
            blen == b.len(),
            blen <= MAX_BODY_LEN,
            j <= blen,
            dot matches None ==> (forall|k: int| 0 <= k < j ==> is_digit(b[k])) && processed
                == b.subrange(0, j as int),
            dot matches Some(p) ==> p < j && b[p as int] == '.' && (forall|k: int|
                0 <= k < j && k != p ==> is_digit(b[k])) && processed == b.subrange(
                0,
                j as int,
            ).remove(p as int),
            processed.len() <= j,
            all_digits(processed),
            acc as int == digits_value(processed),
        decreases blen - j,
    {
        let c = s.get_char(start + j);
        assert(c == b[j as int]);
        if c == '.' {
            if dot.is_some() {
                proof {
                    let p = dot->Some_0 as int;
                    assert forall|q: int| !dotted_at(b, q) by {
                        if dotted_at(b, q) {
                            if q == p {
                                assert(is_digit(b[j as int]));
                            } else {
                                assert(is_digit(b[p]));
                            }
                        }
                    }
                }
                return None;
            }
            proof {
                assert(b.subrange(0, j as int + 1).remove(j as int) =~= b.subrange(0, j as int));
            }
            dot = Some(j);
        } else if '0' <= c && c <= '9' {
            proof {
                lemma_digits_value_bound(processed);
                lemma_pow10_monotone(processed.len(), (MAX_BODY_LEN - 1) as nat);
                lemma_pow10_max();
                let v = acc as int;
                let p = pow10(processed.len());
                let m = pow10((MAX_BODY_LEN - 1) as nat);
                assert(v * 10 + 9 < m * 10) by (nonlinear_arith)
                    requires
                        v < p,
                        p <= m,
                ;
                assert(pow10(MAX_BODY_LEN as nat) == 10 * m);
            }
            let d = (c as u32 - '0' as u32) as u128;
            acc = acc * 10 + d;
            proof {
                let next = processed.push(c);
                assert(next.drop_last() =~= processed);
                match dot {
                    None => {
                        assert(next =~= b.subrange(0, j as int + 1));
                    },
                    Some(p) => {
                        assert(next =~= b.subrange(0, j as int + 1).remove(p as int));
                    },
                }
                processed = next;
            }
        } else {
            proof {
                assert forall|q: int| !dotted_at(b, q) by {
                    if dotted_at(b, q) {
                        assert(is_digit(b[j as int]));
                    }
                }
            }
            return None;
        }
        j = j + 1;
    }
    let negative = start == 1 && s.get_char(0) == '-';
    match dot {
        None => {
            if blen == 0 {
                return None;
            }
            proof {
                assert(processed =~= b);
                assert forall|q: int| !dotted_at(b, q) by {
                    if dotted_at(b, q) {
                        assert(is_digit(b[q]));
                    }
                }
            }
            Some(Decimal { negative, mantissa: acc, scale: 0 })
        },
        Some(p) => {
            if blen < 2 {
                proof {
                    assert(!all_digits(b)) by {
                        assert(!is_digit(b[p as int]));
                    }
                }
                return None;
            }
            proof {
                lemma_dot_unique(b, p as int);
                assert(processed =~= b.remove(p as int)) by {
                    assert(b.subrange(0, j as int) =~= b);
                }
            }
            Some(Decimal { negative, mantissa: acc, scale: (blen - 1 - p) as u32 })
        },
    }
}

} // verus!
