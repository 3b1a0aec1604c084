use vstd::prelude::*;
use vstd::string::*;

verus! {

/// The ten decimal digit characters, in value order.
pub open spec fn decimal_digits() -> Seq<char> {
    seq!['0', '1', '2', '3', '4', '5', '6', '7', '8', '9']
}

pub open spec fn digit_char(d: nat) -> char {
    decimal_digits()[d as int]
}

pub open spec fn is_digit(c: char) -> bool {
    '0' <= c && c <= '9'
}

pub open spec fn digit_value(c: char) -> int {
    c as int - '0' as int
}

/// The shortest decimal text of a natural number.
pub open spec fn digits_of(n: nat) -> Seq<char>
    decreases n,
{
    if n < 10 {
        seq![digit_char(n)]
    } else {
        digits_of(n / 10).push(digit_char(n % 10))
    }
}

/// The canonical decimal text of an integer: a minus sign only for negatives,
/// no leading zeros.
pub open spec fn int_text(n: int) -> Seq<char> {
    if n < 0 {
        seq!['-'] + digits_of((-n) as nat)
    } else {
        digits_of(n as nat)
    }
}

/// The value of a run of decimal digits, most significant first.
pub open spec fn digits_value(s: Seq<char>) -> int
    decreases s.len(),
{
    if s.len() == 0 {
        0
    } else {
        digits_value(s.drop_last()) * 10 + digit_value(s.last())
    }
}

pub open spec fn pow10(k: nat) -> int
    decreases k,
{
    if k == 0 {
        1
    } else {
        10 * pow10((k - 1) as nat)
    }
}

/// A character allowed in an opaque identifier: an ASCII letter, digit or hyphen.
pub open spec fn is_id_char(c: char) -> bool {
    ('0' <= c && c <= '9') || ('a' <= c && c <= 'z') || ('A' <= c && c <= 'Z') || c == '-'
}

/// A non-empty run of identifier characters.
pub open spec fn is_id_text(s: Seq<char>) -> bool {
    s.len() > 0 && forall|i: int| 0 <= i < s.len() ==> is_id_char(#[trigger] s[i])
}

proof fn lemma_digit_char(d: nat)
    requires
        d < 10,
    ensures
        is_digit(digit_char(d)),
        digit_value(digit_char(d)) == d,
{
}

pub proof fn lemma_digits_of(n: nat)
    ensures
        digits_value(digits_of(n)) == n,
        digits_of(n).len() >= 1,
        forall|i: int| 0 <= i < digits_of(n).len() ==> is_digit(#[trigger] digits_of(n)[i]),
    decreases n,
{
    if n < 10 {
        lemma_digit_char(n);
        assert(digits_of(n).drop_last() =~= Seq::<char>::empty());
        assert(digits_value(Seq::<char>::empty()) == 0);
        assert(digits_value(digits_of(n)) == digits_value(Seq::<char>::empty()) * 10 + digit_value(
            digit_char(n),
        ));
    } else {
        lemma_digits_of(n / 10);
        lemma_digit_char(n % 10);
        let s = digits_of(n);
        assert(s.drop_last() =~= digits_of(n / 10));
        assert(digits_value(s) == (n / 10) * 10 + n % 10);
        assert((n / 10) * 10 + n % 10 == n) by (nonlinear_arith);
        assert forall|i: int| 0 <= i < s.len() implies is_digit(#[trigger] s[i]) by {
            if i < s.len() - 1 {
                assert(s[i] == digits_of(n / 10)[i]);
            }
        }
    }
}

pub proof fn lemma_digits_len(n: nat, k: nat)
    requires
        k >= 1,
        n < pow10(k),
    ensures
        digits_of(n).len() <= k,
    decreases n,
{
    if n >= 10 {
        assert(k >= 2) by {
            if k == 1 {
                assert(pow10(1) == 10 * pow10(0));
            }
        }
        let k1 = (k - 1) as nat;
        assert(pow10(k) == 10 * pow10(k1));
        assert(n / 10 < pow10(k1)) by (nonlinear_arith)
            requires
                n < 10 * pow10(k1),
                n >= 10,
        ;
        lemma_digits_len(n / 10, k1);
    }
}

/// Appends the decimal digit `d`.
fn push_digit(out: &mut String, d: u64)
    requires
        d < 10,
    ensures
        final(out)@ == old(out)@.push(digit_char(d as nat)),
{
    proof {
        reveal_strlit("0");
        reveal_strlit("1");
        reveal_strlit("2");
        reveal_strlit("3");
        reveal_strlit("4");
        reveal_strlit("5");
        reveal_strlit("6");
        reveal_strlit("7");
        reveal_strlit("8");
        reveal_strlit("9");
    }
    let t = match d {
        0 => "0",
        1 => "1",
        2 => "2",
        3 => "3",
        4 => "4",
        5 => "5",
        6 => "6",
        7 => "7",
        8 => "8",
        _ => "9",
    };
    out.append(t);
    assert(final(out)@ =~= old(out)@.push(digit_char(d as nat)));
}

fn push_digits(out: &mut String, n: u64)
    ensures
        final(out)@ == old(out)@ + digits_of(n as nat),
    decreases n,
{
    if n >= 10 {
        push_digits(out, n / 10);
    }
    push_digit(out, n % 10);
    assert(final(out)@ =~= old(out)@ + digits_of(n as nat));
}

/// Appends the canonical decimal text of `n`.
pub fn push_int(out: &mut String, n: i64)
    ensures
        final(out)@ == old(out)@ + int_text(n as int),
{
    if n < 0 {
        proof {
            reveal_strlit("-");
        }
        out.append("-");
        let m: u64 = (0i128 - n as i128) as u64;
        push_digits(out, m);
        assert(final(out)@ =~= old(out)@ + int_text(n as int));
    } else {
        push_digits(out, n as u64);
    }
}

/// What the canonical text of an `i64` looks like: an optional minus sign, then
/// at most nineteen digits whose value is the magnitude.
pub proof fn lemma_int_text(n: int)
    requires
        i64::MIN <= n <= i64::MAX,
    ensures
        ({
            let t = int_text(n);
            let start: int = if n < 0 { 1 } else { 0 };
            &&& 1 <= t.len() <= 20
            &&& start < t.len()
            &&& (n < 0 <==> t[0] == '-')
            &&& forall|i: int| start <= i < t.len() ==> is_digit(#[trigger] t[i])
            &&& digits_value(t.subrange(start, t.len() as int)) == if n < 0 { -n } else { n }
        }),
{
    reveal_with_fuel(pow10, 20);
    let t = int_text(n);
    let m: nat = if n < 0 { (-n) as nat } else { n as nat };
    assert(pow10(19) == 10000000000000000000int);
    lemma_digits_of(m);
    lemma_digits_len(m, 19);
    if n < 0 {
        assert(t.subrange(1, t.len() as int) =~= digits_of(m));
        assert forall|i: int| 1 <= i < t.len() implies is_digit(#[trigger] t[i]) by {
            assert(t[i] == digits_of(m)[i - 1]);
        }
    } else {
        assert(t.subrange(0, t.len() as int) =~= digits_of(m));
        assert(is_digit(digits_of(m)[0]));
    }
}

/// Reads back the canonical decimal text of an `i64`; any other text (a
/// leading zero, `-0`, a sign alone, a value out of range) gives nothing.
pub fn parse_int(s: &str) -> (r: Option<i64>)
    ensures
        forall|n: int| i64::MIN <= n <= i64::MAX && s@ == #[trigger] int_text(n) ==> r == Some(
            n as i64,
        ),
        r is Some ==> int_text(r->0 as int) == s@,
{
    let r = scan_int(s);
    match r {
        Some(v) => {
            let mut t = String::new();
            push_int(&mut t, v);
            if text_eq(t.as_str(), s) {
                Some(v)
            } else {
                None
            }
        },
        None => None,
    }
}

/// Reads the value of an optionally signed run of at most twenty digits; it
/// gives back at least every canonical `i64` text.
fn scan_int(s: &str) -> (r: Option<i64>)
    ensures
        forall|n: int| i64::MIN <= n <= i64::MAX && s@ == #[trigger] int_text(n) ==> r == Some(
            n as i64,
        ),
{
    let len = s.unicode_len();
    if len == 0 || len > 20 {
        proof {
            assert forall|n: int| i64::MIN <= n <= i64::MAX implies s@ != #[trigger] int_text(n) by {
                lemma_int_text(n);
            }
        }
        return None;
    }
    let neg = s.get_char(0) == '-';
    let start: usize = if neg { 1 } else { 0 };
    if start >= len {
        proof {
            assert forall|n: int| i64::MIN <= n <= i64::MAX implies s@ != #[trigger] int_text(n) by {
                lemma_int_text(n);
            }
        }
        return None;
    }
    let mut v: i128 = 0;
    let mut i: usize = start;
    while i < len
        invariant
            len == s@.len(),
            len <= 20,
            start <= i <= len,
            start == (if s@[0] == '-' { 1int } else { 0int }),
            0 <= v < pow10((i - start) as nat),
            v == digits_value(s@.subrange(start as int, i as int)),
        decreases len - i,
    {
        let c = s.get_char(i);
        if !('0' <= c && c <= '9') {
            proof {
                assert forall|n: int| i64::MIN <= n <= i64::MAX implies s@ != #[trigger] int_text(
                    n,
                ) by {
                    lemma_int_text(n);
                }
            }
            return None;
        }
        let d = (c as u32 - '0' as u32) as i128;
        proof {
            reveal_with_fuel(pow10, 21);
            let k = (i - start) as nat;
            assert(pow10(k + 1) == 10 * pow10(k));
            assert(pow10(k) <= pow10(20)) by {
                lemma_pow10_mono(k, 20);
            }
            assert(pow10(20) == 100000000000000000000int);
            assert(v * 10 + d < 10 * pow10(k)) by (nonlinear_arith)
                requires
                    0 <= v < pow10(k),
                    0 <= d < 10,
            ;
            let sub = s@.subrange(start as int, i + 1);
            assert(sub.drop_last() =~= s@.subrange(start as int, i as int));
        }
        v = v * 10 + d;
        i = i + 1;
    }
    proof {
        assert forall|n: int| i64::MIN <= n <= i64::MAX && s@ == #[trigger] int_text(n) implies (if n
            < 0 { -n } else { n }) == v && (n < 0 <==> neg) by {
            lemma_int_text(n);
        }
    }
    if neg {
        if v > 0x8000_0000_0000_0000i128 {
            return None;
        }
        let r = (0 - v) as i64;
        assert(r == -v);
        Some(r)
    } else {
        if v > 0x7fff_ffff_ffff_ffffi128 {
            return None;
        }
        let r = v as i64;
        assert(r == v);
        Some(r)
    }
}

proof fn lemma_pow10_mono(a: nat, b: nat)
    requires
        a <= b,
    ensures
        1 <= pow10(a) <= pow10(b),
    decreases b,
{
    if a < b {
        lemma_pow10_mono(a, (b - 1) as nat);
    } else if a > 0 {
        lemma_pow10_mono((a - 1) as nat, (a - 1) as nat);
    }
}

/// Whether two texts hold the same characters.
pub fn text_eq(a: &str, b: &str) -> (r: bool)
    ensures
        r == (a@ == b@),
{
    let n = a.unicode_len();
    if n != b.unicode_len() {
        return false;
    }
    let mut i: usize = 0;
    while i < n
        invariant
            n == a@.len(),
            n == b@.len(),
            i <= n,
            a@.subrange(0, i as int) == b@.subrange(0, i as int),
        decreases n - i,
    {
        if a.get_char(i) != b.get_char(i) {
            return false;
        }
        assert(a@.subrange(0, i + 1) =~= a@.subrange(0, i as int).push(a@[i as int]));
        assert(b@.subrange(0, i + 1) =~= b@.subrange(0, i as int).push(b@[i as int]));
        i = i + 1;
    }
    assert(a@ =~= a@.subrange(0, n as int));
    assert(b@ =~= b@.subrange(0, n as int));
    true
}

/// Whether `s` is a non-empty run of identifier characters.
pub fn is_id(s: &str) -> (r: bool)
    ensures
        r == is_id_text(s@),
{
    let n = s.unicode_len();
    if n == 0 {
        return false;
    }
    let mut i: usize = 0;
    while i < n
        invariant
            n == s@.len(),
            i <= n,
            forall|j: int| 0 <= j < i ==> is_id_char(#[trigger] s@[j]),
        decreases n - i,
    {
        let c = s.get_char(i);
        if !(('0' <= c && c <= '9') || ('a' <= c && c <= 'z') || ('A' <= c && c <= 'Z') || c
            == '-') {
            return false;
        }
        i = i + 1;
    }
    true
}

} // verus!
