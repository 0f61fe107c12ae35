//! Small text routines over character sequences: comparison and decimal
//! integer parsing.
use vstd::prelude::*;
use vstd::string::StrSliceExecFns;

verus! {

/// Whether `a` and `b` hold the same characters.
pub fn same_text(a: &str, b: &str) -> (r: bool)
    ensures
        r == (a@ == b@),
{
    let n = a.unicode_len();
    if n != b.unicode_len() {
        return false;
    }
    let mut i: usize = 0;
    while i < n
        invariant
            n == a@.len(),
            n == b@.len(),
            i <= n,
            forall|j: int| 0 <= j < i ==> a@[j] == b@[j],
        decreases n - i,
    {
        if a.get_char(i) != b.get_char(i) {
            return false;
        }
        i = i + 1;
    }
    assert(a@ =~= b@);
    true
}

/// The value of `c` as a digit in `radix` (10 or 16; letters in either case).
pub open spec fn digit_value(c: char, radix: nat) -> Option<nat> {
    if '0' <= c && c <= '9' {
        Some((c as nat - '0' as nat) as nat)
    } else if radix == 16 && 'a' <= c && c <= 'f' {
        Some((c as nat - 'a' as nat + 10) as nat)
    } else if radix == 16 && 'A' <= c && c <= 'F' {
        Some((c as nat - 'A' as nat + 10) as nat)
    } else {
        None
    }
}

/// Every character of `s` is a digit in `radix`.
pub open spec fn all_digits(s: Seq<char>, radix: nat) -> bool {
    forall|i: int| 0 <= i < s.len() ==> (#[trigger] digit_value(s[i], radix)) is Some
}

/// Value of a run of digits in `radix`.
pub open spec fn digits_value(s: Seq<char>, radix: nat) -> nat
    decreases s.len(),
{
    if s.len() == 0 {
        0
    } else {
        digits_value(s.drop_last(), radix) * radix + match digit_value(s.last(), radix) {
            Some(d) => d,
            None => 0,
        }
    }
}

/// The `i32` that `s` writes in `radix`: an optional `+` or `-`, then one or
/// more digits, with nothing else, and a value in range.
pub open spec fn int_in_radix(s: Seq<char>, radix: nat) -> Option<i32> {
    let negative = s.len() > 0 && s[0] == '-';
    let signed = s.len() > 0 && (s[0] == '-' || s[0] == '+');
    let body = if signed {
        s.drop_first()
    } else {
        s
    };
    let v: int = if negative {
        -digits_value(body, radix)
    } else {
        digits_value(body, radix) as int
    };
    if body.len() == 0 || !all_digits(body, radix) {
        None
    } else if i32::MIN <= v <= i32::MAX {
        Some(v as i32)
    } else {
        None
    }
}

/// The `i32` that `s` writes in decimal.
pub open spec fn decimal_i32(s: Seq<char>) -> Option<i32> {
    int_in_radix(s, 10)
}

proof fn lemma_digits_value_grows(s: Seq<char>, radix: nat, k: int)
    requires
        0 <= k <= s.len(),
        radix > 0,
        all_digits(s, radix),
    ensures
        digits_value(s.subrange(0, k), radix) <= digits_value(s, radix),
    decreases s.len() - k,
{
    if k < s.len() {
        let t = s.subrange(0, k + 1);
        assert(t.drop_last() =~= s.subrange(0, k));
        let a = digits_value(s.subrange(0, k), radix);
        assert(a <= a * radix) by (nonlinear_arith)
            requires radix > 0;
        lemma_digits_value_grows(s, radix, k + 1);
    } else {
        assert(s.subrange(0, k) =~= s);
    }
}

/// Magnitude of the smallest `i32`, one past the largest.
pub const I32_MAGNITUDE_LIMIT: u64 = 2147483648;

/// The digit `c` stands for in `radix`.
fn digit(c: char, radix: u32) -> (r: Option<u64>)
    requires
        radix == 10 || radix == 16,
    ensures
        r is Some <==> digit_value(c, radix as nat) is Some,
        r is Some ==> r->Some_0 == digit_value(c, radix as nat)->Some_0,
        r is Some ==> r->Some_0 < radix,
{
    if '0' <= c && c <= '9' {
        Some((c as u32 - '0' as u32) as u64)
    } else if radix == 16 && 'a' <= c && c <= 'f' {
        Some((c as u32 - 'a' as u32 + 10) as u64)
    } else if radix == 16 && 'A' <= c && c <= 'F' {
        Some((c as u32 - 'A' as u32 + 10) as u64)
    } else {
        None
    }
}

/// Reads the characters `s` as an `i32` in `radix`, as `int_in_radix` states.
pub fn int_from_chars(s: &Vec<char>, radix: u32) -> (r: Option<i32>)
    requires
        radix == 10 || radix == 16,
    ensures
        r == int_in_radix(s@, radix as nat),
{
    let ghost rx = radix as nat;
    let n = s.len();
    let mut start: usize = 0;
    let mut negative = false;
    if n > 0 {
        let c = s[0];
        if c == '-' {
            negative = true;
            start = 1;
        } else if c == '+' {
            start = 1;
        }
    }
    let ghost body = if start == 1 {
        s@.drop_first()
    } else {
        s@
    };
    assert(body =~= s@.subrange(start as int, n as int));
    if start == n {
        return None;
    }
    let mut acc: u64 = 0;
    let mut i: usize = start;
    while i < n
        invariant
            n == s@.len(),
            start <= i <= n,
            rx == radix as nat,
            radix == 10 || radix == 16,
            body =~= s@.subrange(start as int, n as int),
            body == (if start == 1 {
                s@.drop_first()
            } else {
                s@
            }),
            forall|j: int| 0 <= j < i - start ==> (#[trigger] digit_value(body[j], rx)) is Some,
            acc == digits_value(body.subrange(0, i - start), rx),
            acc <= I32_MAGNITUDE_LIMIT,
            start <= 1,
            start == 1 <==> (s@.len() > 0 && (s@[0] == '-' || s@[0] == '+')),
            negative <==> (s@.len() > 0 && s@[0] == '-'),
        decreases n - i,
    {
        let c = s[i];
        assert(body[i - start] == c);
        let d = match digit(c, radix) {
            Some(d) => d,
            None => {
                assert(!all_digits(body, rx));
                return None;
            },
        };
        assert(acc * (radix as u64) <= 34359738368) by (nonlinear_arith)
            requires acc <= 2147483648u64, radix <= 16;
        proof {
            let t = body.subrange(0, i - start + 1);
            assert(t.drop_last() =~= body.subrange(0, i - start));
            assert(t.last() == c);
            assert(digits_value(t, rx) == digits_value(t.drop_last(), rx) * rx + d);
        }
        acc = acc * (radix as u64) + d;
        i = i + 1;
        assert(acc == digits_value(body.subrange(0, i - start), rx));
        if acc > I32_MAGNITUDE_LIMIT {
            proof {
                if all_digits(body, rx) {
                    lemma_digits_value_grows(body, rx, i - start);
                    assert(digits_value(body, rx) > I32_MAGNITUDE_LIMIT);
                }
            }
            return None;
        }
    }
    assert(body.subrange(0, n - start) =~= body);
    if negative {
        Some((0 - acc as i64) as i32)
    } else if acc > 2147483647 {
        None
    } else {
        Some(acc as i32)
    }
}

/// The characters of `s`, in order.
pub fn chars_of(s: &str) -> (r: Vec<char>)
    ensures
        r@ == s@,
{
    let n = s.unicode_len();
    let mut r: Vec<char> = Vec::new();
    let mut i: usize = 0;
    while i < n
        invariant
            n == s@.len(),
            i <= n,
            r@ == s@.subrange(0, i as int),
        decreases n - i,
    {
        r.push(s.get_char(i));
        i = i + 1;
    }
    assert(r@ =~= s@);
    r
}

/// Parses `s` as an `i32` in `radix`, as `int_in_radix` states.
pub fn parse_i32_radix(s: &str, radix: u32) -> (r: Option<i32>)
    requires
        radix == 10 || radix == 16,
    ensures
        r == int_in_radix(s@, radix as nat),
{
    int_from_chars(&chars_of(s), radix)
}

/// Parses `s` as a decimal `i32`.
pub fn parse_i32(s: &str) -> (r: Option<i32>)
    ensures
        r == decimal_i32(s@),
{
    parse_i32_radix(s, 10)
}

} // verus!
