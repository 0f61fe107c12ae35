//! Reading the text that the power configuration tool prints: the active
//! scheme's identifier, and a setting's current index for one power source.
use vstd::prelude::*;
use vstd::string::{StrSliceExecFns, StringExecFns};
use crate::text::{chars_of, int_from_chars, int_in_radix};

verus! {

/// A character with the Unicode `White_Space` property.
pub open spec fn is_space(c: char) -> bool {
    ||| '\u{9}' <= c && c <= '\u{d}'
    ||| c == ' ' || c == '\u{85}' || c == '\u{a0}' || c == '\u{1680}'
    ||| '\u{2000}' <= c && c <= '\u{200a}'
    ||| c == '\u{2028}' || c == '\u{2029}' || c == '\u{202f}' || c == '\u{205f}'
    ||| c == '\u{3000}'
}

/// Whether `c` has the Unicode `White_Space` property.
pub fn is_space_char(c: char) -> (r: bool)
    ensures
        r == is_space(c),
{
    ('\u{9}' <= c && c <= '\u{d}') || c == ' ' || c == '\u{85}' || c == '\u{a0}' || c == '\u{1680}'
        || ('\u{2000}' <= c && c <= '\u{200a}') || c == '\u{2028}' || c == '\u{2029}' || c
        == '\u{202f}' || c == '\u{205f}' || c == '\u{3000}'
}

/// `t` occurs in `s` starting at `i`.
pub open spec fn occurs_at(s: Seq<char>, t: Seq<char>, i: int) -> bool {
    0 <= i && i + t.len() <= s.len() && s.subrange(i, i + t.len()) == t
}

/// The first place at or after `from` where `t` occurs in `s`.
pub open spec fn find_from(s: Seq<char>, t: Seq<char>, from: int) -> Option<int>
    decreases s.len() + 1 - from,
{
    if from < 0 || from + t.len() > s.len() {
        None
    } else if occurs_at(s, t, from) {
        Some(from)
    } else {
        find_from(s, t, from + 1)
    }
}

/// Where the line holding position `p` starts.
pub open spec fn line_start(s: Seq<char>, p: int) -> int
    decreases p,
{
    if p <= 0 {
        0
    } else if s[p - 1] == '\n' {
        p
    } else {
        line_start(s, p - 1)
    }
}

/// Where the line holding position `p` ends (its line feed, or the end).
pub open spec fn line_end(s: Seq<char>, p: int) -> int
    decreases s.len() - p,
{
    if p >= s.len() {
        s.len() as int
    } else if s[p] == '\n' {
        p
    } else {
        line_end(s, p + 1)
    }
}

/// The first position at or after `i` that is not white space.
pub open spec fn first_non_space(s: Seq<char>, i: int) -> int
    decreases s.len() - i,
{
    if i >= s.len() {
        s.len() as int
    } else if !is_space(s[i]) {
        i
    } else {
        first_non_space(s, i + 1)
    }
}

/// The position just after the last non-space character before `j`.
pub open spec fn after_last_non_space(s: Seq<char>, j: int) -> int
    decreases j,
{
    if j <= 0 {
        0
    } else if !is_space(s[j - 1]) {
        j
    } else {
        after_last_non_space(s, j - 1)
    }
}

/// `s` without leading and trailing white space.
pub open spec fn trim_spaces(s: Seq<char>) -> Seq<char> {
    let a = first_non_space(s, 0);
    let b = after_last_non_space(s, s.len() as int);
    if a >= b {
        Seq::empty()
    } else {
        s.subrange(a, b)
    }
}

/// The text that introduces a setting's current index for `power_type`.
pub open spec fn setting_label(power_type: Seq<char>) -> Seq<char> {
    "Current "@ + power_type + " Power Setting Index:"@
}

/// The current index of a setting for `power_type`, read from the tool's
/// output `out`: on the first line that holds the label, the text between
/// the first `0x` and the next `0x` (or the line's end), without surrounding
/// white space, read in hexadecimal. A label that spans lines is never found.
pub open spec fn setting_index(out: Seq<char>, power_type: Seq<char>) -> Option<i32> {
    let label = setting_label(power_type);
    if label.contains('\n') {
        None
    } else {
        match find_from(out, label, 0) {
            None => None,
            Some(p) => {
                let line = out.subrange(line_start(out, p), line_end(out, p));
                match find_from(line, "0x"@, 0) {
                    None => None,
                    Some(q) => {
                        let e = match find_from(line, "0x"@, q + 2) {
                            Some(e) => e,
                            None => line.len() as int,
                        };
                        int_in_radix(trim_spaces(line.subrange(q + 2, e)), 16)
                    },
                }
            },
        }
    }
}

/// Where the run of non-space characters starting at `i` ends.
pub open spec fn word_end(s: Seq<char>, i: int) -> int
    decreases s.len() - i,
{
    if i >= s.len() {
        s.len() as int
    } else if is_space(s[i]) {
        i
    } else {
        word_end(s, i + 1)
    }
}

/// Scanning from `i`, the `k`-th further run of non-space characters (from
/// zero), where `in_word` says that `i` lies inside a run already counted.
pub open spec fn field_at(s: Seq<char>, i: int, k: nat, in_word: bool) -> Option<Seq<char>>
    decreases s.len() - i,
{
    if i < 0 || i >= s.len() {
        None
    } else if is_space(s[i]) {
        field_at(s, i + 1, k, false)
    } else if in_word {
        field_at(s, i + 1, k, true)
    } else if k == 0 {
        Some(s.subrange(i, word_end(s, i)))
    } else {
        field_at(s, i + 1, (k - 1) as nat, true)
    }
}

/// The `k`-th (from zero) whitespace-separated field of `s`.
pub open spec fn field(s: Seq<char>, k: nat) -> Option<Seq<char>> {
    field_at(s, 0, k, false)
}

/// Whether `t` occurs in `s` at `i`.
fn occurs_at_exec(s: &Vec<char>, t: &Vec<char>, i: usize) -> (r: bool)
    ensures
        r == occurs_at(s@, t@, i as int),
{
    if i > s.len() || t.len() > s.len() - i {
        return false;
    }
    let mut k: usize = 0;
    while k < t.len()
        invariant
            i + t@.len() <= s@.len(),
            k <= t@.len(),
            forall|j: int| 0 <= j < k ==> s@[i + j] == t@[j],
        decreases t@.len() - k,
    {
        let n = s.len();
        assert(i + k < n);
        if s[i + k] != t[k] {
            assert(s@.subrange(i as int, i + t@.len())[k as int] != t@[k as int]);
            return false;
        }
        k = k + 1;
    }
    assert(s@.subrange(i as int, i + t@.len()) =~= t@);
    true
}

/// The first place at or after `from` where `t` occurs in `s`.
fn find_exec(s: &Vec<char>, t: &Vec<char>, from: usize) -> (r: Option<usize>)
    requires
        t@.len() > 0,
    ensures
        r is Some ==> from <= r->Some_0,
        r is None ==> find_from(s@, t@, from as int) is None,
        r is Some ==> find_from(s@, t@, from as int) == Some(r->Some_0 as int),
        r is Some ==> occurs_at(s@, t@, r->Some_0 as int),
{
    let mut i: usize = from;
    while t.len() <= s.len() && i <= s.len() - t.len()
        invariant
            from <= i,
            t@.len() > 0,
            find_from(s@, t@, from as int) == find_from(s@, t@, i as int),
        decreases s@.len() + 1 - i,
    {
        if occurs_at_exec(s, t, i) {
            return Some(i);
        }
        i = i + 1;
    }
    None
}

/// Where the line holding position `p` starts.
fn line_start_exec(s: &Vec<char>, p: usize) -> (r: usize)
    requires
        p <= s@.len(),
    ensures
        r == line_start(s@, p as int),
        r <= p,
{
    let mut i: usize = p;
    while i > 0 && s[i - 1] != '\n'
        invariant
            i <= p <= s@.len(),
            line_start(s@, p as int) == line_start(s@, i as int),
        decreases i,
    {
        i = i - 1;
    }
    i
}

/// Where the line holding position `p` ends.
fn line_end_exec(s: &Vec<char>, p: usize) -> (r: usize)
    requires
        p <= s@.len(),
    ensures
        r == line_end(s@, p as int),
        p <= r <= s@.len(),
{
    let mut i: usize = p;
    while i < s.len() && s[i] != '\n'
        invariant
            p <= i <= s@.len(),
            line_end(s@, p as int) == line_end(s@, i as int),
        decreases s@.len() - i,
    {
        i = i + 1;
    }
    i
}

/// The characters of `v` from `lo` up to `hi`.
fn slice_chars(v: &Vec<char>, lo: usize, hi: usize) -> (r: Vec<char>)
    requires
        lo <= hi <= v@.len(),
    ensures
        r@ == v@.subrange(lo as int, hi as int),
{
    let mut r: Vec<char> = Vec::new();
    let mut i: usize = lo;
    while i < hi
        invariant
            lo <= i <= hi <= v@.len(),
            r@ == v@.subrange(lo as int, i as int),
        decreases hi - i,
    {
        r.push(v[i]);
        i = i + 1;
    }
    r
}

/// `s` without leading and trailing white space.
fn trim_chars(s: &Vec<char>) -> (r: Vec<char>)
    ensures
        r@ == trim_spaces(s@),
{
    let mut a: usize = 0;
    while a < s.len() && is_space_char(s[a])
        invariant
            a <= s@.len(),
            first_non_space(s@, 0) == first_non_space(s@, a as int),
        decreases s@.len() - a,
    {
        a = a + 1;
    }
    let mut b: usize = s.len();
    while b > 0 && is_space_char(s[b - 1])
        invariant
            b <= s@.len(),
            after_last_non_space(s@, s@.len() as int) == after_last_non_space(s@, b as int),
        decreases b,
    {
        b = b - 1;
    }
    if a >= b {
        Vec::new()
    } else {
        slice_chars(s, a, b)
    }
}

/// Whether `s` holds a line feed.
fn has_line_feed(s: &Vec<char>) -> (r: bool)
    ensures
        r == s@.contains('\n'),
{
    let mut i: usize = 0;
    while i < s.len()
        invariant
            i <= s@.len(),
            forall|j: int| 0 <= j < i ==> s@[j] != '\n',
        decreases s@.len() - i,
    {
        if s[i] == '\n' {
            return true;
        }
        i = i + 1;
    }
    false
}

/// The current index of a setting for `power_type` (such as `AC` or `DC`) in
/// the tool's query output, as `setting_index` states.
pub fn parse_powercfg_output(output: &str, power_type: &str) -> (r: Option<i32>)
    ensures
        r == setting_index(output@, power_type@),
{
    let out = chars_of(output);
    let label_text = String::from_str("Current ").concat(power_type).concat(" Power Setting Index:");
    let label = chars_of(label_text.as_str());
    proof {
        reveal_strlit("Current ");
        reveal_strlit("0x");
    }
    assert(label@ == setting_label(power_type@));
    assert(label@.len() > 0);
    if has_line_feed(&label) {
        return None;
    }
    let p = match find_exec(&out, &label, 0) {
        Some(p) => p,
        None => return None,
    };
    let a = line_start_exec(&out, p);
    let b = line_end_exec(&out, p);
    let line = slice_chars(&out, a, b);
    let marker = chars_of("0x");
    let q = match find_exec(&line, &marker, 0) {
        Some(q) => q,
        None => return None,
    };
    let e = match find_exec(&line, &marker, q + 2) {
        Some(e) => e,
        None => line.len(),
    };
    let ghost ee = match find_from(line@, "0x"@, q + 2) {
        Some(e) => e,
        None => line@.len() as int,
    };
    assert(e == ee);
    proof {
        if find_from(line@, "0x"@, q + 2) is Some {
            assert(occurs_at(line@, marker@, e as int));
        }
    }
    let segment = slice_chars(&line, q + 2, e);
    let digits = trim_chars(&segment);
    int_from_chars(&digits, 16)
}

/// How long queried power settings and the active scheme are reused, in
/// nanoseconds.
pub const SETTINGS_TTL_NS: u64 = 5_000_000_000;

/// The processor settings of the active scheme, for mains and battery power.
#[derive(Debug, Clone, Copy, PartialEq, Eq, Structural)]
pub struct CurrentSettings {
    pub ac_boost_mode: i32,
    pub dc_boost_mode: i32,
    pub ac_max_processor_state: i32,
    pub dc_max_processor_state: i32,
}

/// The value read, or `default` where none could be read.
pub open spec fn or_default(read: Option<i32>, default: i32) -> i32 {
    match read {
        Some(v) => v,
        None => default,
    }
}

fn value_or(read: Option<i32>, default: i32) -> (r: i32)
    ensures
        r == or_default(read, default),
{
    match read {
        Some(v) => v,
        None => default,
    }
}

/// The settings read from the tool's answers to the boost mode query and to
/// the maximum processor state query; a boost mode that cannot be read counts
/// as 1 (enabled), a processor state as 100.
pub fn current_settings(boost_output: &str, proc_output: &str) -> (r: CurrentSettings)
    ensures
        r.ac_boost_mode == or_default(setting_index(boost_output@, "AC"@), 1),
        r.dc_boost_mode == or_default(setting_index(boost_output@, "DC"@), 1),
        r.ac_max_processor_state == or_default(setting_index(proc_output@, "AC"@), 100),
        r.dc_max_processor_state == or_default(setting_index(proc_output@, "DC"@), 100),
{
    CurrentSettings {
        ac_boost_mode: value_or(parse_powercfg_output(boost_output, "AC"), 1),
        dc_boost_mode: value_or(parse_powercfg_output(boost_output, "DC"), 1),
        ac_max_processor_state: value_or(parse_powercfg_output(proc_output, "AC"), 100),
        dc_max_processor_state: value_or(parse_powercfg_output(proc_output, "DC"), 100),
    }
}

/// The `k`-th (from zero) whitespace-separated field of `s`.
pub fn nth_field(s: &str, k: usize) -> (r: Option<String>)
    ensures
        r is None <==> field(s@, k as nat) is None,
        r is Some ==> field(s@, k as nat) == Some(r->Some_0@),
{
    let cs = chars_of(s);
    let mut i: usize = 0;
    let mut left: usize = k;
    let mut in_word = false;
    while i < cs.len()
        invariant
            cs@ == s@,
            i <= cs@.len(),
            field(s@, k as nat) == field_at(s@, i as int, left as nat, in_word),
        decreases cs@.len() - i,
    {
        if is_space_char(cs[i]) {
            in_word = false;
        } else if in_word {
        } else if left == 0 {
            let mut e: usize = i;
            while e < cs.len() && !is_space_char(cs[e])
                invariant
                    cs@ == s@,
                    i <= e <= cs@.len(),
                    word_end(s@, i as int) == word_end(s@, e as int),
                decreases cs@.len() - e,
            {
                e = e + 1;
            }
            return Some(String::from_str(s.substring_char(i, e)));
        } else {
            left = left - 1;
            in_word = true;
        }
        i = i + 1;
    }
    None
}

/// The identifier of the active power scheme: the fourth field of the
/// tool's answer.
pub fn scheme_guid(output: &str) -> (r: Option<String>)
    ensures
        r is None <==> field(output@, 3) is None,
        r is Some ==> field(output@, 3) == Some(r->Some_0@),
{
    nth_field(output, 3)
}

} // verus!
