//! Character-level helpers on strings, each stated over the string's view as
//! a sequence of characters.

use vstd::prelude::*;
use vstd::string::StrSliceExecFns;

verus! {

/// Whether `a` and `b` hold the same characters.
pub fn str_eq(a: &str, b: &str) -> (eq: bool)
    ensures
        eq == (a@ == b@),
{
    let n = a.unicode_len();
    if n != b.unicode_len() {
        return false;
    }
    let mut i: usize = 0;
    while i < n
        invariant
            n == a@.len(),
            n == b@.len(),
            i <= n,
            forall|j: int| 0 <= j < i ==> a@[j] == b@[j],
        decreases n - i,
    {
        if a.get_char(i) != b.get_char(i) {
            return false;
        }
        i = i + 1;
    }
    assert(a@ =~= b@);
    true
}

/// Whether `c` occurs in `s`.
pub fn contains_char(s: &str, c: char) -> (found: bool)
    ensures
        found == s@.contains(c),
{
    let n = s.unicode_len();
    let mut i: usize = 0;
    while i < n
        invariant
            n == s@.len(),
            i <= n,
            forall|j: int| 0 <= j < i ==> s@[j] != c,
        decreases n - i,
    {
        if s.get_char(i) == c {
            assert(s@[i as int] == c);
            return true;
        }
        i = i + 1;
    }
    false
}

/// The characters of `s`, in order.
pub fn chars_of(s: &str) -> (chars: Vec<char>)
    ensures
        chars@ == s@,
{
    let n = s.unicode_len();
    let mut out: Vec<char> = Vec::new();
    let mut i: usize = 0;
    while i < n
        invariant
            n == s@.len(),
            i <= n,
            out@ == s@.subrange(0, i as int),
        decreases n - i,
    {
        out.push(s.get_char(i));
        i = i + 1;
        assert(out@ =~= s@.subrange(0, i as int));
    }
    assert(out@ =~= s@);
    out
}

/// The characters of `s` from position `from` up to `to`, as a new string.
pub fn substring(s: &str, from: usize, to: usize) -> (sub: String)
    requires
        from <= to <= s@.len(),
    ensures
        sub@ == s@.subrange(from as int, to as int),
{
    s.substring_char(from, to).to_owned()
}

/// `s` followed by `t`.
pub fn concat(s: &str, t: &str) -> (joined: String)
    ensures
        joined@ == s@ + t@,
{
    let mut out = s.to_owned();
    vstd::string::StringExecFns::append(&mut out, t);
    out
}

/// The position of the last `c` in `s`, or -1 when there is none.
pub open spec fn last_index_of(s: Seq<char>, c: char) -> int
    decreases s.len(),
{
    if s.len() == 0 {
        -1
    } else if s.last() == c {
        s.len() - 1
    } else {
        last_index_of(s.drop_last(), c)
    }
}

pub proof fn lemma_last_index_of(s: Seq<char>, c: char)
    ensures
        -1 <= last_index_of(s, c) < s.len(),
        last_index_of(s, c) >= 0 ==> s[last_index_of(s, c)] == c,
        forall|k: int| last_index_of(s, c) < k < s.len() ==> s[k] != c,
        last_index_of(s, c) < 0 <==> !s.contains(c),
    decreases s.len(),
{
    if s.len() > 0 {
        lemma_last_index_of(s.drop_last(), c);
        assert forall|k: int| last_index_of(s, c) < k < s.len() implies s[k] != c by {
            if k < s.len() - 1 {
                assert(s[k] == s.drop_last()[k]);
            }
        }
        if s.last() != c && s.contains(c) {
            let k = choose|k: int| 0 <= k < s.len() && s[k] == c;
            assert(k < s.len() - 1);
            assert(s.drop_last()[k] == c);
        }
        if s.last() == c {
            assert(s[s.len() - 1] == c);
        } else if last_index_of(s, c) >= 0 {
            assert(s.drop_last()[last_index_of(s, c)] == c);
        }
    }
}

pub proof fn lemma_last_index_unique(s: Seq<char>, c: char, p: int)
    requires
        -1 <= p < s.len(),
        p >= 0 ==> s[p] == c,
        forall|k: int| p < k < s.len() ==> s[k] != c,
    ensures
        last_index_of(s, c) == p,
{
    lemma_last_index_of(s, c);
    if last_index_of(s, c) < p {
        assert(s[p] == c);
    } else if last_index_of(s, c) > p {
        assert(s[last_index_of(s, c)] == c);
    }
}

/// Finds the last `c` in `s`.
pub fn find_last(s: &str, c: char) -> (pos: Option<usize>)
    ensures
        match pos {
            Some(p) => p == last_index_of(s@, c),
            None => last_index_of(s@, c) < 0,
        },
{
    let n = s.unicode_len();
    let mut i: usize = n;
    while i > 0
        invariant
            n == s@.len(),
            i <= n,
            forall|k: int| i <= k < n ==> s@[k] != c,
        decreases i,
    {
        if s.get_char(i - 1) == c {
            proof {
                lemma_last_index_unique(s@, c, i - 1);
            }
            return Some(i - 1);
        }
        i = i - 1;
    }
    proof {
        lemma_last_index_unique(s@, c, -1);
    }
    None
}

/// What comes after the last `c` of `s`, when `s` holds a `c`.
pub open spec fn after_last(s: Seq<char>, c: char) -> Option<Seq<char>> {
    if last_index_of(s, c) < 0 {
        None
    } else {
        Some(s.subrange(last_index_of(s, c) + 1, s.len() as int))
    }
}

pub fn split_after_last(s: &str, c: char) -> (rest: Option<&str>)
    ensures
        match rest {
            Some(r) => after_last(s@, c) == Some(r@),
            None => after_last(s@, c) is None,
        },
{
    let n = s.unicode_len();
    match find_last(s, c) {
        Some(p) => {
            proof {
                lemma_last_index_of(s@, c);
            }
            Some(s.substring_char(p + 1, n))
        },
        None => None,
    }
}

/// Whether `s` ends with `suffix`.
pub open spec fn ends_with(s: Seq<char>, suffix: Seq<char>) -> bool {
    suffix.len() <= s.len() && s.subrange(s.len() - suffix.len(), s.len() as int) == suffix
}

/// Whether `s` starts with `prefix`.
pub open spec fn starts_with(s: Seq<char>, prefix: Seq<char>) -> bool {
    prefix.len() <= s.len() && s.subrange(0, prefix.len() as int) == prefix
}

pub fn str_ends_with(s: &str, suffix: &str) -> (ends: bool)
    ensures
        ends == ends_with(s@, suffix@),
{
    let n = s.unicode_len();
    let m = suffix.unicode_len();
    if m > n {
        return false;
    }
    let mut k: usize = 0;
    while k < m
        invariant
            n == s@.len(),
            m == suffix@.len(),
            m <= n,
            k <= m,
            forall|j: int| 0 <= j < k ==> s@[n - m + j] == suffix@[j],
        decreases m - k,
    {
        if s.get_char(n - m + k) != suffix.get_char(k) {
            assert(s@.subrange(n - m, n as int)[k as int] != suffix@[k as int]);
            return false;
        }
        k = k + 1;
    }
    assert(s@.subrange(n - m, n as int) =~= suffix@);
    true
}

pub fn str_starts_with(s: &str, prefix: &str) -> (starts: bool)
    ensures
        starts == starts_with(s@, prefix@),
{
    let n = s.unicode_len();
    let m = prefix.unicode_len();
    if m > n {
        return false;
    }
    let mut k: usize = 0;
    while k < m
        invariant
            n == s@.len(),
            m == prefix@.len(),
            m <= n,
            k <= m,
            forall|j: int| 0 <= j < k ==> s@[j] == prefix@[j],
        decreases m - k,
    {
        if s.get_char(k) != prefix.get_char(k) {
            assert(s@.subrange(0, m as int)[k as int] != prefix@[k as int]);
            return false;
        }
        k = k + 1;
    }
    assert(s@.subrange(0, m as int) =~= prefix@);
    true
}

/// The code of `c` with ASCII capitals lowered.
pub open spec fn ascii_lower_code(c: char) -> u32 {
    if 'A' <= c && c <= 'Z' {
        (c as u32 + 32) as u32
    } else {
        c as u32
    }
}

pub fn lower_code(c: char) -> (code: u32)
    ensures
        code == ascii_lower_code(c),
{
    if 'A' <= c && c <= 'Z' {
        c as u32 + 32
    } else {
        c as u32
    }
}

/// `a` and `b` are equal once ASCII capitals are lowered in both.
pub open spec fn eq_ignore_ascii_case(a: Seq<char>, b: Seq<char>) -> bool {
    a.len() == b.len() && forall|k: int|
        0 <= k < a.len() ==> ascii_lower_code(#[trigger] a[k]) == ascii_lower_code(b[k])
}

pub fn str_eq_ignore_ascii_case(a: &str, b: &str) -> (eq: bool)
    ensures
        eq == eq_ignore_ascii_case(a@, b@),
{
    let n = a.unicode_len();
    if n != b.unicode_len() {
        return false;
    }
    let mut k: usize = 0;
    while k < n
        invariant
            n == a@.len(),
            n == b@.len(),
            k <= n,
            forall|j: int| 0 <= j < k ==> ascii_lower_code(#[trigger] a@[j]) == ascii_lower_code(b@[j]),
        decreases n - k,
    {
        if lower_code(a.get_char(k)) != lower_code(b.get_char(k)) {
            return false;
        }
        k = k + 1;
    }
    true
}

/// `pattern` equals `s` once ASCII capitals of `s` are lowered; `pattern` is
/// compared as it stands.
pub open spec fn eq_lowered(pattern: Seq<char>, s: Seq<char>) -> bool {
    pattern.len() == s.len() && forall|k: int|
        0 <= k < s.len() ==> (#[trigger] pattern[k]) as u32 == ascii_lower_code(s[k])
}

pub fn str_eq_lowered(pattern: &str, s: &str) -> (eq: bool)
    ensures
        eq == eq_lowered(pattern@, s@),
{
    let n = s.unicode_len();
    if n != pattern.unicode_len() {
        return false;
    }
    let mut k: usize = 0;
    while k < n
        invariant
            n == s@.len(),
            n == pattern@.len(),
            k <= n,
            forall|j: int| 0 <= j < k ==> (#[trigger] pattern@[j]) as u32 == ascii_lower_code(s@[j]),
        decreases n - k,
    {
        if pattern.get_char(k) as u32 != lower_code(s.get_char(k)) {
            return false;
        }
        k = k + 1;
    }
    true
}

} // verus!

verus! {

/// The character of a decimal digit.
pub open spec fn digit_char(d: nat) -> char {
    if d == 0 {
        '0'
    } else if d == 1 {
        '1'
    } else if d == 2 {
        '2'
    } else if d == 3 {
        '3'
    } else if d == 4 {
        '4'
    } else if d == 5 {
        '5'
    } else if d == 6 {
        '6'
    } else if d == 7 {
        '7'
    } else if d == 8 {
        '8'
    } else {
        '9'
    }
}

/// The value of a decimal digit character, for `'0'` to `'9'`.
pub open spec fn digit_value(c: char) -> Option<nat> {
    if c == '0' {
        Some(0)
    } else if c == '1' {
        Some(1)
    } else if c == '2' {
        Some(2)
    } else if c == '3' {
        Some(3)
    } else if c == '4' {
        Some(4)
    } else if c == '5' {
        Some(5)
    } else if c == '6' {
        Some(6)
    } else if c == '7' {
        Some(7)
    } else if c == '8' {
        Some(8)
    } else if c == '9' {
        Some(9)
    } else {
        None
    }
}

/// `n` written in decimal, without leading zeros.
pub open spec fn decimal(n: nat) -> Seq<char>
    decreases n,
{
    if n < 10 {
        seq![digit_char(n)]
    } else {
        decimal(n / 10).push(digit_char(n % 10))
    }
}

/// The value of a string of decimal digits; `None` when it is empty or
/// holds anything else.
pub open spec fn digits_value(s: Seq<char>) -> Option<nat>
    decreases s.len(),
{
    if s.len() == 0 {
        None
    } else {
        match digit_value(s.last()) {
            None => None,
            Some(d) => if s.len() == 1 {
                Some(d)
            } else {
                match digits_value(s.drop_last()) {
                    None => None,
                    Some(v) => Some(v * 10 + d),
                }
            },
        }
    }
}

fn digit_str(d: u64) -> (s: &'static str)
    requires
        d < 10,
    ensures
        s@ == seq![digit_char(d as nat)],
{
    proof {
        reveal_strlit("0");
        reveal_strlit("1");
        reveal_strlit("2");
        reveal_strlit("3");
        reveal_strlit("4");
        reveal_strlit("5");
        reveal_strlit("6");
        reveal_strlit("7");
        reveal_strlit("8");
        reveal_strlit("9");
    }
    if d == 0 {
        "0"
    } else if d == 1 {
        "1"
    } else if d == 2 {
        "2"
    } else if d == 3 {
        "3"
    } else if d == 4 {
        "4"
    } else if d == 5 {
        "5"
    } else if d == 6 {
        "6"
    } else if d == 7 {
        "7"
    } else if d == 8 {
        "8"
    } else {
        "9"
    }
}

/// `n` in decimal.
pub fn decimal_string(n: u64) -> (s: String)
    ensures
        s@ == decimal(n as nat),
    decreases n,
{
    if n < 10 {
        digit_str(n).to_owned()
    } else {
        let head = decimal_string(n / 10);
        let s = concat(head.as_str(), digit_str(n % 10));
        assert(s@ =~= decimal(n as nat));
        s
    }
}

proof fn lemma_digit_roundtrip(d: nat)
    requires
        d < 10,
    ensures
        digit_value(digit_char(d)) == Some(d),
{
}

/// Reading back what `decimal` wrote gives the number.
pub proof fn lemma_decimal_roundtrip(n: nat)
    ensures
        digits_value(decimal(n)) == Some(n),
    decreases n,
{
    lemma_digit_roundtrip(n % 10);
    if n >= 10 {
        lemma_decimal_roundtrip(n / 10);
        let s = decimal(n);
        assert(s.drop_last() =~= decimal(n / 10));
        assert(decimal(n / 10).len() >= 1) by {
            lemma_decimal_nonempty(n / 10);
        }
    }
}

pub proof fn lemma_decimal_nonempty(n: nat)
    ensures
        decimal(n).len() >= 1,
    decreases n,
{
    if n >= 10 {
        lemma_decimal_nonempty(n / 10);
    }
}

fn char_digit(c: char) -> (d: Option<u64>)
    ensures
        match (d, digit_value(c)) {
            (Some(x), Some(y)) => x == y,
            (None, None) => true,
            _ => false,
        },
{
    if c == '0' {
        Some(0)
    } else if c == '1' {
        Some(1)
    } else if c == '2' {
        Some(2)
    } else if c == '3' {
        Some(3)
    } else if c == '4' {
        Some(4)
    } else if c == '5' {
        Some(5)
    } else if c == '6' {
        Some(6)
    } else if c == '7' {
        Some(7)
    } else if c == '8' {
        Some(8)
    } else if c == '9' {
        Some(9)
    } else {
        None
    }
}

/// Reads a string of decimal digits as a `usize`: `None` when it is empty,
/// holds anything but digits, or names a number larger than `usize::MAX`.
pub fn parse_usize_digits(s: &str) -> (v: Option<usize>)
    ensures
        match (v, digits_value(s@)) {
            (Some(x), Some(y)) => x == y,
            (None, Some(y)) => y > usize::MAX,
            (None, None) => true,
            _ => false,
        },
{
    let n = s.unicode_len();
    if n == 0 {
        return None;
    }
    let mut acc: u128 = 0;
    let mut i: usize = 0;
    let mut overflow = false;
    while i < n
        invariant
            n == s@.len(),
            0 < n,
            i <= n,
            i > 0 ==> digits_value(s@.subrange(0, i as int)) is Some,
            !overflow && i > 0 ==> digits_value(s@.subrange(0, i as int)) == Some(acc as nat),
            overflow ==> (digits_value(s@.subrange(0, i as int)) matches Some(y) && y > usize::MAX),
            !overflow ==> acc <= usize::MAX,
            i == 0 ==> acc == 0 && !overflow,
        decreases n - i,
    {
        let c = s.get_char(i);
        let d = match char_digit(c) {
            Some(d) => d,
            None => {
                proof {
                    lemma_digits_prefix_none(s@, i as int);
                }
                return None;
            },
        };
        let ghost prefix = s@.subrange(0, i as int + 1);
        assert(prefix.drop_last() =~= s@.subrange(0, i as int));
        assert(prefix.last() == c);
        proof {
            if i == 0 {
                assert(digits_value(prefix) == Some(d as nat));
            } else {
                let y = digits_value(s@.subrange(0, i as int))->0;
                assert(digits_value(prefix) == Some(y * 10 + d as nat));
            }
        }
        if !overflow {
            let next: u128 = acc * 10 + d as u128;
            if next > usize::MAX as u128 {
                overflow = true;
            } else {
                acc = next;
            }
        } else {
            proof {
                let y = digits_value(s@.subrange(0, i as int))->0;
                assert(digits_value(prefix) == Some(y * 10 + d as nat));
            }
        }
        i = i + 1;
    }
    assert(s@.subrange(0, n as int) =~= s@);
    if overflow {
        None
    } else {
        Some(acc as usize)
    }
}

/// Once a prefix holds a non-digit, the whole string is no number.
proof fn lemma_digits_prefix_none(s: Seq<char>, i: int)
    requires
        0 <= i < s.len(),
        digit_value(s[i]) is None,
    ensures
        digits_value(s) is None,
    decreases s.len(),
{
    if i < s.len() - 1 {
        assert(s.drop_last()[i] == s[i]);
        lemma_digits_prefix_none(s.drop_last(), i);
    }
}

} // verus!
