//! Small verified text utilities: character classes, substring search,
//! splitting on a separator, trimming, decimal parsing and rendering.
//! They work on `&str` through its view `Seq<char>`, so multi-byte
//! characters count as single positions.

use vstd::prelude::*;
use vstd::string::StrSliceExecFns;
use vstd::string::StringExecFns;

verus! {

/// A decimal digit.
pub open spec fn is_digit(c: char) -> bool {
    '0' <= c && c <= '9'
}

/// Numeric value of a decimal digit.
pub open spec fn digit_val(c: char) -> int {
    c as int - '0' as int
}

/// The whitespace characters that trimming removes.
pub open spec fn is_space(c: char) -> bool {
    c == ' ' || c == '\t' || c == '\n' || c == '\r'
}

pub fn ch_is_digit(c: char) -> (r: bool)
    ensures
        r == is_digit(c),
{
    '0' <= c && c <= '9'
}

pub fn ch_is_space(c: char) -> (r: bool)
    ensures
        r == is_space(c),
{
    c == ' ' || c == '\t' || c == '\n' || c == '\r'
}

/// `sep` occurs in `s` at position `i`.
pub open spec fn occurs_at(s: Seq<char>, sep: Seq<char>, i: int) -> bool {
    0 <= i && i + sep.len() <= s.len() && s.subrange(i, i + sep.len() as int) == sep
}

/// Position of the first occurrence of `sep` in `s` at or after `from`.
pub open spec fn spec_find(s: Seq<char>, sep: Seq<char>, from: int) -> Option<int>
    decreases s.len() - from,
{
    if from < 0 || sep.len() == 0 || from + sep.len() > s.len() {
        None
    } else if s.subrange(from, from + sep.len() as int) == sep {
        Some(from)
    } else {
        spec_find(s, sep, from + 1)
    }
}

pub proof fn lemma_find_bounds(s: Seq<char>, sep: Seq<char>, from: int)
    requires
        spec_find(s, sep, from) is Some,
    ensures
        from <= spec_find(s, sep, from)->0,
        occurs_at(s, sep, spec_find(s, sep, from)->0),
    decreases s.len() - from,
{
    if !(from < 0 || sep.len() == 0 || from + sep.len() > s.len())
        && s.subrange(from, from + sep.len() as int) != sep {
        lemma_find_bounds(s, sep, from + 1);
    }
}

/// Compares `sep` against the characters of `s` starting at `i`.
fn occurs_here(s: &str, sep: &str, i: usize, n: usize, m: usize) -> (r: bool)
    requires
        n == s@.len(),
        m == sep@.len(),
        i + m <= n,
    ensures
        r == (s@.subrange(i as int, i + m as int) == sep@),
{
    let mut j: usize = 0;
    while j < m
        invariant
            j <= m,
            n == s@.len(),
            m == sep@.len(),
            i + m <= n,
            forall|k: int| 0 <= k < j ==> s@[i + k] == sep@[k],
        decreases m - j,
    {
        if s.get_char(i + j) != sep.get_char(j) {
            assert(s@.subrange(i as int, i + m as int)[j as int] != sep@[j as int]);
            return false;
        }
        j = j + 1;
    }
    assert(s@.subrange(i as int, i + m as int) =~= sep@);
    true
}

/// Position of the first occurrence of `sep` in `s` at or after `from`.
pub fn find_from(s: &str, sep: &str, from: usize, n: usize, m: usize) -> (r: Option<usize>)
    requires
        n == s@.len(),
        m == sep@.len(),
        m >= 1,
        from <= n,
    ensures
        match r {
            Some(i) => {
                &&& from <= i
                &&& i + m <= n
                &&& spec_find(s@, sep@, from as int) == Some(i as int)
            },
            None => spec_find(s@, sep@, from as int) is None,
        },
{
    if m > n {
        return None;
    }
    let mut i: usize = from;
    while i <= n - m
        invariant
            from <= i,
            n == s@.len(),
            m == sep@.len(),
            m >= 1,
            m <= n,
            i <= n,
            spec_find(s@, sep@, from as int) == spec_find(s@, sep@, i as int),
        decreases n - i,
    {
        if occurs_here(s, sep, i, n, m) {
            return Some(i);
        }
        i = i + 1;
    }
    None
}

/// Compares two string slices character by character.
pub fn str_eq(a: &str, b: &str) -> (r: bool)
    ensures
        r == (a@ == b@),
{
    let n = a.unicode_len();
    if n != b.unicode_len() {
        return false;
    }
    let mut i: usize = 0;
    while i < n
        invariant
            i <= n,
            n == a@.len(),
            n == b@.len(),
            forall|k: int| 0 <= k < i ==> a@[k] == b@[k],
        decreases n - i,
    {
        if a.get_char(i) != b.get_char(i) {
            return false;
        }
        i = i + 1;
    }
    proof {
        assert(a@ =~= b@);
    }
    true
}

/// Position of the first occurrence of the character `c` at or after `from`.
pub open spec fn spec_index_of_char(s: Seq<char>, c: char, from: int) -> Option<int>
    decreases s.len() - from,
{
    if from < 0 || from >= s.len() {
        None
    } else if s[from] == c {
        Some(from)
    } else {
        spec_index_of_char(s, c, from + 1)
    }
}

/// Position of the last occurrence of the character `c`.
pub open spec fn spec_last_index_of_char(s: Seq<char>, c: char) -> Option<int>
    decreases s.len(),
{
    if s.len() == 0 {
        None
    } else if s[s.len() - 1] == c {
        Some(s.len() - 1)
    } else {
        spec_last_index_of_char(s.drop_last(), c)
    }
}

/// Finds the first occurrence of the character `c`.
pub fn find_char(s: &str, c: char) -> (r: Option<usize>)
    ensures
        match r {
            Some(i) => i < s@.len() && spec_index_of_char(s@, c, 0) == Some(i as int),
            None => spec_index_of_char(s@, c, 0) is None,
        },
{
    let n = s.unicode_len();
    let mut i: usize = 0;
    while i < n
        invariant
            i <= n,
            n == s@.len(),
            spec_index_of_char(s@, c, 0) == spec_index_of_char(s@, c, i as int),
        decreases n - i,
    {
        if s.get_char(i) == c {
            return Some(i);
        }
        i = i + 1;
    }
    None
}

/// Finds the last occurrence of the character `c`.
pub fn rfind_char(s: &str, c: char) -> (r: Option<usize>)
    ensures
        match r {
            Some(i) => i < s@.len() && spec_last_index_of_char(s@, c) == Some(i as int),
            None => spec_last_index_of_char(s@, c) is None,
        },
{
    let n = s.unicode_len();
    proof {
        assert(s@.subrange(0, n as int) =~= s@);
    }
    let mut j: usize = n;
    while j > 0
        invariant
            j <= n,
            n == s@.len(),
            spec_last_index_of_char(s@, c) == spec_last_index_of_char(
                s@.subrange(0, j as int), c),
        decreases j,
    {
        if s.get_char(j - 1) == c {
            return Some(j - 1);
        }
        proof {
            assert(s@.subrange(0, j as int).drop_last() =~= s@.subrange(0, j - 1));
        }
        j = j - 1;
    }
    None
}

/// `s` split on the (non-empty) separator `sep`, starting at `from`;
/// the separator itself appears in no piece.
pub open spec fn spec_split_from(s: Seq<char>, sep: Seq<char>, from: int) -> Seq<Seq<char>>
    decreases s.len() - from,
        when 0 <= from <= s.len() && sep.len() >= 1
        via spec_split_from_decreases
{
    match spec_find(s, sep, from) {
        None => seq![s.subrange(from, s.len() as int)],
        Some(i) => seq![s.subrange(from, i)] + spec_split_from(s, sep, i + sep.len() as int),
    }
}

#[via_fn]
proof fn spec_split_from_decreases(s: Seq<char>, sep: Seq<char>, from: int) {
    if 0 <= from <= s.len() && sep.len() >= 1 {
        if spec_find(s, sep, from) is Some {
            lemma_find_bounds(s, sep, from);
        }
    }
}

pub open spec fn spec_split(s: Seq<char>, sep: Seq<char>) -> Seq<Seq<char>> {
    spec_split_from(s, sep, 0)
}

/// The views of a vector of strings.
pub open spec fn views_of(v: Seq<String>) -> Seq<Seq<char>> {
    v.map_values(|t: String| t@)
}

/// Splits `s` on the separator `sep`.
pub fn split_on(s: &str, sep: &str) -> (r: Vec<String>)
    requires
        sep@.len() >= 1,
    ensures
        views_of(r@) == spec_split(s@, sep@),
        r@.len() >= 1,
{
    let n = s.unicode_len();
    let m = sep.unicode_len();
    let mut parts: Vec<String> = Vec::new();
    let mut from: usize = 0;
    loop
        invariant
            from <= n,
            n == s@.len(),
            m == sep@.len(),
            m >= 1,
            views_of(parts@) + spec_split_from(s@, sep@, from as int) =~= spec_split(s@, sep@),
        decreases n - from,
    {
        match find_from(s, sep, from, n, m) {
            Some(i) => {
                let piece = s.substring_char(from, i).to_owned();
                proof {
                    assert(views_of(parts@.push(piece)) =~= views_of(parts@) + seq![piece@]);
                }
                parts.push(piece);
                from = i + m;
            },
            None => {
                let piece = s.substring_char(from, n).to_owned();
                proof {
                    assert(views_of(parts@.push(piece)) =~= views_of(parts@) + seq![piece@]);
                }
                parts.push(piece);
                proof {
                    assert(views_of(parts@) =~= spec_split(s@, sep@));
                }
                return parts;
            },
        }
    }
}

/// `s` without leading whitespace.
pub open spec fn spec_trim_start(s: Seq<char>) -> Seq<char>
    decreases s.len(),
{
    if s.len() > 0 && is_space(s[0]) {
        spec_trim_start(s.drop_first())
    } else {
        s
    }
}

/// `s` without trailing whitespace.
pub open spec fn spec_trim_end(s: Seq<char>) -> Seq<char>
    decreases s.len(),
{
    if s.len() > 0 && is_space(s[s.len() - 1]) {
        spec_trim_end(s.drop_last())
    } else {
        s
    }
}

/// `s` without leading and trailing whitespace.
pub open spec fn spec_trim(s: Seq<char>) -> Seq<char> {
    spec_trim_end(spec_trim_start(s))
}

/// Removes leading and trailing whitespace.
pub fn trim_str(s: &str) -> (r: String)
    ensures
        r@ == spec_trim(s@),
{
    let n = s.unicode_len();
    proof {
        assert(s@.subrange(0, n as int) =~= s@);
    }
    let mut a: usize = 0;
    while a < n && ch_is_space(s.get_char(a))
        invariant
            a <= n,
            n == s@.len(),
            spec_trim_start(s@) == spec_trim_start(s@.subrange(a as int, n as int)),
        decreases n - a,
    {
        proof {
            assert(s@.subrange(a as int, n as int).drop_first()
                =~= s@.subrange(a + 1, n as int));
        }
        a = a + 1;
    }
    proof {
        assert(spec_trim_start(s@) == s@.subrange(a as int, n as int));
    }
    let mut b: usize = n;
    while b > a && ch_is_space(s.get_char(b - 1))
        invariant
            a <= b <= n,
            n == s@.len(),
            spec_trim_start(s@) == s@.subrange(a as int, n as int),
            spec_trim_end(s@.subrange(a as int, n as int))
                == spec_trim_end(s@.subrange(a as int, b as int)),
        decreases b,
    {
        proof {
            assert(s@.subrange(a as int, b as int).drop_last()
                =~= s@.subrange(a as int, b - 1));
        }
        b = b - 1;
    }
    proof {
        assert(spec_trim(s@) == s@.subrange(a as int, b as int));
    }
    s.substring_char(a, b).to_owned()
}

/// Every character of `s` is a decimal digit.
pub open spec fn all_digits(s: Seq<char>) -> bool {
    forall|i: int| 0 <= i < s.len() ==> is_digit(s[i])
}

/// `s` is an optionally signed run of decimal digits.
pub open spec fn is_int_literal(s: Seq<char>) -> bool {
    if s.len() == 0 {
        false
    } else if s[0] == '+' || s[0] == '-' {
        s.len() >= 2 && all_digits(s.subrange(1, s.len() as int))
    } else {
        all_digits(s)
    }
}

/// The number denoted by a run of decimal digits.
pub open spec fn digits_val(s: Seq<char>) -> int
    decreases s.len(),
{
    if s.len() == 0 {
        0
    } else {
        digits_val(s.drop_last()) * 10 + digit_val(s.last())
    }
}

/// The number denoted by an optionally signed run of decimal digits.
pub open spec fn int_val(s: Seq<char>) -> int {
    if s.len() > 0 && s[0] == '-' {
        -digits_val(s.subrange(1, s.len() as int))
    } else if s.len() > 0 && s[0] == '+' {
        digits_val(s.subrange(1, s.len() as int))
    } else {
        digits_val(s)
    }
}

pub proof fn lemma_digits_val_nonneg(s: Seq<char>)
    requires
        all_digits(s),
    ensures
        digits_val(s) >= 0,
    decreases s.len(),
{
    if s.len() > 0 {
        assert(all_digits(s.drop_last())) by {
            assert(forall|i: int| 0 <= i < s.len() - 1 ==> s.drop_last()[i] == s[i]);
        }
        lemma_digits_val_nonneg(s.drop_last());
    }
}

/// What `str::parse::<i32>` returns: the denoted number if the text is a
/// well-formed integer that fits, and nothing otherwise.
pub open spec fn spec_parse_i32(s: Seq<char>) -> Option<i32> {
    if is_int_literal(s) && i32::MIN <= int_val(s) <= i32::MAX {
        Some(int_val(s) as i32)
    } else {
        None
    }
}

/// Parses an optionally signed decimal integer.
pub fn parse_i32(s: &str) -> (r: Option<i32>)
    ensures
        r == spec_parse_i32(s@),
{
    let n = s.unicode_len();
    if n == 0 {
        return None;
    }
    let c0 = s.get_char(0);
    let neg = c0 == '-';
    let start: usize = if c0 == '-' || c0 == '+' { 1 } else { 0 };
    if n == start {
        return None;
    }
    let ghost d = s@.subrange(start as int, n as int);
    let mut acc: u64 = 0;
    let mut i: usize = start;
    while i < n
        invariant
            start <= i <= n,
            n == s@.len(),
            start == 0 || start == 1,
            start < n,
            start == 1 <==> (s@[0] == '+' || s@[0] == '-'),
            neg == (s@[0] == '-'),
            d == s@.subrange(start as int, n as int),
            forall|k: int| start <= k < i ==> is_digit(s@[k]),
            acc <= 0xFFFF_FFFF ==> acc == digits_val(s@.subrange(start as int, i as int)),
            acc > 0xFFFF_FFFF ==> digits_val(s@.subrange(start as int, i as int)) >= acc,
        decreases n - i,
    {
        let c = s.get_char(i);
        if !ch_is_digit(c) {
            proof {
                assert(!is_int_literal(s@)) by {
                    if start == 1 {
                        assert(s@.subrange(1, n as int)[i - 1] == s@[i as int]);
                    }
                }
            }
            return None;
        }
        let ghost pre = s@.subrange(start as int, i as int);
        let ghost pre1 = s@.subrange(start as int, i + 1);
        proof {
            assert(pre1.drop_last() =~= pre);
            assert(pre1.last() == s@[i as int]);
            assert(digits_val(pre1) == digits_val(pre) * 10 + digit_val(s@[i as int]));
            assert(all_digits(pre));
            lemma_digits_val_nonneg(pre);
        }
        let dv: u64 = (c as u32 - '0' as u32) as u64;
        if acc <= 0xFFFF_FFFF {
            acc = acc * 10 + dv;
        } else {
            proof {
                assert(digits_val(pre1) >= digits_val(pre)) by {
                    assert(digits_val(pre) * 10 >= digits_val(pre));
                }
            }
        }
        i = i + 1;
    }
    proof {
        assert(s@.subrange(start as int, i as int) =~= d);
        assert(all_digits(d));
        assert(is_int_literal(s@)) by {
            if start == 0 {
                assert(forall|k: int| 0 <= k < n ==> is_digit(s@[k]));
            }
        }
        lemma_digits_val_nonneg(d);
        if start == 0 {
            assert(d =~= s@);
        }
        assert(int_val(s@) == if neg { -digits_val(d) } else { digits_val(d) });
    }
    if neg {
        if acc <= 0x7FFF_FFFF {
            Some(-(acc as i32))
        } else if acc == 0x8000_0000 {
            Some(i32::MIN)
        } else {
            None
        }
    } else {
        if acc <= 0x7FFF_FFFF {
            Some(acc as i32)
        } else {
            None
        }
    }
}

/// The character for a single decimal digit.
pub open spec fn digit_char(d: int) -> char {
    if d == 0 { '0' }
    else if d == 1 { '1' }
    else if d == 2 { '2' }
    else if d == 3 { '3' }
    else if d == 4 { '4' }
    else if d == 5 { '5' }
    else if d == 6 { '6' }
    else if d == 7 { '7' }
    else if d == 8 { '8' }
    else { '9' }
}

/// The decimal rendering of a non-negative number.
pub open spec fn spec_dec(n: int) -> Seq<char>
    decreases n,
{
    if n < 10 {
        seq![digit_char(n)]
    } else {
        spec_dec(n / 10) + seq![digit_char(n % 10)]
    }
}

/// The decimal rendering of an integer, with a leading minus where negative.
pub open spec fn spec_int_str(v: int) -> Seq<char> {
    if v < 0 {
        seq!['-'] + spec_dec(-v)
    } else {
        spec_dec(v)
    }
}

fn digit_str(d: u64) -> (r: &'static str)
    requires
        d < 10,
    ensures
        r@ == seq![digit_char(d as int)],
{
    proof {
        reveal_strlit("0");
        reveal_strlit("1");
        reveal_strlit("2");
        reveal_strlit("3");
        reveal_strlit("4");
        reveal_strlit("5");
        reveal_strlit("6");
        reveal_strlit("7");
        reveal_strlit("8");
        reveal_strlit("9");
    }
    let r: &'static str = match d {
        0 => "0",
        1 => "1",
        2 => "2",
        3 => "3",
        4 => "4",
        5 => "5",
        6 => "6",
        7 => "7",
        8 => "8",
        _ => "9",
    };
    proof {
        assert(r@ =~= seq![digit_char(d as int)]);
    }
    r
}

/// Renders a number in decimal.
pub fn u64_to_string(n: u64) -> (r: String)
    ensures
        r@ == spec_dec(n as int),
    decreases n,
{
    if n < 10 {
        digit_str(n).to_owned()
    } else {
        let mut prefix = u64_to_string(n / 10);
        prefix.append(digit_str(n % 10));
        prefix
    }
}

/// Renders an integer in decimal, with a leading minus where negative.
pub fn i32_to_string(v: i32) -> (r: String)
    ensures
        r@ == spec_int_str(v as int),
{
    if v < 0 {
        let m: u64 = (-(v as i64)) as u64;
        let mut r = String::from_str("-");
        proof {
            reveal_strlit("-");
            assert(r@ =~= seq!['-']);
        }
        r.append(u64_to_string(m).as_str());
        r
    } else {
        u64_to_string(v as u64)
    }
}

} // verus!
