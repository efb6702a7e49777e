//! Small verified string helpers shared by the rest of the crate: equality,
//! searching, ASCII case folding, whitespace trimming, and decimal numbers.

use vstd::prelude::*;

verus! {

/// Compares two strings character by character.
pub fn str_eq(a: &str, b: &str) -> (r: bool)
    ensures
        r == (a@ == b@),
{
    let n = a.unicode_len();
    let m = b.unicode_len();
    if n != m {
        return false;
    }
    let mut i: usize = 0;
    while i < n
        invariant
            n == a@.len(),
            m == b@.len(),
            n == m,
            i <= n,
            forall|j: int| 0 <= j < i ==> a@[j] == b@[j],
        decreases n - i,
    {
        if a.get_char(i) != b.get_char(i) {
            return false;
        }
        i += 1;
    }
    assert(a@ =~= b@);
    true
}

/// `needle` occurs in `hay` at position `i`.
pub open spec fn occurs_at(hay: Seq<char>, needle: Seq<char>, i: int) -> bool {
    0 <= i && i + needle.len() <= hay.len() && hay.subrange(i, i + needle.len()) == needle
}

/// `needle` occurs somewhere in `hay`.
pub open spec fn contains_seq(hay: Seq<char>, needle: Seq<char>) -> bool {
    exists|i: int| occurs_at(hay, needle, i)
}

/// Whether `needle` occurs in `hay` at character position `i`.
pub fn matches_at(hay: &str, needle: &str, i: usize) -> (r: bool)
    ensures
        r == occurs_at(hay@, needle@, i as int),
{
    let n = hay.unicode_len();
    let m = needle.unicode_len();
    if i > n || m > n - i {
        return false;
    }
    let mut k: usize = 0;
    while k < m
        invariant
            n == hay@.len(),
            m == needle@.len(),
            i + m <= n,
            k <= m,
            forall|j: int| 0 <= j < k ==> hay@[i + j] == needle@[j],
        decreases m - k,
    {
        if hay.get_char(i + k) != needle.get_char(k) {
            assert(hay@.subrange(i as int, i + m)[k as int] != needle@[k as int]);
            return false;
        }
        k += 1;
    }
    assert(hay@.subrange(i as int, i + m) =~= needle@);
    true
}

/// Whether `needle` occurs anywhere in `hay` (as `str::contains`).
pub fn str_contains(hay: &str, needle: &str) -> (r: bool)
    ensures
        r == contains_seq(hay@, needle@),
{
    let n = hay.unicode_len();
    let mut i: usize = 0;
    while i < n
        invariant
            n == hay@.len(),
            i <= n,
            forall|j: int| 0 <= j < i ==> !occurs_at(hay@, needle@, j),
        decreases n - i,
    {
        if matches_at(hay, needle, i) {
            return true;
        }
        i += 1;
    }
    matches_at(hay, needle, n)
}

/// Whether `s` begins with `prefix` (as `str::starts_with`).
pub fn str_starts_with(s: &str, prefix: &str) -> (r: bool)
    ensures
        r == (prefix@.len() <= s@.len() && s@.subrange(0, prefix@.len() as int) == prefix@),
{
    matches_at(s, prefix, 0)
}

/// Whether `s` ends with `suffix` (as `str::ends_with`).
pub fn str_ends_with(s: &str, suffix: &str) -> (r: bool)
    ensures
        r == (suffix@.len() <= s@.len() && s@.subrange(s@.len() - suffix@.len(), s@.len() as int)
            == suffix@),
{
    let n = s.unicode_len();
    let m = suffix.unicode_len();
    if m > n {
        return false;
    }
    matches_at(s, suffix, n - m)
}

/// ASCII lowercase of a character, other characters unchanged.
pub open spec fn ascii_lower_char(c: char) -> char {
    if 'A' <= c && c <= 'Z' {
        ((c as int) + 32) as char
    } else {
        c
    }
}

/// ASCII uppercase of a character, other characters unchanged.
pub open spec fn ascii_upper_char(c: char) -> char {
    if 'a' <= c && c <= 'z' {
        ((c as int) - 32) as char
    } else {
        c
    }
}

/// ASCII lowercase of a string (as `str::to_ascii_lowercase`).
pub open spec fn ascii_lower(s: Seq<char>) -> Seq<char> {
    Seq::new(s.len(), |i: int| ascii_lower_char(s[i]))
}

/// ASCII uppercase of a string (as `str::to_ascii_uppercase`).
pub open spec fn ascii_upper(s: Seq<char>) -> Seq<char> {
    Seq::new(s.len(), |i: int| ascii_upper_char(s[i]))
}

proof fn lemma_alphabets()
    ensures
        "abcdefghijklmnopqrstuvwxyz"@.len() == 26,
        "ABCDEFGHIJKLMNOPQRSTUVWXYZ"@.len() == 26,
        forall|k: int| 0 <= k < 26 ==> #[trigger] "abcdefghijklmnopqrstuvwxyz"@[k] == (('a' as int) + k) as char,
        forall|k: int| 0 <= k < 26 ==> #[trigger] "ABCDEFGHIJKLMNOPQRSTUVWXYZ"@[k] == (('A' as int) + k) as char,
{
    reveal_strlit("abcdefghijklmnopqrstuvwxyz");
    reveal_strlit("ABCDEFGHIJKLMNOPQRSTUVWXYZ");
    assert forall|k: int| 0 <= k < 26 implies #[trigger] "abcdefghijklmnopqrstuvwxyz"@[k] == (('a' as int) + k) as char by {
        assert(0 <= k < 26);
    }
    assert forall|k: int| 0 <= k < 26 implies #[trigger] "ABCDEFGHIJKLMNOPQRSTUVWXYZ"@[k] == (('A' as int) + k) as char by {
        assert(0 <= k < 26);
    }
}

/// Maps the ASCII letters of `s` to one case, leaving other characters alone.
fn ascii_fold(s: &str, to_lower: bool) -> (r: String)
    ensures
        to_lower ==> r@ == ascii_lower(s@),
        !to_lower ==> r@ == ascii_upper(s@),
{
    let lower = "abcdefghijklmnopqrstuvwxyz";
    let upper = "ABCDEFGHIJKLMNOPQRSTUVWXYZ";
    proof {
        lemma_alphabets();
    }
    let n = s.unicode_len();
    let mut out = String::new();
    let mut i: usize = 0;
    while i < n
        invariant
            n == s@.len(),
            i <= n,
            lower@.len() == 26,
            upper@.len() == 26,
            forall|k: int| 0 <= k < 26 ==> #[trigger] lower@[k] == (('a' as int) + k) as char,
            forall|k: int| 0 <= k < 26 ==> #[trigger] upper@[k] == (('A' as int) + k) as char,
            to_lower ==> out@ =~= ascii_lower(s@.subrange(0, i as int)),
            !to_lower ==> out@ =~= ascii_upper(s@.subrange(0, i as int)),
        decreases n - i,
    {
        let c = s.get_char(i);
        let piece: &str;
        if to_lower && 'A' <= c && c <= 'Z' {
            let k = (c as u32 - 'A' as u32) as usize;
            piece = lower.substring_char(k, k + 1);
            assert(piece@ =~= seq![ascii_lower_char(c)]);
        } else if !to_lower && 'a' <= c && c <= 'z' {
            let k = (c as u32 - 'a' as u32) as usize;
            piece = upper.substring_char(k, k + 1);
            assert(piece@ =~= seq![ascii_upper_char(c)]);
        } else {
            piece = s.substring_char(i, i + 1);
            assert(piece@ =~= seq![c]);
        }
        out.append(piece);
        i += 1;
    }
    assert(s@.subrange(0, n as int) =~= s@);
    out
}

/// ASCII lowercase copy of `s`.
pub fn to_ascii_lowercase(s: &str) -> (r: String)
    ensures
        r@ == ascii_lower(s@),
{
    ascii_fold(s, true)
}

/// ASCII uppercase copy of `s`.
pub fn to_ascii_uppercase(s: &str) -> (r: String)
    ensures
        r@ == ascii_upper(s@),
{
    ascii_fold(s, false)
}

/// Whether `c` is an ASCII decimal digit.
pub open spec fn is_digit(c: char) -> bool {
    '0' <= c && c <= '9'
}

/// The value of a decimal digit character.
pub open spec fn digit_value(c: char) -> int {
    (c as int) - ('0' as int)
}

/// The character of a decimal digit `d < 10`.
pub open spec fn digit_char(d: int) -> char {
    (('0' as int) + d) as char
}

/// Every character of `s` is a decimal digit.
pub open spec fn all_digits(s: Seq<char>) -> bool {
    forall|i: int| 0 <= i < s.len() ==> is_digit(#[trigger] s[i])
}

/// The number written by the decimal digits `s` (most significant first).
pub open spec fn digits_value(s: Seq<char>) -> int
    decreases s.len(),
{
    if s.len() == 0 {
        0
    } else {
        digits_value(s.drop_last()) * 10 + digit_value(s.last())
    }
}

/// What `str::parse::<u64>` accepts: an optional `+`, then one or more
/// decimal digits whose value fits in a `u64`.
pub open spec fn parse_u64_spec(s: Seq<char>) -> Option<u64> {
    let d = if s.len() > 0 && s[0] == '+' { s.drop_first() } else { s };
    if d.len() > 0 && all_digits(d) && digits_value(d) <= u64::MAX {
        Some(digits_value(d) as u64)
    } else {
        None
    }
}

/// The decimal representation of `n`, without sign or leading zeros.
pub open spec fn decimal(n: nat) -> Seq<char>
    decreases n,
{
    if n < 10 {
        seq![digit_char(n as int)]
    } else {
        decimal(n / 10).push(digit_char((n % 10) as int))
    }
}

proof fn lemma_digits_value_nonneg(s: Seq<char>)
    requires
        all_digits(s),
    ensures
        digits_value(s) >= 0,
    decreases s.len(),
{
    if s.len() > 0 {
        assert(is_digit(s[s.len() - 1]));
        lemma_digits_value_nonneg(s.drop_last());
    }
}

/// Extending digits never makes their value smaller.
proof fn lemma_digits_value_prefix(s: Seq<char>, k: int)
    requires
        all_digits(s),
        0 <= k <= s.len(),
    ensures
        digits_value(s.subrange(0, k)) <= digits_value(s),
    decreases s.len(),
{
    if k < s.len() {
        assert(is_digit(s[s.len() - 1]));
        lemma_digits_value_prefix(s.drop_last(), k);
        assert(s.drop_last().subrange(0, k) =~= s.subrange(0, k));
        lemma_digits_value_nonneg(s.drop_last());
    } else {
        assert(s.subrange(0, k) =~= s);
    }
}

proof fn lemma_digit_literal()
    ensures
        "0123456789"@.len() == 10,
        forall|d: int| 0 <= d < 10 ==> #[trigger] "0123456789"@[d] == digit_char(d),
{
    reveal_strlit("0123456789");
    assert forall|d: int| 0 <= d < 10 implies #[trigger] "0123456789"@[d] == digit_char(d) by {
        assert(0 <= d < 10);
    }
}

/// Parses a decimal `u64` exactly as `str::parse::<u64>` does.
pub fn parse_u64(s: &str) -> (r: Option<u64>)
    ensures
        r == parse_u64_spec(s@),
{
    let n = s.unicode_len();
    let mut start: usize = 0;
    if n > 0 && s.get_char(0) == '+' {
        start = 1;
    }
    let ghost d = if s@.len() > 0 && s@[0] == '+' { s@.drop_first() } else { s@ };
    assert(d =~= s@.subrange(start as int, n as int));
    if start >= n {
        return None;
    }
    let mut acc: u64 = 0;
    let mut i: usize = start;
    while i < n
        invariant
            n == s@.len(),
            start <= i <= n,
            d == s@.subrange(start as int, n as int),
            d == (if s@.len() > 0 && s@[0] == '+' { s@.drop_first() } else { s@ }),
            all_digits(d.subrange(0, i - start)),
            acc as int == digits_value(d.subrange(0, i - start)),
        decreases n - i,
    {
        let c = s.get_char(i);
        if !('0' <= c && c <= '9') {
            assert(d[i - start] == c);
            assert(!all_digits(d));
            assert(d == (if s@.len() > 0 && s@[0] == '+' { s@.drop_first() } else { s@ }));
            assert(!(d.len() > 0 && all_digits(d) && digits_value(d) <= u64::MAX));
            assert(parse_u64_spec(s@) is None);
            return None;
        }
        let ghost prev = d.subrange(0, i - start);
        let ghost next = d.subrange(0, i + 1 - start);
        assert(next.drop_last() =~= prev);
        assert(next.last() == c);
        let v = (c as u32 - '0' as u32) as u64;
        assert(all_digits(next));
        match acc.checked_mul(10) {
            Some(m) => {
                match m.checked_add(v) {
                    Some(a) => {
                        acc = a;
                    },
                    None => {
                        proof {
                            if all_digits(d) {
                                lemma_digits_value_prefix(d, i + 1 - start);
                            }
                        }
                        return None;
                    },
                }
            },
            None => {
                proof {
                    if all_digits(d) {
                        lemma_digits_value_prefix(d, i + 1 - start);
                    }
                }
                return None;
            },
        }
        i += 1;
    }
    assert(d.subrange(0, n - start) =~= d);
    Some(acc)
}

/// The decimal representation is made of digits and denotes the number.
pub proof fn lemma_decimal_digits(n: nat)
    ensures
        decimal(n).len() > 0,
        all_digits(decimal(n)),
        digits_value(decimal(n)) == n,
    decreases n,
{
    if n < 10 {
        assert(decimal(n).drop_last() =~= Seq::<char>::empty());
        assert(digits_value(Seq::<char>::empty()) == 0);
    } else {
        lemma_decimal_digits(n / 10);
        let t = decimal(n);
        assert(t.drop_last() =~= decimal(n / 10));
        assert(t.last() == digit_char((n % 10) as int));
        assert(digit_value(digit_char((n % 10) as int)) == n % 10);
        assert(digits_value(t) == digits_value(t.drop_last()) * 10 + digit_value(t.last()));
        assert(n == (n / 10) * 10 + n % 10);
        assert forall|i: int| 0 <= i < decimal(n).len() implies is_digit(#[trigger] decimal(n)[i]) by {
            if i < decimal(n).len() - 1 {
                assert(decimal(n)[i] == decimal(n / 10)[i]);
            }
        }
    }
}

/// Writes `n` in decimal (as `u64::to_string`).
pub fn u64_to_decimal(n: u64) -> (r: String)
    ensures
        r@ == decimal(n as nat),
    decreases n,
{
    let digits = "0123456789";
    proof {
        lemma_digit_literal();
    }
    if n < 10 {
        let k = n as usize;
        let piece = digits.substring_char(k, k + 1);
        assert(piece@ =~= seq![digit_char(n as int)]);
        let mut out = String::new();
        out.append(piece);
        assert(out@ =~= decimal(n as nat));
        out
    } else {
        let mut out = u64_to_decimal(n / 10);
        let k = (n % 10) as usize;
        let piece = digits.substring_char(k, k + 1);
        assert(piece@ =~= seq![digit_char((n % 10) as int)]);
        out.append(piece);
        assert(out@ =~= decimal(n as nat));
        out
    }
}

/// Writing a number in decimal and parsing it back gives the number.
pub proof fn law_decimal_round_trip(n: u64)
    ensures
        parse_u64_spec(decimal(n as nat)) == Some(n),
{
    lemma_decimal_digits(n as nat);
    let s = decimal(n as nat);
    assert(is_digit(s[0]));
}

/// Whether `c` separates path segments (`/`, or `\` which is read as `/`).
pub open spec fn is_path_sep(c: char) -> bool {
    c == '/' || c == '\\'
}

/// Position of the last path separator of `u`, or -1 when it has none.
pub open spec fn last_path_sep(u: Seq<char>) -> int
    decreases u.len(),
{
    if u.len() == 0 {
        -1
    } else if is_path_sep(u.last()) {
        u.len() - 1
    } else {
        last_path_sep(u.drop_last())
    }
}

/// Position of the last occurrence of `c` in `u`, or -1 when there is none.
pub open spec fn last_pos_of(u: Seq<char>, c: char) -> int
    decreases u.len(),
{
    if u.len() == 0 {
        -1
    } else if u.last() == c {
        u.len() - 1
    } else {
        last_pos_of(u.drop_last(), c)
    }
}

pub proof fn lemma_last_path_sep_bounds(u: Seq<char>)
    ensures
        -1 <= last_path_sep(u) < u.len(),
        last_path_sep(u) >= 0 ==> is_path_sep(u[last_path_sep(u)]),
        forall|j: int| last_path_sep(u) < j < u.len() ==> !is_path_sep(#[trigger] u[j]),
    decreases u.len(),
{
    if u.len() > 0 && !is_path_sep(u.last()) {
        lemma_last_path_sep_bounds(u.drop_last());
        assert forall|j: int| last_path_sep(u) < j < u.len() implies !is_path_sep(#[trigger] u[j]) by {
            if j < u.len() - 1 {
                assert(u[j] == u.drop_last()[j]);
            }
        }
    }
}

pub proof fn lemma_last_pos_of_bounds(u: Seq<char>, c: char)
    ensures
        -1 <= last_pos_of(u, c) < u.len(),
        last_pos_of(u, c) >= 0 ==> u[last_pos_of(u, c)] == c,
        forall|j: int| last_pos_of(u, c) < j < u.len() ==> #[trigger] u[j] != c,
    decreases u.len(),
{
    if u.len() > 0 && u.last() != c {
        lemma_last_pos_of_bounds(u.drop_last(), c);
        assert forall|j: int| last_pos_of(u, c) < j < u.len() implies #[trigger] u[j] != c by {
            if j < u.len() - 1 {
                assert(u[j] == u.drop_last()[j]);
            }
        }
    }
}

/// Position of the last path separator of `s` (as `str::rfind` with `/` or `\`).
pub fn rfind_path_sep(s: &str) -> (r: Option<usize>)
    ensures
        match r {
            Some(p) => p as int == last_path_sep(s@) && p < s@.len(),
            None => last_path_sep(s@) == -1,
        },
{
    let n = s.unicode_len();
    let mut i: usize = n;
    assert(s@.subrange(0, n as int) =~= s@);
    while i > 0
        invariant
            n == s@.len(),
            i <= n,
            last_path_sep(s@) == last_path_sep(s@.subrange(0, i as int)),
        decreases i,
    {
        let c = s.get_char(i - 1);
        let ghost pre = s@.subrange(0, i as int);
        assert(pre.drop_last() =~= s@.subrange(0, i - 1));
        assert(pre.last() == c);
        if c == '/' || c == '\\' {
            return Some(i - 1);
        }
        i -= 1;
    }
    assert(s@.subrange(0, 0) =~= Seq::<char>::empty());
    None
}

/// Position of the last `c` in `s` (as `str::rfind` with a character).
pub fn rfind_char(s: &str, c: char) -> (r: Option<usize>)
    ensures
        match r {
            Some(p) => p as int == last_pos_of(s@, c) && p < s@.len(),
            None => last_pos_of(s@, c) == -1,
        },
{
    let n = s.unicode_len();
    let mut i: usize = n;
    assert(s@.subrange(0, n as int) =~= s@);
    while i > 0
        invariant
            n == s@.len(),
            i <= n,
            last_pos_of(s@, c) == last_pos_of(s@.subrange(0, i as int), c),
        decreases i,
    {
        let d = s.get_char(i - 1);
        let ghost pre = s@.subrange(0, i as int);
        assert(pre.drop_last() =~= s@.subrange(0, i - 1));
        assert(pre.last() == d);
        if d == c {
            return Some(i - 1);
        }
        i -= 1;
    }
    assert(s@.subrange(0, 0) =~= Seq::<char>::empty());
    None
}

/// Whether `c` has the Unicode `White_Space` property (as `char::is_whitespace`).
pub open spec fn is_whitespace(c: char) -> bool {
    let v = c as u32;
    (0x09 <= v && v <= 0x0D) || v == 0x20 || v == 0x85 || v == 0xA0 || v == 0x1680
        || (0x2000 <= v && v <= 0x200A) || v == 0x2028 || v == 0x2029 || v == 0x202F
        || v == 0x205F || v == 0x3000
}

/// Whether `c` has the Unicode `White_Space` property.
pub fn char_is_whitespace(c: char) -> (r: bool)
    ensures
        r == is_whitespace(c),
{
    let v = c as u32;
    (0x09 <= v && v <= 0x0D) || v == 0x20 || v == 0x85 || v == 0xA0 || v == 0x1680
        || (0x2000 <= v && v <= 0x200A) || v == 0x2028 || v == 0x2029 || v == 0x202F
        || v == 0x205F || v == 0x3000
}

/// `s` without leading whitespace.
pub open spec fn trim_start_ws(s: Seq<char>) -> Seq<char>
    decreases s.len(),
{
    if s.len() > 0 && is_whitespace(s[0]) {
        trim_start_ws(s.drop_first())
    } else {
        s
    }
}

/// `s` without trailing whitespace.
pub open spec fn trim_end_ws(s: Seq<char>) -> Seq<char>
    decreases s.len(),
{
    if s.len() > 0 && is_whitespace(s.last()) {
        trim_end_ws(s.drop_last())
    } else {
        s
    }
}

/// `s` without leading and trailing whitespace (as `str::trim`).
pub open spec fn trim_ws(s: Seq<char>) -> Seq<char> {
    trim_end_ws(trim_start_ws(s))
}

/// `s` without trailing `c` characters (as `str::trim_end_matches` with a character).
pub open spec fn trim_end_char(s: Seq<char>, c: char) -> Seq<char>
    decreases s.len(),
{
    if s.len() > 0 && s.last() == c {
        trim_end_char(s.drop_last(), c)
    } else {
        s
    }
}

/// Removes leading and trailing whitespace.
pub fn trim(s: &str) -> (r: &str)
    ensures
        r@ == trim_ws(s@),
{
    let n = s.unicode_len();
    let mut a: usize = 0;
    assert(s@.subrange(0, n as int) =~= s@);
    while a < n && char_is_whitespace(s.get_char(a))
        invariant
            n == s@.len(),
            a <= n,
            trim_start_ws(s@) == trim_start_ws(s@.subrange(a as int, n as int)),
        decreases n - a,
    {
        assert(s@.subrange(a as int, n as int).drop_first() =~= s@.subrange(a + 1, n as int));
        a += 1;
    }
    assert(trim_start_ws(s@) == s@.subrange(a as int, n as int));
    let mut b: usize = n;
    while b > a && char_is_whitespace(s.get_char(b - 1))
        invariant
            n == s@.len(),
            a <= b <= n,
            trim_ws(s@) == trim_end_ws(s@.subrange(a as int, b as int)),
        decreases b - a,
    {
        assert(s@.subrange(a as int, b as int).drop_last() =~= s@.subrange(a as int, b - 1));
        b -= 1;
    }
    s.substring_char(a, b)
}

/// Removes trailing `c` characters.
pub fn trim_end_matches_char(s: &str, c: char) -> (r: &str)
    ensures
        r@ == trim_end_char(s@, c),
{
    let n = s.unicode_len();
    let mut b: usize = n;
    assert(s@.subrange(0, n as int) =~= s@);
    while b > 0 && s.get_char(b - 1) == c
        invariant
            n == s@.len(),
            b <= n,
            trim_end_char(s@, c) == trim_end_char(s@.subrange(0, b as int), c),
        decreases b,
    {
        assert(s@.subrange(0, b as int).drop_last() =~= s@.subrange(0, b - 1));
        b -= 1;
    }
    s.substring_char(0, b)
}

/// Position of the first occurrence of `c` in `u`, or -1 when there is none.
pub open spec fn first_pos_of(u: Seq<char>, c: char) -> int
    decreases u.len(),
{
    if u.len() == 0 {
        -1
    } else if u[0] == c {
        0
    } else if first_pos_of(u.drop_first(), c) < 0 {
        -1
    } else {
        first_pos_of(u.drop_first(), c) + 1
    }
}

/// Position of the first `c` in `s` (as `str::find` with a character).
pub fn find_char(s: &str, c: char) -> (r: Option<usize>)
    ensures
        match r {
            Some(p) => p as int == first_pos_of(s@, c) && p < s@.len(),
            None => first_pos_of(s@, c) == -1,
        },
{
    let n = s.unicode_len();
    let mut i: usize = 0;
    assert(s@.subrange(0, n as int) =~= s@);
    while i < n
        invariant
            n == s@.len(),
            i <= n,
            first_pos_of(s@, c) == (if first_pos_of(s@.subrange(i as int, n as int), c) < 0 {
                -1
            } else {
                first_pos_of(s@.subrange(i as int, n as int), c) + i
            }),
        decreases n - i,
    {
        let d = s.get_char(i);
        assert(s@.subrange(i as int, n as int).drop_first() =~= s@.subrange(i + 1, n as int));
        if d == c {
            return Some(i);
        }
        i += 1;
    }
    None
}

/// `line` without one `\r` at its end.
pub open spec fn strip_cr(line: Seq<char>) -> Seq<char> {
    if line.len() > 0 && line.last() == '\r' {
        line.drop_last()
    } else {
        line
    }
}

/// The lines of `s` (as `str::lines`): pieces between `\n`, each without a
/// `\r` that preceded its `\n`; a final `\n` ends the last line and opens no
/// new one.
pub open spec fn lines_of(s: Seq<char>) -> Seq<Seq<char>>
    decreases s.len(),
{
    if s.len() == 0 {
        Seq::empty()
    } else {
        let p = first_pos_of(s, '\n');
        if p < 0 {
            seq![s]
        } else {
            proof {
                lemma_first_pos_of_bounds(s, '\n');
            }
            seq![strip_cr(s.subrange(0, p))] + lines_of(s.subrange(p + 1, s.len() as int))
        }
    }
}

pub proof fn lemma_first_pos_of_bounds(u: Seq<char>, c: char)
    ensures
        -1 <= first_pos_of(u, c) < u.len(),
        first_pos_of(u, c) >= 0 ==> u[first_pos_of(u, c)] == c,
        forall|j: int| 0 <= j < u.len() && (first_pos_of(u, c) < 0 || j < first_pos_of(u, c)) ==> #[trigger] u[j] != c,
    decreases u.len(),
{
    if u.len() > 0 && u[0] != c {
        lemma_first_pos_of_bounds(u.drop_first(), c);
        assert forall|j: int| 0 <= j < u.len() && (first_pos_of(u, c) < 0 || j < first_pos_of(u, c)) implies #[trigger] u[j] != c by {
            if j > 0 {
                assert(u[j] == u.drop_first()[j - 1]);
            }
        }
    }
}

/// The lines of `s`.
pub fn split_lines(s: &str) -> (r: Vec<String>)
    ensures
        r@.map_values(|l: String| l@) == lines_of(s@),
{
    let n = s.unicode_len();
    let mut out: Vec<String> = Vec::new();
    let mut start: usize = 0;
    assert(s@.subrange(0, n as int) =~= s@);
    while start < n
        invariant
            n == s@.len(),
            start <= n,
            out@.map_values(|l: String| l@) + lines_of(s@.subrange(start as int, n as int)) =~= lines_of(s@),
        decreases n - start,
    {
        let rest = s.substring_char(start, n);
        let ghost before = out@.map_values(|l: String| l@);
        proof {
            lemma_first_pos_of_bounds(rest@, '\n');
        }
        match find_char(rest, '\n') {
            Some(p) => {
                let piece = rest.substring_char(0, p);
                let line = if p > 0 && rest.get_char(p - 1) == '\r' {
                    rest.substring_char(0, p - 1)
                } else {
                    piece
                };
                assert(line@ =~= strip_cr(rest@.subrange(0, p as int)));
                out.push(String::from_str(line));
                assert(rest@.subrange(p + 1, rest@.len() as int) =~= s@.subrange(start + p + 1, n as int));
                assert(out@.map_values(|l: String| l@) =~= before.push(line@));
                start = start + p + 1;
            },
            None => {
                out.push(String::from_str(rest));
                assert(out@.map_values(|l: String| l@) =~= before.push(rest@));
                assert(s@.subrange(n as int, n as int) =~= Seq::<char>::empty());
                start = n;
            },
        }
    }
    assert(s@.subrange(n as int, n as int) =~= Seq::<char>::empty());
    out
}

} // verus!
