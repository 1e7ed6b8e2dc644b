//! Character-level text helpers for parsing textual stack-trace lines:
//! whitespace splitting, trimming, substring search and hexadecimal
//! number parsing, each specified over sequences of characters.

use vstd::prelude::*;
use vstd::string::StrSliceExecFns;

verus! {

/// The whitespace characters recognized when splitting and trimming.
pub open spec fn is_space(c: char) -> bool {
    c == ' ' || c == '\t' || c == '\n' || c == '\r' || c == '\u{0B}' || c == '\u{0C}'
}

/// Executable form of `is_space`.
pub fn is_space_char(c: char) -> (r: bool)
    ensures
        r == is_space(c),
{
    c == ' ' || c == '\t' || c == '\n' || c == '\r' || c == '\u{0B}' || c == '\u{0C}'
}

/// Length of the maximal leading run of non-whitespace characters.
pub open spec fn token_len(s: Seq<char>) -> int
    decreases s.len(),
{
    if s.len() == 0 || is_space(s[0]) {
        0
    } else {
        1 + token_len(s.drop_first())
    }
}

/// A leading token never extends past the end of the text.
pub proof fn lemma_token_len_bounds(s: Seq<char>)
    ensures
        0 <= token_len(s) <= s.len(),
    decreases s.len(),
{
    if s.len() > 0 && !is_space(s[0]) {
        lemma_token_len_bounds(s.drop_first());
    }
}

/// The whitespace-separated tokens of `s`, in order, each non-empty.
pub open spec fn split_ws(s: Seq<char>) -> Seq<Seq<char>>
    decreases s.len(),
    via split_ws_decreases
{
    if s.len() == 0 {
        Seq::empty()
    } else if is_space(s[0]) {
        split_ws(s.drop_first())
    } else {
        seq![s.take(token_len(s))] + split_ws(s.skip(token_len(s)))
    }
}

#[via_fn]
proof fn split_ws_decreases(s: Seq<char>) {
    if s.len() > 0 && !is_space(s[0]) {
        lemma_token_len_bounds(s.drop_first());
    }
}

/// Splits a line into its whitespace-separated tokens.
pub fn split_whitespace_tokens(line: &str) -> (tokens: Vec<String>)
    ensures
        tokens@.map_values(|t: String| t@) == split_ws(line@),
{
    let n = line.unicode_len();
    let mut tokens: Vec<String> = Vec::new();
    let mut p: usize = 0;
    proof {
        assert(line@.skip(0) =~= line@);
        assert(Seq::<Seq<char>>::empty() + split_ws(line@) =~= split_ws(line@));
        assert(tokens@.map_values(|t: String| t@) =~= Seq::<Seq<char>>::empty());
    }
    while p < n
        invariant
            p <= n,
            n == line@.len(),
            split_ws(line@) == tokens@.map_values(|t: String| t@) + split_ws(
                line@.skip(p as int),
            ),
        decreases n - p,
    {
        let c = line.get_char(p);
        if is_space_char(c) {
            proof {
                assert(line@.skip(p as int).drop_first() =~= line@.skip(p + 1));
            }
            p = p + 1;
        } else {
            let start = p;
            let mut j = p + 1;
            proof {
                assert(line@.skip(start as int)[0] == line@[start as int]);
                assert(line@.skip(start as int).drop_first() =~= line@.skip(start + 1));
            }
            while j < n && !is_space_char(line.get_char(j))
                invariant
                    start < j <= n,
                    n == line@.len(),
                    !is_space(line@[start as int]),
                    forall|k: int| start <= k < j ==> !is_space(line@[k]),
                    token_len(line@.skip(start as int)) == (j - start) + token_len(
                        line@.skip(j as int),
                    ),
                decreases n - j,
            {
                proof {
                    assert(line@.skip(j as int)[0] == line@[j as int]);
                    assert(line@.skip(j as int).drop_first() =~= line@.skip(j + 1));
                }
                j = j + 1;
            }
            proof {
                if j < n {
                    assert(line@.skip(j as int)[0] == line@[j as int]);
                }
                assert(token_len(line@.skip(j as int)) == 0);
                assert(token_len(line@.skip(start as int)) == j - start);
                lemma_token_len_bounds(line@.skip(start as int));
            }
            let tok = line.substring_char(start, j).to_owned();
            proof {
                let tail = line@.skip(start as int);
                assert(tail.take(j - start) =~= line@.subrange(start as int, j as int));
                assert(tail.skip(j - start) =~= line@.skip(j as int));
                assert(split_ws(tail) == seq![tok@] + split_ws(line@.skip(j as int)));
                let prev = tokens@.map_values(|t: String| t@);
                assert(tokens@.push(tok).map_values(|t: String| t@) =~= prev.push(tok@));
                assert(prev + (seq![tok@] + split_ws(line@.skip(j as int))) =~= prev.push(tok@)
                    + split_ws(line@.skip(j as int)));
            }
            tokens.push(tok);
            p = j;
        }
    }
    proof {
        assert(line@.skip(n as int) =~= Seq::<char>::empty());
        assert(tokens@.map_values(|t: String| t@) + Seq::<Seq<char>>::empty()
            =~= tokens@.map_values(|t: String| t@));
    }
    tokens
}

/// `s` with its leading whitespace removed.
pub open spec fn drop_leading_spaces(s: Seq<char>) -> Seq<char>
    decreases s.len(),
{
    if s.len() > 0 && is_space(s[0]) {
        drop_leading_spaces(s.drop_first())
    } else {
        s
    }
}

/// `s` with its trailing whitespace removed.
pub open spec fn drop_trailing_spaces(s: Seq<char>) -> Seq<char>
    decreases s.len(),
{
    if s.len() > 0 && is_space(s.last()) {
        drop_trailing_spaces(s.drop_last())
    } else {
        s
    }
}

/// `s` with whitespace removed from both ends.
pub open spec fn trim_spaces(s: Seq<char>) -> Seq<char> {
    drop_trailing_spaces(drop_leading_spaces(s))
}

/// Trims whitespace from both ends of a line.
pub fn trim_str<'a>(line: &'a str) -> (t: &'a str)
    ensures
        t@ == trim_spaces(line@),
{
    let n = line.unicode_len();
    let mut a: usize = 0;
    proof {
        assert(line@.skip(0) =~= line@);
    }
    while a < n && is_space_char(line.get_char(a))
        invariant
            a <= n,
            n == line@.len(),
            drop_leading_spaces(line@) == drop_leading_spaces(line@.skip(a as int)),
        decreases n - a,
    {
        proof {
            assert(line@.skip(a as int)[0] == line@[a as int]);
            assert(line@.skip(a as int).drop_first() =~= line@.skip(a + 1));
        }
        a = a + 1;
    }
    proof {
        if a < n {
            assert(line@.skip(a as int)[0] == line@[a as int]);
        } else {
            assert(line@.skip(a as int) =~= Seq::<char>::empty());
        }
        assert(drop_leading_spaces(line@) == line@.skip(a as int));
    }
    let mut b: usize = n;
    while b > a && is_space_char(line.get_char(b - 1))
        invariant
            a <= b <= n,
            n == line@.len(),
            drop_leading_spaces(line@) == line@.skip(a as int),
            drop_trailing_spaces(line@.skip(a as int)) == drop_trailing_spaces(
                line@.subrange(a as int, b as int),
            ),
        decreases b,
    {
        proof {
            let cur = line@.subrange(a as int, b as int);
            assert(cur.last() == line@[b - 1]);
            assert(cur.drop_last() =~= line@.subrange(a as int, b - 1));
        }
        b = b - 1;
    }
    proof {
        let cur = line@.subrange(a as int, b as int);
        if b > a {
            assert(cur.last() == line@[b - 1]);
        }
        assert(drop_trailing_spaces(cur) == cur);
        assert(line@.skip(a as int) =~= line@.subrange(a as int, n as int));
    }
    line.substring_char(a, b)
}

/// Whether `needle` occurs contiguously anywhere in `s`.
pub open spec fn contains_seq(s: Seq<char>, needle: Seq<char>) -> bool {
    exists|i: int|
        0 <= i && i + needle.len() <= s.len() && #[trigger] s.subrange(i, i + needle.len())
            == needle
}

/// Whether `needle` occurs contiguously anywhere in `s`.
pub fn contains_chars(s: &str, needle: &Vec<char>) -> (r: bool)
    ensures
        r == contains_seq(s@, needle@),
{
    let n = s.unicode_len();
    let m = needle.len();
    if m > n {
        return false;
    }
    if m == 0 {
        proof {
            assert(s@.subrange(0, 0 + needle@.len() as int) =~= needle@);
        }
        return true;
    }
    let mut i: usize = 0;
    while i <= n - m
        invariant
            0 <= i <= n - m + 1,
            1 <= m <= n,
            n == s@.len(),
            m == needle@.len(),
            forall|k: int| 0 <= k < i ==> #[trigger] s@.subrange(k, k + needle@.len()) != needle@,
        decreases n - i,
    {
        let mut j: usize = 0;
        let mut all_eq = true;
        while j < m
            invariant
                0 <= j <= m,
                i + m <= n,
                n == s@.len(),
                m == needle@.len(),
                all_eq ==> forall|l: int| 0 <= l < j ==> s@[i + l] == #[trigger] needle@[l],
                !all_eq ==> s@.subrange(i as int, i + needle@.len()) != needle@,
            decreases m - j,
        {
            let cs = s.get_char(i + j);
            if cs != needle[j] {
                proof {
                    assert(s@.subrange(i as int, i + needle@.len())[j as int] == s@[i + j]);
                }
                all_eq = false;
                j = m;
            } else {
                j = j + 1;
            }
        }
        if all_eq {
            proof {
                assert(s@.subrange(i as int, i + needle@.len()) =~= needle@);
            }
            return true;
        }
        i = i + 1;
    }
    proof {
        assert forall|k: int| 0 <= k && k + needle@.len() <= s@.len() implies #[trigger] s@.subrange(
            k,
            k + needle@.len(),
        ) != needle@ by {
            assert(k < i);
        }
    }
    false
}

/// Index of the last occurrence of `c` in `s`, or -1 when absent.
pub open spec fn last_index_of(s: Seq<char>, c: char) -> int
    decreases s.len(),
{
    if s.len() == 0 {
        -1
    } else if s.last() == c {
        s.len() - 1
    } else {
        last_index_of(s.drop_last(), c)
    }
}

/// The last-occurrence index is a valid index when it exists, and the
/// character there is the one sought.
pub proof fn lemma_last_index_of_bounds(s: Seq<char>, c: char)
    ensures
        -1 <= last_index_of(s, c) < s.len(),
        last_index_of(s, c) >= 0 ==> s[last_index_of(s, c)] == c,
    decreases s.len(),
{
    if s.len() > 0 && s.last() != c {
        lemma_last_index_of_bounds(s.drop_last(), c);
    }
}

/// Finds the index of the last occurrence of `c` in `s`.
pub fn find_last_char(s: &str, c: char) -> (r: Option<usize>)
    ensures
        match r {
            Some(k) => k == last_index_of(s@, c),
            None => last_index_of(s@, c) == -1,
        },
{
    let n = s.unicode_len();
    let mut b: usize = n;
    proof {
        assert(s@.take(n as int) =~= s@);
    }
    while b > 0
        invariant
            b <= n,
            n == s@.len(),
            last_index_of(s@, c) == last_index_of(s@.take(b as int), c),
        decreases b,
    {
        proof {
            assert(s@.take(b as int).last() == s@[b - 1]);
            assert(s@.take(b as int).drop_last() =~= s@.take(b - 1));
        }
        let cb = s.get_char(b - 1);
        if cb == c {
            return Some(b - 1);
        }
        b = b - 1;
    }
    None
}

/// `s` with a leading `0x` removed, when one is there.
pub open spec fn strip_hex_prefix(s: Seq<char>) -> Seq<char> {
    if s.len() >= 2 && s[0] == '0' && s[1] == 'x' {
        s.skip(2)
    } else {
        s
    }
}

/// Strips a leading `0x`, when one is there.
pub fn strip_hex_prefix_str<'a>(s: &'a str) -> (r: &'a str)
    ensures
        r@ == strip_hex_prefix(s@),
{
    let n = s.unicode_len();
    if n >= 2 && s.get_char(0) == '0' && s.get_char(1) == 'x' {
        let r = s.substring_char(2, n);
        proof {
            assert(r@ =~= s@.skip(2));
        }
        r
    } else {
        s
    }
}

/// Whether `c` is a hexadecimal digit in either case.
pub open spec fn is_hex_digit(c: char) -> bool {
    (0x30 <= c as u32 && c as u32 <= 0x39) || (0x61 <= c as u32 && c as u32 <= 0x66) || (0x41
        <= c as u32 && c as u32 <= 0x46)
}

/// Numeric value of a hexadecimal digit.
pub open spec fn hex_digit_value(c: char) -> u32 {
    if 0x30 <= c as u32 && c as u32 <= 0x39 {
        (c as u32 - 0x30) as u32
    } else if 0x61 <= c as u32 && c as u32 <= 0x66 {
        (c as u32 - 0x61 + 10) as u32
    } else if 0x41 <= c as u32 && c as u32 <= 0x46 {
        (c as u32 - 0x41 + 10) as u32
    } else {
        0
    }
}

/// Whether every character of `s` is a hexadecimal digit.
pub open spec fn all_hex(s: Seq<char>) -> bool {
    forall|i: int| 0 <= i < s.len() ==> is_hex_digit(s[i])
}

/// Value of `s` read as a big-endian string of hexadecimal digits.
pub open spec fn hex_num_value(s: Seq<char>) -> nat
    decreases s.len(),
{
    if s.len() == 0 {
        0
    } else {
        hex_num_value(s.drop_last()) * 16 + hex_digit_value(s.last()) as nat
    }
}

/// The 32-bit value of a hexadecimal digit string: defined exactly when
/// the string is non-empty, all digits are hexadecimal, and the value
/// fits in 32 bits.
pub open spec fn spec_hex_u32(s: Seq<char>) -> Option<u32> {
    if s.len() > 0 && all_hex(s) && hex_num_value(s) <= 0xFFFF_FFFF {
        Some(hex_num_value(s) as u32)
    } else {
        None
    }
}

/// Parses a string of hexadecimal digits into a 32-bit value; rejects an
/// empty string, a non-digit, and overflow.
pub fn parse_hex_u32(s: &str) -> (r: Option<u32>)
    ensures
        r == spec_hex_u32(s@),
{
    let n = s.unicode_len();
    if n == 0 {
        return None;
    }
    let mut acc: u64 = 0;
    let mut over = false;
    let mut i: usize = 0;
    while i < n
        invariant
            0 <= i <= n,
            n == s@.len(),
            all_hex(s@.take(i as int)),
            !over ==> acc == hex_num_value(s@.take(i as int)) && acc <= 0xFFFF_FFFF,
            over ==> hex_num_value(s@.take(i as int)) > 0xFFFF_FFFF,
        decreases n - i,
    {
        let c = s.get_char(i);
        let cv = c as u32;
        let d: u32 = if 0x30 <= cv && cv <= 0x39 {
            cv - 0x30
        } else if 0x61 <= cv && cv <= 0x66 {
            cv - 0x61 + 10
        } else if 0x41 <= cv && cv <= 0x46 {
            cv - 0x41 + 10
        } else {
            return None;
        };
        proof {
            assert(s@.take(i + 1).drop_last() =~= s@.take(i as int));
            assert(s@.take(i + 1).last() == s@[i as int]);
        }
        if !over {
            let next: u64 = acc * 16 + d as u64;
            if next > 0xFFFF_FFFF {
                over = true;
            } else {
                acc = next;
            }
            proof {
                let prev = hex_num_value(s@.take(i as int));
                assert(hex_num_value(s@.take(i + 1)) == prev * 16 + hex_digit_value(
                    s@[i as int],
                ));
            }
        } else {
            proof {
                let prev = hex_num_value(s@.take(i as int));
                assert(hex_num_value(s@.take(i + 1)) == prev * 16 + hex_digit_value(
                    s@[i as int],
                ));
                assert(prev * 16 >= prev) by (nonlinear_arith)
                    requires
                        prev >= 0,
                ;
            }
        }
        i = i + 1;
    }
    proof {
        assert(s@.take(n as int) =~= s@);
    }
    if over {
        None
    } else {
        Some(acc as u32)
    }
}

} // verus!
