//! Low-level text helpers: decimal numbers and splitting a composite string
//! at its separator, as in `app/3` or `db:7`.

use vstd::prelude::*;

verus! {

/// A decimal digit, `'0'` through `'9'`.
pub open spec fn is_dec_digit(c: char) -> bool {
    '0' <= c && c <= '9'
}

/// The numeric value a digit character stands for.
pub open spec fn digit_val(c: char) -> int {
    c as int - '0' as int
}

/// Every character of `s` is a decimal digit.
pub open spec fn all_dec_digits(s: Seq<char>) -> bool {
    forall|i: int| 0 <= i < s.len() ==> is_dec_digit(#[trigger] s[i])
}

/// The number written by `s`, read as base-10 digits.
pub open spec fn digits_val(s: Seq<char>) -> int
    decreases s.len(),
{
    if s.len() == 0 {
        0
    } else {
        digits_val(s.drop_last()) * 10 + digit_val(s.last())
    }
}

/// What a non-negative decimal literal parses to: the value of the digits,
/// provided there is at least one, all are digits, and the value fits `u32`.
pub open spec fn parse_u32_spec(s: Seq<char>) -> Option<u32> {
    if s.len() > 0 && all_dec_digits(s) && 0 <= digits_val(s) <= u32::MAX {
        Some(digits_val(s) as u32)
    } else {
        None
    }
}

/// Extending a digit string multiplies its value by ten and adds the digit.
proof fn lemma_digits_val_extend(s: Seq<char>, i: int)
    requires
        0 <= i < s.len(),
    ensures
        digits_val(s.subrange(0, i + 1)) == digits_val(s.subrange(0, i)) * 10 + digit_val(s[i]),
{
    let p = s.subrange(0, i + 1);
    assert(p.drop_last() =~= s.subrange(0, i));
    assert(p.last() == s[i]);
}

/// A non-negative prefix of a digit string never exceeds the whole string's
/// value: appending digits can only grow the number.
proof fn lemma_digits_val_prefix(s: Seq<char>, i: int)
    requires
        0 <= i <= s.len(),
        0 <= digits_val(s.subrange(0, i)),
        forall|j: int| i <= j < s.len() ==> is_dec_digit(#[trigger] s[j]),
    ensures
        digits_val(s.subrange(0, i)) <= digits_val(s),
    decreases s.len() - i,
{
    if i == s.len() {
        assert(s.subrange(0, i) =~= s);
    } else {
        lemma_digits_val_extend(s, i);
        lemma_digits_val_prefix(s, i + 1);
    }
}

/// Parses `s` as a non-negative base-10 `u32`.  Absent digits, a stray
/// character, or a value over `u32::MAX` all yield `None`.
pub fn parse_u32_digits(s: &str) -> (r: Option<u32>)
    ensures
        r == parse_u32_spec(s@),
{
    let len = s.unicode_len();
    if len == 0 {
        return None;
    }
    let mut val: u64 = 0;
    let mut i: usize = 0;
    while i < len
        invariant
            0 < len == s@.len(),
            i <= len,
            val <= u32::MAX as u64,
            val == digits_val(s@.subrange(0, i as int)),
            forall|j: int| 0 <= j < i ==> is_dec_digit(#[trigger] s@[j]),
        decreases len - i,
    {
        let c = s.get_char(i);
        if c < '0' || c > '9' {
            assert(!is_dec_digit(s@[i as int]));
            return None;
        }
        let d: u32 = (c as u32) - ('0' as u32);
        proof {
            lemma_digits_val_extend(s@, i as int);
        }
        let new_val: u64 = val * 10 + (d as u64);
        if new_val > u32::MAX as u64 {
            proof {
                if all_dec_digits(s@) {
                    lemma_digits_val_prefix(s@, i as int + 1);
                }
            }
            return None;
        }
        val = new_val;
        i = i + 1;
    }
    proof {
        assert(s@.subrange(0, len as int) =~= s@);
    }
    Some(val as u32)
}

/// The first position at or after `i` where `c` occurs in `s`.
pub open spec fn find_char_from(s: Seq<char>, c: char, i: int) -> Option<int>
    decreases s.len() - i
        when 0 <= i <= s.len()
{
    if i >= s.len() {
        None
    } else if s[i] == c {
        Some(i)
    } else {
        find_char_from(s, c, i + 1)
    }
}

/// Finds the first occurrence of `c` in `s` at or after `start`.
pub fn find_char(s: &str, c: char, start: usize) -> (r: Option<usize>)
    requires
        start <= s@.len(),
    ensures
        match r {
            Some(k) => find_char_from(s@, c, start as int) == Some(k as int) && start <= k
                < s@.len() && s@[k as int] == c,
            None => find_char_from(s@, c, start as int) is None,
        },
{
    let len = s.unicode_len();
    let mut i: usize = start;
    while i < len
        invariant
            start <= i <= len == s@.len(),
            find_char_from(s@, c, start as int) == find_char_from(s@, c, i as int),
        decreases len - i,
    {
        if s.get_char(i) == c {
            return Some(i);
        }
        i = i + 1;
    }
    None
}

/// Splitting `s` at `sep`: the piece before the first separator and the piece
/// between the first separator and the next one (or the end).  `None` when the
/// separator never occurs, since then there is no second piece.
pub open spec fn split_two_spec(s: Seq<char>, sep: char) -> Option<(Seq<char>, Seq<char>)> {
    match find_char_from(s, sep, 0) {
        None => None,
        Some(i) => {
            let end = match find_char_from(s, sep, i + 1) {
                None => s.len() as int,
                Some(j) => j,
            };
            Some((s.subrange(0, i), s.subrange(i + 1, end)))
        },
    }
}

/// Splits `s` at its first `sep` into the leading piece and the piece running
/// to the next `sep` or the end.
pub fn split_pair(s: &str, sep: char) -> (r: Option<(String, String)>)
    ensures
        match split_two_spec(s@, sep) {
            Some(p) => r matches Some(q) && q.0@ == p.0 && q.1@ == p.1,
            None => r is None,
        },
{
    let len = s.unicode_len();
    match find_char(s, sep, 0) {
        None => None,
        Some(i) => {
            let end = match find_char(s, sep, i + 1) {
                None => len,
                Some(j) => j,
            };
            let first = String::from_str(s.substring_char(0, i));
            let second = String::from_str(s.substring_char(i + 1, end));
            Some((first, second))
        },
    }
}

} // verus!
