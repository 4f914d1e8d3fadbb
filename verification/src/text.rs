//! Small operations on text, each stated over the characters of a string.

use vstd::prelude::*;

verus! {

/// The characters of each of a list of strings.
pub open spec fn texts(list: Seq<String>) -> Seq<Seq<char>> {
    list.map_values(|s: String| s@)
}

/// The position of the first `c` in `s` at or after `from`, or the length of
/// `s` where there is none.
pub open spec fn find_from<T>(s: Seq<T>, c: T, from: int) -> int
    decreases s.len() - from,
{
    if from < 0 || from >= s.len() {
        s.len() as int
    } else if s[from] == c {
        from
    } else {
        find_from(s, c, from + 1)
    }
}

/// The position of the first `c` in `s`, or the length of `s` where `s` holds none.
pub open spec fn find<T>(s: Seq<T>, c: T) -> int {
    find_from(s, c, 0)
}

/// `find_from` gives a position between `from` and the end, with no `c`
/// before it, and with `c` at it unless it is the end.
pub proof fn lemma_find_from<T>(s: Seq<T>, c: T, from: int)
    requires
        0 <= from <= s.len(),
    ensures
        from <= find_from(s, c, from) <= s.len(),
        forall|j: int| from <= j < find_from(s, c, from) ==> s[j] != c,
        find_from(s, c, from) < s.len() ==> s[find_from(s, c, from)] == c,
    decreases s.len() - from,
{
    if from < s.len() && s[from] != c {
        lemma_find_from(s, c, from + 1);
    }
}

/// A position is the first `c` exactly when `c` stands there and nowhere before.
pub proof fn lemma_find_is_first<T>(s: Seq<T>, c: T, at: int)
    requires
        0 <= at <= s.len(),
        forall|j: int| 0 <= j < at ==> s[j] != c,
        at < s.len() ==> s[at] == c,
    ensures
        find(s, c) == at,
{
    lemma_find_from(s, c, 0);
}

/// `s` holds `c` exactly when `find` stops before the end.
pub proof fn lemma_find_contains<T>(s: Seq<T>, c: T)
    ensures
        s.contains(c) <==> find(s, c) < s.len(),
{
    lemma_find_from(s, c, 0);
    if s.contains(c) {
        let i = choose|i: int| 0 <= i < s.len() && s[i] == c;
        assert(!(i < find(s, c)));
    } else if find(s, c) < s.len() {
        assert(s[find(s, c)] == c);
    }
}

/// The position of the first `c` in `s`, counted in characters, or the number
/// of characters of `s` where it holds none.
pub fn find_char(s: &str, c: char) -> (at: usize)
    ensures
        at == find(s@, c),
        at <= s@.len(),
{
    let n = s.unicode_len();
    let mut i: usize = 0;
    while i < n
        invariant
            n == s@.len(),
            0 <= i <= n,
            find_from(s@, c, i as int) == find(s@, c),
        decreases n - i,
    {
        if s.get_char(i) == c {
            return i;
        }
        i += 1;
    }
    i
}

/// The characters of `s` from position `from` up to, not including, `to`.
pub fn slice(s: &str, from: usize, to: usize) -> (part: String)
    requires
        from <= to <= s@.len(),
    ensures
        part@ == s@.subrange(from as int, to as int),
{
    String::from_str(s.substring_char(from, to))
}

/// Whether `a` and `b` hold the same characters.
pub fn same_text(a: &str, b: &str) -> (same: bool)
    ensures
        same == (a@ == b@),
{
    String::from_str(a) == String::from_str(b)
}

/// `s` from position `from` on, with each backslash that a space follows
/// taken out: the pairs are found from left to right and do not overlap.
pub open spec fn unescaped_from(s: Seq<char>, from: int) -> Seq<char>
    decreases s.len() - from,
{
    if from < 0 || from >= s.len() {
        Seq::empty()
    } else if from + 1 < s.len() && s[from] == '\\' && s[from + 1] == ' ' {
        seq![' '] + unescaped_from(s, from + 2)
    } else {
        seq![s[from]] + unescaped_from(s, from + 1)
    }
}

/// `s` with every escaped space, a backslash and a space, turned into a space.
pub open spec fn unescaped(s: Seq<char>) -> Seq<char> {
    unescaped_from(s, 0)
}

/// Takes the backslash out of each escaped space of `s`.
pub fn unescape_spaces(s: &str) -> (plain: String)
    ensures
        plain@ == unescaped(s@),
{
    let n = s.unicode_len();
    let mut plain = String::new();
    let mut i: usize = 0;
    while i < n
        invariant
            n == s@.len(),
            0 <= i <= n,
            plain@ + unescaped_from(s@, i as int) == unescaped(s@),
        decreases n - i,
    {
        if i + 1 < n && s.get_char(i) == '\\' && s.get_char(i + 1) == ' ' {
            proof {
                reveal_strlit(" ");
                assert(" "@ == seq![' ']);
                assert((plain@ + " "@) + unescaped_from(s@, i + 2) == plain@ + (seq![' ']
                    + unescaped_from(s@, i + 2)));
            }
            plain.append(" ");
            i += 2;
        } else {
            proof {
                assert(s@.subrange(i as int, i + 1) == seq![s@[i as int]]);
                assert((plain@ + seq![s@[i as int]]) + unescaped_from(s@, i + 1) == plain@ + (
                seq![s@[i as int]] + unescaped_from(s@, i + 1)));
            }
            plain.append(s.substring_char(i, i + 1));
            i += 1;
        }
    }
    assert(unescaped_from(s@, i as int) == Seq::<char>::empty());
    assert(plain@ + Seq::<char>::empty() == plain@);
    plain
}

/// Whether `c` is one of the ten decimal digits.
pub open spec fn is_digit(c: char) -> bool {
    '0' <= c && c <= '9'
}

/// The number that a decimal digit stands for.
pub open spec fn digit_value(c: char) -> nat {
    (c as int - '0' as int) as nat
}

/// The number that a sequence of decimal digits writes, the empty one writing zero.
pub open spec fn decimal_value(digits: Seq<char>) -> nat
    decreases digits.len(),
{
    if digits.len() == 0 {
        0
    } else {
        decimal_value(digits.drop_last()) * 10 + digit_value(digits.last())
    }
}

/// The digits of a count: the text itself, without a plus sign in front.
pub open spec fn unsigned_part(s: Seq<char>) -> Seq<char> {
    if s.len() > 0 && s[0] == '+' {
        s.drop_first()
    } else {
        s
    }
}

/// Whether every character of `s` is a decimal digit.
pub open spec fn all_digits(s: Seq<char>) -> bool {
    forall|i: int| 0 <= i < s.len() ==> is_digit(#[trigger] s[i])
}

/// The count that `s` writes: one or more decimal digits, with or without a
/// plus sign in front, whose value a `usize` can hold. Any other text writes none.
pub open spec fn parsed_count(s: Seq<char>) -> Option<usize> {
    let digits = unsigned_part(s);
    if digits.len() > 0 && all_digits(digits) && decimal_value(digits) <= usize::MAX {
        Some(decimal_value(digits) as usize)
    } else {
        None
    }
}

/// The value of a sequence of digits is at least that of each of its beginnings.
pub proof fn lemma_decimal_value_grows(digits: Seq<char>, k: int)
    requires
        0 <= k <= digits.len(),
    ensures
        decimal_value(digits.take(k)) <= decimal_value(digits),
    decreases digits.len(),
{
    if k == digits.len() {
        assert(digits.take(k) == digits);
    } else {
        lemma_decimal_value_grows(digits.drop_last(), k);
        assert(digits.drop_last().take(k) == digits.take(k));
    }
}

/// Reads a count from `s`.
pub fn parse_count(s: &str) -> (count: Option<usize>)
    ensures
        count == parsed_count(s@),
{
    let n = s.unicode_len();
    let start: usize = if n > 0 && s.get_char(0) == '+' { 1 } else { 0 };
    if start == n {
        return None;
    }
    let ghost digits = unsigned_part(s@);
    assert(digits == s@.subrange(start as int, n as int));
    let mut value: usize = 0;
    let mut i: usize = start;
    while i < n
        invariant
            n == s@.len(),
            start <= i <= n,
            digits == unsigned_part(s@),
            digits == s@.subrange(start as int, n as int),
            all_digits(digits.take(i - start)),
            value == decimal_value(digits.take(i - start)),
        decreases n - i,
    {
        let c = s.get_char(i);
        assert(c == digits[i - start]);
        if !('0' <= c && c <= '9') {
            assert(!is_digit(digits[i - start]));
            return None;
        }
        let d: usize = (c as u32 - '0' as u32) as usize;
        proof {
            let next = digits.take(i - start + 1);
            assert(next.drop_last() == digits.take(i - start));
            assert(next.last() == c);
            assert(decimal_value(next) == value * 10 + d);
            lemma_decimal_value_grows(digits, i - start + 1);
            assert forall|j: int| 0 <= j < next.len() implies is_digit(#[trigger] next[j]) by {
                if j < i - start {
                    assert(next[j] == digits.take(i - start)[j]);
                }
            }
        }
        if value > (usize::MAX - d) / 10 {
            assert(value * 10 + d > usize::MAX);
            return None;
        }
        value = value * 10 + d;
        i += 1;
    }
    assert(digits.take(n - start) == digits);
    Some(value)
}

} // verus!
