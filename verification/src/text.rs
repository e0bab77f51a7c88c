//! Small verified string routines: comparison, prefixes, decimal numbers,
//! first lines and trimming. Every contract speaks of the strings' views.

use vstd::prelude::*;
use vstd::string::*;

verus! {

/// The characters of a string that may be missing.
pub open spec fn opt_view(text: Option<String>) -> Option<Seq<char>> {
    match text {
        Some(s) => Some(s@),
        None => None,
    }
}

/// The characters of a borrowed string that may be missing.
pub open spec fn opt(text: Option<&str>) -> Option<Seq<char>> {
    match text {
        Some(s) => Some(s@),
        None => None,
    }
}

/// The characters of each string of a list.
pub open spec fn strings_view(list: Seq<String>) -> Seq<Seq<char>> {
    Seq::new(list.len(), |i: int| list[i]@)
}

/// Whether two strings hold the same characters.
pub fn str_eq(a: &str, b: &str) -> (res: bool)
    ensures
        res == (a@ == b@),
{
    let x = a.to_owned();
    let y = b.to_owned();
    x == y
}

/// Whether `s` begins with `prefix`.
pub fn starts_with(s: &str, prefix: &str) -> (res: bool)
    ensures
        res == prefix@.is_prefix_of(s@),
{
    let n = prefix.unicode_len();
    let m = s.unicode_len();
    if n > m {
        return false;
    }
    let head = s.substring_char(0, n);
    str_eq(head, prefix)
}

/// Whether `s` ends with `suffix`.
pub fn ends_with(s: &str, suffix: &str) -> (res: bool)
    ensures
        res == suffix@.is_suffix_of(s@),
{
    let n = suffix.unicode_len();
    let m = s.unicode_len();
    if n > m {
        return false;
    }
    let tail = s.substring_char(m - n, m);
    str_eq(tail, suffix)
}

/// The character that writes the digit `d`.
pub open spec fn digit_char(d: int) -> char {
    if d == 0 {
        '0'
    } else if d == 1 {
        '1'
    } else if d == 2 {
        '2'
    } else if d == 3 {
        '3'
    } else if d == 4 {
        '4'
    } else if d == 5 {
        '5'
    } else if d == 6 {
        '6'
    } else if d == 7 {
        '7'
    } else if d == 8 {
        '8'
    } else {
        '9'
    }
}

/// The decimal notation of `n`, most significant digit first, without padding.
pub open spec fn decimal_digits(n: nat) -> Seq<char>
    decreases n,
{
    if n < 10 {
        seq![digit_char(n as int)]
    } else {
        decimal_digits(n / 10).push(digit_char((n % 10) as int))
    }
}

fn digit_str(d: u64) -> (res: &'static str)
    requires
        d < 10,
    ensures
        res@ == seq![digit_char(d as int)],
{
    proof {
        reveal_strlit("0");
        reveal_strlit("1");
        reveal_strlit("2");
        reveal_strlit("3");
        reveal_strlit("4");
        reveal_strlit("5");
        reveal_strlit("6");
        reveal_strlit("7");
        reveal_strlit("8");
        reveal_strlit("9");
    }
    let res = if d == 0 {
        "0"
    } else if d == 1 {
        "1"
    } else if d == 2 {
        "2"
    } else if d == 3 {
        "3"
    } else if d == 4 {
        "4"
    } else if d == 5 {
        "5"
    } else if d == 6 {
        "6"
    } else if d == 7 {
        "7"
    } else if d == 8 {
        "8"
    } else {
        "9"
    };
    assert(res@ =~= seq![digit_char(d as int)]);
    res
}

/// Writes `n` in decimal.
pub fn decimal_string(n: u64) -> (res: String)
    ensures
        res@ == decimal_digits(n as nat),
    decreases n,
{
    if n < 10 {
        String::from_str(digit_str(n))
    } else {
        let mut s = decimal_string(n / 10);
        let ghost head = s@;
        s.append(digit_str(n % 10));
        assert(s@ =~= head.push(digit_char((n % 10) as int)));
        s
    }
}

/// The concatenation of two strings.
pub fn concat2(a: &str, b: &str) -> (res: String)
    ensures
        res@ == a@ + b@,
{
    let mut s = String::from_str(a);
    s.append(b);
    s
}

/// White space as Unicode defines it (the property `White_Space`).
pub open spec fn is_whitespace(c: char) -> bool {
    let u = c as u32;
    ||| 0x09 <= u <= 0x0D
    ||| u == 0x20
    ||| u == 0x85
    ||| u == 0xA0
    ||| u == 0x1680
    ||| 0x2000 <= u <= 0x200A
    ||| u == 0x2028
    ||| u == 0x2029
    ||| u == 0x202F
    ||| u == 0x205F
    ||| u == 0x3000
}

/// Whether `c` is white space.
pub fn char_is_whitespace(c: char) -> (res: bool)
    ensures
        res == is_whitespace(c),
{
    let u = c as u32;
    (0x09 <= u && u <= 0x0D) || u == 0x20 || u == 0x85 || u == 0xA0 || u == 0x1680 || (0x2000 <= u
        && u <= 0x200A) || u == 0x2028 || u == 0x2029 || u == 0x202F || u == 0x205F || u == 0x3000
}

/// The first index at or after `i` that holds a line feed, or the length.
pub open spec fn line_end_from(s: Seq<char>, i: int) -> int
    decreases s.len() - i,
{
    if 0 <= i < s.len() && s[i] != '\n' {
        line_end_from(s, i + 1)
    } else {
        i
    }
}

/// The first index at or after `i` that holds no white space, or the length.
pub open spec fn skip_whitespace(s: Seq<char>, i: int) -> int
    decreases s.len() - i,
{
    if 0 <= i < s.len() && is_whitespace(s[i]) {
        skip_whitespace(s, i + 1)
    } else {
        i
    }
}

/// The least `j >= lo` such that everything from `j` up to `hi` is white space.
pub open spec fn drop_whitespace(s: Seq<char>, lo: int, hi: int) -> int
    decreases hi,
{
    if 0 <= lo < hi <= s.len() && is_whitespace(s[hi - 1]) {
        drop_whitespace(s, lo, hi - 1)
    } else {
        hi
    }
}

/// `s[lo..hi]` without the white space at its two ends.
pub open spec fn trimmed_range(s: Seq<char>, lo: int, hi: int) -> Seq<char> {
    let start = skip_whitespace(s.subrange(0, hi), lo);
    let end = drop_whitespace(s, start, hi);
    s.subrange(start, end)
}

/// `s` without the white space at its two ends.
pub open spec fn trimmed(s: Seq<char>) -> Seq<char> {
    trimmed_range(s, 0, s.len() as int)
}

/// The text before the first line feed of `s`, trimmed.
pub open spec fn first_line_trimmed(s: Seq<char>) -> Seq<char> {
    trimmed_range(s, 0, line_end_from(s, 0))
}

fn trim_between(s: &str, lo: usize, hi: usize) -> (res: String)
    requires
        lo <= hi <= s@.len(),
    ensures
        res@ == trimmed_range(s@, lo as int, hi as int),
{
    let ghost head = s@.subrange(0, hi as int);
    let mut start = lo;
    while start < hi && char_is_whitespace(s.get_char(start))
        invariant
            lo <= start <= hi <= s@.len(),
            head == s@.subrange(0, hi as int),
            skip_whitespace(head, lo as int) == skip_whitespace(head, start as int),
        decreases hi - start,
    {
        start = start + 1;
    }
    let mut end = hi;
    while start < end && char_is_whitespace(s.get_char(end - 1))
        invariant
            start <= end <= hi <= s@.len(),
            drop_whitespace(s@, start as int, hi as int) == drop_whitespace(
                s@,
                start as int,
                end as int,
            ),
        decreases end,
    {
        end = end - 1;
    }
    s.substring_char(start, end).to_owned()
}

/// Removes the white space at both ends of `s`.
pub fn trim(s: &str) -> (res: String)
    ensures
        res@ == trimmed(s@),
{
    let n = s.unicode_len();
    trim_between(s, 0, n)
}

/// The first line of `s` without the white space at its two ends. A text
/// without line feed is its own first line.
pub fn first_line(s: &str) -> (res: String)
    ensures
        res@ == first_line_trimmed(s@),
{
    let n = s.unicode_len();
    let mut end: usize = 0;
    while end < n && s.get_char(end) != '\n'
        invariant
            end <= n == s@.len(),
            line_end_from(s@, 0) == line_end_from(s@, end as int),
        decreases n - end,
    {
        end = end + 1;
    }
    trim_between(s, 0, end)
}

/// A trimmed text has no white space at either end, and only white space was
/// removed around it.
pub proof fn lemma_trimmed(s: Seq<char>)
    ensures
        trimmed(s).len() > 0 ==> !is_whitespace(trimmed(s).first()) && !is_whitespace(
            trimmed(s).last(),
        ),
        exists|lo: int, hi: int|
            0 <= lo <= hi <= s.len() && trimmed(s) == s.subrange(lo, hi) && (forall|k: int|
                0 <= k < lo ==> is_whitespace(s[k])) && (forall|k: int|
                hi <= k < s.len() ==> is_whitespace(s[k])),
{
    let n = s.len() as int;
    let head = s.subrange(0, n);
    assert(head =~= s);
    let lo = skip_whitespace(s, 0);
    lemma_skip_whitespace(s, 0);
    let hi = drop_whitespace(s, lo, n);
    lemma_drop_whitespace(s, lo, n);
    assert(trimmed(s) == s.subrange(lo, hi));
    if trimmed(s).len() > 0 {
        assert(trimmed(s).first() == s[lo]);
        assert(trimmed(s).last() == s[hi - 1]);
    }
}

proof fn lemma_skip_whitespace(s: Seq<char>, i: int)
    requires
        0 <= i <= s.len(),
    ensures
        i <= skip_whitespace(s, i) <= s.len(),
        forall|k: int| i <= k < skip_whitespace(s, i) ==> is_whitespace(s[k]),
        skip_whitespace(s, i) < s.len() ==> !is_whitespace(s[skip_whitespace(s, i)]),
    decreases s.len() - i,
{
    if i < s.len() && is_whitespace(s[i]) {
        lemma_skip_whitespace(s, i + 1);
    }
}

proof fn lemma_drop_whitespace(s: Seq<char>, lo: int, hi: int)
    requires
        0 <= lo <= hi <= s.len(),
    ensures
        lo <= drop_whitespace(s, lo, hi) <= hi,
        forall|k: int| drop_whitespace(s, lo, hi) <= k < hi ==> is_whitespace(s[k]),
        lo < drop_whitespace(s, lo, hi) ==> !is_whitespace(s[drop_whitespace(s, lo, hi) - 1]),
    decreases hi,
{
    if lo < hi && is_whitespace(s[hi - 1]) {
        lemma_drop_whitespace(s, lo, hi - 1);
    }
}

} // verus!
