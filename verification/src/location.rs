//! Source locations and their compact textual form.
//!
//! The external compiler writes a node's location as `"start:length:index"`,
//! where each component is a decimal integer and a negative component (such
//! as `-1`) stands for "unknown". Parsing turns that string into a
//! [`SourceLocation`]; formatting writes the canonical form back, with `-1`
//! for every unknown component.

use vstd::prelude::*;

verus! {

/// A byte range inside one source unit. Each component may be unknown,
/// which the textual form writes as a negative number.
#[derive(Debug, Clone, Copy, PartialEq, Eq)]
pub struct SourceLocation {
    /// Byte offset of the first byte, if known.
    pub start: Option<usize>,
    /// Length in bytes, if known.
    pub length: Option<usize>,
    /// Index of the source unit the range lies in, if known.
    pub index: Option<usize>,
}

/// Whether `c` is a decimal digit.
pub open spec fn is_digit(c: char) -> bool {
    '0' as int <= c as int <= '9' as int
}

/// The numeric value of the digit `c`.
pub open spec fn digit_val(c: char) -> int {
    c as int - '0' as int
}

/// Whether every character of `s` is a decimal digit.
pub open spec fn all_digits(s: Seq<char>) -> bool {
    forall|k: int| 0 <= k < s.len() ==> is_digit(#[trigger] s[k])
}

/// The number that the digit string `s` denotes, most significant digit first.
pub open spec fn digits_value(s: Seq<char>) -> int
    decreases s.len(),
{
    if s.len() == 0 {
        0
    } else {
        digits_value(s.drop_last()) * 10 + digit_val(s.last())
    }
}

/// The position of the first `':'` in `s` at or after `from`, or `s.len()`
/// if there is none.
pub open spec fn colon_from(s: Seq<char>, from: int) -> int
    decreases s.len() - from,
{
    if from < 0 || from >= s.len() {
        s.len() as int
    } else if s[from] == ':' {
        from
    } else {
        colon_from(s, from + 1)
    }
}

/// The value of one location component: `None` when the component is not a
/// well-formed integer token (or its value does not fit in `usize`),
/// `Some(None)` when it is negative ("unknown"), and `Some(Some(n))`
/// otherwise.
pub open spec fn spec_parse_component(s: Seq<char>) -> Option<Option<usize>> {
    if s.len() == 0 {
        None
    } else if s[0] == '-' {
        if s.len() >= 2 && all_digits(s.drop_first()) {
            Some(None)
        } else {
            None
        }
    } else if all_digits(s) && digits_value(s) <= usize::MAX {
        Some(Some(digits_value(s) as usize))
    } else {
        None
    }
}

/// The location a string denotes: `Some` exactly when the string consists of
/// three well-formed components separated by two `':'` characters.
pub open spec fn spec_parse_location(s: Seq<char>) -> Option<SourceLocation> {
    let i = colon_from(s, 0);
    let j = colon_from(s, i + 1);
    if i < s.len() && j < s.len() && colon_from(s, j + 1) == s.len() {
        match (
            spec_parse_component(s.subrange(0, i)),
            spec_parse_component(s.subrange(i + 1, j)),
            spec_parse_component(s.subrange(j + 1, s.len() as int)),
        ) {
            (Some(start), Some(length), Some(index)) => Some(
                SourceLocation { start, length, index },
            ),
            _ => None,
        }
    } else {
        None
    }
}

/// The digit character for the value `d`, which must lie in `0 ..= 9`.
pub open spec fn digit_char(d: int) -> char {
    if d == 0 {
        '0'
    } else if d == 1 {
        '1'
    } else if d == 2 {
        '2'
    } else if d == 3 {
        '3'
    } else if d == 4 {
        '4'
    } else if d == 5 {
        '5'
    } else if d == 6 {
        '6'
    } else if d == 7 {
        '7'
    } else if d == 8 {
        '8'
    } else {
        '9'
    }
}

/// The decimal digit string of the non-negative number `n`, without leading
/// zeros (except for `n == 0` itself).
pub open spec fn dec_digits(n: int) -> Seq<char>
    decreases n,
{
    if n <= 9 {
        seq![digit_char(n)]
    } else {
        dec_digits(n / 10) + seq![digit_char(n % 10)]
    }
}

/// The canonical textual form of one component: its decimal digits when
/// known, `-1` when unknown.
pub open spec fn component_chars(c: Option<usize>) -> Seq<char> {
    match c {
        Some(n) => dec_digits(n as int),
        None => seq!['-', '1'],
    }
}

/// The canonical textual form `"start:length:index"` of a location.
pub open spec fn location_chars(loc: SourceLocation) -> Seq<char> {
    component_chars(loc.start) + seq![':'] + component_chars(loc.length) + seq![':']
        + component_chars(loc.index)
}

/// Every digit string denotes a non-negative number.
pub proof fn lemma_digits_value_nonneg(s: Seq<char>)
    requires
        all_digits(s),
    ensures
        digits_value(s) >= 0,
    decreases s.len(),
{
    if s.len() > 0 {
        assert(all_digits(s.drop_last())) by {
            assert(forall|k: int| 0 <= k < s.len() - 1 ==> s.drop_last()[k] == s[k]);
        }
        lemma_digits_value_nonneg(s.drop_last());
    }
}

/// Reading more digits never makes the denoted number smaller.
pub proof fn lemma_digits_prefix_mono(s: Seq<char>, m: int, n: int)
    requires
        all_digits(s),
        0 <= m <= n <= s.len(),
    ensures
        digits_value(s.take(m)) <= digits_value(s.take(n)),
    decreases n - m,
{
    if m < n {
        lemma_digits_prefix_mono(s, m, n - 1);
        let t = s.take(n);
        assert(t.drop_last() =~= s.take(n - 1));
        assert(all_digits(s.take(n - 1))) by {
            assert(forall|k: int| 0 <= k < n - 1 ==> s.take(n - 1)[k] == s[k]);
        }
        lemma_digits_value_nonneg(s.take(n - 1));
        assert(is_digit(t.last()));
    }
}

/// Parse one location component, exactly as [`spec_parse_component`] says.
pub fn parse_component(cs: &str) -> (r: Option<Option<usize>>)
    ensures
        r == spec_parse_component(cs@),
{
    let n = cs.unicode_len();
    if n == 0 {
        return None;
    }
    if cs.get_char(0) == '-' {
        if n < 2 {
            return None;
        }
        let mut i: usize = 1;
        while i < n
            invariant
                1 <= i <= n,
                n == cs@.len(),
                cs@[0] == '-',
                forall|k: int| 1 <= k < i ==> is_digit(#[trigger] cs@[k]),
            decreases n - i,
        {
            let c = cs.get_char(i);
            let cu = c as u32;
            if cu < 48 || cu > 57 {
                proof {
                    assert(!is_digit(cs@.drop_first()[i - 1]));
                }
                return None;
            }
            i += 1;
        }
        proof {
            assert(all_digits(cs@.drop_first())) by {
                assert(forall|k: int| 0 <= k < cs@.len() - 1 ==> cs@.drop_first()[k] == cs@[k + 1]);
            }
        }
        Some(None)
    } else {
        let mut val: usize = 0;
        let mut i: usize = 0;
        while i < n
            invariant
                0 <= i <= n,
                n == cs@.len(),
                n > 0,
                cs@[0] != '-',
                forall|k: int| 0 <= k < i ==> is_digit(#[trigger] cs@[k]),
                val == digits_value(cs@.take(i as int)),
            decreases n - i,
        {
            let c = cs.get_char(i);
            let cu = c as u32;
            if cu < 48 || cu > 57 {
                proof {
                    assert(!is_digit(cs@[i as int]));
                }
                return None;
            }
            let d = (cu - 48) as usize;
            proof {
                assert(cs@.take(i + 1).drop_last() =~= cs@.take(i as int));
                assert(cs@.take(i + 1).last() == cs@[i as int]);
            }
            let next = match val.checked_mul(10) {
                Some(v10) => v10.checked_add(d),
                None => None,
            };
            match next {
                Some(v) => {
                    val = v;
                },
                None => {
                    // The prefix read so far already exceeds `usize::MAX`,
                    // so the whole component does too.
                    proof {
                        if all_digits(cs@) && digits_value(cs@) <= usize::MAX {
                            assert(digits_value(cs@.take(i + 1)) > usize::MAX);
                            lemma_digits_prefix_mono(cs@, i + 1, n as int);
                            assert(cs@.take(n as int) =~= cs@);
                        }
                    }
                    return None;
                },
            }
            i += 1;
        }
        proof {
            assert(cs@.take(n as int) =~= cs@);
        }
        Some(Some(val))
    }
}

/// Parse a `"start:length:index"` string, exactly as
/// [`spec_parse_location`] says.
pub fn parse_location(s: &str) -> (r: Option<SourceLocation>)
    ensures
        r == spec_parse_location(s@),
{
    let n = s.unicode_len();
    let i = find_colon(s, 0);
    if i == n {
        return None;
    }
    let j = find_colon(s, i + 1);
    if j == n {
        return None;
    }
    let k = find_colon(s, j + 1);
    if k != n {
        return None;
    }
    let c_start = parse_component(s.substring_char(0, i));
    let c_length = parse_component(s.substring_char(i + 1, j));
    let c_index = parse_component(s.substring_char(j + 1, n));
    match (c_start, c_length, c_index) {
        (Some(start), Some(length), Some(index)) => Some(SourceLocation { start, length, index }),
        _ => None,
    }
}

/// The digit character of the value `d`, as a one-character string.
fn digit_str(d: usize) -> (r: &'static str)
    requires
        d <= 9,
    ensures
        r@ =~= seq![digit_char(d as int)],
{
    proof {
        reveal_strlit("0");
        reveal_strlit("1");
        reveal_strlit("2");
        reveal_strlit("3");
        reveal_strlit("4");
        reveal_strlit("5");
        reveal_strlit("6");
        reveal_strlit("7");
        reveal_strlit("8");
        reveal_strlit("9");
    }
    match d {
        0 => "0",
        1 => "1",
        2 => "2",
        3 => "3",
        4 => "4",
        5 => "5",
        6 => "6",
        7 => "7",
        8 => "8",
        _ => "9",
    }
}

/// Write `n` in decimal, most significant digit first.
pub fn format_number(n: usize) -> (r: String)
    ensures
        r@ == dec_digits(n as int),
    decreases n,
{
    if n <= 9 {
        digit_str(n).to_owned()
    } else {
        let mut s = format_number(n / 10);
        s.append(digit_str(n % 10));
        s
    }
}

/// Write one component: its decimal value when known, `-1` when unknown.
pub fn format_component(c: &Option<usize>) -> (r: String)
    ensures
        r@ == component_chars(*c),
{
    match c {
        Some(n) => format_number(*n),
        None => {
            proof {
                reveal_strlit("-1");
            }
            "-1".to_owned()
        },
    }
}

/// Write a location in its canonical `"start:length:index"` form.
pub fn format_location(loc: &SourceLocation) -> (r: String)
    ensures
        r@ == location_chars(*loc),
{
    proof {
        reveal_strlit(":");
    }
    let mut s = format_component(&loc.start);
    s.append(":");
    let b = format_component(&loc.length);
    s.append(b.as_str());
    s.append(":");
    let c = format_component(&loc.index);
    s.append(c.as_str());
    s
}

/// The decimal form of a number consists of digits and denotes that number.
pub proof fn lemma_dec_digits_wf(n: int)
    requires
        n >= 0,
    ensures
        all_digits(dec_digits(n)),
        digits_value(dec_digits(n)) == n,
        dec_digits(n).len() >= 1,
        dec_digits(n)[0] != '-',
    decreases n,
{
    if n <= 9 {
        let s0 = seq![digit_char(n)];
        assert(dec_digits(n) =~= s0);
        assert(is_digit(digit_char(n)));
        assert(s0.drop_last() =~= Seq::<char>::empty());
        assert(digits_value(Seq::<char>::empty()) == 0);
        assert(digits_value(s0) == digit_val(digit_char(n)));
        assert(digit_val(digit_char(n)) == n);
    } else {
        lemma_dec_digits_wf(n / 10);
        let s = dec_digits(n);
        let p = dec_digits(n / 10);
        assert(s == p + seq![digit_char(n % 10)]);
        assert(s.drop_last() =~= p);
        assert(s.last() == digit_char(n % 10));
        assert(is_digit(digit_char(n % 10)));
        assert(all_digits(s)) by {
            assert(forall|k: int| 0 <= k < s.len() - 1 ==> s[k] == p[k]);
        }
        assert(digits_value(s) == (n / 10) * 10 + (n % 10));
    }
}

/// The canonical form of one component parses back to that component and
/// contains no `':'`.
pub proof fn lemma_component_roundtrip(c: Option<usize>)
    ensures
        spec_parse_component(component_chars(c)) == Some(c),
        component_chars(c).len() >= 1,
        forall|k: int|
            0 <= k < component_chars(c).len() ==> #[trigger] component_chars(c)[k] != ':',
{
    let s = component_chars(c);
    match c {
        Some(n) => {
            lemma_dec_digits_wf(n as int);
            assert(forall|k: int| 0 <= k < s.len() ==> #[trigger] s[k] != ':') by {
                assert(forall|k: int|
                    0 <= k < s.len() ==> is_digit(#[trigger] s[k]) && s[k] != ':');
            }
            assert(!is_digit('-'));
            assert(s[0] != '-');
        },
        None => {
            assert(s =~= seq!['-', '1']);
            assert(s[0] == '-');
            assert(s.drop_first() =~= seq!['1']);
            assert(all_digits(s.drop_first()));
            assert(s[0] != ':' && s[1] != ':');
        },
    }
}

/// If no `':'` stands in `[from, j)` and `j` is the length of `s` or holds
/// a `':'`, then the first `':'` at or after `from` is at `j`.
pub proof fn lemma_colon_from_range(s: Seq<char>, from: int, j: int)
    requires
        0 <= from <= j <= s.len(),
        forall|k: int| from <= k < j ==> #[trigger] s[k] != ':',
        j == s.len() || s[j] == ':',
    ensures
        colon_from(s, from) == j,
    decreases j - from,
{
    if from < j {
        lemma_colon_from_range(s, from + 1, j);
    }
}

/// Formatting a location and parsing the result gives the location back.
pub proof fn lemma_location_roundtrip(loc: SourceLocation)
    ensures
        spec_parse_location(location_chars(loc)) == Some(loc),
{
    let a = component_chars(loc.start);
    let b = component_chars(loc.length);
    let c = component_chars(loc.index);
    let s = location_chars(loc);
    lemma_component_roundtrip(loc.start);
    lemma_component_roundtrip(loc.length);
    lemma_component_roundtrip(loc.index);
    let i = a.len() as int;
    let j: int = a.len() as int + 1 + b.len() as int;
    assert(s.len() == a.len() + b.len() + c.len() + 2);
    assert(forall|k: int| 0 <= k < i ==> #[trigger] s[k] == a[k]);
    assert(s[i] == ':');
    assert(forall|k: int| i + 1 <= k < j ==> #[trigger] s[k] == b[k - i - 1]);
    assert(s[j] == ':');
    assert(forall|k: int| j + 1 <= k < s.len() ==> #[trigger] s[k] == c[k - j - 1]);
    lemma_colon_from_range(s, 0, i);
    lemma_colon_from_range(s, i + 1, j);
    lemma_colon_from_range(s, j + 1, s.len() as int);
    assert(s.subrange(0, i) =~= a);
    assert(s.subrange(i + 1, j) =~= b);
    assert(s.subrange(j + 1, s.len() as int) =~= c);
}

/// The position of the first `':'` at or after `from`, or the length of `s`.
fn find_colon(s: &str, from: usize) -> (r: usize)
    requires
        from <= s@.len(),
    ensures
        r == colon_from(s@, from as int),
        from <= r <= s@.len(),
{
    let n = s.unicode_len();
    let mut i: usize = from;
    while i < n
        invariant
            from <= i <= n,
            n == s@.len(),
            colon_from(s@, from as int) == colon_from(s@, i as int),
        decreases n - i,
    {
        if s.get_char(i) == ':' {
            return i;
        }
        i += 1;
    }
    n
}

} // verus!
