//! Text handling for the output of pointer probes: splitting, trimming,
//! prefixes, substrings and decimal integers.
use vstd::prelude::*;

verus! {

/// How a text is cut into pieces.
#[derive(Debug, Clone, Copy, PartialEq, Eq, Structural)]
pub enum Splitter {
    /// At each `,`; empty pieces are kept.
    Comma,
    /// At each `", "`, matched from the left; empty pieces are kept.
    CommaSpace,
    /// At each `=`; empty pieces are kept.
    Equals,
    /// At each line feed, a carriage return before it dropped too; empty lines are
    /// kept, but no empty last line.
    Lines,
    /// At runs of whitespace; no empty pieces.
    Whitespace,
}

/// Unicode whitespace (the `White_Space` property), as `char::is_whitespace` has it.
pub open spec fn is_space(c: char) -> bool {
    let u = c as u32;
    ||| u == 0x20
    ||| (0x09 <= u && u <= 0x0d)
    ||| u == 0x85
    ||| u == 0xa0
    ||| u == 0x1680
    ||| (0x2000 <= u && u <= 0x200a)
    ||| u == 0x2028
    ||| u == 0x2029
    ||| u == 0x202f
    ||| u == 0x205f
    ||| u == 0x3000
}

/// Whether `c` is whitespace.
pub fn is_space_char(c: char) -> (r: bool)
    ensures
        r == is_space(c),
{
    let u = c as u32;
    u == 0x20 || (0x09 <= u && u <= 0x0d) || u == 0x85 || u == 0xa0 || u == 0x1680 || (0x2000
        <= u && u <= 0x200a) || u == 0x2028 || u == 0x2029 || u == 0x202f || u == 0x205f || u
        == 0x3000
}

pub open spec fn is_separator(sp: Splitter, c: char) -> bool {
    match sp {
        Splitter::Comma => c == ',',
        Splitter::CommaSpace => false,
        Splitter::Equals => c == '=',
        Splitter::Lines => c == '\n',
        Splitter::Whitespace => is_space(c),
    }
}

/// `s` without one trailing carriage return.
pub open spec fn strip_cr(s: Seq<char>) -> Seq<char> {
    if s.len() > 0 && s.last() == '\r' {
        s.drop_last()
    } else {
        s
    }
}

/// The finished pieces and the piece in progress after reading `s`.
pub open spec fn split_state(sp: Splitter, s: Seq<char>) -> (Seq<Seq<char>>, Seq<char>)
    decreases s.len(),
{
    if s.len() == 0 {
        (Seq::empty(), Seq::empty())
    } else {
        let (done, cur) = split_state(sp, s.drop_last());
        let c = s.last();
        if sp == Splitter::CommaSpace {
            if c == ' ' && cur.len() > 0 && cur.last() == ',' {
                (done.push(cur.drop_last()), Seq::empty())
            } else {
                (done, cur.push(c))
            }
        } else if !is_separator(sp, c) {
            (done, cur.push(c))
        } else if sp == Splitter::Whitespace && cur.len() == 0 {
            (done, cur)
        } else if sp == Splitter::Lines {
            (done.push(strip_cr(cur)), Seq::empty())
        } else {
            (done.push(cur), Seq::empty())
        }
    }
}

/// The pieces of `s`.
pub open spec fn split_spec(sp: Splitter, s: Seq<char>) -> Seq<Seq<char>> {
    let (done, cur) = split_state(sp, s);
    if cur.len() == 0 && (sp == Splitter::Lines || sp == Splitter::Whitespace) {
        done
    } else {
        done.push(cur)
    }
}

/// Cuts `s` into pieces.
pub fn split_text(s: &[char], sp: Splitter) -> (r: Vec<Vec<char>>)
    ensures
        r@.len() == split_spec(sp, s@).len(),
        forall|i: int| 0 <= i < r@.len() ==> (#[trigger] r@[i])@ == split_spec(sp, s@)[i],
{
    let mut done: Vec<Vec<char>> = Vec::new();
    let mut cur: Vec<char> = Vec::new();
    let mut i: usize = 0;
    while i < s.len()
        invariant
            i <= s@.len(),
            done@.len() == split_state(sp, s@.take(i as int)).0.len(),
            forall|k: int|
                0 <= k < done@.len() ==> (#[trigger] done@[k])@ == split_state(
                    sp,
                    s@.take(i as int),
                ).0[k],
            cur@ == split_state(sp, s@.take(i as int)).1,
        decreases s@.len() - i,
    {
        let c = s[i];
        assert(s@.take(i as int + 1).drop_last() == s@.take(i as int));
        if matches!(sp, Splitter::CommaSpace) {
            if c == ' ' && cur.len() > 0 && cur[cur.len() - 1] == ',' {
                cur.pop();
                done.push(cur);
                cur = Vec::new();
            } else {
                cur.push(c);
            }
        } else {
            let sep = match sp {
                Splitter::Comma => c == ',',
                Splitter::CommaSpace => false,
                Splitter::Equals => c == '=',
                Splitter::Lines => c == '\n',
                Splitter::Whitespace => is_space_char(c),
            };
            if !sep {
                cur.push(c);
            } else if matches!(sp, Splitter::Whitespace) && cur.len() == 0 {
            } else {
                if matches!(sp, Splitter::Lines) && cur.len() > 0 && cur[cur.len() - 1] == '\r' {
                    cur.pop();
                }
                done.push(cur);
                cur = Vec::new();
            }
        }
        i += 1;
    }
    assert(s@.take(s@.len() as int) == s@);
    if cur.len() > 0 || !(matches!(sp, Splitter::Lines) || matches!(sp, Splitter::Whitespace)) {
        done.push(cur);
    }
    done
}

/// Index of the first character that is not whitespace, from `i` on.
pub open spec fn skip_space_from(s: Seq<char>, i: int) -> int
    decreases s.len() - i,
{
    if i >= s.len() || !is_space(s[i]) {
        i
    } else {
        skip_space_from(s, i + 1)
    }
}

/// One past the last character before `j` that is not whitespace, stopping at `lo`.
pub open spec fn trim_end_to(s: Seq<char>, lo: int, j: int) -> int
    decreases j - lo,
{
    if j <= lo || !is_space(s[j - 1]) {
        j
    } else {
        trim_end_to(s, lo, j - 1)
    }
}

/// `s` without leading and trailing whitespace.
pub open spec fn trim_spec(s: Seq<char>) -> Seq<char> {
    let lo = skip_space_from(s, 0);
    s.subrange(lo, trim_end_to(s, lo, s.len() as int))
}

/// `s` without leading and trailing whitespace.
pub fn trim_text(s: &[char]) -> (r: Vec<char>)
    ensures
        r@ == trim_spec(s@),
{
    let mut lo: usize = 0;
    while lo < s.len() && is_space_char(s[lo])
        invariant
            lo <= s@.len(),
            skip_space_from(s@, lo as int) == skip_space_from(s@, 0),
        decreases s@.len() - lo,
    {
        lo += 1;
    }
    let mut hi: usize = s.len();
    while hi > lo && is_space_char(s[hi - 1])
        invariant
            lo <= hi <= s@.len(),
            lo == skip_space_from(s@, 0),
            trim_end_to(s@, lo as int, hi as int) == trim_end_to(s@, lo as int, s@.len() as int),
        decreases hi - lo,
    {
        hi -= 1;
    }
    let mut r: Vec<char> = Vec::new();
    let mut k: usize = lo;
    while k < hi
        invariant
            lo <= k <= hi <= s@.len(),
            r@ == s@.subrange(lo as int, k as int),
        decreases hi - k,
    {
        r.push(s[k]);
        k += 1;
    }
    r
}

/// What follows `prefix` at the start of `s`, if `s` starts with it.
pub open spec fn after_prefix(s: Seq<char>, prefix: Seq<char>) -> Option<Seq<char>> {
    if prefix.len() <= s.len() && s.take(prefix.len() as int) == prefix {
        Some(s.skip(prefix.len() as int))
    } else {
        None
    }
}

/// What follows `prefix` at the start of `s`, if `s` starts with it.
pub fn strip_prefix_text(s: &[char], prefix: &[char]) -> (r: Option<Vec<char>>)
    ensures
        r matches Some(v) ==> after_prefix(s@, prefix@) == Some(v@),
        r is None ==> after_prefix(s@, prefix@) is None,
{
    if prefix.len() > s.len() {
        return None;
    }
    let mut i: usize = 0;
    while i < prefix.len()
        invariant
            i <= prefix@.len() <= s@.len(),
            forall|k: int| 0 <= k < i ==> s@[k] == prefix@[k],
        decreases prefix@.len() - i,
    {
        if s[i] != prefix[i] {
            assert(s@.take(prefix@.len() as int)[i as int] != prefix@[i as int]);
            return None;
        }
        i += 1;
    }
    assert(s@.take(prefix@.len() as int) =~= prefix@);
    let mut rest: Vec<char> = Vec::new();
    let mut k: usize = prefix.len();
    while k < s.len()
        invariant
            prefix@.len() <= k <= s@.len(),
            rest@ == s@.subrange(prefix@.len() as int, k as int),
        decreases s@.len() - k,
    {
        rest.push(s[k]);
        k += 1;
    }
    Some(rest)
}

/// Whether `pat` occurs in `s`.
pub open spec fn contains_spec(s: Seq<char>, pat: Seq<char>) -> bool {
    exists|i: int| 0 <= i && i + pat.len() <= s.len() && #[trigger] s.subrange(i, i + pat.len()) == pat
}

/// Whether `pat` occurs in `s`.
pub fn contains_text(s: &[char], pat: &[char]) -> (r: bool)
    ensures
        r == contains_spec(s@, pat@),
{
    if pat.len() > s.len() {
        return false;
    }
    let last: usize = s.len() - pat.len();
    let mut i: usize = 0;
    while i <= last
        invariant
            last + pat@.len() == s@.len(),
            s@.len() <= usize::MAX,
            i <= last + 1,
            forall|j: int| 0 <= j < i ==> #[trigger] s@.subrange(j, j + pat@.len()) != pat@,
        decreases last + 1 - i,
    {
        let mut k: usize = 0;
        let mut same = true;
        while k < pat.len()
            invariant
                i <= last,
                last + pat@.len() == s@.len(),
                s@.len() <= usize::MAX,
                k <= pat@.len(),
                same == forall|m: int| 0 <= m < k ==> s@[i + m] == pat@[m],
            decreases pat@.len() - k,
        {
            if s[i + k] != pat[k] {
                same = false;
            }
            k += 1;
        }
        if same {
            assert(s@.subrange(i as int, i + pat@.len()) =~= pat@);
            return true;
        }
        assert(s@.subrange(i as int, i + pat@.len()) != pat@) by {
            let m = choose|m: int| 0 <= m < pat@.len() && s@[i + m] != pat@[m];
            assert(s@.subrange(i as int, i + pat@.len())[m] != pat@[m]);
        }
        if i == last {
            return false;
        }
        i += 1;
    }
    false
}

pub open spec fn is_digit(c: char) -> bool {
    '0' <= c && c <= '9'
}

/// The value of a string of decimal digits.
pub open spec fn digits_value(s: Seq<char>) -> int
    decreases s.len(),
{
    if s.len() == 0 {
        0
    } else {
        digits_value(s.drop_last()) * 10 + (s.last() as int - '0' as int)
    }
}

pub open spec fn all_digits(s: Seq<char>) -> bool {
    forall|i: int| 0 <= i < s.len() ==> is_digit(#[trigger] s[i])
}

/// Whether `s` starts with a sign.
pub open spec fn has_sign(s: Seq<char>) -> bool {
    s.len() > 0 && (s[0] == '-' || s[0] == '+')
}

/// `s` without its sign.
pub open spec fn unsigned_part(s: Seq<char>) -> Seq<char> {
    if has_sign(s) {
        s.skip(1)
    } else {
        s
    }
}

/// What parsing a decimal `i32` gives: an optional `+` or `-`, then at least one
/// digit and nothing else, with a value inside the type's range.
pub open spec fn parse_i32_spec(s: Seq<char>) -> Option<i32> {
    let body = unsigned_part(s);
    let v = if s.len() > 0 && s[0] == '-' {
        -digits_value(body)
    } else {
        digits_value(body)
    };
    if body.len() > 0 && all_digits(body) && i32::MIN <= v <= i32::MAX {
        Some(v as i32)
    } else {
        None
    }
}

proof fn lemma_digits_value_nonneg(s: Seq<char>)
    requires
        forall|i: int| 0 <= i < s.len() ==> is_digit(#[trigger] s[i]),
    ensures
        digits_value(s) >= 0,
    decreases s.len(),
{
    if s.len() > 0 {
        lemma_digits_value_nonneg(s.drop_last());
    }
}

proof fn lemma_digits_value_monotone(s: Seq<char>, n: int)
    requires
        0 <= n <= s.len(),
        forall|i: int| 0 <= i < s.len() ==> is_digit(#[trigger] s[i]),
    ensures
        digits_value(s.take(n)) <= digits_value(s),
    decreases s.len() - n,
{
    if n < s.len() {
        assert(s.drop_last().take(n) == s.take(n));
        lemma_digits_value_monotone(s.drop_last(), n);
        lemma_digits_value_nonneg(s.drop_last());
    } else {
        assert(s.take(n) == s);
    }
}

/// Parses a decimal `i32`.
pub fn parse_i32(s: &[char]) -> (r: Option<i32>)
    ensures
        r == parse_i32_spec(s@),
{
    let neg = s.len() > 0 && s[0] == '-';
    let signed = s.len() > 0 && (s[0] == '-' || s[0] == '+');
    let start: usize = if signed {
        1
    } else {
        0
    };
    let ghost body = unsigned_part(s@);
    assert(s@.skip(0) =~= s@);
    assert(body == s@.skip(start as int));
    if start >= s.len() {
        return None;
    }
    let limit: i64 = 2147483648;
    let mut acc: i64 = 0;
    let mut i: usize = start;
    while i < s.len()
        invariant
            start <= i <= s@.len(),
            body == s@.skip(start as int),
            body == unsigned_part(s@),
            limit == 2147483648,
            0 <= acc <= limit,
            acc == digits_value(body.take(i - start)),
            forall|k: int| 0 <= k < i - start ==> is_digit(#[trigger] body[k]),
        decreases s@.len() - i,
    {
        let c = s[i];
        if c < '0' || c > '9' {
            assert(!is_digit(body[i - start]));
            assert(!all_digits(body));
            return None;
        }
        assert(body.take(i - start + 1).drop_last() == body.take(i - start));
        assert(acc * 10 <= limit * 10) by (nonlinear_arith)
            requires
                0 <= acc <= limit,
        ;
        let next: i64 = acc * 10 + (c as u32 - '0' as u32) as i64;
        if next > limit {
            proof {
                assert(forall|k: int| 0 <= k < i - start + 1 ==> is_digit(#[trigger] body[k]));
                if all_digits(body) {
                    lemma_digits_value_monotone(body, i - start + 1);
                }
            }
            return None;
        }
        acc = next;
        i += 1;
    }
    assert(body.take(s@.len() - start) == body);
    if neg {
        Some((-acc) as i32)
    } else if acc <= 2147483647 {
        Some(acc as i32)
    } else {
        None
    }
}

} // verus!
