//! Text as sequences of characters: white space, trimming, decimals, padding
//! and truncation to a width.

use vstd::prelude::*;

verus! {

/// Whether `c` is white space (Unicode's `White_Space` property).
pub open spec fn is_space(c: char) -> bool {
    let n = c as u32;
    (0x09 <= n && n <= 0x0D) || n == 0x20 || n == 0x85 || n == 0xA0 || n == 0x1680 || (0x2000 <= n
        && n <= 0x200A) || n == 0x2028 || n == 0x2029 || n == 0x202F || n == 0x205F || n == 0x3000
}

/// Tests a character for white space.
pub fn is_whitespace(c: char) -> (r: bool)
    ensures
        r == is_space(c),
{
    let n: u32 = c as u32;
    (0x09 <= n && n <= 0x0D) || n == 0x20 || n == 0x85 || n == 0xA0 || n == 0x1680 || (0x2000 <= n
        && n <= 0x200A) || n == 0x2028 || n == 0x2029 || n == 0x202F || n == 0x205F || n == 0x3000
}

/// The length of `s` without its trailing white space.
pub open spec fn trimmed_len(s: Seq<char>) -> nat
    decreases s.len(),
{
    if s.len() > 0 && is_space(s.last()) {
        trimmed_len(s.drop_last())
    } else {
        s.len()
    }
}

/// `s` without its trailing white space.
pub open spec fn trim_end(s: Seq<char>) -> Seq<char> {
    s.take(trimmed_len(s) as int)
}

/// What `trimmed_len` cuts: it stops at the last character that is no white
/// space, and everything behind it is white space.
pub proof fn lemma_trimmed_len(s: Seq<char>)
    ensures
        trimmed_len(s) <= s.len(),
        trimmed_len(s) > 0 ==> !is_space(s[trimmed_len(s) - 1]),
        forall|i: int| trimmed_len(s) <= i < s.len() ==> is_space(#[trigger] s[i]),
    decreases s.len(),
{
    if s.len() > 0 && is_space(s.last()) {
        let t = s.drop_last();
        lemma_trimmed_len(t);
        assert forall|i: int| trimmed_len(s) <= i < s.len() implies is_space(#[trigger] s[i]) by {
            if i < t.len() {
                assert(s[i] == t[i]);
            }
        }
    }
}

/// Removes trailing white space: what is left is the beginning of `s` up to
/// its last character that is no white space.
pub fn trim_trailing(s: &str) -> (r: String)
    ensures
        r@ == trim_end(s@),
        r@.len() <= s@.len(),
        r@ == s@.take(r@.len() as int),
        r@.len() > 0 ==> !is_space(r@.last()),
        forall|i: int| r@.len() <= i < s@.len() ==> is_space(#[trigger] s@[i]),
{
    proof {
        lemma_trimmed_len(s@);
    }
    let mut n: usize = s.unicode_len();
    proof {
        assert(s@.take(n as int) =~= s@);
    }
    while n > 0 && is_whitespace(s.get_char(n - 1))
        invariant
            n <= s@.len(),
            trimmed_len(s@) == trimmed_len(s@.take(n as int)),
        decreases n,
    {
        proof {
            assert(s@.take(n as int).drop_last() =~= s@.take(n - 1));
        }
        n -= 1;
    }
    proof {
        assert(s@.take(n as int).len() == n);
        if n > 0 {
            assert(s@.take(n as int).last() == s@[n - 1]);
        }
    }
    String::from_str(s.substring_char(0, n))
}

/// `s` without its leading white space.
pub open spec fn skip_spaces(s: Seq<char>) -> Seq<char>
    decreases s.len(),
{
    if s.len() > 0 && is_space(s[0]) {
        skip_spaces(s.drop_first())
    } else {
        s
    }
}

/// `s` without white space at either end.
pub open spec fn trim(s: Seq<char>) -> Seq<char> {
    skip_spaces(trim_end(s))
}

/// Removes white space at both ends.
pub fn trim_both(s: &str) -> (r: String)
    ensures
        r@ == trim(s@),
{
    let mut n: usize = s.unicode_len();
    proof {
        assert(s@.take(n as int) =~= s@);
    }
    while n > 0 && is_whitespace(s.get_char(n - 1))
        invariant
            n <= s@.len(),
            trimmed_len(s@) == trimmed_len(s@.take(n as int)),
        decreases n,
    {
        proof {
            assert(s@.take(n as int).drop_last() =~= s@.take(n - 1));
        }
        n -= 1;
    }
    proof {
        assert(s@.take(n as int).len() == n);
        if n > 0 {
            assert(s@.take(n as int).last() == s@[n - 1]);
        }
    }
    let ghost body = s@.take(n as int);
    let mut i: usize = 0;
    proof {
        assert(body.skip(0) =~= body);
    }
    while i < n && is_whitespace(s.get_char(i))
        invariant
            i <= n <= s@.len(),
            body == s@.take(n as int),
            skip_spaces(body) == skip_spaces(body.skip(i as int)),
        decreases n - i,
    {
        proof {
            assert(body.skip(i as int)[0] == s@[i as int]);
            assert(body.skip(i as int).drop_first() =~= body.skip(i + 1));
        }
        i += 1;
    }
    proof {
        if i < n {
            assert(body.skip(i as int)[0] == s@[i as int]);
        }
        assert(body.skip(i as int) =~= s@.subrange(i as int, n as int));
    }
    String::from_str(s.substring_char(i, n))
}

/// Whether `s` begins with `p`.
pub open spec fn starts_with(s: Seq<char>, p: Seq<char>) -> bool {
    p.len() <= s.len() && s.take(p.len() as int) == p
}

/// Tests whether `s` begins with `p`.
pub fn has_prefix(s: &str, p: &str) -> (r: bool)
    ensures
        r == starts_with(s@, p@),
{
    let n: usize = p.unicode_len();
    if n > s.unicode_len() {
        return false;
    }
    let head = String::from_str(s.substring_char(0, n));
    let want = String::from_str(p);
    head == want
}

/// The character of a decimal digit.
pub open spec fn digit_char(d: nat) -> char {
    if d == 0 {
        '0'
    } else if d == 1 {
        '1'
    } else if d == 2 {
        '2'
    } else if d == 3 {
        '3'
    } else if d == 4 {
        '4'
    } else if d == 5 {
        '5'
    } else if d == 6 {
        '6'
    } else if d == 7 {
        '7'
    } else if d == 8 {
        '8'
    } else {
        '9'
    }
}

/// The decimal digits of `n`, most significant first, without leading zeros.
pub open spec fn decimal(n: nat) -> Seq<char>
    decreases n,
{
    if n < 10 {
        seq![digit_char(n)]
    } else {
        decimal(n / 10).push(digit_char(n % 10))
    }
}

fn digit_str(d: u64) -> (r: &'static str)
    requires
        d < 10,
    ensures
        r@ == seq![digit_char(d as nat)],
{
    proof {
        reveal_strlit("0");
        reveal_strlit("1");
        reveal_strlit("2");
        reveal_strlit("3");
        reveal_strlit("4");
        reveal_strlit("5");
        reveal_strlit("6");
        reveal_strlit("7");
        reveal_strlit("8");
        reveal_strlit("9");
    }
    let r = if d == 0 {
        "0"
    } else if d == 1 {
        "1"
    } else if d == 2 {
        "2"
    } else if d == 3 {
        "3"
    } else if d == 4 {
        "4"
    } else if d == 5 {
        "5"
    } else if d == 6 {
        "6"
    } else if d == 7 {
        "7"
    } else if d == 8 {
        "8"
    } else {
        "9"
    };
    assert(r@ =~= seq![digit_char(d as nat)]);
    r
}

/// Writes `n` in decimal.
pub fn decimal_string(n: u64) -> (r: String)
    ensures
        r@ == decimal(n as nat),
    decreases n,
{
    if n < 10 {
        String::from_str(digit_str(n))
    } else {
        let mut s = decimal_string(n / 10);
        s.append(digit_str(n % 10));
        assert(s@ =~= decimal(n as nat));
        s
    }
}

/// `n` blanks.
pub open spec fn blanks(n: nat) -> Seq<char> {
    Seq::new(n, |i: int| ' ')
}

/// A string of `n` blanks.
pub fn blank_string(n: usize) -> (r: String)
    ensures
        r@ == blanks(n as nat),
{
    let mut s = String::new();
    let mut i: usize = 0;
    proof {
        reveal_strlit(" ");
        assert(s@ =~= blanks(0));
    }
    while i < n
        invariant
            i <= n,
            s@ == blanks(i as nat),
            " "@ == seq![' '],
        decreases n - i,
    {
        s.append(" ");
        i += 1;
        assert(s@ =~= blanks(i as nat));
    }
    s
}

/// The character that marks a cut.
pub open spec fn ellipsis() -> char {
    '…'
}

/// `s` cut to at most `width` characters: unchanged where it fits, else its
/// first `width - 1` characters and an ellipsis (nothing at width 0).
pub open spec fn truncated(s: Seq<char>, width: nat) -> Seq<char> {
    if s.len() <= width {
        s
    } else if width == 0 {
        Seq::empty()
    } else {
        s.take(width - 1).push(ellipsis())
    }
}

/// Cuts `s` to at most `width` characters, marking a cut with an ellipsis.
pub fn truncate(s: &str, width: usize) -> (r: String)
    ensures
        r@ == truncated(s@, width as nat),
{
    let n: usize = s.unicode_len();
    if n <= width {
        String::from_str(s)
    } else if width == 0 {
        String::new()
    } else {
        let mut r = String::from_str(s.substring_char(0, width - 1));
        proof {
            reveal_strlit("…");
            assert("…"@ =~= seq![ellipsis()]);
        }
        r.append("…");
        assert(r@ =~= truncated(s@, width as nat));
        r
    }
}

/// A text longer than the width is cut to exactly the width and ends in an
/// ellipsis; what stands before the ellipsis is the text's own beginning.
pub proof fn lemma_truncated_fills_width(s: Seq<char>, width: nat)
    requires
        s.len() > width,
        width >= 1,
    ensures
        truncated(s, width).len() == width,
        truncated(s, width).last() == ellipsis(),
        truncated(s, width).drop_last() == s.take(width - 1),
{
    assert(truncated(s, width).drop_last() =~= s.take(width - 1));
}

/// The last physical line of `s` on a terminal of `columns` columns: the
/// `s.len() % columns` characters that follow the last full row.
pub open spec fn last_row(s: Seq<char>, columns: nat) -> Seq<char>
    recommends
        columns >= 1,
{
    s.skip(s.len() - s.len() % columns)
}

/// Takes the last physical line of `s`.
pub fn last_physical_line(s: &str, columns: usize) -> (r: String)
    requires
        columns >= 1,
    ensures
        r@ == last_row(s@, columns as nat),
{
    let n: usize = s.unicode_len();
    let rest: usize = n % columns;
    assert(rest <= n) by (nonlinear_arith)
        requires
            rest == n % columns,
            columns >= 1,
    ;
    String::from_str(s.substring_char(n - rest, n))
}

} // verus!
