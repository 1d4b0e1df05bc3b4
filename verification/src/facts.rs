use vstd::prelude::*;

verus! {

/// Whether `c` has the Unicode `White_Space` property, which is what
/// `char::is_whitespace` tests and what `str::split_whitespace` splits at.
pub open spec fn is_white_space(c: char) -> bool {
    let u = c as u32;
    ||| 0x09 <= u <= 0x0d
    ||| u == 0x20
    ||| u == 0x85
    ||| u == 0xa0
    ||| u == 0x1680
    ||| 0x2000 <= u <= 0x200a
    ||| u == 0x2028
    ||| u == 0x2029
    ||| u == 0x202f
    ||| u == 0x205f
    ||| u == 0x3000
}

/// The first position at or after `i` that does not hold white space
/// (the length of `s` where there is none).
pub open spec fn skip_white_space(s: Seq<char>, i: int) -> int
    decreases s.len() - i,
{
    if 0 <= i < s.len() && is_white_space(s[i]) {
        skip_white_space(s, i + 1)
    } else {
        i
    }
}

/// The end of the token that starts at `i`: the first position at or after `i`
/// that holds white space (the length of `s` where there is none).
pub open spec fn token_end(s: Seq<char>, i: int) -> int
    decreases s.len() - i,
{
    if 0 <= i < s.len() && !is_white_space(s[i]) {
        token_end(s, i + 1)
    } else {
        i
    }
}

pub open spec fn is_decimal_digit(c: char) -> bool {
    '0' <= c <= '9'
}

/// The number that the decimal digits `d` write.
pub open spec fn decimal_value(d: Seq<char>) -> nat
    decreases d.len(),
{
    if d.len() == 0 {
        0
    } else {
        decimal_value(d.drop_last()) * 10 + ((d.last() as nat) - ('0' as nat)) as nat
    }
}

/// The value of the run of decimal digits `d`, where it is one and fits in a `u32`.
pub open spec fn digits_u32(d: Seq<char>) -> Option<u32> {
    if d.len() > 0 && (forall|i: int| 0 <= i < d.len() ==> is_decimal_digit(#[trigger] d[i]))
        && decimal_value(d) <= u32::MAX {
        Some(decimal_value(d) as u32)
    } else {
        None
    }
}

/// What `str::parse::<u32>` gives for the token `t`: an optional `+`, then at least
/// one decimal digit and nothing else, whose value fits in a `u32`.
pub open spec fn parse_u32_spec(t: Seq<char>) -> Option<u32> {
    if t.len() > 0 && t[0] == '+' {
        digits_u32(t.drop_first())
    } else {
        digits_u32(t)
    }
}

/// A row of a fact file: its first two whitespace-separated tokens, each read as
/// a `u32`; `None` where the row has fewer than two tokens or one of them is not
/// a `u32`. Further tokens are ignored.
pub open spec fn fact_row_spec(s: Seq<char>) -> Option<(u32, u32)> {
    let a = skip_white_space(s, 0);
    let b = token_end(s, a);
    let c = skip_white_space(s, b);
    let d = token_end(s, c);
    if a >= s.len() || c >= s.len() {
        None
    } else {
        match (parse_u32_spec(s.subrange(a, b)), parse_u32_spec(s.subrange(c, d))) {
            (Some(x), Some(y)) => Some((x, y)),
            _ => None,
        }
    }
}

fn is_white_space_char(c: char) -> (r: bool)
    ensures
        r == is_white_space(c),
{
    let u: u32 = c as u32;
    (0x09 <= u && u <= 0x0d) || u == 0x20 || u == 0x85 || u == 0xa0 || u == 0x1680 || (0x2000 <= u
        && u <= 0x200a) || u == 0x2028 || u == 0x2029 || u == 0x202f || u == 0x205f || u == 0x3000
}

fn skip_white_space_at(cs: &Vec<char>, start: usize) -> (r: usize)
    requires
        start <= cs@.len(),
    ensures
        r == skip_white_space(cs@, start as int),
        start <= r <= cs@.len(),
{
    let mut i: usize = start;
    while i < cs.len() && is_white_space_char(cs[i])
        invariant
            start <= i <= cs@.len(),
            skip_white_space(cs@, i as int) == skip_white_space(cs@, start as int),
        decreases cs@.len() - i,
    {
        i = i + 1;
    }
    i
}

fn token_end_at(cs: &Vec<char>, start: usize) -> (r: usize)
    requires
        start <= cs@.len(),
    ensures
        r == token_end(cs@, start as int),
        start <= r <= cs@.len(),
{
    let mut i: usize = start;
    while i < cs.len() && !is_white_space_char(cs[i])
        invariant
            start <= i <= cs@.len(),
            token_end(cs@, i as int) == token_end(cs@, start as int),
        decreases cs@.len() - i,
    {
        i = i + 1;
    }
    i
}

/// A longer run of digits writes a number at least as large.
proof fn lemma_decimal_value_grows(d: Seq<char>, k: int)
    requires
        0 <= k <= d.len(),
        forall|i: int| 0 <= i < d.len() ==> is_decimal_digit(#[trigger] d[i]),
    ensures
        decimal_value(d.take(k)) <= decimal_value(d),
    decreases d.len(),
{
    if k < d.len() {
        assert(d.drop_last().take(k) =~= d.take(k));
        lemma_decimal_value_grows(d.drop_last(), k);
    } else {
        assert(d.take(k) =~= d);
    }
}

/// Reads the token `cs[start..end]` as `str::parse::<u32>` does.
fn parse_u32_token(cs: &Vec<char>, start: usize, end: usize) -> (r: Option<u32>)
    requires
        start <= end <= cs@.len(),
    ensures
        r == parse_u32_spec(cs@.subrange(start as int, end as int)),
{
    let ghost t = cs@.subrange(start as int, end as int);
    let mut i: usize = start;
    if i < end && cs[i] == '+' {
        i = i + 1;
    }
    let ghost d = cs@.subrange(i as int, end as int);
    assert(d =~= if t.len() > 0 && t[0] == '+' { t.drop_first() } else { t });
    if i == end {
        return None;
    }
    let first: usize = i;
    let mut value: u64 = 0;
    while i < end
        invariant
            first <= i <= end <= cs@.len(),
            d == cs@.subrange(first as int, end as int),
            d.len() > 0,
            parse_u32_spec(cs@.subrange(start as int, end as int)) == digits_u32(d),
            forall|j: int| 0 <= j < i - first ==> is_decimal_digit(#[trigger] d[j]),
            value == decimal_value(d.take(i - first)),
            value <= u32::MAX,
        decreases end - i,
    {
        let c = cs[i];
        if !('0' <= c && c <= '9') {
            assert(!is_decimal_digit(d[i - first]));
            return None;
        }
        let digit: u64 = (c as u32 - '0' as u32) as u64;
        assert(d.take(i - first + 1).drop_last() =~= d.take(i - first));
        assert(d.take(i - first + 1).last() == c);
        let next: u64 = value * 10 + digit;
        if next > 0xffff_ffff {
            proof {
                assert forall|j: int| 0 <= j < i + 1 - first implies is_decimal_digit(
                    #[trigger] d.take(i - first + 1)[j],
                ) by {}
                if forall|j: int| 0 <= j < d.len() ==> is_decimal_digit(#[trigger] d[j]) {
                    lemma_decimal_value_grows(d, i - first + 1);
                }
            }
            return None;
        }
        value = next;
        i = i + 1;
    }
    assert(d.take(d.len() as int) =~= d);
    Some(value as u32)
}

/// The character that writes the decimal digit `d`, for `d` below ten.
pub open spec fn digit_char(d: nat) -> char {
    ((d + 48) as u32) as char
}

/// The decimal form of `x`, as `u32`'s `to_string` writes it: no sign and no
/// leading zero.
pub open spec fn decimal_form(x: nat) -> Seq<char>
    decreases x,
{
    if x < 10 {
        seq![digit_char(x)]
    } else {
        decimal_form(x / 10).push(digit_char(x % 10))
    }
}

/// The decimal form of `x` is a non-empty run of digits, none of them white space
/// or `+`, that writes `x`.
proof fn lemma_decimal_form(x: nat)
    ensures
        decimal_form(x).len() > 0,
        forall|i: int|
            0 <= i < decimal_form(x).len() ==> is_decimal_digit(#[trigger] decimal_form(x)[i]),
        forall|i: int| 0 <= i < decimal_form(x).len() ==> !is_white_space(#[trigger] decimal_form(x)[i]),
        decimal_form(x)[0] != '+',
        decimal_value(decimal_form(x)) == x,
    decreases x,
{
    if x < 10 {
        assert(decimal_form(x).drop_last() =~= Seq::<char>::empty());
        assert(decimal_value(decimal_form(x).drop_last()) == 0);
        assert((digit_char(x) as nat) == x + 48);
    } else {
        lemma_decimal_form(x / 10);
        assert(decimal_form(x).drop_last() =~= decimal_form(x / 10));
        assert((digit_char(x % 10) as nat) == x % 10 + 48);
        assert((x / 10) * 10 + x % 10 == x) by (nonlinear_arith);
    }
}

/// A run of characters without white space that ends at `j` (at the end of `s`
/// or at white space) is the token that starts at `i`.
proof fn lemma_token_end(s: Seq<char>, i: int, j: int)
    requires
        0 <= i <= j <= s.len(),
        forall|k: int| i <= k < j ==> !is_white_space(#[trigger] s[k]),
        j == s.len() || is_white_space(s[j]),
    ensures
        token_end(s, i) == j,
    decreases j - i,
{
    if i < j {
        lemma_token_end(s, i + 1, j);
    }
}

/// A run of white space that ends at `j` (at the end of `s` or before a character
/// that is not white space) is what is skipped from `i`.
proof fn lemma_skip_white_space(s: Seq<char>, i: int, j: int)
    requires
        0 <= i <= j <= s.len(),
        forall|k: int| i <= k < j ==> is_white_space(#[trigger] s[k]),
        j == s.len() || !is_white_space(s[j]),
    ensures
        skip_white_space(s, i) == j,
    decreases j - i,
{
    if i < j {
        lemma_skip_white_space(s, i + 1, j);
    }
}

/// A row that writes `x` and then `y` in decimal, separated by white space and
/// with any white space before and after, reads back as `(x, y)`: the first value
/// comes from the first token and the second from the second.
pub proof fn law_fact_row_round_trip(x: u32, y: u32, pre: Seq<char>, sep: Seq<char>, post: Seq<char>)
    requires
        sep.len() > 0,
        forall|i: int| 0 <= i < pre.len() ==> is_white_space(#[trigger] pre[i]),
        forall|i: int| 0 <= i < sep.len() ==> is_white_space(#[trigger] sep[i]),
        forall|i: int| 0 <= i < post.len() ==> is_white_space(#[trigger] post[i]),
    ensures
        fact_row_spec(pre + decimal_form(x as nat) + sep + decimal_form(y as nat) + post) == Some(
            (x, y),
        ),
{
    let dx = decimal_form(x as nat);
    let dy = decimal_form(y as nat);
    lemma_decimal_form(x as nat);
    lemma_decimal_form(y as nat);
    let s = pre + dx + sep + dy + post;
    let a = pre.len() as int;
    let b = a + dx.len();
    let c = b + sep.len();
    let d = c + dy.len();
    assert(s.len() == d + post.len());
    assert forall|k: int| 0 <= k < a implies is_white_space(#[trigger] s[k]) by {
        assert(s[k] == pre[k]);
    }
    assert(s[a] == dx[0]);
    lemma_skip_white_space(s, 0, a);
    assert forall|k: int| a <= k < b implies !is_white_space(#[trigger] s[k]) by {
        assert(s[k] == dx[k - a]);
    }
    assert(s[b] == sep[0]);
    lemma_token_end(s, a, b);
    assert forall|k: int| b <= k < c implies is_white_space(#[trigger] s[k]) by {
        assert(s[k] == sep[k - b]);
    }
    assert(s[c] == dy[0]);
    lemma_skip_white_space(s, b, c);
    assert forall|k: int| c <= k < d implies !is_white_space(#[trigger] s[k]) by {
        assert(s[k] == dy[k - c]);
    }
    if d < s.len() {
        assert(s[d] == post[0]);
    }
    lemma_token_end(s, c, d);
    assert(s.subrange(a, b) =~= dx);
    assert(s.subrange(c, d) =~= dy);
}

/// Reads a row of a fact file: the first two whitespace-separated tokens of
/// `row`, each parsed as a `u32`. Returns `None` where a token is missing or is
/// not a `u32`.
pub fn parse_fact_row(row: &str) -> (r: Option<(u32, u32)>)
    ensures
        r == fact_row_spec(row@),
{
    let mut cs: Vec<char> = Vec::new();
    for c in it: row.chars()
        invariant
            cs@ == it.seq().take(it.index() as int),
    {
        cs.push(c);
    }
    assert(cs@ =~= row@);
    let a: usize = skip_white_space_at(&cs, 0);
    let b: usize = token_end_at(&cs, a);
    let c: usize = skip_white_space_at(&cs, b);
    let d: usize = token_end_at(&cs, c);
    if a >= cs.len() || c >= cs.len() {
        return None;
    }
    let x = parse_u32_token(&cs, a, b);
    let y = parse_u32_token(&cs, c, d);
    match (x, y) {
        (Some(x), Some(y)) => Some((x, y)),
        _ => None,
    }
}

} // verus!
