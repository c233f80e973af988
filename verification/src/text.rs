//! Text primitives: characters of a string, splitting, trimming, and the
//! decimal and boolean notations that field values are written in.
use vstd::prelude::*;
use vstd::std_specs::iter::IteratorSpec;

verus! {

/// `String::push` appends the one character to the end of the string.
pub assume_specification[ String::push ](s: &mut String, c: char)
    ensures
        final(s)@ == old(s)@.push(c),
;

/// The characters of `s`, in order.
pub fn to_chars(s: &str) -> (chars: Vec<char>)
    ensures
        chars@ == s@,
{
    let mut chars: Vec<char> = Vec::new();
    proof {
        vstd::string::axiom_spec_iter(s);
    }
    for c in iter: s.chars()
        invariant
            iter.seq() == s@,
            chars@ == s@.take(iter.index() as int),
    {
        chars.push(c);
    }
    chars
}

/// The pieces of `s` between occurrences of `sep`: always at least one piece,
/// and one more than there are separators.
pub open spec fn split_spec(s: Seq<char>, sep: char) -> Seq<Seq<char>>
    decreases s.len(),
{
    if s.len() == 0 {
        seq![Seq::<char>::empty()]
    } else {
        let before = split_spec(s.drop_last(), sep);
        if s.last() == sep {
            before.push(Seq::<char>::empty())
        } else {
            before.drop_last().push(before.last().push(s.last()))
        }
    }
}

/// Splits `s` at every `sep`.
pub fn split_on(s: &str, sep: char) -> (pieces: Vec<String>)
    ensures
        pieces.deep_view() == split_spec(s@, sep),
{
    let chars = to_chars(s);
    let mut pieces: Vec<String> = Vec::new();
    let mut current = String::new();
    let mut i: usize = 0;
    while i < chars.len()
        invariant
            i <= chars.len(),
            chars@ == s@,
            pieces.deep_view().push(current@) == split_spec(s@.take(i as int), sep),
        decreases chars.len() - i,
    {
        let c = chars[i];
        assert(s@.take(i + 1).drop_last() =~= s@.take(i as int));
        if c == sep {
            pieces.push(current);
            current = String::new();
        } else {
            current.push(c);
        }
        i += 1;
    }
    assert(s@.take(i as int) =~= s@);
    pieces.push(current);
    pieces
}

/// Whether two strings hold the same characters.
pub fn text_eq(a: &str, b: &str) -> (same: bool)
    ensures
        same == (a@ == b@),
{
    let x = to_chars(a);
    let y = to_chars(b);
    if x.len() != y.len() {
        return false;
    }
    let mut i: usize = 0;
    while i < x.len()
        invariant
            i <= x.len(),
            x.len() == y.len(),
            x@ == a@,
            y@ == b@,
            x@.take(i as int) == y@.take(i as int),
        decreases x.len() - i,
    {
        if x[i] != y[i] {
            return false;
        }
        i += 1;
    }
    assert(x@.take(i as int) =~= x@);
    assert(y@.take(i as int) =~= y@);
    true
}

/// The characters of `chars` from `from` up to `to`, as a string.
pub fn string_of(chars: &Vec<char>, from: usize, to: usize) -> (s: String)
    requires
        from <= to <= chars.len(),
    ensures
        s@ == chars@.subrange(from as int, to as int),
{
    let mut s = String::new();
    let mut i: usize = from;
    while i < to
        invariant
            from <= i <= to <= chars.len(),
            s@ == chars@.subrange(from as int, i as int),
        decreases to - i,
    {
        s.push(chars[i]);
        i += 1;
    }
    s
}

/// Whether `c` is white space in Unicode's sense, as `char::is_whitespace`
/// answers it.
pub uninterp spec fn white_space(c: char) -> bool;

/// `char::is_whitespace`: the answer depends on the character alone, and
/// `white_space` is the name of that answer.
#[verifier::external_body]
fn is_white_space(c: char) -> (r: bool)
    ensures
        r == white_space(c),
{
    c.is_whitespace()
}

/// `s` without its leading white space.
pub open spec fn trim_start_spec(s: Seq<char>) -> Seq<char>
    decreases s.len(),
{
    if s.len() > 0 && white_space(s[0]) {
        trim_start_spec(s.drop_first())
    } else {
        s
    }
}

/// `s` without its trailing white space.
pub open spec fn trim_end_spec(s: Seq<char>) -> Seq<char>
    decreases s.len(),
{
    if s.len() > 0 && white_space(s.last()) {
        trim_end_spec(s.drop_last())
    } else {
        s
    }
}

/// `s` without the white space at either end.
pub open spec fn trim_spec(s: Seq<char>) -> Seq<char> {
    trim_end_spec(trim_start_spec(s))
}

/// Removes the white space at both ends of `s`.
pub fn trim(s: &str) -> (t: String)
    ensures
        t@ == trim_spec(s@),
{
    let chars = to_chars(s);
    let n = chars.len();
    let mut a: usize = 0;
    assert(chars@.subrange(0, n as int) =~= chars@);
    while a < n && is_white_space(chars[a])
        invariant
            a <= n == chars.len(),
            trim_start_spec(chars@) == trim_start_spec(chars@.subrange(a as int, n as int)),
        decreases n - a,
    {
        assert(chars@.subrange(a as int, n as int).drop_first() =~= chars@.subrange(
            a + 1,
            n as int,
        ));
        a += 1;
    }
    let mut b: usize = n;
    while a < b && is_white_space(chars[b - 1])
        invariant
            a <= b <= n == chars.len(),
            trim_spec(chars@) == trim_end_spec(chars@.subrange(a as int, b as int)),
        decreases b - a,
    {
        assert(chars@.subrange(a as int, b as int).drop_last() =~= chars@.subrange(
            a as int,
            b - 1,
        ));
        b -= 1;
    }
    string_of(&chars, a, b)
}

/// The value of a decimal digit, or `None` for any other character.
pub open spec fn digit_value(c: char) -> Option<int> {
    if '0' <= c && c <= '9' {
        Some(c as int - '0' as int)
    } else {
        None
    }
}

/// The number that a run of decimal digits writes, leading zeros allowed;
/// `None` where a character is no digit. The empty run writes zero.
pub open spec fn digits_value(s: Seq<char>) -> Option<int>
    decreases s.len(),
{
    if s.len() == 0 {
        Some(0)
    } else {
        match (digits_value(s.drop_last()), digit_value(s.last())) {
            (Some(high), Some(low)) => Some(10 * high + low),
            _ => None,
        }
    }
}

/// The integer that `s` writes: an optional `+` or `-`, then one or more
/// decimal digits and nothing else.
pub open spec fn signed_decimal(s: Seq<char>) -> Option<int> {
    if s.len() == 0 {
        None
    } else if s[0] == '-' || s[0] == '+' {
        if s.len() == 1 {
            None
        } else {
            match digits_value(s.drop_first()) {
                Some(v) => Some(if s[0] == '-' { -v } else { v }),
                None => None,
            }
        }
    } else {
        digits_value(s)
    }
}

/// The small integer that `s` writes, where it writes one from -128 to 127.
pub open spec fn parse_i8_spec(s: Seq<char>) -> Option<i8> {
    match signed_decimal(s) {
        Some(v) => if -128 <= v <= 127 { Some(v as i8) } else { None },
        None => None,
    }
}

/// The value of a run of digits is never negative.
proof fn lemma_digits_value_nonnegative(s: Seq<char>)
    ensures
        digits_value(s) matches Some(v) ==> v >= 0,
    decreases s.len(),
{
    if s.len() > 0 {
        lemma_digits_value_nonnegative(s.drop_last());
    }
}

/// Reads a small signed integer. Out-of-range numbers are refused, never
/// wrapped.
pub fn parse_i8(s: &str) -> (r: Option<i8>)
    ensures
        r == parse_i8_spec(s@),
{
    let chars = to_chars(s);
    let n = chars.len();
    if n == 0 {
        return None;
    }
    let signed = chars[0] == '-' || chars[0] == '+';
    let negative = chars[0] == '-';
    let start: usize = if signed { 1 } else { 0 };
    if start == n {
        return None;
    }
    let ghost run = chars@.subrange(start as int, n as int);
    let mut acc: u32 = 0;
    let mut i: usize = start;
    while i < n
        invariant
            start <= i <= n == chars.len(),
            run == chars@.subrange(start as int, n as int),
            chars@ == s@,
            n > start,
            signed == (chars@[0] == '-' || chars@[0] == '+'),
            run == if signed { chars@.drop_first() } else { chars@ },
            acc <= 2009,
            digits_value(run.take(i - start)) matches Some(v) && (if v <= 200 {
                acc == v
            } else {
                acc > 200
            }),
        decreases n - i,
    {
        let c = chars[i];
        proof {
            assert(run.take(i + 1 - start).drop_last() =~= run.take(i - start));
            lemma_digits_value_nonnegative(run.take(i - start));
        }
        if !(c >= '0' && c <= '9') {
            proof {
                lemma_digits_prefix(run, i + 1 - start);
            }
            return None;
        }
        let d: u32 = c as u32 - '0' as u32;
        if acc <= 200 {
            acc = acc * 10 + d;
        }
        i += 1;
    }
    assert(run.take(n - start) =~= run);
    if negative {
        if acc <= 128 {
            let v: i32 = -(acc as i32);
            Some(v as i8)
        } else {
            None
        }
    } else {
        if acc <= 127 {
            Some(acc as i8)
        } else {
            None
        }
    }
}

/// A run with a prefix that is not all digits is not all digits.
proof fn lemma_digits_prefix(s: Seq<char>, k: int)
    requires
        0 <= k <= s.len(),
        digits_value(s.take(k)) is None,
    ensures
        digits_value(s) is None,
    decreases s.len() - k,
{
    if k < s.len() {
        assert(s.take(k + 1).drop_last() =~= s.take(k));
        lemma_digits_prefix(s, k + 1);
    } else {
        assert(s.take(k) =~= s);
    }
}

/// The truth value that `s` writes: exactly `true` or `false`.
pub open spec fn parse_bool_spec(s: Seq<char>) -> Option<bool> {
    if s == "true"@ {
        Some(true)
    } else if s == "false"@ {
        Some(false)
    } else {
        None
    }
}

/// Reads a truth value.
pub fn parse_bool(s: &str) -> (r: Option<bool>)
    ensures
        r == parse_bool_spec(s@),
{
    if text_eq(s, "true") {
        Some(true)
    } else if text_eq(s, "false") {
        Some(false)
    } else {
        None
    }
}

/// `true` or `false`, as `b` is.
pub open spec fn bool_text(b: bool) -> Seq<char> {
    if b {
        "true"@
    } else {
        "false"@
    }
}

/// The character that writes the digit `d`.
pub open spec fn digit_char(d: int) -> char
    recommends
        0 <= d <= 9,
{
    (d + '0' as int) as char
}

/// The decimal notation of `n`, without leading zeros.
pub open spec fn nat_decimal(n: nat) -> Seq<char>
    decreases n,
{
    if n < 10 {
        seq![digit_char(n as int)]
    } else {
        nat_decimal(n / 10).push(digit_char((n % 10) as int))
    }
}

/// The decimal notation of `n`, with a minus sign where it is negative.
pub open spec fn int_decimal(n: int) -> Seq<char> {
    if n < 0 {
        seq!['-'] + nat_decimal((-n) as nat)
    } else {
        nat_decimal(n as nat)
    }
}

/// Appends the digit `d` to `s`.
fn push_digit(s: &mut String, d: u8)
    requires
        d <= 9,
    ensures
        final(s)@ == old(s)@.push(digit_char(d as int)),
{
    let c = (d + 48u8) as char;
    s.push(c);
}

/// Writes a small integer in decimal.
pub fn i8_text(n: i8) -> (s: String)
    ensures
        s@ == int_decimal(n as int),
{
    let mut s = String::new();
    let m: u8 = if n < 0 {
        s.push('-');
        (-(n as i16)) as u8
    } else {
        n as u8
    };
    if m >= 100 {
        push_digit(&mut s, m / 100);
        push_digit(&mut s, (m / 10) % 10);
        push_digit(&mut s, m % 10);
        assert(nat_decimal(m as nat) =~= seq![
            digit_char(m as int / 100),
            digit_char((m as int / 10) % 10),
            digit_char(m as int % 10),
        ]) by {
            reveal_with_fuel(nat_decimal, 3);
        }
    } else if m >= 10 {
        push_digit(&mut s, m / 10);
        push_digit(&mut s, m % 10);
        assert(nat_decimal(m as nat) =~= seq![digit_char(m as int / 10), digit_char(m as int % 10)])
            by {
            reveal_with_fuel(nat_decimal, 2);
        }
    } else {
        push_digit(&mut s, m);
    }
    s
}

/// The pieces one after the other, with `sep` between each two.
pub open spec fn join_spec(pieces: Seq<Seq<char>>, sep: Seq<char>) -> Seq<char>
    decreases pieces.len(),
{
    if pieces.len() == 0 {
        Seq::empty()
    } else if pieces.len() == 1 {
        pieces[0]
    } else {
        join_spec(pieces.drop_last(), sep) + sep + pieces.last()
    }
}

/// Joins the pieces with `sep` between each two.
pub fn join(pieces: &Vec<String>, sep: &str) -> (joined: String)
    ensures
        joined@ == join_spec(pieces.deep_view(), sep@),
{
    let mut joined = String::new();
    let mut i: usize = 0;
    while i < pieces.len()
        invariant
            i <= pieces.len(),
            joined@ == join_spec(pieces.deep_view().take(i as int), sep@),
        decreases pieces.len() - i,
    {
        assert(pieces.deep_view().take(i + 1).drop_last() =~= pieces.deep_view().take(i as int));
        if i > 0 {
            joined.append(sep);
        }
        joined.append(pieces[i].as_str());
        i += 1;
    }
    assert(pieces.deep_view().take(i as int) =~= pieces.deep_view());
    joined
}

/// Splitting loses nothing: the pieces, joined with the separator again,
/// are the text that was split. No piece holds the separator, and there is
/// always at least one piece.
pub proof fn law_split_then_join(s: Seq<char>, sep: char)
    ensures
        split_spec(s, sep).len() >= 1,
        join_spec(split_spec(s, sep), seq![sep]) == s,
        forall|i: int|
            0 <= i < split_spec(s, sep).len() ==> !(#[trigger] split_spec(s, sep)[i]).contains(sep),
    decreases s.len(),
{
    if s.len() > 0 {
        let front = s.drop_last();
        let before = split_spec(front, sep);
        let pieces = split_spec(s, sep);
        law_split_then_join(front, sep);
        if s.last() == sep {
            assert(pieces.drop_last() =~= before);
        } else if before.len() > 1 {
            let joined = join_spec(before.drop_last(), seq![sep]) + seq![sep];
            assert(pieces.drop_last() =~= before.drop_last());
            assert(joined + before.last().push(s.last()) =~= (joined + before.last()).push(
                s.last(),
            ));
        }
    }
}

/// The notation of a natural number is a run of digits that writes it.
pub proof fn lemma_nat_decimal_is_read_back(n: nat)
    ensures
        nat_decimal(n).len() >= 1,
        digit_value(nat_decimal(n)[0]) is Some,
        digits_value(nat_decimal(n)) == Some(n as int),
    decreases n,
{
    if n < 10 {
        assert(digits_value(nat_decimal(n).drop_last()) == Some(0int));
    } else {
        lemma_nat_decimal_is_read_back(n / 10);
        assert(nat_decimal(n).drop_last() =~= nat_decimal(n / 10));
    }
}

/// Writing an integer and reading it again gives the integer back, and so
/// for every small integer.
pub proof fn law_decimal_round_trip(n: int)
    ensures
        signed_decimal(int_decimal(n)) == Some(n),
        -128 <= n <= 127 ==> parse_i8_spec(int_decimal(n)) == Some(n as i8),
{
    if n < 0 {
        let digits = nat_decimal((-n) as nat);
        lemma_nat_decimal_is_read_back((-n) as nat);
        assert(int_decimal(n).drop_first() =~= digits);
    } else {
        lemma_nat_decimal_is_read_back(n as nat);
    }
}

} // verus!
