//! Small text utilities: comparison, decimal reading and fixed-width
//! rendering of numbers, each stated over sequences of characters.

use vstd::prelude::*;
use vstd::string::*;

verus! {

/// True for the ten ASCII decimal digits.
pub open spec fn is_decimal_digit(c: char) -> bool {
    '0' <= c && c <= '9'
}

/// The number that an ASCII decimal digit stands for.
pub open spec fn digit_value(c: char) -> nat
    recommends
        is_decimal_digit(c),
{
    (c as int - '0' as int) as nat
}

/// True when every character of `s` is an ASCII decimal digit.
pub open spec fn all_decimal_digits(s: Seq<char>) -> bool {
    forall|i: int| 0 <= i < s.len() ==> is_decimal_digit(#[trigger] s[i])
}

/// The number written by a run of decimal digits, most significant first.
pub open spec fn decimal_value(s: Seq<char>) -> nat
    decreases s.len(),
{
    if s.len() == 0 {
        0
    } else {
        decimal_value(s.drop_last()) * 10 + digit_value(s.last())
    }
}

/// True when `s` is a non-empty run of ASCII digits whose value fits in 32 bits.
pub open spec fn is_small_decimal(s: Seq<char>) -> bool {
    s.len() > 0 && all_decimal_digits(s) && decimal_value(s) <= u32::MAX
}

/// A longer run of digits never writes a smaller number than one of its prefixes.
pub proof fn lemma_decimal_value_prefix(s: Seq<char>, n: int)
    requires
        0 <= n <= s.len(),
    ensures
        decimal_value(s.subrange(0, n)) <= decimal_value(s),
    decreases s.len() - n,
{
    if n == s.len() {
        assert(s.subrange(0, n) =~= s);
    } else {
        lemma_decimal_value_prefix(s, n + 1);
        let t = s.subrange(0, n + 1);
        assert(t.drop_last() =~= s.subrange(0, n));
    }
}

/// True when the two texts hold the same characters.
pub fn same_text(a: &str, b: &str) -> (r: bool)
    ensures
        r == (a@ == b@),
{
    let x = a.to_owned();
    let y = b.to_owned();
    x == y
}

/// Reads a run of ASCII decimal digits as a number.
///
/// The text is accepted exactly when it is non-empty, holds digits only and
/// writes a number that fits in 32 bits.
pub fn parse_decimal(s: &str) -> (r: Option<u32>)
    ensures
        r.is_some() == is_small_decimal(s@),
        r matches Some(v) ==> v == decimal_value(s@),
{
    let n: usize = s.unicode_len();
    if n == 0 {
        return None;
    }
    let mut acc: u32 = 0;
    let mut i: usize = 0;
    while i < n
        invariant
            n == s@.len(),
            0 <= i <= n,
            all_decimal_digits(s@.subrange(0, i as int)),
            acc == decimal_value(s@.subrange(0, i as int)),
        decreases n - i,
    {
        let c = s.get_char(i);
        proof {
            lemma_decimal_value_prefix(s@, i as int + 1);
            assert(s@.subrange(0, i as int + 1).drop_last() =~= s@.subrange(0, i as int));
            assert(s@.subrange(0, i as int + 1).last() == c);
        }
        if c < '0' || c > '9' {
            assert(!is_decimal_digit(s@[i as int]));
            return None;
        }
        let d: u32 = (c as u32) - ('0' as u32);
        if acc > (u32::MAX - d) / 10 {
            return None;
        }
        acc = acc * 10 + d;
        i = i + 1;
        proof {
            assert forall|j: int| 0 <= j < i implies is_decimal_digit(
                #[trigger] s@.subrange(0, i as int)[j],
            ) by {
                if j < i - 1 {
                    assert(s@.subrange(0, i as int)[j] == s@.subrange(0, i as int - 1)[j]);
                }
            }
        }
    }
    proof {
        assert(s@.subrange(0, n as int) =~= s@);
    }
    Some(acc)
}

/// The sixteen digits of lower-case hexadecimal notation, in order of value.
pub open spec fn digit_glyphs() -> Seq<char> {
    seq!['0', '1', '2', '3', '4', '5', '6', '7', '8', '9', 'a', 'b', 'c', 'd', 'e', 'f']
}

/// The character that writes the digit of value `d`, for `d` below sixteen.
pub open spec fn digit_glyph(d: int) -> char
    recommends
        0 <= d < 16,
{
    digit_glyphs()[d]
}

/// A number below 256 written with exactly three decimal digits, zeros in front.
pub open spec fn three_decimal_digits(n: u8) -> Seq<char> {
    seq![digit_glyph(n as int / 100), digit_glyph((n as int / 10) % 10), digit_glyph(n as int % 10)]
}

/// A 16-bit number written with exactly four lower-case hexadecimal digits.
pub open spec fn four_hex_digits(n: u16) -> Seq<char> {
    seq![
        digit_glyph(n as int / 4096),
        digit_glyph((n as int / 256) % 16),
        digit_glyph((n as int / 16) % 16),
        digit_glyph(n as int % 16),
    ]
}

/// The one-character text of a digit below sixteen.
fn digit_text(d: u8) -> (r: &'static str)
    requires
        d < 16,
    ensures
        r@ == seq![digit_glyph(d as int)],
{
    let all = "0123456789abcdef";
    proof {
        reveal_strlit("0123456789abcdef");
        assert(all@ =~= digit_glyphs());
        assert(is_ascii(all));
    }
    let start: usize = d as usize;
    let one = all.substring_ascii(start, start + 1);
    proof {
        assert(one@ =~= seq![digit_glyph(d as int)]);
    }
    one
}

/// Appends to `out` the three decimal digits of `n`, zeros in front.
pub fn push_three_decimal_digits(out: &mut String, n: u8)
    ensures
        final(out)@ == old(out)@ + three_decimal_digits(n),
{
    out.append(digit_text(n / 100));
    out.append(digit_text((n / 10) % 10));
    out.append(digit_text(n % 10));
    proof {
        assert(final(out)@ =~= old(out)@ + three_decimal_digits(n));
    }
}

/// Appends to `out` the four lower-case hexadecimal digits of `n`.
pub fn push_four_hex_digits(out: &mut String, n: u16)
    ensures
        final(out)@ == old(out)@ + four_hex_digits(n),
{
    let a: u8 = (n / 4096) as u8;
    let b: u8 = ((n / 256) % 16) as u8;
    let c: u8 = ((n / 16) % 16) as u8;
    let d: u8 = (n % 16) as u8;
    out.append(digit_text(a));
    out.append(digit_text(b));
    out.append(digit_text(c));
    out.append(digit_text(d));
    proof {
        assert(final(out)@ =~= old(out)@ + four_hex_digits(n));
    }
}

/// The character sequences of a list of texts, in order.
pub open spec fn texts(items: Seq<String>) -> Seq<Seq<char>> {
    items.map_values(|s: String| s@)
}

/// A copy of a list of texts.
pub fn copy_texts(items: &Vec<String>) -> (r: Vec<String>)
    ensures
        texts(r@) == texts(items@),
{
    let mut out: Vec<String> = Vec::new();
    let mut i: usize = 0;
    while i < items.len()
        invariant
            0 <= i <= items@.len(),
            out@.len() == i,
            forall|j: int| 0 <= j < i ==> (#[trigger] out@[j])@ == items@[j]@,
        decreases items@.len() - i,
    {
        out.push(items[i].clone());
        i = i + 1;
    }
    proof {
        assert(texts(out@) =~= texts(items@));
    }
    out
}

/// A copy of a text that may be absent.
pub fn copy_optional_text(item: &Option<String>) -> (r: Option<String>)
    ensures
        r == *item,
{
    match item {
        Some(s) => Some(s.clone()),
        None => None,
    }
}

/// A natural number in decimal notation, without zeros in front.
pub open spec fn decimal_text(n: nat) -> Seq<char>
    decreases n,
{
    if n < 10 {
        seq![digit_glyph(n as int)]
    } else {
        decimal_text(n / 10).push(digit_glyph((n % 10) as int))
    }
}

/// An integer in decimal notation, with a minus sign in front where it is negative.
pub open spec fn signed_decimal_text(n: int) -> Seq<char> {
    if n < 0 {
        seq!['-'] + decimal_text((-n) as nat)
    } else {
        decimal_text(n as nat)
    }
}

/// Appends `n` to `out` in decimal notation.
pub fn push_decimal(out: &mut String, n: u64)
    ensures
        final(out)@ == old(out)@ + decimal_text(n as nat),
    decreases n,
{
    if n >= 10 {
        push_decimal(out, n / 10);
    }
    out.append(digit_text((n % 10) as u8));
    proof {
        assert(final(out)@ =~= old(out)@ + decimal_text(n as nat));
    }
}

/// Appends `n` to `out` in decimal notation, with its sign where it is negative.
pub fn push_signed_decimal(out: &mut String, n: i32)
    ensures
        final(out)@ == old(out)@ + signed_decimal_text(n as int),
{
    let wide: i64 = n as i64;
    if wide < 0 {
        out.append("-");
        proof {
            reveal_strlit("-");
            assert("-"@ =~= seq!['-']);
        }
        push_decimal(out, (0 - wide) as u64);
        proof {
            assert(final(out)@ =~= old(out)@ + signed_decimal_text(n as int));
        }
    } else {
        push_decimal(out, wide as u64);
    }
}

/// The characters of a text that may be absent.
pub open spec fn optional_text(t: Option<String>) -> Option<Seq<char>> {
    match t {
        Some(s) => Some(s@),
        None => None,
    }
}

/// The first place at or after `from` at which `s` holds `c`, or the length
/// of `s` where there is none.
pub open spec fn index_from(s: Seq<char>, c: char, from: int) -> int
    decreases s.len() - from,
{
    if from >= s.len() {
        s.len() as int
    } else if s[from] == c {
        from
    } else {
        index_from(s, c, from + 1)
    }
}

/// The place at which the line that holds place `i` begins: just after the
/// last line feed before `i`, or at the start of the text.
pub open spec fn line_start(s: Seq<char>, i: int) -> int
    decreases i,
{
    if i <= 0 {
        0
    } else if s[i - 1] == '\n' {
        i
    } else {
        line_start(s, i - 1)
    }
}

/// What `index_from` finds lies between `from` and the end of the text, holds
/// `c` where it lies before the end, and nothing before it from `from` on does.
pub proof fn lemma_index_from(s: Seq<char>, c: char, from: int)
    requires
        0 <= from <= s.len(),
    ensures
        from <= index_from(s, c, from) <= s.len(),
        index_from(s, c, from) < s.len() ==> s[index_from(s, c, from)] == c,
        forall|j: int| from <= j < index_from(s, c, from) ==> s[j] != c,
    decreases s.len() - from,
{
    if from < s.len() && s[from] != c {
        lemma_index_from(s, c, from + 1);
    }
}

/// A line begins at or before each of its places, just after a line feed or
/// at the start of the text, and holds no line feed up to that place.
pub proof fn lemma_line_start(s: Seq<char>, i: int)
    requires
        0 <= i <= s.len(),
    ensures
        0 <= line_start(s, i) <= i,
        line_start(s, i) > 0 ==> s[line_start(s, i) - 1] == '\n',
        forall|j: int| line_start(s, i) <= j < i ==> s[j] != '\n',
    decreases i,
{
    if i > 0 && s[i - 1] != '\n' {
        lemma_line_start(s, i - 1);
    }
}

/// The first place at or after `from` at which `s` holds `c`, or the length
/// of `s` in characters where there is none.
pub fn find_char_from(s: &str, c: char, from: usize) -> (r: usize)
    requires
        from <= s@.len(),
    ensures
        r == index_from(s@, c, from as int),
{
    let n: usize = s.unicode_len();
    let mut i: usize = from;
    while i < n
        invariant
            n == s@.len(),
            from <= i <= n,
            index_from(s@, c, from as int) == index_from(s@, c, i as int),
        decreases n - i,
    {
        if s.get_char(i) == c {
            return i;
        }
        i = i + 1;
    }
    i
}

/// The place at which the line that holds place `i` begins.
pub fn find_line_start(s: &str, i: usize) -> (r: usize)
    requires
        i <= s@.len(),
    ensures
        r == line_start(s@, i as int),
{
    let mut k: usize = i;
    while k > 0
        invariant
            0 <= k <= i <= s@.len(),
            line_start(s@, i as int) == line_start(s@, k as int),
        decreases k,
    {
        if s.get_char(k - 1) == '\n' {
            return k;
        }
        k = k - 1;
    }
    k
}

} // verus!
