//! Text: trimming, searching, comparing, numbers, and small builders.
use std::num::ParseIntError;
use vstd::prelude::*;
use vstd::utf8::{decode_utf8, valid_utf8};

verus! {

/// The error of reading a number from text.
#[verifier::external_type_specification]
#[verifier::external_body]
pub struct ExParseIntError(ParseIntError);

/// The characters with the Unicode property `White_Space`.
pub open spec fn is_white_space(c: char) -> bool {
    let n = c as u32;
    ||| 0x9 <= n <= 0xd
    ||| n == 0x20
    ||| n == 0x85
    ||| n == 0xa0
    ||| n == 0x1680
    ||| 0x2000 <= n <= 0x200a
    ||| n == 0x2028
    ||| n == 0x2029
    ||| n == 0x202f
    ||| n == 0x205f
    ||| n == 0x3000
}

/// `s` without the white space at its two ends.
pub open spec fn trimmed(s: Seq<char>) -> Seq<char>
    decreases s.len(),
{
    if s.len() > 0 && is_white_space(s.first()) {
        trimmed(s.drop_first())
    } else if s.len() > 0 && is_white_space(s.last()) {
        trimmed(s.drop_last())
    } else {
        s
    }
}

/// Whether `s` has no line break.
pub open spec fn is_one_line(s: Seq<char>) -> bool {
    forall|i: int| 0 <= i < s.len() ==> #[trigger] s[i] != '\n'
}

/// Whether `part` stands somewhere in `s`.
pub open spec fn contains_text(s: Seq<char>, part: Seq<char>) -> bool {
    exists|i: int|
        0 <= i && i + part.len() <= s.len() && #[trigger] s.subrange(i, i + part.len()) == part
}

/// The value of a decimal digit, or `None` for any other character.
pub open spec fn digit_value(c: char) -> Option<nat> {
    if '0' <= c <= '9' {
        Some((c as u32 - '0' as u32) as nat)
    } else {
        None
    }
}

/// The number that a run of decimal digits spells; the empty run spells zero.
pub open spec fn digits_value(s: Seq<char>) -> Option<nat>
    decreases s.len(),
{
    if s.len() == 0 {
        Some(0)
    } else {
        match (digits_value(s.drop_last()), digit_value(s.last())) {
            (Some(high), Some(low)) => Some(high * 10 + low),
            _ => None,
        }
    }
}

/// The number that `s` spells: decimal digits, at least one, after an optional plus sign.
pub open spec fn number_value(s: Seq<char>) -> Option<nat> {
    let digits = if s.len() > 0 && s[0] == '+' {
        s.drop_first()
    } else {
        s
    };
    if digits.len() == 0 {
        None
    } else {
        digits_value(digits)
    }
}

/// The decimal digits of `n`, without leading zeros.
pub open spec fn decimal_text(n: nat) -> Seq<char>
    decreases n,
{
    if n < 10 {
        seq![(n + '0' as u32) as u32 as char]
    } else {
        decimal_text(n / 10).push((n % 10 + '0' as u32) as u32 as char)
    }
}

/// `s` followed by as many `fill` as it takes to reach `width` characters.
pub open spec fn padded(s: Seq<char>, fill: char, width: nat) -> Seq<char> {
    s + Seq::new(
        if s.len() < width {
            (width - s.len()) as nat
        } else {
            0
        },
        |i: int| fill,
    )
}

/// The texts of a list of strings.
pub open spec fn texts(list: Seq<String>) -> Seq<Seq<char>> {
    list.map_values(|s: String| s@)
}

/// The text of an optional string.
pub open spec fn optional_text(text: Option<String>) -> Option<Seq<char>> {
    match text {
        Some(t) => Some(t@),
        None => None,
    }
}

/// The text of an optional string slice.
pub open spec fn optional_str(text: Option<&str>) -> Option<Seq<char>> {
    match text {
        Some(t) => Some(t@),
        None => None,
    }
}

/// Calls `str::trim`, which takes the characters with the property `White_Space` off both
/// ends of the slice.
#[verifier::external_body]
pub(crate) fn trim(s: &str) -> (r: &str)
    ensures
        r@ == trimmed(s@),
{
    s.trim()
}

/// Whether two slices hold the same characters.
pub(crate) fn same_text(a: &str, b: &str) -> (r: bool)
    ensures
        r == (a@ == b@),
{
    a.to_owned() == b.to_owned()
}

/// Calls `str::contains` with a slice, which says whether that slice is a part of the text.
#[verifier::external_body]
pub(crate) fn has_part(s: &str, part: &str) -> (r: bool)
    ensures
        r == contains_text(s@, part@),
{
    s.contains(part)
}

/// Calls `usize::from_str`, which reads an optional plus sign and then decimal digits only,
/// and refuses everything else, the empty text and numbers beyond `usize::MAX` among it.
#[verifier::external_body]
pub(crate) fn read_number(s: &str) -> (r: Result<usize, ParseIntError>)
    ensures
        match r {
            Ok(n) => number_value(s@) == Some(n as nat),
            Err(_) => number_value(s@) is None || number_value(s@)->0 > usize::MAX,
        },
{
    s.parse::<usize>()
}

/// The text that `String::from_utf8_lossy` makes of bytes.
pub uninterp spec fn lossy_text(bytes: Seq<u8>) -> Seq<char>;

/// Calls `String::from_utf8_lossy`: the text depends on the bytes alone, and valid UTF-8 is
/// taken as it is. What stands for invalid parts is not spelled out.
#[verifier::external_body]
pub(crate) fn text_from_bytes(bytes: &[u8]) -> (r: String)
    ensures
        r@ == lossy_text(bytes@),
        valid_utf8(bytes@) ==> r@ == decode_utf8(bytes@),
{
    String::from_utf8_lossy(bytes).into_owned()
}

/// `n` in decimal.
pub fn decimal(n: usize) -> (r: String)
    ensures
        r@ == decimal_text(n as nat),
    decreases n,
{
    if n < 10 {
        let r = digit(n);
        assert(r@ =~= decimal_text(n as nat));
        r
    } else {
        let mut r = decimal(n / 10);
        let low = digit(n % 10);
        r.append(low.as_str());
        assert(r@ =~= decimal_text(n as nat));
        r
    }
}

/// The digit for `n`.
fn digit(n: usize) -> (r: String)
    requires
        n < 10,
    ensures
        r@ == seq![(n + '0' as u32) as u32 as char],
{
    proof {
        reveal_strlit("0");
        reveal_strlit("1");
        reveal_strlit("2");
        reveal_strlit("3");
        reveal_strlit("4");
        reveal_strlit("5");
        reveal_strlit("6");
        reveal_strlit("7");
        reveal_strlit("8");
        reveal_strlit("9");
    }
    let text: &str = if n == 0 {
        "0"
    } else if n == 1 {
        "1"
    } else if n == 2 {
        "2"
    } else if n == 3 {
        "3"
    } else if n == 4 {
        "4"
    } else if n == 5 {
        "5"
    } else if n == 6 {
        "6"
    } else if n == 7 {
        "7"
    } else if n == 8 {
        "8"
    } else {
        "9"
    };
    let r = text.to_owned();
    assert(r@ =~= seq![(n + '0' as u32) as u32 as char]);
    r
}

/// `s` filled up with dots to `width` characters.
pub fn pad_with_dots(s: String, width: usize) -> (r: String)
    ensures
        r@ == padded(s@, '.', width as nat),
{
    let mut r = s;
    let mut n: usize = r.as_str().unicode_len();
    let ghost start = r@;
    proof {
        reveal_strlit(".");
    }
    while n < width
        invariant
            n == r@.len(),
            start.len() <= n,
            n <= width || n == start.len(),
            r@ == start + Seq::new((n - start.len()) as nat, |i: int| '.'),
            "."@ =~= seq!['.'],
        decreases width - n,
    {
        r.append(".");
        n = n + 1;
        assert(r@ =~= start + Seq::new((n - start.len()) as nat, |i: int| '.'));
    }
    assert(r@ =~= padded(start, '.', width as nat));
    r
}

/// A text with no line break but at its very end is one line once it is trimmed.
pub proof fn lemma_trimmed_is_one_line(s: Seq<char>)
    requires
        s.len() > 0 ==> is_one_line(s.drop_last()),
    ensures
        is_one_line(trimmed(s)),
    decreases s.len(),
{
    if s.len() > 0 {
        let head = s.drop_last();
        if is_white_space(s.first()) {
            let rest = s.drop_first();
            assert forall|i: int| 0 <= i < rest.len() - 1 implies #[trigger] rest.drop_last()[i]
                != '\n' by {
                assert(rest.drop_last()[i] == head[i + 1]);
            }
            lemma_trimmed_is_one_line(rest);
        } else if is_white_space(s.last()) {
            assert forall|i: int| 0 <= i < head.len() - 1 implies #[trigger] head.drop_last()[i]
                != '\n' by {
                assert(head.drop_last()[i] == head[i]);
            }
            lemma_trimmed_is_one_line(head);
        } else {
            assert forall|i: int| 0 <= i < s.len() implies #[trigger] s[i] != '\n' by {
                if i < s.len() - 1 {
                    assert(s[i] == head[i]);
                }
            }
        }
    }
}

/// The decimal digits of a number spell that number, and have no white space around them.
pub proof fn lemma_decimal_reads_back(n: nat)
    ensures
        number_value(decimal_text(n)) == Some(n),
        trimmed(decimal_text(n)) == decimal_text(n),
{
    lemma_decimal_digits(n);
    let digits = decimal_text(n);
    assert(digit_value(digits.first()) is Some);
    assert(digit_value(digits.last()) is Some);
}

proof fn lemma_decimal_digits(n: nat)
    ensures
        decimal_text(n).len() > 0,
        digits_value(decimal_text(n)) == Some(n),
        forall|i: int|
            0 <= i < decimal_text(n).len() ==> digit_value(#[trigger] decimal_text(n)[i]) is Some,
    decreases n,
{
    let digits = decimal_text(n);
    if n < 10 {
        assert(digits.drop_last() =~= Seq::empty());
        assert(digits_value(digits.drop_last()) == Some(0nat));
    } else {
        lemma_decimal_digits(n / 10);
        assert(digits.drop_last() =~= decimal_text(n / 10));
    }
}

// ---- laws ----

/// Blanks, tabs and line breaks are white space, and no visible character of ASCII is.
pub proof fn law_white_space_of_ascii(c: char)
    ensures
        c == ' ' || c == '\t' || c == '\n' || c == '\r' ==> is_white_space(c),
        '!' <= c <= '~' ==> !is_white_space(c),
{
}

/// Whether all of `s` from `i` up to `j` is white space.
pub open spec fn is_blank_between(s: Seq<char>, i: int, j: int) -> bool {
    forall|k: int| i <= k < j ==> is_white_space(#[trigger] s[k])
}

/// Whether `part` is what stands in `s` from `i` up to `j`, and all around it is white space.
pub open spec fn is_core(s: Seq<char>, part: Seq<char>, i: int, j: int) -> bool {
    &&& 0 <= i <= j <= s.len()
    &&& part == s.subrange(i, j)
    &&& is_blank_between(s, 0, i)
    &&& is_blank_between(s, j, s.len() as int)
}

/// Trimming takes white space off the two ends, and nothing else: what is left is a part of the
/// text that neither begins nor ends with white space, and all before and behind it is white
/// space.
pub proof fn law_trimming_cuts_white_space_only(s: Seq<char>)
    ensures
        exists|i: int, j: int| is_core(s, trimmed(s), i, j),
        trimmed(s).len() > 0 ==> !is_white_space(trimmed(s).first()) && !is_white_space(
            trimmed(s).last(),
        ),
    decreases s.len(),
{
    if s.len() > 0 && is_white_space(s.first()) {
        let rest = s.drop_first();
        law_trimming_cuts_white_space_only(rest);
        let (i, j) = choose|i: int, j: int| is_core(rest, trimmed(rest), i, j);
        lemma_core_behind(s, trimmed(rest), i, j);
        assert(is_core(s, trimmed(s), i + 1, j + 1));
    } else if s.len() > 0 && is_white_space(s.last()) {
        let rest = s.drop_last();
        law_trimming_cuts_white_space_only(rest);
        let (i, j) = choose|i: int, j: int| is_core(rest, trimmed(rest), i, j);
        lemma_core_before(s, trimmed(rest), i, j);
        assert(is_core(s, trimmed(s), i, j));
    } else {
        assert(s.subrange(0, s.len() as int) =~= s);
        assert(is_core(s, trimmed(s), 0, s.len() as int));
    }
}

proof fn lemma_core_behind(s: Seq<char>, part: Seq<char>, i: int, j: int)
    requires
        s.len() > 0,
        is_white_space(s.first()),
        is_core(s.drop_first(), part, i, j),
    ensures
        is_core(s, part, i + 1, j + 1),
{
    let rest = s.drop_first();
    assert(s.subrange(i + 1, j + 1) =~= rest.subrange(i, j));
    assert forall|k: int| 0 <= k < i + 1 implies is_white_space(#[trigger] s[k]) by {
        if k > 0 {
            assert(is_white_space(rest[k - 1]));
        }
    }
    assert forall|k: int| j + 1 <= k < s.len() implies is_white_space(#[trigger] s[k]) by {
        assert(is_white_space(rest[k - 1]));
    }
}

proof fn lemma_core_before(s: Seq<char>, part: Seq<char>, i: int, j: int)
    requires
        s.len() > 0,
        is_white_space(s.last()),
        is_core(s.drop_last(), part, i, j),
    ensures
        is_core(s, part, i, j),
{
    let rest = s.drop_last();
    assert(s.subrange(i, j) =~= rest.subrange(i, j));
    assert forall|k: int| 0 <= k < i implies is_white_space(#[trigger] s[k]) by {
        assert(is_white_space(rest[k]));
    }
    assert forall|k: int| j <= k < s.len() implies is_white_space(#[trigger] s[k]) by {
        if k < s.len() - 1 {
            assert(is_white_space(rest[k]));
        }
    }
}

/// A text is trimmed once and for all.
pub proof fn law_trimming_twice_is_trimming(s: Seq<char>)
    ensures
        trimmed(trimmed(s)) == trimmed(s),
{
    law_trimming_cuts_white_space_only(s);
}

/// A number in decimal has digits only, none of them a leading zero, and these spell the number.
pub proof fn law_decimal_spells_the_number(n: usize, r: String)
    requires
        call_ensures(decimal, (n,), r),
    ensures
        r@.len() > 0,
        forall|i: int| 0 <= i < r@.len() ==> '0' <= #[trigger] r@[i] <= '9',
        n > 0 ==> r@[0] != '0',
        digits_value(r@) == Some(n as nat),
{
    lemma_decimal_digits(n as nat);
    if n > 0 {
        lemma_decimal_leads(n as nat);
    }
    assert forall|i: int| 0 <= i < r@.len() implies '0' <= #[trigger] r@[i] <= '9' by {
        assert(digit_value(decimal_text(n as nat)[i]) is Some);
    }
}

proof fn lemma_decimal_leads(n: nat)
    requires
        n > 0,
    ensures
        decimal_text(n).len() > 0,
        decimal_text(n)[0] != '0',
    decreases n,
{
    if n >= 10 {
        lemma_decimal_leads(n / 10);
    }
}

/// One more digit makes ten times the number and the digit.
pub proof fn law_digits_are_positional(s: Seq<char>, c: char, high: nat)
    requires
        digits_value(s) == Some(high),
    ensures
        '0' <= c <= '9' ==> digits_value(s.push(c)) == Some(
            (high * 10 + (c as u32 - '0' as u32)) as nat,
        ),
        !('0' <= c <= '9') ==> digits_value(s.push(c)) is None,
{
    assert(s.push(c).drop_last() =~= s);
}

/// A text is filled up behind its end, with dots only, and exactly to the width; a text that is
/// as long or longer stays as it is.
pub proof fn law_padding_fills_up(s: String, width: usize, r: String)
    requires
        call_ensures(pad_with_dots, (s, width), r),
    ensures
        s@.len() >= width ==> r@ == s@,
        s@.len() < width ==> r@.len() == width,
        forall|i: int| 0 <= i < s@.len() ==> #[trigger] r@[i] == s@[i],
        forall|i: int| s@.len() <= i < r@.len() ==> #[trigger] r@[i] == '.',
{
    if s@.len() >= width {
        assert(r@ =~= s@);
    }
}


} // verus!
