//! Text helpers shared by the rest of the library: comparison, decimal
//! numerals, whitespace trimming and lower-casing.

use vstd::prelude::*;

verus! {

/// The views of the strings of `lines`, in order.
pub open spec fn texts(lines: Seq<String>) -> Seq<Seq<char>> {
    lines.map_values(|line: String| line@)
}

/// The view of an optional string.
pub open spec fn text_of(text: Option<String>) -> Option<Seq<char>> {
    match text {
        Some(text) => Some(text@),
        None => None,
    }
}

/// Whether `needle` occurs in `hay` as a run of consecutive characters.
pub open spec fn occurs_in(needle: Seq<char>, hay: Seq<char>) -> bool {
    exists|at: int|
        0 <= at && at + needle.len() <= hay.len() && #[trigger] hay.subrange(
            at,
            at + needle.len(),
        ) == needle
}

/// The decimal digit for `d`, which is meant to be below ten.
pub open spec fn digit(d: nat) -> char {
    if d == 0 {
        '0'
    } else if d == 1 {
        '1'
    } else if d == 2 {
        '2'
    } else if d == 3 {
        '3'
    } else if d == 4 {
        '4'
    } else if d == 5 {
        '5'
    } else if d == 6 {
        '6'
    } else if d == 7 {
        '7'
    } else if d == 8 {
        '8'
    } else {
        '9'
    }
}

/// The decimal numeral of `n`, without sign or leading zeros.
pub open spec fn decimal(n: nat) -> Seq<char>
    decreases n,
{
    if n < 10 {
        seq![digit(n)]
    } else {
        decimal(n / 10).push(digit(n % 10))
    }
}

/// Whether `c` is white space in the sense of Unicode's `White_Space` property.
pub open spec fn is_whitespace(c: char) -> bool {
    let code = c as u32;
    ||| 0x09 <= code <= 0x0D
    ||| code == 0x20
    ||| code == 0x85
    ||| code == 0xA0
    ||| code == 0x1680
    ||| 0x2000 <= code <= 0x200A
    ||| code == 0x2028
    ||| code == 0x2029
    ||| code == 0x202F
    ||| code == 0x205F
    ||| code == 0x3000
}

/// `text` without its leading white space.
pub open spec fn trim_start(text: Seq<char>) -> Seq<char>
    decreases text.len(),
{
    if text.len() > 0 && is_whitespace(text.first()) {
        trim_start(text.drop_first())
    } else {
        text
    }
}

/// `text` without its trailing white space.
pub open spec fn trim_end(text: Seq<char>) -> Seq<char>
    decreases text.len(),
{
    if text.len() > 0 && is_whitespace(text.last()) {
        trim_end(text.drop_last())
    } else {
        text
    }
}

/// `text` without the white space that surrounds it.
pub open spec fn trimmed(text: Seq<char>) -> Seq<char> {
    trim_end(trim_start(text))
}

/// How many white-space characters `text` begins with.
pub open spec fn leading_whitespace(text: Seq<char>) -> nat
    decreases text.len(),
{
    if text.len() > 0 && is_whitespace(text.first()) {
        1 + leading_whitespace(text.drop_first())
    } else {
        0
    }
}

/// How many white-space characters `text` ends with.
pub open spec fn trailing_whitespace(text: Seq<char>) -> nat
    decreases text.len(),
{
    if text.len() > 0 && is_whitespace(text.last()) {
        1 + trailing_whitespace(text.drop_last())
    } else {
        0
    }
}

/// The lower-case form that `str::to_lowercase` gives to `text`.
pub uninterp spec fn lowercase(text: Seq<char>) -> Seq<char>;

/// Calls `str::to_lowercase`, which maps each character by Unicode's
/// `Lowercase` rules. The result is a function of the text alone; the
/// contract names it and claims nothing else of it.
#[verifier::external_body]
pub(crate) fn to_lowercase(text: &str) -> (lower: String)
    ensures
        lower@ == lowercase(text@),
{
    text.to_lowercase()
}

/// Tells whether two strings hold the same characters.
pub fn same_text(a: &str, b: &str) -> (same: bool)
    ensures
        same == (a@ == b@),
{
    let left = a.to_owned();
    let right = b.to_owned();
    left == right
}

/// The characters of `text`, one by one.
pub fn characters(text: &str) -> (chars: Vec<char>)
    ensures
        chars@ == text@,
{
    let mut chars: Vec<char> = Vec::new();
    for c in it: text.chars()
        invariant
            it.seq() == text@,
            chars@ == text@.take(it.index() as int),
    {
        chars.push(c);
    }
    chars
}

/// The numeral of one digit.
fn digit_text(d: u64) -> (text: &'static str)
    requires
        d < 10,
    ensures
        text@ == seq![digit(d as nat)],
{
    proof {
        reveal_strlit("0");
        reveal_strlit("1");
        reveal_strlit("2");
        reveal_strlit("3");
        reveal_strlit("4");
        reveal_strlit("5");
        reveal_strlit("6");
        reveal_strlit("7");
        reveal_strlit("8");
        reveal_strlit("9");
    }
    let text = if d == 0 {
        "0"
    } else if d == 1 {
        "1"
    } else if d == 2 {
        "2"
    } else if d == 3 {
        "3"
    } else if d == 4 {
        "4"
    } else if d == 5 {
        "5"
    } else if d == 6 {
        "6"
    } else if d == 7 {
        "7"
    } else if d == 8 {
        "8"
    } else {
        "9"
    };
    assert(text@ =~= seq![digit(d as nat)]);
    text
}

/// Writes `n` as a decimal numeral.
pub fn decimal_text(n: u64) -> (text: String)
    ensures
        text@ == decimal(n as nat),
    decreases n,
{
    if n < 10 {
        digit_text(n).to_owned()
    } else {
        let mut text = decimal_text(n / 10);
        text.append(digit_text(n % 10));
        assert(text@ =~= decimal((n / 10) as nat).push(digit((n % 10) as nat)));
        text
    }
}

/// Tells whether `c` is white space.
pub fn whitespace(c: char) -> (white: bool)
    ensures
        white == is_whitespace(c),
{
    let code: u32 = c as u32;
    (0x09 <= code && code <= 0x0D) || code == 0x20 || code == 0x85 || code == 0xA0 || code
        == 0x1680 || (0x2000 <= code && code <= 0x200A) || code == 0x2028 || code == 0x2029 || code
        == 0x202F || code == 0x205F || code == 0x3000
}

/// Leading white space can be skipped one character at a time.
proof fn lemma_trim_start_skips(text: Seq<char>, from: int)
    requires
        0 <= from <= text.len(),
        forall|i: int| 0 <= i < from ==> is_whitespace(#[trigger] text[i]),
    ensures
        trim_start(text) == trim_start(text.subrange(from, text.len() as int)),
    decreases from,
{
    if from == 0 {
        assert(text.subrange(0, text.len() as int) =~= text);
    } else {
        assert(is_whitespace(text[0]));
        let rest = text.drop_first();
        assert forall|i: int| 0 <= i < from - 1 implies is_whitespace(#[trigger] rest[i]) by {
            assert(rest[i] == text[i + 1]);
        }
        lemma_trim_start_skips(rest, from - 1);
        assert(rest.subrange(from - 1, rest.len() as int) =~= text.subrange(
            from,
            text.len() as int,
        ));
    }
}

/// Trailing white space can be dropped one character at a time.
proof fn lemma_trim_end_drops(text: Seq<char>, to: int)
    requires
        0 <= to <= text.len(),
        forall|i: int| to <= i < text.len() ==> is_whitespace(#[trigger] text[i]),
    ensures
        trim_end(text) == trim_end(text.subrange(0, to)),
    decreases text.len() - to,
{
    if to == text.len() {
        assert(text.subrange(0, to) =~= text);
    } else {
        assert(is_whitespace(text[text.len() - 1]));
        let rest = text.drop_last();
        assert forall|i: int| to <= i < rest.len() implies is_whitespace(#[trigger] rest[i]) by {
            assert(rest[i] == text[i]);
        }
        lemma_trim_end_drops(rest, to);
        assert(rest.subrange(0, to) =~= text.subrange(0, to));
    }
}

/// Trimming at the start removes the white space that `text` begins with,
/// and no more.
pub proof fn lemma_trim_start_is_a_suffix(text: Seq<char>)
    ensures
        leading_whitespace(text) <= text.len(),
        trim_start(text) == text.skip(leading_whitespace(text) as int),
        forall|i: int| 0 <= i < leading_whitespace(text) ==> is_whitespace(#[trigger] text[i]),
        trim_start(text).len() > 0 ==> !is_whitespace(trim_start(text).first()),
    decreases text.len(),
{
    if text.len() > 0 && is_whitespace(text.first()) {
        let rest = text.drop_first();
        lemma_trim_start_is_a_suffix(rest);
        assert(rest.skip(leading_whitespace(rest) as int) =~= text.skip(
            leading_whitespace(text) as int,
        ));
        assert forall|i: int| 0 <= i < leading_whitespace(text) implies is_whitespace(
            #[trigger] text[i],
        ) by {
            if i > 0 {
                assert(text[i] == rest[i - 1]);
            }
        }
    } else {
        assert(text.skip(0) =~= text);
    }
}

/// Trimming at the end removes the white space that `text` ends with, and
/// no more.
pub proof fn lemma_trim_end_is_a_prefix(text: Seq<char>)
    ensures
        trailing_whitespace(text) <= text.len(),
        trim_end(text) == text.take(text.len() - trailing_whitespace(text)),
        forall|i: int|
            text.len() - trailing_whitespace(text) <= i < text.len() ==> is_whitespace(
                #[trigger] text[i],
            ),
        trim_end(text).len() > 0 ==> !is_whitespace(trim_end(text).last()),
        trim_end(text).len() > 0 ==> trim_end(text).first() == text.first(),
    decreases text.len(),
{
    if text.len() > 0 && is_whitespace(text.last()) {
        let rest = text.drop_last();
        lemma_trim_end_is_a_prefix(rest);
        assert(rest.take(rest.len() - trailing_whitespace(rest)) =~= text.take(
            text.len() - trailing_whitespace(text),
        ));
        assert forall|i: int|
            text.len() - trailing_whitespace(text) <= i < text.len() implies is_whitespace(
            #[trigger] text[i],
        ) by {
            if i < text.len() - 1 {
                assert(text[i] == rest[i]);
            }
        }
    } else {
        assert(text.take(text.len() as int) =~= text);
    }
}

/// A trimmed text is the middle of the text it was trimmed from: it neither
/// begins nor ends with white space, and only white space was removed.
pub proof fn lemma_trimmed_is_the_middle(text: Seq<char>)
    ensures
        ({
            let from = leading_whitespace(text) as int;
            let to = text.len() - trailing_whitespace(text.skip(from));
            &&& 0 <= from <= to <= text.len()
            &&& trimmed(text) == text.subrange(from, to)
            &&& forall|i: int| 0 <= i < from ==> is_whitespace(#[trigger] text[i])
            &&& forall|i: int| to <= i < text.len() ==> is_whitespace(#[trigger] text[i])
            &&& trimmed(text).len() > 0 ==> !is_whitespace(trimmed(text).first())
                && !is_whitespace(trimmed(text).last())
        }),
{
    let from = leading_whitespace(text) as int;
    lemma_trim_start_is_a_suffix(text);
    let tail = text.skip(from);
    lemma_trim_end_is_a_prefix(tail);
    let to = text.len() - trailing_whitespace(tail);
    assert(tail.take(tail.len() - trailing_whitespace(tail)) =~= text.subrange(from, to));
    assert forall|i: int| to <= i < text.len() implies is_whitespace(#[trigger] text[i]) by {
        assert(text[i] == tail[i - from]);
    }
}

/// A decimal numeral is made of digits and begins with a zero only where it
/// is the numeral of zero.
pub proof fn lemma_decimal_is_digits(n: nat)
    ensures
        decimal(n).len() >= 1,
        forall|i: int| 0 <= i < decimal(n).len() ==> '0' <= #[trigger] decimal(n)[i] <= '9',
        n > 0 ==> decimal(n).first() != '0',
    decreases n,
{
    if n >= 10 {
        lemma_decimal_is_digits(n / 10);
        assert(decimal(n).first() == decimal(n / 10).first());
    }
}

/// Removes the white space that surrounds `text`.
pub fn trim(text: &str) -> (inner: String)
    ensures
        inner@ == trimmed(text@),
{
    let chars = characters(text);
    let len: usize = chars.len();
    let mut from: usize = 0;
    while from < len && whitespace(chars[from])
        invariant
            from <= len == chars.len(),
            forall|i: int| 0 <= i < from ==> is_whitespace(#[trigger] chars@[i]),
        decreases len - from,
    {
        from = from + 1;
    }
    let mut to: usize = len;
    while to > from && whitespace(chars[to - 1])
        invariant
            from <= to <= len == chars.len(),
            forall|i: int| to <= i < len ==> is_whitespace(#[trigger] chars@[i]),
        decreases to,
    {
        to = to - 1;
    }
    proof {
        let whole = text@;
        let tail = whole.subrange(from as int, len as int);
        let kept = whole.subrange(from as int, to as int);
        lemma_trim_start_skips(whole, from as int);
        assert(trim_start(tail) == tail);
        assert forall|i: int| to - from <= i < tail.len() implies is_whitespace(
            #[trigger] tail[i],
        ) by {
            assert(tail[i] == whole[i + from]);
        }
        lemma_trim_end_drops(tail, to - from);
        assert(tail.subrange(0, to - from) =~= kept);
        assert(trim_end(kept) == kept) by {
            if kept.len() > 0 {
                assert(kept.last() == whole[to - 1]);
            }
        }
    }
    text.substring_char(from, to).to_owned()
}

} // verus!
