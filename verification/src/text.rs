//! Text: comparing, searching, joining and writing numbers.

use vstd::prelude::*;

verus! {

/// Whether two pieces of text hold the same characters.
pub fn same_text(a: &str, b: &str) -> (r: bool)
    ensures
        r == (a@ == b@),
{
    let owned_a = a.to_string();
    let owned_b = b.to_string();
    owned_a == owned_b
}

/// The characters of `s`, one by one.
pub fn chars_of(s: &str) -> (v: Vec<char>)
    ensures
        v@ == s@,
{
    let n = s.unicode_len();
    let mut v: Vec<char> = Vec::new();
    let mut i: usize = 0;
    while i < n
        invariant
            i <= n,
            n == s@.len(),
            v@ == s@.subrange(0, i as int),
        decreases n - i,
    {
        v.push(s.get_char(i));
        i += 1;
    }
    assert(s@.subrange(0, n as int) == s@);
    v
}

/// Whether `needle` stands in `hay` at position `at`.
pub open spec fn occurs_at(hay: Seq<char>, needle: Seq<char>, at: int) -> bool {
    &&& 0 <= at
    &&& at + needle.len() <= hay.len()
    &&& hay.subrange(at, at + needle.len()) == needle
}

/// Whether `needle` stands somewhere in `hay`.
pub open spec fn contains_text(hay: Seq<char>, needle: Seq<char>) -> bool {
    exists|at: int| occurs_at(hay, needle, at)
}

fn matches_at(hay: &Vec<char>, needle: &Vec<char>, at: usize) -> (r: bool)
    requires
        at + needle.len() <= hay.len(),
    ensures
        r == occurs_at(hay@, needle@, at as int),
{
    let mut j: usize = 0;
    while j < needle.len()
        invariant
            j <= needle.len(),
            at + needle.len() <= hay.len(),
            forall|k: int| 0 <= k < j ==> hay@[at + k] == needle@[k],
        decreases needle.len() - j,
    {
        if hay[at + j] != needle[j] {
            assert(hay@.subrange(at as int, at + needle.len())[j as int] == hay@[at + j]);
            return false;
        }
        j += 1;
    }
    assert(hay@.subrange(at as int, at + needle.len()) =~= needle@);
    true
}

/// Whether `needle` stands somewhere in `hay`.
pub fn contains(hay: &str, needle: &str) -> (r: bool)
    ensures
        r == contains_text(hay@, needle@),
{
    let h = chars_of(hay);
    let n = chars_of(needle);
    if n.len() > h.len() {
        return false;
    }
    if n.len() == 0 {
        assert(h@.subrange(0, 0) =~= n@);
        assert(occurs_at(h@, n@, 0));
        return true;
    }
    let last: usize = h.len() - n.len();
    let mut at: usize = 0;
    while at <= last
        invariant
            at <= last + 1,
            last == h.len() - n.len(),
            0 < n.len() <= h.len(),
            h@ == hay@,
            n@ == needle@,
            forall|k: int| 0 <= k < at ==> !occurs_at(h@, n@, k),
        decreases last + 1 - at,
    {
        if matches_at(&h, &n, at) {
            return true;
        }
        at += 1;
    }
    false
}

/// The characters of a text that may be missing.
pub open spec fn option_text(value: Option<String>) -> Option<Seq<char>> {
    match value {
        Some(s) => Some(s@),
        None => None,
    }
}

/// What `{:?}` writes for a text that may be missing.
pub uninterp spec fn debug_text(value: Option<Seq<char>>) -> Seq<char>;

/// The `{:?}` rendering of a text that may be missing, as std's `format!`
/// writes it: `None`, or `Some(..)` round the quoted and escaped text. The
/// rendering is a function of the characters alone.
#[verifier::external_body]
pub(crate) fn debug_of(value: &Option<String>) -> (r: String)
    ensures
        r@ == debug_text(option_text(*value)),
{
    format!("{:?}", value)
}

/// `head` followed by `tail`.
pub fn join2(head: &str, tail: &str) -> (r: String)
    ensures
        r@ == head@ + tail@,
{
    head.to_string().concat(tail)
}

/// A copy of a text that may be missing.
pub fn clone_option(value: &Option<String>) -> (r: Option<String>)
    ensures
        r == *value,
{
    match value {
        Some(s) => Some(s.clone()),
        None => None,
    }
}

/// Whether one of `texts` is `wanted`.
pub fn contains_token(texts: &Vec<String>, wanted: &str) -> (r: bool)
    ensures
        r == crate::strmap::views_of(texts@).contains(wanted@),
{
    let owned = wanted.to_string();
    let mut i: usize = 0;
    while i < texts.len()
        invariant
            i <= texts.len(),
            owned@ == wanted@,
            forall|j: int| 0 <= j < i ==> crate::strmap::views_of(texts@)[j] != wanted@,
        decreases texts.len() - i,
    {
        if texts[i] == owned {
            assert(crate::strmap::views_of(texts@)[i as int] == wanted@);
            return true;
        }
        i += 1;
    }
    false
}

/// The text of one decimal digit.
pub open spec fn digit_text(d: int) -> Seq<char> {
    if d == 0 {
        "0"@
    } else if d == 1 {
        "1"@
    } else if d == 2 {
        "2"@
    } else if d == 3 {
        "3"@
    } else if d == 4 {
        "4"@
    } else if d == 5 {
        "5"@
    } else if d == 6 {
        "6"@
    } else if d == 7 {
        "7"@
    } else if d == 8 {
        "8"@
    } else {
        "9"@
    }
}

/// The decimal digits of a number that is not negative, without leading
/// zeros.
pub open spec fn natural_text(n: int) -> Seq<char>
    decreases n,
{
    if n < 10 {
        digit_text(n)
    } else {
        natural_text(n / 10) + digit_text(n % 10)
    }
}

/// Each digit is written as one character, and two digits are written alike
/// only where they are the same.
pub proof fn lemma_digit_texts_differ(a: int, b: int)
    requires
        0 <= a < 10,
        0 <= b < 10,
    ensures
        digit_text(a).len() == 1,
        digit_text(b).len() == 1,
        digit_text(a)[0] == digit_text(b)[0] ==> a == b,
{
    reveal_strlit("0");
    reveal_strlit("1");
    reveal_strlit("2");
    reveal_strlit("3");
    reveal_strlit("4");
    reveal_strlit("5");
    reveal_strlit("6");
    reveal_strlit("7");
    reveal_strlit("8");
    reveal_strlit("9");
}

/// A number is written with at least one digit, and with two or more from
/// ten on.
pub proof fn lemma_natural_text_len(n: int)
    requires
        0 <= n,
    ensures
        natural_text(n).len() >= 1,
        n >= 10 ==> natural_text(n).len() >= 2,
    decreases n,
{
    lemma_digit_texts_differ(n % 10, n % 10);
    if n >= 10 {
        lemma_natural_text_len(n / 10);
    }
}

/// Two numbers are written alike only where they are the same.
pub proof fn lemma_natural_texts_differ(a: int, b: int)
    requires
        0 <= a,
        0 <= b,
        natural_text(a) == natural_text(b),
    ensures
        a == b,
    decreases a,
{
    lemma_natural_text_len(a);
    lemma_natural_text_len(b);
    lemma_digit_texts_differ(a % 10, b % 10);
    if a >= 10 && b >= 10 {
        let head_a = natural_text(a / 10);
        let head_b = natural_text(b / 10);
        let text = natural_text(a);
        assert(text == head_a + digit_text(a % 10));
        assert(text == head_b + digit_text(b % 10));
        assert(text.last() == digit_text(a % 10)[0]);
        assert(text.last() == digit_text(b % 10)[0]);
        assert(text.drop_last() =~= head_a);
        assert(text.drop_last() =~= head_b);
        lemma_natural_texts_differ(a / 10, b / 10);
    }
}

/// A number as it is written in decimal, with a minus sign where it is
/// negative.
pub open spec fn decimal_text(n: int) -> Seq<char> {
    if n < 0 {
        "-"@ + natural_text(-n)
    } else {
        natural_text(n)
    }
}

/// The text of one decimal digit.
fn digit(d: u128) -> (r: &'static str)
    requires
        d < 10,
    ensures
        r@ == digit_text(d as int),
{
    if d == 0 {
        "0"
    } else if d == 1 {
        "1"
    } else if d == 2 {
        "2"
    } else if d == 3 {
        "3"
    } else if d == 4 {
        "4"
    } else if d == 5 {
        "5"
    } else if d == 6 {
        "6"
    } else if d == 7 {
        "7"
    } else if d == 8 {
        "8"
    } else {
        "9"
    }
}

/// The decimal digits of `n`.
pub fn natural(n: u128) -> (r: String)
    ensures
        r@ == natural_text(n as int),
    decreases n,
{
    if n < 10 {
        digit(n).to_string()
    } else {
        let head = natural(n / 10);
        head.concat(digit(n % 10))
    }
}

/// `n` as it is written in decimal.
pub fn decimal(n: i64) -> (r: String)
    ensures
        r@ == decimal_text(n as int),
{
    if n < 0 {
        let magnitude: u128 = (-(n as i128)) as u128;
        join2("-", natural(magnitude).as_str())
    } else {
        natural(n as u128)
    }
}

/// `n` as it is written in decimal.
pub fn decimal_count(n: usize) -> (r: String)
    ensures
        r@ == decimal_text(n as int),
{
    natural(n as u128)
}

/// A count as it is written in decimal with at least three digits, zeros in
/// front where there are fewer.
pub open spec fn padded_text(n: int) -> Seq<char> {
    if n < 10 {
        "00"@ + natural_text(n)
    } else if n < 100 {
        "0"@ + natural_text(n)
    } else {
        natural_text(n)
    }
}

/// `n` as it is written in decimal with at least three digits.
pub fn padded(n: usize) -> (r: String)
    ensures
        r@ == padded_text(n as int),
{
    let digits = natural(n as u128);
    if n < 10 {
        join2("00", digits.as_str())
    } else if n < 100 {
        join2("0", digits.as_str())
    } else {
        digits
    }
}

/// The texts of `parts` one behind the other, with `separator` between each
/// two.
pub open spec fn joined(parts: Seq<Seq<char>>, separator: Seq<char>) -> Seq<char>
    decreases parts.len(),
{
    if parts.len() == 0 {
        Seq::empty()
    } else if parts.len() == 1 {
        parts[0]
    } else {
        joined(parts.drop_last(), separator) + separator + parts.last()
    }
}

/// The texts of `parts` one behind the other, with `separator` between each
/// two.
pub fn join(parts: &Vec<String>, separator: &str) -> (r: String)
    ensures
        r@ == joined(crate::strmap::views_of(parts@), separator@),
{
    let ghost all = crate::strmap::views_of(parts@);
    if parts.len() == 0 {
        return String::new();
    }
    let mut r = parts[0].clone();
    let mut i: usize = 1;
    assert(all.subrange(0, 1).len() == 1 && all.subrange(0, 1)[0] == all[0]);
    while i < parts.len()
        invariant
            1 <= i <= parts.len(),
            all == crate::strmap::views_of(parts@),
            r@ == joined(all.subrange(0, i as int), separator@),
        decreases parts.len() - i,
    {
        proof {
            let upto = all.subrange(0, i + 1);
            assert(upto.drop_last() =~= all.subrange(0, i as int));
            assert(upto.last() == parts@[i as int]@);
        }
        r = r.concat(separator);
        r = r.concat(parts[i].as_str());
        i += 1;
    }
    assert(all.subrange(0, all.len() as int) =~= all);
    r
}

/// `c` appended to a text, as std's `String::push` appends it.
#[verifier::external_body]
pub(crate) fn push_char(text: &mut String, c: char)
    ensures
        final(text)@ == old(text)@.push(c),
{
    text.push(c);
}

/// The text that holds the characters given.
pub fn text_of(chars: &Vec<char>) -> (r: String)
    ensures
        r@ == chars@,
{
    let mut r = String::new();
    let mut i: usize = 0;
    while i < chars.len()
        invariant
            i <= chars.len(),
            r@ == chars@.subrange(0, i as int),
        decreases chars.len() - i,
    {
        push_char(&mut r, chars[i]);
        i += 1;
    }
    assert(chars@.subrange(0, chars@.len() as int) == chars@);
    r
}

/// A text with every `from` turned into `to`.
pub open spec fn with_char_replaced(text: Seq<char>, from: char, to: char) -> Seq<char> {
    Seq::new(
        text.len(),
        |i: int|
            if text[i] == from {
                to
            } else {
                text[i]
            },
    )
}

/// `text` with every `from` turned into `to`.
pub fn replace_char(text: &str, from: char, to: char) -> (r: String)
    ensures
        r@ == with_char_replaced(text@, from, to),
{
    let chars = chars_of(text);
    let mut out: Vec<char> = Vec::new();
    let mut i: usize = 0;
    while i < chars.len()
        invariant
            i <= chars.len(),
            chars@ == text@,
            out@ == with_char_replaced(text@, from, to).subrange(0, i as int),
        decreases chars.len() - i,
    {
        let c = chars[i];
        out.push(if c == from {
            to
        } else {
            c
        });
        i += 1;
    }
    assert(with_char_replaced(text@, from, to).subrange(0, text@.len() as int)
        == with_char_replaced(text@, from, to));
    text_of(&out)
}

/// A template with `value` in place of every occurrence of `placeholder`,
/// found from left to right. An empty placeholder occurs nowhere.
pub open spec fn filled(template: Seq<char>, placeholder: Seq<char>, value: Seq<char>) -> Seq<char>
    decreases template.len(),
{
    if placeholder.len() == 0 || template.len() < placeholder.len() {
        template
    } else if template.subrange(0, placeholder.len() as int) == placeholder {
        value + filled(template.skip(placeholder.len() as int), placeholder, value)
    } else {
        seq![template[0]] + filled(template.skip(1), placeholder, value)
    }
}

/// `template` with `value` in place of every occurrence of `placeholder`.
pub fn fill_placeholders(template: &str, placeholder: &str, value: &str) -> (r: String)
    ensures
        r@ == filled(template@, placeholder@, value@),
{
    let t = chars_of(template);
    let p = chars_of(placeholder);
    let v = chars_of(value);
    if p.len() == 0 {
        return text_of(&t);
    }
    let mut out: Vec<char> = Vec::new();
    let mut i: usize = 0;
    assert(t@.skip(0) =~= t@);
    while i < t.len() && t.len() - i >= p.len()
        invariant
            i <= t.len(),
            p.len() > 0,
            t@ == template@,
            p@ == placeholder@,
            v@ == value@,
            out@ + filled(t@.skip(i as int), p@, v@) == filled(t@, p@, v@),
        decreases t.len() - i,
    {
        let ghost rest = t@.skip(i as int);
        if matches_at(&t, &p, i) {
            assert(rest.subrange(0, p@.len() as int) =~= t@.subrange(i as int, i + p@.len()));
            assert(rest.skip(p@.len() as int) =~= t@.skip(i + p@.len()));
            let ghost before = out@;
            let mut k: usize = 0;
            while k < v.len()
                invariant
                    k <= v.len(),
                    out@ == before + v@.subrange(0, k as int),
                decreases v.len() - k,
            {
                out.push(v[k]);
                k += 1;
            }
            assert(v@.subrange(0, v@.len() as int) == v@);
            assert(out@ + filled(t@.skip(i + p@.len()), p@, v@) =~= before + (v@ + filled(
                rest.skip(p@.len() as int),
                p@,
                v@,
            )));
            i += p.len();
        } else {
            assert(rest.subrange(0, p@.len() as int) =~= t@.subrange(i as int, i + p@.len()));
            assert(rest.skip(1) =~= t@.skip(i + 1));
            assert(rest[0] == t@[i as int]);
            let ghost before = out@;
            out.push(t[i]);
            assert(out@ + filled(t@.skip(i + 1), p@, v@) =~= before + (seq![rest[0]] + filled(
                rest.skip(1),
                p@,
                v@,
            )));
            i += 1;
        }
    }
    let ghost done = out@;
    let mut j: usize = i;
    assert(filled(t@.skip(i as int), p@, v@) == t@.skip(i as int));
    while j < t.len()
        invariant
            i <= j <= t.len(),
            out@ == done + t@.subrange(i as int, j as int),
        decreases t.len() - j,
    {
        out.push(t[j]);
        j += 1;
    }
    assert(t@.subrange(i as int, t@.len() as int) =~= t@.skip(i as int));
    text_of(&out)
}

/// Ten to the power of `n`.
pub open spec fn power_of_ten(n: int) -> int
    decreases n,
{
    if n <= 0 {
        1
    } else {
        10 * power_of_ten(n - 1)
    }
}

/// The digits behind the decimal point of a fraction given as a count of
/// units of ten to the power of minus `width`, without zeros at the end.
pub open spec fn fraction_text(fraction: int, width: int) -> Seq<char>
    decreases width,
{
    if width <= 0 || fraction <= 0 {
        Seq::empty()
    } else {
        digit_text(fraction / power_of_ten(width - 1)) + fraction_text(
            fraction % power_of_ten(width - 1),
            width - 1,
        )
    }
}

/// A fixed-point number as it is written in decimal: the whole part, and
/// behind a point as many of the six digits as are needed.
pub open spec fn fixed_text(x: int) -> Seq<char> {
    let magnitude = if x < 0 {
        -x
    } else {
        x
    };
    let sign = if x < 0 {
        "-"@
    } else {
        Seq::<char>::empty()
    };
    let whole = natural_text(magnitude / 1_000_000);
    if magnitude % 1_000_000 == 0 {
        sign + whole
    } else {
        sign + whole + "."@ + fraction_text(magnitude % 1_000_000, 6)
    }
}

/// The digits behind the decimal point of `fraction` millionths.
fn fraction_digits(millionths: u128) -> (r: String)
    requires
        millionths < 1_000_000,
    ensures
        r@ == fraction_text(millionths as int, 6),
{
    let mut r = String::new();
    let mut rest: u128 = millionths;
    let mut width: usize = 6;
    let mut unit: u128 = 100_000;
    assert(power_of_ten(5) == 100_000) by {
        assert(power_of_ten(0) == 1);
        assert(power_of_ten(1) == 10);
        assert(power_of_ten(2) == 100);
        assert(power_of_ten(3) == 1_000);
        assert(power_of_ten(4) == 10_000);
    }
    assert(r@ + fraction_text(rest as int, width as int) =~= fraction_text(millionths as int, 6));
    while width > 0 && rest > 0
        invariant
            width <= 6,
            width > 0 ==> unit == power_of_ten(width - 1),
            width > 0 ==> rest < 10 * unit,
            width == 0 ==> rest == 0,
            r@ + fraction_text(rest as int, width as int) == fraction_text(millionths as int, 6),
        decreases width,
    {
        let ghost before = r@;
        let d = rest / unit;
        assert(d < 10) by (nonlinear_arith)
            requires
                d == rest / unit,
                rest < 10 * unit,
                unit > 0,
        ;
        r = r.concat(digit(d));
        rest = rest % unit;
        width = width - 1;
        if width > 0 {
            unit = unit / 10;
            assert(power_of_ten(width as int) == 10 * power_of_ten(width - 1));
        }
        assert(before + (digit_text(d as int) + fraction_text(rest as int, width as int)) =~= r@
            + fraction_text(rest as int, width as int));
    }
    assert(fraction_text(rest as int, width as int) =~= Seq::<char>::empty());
    assert(r@ + Seq::<char>::empty() =~= r@);
    r
}

/// `x` as it is written in decimal.
pub fn fixed(x: i64) -> (r: String)
    ensures
        r@ == fixed_text(x as int),
{
    let magnitude: u128 = if x < 0 {
        (-(x as i128)) as u128
    } else {
        x as u128
    };
    let sign = if x < 0 {
        "-"
    } else {
        ""
    };
    proof {
        reveal_strlit("");
        assert(""@ =~= Seq::<char>::empty());
    }
    let whole = natural(magnitude / 1_000_000);
    let head = join2(sign, whole.as_str());
    if magnitude % 1_000_000 == 0 {
        head
    } else {
        let pointed = join2(head.as_str(), ".");
        join2(pointed.as_str(), fraction_digits(magnitude % 1_000_000).as_str())
    }
}

/// Whether a character counts as white space for std's `char::is_whitespace`.
pub uninterp spec fn whitespace(c: char) -> bool;

/// Whether `c` is white space by std's `char::is_whitespace`, which goes by
/// the Unicode property of that name.
#[verifier::external_body]
pub(crate) fn is_space(c: char) -> (r: bool)
    ensures
        r == whitespace(c),
{
    c.is_whitespace()
}

/// The word in the making, as a list of one word, or of none where it is
/// empty.
pub open spec fn finished(current: Seq<char>) -> Seq<Seq<char>> {
    if current.len() > 0 {
        seq![current]
    } else {
        Seq::empty()
    }
}

/// The words of `text` from place `i` on, with `current` the word in the
/// making, where `gaps` says of each place whether it separates words.
pub open spec fn words_from(text: Seq<char>, gaps: Seq<bool>, current: Seq<char>, i: int) -> Seq<
    Seq<char>,
>
    decreases text.len() - i,
{
    if i < 0 || i >= text.len() {
        finished(current)
    } else if gaps[i] {
        finished(current) + words_from(text, gaps, Seq::empty(), i + 1)
    } else {
        words_from(text, gaps, current.push(text[i]), i + 1)
    }
}

/// For each place of `text`, whether white space stands there.
pub open spec fn gaps_of(text: Seq<char>) -> Seq<bool> {
    Seq::new(text.len(), |i: int| whitespace(text[i]))
}

/// The words of `text`: what stands between white space.
pub open spec fn words_of(text: Seq<char>) -> Seq<Seq<char>> {
    words_from(text, gaps_of(text), Seq::empty(), 0)
}

/// The words that `chars` spell, where `gaps` says of each place whether it
/// separates words: a word is a longest run of places that do not.
pub fn split_words(chars: &Vec<char>, gaps: &Vec<bool>) -> (r: Vec<String>)
    requires
        gaps@.len() == chars@.len(),
    ensures
        crate::strmap::views_of(r@) == words_from(chars@, gaps@, Seq::empty(), 0),
{
    let mut out: Vec<String> = Vec::new();
    let mut current: Vec<char> = Vec::new();
    let mut i: usize = 0;
    let ghost whole = words_from(chars@, gaps@, Seq::empty(), 0);
    assert(crate::strmap::views_of(out@) + words_from(chars@, gaps@, current@, 0) =~= whole);
    while i < chars.len()
        invariant
            i <= chars.len(),
            gaps@.len() == chars@.len(),
            whole == words_from(chars@, gaps@, Seq::empty(), 0),
            crate::strmap::views_of(out@) + words_from(chars@, gaps@, current@, i as int) == whole,
        decreases chars.len() - i,
    {
        let ghost before = crate::strmap::views_of(out@);
        let ghost word = current@;
        if gaps[i] {
            if current.len() > 0 {
                out.push(text_of(&current));
                current = Vec::new();
                assert(crate::strmap::views_of(out@) =~= before + finished(word));
            } else {
                assert(finished(word) =~= Seq::<Seq<char>>::empty());
            }
            assert(current@ =~= Seq::<char>::empty());
            assert(before + (finished(word) + words_from(chars@, gaps@, Seq::empty(), i + 1))
                =~= crate::strmap::views_of(out@) + words_from(chars@, gaps@, current@, i + 1));
        } else {
            current.push(chars[i]);
        }
        i += 1;
    }
    let ghost before = crate::strmap::views_of(out@);
    if current.len() > 0 {
        out.push(text_of(&current));
        assert(crate::strmap::views_of(out@) =~= before + finished(current@));
    } else {
        assert(before + finished(current@) =~= before);
    }
    out
}

/// The words of `text`: what stands between white space.
pub fn words(text: &str) -> (r: Vec<String>)
    ensures
        crate::strmap::views_of(r@) == words_of(text@),
{
    let chars = chars_of(text);
    let mut gaps: Vec<bool> = Vec::new();
    let mut i: usize = 0;
    while i < chars.len()
        invariant
            i <= chars.len(),
            chars@ == text@,
            gaps@ == gaps_of(text@).subrange(0, i as int),
        decreases chars.len() - i,
    {
        gaps.push(is_space(chars[i]));
        i += 1;
    }
    assert(gaps_of(text@).subrange(0, text@.len() as int) == gaps_of(text@));
    split_words(&chars, &gaps)
}

/// The text that std's `String::from_utf8_lossy` makes of bytes: what they
/// spell in UTF-8, with the replacement character for what spells nothing.
pub uninterp spec fn lossy_text(bytes: Seq<u8>) -> Seq<char>;

/// The text that std's `String::from_utf8_lossy` makes of `bytes`, which
/// depends on the bytes alone.
#[verifier::external_body]
pub(crate) fn lossy(bytes: &[u8]) -> (r: String)
    ensures
        r@ == lossy_text(bytes@),
{
    String::from_utf8_lossy(bytes).into_owned()
}

/// The lower-case form of a text, as std's `str::to_lowercase` gives it.
pub uninterp spec fn lowercase_text(text: Seq<char>) -> Seq<char>;

/// The lower-case form of `text` by std's `str::to_lowercase`, which follows
/// the Unicode tables and depends on the characters alone.
#[verifier::external_body]
pub(crate) fn lowercase(text: &str) -> (r: String)
    ensures
        r@ == lowercase_text(text@),
{
    text.to_lowercase()
}

/// A copy of each text in `texts`, in the same order.
pub fn clone_texts(texts: &Vec<String>) -> (r: Vec<String>)
    ensures
        r@ == texts@,
{
    let mut r: Vec<String> = Vec::new();
    let mut i: usize = 0;
    while i < texts.len()
        invariant
            i <= texts.len(),
            r@ == texts@.subrange(0, i as int),
        decreases texts.len() - i,
    {
        r.push(texts[i].clone());
        i += 1;
    }
    assert(texts@.subrange(0, texts.len() as int) == texts@);
    r
}

} // verus!
