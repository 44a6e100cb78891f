//! Text helpers shared by the other modules: trimming, lossy decoding of
//! bytes, quoting, and decimal rendering of counters.

use vstd::prelude::*;

verus! {

/// Whether `c` has the Unicode `White_Space` property, as `char::is_whitespace` decides it.
pub uninterp spec fn unicode_whitespace(c: char) -> bool;

/// The text that `String::from_utf8_lossy` yields for `bytes`.
pub uninterp spec fn lossy_text(bytes: Seq<u8>) -> Seq<char>;

/// The text that the `Debug` formatting of a string slice yields for `s`:
/// the content between double quotes, with escapes.
pub uninterp spec fn quoted_text(s: Seq<char>) -> Seq<char>;

/// Number of whitespace characters at the front of `s`.
pub open spec fn leading_whitespace(s: Seq<char>) -> nat
    decreases s.len(),
{
    if s.len() > 0 && unicode_whitespace(s[0]) {
        1 + leading_whitespace(s.subrange(1, s.len() as int))
    } else {
        0
    }
}

/// Number of whitespace characters at the back of `s`.
pub open spec fn trailing_whitespace(s: Seq<char>) -> nat
    decreases s.len(),
{
    if s.len() > 0 && unicode_whitespace(s[s.len() - 1]) {
        1 + trailing_whitespace(s.subrange(0, s.len() - 1))
    } else {
        0
    }
}

/// `s` without its leading and trailing whitespace.
pub open spec fn trimmed(s: Seq<char>) -> Seq<char> {
    if leading_whitespace(s) >= s.len() {
        Seq::empty()
    } else {
        s.subrange(leading_whitespace(s) as int, s.len() - trailing_whitespace(s))
    }
}

/// Calls `str::trim`. The contract claims what its documentation says: the
/// result is the slice left after every leading and every trailing character
/// with the `White_Space` property is removed. That property is the one that
/// `char::is_whitespace` decides; it is a table of the Unicode database, which
/// the documentation of `std` names and does not list, and so it is only named
/// here. The second clause says nothing new: `lemma_trimmed` proves it of
/// every text from the first.
#[verifier::external_body]
pub(crate) fn trim(s: &str) -> (r: &str)
    ensures
        r@ == trimmed(s@),
        r@.len() > 0 ==> !unicode_whitespace(r@[0]) && !unicode_whitespace(r@[r@.len() - 1]),
{
    s.trim()
}

/// The whitespace at the front of a text: it is as long as
/// `leading_whitespace` says, every character of it is whitespace, and the
/// character behind it, if there is one, is not.
pub proof fn lemma_leading_whitespace(s: Seq<char>)
    ensures
        leading_whitespace(s) <= s.len(),
        forall|i: int| 0 <= i < leading_whitespace(s) ==> unicode_whitespace(#[trigger] s[i]),
        leading_whitespace(s) < s.len() ==> !unicode_whitespace(s[leading_whitespace(s) as int]),
    decreases s.len(),
{
    if s.len() > 0 && unicode_whitespace(s[0]) {
        let rest = s.subrange(1, s.len() as int);
        lemma_leading_whitespace(rest);
        assert forall|i: int| 0 <= i < leading_whitespace(s) implies unicode_whitespace(
            #[trigger] s[i],
        ) by {
            if i > 0 {
                assert(s[i] == rest[i - 1]);
            }
        }
        if leading_whitespace(s) < s.len() {
            assert(s[leading_whitespace(s) as int] == rest[leading_whitespace(rest) as int]);
        }
    }
}

/// The whitespace at the back of a text: it is as long as
/// `trailing_whitespace` says, every character of it is whitespace, and the
/// character before it, if there is one, is not.
pub proof fn lemma_trailing_whitespace(s: Seq<char>)
    ensures
        trailing_whitespace(s) <= s.len(),
        forall|i: int|
            s.len() - trailing_whitespace(s) <= i < s.len() ==> unicode_whitespace(#[trigger] s[i]),
        trailing_whitespace(s) < s.len() ==> !unicode_whitespace(
            s[s.len() - 1 - trailing_whitespace(s)],
        ),
    decreases s.len(),
{
    if s.len() > 0 && unicode_whitespace(s[s.len() - 1]) {
        let rest = s.subrange(0, s.len() - 1);
        lemma_trailing_whitespace(rest);
        assert forall|i: int|
            s.len() - trailing_whitespace(s) <= i < s.len() implies unicode_whitespace(
            #[trigger] s[i],
        ) by {
            if i < s.len() - 1 {
                assert(s[i] == rest[i]);
            }
        }
        if trailing_whitespace(s) < s.len() {
            assert(s[s.len() - 1 - trailing_whitespace(s)] == rest[rest.len() - 1
                - trailing_whitespace(rest)]);
        }
    }
}

/// A trimmed text neither begins nor ends with whitespace, and it is the
/// part of the text between the whitespace at its two ends.
pub proof fn lemma_trimmed(s: Seq<char>)
    ensures
        trimmed(s).len() > 0 ==> !unicode_whitespace(trimmed(s)[0]) && !unicode_whitespace(
            trimmed(s)[trimmed(s).len() - 1],
        ),
        trimmed(s).len() == 0 <==> leading_whitespace(s) == s.len(),
        leading_whitespace(s) < s.len() ==> leading_whitespace(s) + trailing_whitespace(s)
            < s.len(),
{
    lemma_leading_whitespace(s);
    lemma_trailing_whitespace(s);
    if leading_whitespace(s) < s.len() {
        let first = leading_whitespace(s) as int;
        assert(!unicode_whitespace(s[first]));
        if first >= s.len() - trailing_whitespace(s) {
            assert(unicode_whitespace(s[first]));
        }
    }
}

/// Calls `String::from_utf8_lossy`. The contract names the result, which
/// depends on the bytes alone, and claims what the documentation says of
/// bytes that are valid UTF-8: they are decoded as they are.
#[verifier::external_body]
pub(crate) fn decode_lossy(bytes: &Vec<u8>) -> (r: String)
    ensures
        r@ == lossy_text(bytes@),
        vstd::utf8::valid_utf8(bytes@) ==> r@ == vstd::utf8::decode_utf8(bytes@),
{
    String::from_utf8_lossy(bytes).into_owned()
}

/// Formats `s` with `{:?}`. The contract only names the result: it depends
/// on the characters alone.
#[verifier::external_body]
pub(crate) fn quote(s: &str) -> (r: String)
    ensures
        r@ == quoted_text(s@),
{
    format!("{:?}", s)
}

/// The decimal digit that stands for `d`, for `d` below ten.
pub open spec fn digit_char(d: nat) -> char {
    if d == 0 {
        '0'
    } else if d == 1 {
        '1'
    } else if d == 2 {
        '2'
    } else if d == 3 {
        '3'
    } else if d == 4 {
        '4'
    } else if d == 5 {
        '5'
    } else if d == 6 {
        '6'
    } else if d == 7 {
        '7'
    } else if d == 8 {
        '8'
    } else {
        '9'
    }
}

/// The decimal numeral of `n`, without leading zeros.
pub open spec fn decimal_text(n: nat) -> Seq<char>
    decreases n,
{
    if n < 10 {
        seq![digit_char(n)]
    } else {
        decimal_text(n / 10).push(digit_char(n % 10))
    }
}

fn digit_str(d: u64) -> (r: &'static str)
    requires
        d < 10,
    ensures
        r@ == seq![digit_char(d as nat)],
{
    proof {
        reveal_strlit("0");
        reveal_strlit("1");
        reveal_strlit("2");
        reveal_strlit("3");
        reveal_strlit("4");
        reveal_strlit("5");
        reveal_strlit("6");
        reveal_strlit("7");
        reveal_strlit("8");
        reveal_strlit("9");
    }
    let r = if d == 0 {
        "0"
    } else if d == 1 {
        "1"
    } else if d == 2 {
        "2"
    } else if d == 3 {
        "3"
    } else if d == 4 {
        "4"
    } else if d == 5 {
        "5"
    } else if d == 6 {
        "6"
    } else if d == 7 {
        "7"
    } else if d == 8 {
        "8"
    } else {
        "9"
    };
    assert(r@ =~= seq![digit_char(d as nat)]);
    r
}

/// Renders `n` in decimal.
pub fn decimal(n: u64) -> (r: String)
    ensures
        r@ == decimal_text(n as nat),
    decreases n,
{
    if n < 10 {
        digit_str(n).to_string()
    } else {
        let mut head = decimal(n / 10);
        head.append(digit_str(n % 10));
        assert(head@ =~= decimal_text(n as nat));
        head
    }
}

/// An owned copy of `a` followed by `b`.
pub fn join(a: &str, b: &str) -> (r: String)
    ensures
        r@ == a@ + b@,
{
    let mut out = a.to_string();
    out.append(b);
    out
}

} // verus!
