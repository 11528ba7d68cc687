//! Text helpers: comparing strings, decoding borrowed bytes, trimming and
//! ASCII case folding.

use crate::string::OpenPitStringView;
use vstd::prelude::*;
use vstd::string::{StringExecFns, StringSliceAdditionalSpecFns};

verus! {

/// Text that `String::from_utf8_lossy` builds from bytes that are not valid
/// UTF-8 (each invalid sequence replaced by U+FFFD).
pub uninterp spec fn lossy_utf8_text(bytes: Seq<u8>) -> Seq<char>;

/// Whether a character has the Unicode `White_Space` property, the white
/// space of `char::is_whitespace` and `str::trim`.
pub open spec fn is_white_space(c: char) -> bool {
    let u = c as u32;
    ||| 0x09 <= u <= 0x0d
    ||| u == 0x20
    ||| u == 0x85
    ||| u == 0xa0
    ||| u == 0x1680
    ||| 0x2000 <= u <= 0x200a
    ||| u == 0x2028
    ||| u == 0x2029
    ||| u == 0x202f
    ||| u == 0x205f
    ||| u == 0x3000
}

/// A text without its leading white space.
pub open spec fn trim_start_text(text: Seq<char>) -> Seq<char>
    decreases text.len(),
{
    if text.len() > 0 && is_white_space(text[0]) {
        trim_start_text(text.drop_first())
    } else {
        text
    }
}

/// A text without its trailing white space.
pub open spec fn trim_end_text(text: Seq<char>) -> Seq<char>
    decreases text.len(),
{
    if text.len() > 0 && is_white_space(text.last()) {
        trim_end_text(text.drop_last())
    } else {
        text
    }
}

/// A text without its leading and trailing white space.
pub open spec fn trimmed_text(text: Seq<char>) -> Seq<char> {
    trim_end_text(trim_start_text(text))
}

/// `String::from_utf8_lossy(..).into_owned()`: valid UTF-8 is decoded as
/// it is; otherwise invalid sequences are replaced by U+FFFD.
#[verifier::external_body]
pub(crate) fn string_from_utf8_lossy(bytes: &[u8]) -> (res: String)
    ensures
        vstd::utf8::valid_utf8(bytes@) ==> res@ == vstd::utf8::decode_utf8(bytes@),
        !vstd::utf8::valid_utf8(bytes@) ==> res@ == lossy_utf8_text(bytes@),
{
    String::from_utf8_lossy(bytes).into_owned()
}

/// `str::trim`: the text without leading and trailing white space.
#[verifier::external_body]
pub(crate) fn str_trim(text: &str) -> (res: &str)
    ensures
        res@ == trimmed_text(text@),
{
    text.trim()
}

/// `std::str::from_utf8`: the bytes as text when they are valid UTF-8. The
/// error's text is passed on and not described here.
#[verifier::external_body]
pub(crate) fn str_from_utf8(bytes: &[u8]) -> (res: Result<&str, String>)
    ensures
        match res {
            Ok(text) => vstd::utf8::valid_utf8(bytes@) && text@ == vstd::utf8::decode_utf8(
                bytes@,
            ),
            Err(_) => !vstd::utf8::valid_utf8(bytes@),
        },
{
    match std::str::from_utf8(bytes) {
        Ok(text) => Ok(text),
        Err(error) => Err(error.to_string()),
    }
}

/// ASCII lower case of a character: `A`..`Z` become `a`..`z`, every other
/// character is kept.
pub open spec fn ascii_lower(c: char) -> char {
    if 'A' <= c <= 'Z' {
        ((c as u32) + 32) as char
    } else {
        c
    }
}

/// ASCII lower case of a text.
pub open spec fn ascii_lowercase(text: Seq<char>) -> Seq<char> {
    text.map_values(|c: char| ascii_lower(c))
}

/// `str::to_ascii_lowercase`: ASCII letters `A`..`Z` mapped to `a`..`z`,
/// every other character unchanged.
#[verifier::external_body]
pub(crate) fn str_to_ascii_lowercase(text: &str) -> (res: String)
    ensures
        res@ == ascii_lowercase(text@),
{
    text.to_ascii_lowercase()
}

/// Whether two texts are equal.
pub fn str_eq(a: &str, b: &str) -> (res: bool)
    ensures
        res == (a@ == b@),
{
    let x = a.as_bytes();
    let y = b.as_bytes();
    proof {
        vstd::utf8::encode_utf8_decode_utf8(a@);
        vstd::utf8::encode_utf8_decode_utf8(b@);
    }
    if x.len() != y.len() {
        return false;
    }
    let mut i: usize = 0;
    while i < x.len()
        invariant
            i <= x@.len(),
            x@.len() == y@.len(),
            x@ == a.spec_bytes(),
            y@ == b.spec_bytes(),
            forall|k: int| 0 <= k < i ==> x@[k] == y@[k],
        decreases x@.len() - i,
    {
        if x[i] != y[i] {
            return false;
        }
        i = i + 1;
    }
    assert(x@ =~= y@);
    true
}

/// The text a borrowed string view designates: empty for an unset view,
/// otherwise its bytes decoded, invalid sequences replaced by U+FFFD.
pub open spec fn view_text(view: OpenPitStringView) -> Seq<char> {
    if view.ptr.target() is None {
        Seq::empty()
    } else if vstd::utf8::valid_utf8(view.spec_bytes()) {
        vstd::utf8::decode_utf8(view.spec_bytes())
    } else {
        lossy_utf8_text(view.spec_bytes())
    }
}

/// Copies the text of a borrowed string view: empty for an unset view,
/// invalid UTF-8 replaced by U+FFFD.
pub fn import_string(view: OpenPitStringView) -> (res: String)
    requires
        view.readable(),
    ensures
        res@ == view_text(view),
{
    match view.ptr.bytes() {
        None => String::new(),
        Some(bytes) => {
            let designated = vstd::slice::slice_subrange(bytes, 0, view.len);
            string_from_utf8_lossy(designated)
        },
    }
}

/// The text of a view of valid UTF-8 bytes is their decoding; in
/// particular the view of a string's bytes has the string's text.
pub proof fn lemma_view_text_of_str(view: OpenPitStringView, s: Seq<char>)
    requires
        view.ptr.target() is Some,
        view.spec_bytes() == vstd::utf8::encode_utf8(s),
    ensures
        view_text(view) == s,
{
    vstd::utf8::encode_utf8_valid_utf8(s);
    vstd::utf8::encode_utf8_decode_utf8(s);
}

/// The decimal digit character of `d < 10`.
pub open spec fn digit_char(d: nat) -> char {
    ((48 + d) as u32) as char
}

/// Decimal text of a natural number, without leading zeros.
pub open spec fn decimal_text(n: nat) -> Seq<char>
    decreases n,
{
    if n < 10 {
        seq![digit_char(n)]
    } else {
        decimal_text(n / 10) + seq![digit_char(n % 10)]
    }
}

/// The decimal digit of `d`, as text.
fn digit_str(d: u64) -> (res: &'static str)
    requires
        d < 10,
    ensures
        res@ == seq![digit_char(d as nat)],
{
    proof {
        reveal_strlit("0");
        reveal_strlit("1");
        reveal_strlit("2");
        reveal_strlit("3");
        reveal_strlit("4");
        reveal_strlit("5");
        reveal_strlit("6");
        reveal_strlit("7");
        reveal_strlit("8");
        reveal_strlit("9");
    }
    let res = if d == 0 {
        "0"
    } else if d == 1 {
        "1"
    } else if d == 2 {
        "2"
    } else if d == 3 {
        "3"
    } else if d == 4 {
        "4"
    } else if d == 5 {
        "5"
    } else if d == 6 {
        "6"
    } else if d == 7 {
        "7"
    } else if d == 8 {
        "8"
    } else {
        "9"
    };
    assert(res@ =~= seq![digit_char(d as nat)]);
    res
}

/// Decimal text of `n`.
pub fn decimal_string(n: u64) -> (res: String)
    ensures
        res@ == decimal_text(n as nat),
    decreases n,
{
    let d = digit_str(n % 10);
    if n < 10 {
        let res = String::from_str(d);
        assert(res@ =~= decimal_text(n as nat));
        res
    } else {
        let res = decimal_string(n / 10).concat(d);
        assert(res@ =~= decimal_text(n as nat));
        res
    }
}

} // verus!
