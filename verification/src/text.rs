//! Text helpers shared by the modules.

use vstd::prelude::*;
use vstd::string::{StrSliceExecFns, StringExecFns, StringSliceAdditionalSpecFns};

verus! {

/// Whether `c` is white space: a character with the Unicode property
/// `White_Space`.
pub open spec fn is_white_space(c: char) -> bool {
    let code = c as u32;
    ||| 0x09 <= code <= 0x0D
    ||| code == 0x20
    ||| code == 0x85
    ||| code == 0xA0
    ||| code == 0x1680
    ||| 0x2000 <= code <= 0x200A
    ||| code == 0x2028
    ||| code == 0x2029
    ||| code == 0x202F
    ||| code == 0x205F
    ||| code == 0x3000
}

/// `s` without the white space it starts with.
pub open spec fn trimmed_start(s: Seq<char>) -> Seq<char>
    decreases s.len(),
{
    if s.len() > 0 && is_white_space(s[0]) {
        trimmed_start(s.drop_first())
    } else {
        s
    }
}

/// `s` without the white space it ends with.
pub open spec fn trimmed_end(s: Seq<char>) -> Seq<char>
    decreases s.len(),
{
    if s.len() > 0 && is_white_space(s[s.len() - 1]) {
        trimmed_end(s.drop_last())
    } else {
        s
    }
}

/// `s` without the white space it starts and ends with.
pub open spec fn trimmed(s: Seq<char>) -> Seq<char> {
    trimmed_end(trimmed_start(s))
}

/// Whether `count` bytes of `a` from `a_start` on equal those of `b` from
/// `b_start` on.
pub fn ranges_equal(a: &[u8], a_start: usize, b: &[u8], b_start: usize, count: usize) -> (r: bool)
    requires
        a_start + count <= a@.len(),
        b_start + count <= b@.len(),
    ensures
        r == (a@.subrange(a_start as int, a_start + count) == b@.subrange(
            b_start as int,
            b_start + count,
        )),
{
    let ghost left = a@.subrange(a_start as int, a_start + count);
    let ghost right = b@.subrange(b_start as int, b_start + count);
    let mut i: usize = 0;
    while i < count
        invariant
            i <= count,
            a_start + count <= a.len(),
            b_start + count <= b.len(),
            left == a@.subrange(a_start as int, a_start + count),
            right == b@.subrange(b_start as int, b_start + count),
            forall|k: int| 0 <= k < i ==> left[k] == right[k],
        decreases count - i,
    {
        if a[a_start + i] != b[b_start + i] {
            assert(left[i as int] != right[i as int]);
            return false;
        }
        i = i + 1;
    }
    assert(left =~= right);
    true
}

/// Whether the two texts are the same.
pub fn str_eq(a: &str, b: &str) -> (r: bool)
    ensures
        r == (a@ == b@),
{
    let a_bytes = a.as_bytes();
    let b_bytes = b.as_bytes();
    proof {
        vstd::utf8::encode_utf8_decode_utf8(a@);
        vstd::utf8::encode_utf8_decode_utf8(b@);
        assert(a_bytes@.subrange(0, a_bytes@.len() as int) =~= a_bytes@);
        assert(b_bytes@.subrange(0, b_bytes@.len() as int) =~= b_bytes@);
    }
    if a_bytes.len() != b_bytes.len() {
        return false;
    }
    ranges_equal(a_bytes, 0, b_bytes, 0, a_bytes.len())
}

/// Whether `text` starts with `prefix`.
pub open spec fn starts_with(text: Seq<char>, prefix: Seq<char>) -> bool {
    prefix.len() <= text.len() && text.subrange(0, prefix.len() as int) == prefix
}

/// What follows `prefix` in `text`, where `text` starts with it.
pub fn strip_prefix<'a>(text: &'a str, prefix: &str) -> (r: Option<&'a str>)
    ensures
        r is Some <==> starts_with(text@, prefix@),
        r is Some ==> r->0@ == text@.subrange(prefix@.len() as int, text@.len() as int),
{
    let text_len = text.unicode_len();
    let prefix_len = prefix.unicode_len();
    if prefix_len > text_len {
        return None;
    }
    if str_eq(text.substring_char(0, prefix_len), prefix) {
        Some(text.substring_char(prefix_len, text_len))
    } else {
        None
    }
}

/// A copy of a text that may be missing.
pub fn clone_text(text: &Option<String>) -> (r: Option<String>)
    ensures
        r == *text,
{
    match text {
        Some(text) => Some(text.clone()),
        None => None,
    }
}

/// The decimal digit for `d`, which is below ten.
pub open spec fn digit(d: nat) -> Seq<char> {
    if d == 0 {
        "0"@
    } else if d == 1 {
        "1"@
    } else if d == 2 {
        "2"@
    } else if d == 3 {
        "3"@
    } else if d == 4 {
        "4"@
    } else if d == 5 {
        "5"@
    } else if d == 6 {
        "6"@
    } else if d == 7 {
        "7"@
    } else if d == 8 {
        "8"@
    } else {
        "9"@
    }
}

/// The number `n` in decimal digits.
pub open spec fn decimal(n: nat) -> Seq<char>
    decreases n,
{
    if n < 10 {
        digit(n)
    } else {
        decimal(n / 10) + digit(n % 10)
    }
}

/// The decimal digit for `d`.
fn digit_text(d: usize) -> (r: &'static str)
    requires
        d < 10,
    ensures
        r@ == digit(d as nat),
{
    if d == 0 {
        "0"
    } else if d == 1 {
        "1"
    } else if d == 2 {
        "2"
    } else if d == 3 {
        "3"
    } else if d == 4 {
        "4"
    } else if d == 5 {
        "5"
    } else if d == 6 {
        "6"
    } else if d == 7 {
        "7"
    } else if d == 8 {
        "8"
    } else {
        "9"
    }
}

/// The number `n` in decimal digits.
pub fn decimal_text(n: usize) -> (r: String)
    ensures
        r@ == decimal(n as nat),
{
    let mut text = String::from_str(digit_text(n % 10));
    let mut rest = n / 10;
    while rest > 0
        invariant
            rest > 0 ==> decimal(n as nat) == decimal(rest as nat) + text@,
            rest == 0 ==> decimal(n as nat) == text@,
        decreases rest,
    {
        let ghost before = text@;
        text = String::from_str(digit_text(rest % 10)).concat(text.as_str());
        proof {
            if rest >= 10 {
                assert(decimal(rest as nat) + before =~= decimal((rest / 10) as nat) + (digit(
                    (rest % 10) as nat,
                ) + before));
            }
        }
        rest = rest / 10;
    }
    text
}

/// The two texts one after the other.
pub fn join2(first: &str, second: &str) -> (r: String)
    ensures
        r@ == first@ + second@,
{
    String::from_str(first).concat(second)
}

/// The three texts one after the other.
pub fn join3(first: &str, second: &str, third: &str) -> (r: String)
    ensures
        r@ == first@ + second@ + third@,
{
    String::from_str(first).concat(second).concat(third)
}

} // verus!
