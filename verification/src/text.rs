//! Small verified helpers on text: equality of string slices and the decimal
//! notation of task ids.

use vstd::prelude::*;
use vstd::string::*;
use vstd::utf8::*;

verus! {

/// The characters of a borrowed text that may be missing.
pub open spec fn text_of(text: Option<&str>) -> Option<Seq<char>> {
    match text {
        Some(t) => Some(t@),
        None => None,
    }
}

/// The characters of an owned text that may be missing.
pub open spec fn owned_text_of(text: Option<String>) -> Option<Seq<char>> {
    match text {
        Some(t) => Some(t@),
        None => None,
    }
}

/// Whether two string slices hold the same characters.
pub fn same_text(a: &str, b: &str) -> (r: bool)
    ensures
        r == (a@ == b@),
{
    let x = a.as_bytes();
    let y = b.as_bytes();
    proof {
        encode_utf8_decode_utf8(a@);
        encode_utf8_decode_utf8(b@);
    }
    if x.len() != y.len() {
        return false;
    }
    let mut i: usize = 0;
    while i < x.len()
        invariant
            i <= x.len(),
            x.len() == y.len(),
            x@ == a.spec_bytes(),
            y@ == b.spec_bytes(),
            forall|k: int| 0 <= k < i ==> x@[k] == y@[k],
        decreases x.len() - i,
    {
        if x[i] != y[i] {
            return false;
        }
        i += 1;
    }
    assert(x@ =~= y@);
    true
}

/// The character that writes a single decimal digit.
pub open spec fn digit_char(d: int) -> char
    recommends
        0 <= d <= 9,
{
    if d == 0 {
        '0'
    } else if d == 1 {
        '1'
    } else if d == 2 {
        '2'
    } else if d == 3 {
        '3'
    } else if d == 4 {
        '4'
    } else if d == 5 {
        '5'
    } else if d == 6 {
        '6'
    } else if d == 7 {
        '7'
    } else if d == 8 {
        '8'
    } else {
        '9'
    }
}

/// The decimal notation of a natural number, without leading zeros.
pub open spec fn decimal(n: nat) -> Seq<char>
    decreases n,
{
    if n < 10 {
        seq![digit_char(n as int)]
    } else {
        decimal(n / 10).push(digit_char((n % 10) as int))
    }
}

/// The one-character text of a decimal digit.
fn digit_text(d: u64) -> (r: &'static str)
    requires
        d <= 9,
    ensures
        r@ == seq![digit_char(d as int)],
{
    proof {
        reveal_strlit("0");
        reveal_strlit("1");
        reveal_strlit("2");
        reveal_strlit("3");
        reveal_strlit("4");
        reveal_strlit("5");
        reveal_strlit("6");
        reveal_strlit("7");
        reveal_strlit("8");
        reveal_strlit("9");
    }
    let r = if d == 0 {
        "0"
    } else if d == 1 {
        "1"
    } else if d == 2 {
        "2"
    } else if d == 3 {
        "3"
    } else if d == 4 {
        "4"
    } else if d == 5 {
        "5"
    } else if d == 6 {
        "6"
    } else if d == 7 {
        "7"
    } else if d == 8 {
        "8"
    } else {
        "9"
    };
    r
}

/// Writes a number in decimal notation.
pub fn decimal_text(n: u64) -> (r: String)
    ensures
        r@ == decimal(n as nat),
    decreases n,
{
    if n < 10 {
        String::from_str(digit_text(n))
    } else {
        let mut s = decimal_text(n / 10);
        s.append(digit_text(n % 10));
        s
    }
}

/// The decimal notation of a natural number, with zeros put before it
/// until it has at least `width` digits.
pub open spec fn padded(n: nat, width: nat) -> Seq<char> {
    let digits = decimal(n);
    if digits.len() >= width {
        digits
    } else {
        Seq::new((width - digits.len()) as nat, |i: int| '0') + digits
    }
}

/// Writes a number in decimal notation, with zeros before it until it has
/// at least `width` digits.
pub fn padded_text(n: u64, width: usize) -> (r: String)
    ensures
        r@ == padded(n as nat, width as nat),
{
    let digits = decimal_text(n);
    let len = digits.as_str().unicode_len();
    if len >= width {
        return digits;
    }
    proof {
        reveal_strlit("0");
    }
    let mut out = String::new();
    let mut k: usize = 0;
    while k < width - len
        invariant
            len < width,
            k <= width - len,
            out@ == Seq::new(k as nat, |i: int| '0'),
            "0"@ == seq!['0'],
        decreases width - len - k,
    {
        out.append("0");
        k += 1;
    }
    out.append(digits.as_str());
    out
}

/// The digit that a character writes, if it writes one.
pub open spec fn digit_of(c: char) -> Option<nat> {
    if c == '0' {
        Some(0)
    } else if c == '1' {
        Some(1)
    } else if c == '2' {
        Some(2)
    } else if c == '3' {
        Some(3)
    } else if c == '4' {
        Some(4)
    } else if c == '5' {
        Some(5)
    } else if c == '6' {
        Some(6)
    } else if c == '7' {
        Some(7)
    } else if c == '8' {
        Some(8)
    } else if c == '9' {
        Some(9)
    } else {
        None
    }
}

/// Whether a text is made of decimal digits only.
pub open spec fn all_digits(text: Seq<char>) -> bool {
    forall|i: int| 0 <= i < text.len() ==> digit_of(#[trigger] text[i]) is Some
}

/// The number that a text of decimal digits writes. The empty text counts
/// as zero here.
pub open spec fn digits_value(text: Seq<char>) -> nat
    decreases text.len(),
{
    if text.len() == 0 {
        0
    } else {
        10 * digits_value(text.drop_last()) + digit_of(text.last()).unwrap_or(0)
    }
}

/// The number that a text writes in decimal notation: the text must have at
/// least one character, all of them digits. Zeros at the start are allowed.
pub open spec fn number_of(text: Seq<char>) -> Option<nat> {
    if text.len() > 0 && all_digits(text) {
        Some(digits_value(text))
    } else {
        None
    }
}

/// The start of a text of digits writes a number that is not above the
/// number of the whole text.
pub proof fn lemma_start_is_not_above(text: Seq<char>, k: int)
    requires
        0 <= k <= text.len(),
    ensures
        digits_value(text.subrange(0, k)) <= digits_value(text),
    decreases text.len() - k,
{
    if k == text.len() {
        assert(text.subrange(0, k) =~= text);
    } else {
        lemma_start_is_not_above(text.drop_last(), k);
        assert(text.drop_last().subrange(0, k) =~= text.subrange(0, k));
    }
}

/// A number written in decimal notation is read back as the same number.
pub proof fn lemma_decimal_is_read_back(n: nat)
    ensures
        number_of(decimal(n)) == Some(n),
    decreases n,
{
    let whole = decimal(n);
    let last = n % 10;
    assert(whole.last() == digit_char(last as int));
    assert(digit_of(digit_char(last as int)) == Some(last));
    if n < 10 {
        assert(whole.drop_last() =~= Seq::<char>::empty());
        assert(digits_value(whole.drop_last()) == 0);
        assert(digits_value(whole) == n);
    } else {
        lemma_decimal_is_read_back(n / 10);
        let head = decimal(n / 10);
        assert(whole.drop_last() =~= head);
        assert(digits_value(whole) == 10 * digits_value(head) + last);
        assert forall|i: int| 0 <= i < whole.len() implies digit_of(#[trigger] whole[i]) is Some by {
            if i < head.len() {
                assert(whole[i] == head[i]);
            }
        }
    }
}

/// The digit that a character writes, if it writes one.
fn digit_value(c: char) -> (r: Option<u64>)
    ensures
        match r {
            Some(d) => digit_of(c) == Some(d as nat) && d <= 9,
            None => digit_of(c) is None,
        },
{
    if c == '0' {
        Some(0)
    } else if c == '1' {
        Some(1)
    } else if c == '2' {
        Some(2)
    } else if c == '3' {
        Some(3)
    } else if c == '4' {
        Some(4)
    } else if c == '5' {
        Some(5)
    } else if c == '6' {
        Some(6)
    } else if c == '7' {
        Some(7)
    } else if c == '8' {
        Some(8)
    } else if c == '9' {
        Some(9)
    } else {
        None
    }
}

/// Reads a number written in decimal notation. A text that writes no number
/// gives `None`, and so does one that writes a number above `u64::MAX`.
pub fn parse_number(text: &str) -> (r: Option<u64>)
    ensures
        r == match number_of(text@) {
            Some(n) => if n <= u64::MAX {
                Some(n as u64)
            } else {
                None
            },
            None => None,
        },
{
    let len = text.unicode_len();
    if len == 0 {
        return None;
    }
    let mut value: u64 = 0;
    let mut k: usize = 0;
    while k < len
        invariant
            k <= len,
            len == text@.len(),
            all_digits(text@.subrange(0, k as int)),
            value == digits_value(text@.subrange(0, k as int)),
        decreases len - k,
    {
        let ghost start = text@.subrange(0, k as int);
        let ghost next = text@.subrange(0, k + 1);
        assert(next.drop_last() =~= start);
        match digit_value(text.get_char(k)) {
            None => {
                return None;
            },
            Some(d) => {
                if value > (u64::MAX - d) / 10 {
                    proof {
                        lemma_start_is_not_above(text@, k + 1);
                    }
                    return None;
                }
                value = 10 * value + d;
                assert forall|i: int| 0 <= i < next.len() implies digit_of(#[trigger] next[i]) is Some by {
                    if i < k {
                        assert(next[i] == start[i]);
                    }
                }
            },
        }
        k += 1;
    }
    assert(text@.subrange(0, len as int) =~= text@);
    Some(value)
}

} // verus!
