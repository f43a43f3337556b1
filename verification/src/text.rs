//! Small verified helpers on text: comparison, decimal notation, padding.

use vstd::prelude::*;
use vstd::string::*;
use vstd::std_specs::iter::IteratorSpec;

verus! {

/// Tells whether two strings hold the same characters.
pub fn same_text(a: &str, b: &str) -> (same: bool)
    ensures
        same == (a@ == b@),
{
    let mut other = b.chars();
    for c in it: a.chars()
        invariant
            it.seq() == a@,
            other.remaining() == b@.skip(it.index()),
            it.index() <= b@.len(),
            a@.take(it.index()) == b@.take(it.index()),
    {
        match other.next() {
            Some(d) => {
                if c != d {
                    assert(a@[it.index()] != b@[it.index()]);
                    return false;
                }
                assert(b@.skip(it.index()).drop_first() == b@.skip(it.index() + 1));
                assert(a@.take(it.index() + 1) == a@.take(it.index()).push(c));
                assert(b@.take(it.index() + 1) == b@.take(it.index()).push(d));
            },
            None => {
                return false;
            },
        }
    }
    let rest = other.next();
    assert(a@.take(a@.len() as int) == a@);
    proof {
        if rest is None {
            assert(b@.take(b@.len() as int) == b@);
        }
    }
    rest.is_none()
}

/// The character of a decimal digit.
pub open spec fn digit(d: nat) -> char
    recommends
        d < 10,
{
    if d == 0 {
        '0'
    } else if d == 1 {
        '1'
    } else if d == 2 {
        '2'
    } else if d == 3 {
        '3'
    } else if d == 4 {
        '4'
    } else if d == 5 {
        '5'
    } else if d == 6 {
        '6'
    } else if d == 7 {
        '7'
    } else if d == 8 {
        '8'
    } else {
        '9'
    }
}

/// A number in decimal notation, without leading zeros.
pub open spec fn decimal(n: nat) -> Seq<char>
    decreases n,
{
    if n < 10 {
        seq![digit(n)]
    } else {
        decimal(n / 10).push(digit(n % 10))
    }
}

fn digit_text(d: u64) -> (text: &'static str)
    requires
        d < 10,
    ensures
        text@ == seq![digit(d as nat)],
{
    proof {
        reveal_strlit("0");
        reveal_strlit("1");
        reveal_strlit("2");
        reveal_strlit("3");
        reveal_strlit("4");
        reveal_strlit("5");
        reveal_strlit("6");
        reveal_strlit("7");
        reveal_strlit("8");
        reveal_strlit("9");
    }
    let text = if d == 0 {
        "0"
    } else if d == 1 {
        "1"
    } else if d == 2 {
        "2"
    } else if d == 3 {
        "3"
    } else if d == 4 {
        "4"
    } else if d == 5 {
        "5"
    } else if d == 6 {
        "6"
    } else if d == 7 {
        "7"
    } else if d == 8 {
        "8"
    } else {
        "9"
    };
    assert(text@ =~= seq![digit(d as nat)]);
    text
}

/// Writes `n` in decimal notation.
pub fn decimal_text(n: u64) -> (text: String)
    ensures
        text@ == decimal(n as nat),
    decreases n,
{
    if n < 10 {
        String::from_str(digit_text(n))
    } else {
        let mut text = decimal_text(n / 10);
        text.append(digit_text(n % 10));
        text
    }
}

/// `s`, followed by as many spaces as it lacks to `width` characters.
pub open spec fn padded(s: Seq<char>, width: nat) -> Seq<char> {
    if s.len() >= width {
        s
    } else {
        s + Seq::new((width - s.len()) as nat, |i: int| ' ')
    }
}

/// Pads `s` with spaces on the right to `width` characters; a longer text
/// is kept whole.
pub fn pad_right(s: &str, width: usize) -> (text: String)
    ensures
        text@ == padded(s@, width as nat),
{
    let len = s.unicode_len();
    let mut text = String::from_str(s);
    let mut count: usize = len;
    while count < width
        invariant
            len == s@.len(),
            len <= count,
            count <= width || count == len,
            text@ == s@ + Seq::new((count - len) as nat, |i: int| ' '),
        decreases width - count,
    {
        proof {
            reveal_strlit(" ");
            assert(" "@ =~= seq![' ']);
        }
        text.append(" ");
        count = count + 1;
        assert(text@ =~= s@ + Seq::new((count - len) as nat, |i: int| ' '));
    }
    assert(text@ =~= padded(s@, width as nat));
    text
}

/// The text that lossy decoding gives for a sequence of bytes: the text
/// that the bytes encode in UTF-8, with the replacement character where
/// they encode none.
pub uninterp spec fn lossy_text(bytes: Seq<u8>) -> Seq<char>;

/// Decodes bytes as UTF-8 by `String::from_utf8_lossy`, which accepts any
/// bytes and never fails. Nothing is claimed of the text but that it is
/// the one that function gives for these bytes.
#[verifier::external_body]
pub(crate) fn decode_lossy(bytes: &Vec<u8>) -> (text: String)
    ensures
        text@ == lossy_text(bytes@),
{
    String::from_utf8_lossy(bytes.as_slice()).into_owned()
}

} // verus!
