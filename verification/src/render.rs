//! Text-building primitives shared by the renderers: decimal numbers and
//! space padding, with exact specifications of the produced character
//! sequences.

use vstd::prelude::*;
use vstd::string::StrSliceExecFns;
use vstd::string::StringExecFns;

verus! {

/// The decimal digit character for `d`; meaningful for `d <= 9`.
pub open spec fn digit_char(d: nat) -> char {
    if d == 0 {
        '0'
    } else if d == 1 {
        '1'
    } else if d == 2 {
        '2'
    } else if d == 3 {
        '3'
    } else if d == 4 {
        '4'
    } else if d == 5 {
        '5'
    } else if d == 6 {
        '6'
    } else if d == 7 {
        '7'
    } else if d == 8 {
        '8'
    } else {
        '9'
    }
}

/// The numeric value of a decimal digit character; meaningful for '0'..='9'.
pub open spec fn char_val(c: char) -> nat {
    if c == '0' {
        0
    } else if c == '1' {
        1
    } else if c == '2' {
        2
    } else if c == '3' {
        3
    } else if c == '4' {
        4
    } else if c == '5' {
        5
    } else if c == '6' {
        6
    } else if c == '7' {
        7
    } else if c == '8' {
        8
    } else {
        9
    }
}

/// The decimal text of `n`: most significant digit first, no leading zeros
/// (zero itself renders as a single '0').
pub open spec fn dec_digits(n: nat) -> Seq<char>
    decreases n,
{
    if n < 10 {
        seq![digit_char(n)]
    } else {
        dec_digits(n / 10).push(digit_char(n % 10))
    }
}

/// The value read back from a sequence of decimal digit characters.
pub open spec fn dec_val(s: Seq<char>) -> nat
    decreases s.len(),
{
    if s.len() == 0 {
        0
    } else {
        dec_val(s.drop_last()) * 10 + char_val(s.last())
    }
}

/// Reading the decimal text of `n` back gives exactly `n`: rendering a 64-bit
/// value loses nothing.
pub proof fn lemma_dec_roundtrip(n: nat)
    ensures
        dec_val(dec_digits(n)) == n,
    decreases n,
{
    if n < 10 {
        let s = dec_digits(n);
        assert(s.drop_last() =~= Seq::<char>::empty());
        assert(s.last() == digit_char(n));
        assert(char_val(digit_char(n)) == n);
        assert(dec_val(s) == dec_val(s.drop_last()) * 10 + char_val(s.last()));
    } else {
        lemma_dec_roundtrip(n / 10);
        let prefix = dec_digits(n / 10);
        let s = prefix.push(digit_char(n % 10));
        assert(s.drop_last() =~= prefix);
        assert(s.last() == digit_char(n % 10));
        assert(char_val(digit_char(n % 10)) == n % 10);
        assert(n / 10 * 10 + n % 10 == n) by {
            vstd::arithmetic::div_mod::lemma_fundamental_div_mod(n as int, 10);
        }
    }
}

/// A one-character string slice holding the decimal digit for `d`.
fn digit_str(d: u64) -> (r: &'static str)
    requires
        d < 10,
    ensures
        r@ =~= seq![digit_char(d as nat)],
{
    proof {
        reveal_strlit("0");
        reveal_strlit("1");
        reveal_strlit("2");
        reveal_strlit("3");
        reveal_strlit("4");
        reveal_strlit("5");
        reveal_strlit("6");
        reveal_strlit("7");
        reveal_strlit("8");
        reveal_strlit("9");
    }
    match d {
        0 => "0",
        1 => "1",
        2 => "2",
        3 => "3",
        4 => "4",
        5 => "5",
        6 => "6",
        7 => "7",
        8 => "8",
        _ => "9",
    }
}

/// The decimal text of `n`.
pub fn u64_to_dec(n: u64) -> (r: String)
    ensures
        r@ == dec_digits(n as nat),
    decreases n,
{
    if n < 10 {
        String::from_str(digit_str(n))
    } else {
        let mut s = u64_to_dec(n / 10);
        s.append(digit_str(n % 10));
        proof {
            assert(s@ =~= dec_digits(n as nat));
        }
        s
    }
}

/// `n` space characters.
pub open spec fn spaces(n: nat) -> Seq<char>
    decreases n,
{
    if n == 0 {
        Seq::empty()
    } else {
        spaces((n - 1) as nat).push(' ')
    }
}

/// `s` padded on the right with spaces to width `w`; unchanged when already
/// at least that wide.
pub open spec fn pad_right(s: Seq<char>, w: nat) -> Seq<char> {
    if s.len() >= w {
        s
    } else {
        s + spaces((w - s.len()) as nat)
    }
}

proof fn lemma_spaces_snoc(n: nat)
    requires
        n > 0,
    ensures
        spaces(n) == spaces((n - 1) as nat).push(' '),
{
}

/// `s` extended with spaces until it is `w` characters wide.
pub fn pad_right_exec(s: String, w: usize) -> (r: String)
    ensures
        r@ == pad_right(s@, w as nat),
{
    let mut out = s;
    let mut len = out.as_str().unicode_len();
    proof {
        reveal_strlit(" ");
        assert(out@ + spaces(0) =~= out@);
    }
    while len < w
        invariant
            len == out@.len(),
            out@ == s@ + spaces((len - s@.len()) as nat),
            s@.len() <= len,
            len <= w || out@ == s@,
        decreases w - len,
    {
        out.append(" ");
        proof {
            reveal_strlit(" ");
            assert(" "@ =~= seq![' ']);
            assert(s@ + spaces((len + 1 - s@.len()) as nat) =~= (s@ + spaces(
                (len - s@.len()) as nat,
            )).push(' '));
        }
        len = len + 1;
    }
    proof {
        if s@.len() >= w as nat {
            assert(out@ =~= s@);
        }
    }
    out
}

} // verus!
