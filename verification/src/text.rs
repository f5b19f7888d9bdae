//! Text building blocks: decimal numerals, fixed-point numbers, string
//! comparison and lowercasing.

use vstd::prelude::*;
use vstd::utf8::{encode_utf8, encode_utf8_decode_utf8};

verus! {

/// The character that writes the decimal digit `d`.
pub open spec fn digit_char(d: nat) -> char {
    if d == 0 {
        '0'
    } else if d == 1 {
        '1'
    } else if d == 2 {
        '2'
    } else if d == 3 {
        '3'
    } else if d == 4 {
        '4'
    } else if d == 5 {
        '5'
    } else if d == 6 {
        '6'
    } else if d == 7 {
        '7'
    } else if d == 8 {
        '8'
    } else {
        '9'
    }
}

/// The decimal numeral of `n`, without sign and without leading zeros.
pub open spec fn decimal(n: nat) -> Seq<char>
    decreases n,
{
    if n < 10 {
        seq![digit_char(n)]
    } else {
        decimal(n / 10).push(digit_char(n % 10))
    }
}

/// A number given in tenths, written with exactly one decimal place.
pub open spec fn tenths_text(tenths: nat) -> Seq<char> {
    decimal(tenths / 10) + seq!['.', digit_char(tenths % 10)]
}

/// A number given in hundredths, written with as few decimal places as it
/// needs: none for a whole number, else one or two.
pub open spec fn hundredths_text(hundredths: nat) -> Seq<char> {
    let whole = hundredths / 100;
    let fraction = hundredths % 100;
    if fraction == 0 {
        decimal(whole)
    } else if fraction % 10 == 0 {
        decimal(whole) + seq!['.', digit_char(fraction / 10)]
    } else {
        decimal(whole) + seq!['.', digit_char(fraction / 10), digit_char(fraction % 10)]
    }
}

/// The lowercase form of a string as the standard library computes it.
pub uninterp spec fn lowercase_of(s: Seq<char>) -> Seq<char>;

/// Calls `str::to_lowercase`, which returns the lowercase equivalent of the
/// string as Unicode's `Lowercase` property defines it. The result depends
/// on the characters alone; the contract gives it a name and claims nothing
/// else of it, so nothing here is proved about what lowercasing does.
#[verifier::external_body]
pub(crate) fn to_lowercase(s: &str) -> (lowered: String)
    ensures
        lowered@ == lowercase_of(s@),
{
    s.to_lowercase()
}

fn digit_str(d: u8) -> (s: &'static str)
    requires
        d < 10,
    ensures
        s@ == seq![digit_char(d as nat)],
{
    proof {
        reveal_strlit("0");
        reveal_strlit("1");
        reveal_strlit("2");
        reveal_strlit("3");
        reveal_strlit("4");
        reveal_strlit("5");
        reveal_strlit("6");
        reveal_strlit("7");
        reveal_strlit("8");
        reveal_strlit("9");
    }
    let s = match d {
        0 => "0",
        1 => "1",
        2 => "2",
        3 => "3",
        4 => "4",
        5 => "5",
        6 => "6",
        7 => "7",
        8 => "8",
        _ => "9",
    };
    assert(s@ =~= seq![digit_char(d as nat)]);
    s
}

/// Appends the decimal numeral of `n` to `out`.
pub fn push_decimal(out: &mut String, n: u128)
    ensures
        final(out)@ == old(out)@ + decimal(n as nat),
    decreases n,
{
    if n >= 10 {
        push_decimal(out, n / 10);
    }
    out.append(digit_str((n % 10) as u8));
    assert(out@ =~= old(out)@ + decimal(n as nat));
}

/// Appends `tenths`, read as a number of tenths, with one decimal place.
pub fn push_tenths(out: &mut String, tenths: u128)
    ensures
        final(out)@ == old(out)@ + tenths_text(tenths as nat),
{
    push_decimal(out, tenths / 10);
    proof {
        reveal_strlit(".");
    }
    out.append(".");
    out.append(digit_str((tenths % 10) as u8));
    assert(out@ =~= old(out)@ + tenths_text(tenths as nat));
}

/// Appends `hundredths`, read as a number of hundredths, in its shortest form.
pub fn push_hundredths(out: &mut String, hundredths: u64)
    ensures
        final(out)@ == old(out)@ + hundredths_text(hundredths as nat),
{
    let whole: u64 = hundredths / 100;
    let fraction: u64 = hundredths % 100;
    push_decimal(out, whole as u128);
    if fraction != 0 {
        proof {
            reveal_strlit(".");
        }
        out.append(".");
        out.append(digit_str((fraction / 10) as u8));
        if fraction % 10 != 0 {
            out.append(digit_str((fraction % 10) as u8));
        }
    }
    assert(out@ =~= old(out)@ + hundredths_text(hundredths as nat));
}

/// Whether two strings hold the same characters.
pub fn str_equals(a: &str, b: &str) -> (same: bool)
    ensures
        same == (a@ == b@),
{
    let x = a.as_bytes();
    let y = b.as_bytes();
    proof {
        encode_utf8_decode_utf8(a@);
        encode_utf8_decode_utf8(b@);
    }
    if x.len() != y.len() {
        return false;
    }
    let mut i: usize = 0;
    while i < x.len()
        invariant
            i <= x.len(),
            x.len() == y.len(),
            x@ == encode_utf8(a@),
            y@ == encode_utf8(b@),
            forall|j: int| 0 <= j < i ==> x@[j] == y@[j],
        decreases x.len() - i,
    {
        if x[i] != y[i] {
            return false;
        }
        i += 1;
    }
    assert(x@ =~= y@);
    true
}

} // verus!
