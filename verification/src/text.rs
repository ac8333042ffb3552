//! Small string-building helpers with exact specifications.

use vstd::prelude::*;

verus! {

/// The ASCII digit character for a value below ten.
pub open spec fn digit_char(d: nat) -> char
    recommends
        d < 10,
{
    (48 + d) as char
}

/// The shortest decimal representation of `n`, without sign or padding.
pub open spec fn decimal(n: nat) -> Seq<char>
    decreases n,
{
    if n < 10 {
        seq![digit_char(n)]
    } else {
        decimal(n / 10).push(digit_char(n % 10))
    }
}

/// Returns the one-character string for a decimal digit.
pub fn digit_str(d: u64) -> (s: &'static str)
    requires
        d < 10,
    ensures
        s@ == seq![digit_char(d as nat)],
{
    proof {
        reveal_strlit("0");
        reveal_strlit("1");
        reveal_strlit("2");
        reveal_strlit("3");
        reveal_strlit("4");
        reveal_strlit("5");
        reveal_strlit("6");
        reveal_strlit("7");
        reveal_strlit("8");
        reveal_strlit("9");
    }
    match d {
        0 => "0",
        1 => "1",
        2 => "2",
        3 => "3",
        4 => "4",
        5 => "5",
        6 => "6",
        7 => "7",
        8 => "8",
        _ => "9",
    }
}

/// Appends the decimal representation of `n` to `s`.
pub fn push_decimal(s: &mut String, n: u64)
    ensures
        final(s)@ == old(s)@ + decimal(n as nat),
    decreases n,
{
    if n >= 10 {
        push_decimal(s, n / 10);
    }
    s.append(digit_str(n % 10));
    proof {
        if n >= 10 {
            assert(old(s)@ + decimal((n / 10) as nat) + seq![digit_char((n % 10) as nat)]
                =~= old(s)@ + decimal(n as nat));
        } else {
            assert(decimal(n as nat) == seq![digit_char(n as nat)]);
        }
    }
}

/// `n` zero digits.
pub open spec fn zeros(n: nat) -> Seq<char>
    decreases n,
{
    if n == 0 {
        Seq::empty()
    } else {
        zeros((n - 1) as nat).push('0')
    }
}

/// The decimal representation of `n`, with leading zeros up to `width` digits.
pub open spec fn zero_padded(n: nat, width: nat) -> Seq<char> {
    if decimal(n).len() >= width {
        decimal(n)
    } else {
        zeros((width - decimal(n).len()) as nat) + decimal(n)
    }
}

/// Appends the decimal representation of `n`, with leading zeros up to
/// `width` digits, to `s`.
pub fn push_zero_padded(s: &mut String, n: u64, width: usize)
    ensures
        final(s)@ == old(s)@ + zero_padded(n as nat, width as nat),
{
    let mut digits = String::new();
    push_decimal(&mut digits, n);
    proof {
        assert(Seq::<char>::empty() + decimal(n as nat) =~= decimal(n as nat));
    }
    let len = digits.as_str().unicode_len();
    let mut k = len;
    proof {
        assert(old(s)@ =~= old(s)@ + zeros(0));
    }
    while k < width
        invariant
            len == decimal(n as nat).len(),
            len <= k,
            len < width ==> k <= width,
            len >= width ==> k == len,
            s@ == old(s)@ + zeros((k - len) as nat),
        decreases width - k,
    {
        s.append("0");
        proof {
            reveal_strlit("0");
            assert(old(s)@ + zeros((k - len) as nat) + "0"@ =~= old(s)@ + zeros((k + 1 - len) as nat));
        }
        k = k + 1;
    }
    s.append(digits.as_str());
    proof {
        if len >= width {
            assert(old(s)@ + zeros(0) + decimal(n as nat) =~= old(s)@ + decimal(n as nat));
        } else {
            assert(old(s)@ + zeros((width - len) as nat) + decimal(n as nat) =~= old(s)@ + (zeros(
                (width - len) as nat,
            ) + decimal(n as nat)));
        }
    }
}

/// Concatenates two string slices into a new string.
pub fn concat2(a: &str, b: &str) -> (s: String)
    ensures
        s@ == a@ + b@,
{
    let mut s = String::from_str(a);
    s.append(b);
    s
}

/// Concatenates three string slices into a new string.
pub fn concat3(a: &str, b: &str, c: &str) -> (s: String)
    ensures
        s@ == a@ + b@ + c@,
{
    let mut s = String::from_str(a);
    s.append(b);
    s.append(c);
    s
}

/// The text that Rust's `Debug` formatting produces for a string: the
/// string in double quotes with special characters escaped.
pub uninterp spec fn debug_repr(s: Seq<char>) -> Seq<char>;

/// Formats a string with Rust's `Debug` formatting (`format!("{:?}", s)`).
/// Trusted: the result is the `Debug` rendering of `s`, which depends on `s`
/// alone; its escaping rules are not spelled out here.
#[verifier::external_body]
pub(crate) fn debug_text(s: &str) -> (r: String)
    ensures
        r@ == debug_repr(s@),
{
    format!("{:?}", s)
}

} // verus!
