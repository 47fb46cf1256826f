//! Decimal notation for indices, with zero padding.

use vstd::prelude::*;
use vstd::string::StringExecFns;

verus! {

/// The character that writes the digit `d`.
pub open spec fn digit_char(d: nat) -> char {
    if d == 0 {
        '0'
    } else if d == 1 {
        '1'
    } else if d == 2 {
        '2'
    } else if d == 3 {
        '3'
    } else if d == 4 {
        '4'
    } else if d == 5 {
        '5'
    } else if d == 6 {
        '6'
    } else if d == 7 {
        '7'
    } else if d == 8 {
        '8'
    } else {
        '9'
    }
}

/// Whether `c` is one of the ten decimal digits.
pub open spec fn is_digit(c: char) -> bool {
    c == '0' || c == '1' || c == '2' || c == '3' || c == '4' || c == '5' || c == '6' || c == '7'
        || c == '8' || c == '9'
}

/// How many digits the decimal notation of `n` has. Zero has one.
pub open spec fn digit_count(n: nat) -> nat
    decreases n,
{
    if n < 10 {
        1
    } else {
        digit_count(n / 10) + 1
    }
}

/// The decimal notation of `n`, most significant digit first, without
/// leading zeros.
pub open spec fn decimal(n: nat) -> Seq<char>
    decreases n,
{
    if n < 10 {
        seq![digit_char(n)]
    } else {
        decimal(n / 10).push(digit_char(n % 10))
    }
}

/// `count` zeros.
pub open spec fn zeros(count: nat) -> Seq<char> {
    Seq::new(count, |i: int| '0')
}

/// The decimal notation of `n`, with zeros in front of it until it has
/// `width` characters. A notation that is already that long stays as it is.
pub open spec fn zero_padded(n: nat, width: nat) -> Seq<char> {
    if decimal(n).len() < width {
        zeros((width - decimal(n).len()) as nat) + decimal(n)
    } else {
        decimal(n)
    }
}

/// The decimal notation of `n` has `digit_count(n)` characters, each a digit.
pub proof fn lemma_decimal_digits(n: nat)
    ensures
        decimal(n).len() == digit_count(n),
        forall|i: int| 0 <= i < decimal(n).len() ==> is_digit(#[trigger] decimal(n)[i]),
    decreases n,
{
    if n >= 10 {
        lemma_decimal_digits(n / 10);
    }
}

/// A larger number never has fewer digits.
pub proof fn lemma_digit_count_monotonic(a: nat, b: nat)
    requires
        a <= b,
    ensures
        digit_count(a) <= digit_count(b),
    decreases b,
{
    if a >= 10 {
        lemma_digit_count_monotonic(a / 10, b / 10);
    }
}

/// Padding to the digit count of `total` gives every number below `total`
/// exactly that many characters, all of them digits.
pub proof fn lemma_padded_width(n: nat, total: nat)
    requires
        n < total,
    ensures
        zero_padded(n, digit_count(total)).len() == digit_count(total),
        forall|i: int|
            0 <= i < digit_count(total) ==> is_digit(
                #[trigger] zero_padded(n, digit_count(total))[i],
            ),
{
    lemma_decimal_digits(n);
    lemma_digit_count_monotonic(n, total);
}

/// The one-character string that writes the digit `d`.
fn digit_str(d: usize) -> (s: &'static str)
    requires
        d < 10,
    ensures
        s@ == seq![digit_char(d as nat)],
{
    proof {
        reveal_strlit("0");
        reveal_strlit("1");
        reveal_strlit("2");
        reveal_strlit("3");
        reveal_strlit("4");
        reveal_strlit("5");
        reveal_strlit("6");
        reveal_strlit("7");
        reveal_strlit("8");
        reveal_strlit("9");
    }
    let s = if d == 0 {
        "0"
    } else if d == 1 {
        "1"
    } else if d == 2 {
        "2"
    } else if d == 3 {
        "3"
    } else if d == 4 {
        "4"
    } else if d == 5 {
        "5"
    } else if d == 6 {
        "6"
    } else if d == 7 {
        "7"
    } else if d == 8 {
        "8"
    } else {
        "9"
    };
    assert(s@ =~= seq![digit_char(d as nat)]);
    s
}

/// The number of decimal digits of `n`.
pub fn padding_size(n: usize) -> (width: usize)
    ensures
        width == digit_count(n as nat),
{
    let mut width: usize = 1;
    let mut rest: usize = n;
    while rest >= 10
        invariant
            1 <= width,
            width + rest <= n + 1,
            width + digit_count(rest as nat) == digit_count(n as nat) + 1,
        decreases rest,
    {
        rest = rest / 10;
        width = width + 1;
    }
    width
}

/// Writes `n` in decimal notation.
pub fn format_decimal(n: usize) -> (text: String)
    ensures
        text@ == decimal(n as nat),
    decreases n,
{
    if n < 10 {
        String::from_str(digit_str(n))
    } else {
        let head = format_decimal(n / 10);
        head.concat(digit_str(n % 10))
    }
}

/// Writes `n` in decimal notation, left-padded with zeros to `width`
/// characters.
pub fn format_padded(n: usize, width: usize) -> (text: String)
    ensures
        text@ == zero_padded(n as nat, width as nat),
{
    let digits = format_decimal(n);
    let have = padding_size(n);
    proof {
        lemma_decimal_digits(n as nat);
        reveal_strlit("0");
    }
    let mut text = String::new();
    let mut added: usize = 0;
    while have < width && added < width - have
        invariant
            have == decimal(n as nat).len(),
            have < width ==> added <= width - have,
            have >= width ==> added == 0,
            text@ == zeros(added as nat),
            "0"@ == seq!['0'],
        decreases width - added,
    {
        text.append("0");
        added = added + 1;
        assert(text@ =~= zeros(added as nat));
    }
    let text = text.concat(digits.as_str());
    proof {
        if have >= width {
            assert(zeros(0) + decimal(n as nat) =~= decimal(n as nat));
        }
    }
    text
}

} // verus!
