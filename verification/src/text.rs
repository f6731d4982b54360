//! Building texts: numbers in hex and decimal digits, and padded columns.
use vstd::prelude::*;
use vstd::string::StringExecFns;
use vstd::string::StrSliceExecFns;

verus! {

/// The hex digit of a number below sixteen.
pub open spec fn spec_hex_digit(d: int) -> char {
    if d == 0 {
        '0'
    } else if d == 1 {
        '1'
    } else if d == 2 {
        '2'
    } else if d == 3 {
        '3'
    } else if d == 4 {
        '4'
    } else if d == 5 {
        '5'
    } else if d == 6 {
        '6'
    } else if d == 7 {
        '7'
    } else if d == 8 {
        '8'
    } else if d == 9 {
        '9'
    } else if d == 10 {
        'a'
    } else if d == 11 {
        'b'
    } else if d == 12 {
        'c'
    } else if d == 13 {
        'd'
    } else if d == 14 {
        'e'
    } else {
        'f'
    }
}

/// A number written in the digits of a base from two to sixteen, lower case,
/// without leading zeros.
pub open spec fn spec_radix(n: nat, base: nat) -> Seq<char>
    decreases n,
    when base >= 2
    via radix_decreases
{
    if n < base {
        seq![spec_hex_digit(n as int)]
    } else {
        spec_radix(n / base, base).push(spec_hex_digit((n % base) as int))
    }
}

#[via_fn]
proof fn radix_decreases(n: nat, base: nat) {
    if n >= base {
        assert(n / base < n) by (nonlinear_arith)
            requires
                base >= 2,
                n >= base,
        ;
    }
}

/// A number written in hex digits, lower case, without leading zeros.
pub open spec fn spec_hex(n: nat) -> Seq<char> {
    spec_radix(n, 16)
}

/// A number written in decimal digits, without leading zeros.
pub open spec fn spec_decimal(n: nat) -> Seq<char> {
    spec_radix(n, 10)
}

/// The text of a run of digits that stand lowest digit first.
pub open spec fn spec_digits_text(digits: Seq<u8>) -> Seq<char> {
    Seq::new(digits.len(), |k: int| spec_hex_digit(digits[digits.len() - 1 - k] as int))
}

/// A run of spaces.
pub open spec fn spec_spaces(n: nat) -> Seq<char> {
    Seq::new(n, |k: int| ' ')
}

/// The number of spaces that fill a text up to a width.
pub open spec fn spec_fill(len: nat, width: nat) -> nat {
    if len >= width {
        0
    } else {
        (width - len) as nat
    }
}

/// The text of one hex digit.
fn digit_str(d: u8) -> (s: &'static str)
    requires
        d < 16,
    ensures
        s@ == seq![spec_hex_digit(d as int)],
{
    proof {
        reveal_strlit("0");
        reveal_strlit("1");
        reveal_strlit("2");
        reveal_strlit("3");
        reveal_strlit("4");
        reveal_strlit("5");
        reveal_strlit("6");
        reveal_strlit("7");
        reveal_strlit("8");
        reveal_strlit("9");
        reveal_strlit("a");
        reveal_strlit("b");
        reveal_strlit("c");
        reveal_strlit("d");
        reveal_strlit("e");
        reveal_strlit("f");
    }
    let s = match d {
        0 => "0",
        1 => "1",
        2 => "2",
        3 => "3",
        4 => "4",
        5 => "5",
        6 => "6",
        7 => "7",
        8 => "8",
        9 => "9",
        10 => "a",
        11 => "b",
        12 => "c",
        13 => "d",
        14 => "e",
        _ => "f",
    };
    assert(s@ =~= seq![spec_hex_digit(d as int)]);
    s
}

/// Writes a number in the digits of a base from two to sixteen.
fn radix(n: u64, base: u64) -> (s: String)
    requires
        2 <= base <= 16,
    ensures
        s@ == spec_radix(n as nat, base as nat),
{
    let mut digits: Vec<u8> = Vec::new();
    let mut rest: u64 = n;
    assert(spec_radix(rest as nat, base as nat) + spec_digits_text(digits@) =~= spec_radix(
        n as nat,
        base as nat,
    ));
    while rest >= base
        invariant
            2 <= base <= 16,
            spec_radix(n as nat, base as nat) == spec_radix(rest as nat, base as nat)
                + spec_digits_text(digits@),
            forall|k: int| 0 <= k < digits@.len() ==> digits@[k] < 16,
        decreases rest,
    {
        let ghost before = digits@;
        let ghost prev = rest;
        digits.push((rest % base) as u8);
        rest = rest / base;
        proof {
            let d = spec_hex_digit((prev % base) as int);
            assert(spec_radix(prev as nat, base as nat) == spec_radix(
                rest as nat,
                base as nat,
            ).push(d));
            assert(spec_digits_text(digits@) =~= seq![d] + spec_digits_text(before));
            assert(spec_radix(rest as nat, base as nat).push(d) + spec_digits_text(before)
                =~= spec_radix(rest as nat, base as nat) + (seq![d] + spec_digits_text(before)));
        }
    }
    let ghost before = digits@;
    digits.push(rest as u8);
    proof {
        let d = spec_hex_digit(rest as int);
        assert(spec_radix(rest as nat, base as nat) =~= seq![d]);
        assert(spec_digits_text(digits@) =~= seq![d] + spec_digits_text(before));
    }
    let mut s = String::new();
    let mut i: usize = digits.len();
    assert(s@ =~= spec_digits_text(digits@).take(0));
    while i > 0
        invariant
            i <= digits@.len(),
            forall|k: int| 0 <= k < digits@.len() ==> digits@[k] < 16,
            s@ == spec_digits_text(digits@).take(digits@.len() - i),
        decreases i,
    {
        i -= 1;
        s.append(digit_str(digits[i]));
        assert(s@ =~= spec_digits_text(digits@).take(digits@.len() - i));
    }
    assert(spec_digits_text(digits@).take(digits@.len() as int) =~= spec_digits_text(digits@));
    s
}

/// Writes a number in hex digits, lower case, without leading zeros.
pub fn hex(n: u32) -> (s: String)
    ensures
        s@ == spec_hex(n as nat),
{
    radix(n as u64, 16)
}

/// Writes a number in decimal digits, without leading zeros.
pub fn decimal(n: u64) -> (s: String)
    ensures
        s@ == spec_decimal(n as nat),
{
    radix(n, 10)
}

/// Appends a run of spaces to a text.
pub fn push_spaces(s: &mut String, n: usize)
    ensures
        final(s)@ == old(s)@ + spec_spaces(n as nat),
{
    let mut i: usize = 0;
    assert(s@ =~= old(s)@ + spec_spaces(0));
    while i < n
        invariant
            i <= n,
            s@ == old(s)@ + spec_spaces(i as nat),
        decreases n - i,
    {
        proof {
            reveal_strlit(" ");
        }
        s.append(" ");
        i += 1;
        assert(s@ =~= old(s)@ + spec_spaces(i as nat));
    }
}

/// Fills a text with spaces on the right up to the given width, counted in
/// characters. A text that is as wide or wider is left as it is.
pub fn pad_right(text: &str, width: usize) -> (s: String)
    ensures
        s@ == text@ + spec_spaces(spec_fill(text@.len(), width as nat)),
{
    let mut s = String::from_str(text);
    let len = text.unicode_len();
    if len < width {
        push_spaces(&mut s, width - len);
    } else {
        assert(s@ =~= text@ + spec_spaces(0));
    }
    s
}

/// Fills a text with spaces on the left up to the given width, counted in
/// characters. A text that is as wide or wider is left as it is.
pub fn pad_left(text: &str, width: usize) -> (s: String)
    ensures
        s@ == spec_spaces(spec_fill(text@.len(), width as nat)) + text@,
{
    let mut s = String::new();
    let len = text.unicode_len();
    if len < width {
        push_spaces(&mut s, width - len);
    }
    proof {
        assert(s@ =~= spec_spaces(spec_fill(text@.len(), width as nat))) by {
            if len >= width {
                assert(s@ =~= spec_spaces(0));
            }
        }
    }
    s.append(text);
    s
}

} // verus!
