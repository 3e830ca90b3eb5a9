use vstd::prelude::*;
use vstd::string::*;
use crate::text::push_char;

verus! {

// Human-readable size formatting: the largest unit among B, KB, MB, GB and
// TB whose scaled value stays below 1024 (TB is the cap), bytes printed as
// an integer and every other unit as a one-decimal fixed-point number with
// the tenths rounded half to even.

/// The character for one decimal digit.
pub open spec fn digit_char(d: int) -> char {
    if d == 0 {
        '0'
    } else if d == 1 {
        '1'
    } else if d == 2 {
        '2'
    } else if d == 3 {
        '3'
    } else if d == 4 {
        '4'
    } else if d == 5 {
        '5'
    } else if d == 6 {
        '6'
    } else if d == 7 {
        '7'
    } else if d == 8 {
        '8'
    } else {
        '9'
    }
}

/// The decimal digit string of `n`, most significant digit first.
pub open spec fn dec_digits(n: nat) -> Seq<char>
    decreases n,
{
    if n < 10 {
        seq![digit_char(n as int)]
    } else {
        dec_digits(n / 10).push(digit_char((n % 10) as int))
    }
}

/// The unit the formatter picks for a byte count: 0 for B up to 4 for TB.
pub open spec fn unit_index(bytes: u64) -> int {
    if bytes < 1024 {
        0
    } else if bytes < 1048576 {
        1
    } else if bytes < 1073741824 {
        2
    } else if bytes < 1099511627776 {
        3
    } else {
        4
    }
}

/// How many bytes one step of unit `k` holds.
pub open spec fn unit_divisor(k: int) -> int {
    if k <= 0 {
        1
    } else if k == 1 {
        1024
    } else if k == 2 {
        1048576
    } else if k == 3 {
        1073741824
    } else {
        1099511627776
    }
}

/// The suffix printed after the number for unit `k`.
pub open spec fn unit_suffix(k: int) -> Seq<char> {
    if k <= 0 {
        seq![' ', 'B']
    } else if k == 1 {
        seq![' ', 'K', 'B']
    } else if k == 2 {
        seq![' ', 'M', 'B']
    } else if k == 3 {
        seq![' ', 'G', 'B']
    } else {
        seq![' ', 'T', 'B']
    }
}

/// `bytes` scaled to unit `k` in tenths, rounded half to even.
pub open spec fn rounded_tenths(bytes: u64, k: int) -> int {
    let num = bytes * 10;
    let d = unit_divisor(k);
    let q = num / d;
    let r = num % d;
    if 2 * r > d {
        q + 1
    } else if 2 * r == d && q % 2 == 1 {
        q + 1
    } else {
        q
    }
}

/// The exact text `format_size` returns for `bytes`.
pub open spec fn size_label(bytes: u64) -> Seq<char> {
    if bytes < 1024 {
        dec_digits(bytes as nat) + unit_suffix(0)
    } else {
        let k = unit_index(bytes);
        let t = rounded_tenths(bytes, k);
        dec_digits((t / 10) as nat) + seq!['.'] + seq![digit_char(t % 10)] + unit_suffix(k)
    }
}

/// The character for digit `d`.
fn digit_of(d: u64) -> (c: char)
    requires
        d < 10,
    ensures
        c == digit_char(d as int),
{
    if d == 0 {
        '0'
    } else if d == 1 {
        '1'
    } else if d == 2 {
        '2'
    } else if d == 3 {
        '3'
    } else if d == 4 {
        '4'
    } else if d == 5 {
        '5'
    } else if d == 6 {
        '6'
    } else if d == 7 {
        '7'
    } else if d == 8 {
        '8'
    } else {
        '9'
    }
}

/// The decimal digit string of `n`.
pub fn decimal_of(n: u64) -> (s: String)
    ensures
        s@ == dec_digits(n as nat),
    decreases n,
{
    if n < 10 {
        let mut s = String::new();
        let c = digit_of(n);
        push_char(&mut s, c);
        proof {
            assert(s@ =~= dec_digits(n as nat));
        }
        s
    } else {
        let mut s = decimal_of(n / 10);
        let c = digit_of(n % 10);
        push_char(&mut s, c);
        s
    }
}

/// The suffix for unit `k`.
fn unit_str(k: usize) -> (r: &'static str)
    requires
        1 <= k <= 4,
    ensures
        r@ == unit_suffix(k as int),
{
    if k == 1 {
        proof {
            reveal_strlit(" KB");
            assert(" KB"@ =~= unit_suffix(1));
        }
        " KB"
    } else if k == 2 {
        proof {
            reveal_strlit(" MB");
            assert(" MB"@ =~= unit_suffix(2));
        }
        " MB"
    } else if k == 3 {
        proof {
            reveal_strlit(" GB");
            assert(" GB"@ =~= unit_suffix(3));
        }
        " GB"
    } else {
        proof {
            reveal_strlit(" TB");
            assert(" TB"@ =~= unit_suffix(4));
        }
        " TB"
    }
}

/// Formats a byte count the way the cleanup report shows it: `"0 B"`,
/// `"1023 B"`, `"1.0 KB"`, `"1.5 KB"`, `"1.0 TB"`, and so on.
pub fn format_size(bytes: u64) -> (s: String)
    ensures
        s@ == size_label(bytes),
{
    if bytes < 1024 {
        let mut s = decimal_of(bytes);
        s.append(" B");
        proof {
            reveal_strlit(" B");
            assert(" B"@ =~= unit_suffix(0));
            assert(s@ =~= size_label(bytes));
        }
        s
    } else {
        let k: usize;
        let d: u64;
        if bytes < 1048576 {
            k = 1;
            d = 1024;
        } else if bytes < 1073741824 {
            k = 2;
            d = 1048576;
        } else if bytes < 1099511627776 {
            k = 3;
            d = 1073741824;
        } else {
            k = 4;
            d = 1099511627776;
        }
        assert(k as int == unit_index(bytes));
        assert(d as int == unit_divisor(k as int));
        let num: u128 = (bytes as u128) * 10;
        let dd: u128 = d as u128;
        let q: u128 = num / dd;
        let r: u128 = num % dd;
        proof {
            vstd::arithmetic::div_mod::lemma_fundamental_div_mod(num as int, dd as int);
            assert(q * dd <= num);
            assert(q * 1024 <= q * dd) by (nonlinear_arith)
                requires
                    q >= 0,
                    dd >= 1024,
            ;
            assert(q < 0xA0000000000000000int / 1024) by (nonlinear_arith)
                requires
                    q * 1024 <= num,
                    num < 0xA0000000000000000int,
            ;
        }
        let t128: u128 = if 2 * r > dd {
            q + 1
        } else if 2 * r == dd && q % 2 == 1 {
            q + 1
        } else {
            q
        };
        assert(t128 as int == rounded_tenths(bytes, k as int));
        let t: u64 = t128 as u64;
        let whole: u64 = t / 10;
        let frac: u64 = t % 10;
        let mut s = decimal_of(whole);
        push_char(&mut s, '.');
        let fc = digit_of(frac);
        push_char(&mut s, fc);
        let suffix = unit_str(k);
        s.append(suffix);
        proof {
            assert(s@ =~= size_label(bytes));
        }
        s
    }
}

} // verus!
