//! Hexadecimal text for address values.
//!
//! An address is shown as `0x` followed by a fixed number of lower-case hex
//! digits: eight for a 32-bit address, sixteen for a 64-bit one. [`hex_seq`]
//! is the specification of that digit sequence; [`hex_digits`] computes it.

use vstd::prelude::*;
use vstd::string::StringExecFns;

verus! {

/// The hexadecimal digit character for a value in `0 .. 16`.
pub open spec fn hex_char(d: int) -> char
    recommends
        0 <= d < 16,
{
    if d == 0 {
        '0'
    } else if d == 1 {
        '1'
    } else if d == 2 {
        '2'
    } else if d == 3 {
        '3'
    } else if d == 4 {
        '4'
    } else if d == 5 {
        '5'
    } else if d == 6 {
        '6'
    } else if d == 7 {
        '7'
    } else if d == 8 {
        '8'
    } else if d == 9 {
        '9'
    } else if d == 10 {
        'a'
    } else if d == 11 {
        'b'
    } else if d == 12 {
        'c'
    } else if d == 13 {
        'd'
    } else if d == 14 {
        'e'
    } else {
        'f'
    }
}

/// The low `n` hexadecimal digits of `v`, most significant first, padded with
/// leading zeroes.
pub open spec fn hex_seq(v: int, n: nat) -> Seq<char>
    recommends
        v >= 0,
    decreases n,
{
    if n == 0 {
        Seq::empty()
    } else {
        hex_seq(v / 16, (n - 1) as nat) + seq![hex_char(v % 16)]
    }
}

/// The one-character string for a hexadecimal digit.
fn hex_digit_str(d: u64) -> (r: &'static str)
    requires
        d < 16,
    ensures
        r@ == seq![hex_char(d as int)],
{
    if d == 0 {
        proof {
            reveal_strlit("0");
            assert("0"@ =~= seq![hex_char(0)]);
        }
        "0"
    } else if d == 1 {
        proof {
            reveal_strlit("1");
            assert("1"@ =~= seq![hex_char(1)]);
        }
        "1"
    } else if d == 2 {
        proof {
            reveal_strlit("2");
            assert("2"@ =~= seq![hex_char(2)]);
        }
        "2"
    } else if d == 3 {
        proof {
            reveal_strlit("3");
            assert("3"@ =~= seq![hex_char(3)]);
        }
        "3"
    } else if d == 4 {
        proof {
            reveal_strlit("4");
            assert("4"@ =~= seq![hex_char(4)]);
        }
        "4"
    } else if d == 5 {
        proof {
            reveal_strlit("5");
            assert("5"@ =~= seq![hex_char(5)]);
        }
        "5"
    } else if d == 6 {
        proof {
            reveal_strlit("6");
            assert("6"@ =~= seq![hex_char(6)]);
        }
        "6"
    } else if d == 7 {
        proof {
            reveal_strlit("7");
            assert("7"@ =~= seq![hex_char(7)]);
        }
        "7"
    } else if d == 8 {
        proof {
            reveal_strlit("8");
            assert("8"@ =~= seq![hex_char(8)]);
        }
        "8"
    } else if d == 9 {
        proof {
            reveal_strlit("9");
            assert("9"@ =~= seq![hex_char(9)]);
        }
        "9"
    } else if d == 10 {
        proof {
            reveal_strlit("a");
            assert("a"@ =~= seq![hex_char(10)]);
        }
        "a"
    } else if d == 11 {
        proof {
            reveal_strlit("b");
            assert("b"@ =~= seq![hex_char(11)]);
        }
        "b"
    } else if d == 12 {
        proof {
            reveal_strlit("c");
            assert("c"@ =~= seq![hex_char(12)]);
        }
        "c"
    } else if d == 13 {
        proof {
            reveal_strlit("d");
            assert("d"@ =~= seq![hex_char(13)]);
        }
        "d"
    } else if d == 14 {
        proof {
            reveal_strlit("e");
            assert("e"@ =~= seq![hex_char(14)]);
        }
        "e"
    } else {
        proof {
            reveal_strlit("f");
            assert("f"@ =~= seq![hex_char(15)]);
        }
        "f"
    }
}

/// The low `n` hexadecimal digits of `v`, as text.
pub fn hex_digits(v: u64, n: usize) -> (r: String)
    ensures
        r@ == hex_seq(v as int, n as nat),
{
    let mut digits: String = String::new();
    let mut x: u64 = v;
    let mut i: usize = 0;
    while i < n
        invariant
            i <= n,
            hex_seq(x as int, (n - i) as nat) + digits@ == hex_seq(v as int, n as nat),
        decreases n - i,
    {
        let d: u64 = x % 16;
        let mut piece: String = hex_digit_str(d).to_owned();
        piece.append(digits.as_str());
        proof {
            assert(hex_seq(x as int, (n - i) as nat) == hex_seq((x as int) / 16, (n - i - 1) as nat)
                + seq![hex_char((x as int) % 16)]);
            assert(hex_seq((x as int) / 16, (n - i - 1) as nat) + piece@ =~= hex_seq(
                x as int,
                (n - i) as nat,
            ) + digits@);
        }
        digits = piece;
        x = x / 16;
        i = i + 1;
    }
    proof {
        assert(hex_seq(x as int, 0) + digits@ =~= digits@);
    }
    digits
}

} // verus!
