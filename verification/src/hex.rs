//! Hexadecimal display of raw frames, for diagnostics: each byte as two
//! lowercase digits, space separated.

use vstd::prelude::*;

use vstd::string::StringExecFns;

verus! {

/// The lowercase hexadecimal digit for one value below 16.
pub open spec fn hex_digit_spec(n: int) -> char {
    if n == 0 {
        '0'
    } else if n == 1 {
        '1'
    } else if n == 2 {
        '2'
    } else if n == 3 {
        '3'
    } else if n == 4 {
        '4'
    } else if n == 5 {
        '5'
    } else if n == 6 {
        '6'
    } else if n == 7 {
        '7'
    } else if n == 8 {
        '8'
    } else if n == 9 {
        '9'
    } else if n == 10 {
        'a'
    } else if n == 11 {
        'b'
    } else if n == 12 {
        'c'
    } else if n == 13 {
        'd'
    } else if n == 14 {
        'e'
    } else {
        'f'
    }
}

/// The text of one byte: its two hexadecimal digits.
pub open spec fn byte_hex_spec(b: u8) -> Seq<char> {
    seq![hex_digit_spec(b as int / 16), hex_digit_spec(b as int % 16)]
}

/// The text of a byte sequence: each byte as two digits, space separated.
pub open spec fn bytes_hex_spec(s: Seq<u8>) -> Seq<char>
    decreases s.len(),
{
    if s.len() == 0 {
        Seq::empty()
    } else if s.len() == 1 {
        byte_hex_spec(s[0])
    } else {
        bytes_hex_spec(s.drop_last()) + seq![' '] + byte_hex_spec(s.last())
    }
}

fn hex_digit_str(n: u8) -> (r: &'static str)
    requires
        n < 16,
    ensures
        r@ == seq![hex_digit_spec(n as int)],
{
    match n {
        0 => {
            proof {
                reveal_strlit("0");
            }
            let s = "0";
            proof {
                assert(s@ =~= seq![hex_digit_spec(0)]);
            }
            s
        },
        1 => {
            proof {
                reveal_strlit("1");
            }
            let s = "1";
            proof {
                assert(s@ =~= seq![hex_digit_spec(1)]);
            }
            s
        },
        2 => {
            proof {
                reveal_strlit("2");
            }
            let s = "2";
            proof {
                assert(s@ =~= seq![hex_digit_spec(2)]);
            }
            s
        },
        3 => {
            proof {
                reveal_strlit("3");
            }
            let s = "3";
            proof {
                assert(s@ =~= seq![hex_digit_spec(3)]);
            }
            s
        },
        4 => {
            proof {
                reveal_strlit("4");
            }
            let s = "4";
            proof {
                assert(s@ =~= seq![hex_digit_spec(4)]);
            }
            s
        },
        5 => {
            proof {
                reveal_strlit("5");
            }
            let s = "5";
            proof {
                assert(s@ =~= seq![hex_digit_spec(5)]);
            }
            s
        },
        6 => {
            proof {
                reveal_strlit("6");
            }
            let s = "6";
            proof {
                assert(s@ =~= seq![hex_digit_spec(6)]);
            }
            s
        },
        7 => {
            proof {
                reveal_strlit("7");
            }
            let s = "7";
            proof {
                assert(s@ =~= seq![hex_digit_spec(7)]);
            }
            s
        },
        8 => {
            proof {
                reveal_strlit("8");
            }
            let s = "8";
            proof {
                assert(s@ =~= seq![hex_digit_spec(8)]);
            }
            s
        },
        9 => {
            proof {
                reveal_strlit("9");
            }
            let s = "9";
            proof {
                assert(s@ =~= seq![hex_digit_spec(9)]);
            }
            s
        },
        10 => {
            proof {
                reveal_strlit("a");
            }
            let s = "a";
            proof {
                assert(s@ =~= seq![hex_digit_spec(10)]);
            }
            s
        },
        11 => {
            proof {
                reveal_strlit("b");
            }
            let s = "b";
            proof {
                assert(s@ =~= seq![hex_digit_spec(11)]);
            }
            s
        },
        12 => {
            proof {
                reveal_strlit("c");
            }
            let s = "c";
            proof {
                assert(s@ =~= seq![hex_digit_spec(12)]);
            }
            s
        },
        13 => {
            proof {
                reveal_strlit("d");
            }
            let s = "d";
            proof {
                assert(s@ =~= seq![hex_digit_spec(13)]);
            }
            s
        },
        14 => {
            proof {
                reveal_strlit("e");
            }
            let s = "e";
            proof {
                assert(s@ =~= seq![hex_digit_spec(14)]);
            }
            s
        },
        _ => {
            proof {
                reveal_strlit("f");
            }
            let s = "f";
            proof {
                assert(s@ =~= seq![hex_digit_spec(15)]);
            }
            s
        },
    }
}

/// Render a byte sequence as space-separated lowercase hexadecimal pairs.
pub fn pretty_print_bytes(bytes: &Vec<u8>) -> (r: String)
    ensures
        r@ == bytes_hex_spec(bytes@),
{
    let mut out = String::new();
    let mut i: usize = 0;
    while i < bytes.len()
        invariant
            i <= bytes@.len(),
            out@ == bytes_hex_spec(bytes@.take(i as int)),
        decreases bytes@.len() - i,
    {
        if i > 0 {
            proof {
                reveal_strlit(" ");
            }
            out.append(" ");
            proof {
                assert(" "@ =~= seq![' ']);
            }
        }
        let b = bytes[i];
        out.append(hex_digit_str(b / 16));
        out.append(hex_digit_str(b % 16));
        proof {
            assert(seq![hex_digit_spec(b as int / 16)] + seq![hex_digit_spec(b as int % 16)]
                =~= byte_hex_spec(b));
            assert(bytes@.take((i + 1) as int).drop_last() =~= bytes@.take(i as int));
            assert(bytes@.take((i + 1) as int).last() == bytes@[i as int]);
            if i == 0 {
                assert(out@ =~= bytes_hex_spec(bytes@.take(1)));
            } else {
                assert(out@ =~= bytes_hex_spec(bytes@.take((i + 1) as int)));
            }
        }
        i = i + 1;
    }
    proof {
        assert(bytes@.take(bytes@.len() as int) =~= bytes@);
    }
    out
}

} // verus!
