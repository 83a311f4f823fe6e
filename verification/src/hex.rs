//! Lowercase hexadecimal rendering of byte sequences.

use vstd::prelude::*;
use vstd::string::StringExecFns;

verus! {

/// The lowercase hexadecimal digit character for a value below sixteen.
pub open spec fn hex_digit(d: int) -> char {
    if d == 0 {
        '0'
    } else if d == 1 {
        '1'
    } else if d == 2 {
        '2'
    } else if d == 3 {
        '3'
    } else if d == 4 {
        '4'
    } else if d == 5 {
        '5'
    } else if d == 6 {
        '6'
    } else if d == 7 {
        '7'
    } else if d == 8 {
        '8'
    } else if d == 9 {
        '9'
    } else if d == 10 {
        'a'
    } else if d == 11 {
        'b'
    } else if d == 12 {
        'c'
    } else if d == 13 {
        'd'
    } else if d == 14 {
        'e'
    } else {
        'f'
    }
}

/// Holds exactly of the sixteen characters a digest rendering may contain.
pub open spec fn is_lower_hex_digit(c: char) -> bool {
    ||| c == '0'
    ||| c == '1'
    ||| c == '2'
    ||| c == '3'
    ||| c == '4'
    ||| c == '5'
    ||| c == '6'
    ||| c == '7'
    ||| c == '8'
    ||| c == '9'
    ||| c == 'a'
    ||| c == 'b'
    ||| c == 'c'
    ||| c == 'd'
    ||| c == 'e'
    ||| c == 'f'
}

/// Distinct values below sixteen render as distinct digit characters.
pub proof fn lemma_hex_digit_injective(i: int, j: int)
    requires
        0 <= i < 16,
        0 <= j < 16,
        hex_digit(i) == hex_digit(j),
    ensures
        i == j,
{
}

/// The hexadecimal rendering of a byte sequence: two digits per byte, the
/// high-order digit first.
pub open spec fn hex_of(bytes: Seq<u8>) -> Seq<char> {
    Seq::new(
        bytes.len() * 2,
        |i: int|
            if i % 2 == 0 {
                hex_digit(bytes[i / 2] as int / 16)
            } else {
                hex_digit(bytes[i / 2] as int % 16)
            },
    )
}

/// A hexadecimal rendering is twice as long as its input and consists of
/// lowercase hexadecimal digits only.
pub proof fn lemma_hex_of_props(bytes: Seq<u8>)
    ensures
        hex_of(bytes).len() == bytes.len() * 2,
        forall|i: int| 0 <= i < hex_of(bytes).len() ==> is_lower_hex_digit(#[trigger] hex_of(bytes)[i]),
{
    assert forall|i: int| 0 <= i < hex_of(bytes).len() implies is_lower_hex_digit(
        #[trigger] hex_of(bytes)[i],
    ) by {
        let b = bytes[i / 2] as int;
        assert(0 <= b < 256);
        assert(0 <= b / 16 < 16);
        assert(0 <= b % 16 < 16);
    }
}

/// The one-character string holding the lowercase hexadecimal digit for `d`.
pub fn hex_str(d: u8) -> (r: &'static str)
    requires
        d < 16,
    ensures
        r@ == seq![hex_digit(d as int)],
{
    proof {
        reveal_strlit("0");
        reveal_strlit("1");
        reveal_strlit("2");
        reveal_strlit("3");
        reveal_strlit("4");
        reveal_strlit("5");
        reveal_strlit("6");
        reveal_strlit("7");
        reveal_strlit("8");
        reveal_strlit("9");
        reveal_strlit("a");
        reveal_strlit("b");
        reveal_strlit("c");
        reveal_strlit("d");
        reveal_strlit("e");
        reveal_strlit("f");
    }
    let r: &'static str = if d == 0 {
        "0"
    } else if d == 1 {
        "1"
    } else if d == 2 {
        "2"
    } else if d == 3 {
        "3"
    } else if d == 4 {
        "4"
    } else if d == 5 {
        "5"
    } else if d == 6 {
        "6"
    } else if d == 7 {
        "7"
    } else if d == 8 {
        "8"
    } else if d == 9 {
        "9"
    } else if d == 10 {
        "a"
    } else if d == 11 {
        "b"
    } else if d == 12 {
        "c"
    } else if d == 13 {
        "d"
    } else if d == 14 {
        "e"
    } else {
        "f"
    };
    proof {
        assert(r@ =~= seq![hex_digit(d as int)]);
    }
    r
}

/// Renders `bytes` as lowercase hexadecimal, two digits per byte.
pub fn encode_hex(bytes: &Vec<u8>) -> (r: String)
    ensures
        r@ == hex_of(bytes@),
{
    let mut r = String::new();
    let mut i: usize = 0;
    while i < bytes.len()
        invariant
            i <= bytes.len(),
            r@ == hex_of(bytes@.take(i as int)),
        decreases bytes.len() - i,
    {
        let b = bytes[i];
        r.append(hex_str(b / 16));
        r.append(hex_str(b % 16));
        proof {
            assert(r@ =~= hex_of(bytes@.take(i as int + 1)));
        }
        i = i + 1;
    }
    proof {
        assert(bytes@.take(bytes@.len() as int) =~= bytes@);
    }
    r
}

} // verus!
