//! Small helpers shared by the handlers.
use vstd::prelude::*;

verus! {

/// The lowercase hexadecimal digit for `d` (which is below 16).
pub open spec fn hex_digit(d: u8) -> char {
    match d {
        0 => '0',
        1 => '1',
        2 => '2',
        3 => '3',
        4 => '4',
        5 => '5',
        6 => '6',
        7 => '7',
        8 => '8',
        9 => '9',
        10 => 'a',
        11 => 'b',
        12 => 'c',
        13 => 'd',
        14 => 'e',
        _ => 'f',
    }
}

/// Lowercase hexadecimal text of `bytes`: two digits per byte, high nibble first.
pub open spec fn hex_lower(bytes: Seq<u8>) -> Seq<char>
    decreases bytes.len(),
{
    if bytes.len() == 0 {
        seq![]
    } else {
        hex_lower(bytes.drop_last()) + seq![
            hex_digit(bytes.last() >> 4u8),
            hex_digit(bytes.last() & 0x0fu8),
        ]
    }
}

fn digit_str(d: u8) -> (s: &'static str)
    requires
        d < 16,
    ensures
        s@ == seq![hex_digit(d)],
{
    match d {
        0 => {
            proof {
                reveal_strlit("0");
            }
            "0"
        },
        1 => {
            proof {
                reveal_strlit("1");
            }
            "1"
        },
        2 => {
            proof {
                reveal_strlit("2");
            }
            "2"
        },
        3 => {
            proof {
                reveal_strlit("3");
            }
            "3"
        },
        4 => {
            proof {
                reveal_strlit("4");
            }
            "4"
        },
        5 => {
            proof {
                reveal_strlit("5");
            }
            "5"
        },
        6 => {
            proof {
                reveal_strlit("6");
            }
            "6"
        },
        7 => {
            proof {
                reveal_strlit("7");
            }
            "7"
        },
        8 => {
            proof {
                reveal_strlit("8");
            }
            "8"
        },
        9 => {
            proof {
                reveal_strlit("9");
            }
            "9"
        },
        10 => {
            proof {
                reveal_strlit("a");
            }
            "a"
        },
        11 => {
            proof {
                reveal_strlit("b");
            }
            "b"
        },
        12 => {
            proof {
                reveal_strlit("c");
            }
            "c"
        },
        13 => {
            proof {
                reveal_strlit("d");
            }
            "d"
        },
        14 => {
            proof {
                reveal_strlit("e");
            }
            "e"
        },
        _ => {
            proof {
                reveal_strlit("f");
            }
            "f"
        },
    }
}

pub proof fn lemma_hex_lower_len(bytes: Seq<u8>)
    ensures
        hex_lower(bytes).len() == 2 * bytes.len(),
    decreases bytes.len(),
{
    if bytes.len() > 0 {
        lemma_hex_lower_len(bytes.drop_last());
    }
}

proof fn lemma_hex_digit_injective(a: u8, b: u8)
    requires
        a < 16,
        b < 16,
        hex_digit(a) == hex_digit(b),
    ensures
        a == b,
{
}

proof fn lemma_nibbles_determine_byte(a: u8, b: u8)
    requires
        a >> 4u8 == b >> 4u8,
        a & 0x0fu8 == b & 0x0fu8,
    ensures
        a == b,
{
    assert(a >> 4u8 == b >> 4u8 && a & 0x0fu8 == b & 0x0fu8 ==> a == b) by (bit_vector);
}

/// Different byte strings have different hexadecimal texts, so the text can be
/// compared in place of the bytes.
pub proof fn lemma_hex_lower_injective(a: Seq<u8>, b: Seq<u8>)
    requires
        hex_lower(a) == hex_lower(b),
    ensures
        a == b,
    decreases a.len(),
{
    lemma_hex_lower_len(a);
    lemma_hex_lower_len(b);
    if a.len() > 0 {
        let ha = hex_lower(a);
        let n = ha.len() as int;
        let pa = hex_lower(a.drop_last());
        let pb = hex_lower(b.drop_last());
        lemma_hex_lower_len(a.drop_last());
        lemma_hex_lower_len(b.drop_last());
        assert(ha[n - 2] == hex_digit(a.last() >> 4u8));
        assert(ha[n - 1] == hex_digit(a.last() & 0x0fu8));
        assert(hex_lower(b)[n - 2] == hex_digit(b.last() >> 4u8));
        assert(hex_lower(b)[n - 1] == hex_digit(b.last() & 0x0fu8));
        let (x, y) = (a.last(), b.last());
        assert(x >> 4u8 < 16u8 && x & 0x0fu8 < 16u8) by (bit_vector);
        assert(y >> 4u8 < 16u8 && y & 0x0fu8 < 16u8) by (bit_vector);
        lemma_hex_digit_injective(x >> 4u8, y >> 4u8);
        lemma_hex_digit_injective(x & 0x0fu8, y & 0x0fu8);
        lemma_nibbles_determine_byte(x, y);
        assert(pa =~= ha.subrange(0, n - 2));
        assert(pb =~= hex_lower(b).subrange(0, n - 2));
        lemma_hex_lower_injective(a.drop_last(), b.drop_last());
        assert(a =~= a.drop_last().push(x));
        assert(b =~= b.drop_last().push(y));
    }
}

/// Renders bytes as lowercase hexadecimal text.
pub fn bytes_to_hex_string(bytes: &[u8]) -> (res: String)
    ensures
        res@ == hex_lower(bytes@),
        res@.len() == 2 * bytes@.len(),
{
    let mut res = String::new();
    let mut i: usize = 0;
    while i < bytes.len()
        invariant
            i <= bytes@.len(),
            res@ == hex_lower(bytes@.take(i as int)),
        decreases bytes.len() - i,
    {
        let b = bytes[i];
        assert(b >> 4u8 < 16u8 && b & 0x0fu8 < 16u8) by (bit_vector);
        res.append(digit_str(b >> 4u8));
        res.append(digit_str(b & 0x0fu8));
        assert(bytes@.take(i + 1).drop_last() =~= bytes@.take(i as int));
        i += 1;
    }
    assert(bytes@.take(bytes@.len() as int) =~= bytes@);
    proof {
        lemma_hex_lower_len(bytes@);
    }
    res
}

} // verus!
