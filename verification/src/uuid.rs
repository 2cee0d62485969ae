//! The 128-bit identifier that tags a single process invocation, with its
//! canonical hyphenated lowercase-hex rendering.

use vstd::prelude::*;

verus! {

/// The lowercase hexadecimal digit character for a value in `0 ..= 15`.
pub open spec fn hex_char(d: int) -> char {
    if d == 0 {
        '0'
    } else if d == 1 {
        '1'
    } else if d == 2 {
        '2'
    } else if d == 3 {
        '3'
    } else if d == 4 {
        '4'
    } else if d == 5 {
        '5'
    } else if d == 6 {
        '6'
    } else if d == 7 {
        '7'
    } else if d == 8 {
        '8'
    } else if d == 9 {
        '9'
    } else if d == 10 {
        'a'
    } else if d == 11 {
        'b'
    } else if d == 12 {
        'c'
    } else if d == 13 {
        'd'
    } else if d == 14 {
        'e'
    } else {
        'f'
    }
}

/// The `n` low hexadecimal digits of `v`, most significant first,
/// zero-padded.
pub open spec fn hex_digits(v: int, n: nat) -> Seq<char>
    decreases n,
{
    if n == 0 {
        Seq::<char>::empty()
    } else {
        hex_digits(v / 16, (n - 1) as nat) + seq![hex_char(v % 16)]
    }
}

/// The canonical 8-4-4-4-12 hyphenated lowercase-hex rendering of a
/// 128-bit identifier.
pub open spec fn uuid_text(v: u128) -> Seq<char> {
    hex_digits(v as int / 0x1_0000_0000_0000_0000_0000_0000, 8) + seq!['-'] + hex_digits(
        (v as int / 0x1_0000_0000_0000_0000_0000) % 0x1_0000,
        4,
    ) + seq!['-'] + hex_digits((v as int / 0x1_0000_0000_0000_0000) % 0x1_0000, 4) + seq!['-']
        + hex_digits((v as int / 0x1_0000_0000_0000) % 0x1_0000, 4) + seq!['-'] + hex_digits(
        v as int % 0x1_0000_0000_0000,
        12,
    )
}

fn hex_char_str(d: u64) -> (r: &'static str)
    requires
        d < 16,
    ensures
        r@ == seq![hex_char(d as int)],
{
    if d == 0 {
        let s = "0";
        proof {
            reveal_strlit("0");
            assert(s@ =~= seq![hex_char(d as int)]);
        }
        s
    } else if d == 1 {
        let s = "1";
        proof {
            reveal_strlit("1");
            assert(s@ =~= seq![hex_char(d as int)]);
        }
        s
    } else if d == 2 {
        let s = "2";
        proof {
            reveal_strlit("2");
            assert(s@ =~= seq![hex_char(d as int)]);
        }
        s
    } else if d == 3 {
        let s = "3";
        proof {
            reveal_strlit("3");
            assert(s@ =~= seq![hex_char(d as int)]);
        }
        s
    } else if d == 4 {
        let s = "4";
        proof {
            reveal_strlit("4");
            assert(s@ =~= seq![hex_char(d as int)]);
        }
        s
    } else if d == 5 {
        let s = "5";
        proof {
            reveal_strlit("5");
            assert(s@ =~= seq![hex_char(d as int)]);
        }
        s
    } else if d == 6 {
        let s = "6";
        proof {
            reveal_strlit("6");
            assert(s@ =~= seq![hex_char(d as int)]);
        }
        s
    } else if d == 7 {
        let s = "7";
        proof {
            reveal_strlit("7");
            assert(s@ =~= seq![hex_char(d as int)]);
        }
        s
    } else if d == 8 {
        let s = "8";
        proof {
            reveal_strlit("8");
            assert(s@ =~= seq![hex_char(d as int)]);
        }
        s
    } else if d == 9 {
        let s = "9";
        proof {
            reveal_strlit("9");
            assert(s@ =~= seq![hex_char(d as int)]);
        }
        s
    } else if d == 10 {
        let s = "a";
        proof {
            reveal_strlit("a");
            assert(s@ =~= seq![hex_char(d as int)]);
        }
        s
    } else if d == 11 {
        let s = "b";
        proof {
            reveal_strlit("b");
            assert(s@ =~= seq![hex_char(d as int)]);
        }
        s
    } else if d == 12 {
        let s = "c";
        proof {
            reveal_strlit("c");
            assert(s@ =~= seq![hex_char(d as int)]);
        }
        s
    } else if d == 13 {
        let s = "d";
        proof {
            reveal_strlit("d");
            assert(s@ =~= seq![hex_char(d as int)]);
        }
        s
    } else if d == 14 {
        let s = "e";
        proof {
            reveal_strlit("e");
            assert(s@ =~= seq![hex_char(d as int)]);
        }
        s
    } else {
        let s = "f";
        proof {
            reveal_strlit("f");
            assert(s@ =~= seq![hex_char(d as int)]);
        }
        s
    }
}

fn hex_string(v: u128, n: u64) -> (r: String)
    ensures
        r@ == hex_digits(v as int, n as nat),
    decreases n,
{
    if n == 0 {
        let s = String::new();
        proof {
            assert(s@ =~= hex_digits(v as int, 0));
        }
        s
    } else {
        let mut s = hex_string(v / 16, n - 1);
        s.append(hex_char_str((v % 16) as u64));
        proof {
            assert(s@ =~= hex_digits(v as int, n as nat));
        }
        s
    }
}

/// A 128-bit identifier uniquely tagging a single process invocation.
/// The logger stores it at construction and hands it back on request,
/// never altering it.
#[derive(Clone, Copy, PartialEq, Eq, Structural, Debug)]
pub struct UUID4 {
    pub value: u128,
}

impl UUID4 {
    /// Wraps a 128-bit identifier value.
    pub fn from_u128(value: u128) -> (r: UUID4)
        ensures
            r.value == value,
    {
        UUID4 { value }
    }

    /// The canonical 8-4-4-4-12 hyphenated lowercase-hex rendering.
    pub fn to_text(&self) -> (r: String)
        ensures
            r@ == uuid_text(self.value),
    {
        let v = self.value;
        let mut s = hex_string(v / 0x1_0000_0000_0000_0000_0000_0000, 8);
        proof {
            reveal_strlit("-");
        }
        s.append("-");
        s.append(hex_string((v / 0x1_0000_0000_0000_0000_0000) % 0x1_0000, 4).as_str());
        s.append("-");
        s.append(hex_string((v / 0x1_0000_0000_0000_0000) % 0x1_0000, 4).as_str());
        s.append("-");
        s.append(hex_string((v / 0x1_0000_0000_0000) % 0x1_0000, 4).as_str());
        s.append("-");
        s.append(hex_string(v % 0x1_0000_0000_0000, 12).as_str());
        proof {
            assert(s@ =~= uuid_text(self.value));
        }
        s
    }
}

} // verus!
