//! Ordered severity levels, the ANSI color palette, and the ANSI format
//! (weight) codes that the line formatter uses.

use vstd::prelude::*;

verus! {

/// Totally ordered severity: `Debug < Info < Warning < Error < Critical`.
#[derive(Clone, Copy, PartialEq, Eq, Structural, Debug)]
pub enum LogLevel {
    Debug,
    Info,
    Warning,
    Error,
    Critical,
}

impl LogLevel {
    /// Position of the level in the total order.
    pub open spec fn rank(self) -> int {
        match self {
            LogLevel::Debug => 0,
            LogLevel::Info => 1,
            LogLevel::Warning => 2,
            LogLevel::Error => 3,
            LogLevel::Critical => 4,
        }
    }

    /// The short uppercase token that appears in a formatted line.
    pub open spec fn token(self) -> Seq<char> {
        match self {
            LogLevel::Debug => seq!['D', 'B', 'G'],
            LogLevel::Info => seq!['I', 'N', 'F'],
            LogLevel::Warning => seq!['W', 'R', 'N'],
            LogLevel::Error => seq!['E', 'R', 'R'],
            LogLevel::Critical => seq!['C', 'R', 'T'],
        }
    }

    /// Rank as a machine integer, for executable comparisons.
    pub fn rank_u8(self) -> (r: u8)
        ensures
            r as int == self.rank(),
    {
        match self {
            LogLevel::Debug => 0,
            LogLevel::Info => 1,
            LogLevel::Warning => 2,
            LogLevel::Error => 3,
            LogLevel::Critical => 4,
        }
    }

    /// Whether `self` is at least as severe as `other`.
    pub fn ge(self, other: LogLevel) -> (r: bool)
        ensures
            r == (self.rank() >= other.rank()),
    {
        self.rank_u8() >= other.rank_u8()
    }

    /// The display token of the level.
    pub fn token_str(self) -> (r: &'static str)
        ensures
            r@ == self.token(),
    {
        match self {
            LogLevel::Debug => {
                let s = "DBG";
                proof {
                    reveal_strlit("DBG");
                    assert(s@ =~= self.token());
                }
                s
            },
            LogLevel::Info => {
                let s = "INF";
                proof {
                    reveal_strlit("INF");
                    assert(s@ =~= self.token());
                }
                s
            },
            LogLevel::Warning => {
                let s = "WRN";
                proof {
                    reveal_strlit("WRN");
                    assert(s@ =~= self.token());
                }
                s
            },
            LogLevel::Error => {
                let s = "ERR";
                proof {
                    reveal_strlit("ERR");
                    assert(s@ =~= self.token());
                }
                s
            },
            LogLevel::Critical => {
                let s = "CRT";
                proof {
                    reveal_strlit("CRT");
                    assert(s@ =~= self.token());
                }
                s
            },
        }
    }
}

/// Color palette; each color maps to an ANSI SGR foreground introducer.
/// `Normal` emits no introducer at all.
#[derive(Clone, Copy, PartialEq, Eq, Structural, Debug)]
pub enum LogColor {
    Normal,
    Green,
    Blue,
    Magenta,
    Cyan,
    Yellow,
    Red,
}

impl LogColor {
    /// The ANSI SGR introducer of the color; empty for `Normal`.
    pub open spec fn ansi(self) -> Seq<char> {
        match self {
            LogColor::Normal => Seq::<char>::empty(),
            LogColor::Green => seq!['\x1b', '[', '3', '2', 'm'],
            LogColor::Blue => seq!['\x1b', '[', '3', '4', 'm'],
            LogColor::Magenta => seq!['\x1b', '[', '3', '5', 'm'],
            LogColor::Cyan => seq!['\x1b', '[', '3', '6', 'm'],
            LogColor::Yellow => seq!['\x1b', '[', '3', '3', 'm'],
            LogColor::Red => seq!['\x1b', '[', '3', '1', 'm'],
        }
    }

    /// The ANSI SGR introducer of the color, as a string slice.
    pub fn ansi_str(self) -> (r: &'static str)
        ensures
            r@ == self.ansi(),
    {
        match self {
            LogColor::Normal => {
                let s = "";
                proof {
                    reveal_strlit("");
                    assert(s@ =~= self.ansi());
                }
                s
            },
            LogColor::Green => {
                let s = "\x1b[32m";
                proof {
                    reveal_strlit("\x1b[32m");
                    assert(s@ =~= self.ansi());
                }
                s
            },
            LogColor::Blue => {
                let s = "\x1b[34m";
                proof {
                    reveal_strlit("\x1b[34m");
                    assert(s@ =~= self.ansi());
                }
                s
            },
            LogColor::Magenta => {
                let s = "\x1b[35m";
                proof {
                    reveal_strlit("\x1b[35m");
                    assert(s@ =~= self.ansi());
                }
                s
            },
            LogColor::Cyan => {
                let s = "\x1b[36m";
                proof {
                    reveal_strlit("\x1b[36m");
                    assert(s@ =~= self.ansi());
                }
                s
            },
            LogColor::Yellow => {
                let s = "\x1b[33m";
                proof {
                    reveal_strlit("\x1b[33m");
                    assert(s@ =~= self.ansi());
                }
                s
            },
            LogColor::Red => {
                let s = "\x1b[31m";
                proof {
                    reveal_strlit("\x1b[31m");
                    assert(s@ =~= self.ansi());
                }
                s
            },
        }
    }
}

/// ANSI SGR format constants: the bold introducer and the reset code.
#[derive(Clone, Copy, PartialEq, Eq, Structural, Debug)]
pub enum LogFormat {
    Bold,
    Endc,
}

impl LogFormat {
    /// The ANSI SGR sequence of the format code.
    pub open spec fn ansi(self) -> Seq<char> {
        match self {
            LogFormat::Bold => seq!['\x1b', '[', '1', 'm'],
            LogFormat::Endc => seq!['\x1b', '[', '0', 'm'],
        }
    }

    /// The ANSI SGR sequence of the format code, as a string slice.
    pub fn ansi_str(self) -> (r: &'static str)
        ensures
            r@ == self.ansi(),
    {
        match self {
            LogFormat::Bold => {
                let s = "\x1b[1m";
                proof {
                    reveal_strlit("\x1b[1m");
                    assert(s@ =~= self.ansi());
                }
                s
            },
            LogFormat::Endc => {
                let s = "\x1b[0m";
                proof {
                    reveal_strlit("\x1b[0m");
                    assert(s@ =~= self.ansi());
                }
                s
            },
        }
    }
}

} // verus!
