//! The flag values the engine works with, and their wire encoding.

use vstd::prelude::*;

verus! {

/// A session-wide condition, totally ordered by severity:
/// `Vsc < Sc < Red`. At most one is active at a time; absence means
/// "no global flag".
#[derive(Debug, Clone, Copy, PartialEq, Eq, PartialOrd, Ord)]
pub enum GlobalFlag {
    Vsc,
    Sc,
    Red,
}

/// A condition specific to the observed driver's car. At most one is
/// active at a time; absence means "no local flag".
#[derive(Debug, Clone, Copy, PartialEq, Eq, PartialOrd, Ord)]
pub enum LocalFlag {
    Green,
    Yellow,
    Blue,
}

/// A value handed to the signal emitter: one discrete condition, with the
/// driver index attached in the penalty case.
#[derive(Debug, Clone, Copy, PartialEq, Eq)]
pub enum Flag {
    Global(GlobalFlag),
    Local(LocalFlag),
    Penalty(usize),
    Finish,
}

/// Structural equality on an optional global flag, usable in contracts.
pub fn global_flag_eq(a: Option<GlobalFlag>, b: Option<GlobalFlag>) -> (r: bool)
    ensures
        r == (a == b),
{
    match (a, b) {
        (None, None) => true,
        (Some(GlobalFlag::Vsc), Some(GlobalFlag::Vsc)) => true,
        (Some(GlobalFlag::Sc), Some(GlobalFlag::Sc)) => true,
        (Some(GlobalFlag::Red), Some(GlobalFlag::Red)) => true,
        _ => false,
    }
}

/// Structural equality on an optional local flag, usable in contracts.
pub fn local_flag_eq(a: Option<LocalFlag>, b: Option<LocalFlag>) -> (r: bool)
    ensures
        r == (a == b),
{
    match (a, b) {
        (None, None) => true,
        (Some(LocalFlag::Green), Some(LocalFlag::Green)) => true,
        (Some(LocalFlag::Yellow), Some(LocalFlag::Yellow)) => true,
        (Some(LocalFlag::Blue), Some(LocalFlag::Blue)) => true,
        _ => false,
    }
}

/// The character for one decimal digit.
pub open spec fn spec_digit_char(d: nat) -> char {
    if d == 0 {
        '0'
    } else if d == 1 {
        '1'
    } else if d == 2 {
        '2'
    } else if d == 3 {
        '3'
    } else if d == 4 {
        '4'
    } else if d == 5 {
        '5'
    } else if d == 6 {
        '6'
    } else if d == 7 {
        '7'
    } else if d == 8 {
        '8'
    } else {
        '9'
    }
}

/// The decimal representation of `n`, most significant digit first, with
/// no leading zeroes (a single `'0'` for zero).
pub open spec fn spec_decimal(n: nat) -> Seq<char>
    decreases n,
{
    if n < 10 {
        seq![spec_digit_char(n)]
    } else {
        spec_decimal(n / 10) + seq![spec_digit_char(n % 10)]
    }
}

fn digit_str(d: usize) -> (r: &'static str)
    requires
        d < 10,
    ensures
        r@ == seq![spec_digit_char(d as nat)],
{
    match d {
        0 => {
            proof {
                reveal_strlit("0");
                assert("0"@ =~= seq![spec_digit_char(0)]);
            }
            "0"
        },
        1 => {
            proof {
                reveal_strlit("1");
                assert("1"@ =~= seq![spec_digit_char(1)]);
            }
            "1"
        },
        2 => {
            proof {
                reveal_strlit("2");
                assert("2"@ =~= seq![spec_digit_char(2)]);
            }
            "2"
        },
        3 => {
            proof {
                reveal_strlit("3");
                assert("3"@ =~= seq![spec_digit_char(3)]);
            }
            "3"
        },
        4 => {
            proof {
                reveal_strlit("4");
                assert("4"@ =~= seq![spec_digit_char(4)]);
            }
            "4"
        },
        5 => {
            proof {
                reveal_strlit("5");
                assert("5"@ =~= seq![spec_digit_char(5)]);
            }
            "5"
        },
        6 => {
            proof {
                reveal_strlit("6");
                assert("6"@ =~= seq![spec_digit_char(6)]);
            }
            "6"
        },
        7 => {
            proof {
                reveal_strlit("7");
                assert("7"@ =~= seq![spec_digit_char(7)]);
            }
            "7"
        },
        8 => {
            proof {
                reveal_strlit("8");
                assert("8"@ =~= seq![spec_digit_char(8)]);
            }
            "8"
        },
        _ => {
            proof {
                reveal_strlit("9");
                assert("9"@ =~= seq![spec_digit_char(9)]);
            }
            "9"
        },
    }
}

/// Renders `n` in decimal.
pub fn usize_to_string(n: usize) -> (r: String)
    ensures
        r@ == spec_decimal(n as nat),
    decreases n,
{
    if n < 10 {
        String::from_str(digit_str(n))
    } else {
        let mut s = usize_to_string(n / 10);
        s.append(digit_str(n % 10));
        proof {
            assert(s@ =~= spec_decimal(n as nat));
        }
        s
    }
}

impl Flag {
    /// The discrete code of the condition, without the driver index that
    /// the penalty case carries alongside it.
    pub open spec fn spec_code(self) -> nat {
        match self {
            Flag::Global(GlobalFlag::Vsc) => 5,
            Flag::Global(GlobalFlag::Sc) => 4,
            Flag::Global(GlobalFlag::Red) => 12,
            Flag::Local(LocalFlag::Green) => 1,
            Flag::Local(LocalFlag::Yellow) => 2,
            Flag::Local(LocalFlag::Blue) => 8,
            Flag::Penalty(_) => 11,
            Flag::Finish => 16,
        }
    }

    /// The wire text for this value: the condition's code in decimal, with
    /// the driver index comma-joined in the penalty case.
    pub open spec fn spec_enum_str(self) -> Seq<char> {
        match self {
            Flag::Penalty(index) => spec_decimal(11) + seq![','] + spec_decimal(index as nat),
            _ => spec_decimal(self.spec_code()),
        }
    }

    /// Renders this value as the wire text expected by the consumer.
    pub fn to_enum_str(self) -> (r: String)
        ensures
            r@ == self.spec_enum_str(),
    {
        match self {
            Flag::Penalty(index) => {
                let mut s = usize_to_string(11);
                s.append(",");
                let d = usize_to_string(index);
                s.append(d.as_str());
                proof {
                    reveal_strlit(",");
                    assert(","@ =~= seq![',']);
                    assert(s@ =~= self.spec_enum_str());
                }
                s
            },
            Flag::Global(GlobalFlag::Vsc) => usize_to_string(5),
            Flag::Global(GlobalFlag::Sc) => usize_to_string(4),
            Flag::Global(GlobalFlag::Red) => usize_to_string(12),
            Flag::Local(LocalFlag::Green) => usize_to_string(1),
            Flag::Local(LocalFlag::Yellow) => usize_to_string(2),
            Flag::Local(LocalFlag::Blue) => usize_to_string(8),
            Flag::Finish => usize_to_string(16),
        }
    }
}

/// The wire text for an emitted value: the encoded condition, or the empty
/// string, which tells the consumer to clear the display.
pub open spec fn spec_show_string(flag: Option<Flag>) -> Seq<char> {
    match flag {
        Some(f) => f.spec_enum_str(),
        None => Seq::empty(),
    }
}

/// Renders an emitted value as the wire text: the encoded condition, or
/// the empty string for the explicit clear.
pub fn show_string(flag: Option<Flag>) -> (r: String)
    ensures
        r@ == spec_show_string(flag),
{
    match flag {
        Some(f) => f.to_enum_str(),
        None => String::new(),
    }
}

impl From<LocalFlag> for Flag {
    fn from(value: LocalFlag) -> (r: Self)
        ensures
            r == Flag::Local(value),
    {
        Flag::Local(value)
    }
}

impl vstd::std_specs::convert::FromSpecImpl<LocalFlag> for Flag {
    open spec fn obeys_from_spec() -> bool {
        true
    }

    open spec fn from_spec(t: LocalFlag) -> Self {
        Flag::Local(t)
    }
}

impl From<GlobalFlag> for Flag {
    fn from(value: GlobalFlag) -> (r: Self)
        ensures
            r == Flag::Global(value),
    {
        Flag::Global(value)
    }
}

impl vstd::std_specs::convert::FromSpecImpl<GlobalFlag> for Flag {
    open spec fn obeys_from_spec() -> bool {
        true
    }

    open spec fn from_spec(t: GlobalFlag) -> Self {
        Flag::Global(t)
    }
}

} // verus!
