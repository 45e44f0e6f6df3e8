//! Shared constants and plain data types: the channel record, the domain
//! bounds, and small types used by the UI front-ends.

use vstd::prelude::*;
use vstd::string::StringExecFns;

verus! {

/// Number of channel slots in the dataset; fixed for the process lifetime.
pub const CHANNELS_COUNT: usize = 9;

/// Smallest reading (and threshold) the domain allows.
pub const LOW_INTEGER_LIMIT: u32 = 1;

/// Largest reading (and threshold) the domain allows.
pub const HIGH_INTEGER_LIMIT: u32 = 100;

/// Threshold the suspicion policy starts with.
pub const SUSPICIOUS_LIMIT: u32 = 75;

/// True when `v` lies inside the domain bounds for readings and thresholds.
pub open spec fn value_in_range(v: u32) -> bool {
    LOW_INTEGER_LIMIT <= v <= HIGH_INTEGER_LIMIT
}

/// The classification rule: a reading is suspicious when it exceeds the
/// threshold it was last classified against.
pub open spec fn classified(reading: u32, threshold: u32) -> bool {
    reading > threshold
}

/// One channel slot: an integer reading and its suspicion classification.
#[derive(Clone, Copy, PartialEq, Eq, Structural, Debug)]
pub struct ChannelInfo {
    pub integer_value: u32,
    pub is_suspicious: bool,
}

/// The character for one decimal digit.
pub open spec fn digit_char(d: int) -> char {
    if d == 0 {
        '0'
    } else if d == 1 {
        '1'
    } else if d == 2 {
        '2'
    } else if d == 3 {
        '3'
    } else if d == 4 {
        '4'
    } else if d == 5 {
        '5'
    } else if d == 6 {
        '6'
    } else if d == 7 {
        '7'
    } else if d == 8 {
        '8'
    } else {
        '9'
    }
}

/// The usual decimal rendering of `n`: most significant digit first, no
/// leading zeroes (a lone `'0'` for zero).
pub open spec fn decimal_digits(n: nat) -> Seq<char>
    decreases n,
{
    if n < 10 {
        seq![digit_char(n as int)]
    } else {
        decimal_digits(n / 10).push(digit_char((n % 10) as int))
    }
}

/// The character for the decimal digit `d`.
fn digit_str(d: u32) -> (r: &'static str)
    requires
        d < 10,
    ensures
        r@ == seq![digit_char(d as int)],
{
    proof {
        reveal_strlit("0");
        reveal_strlit("1");
        reveal_strlit("2");
        reveal_strlit("3");
        reveal_strlit("4");
        reveal_strlit("5");
        reveal_strlit("6");
        reveal_strlit("7");
        reveal_strlit("8");
        reveal_strlit("9");
    }
    let r = match d {
        0 => "0",
        1 => "1",
        2 => "2",
        3 => "3",
        4 => "4",
        5 => "5",
        6 => "6",
        7 => "7",
        8 => "8",
        _ => "9",
    };
    proof {
        assert(r@ =~= seq![digit_char(d as int)]);
    }
    r
}

/// Render `n` in decimal.
fn u32_to_decimal(n: u32) -> (r: String)
    ensures
        r@ == decimal_digits(n as nat),
    decreases n,
{
    if n < 10 {
        digit_str(n).to_owned()
    } else {
        let mut s = u32_to_decimal(n / 10);
        s.append(digit_str(n % 10));
        proof {
            assert(s@ =~= decimal_digits(n as nat));
        }
        s
    }
}

impl ChannelInfo {
    /// The reading lies inside the domain bounds.
    pub open spec fn wf(self) -> bool {
        value_in_range(self.integer_value)
    }

    /// The reading rendered in decimal.
    pub fn value_as_text(&self) -> (r: String)
        ensures
            r@ == decimal_digits(self.integer_value as nat),
    {
        u32_to_decimal(self.integer_value)
    }

    /// The flag rendered for display: `"Yes"` when suspicious, `"No"`
    /// otherwise.
    pub fn suspicious_as_text(&self) -> (r: String)
        ensures
            self.is_suspicious ==> r@ == "Yes"@,
            !self.is_suspicious ==> r@ == "No"@,
    {
        if self.is_suspicious {
            "Yes".to_owned()
        } else {
            "No".to_owned()
        }
    }
}

/// Profile data a settings form collects; the library only stores it.
#[derive(Clone, PartialEq, Eq, Debug)]
pub struct UserInfo {
    pub name: String,
    pub age: u32,
}

/// Which page of a front-end is active.
#[derive(Clone, Copy, PartialEq, Eq, Structural, Debug)]
pub enum ApplicationTab {
    Home,
    Settings,
    About,
}

impl Default for ApplicationTab {
    /// A front-end opens on the home tab.
    fn default() -> (r: Self)
        ensures
            r == ApplicationTab::Home,
    {
        ApplicationTab::Home
    }
}

} // verus!
