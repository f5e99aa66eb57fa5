//! Settings: the trial amounts of each tier, and switches.

use vstd::prelude::*;
use crate::double::{Double, whole};

verus! {

/// Milliseconds between two looks at the slot that feeds the broadcast.
pub const IPC_CYCLE_MILLIS: u64 = 200;

/// Verbose logging of prices and liquidity.
pub const IS_LOGGING_ENABLED: bool = false;

/// What the environment holds for an amount.
#[derive(Clone, Copy, Debug, PartialEq, Eq, Structural)]
pub enum AmountSetting {
    /// The variable is not set.
    Unset,
    /// The variable is set to something that is not a number.
    Malformed,
    /// The variable is set to this number.
    Value(Double),
}

/// What the environment holds for a count.
#[derive(Clone, Copy, Debug, PartialEq, Eq, Structural)]
pub enum CountSetting {
    /// The variable is not set.
    Unset,
    /// The variable is set to something that is not a count.
    Malformed,
    /// The variable is set to this count.
    Value(u32),
}

/// First trial amount of a tier, in USDC, where nothing else is set.
pub open spec fn default_start_amount(tier: u8) -> nat {
    match tier {
        0 => 50,
        1 => 100,
        2 => 300,
        3 => 500,
        4 => 1000,
        _ => 1,
    }
}

/// Distance between two trial amounts of a tier, in USDC, where nothing
/// else is set.
pub open spec fn default_step(tier: u8) -> nat {
    match tier {
        0 => 50,
        1 => 100,
        2 => 100,
        3 => 150,
        4 => 1250,
        _ => 1,
    }
}

/// Number of trial amounts of a tier, where nothing else is set.
pub open spec fn default_step_number(tier: u8) -> u32 {
    match tier {
        0 => 4,
        1 => 5,
        2 => 5,
        3 => 4,
        4 => 4,
        _ => 4,
    }
}

/// The amount that a setting stands for: the number itself, the given
/// default where nothing is set, and 1 where the setting is malformed.
pub open spec fn amount_is(r: Double, setting: AmountSetting, default: nat) -> bool {
    match setting {
        AmountSetting::Value(v) => r == v,
        AmountSetting::Unset => !r.spec_is_nan() && !r.spec_is_negative() && r.scaled() == whole(
            default,
        ),
        AmountSetting::Malformed => !r.spec_is_nan() && !r.spec_is_negative() && r.scaled()
            == whole(1),
    }
}

/// The count that a setting stands for: the count itself, the given default
/// where nothing is set, and 4 where the setting is malformed.
pub open spec fn count_of(setting: CountSetting, default: u32) -> u32 {
    match setting {
        CountSetting::Value(n) => n,
        CountSetting::Unset => default,
        CountSetting::Malformed => 4,
    }
}

fn resolve_amount(setting: AmountSetting, default: u32) -> (r: Double)
    ensures
        amount_is(r, setting, default as nat),
{
    match setting {
        AmountSetting::Value(v) => v,
        AmountSetting::Unset => Double::from_u32(default),
        AmountSetting::Malformed => Double::from_u32(1),
    }
}

/// The trial amounts of a tier: first amount, step and number of amounts.
/// Each comes from its setting, or from the tier's default where nothing
/// is set.
pub fn get_trade_config(
    tier: u8,
    start_amount: AmountSetting,
    step: AmountSetting,
    step_number: CountSetting,
) -> (r: (Double, Double, u32))
    ensures
        amount_is(r.0, start_amount, default_start_amount(tier)),
        amount_is(r.1, step, default_step(tier)),
        r.2 == count_of(step_number, default_step_number(tier)),
{
    let default_start: u32 = match tier {
        0 => 50,
        1 => 100,
        2 => 300,
        3 => 500,
        4 => 1000,
        _ => 1,
    };
    let default_step: u32 = match tier {
        0 => 50,
        1 => 100,
        2 => 100,
        3 => 150,
        4 => 1250,
        _ => 1,
    };
    let default_number: u32 = match tier {
        0 => 4,
        1 => 5,
        2 => 5,
        3 => 4,
        4 => 4,
        _ => 4,
    };
    let number: u32 = match step_number {
        CountSetting::Value(n) => n,
        CountSetting::Unset => default_number,
        CountSetting::Malformed => 4,
    };
    (resolve_amount(start_amount, default_start), resolve_amount(step, default_step), number)
}

/// The value of a decimal digit; `None` for any other character.
pub open spec fn digit_value(c: char) -> Option<nat> {
    if '0' <= c <= '9' {
        Some((c as u32 - '0' as u32) as nat)
    } else {
        None
    }
}

/// Every character is a decimal digit.
pub open spec fn all_digits(s: Seq<char>) -> bool {
    forall|i: int| 0 <= i < s.len() ==> digit_value(#[trigger] s[i]) is Some
}

/// The number that decimal digits spell.
pub open spec fn digits_value(s: Seq<char>) -> nat
    decreases s.len(),
{
    if s.len() == 0 {
        0
    } else {
        10 * digits_value(s.drop_last()) + digit_value(s.last()).unwrap()
    }
}

/// The count that a text spells: a `+` or nothing, then one decimal digit
/// or more, spelling a number that 32 bits hold. Any other text spells
/// none.
pub open spec fn decimal_u32(text: Seq<char>) -> Option<u32> {
    let digits = if text.len() > 0 && text[0] == '+' {
        text.skip(1)
    } else {
        text
    };
    if digits.len() > 0 && all_digits(digits) && digits_value(digits) <= u32::MAX {
        Some(digits_value(digits) as u32)
    } else {
        None
    }
}

/// `str::parse::<u32>`. Believed of it: it reads an optional `+` followed
/// by decimal digits only, of which there is at least one, and fails on
/// any other text and on a number above the largest of 32 bits.
#[verifier::external_body]
fn parse_u32(text: &str) -> (r: Option<u32>)
    ensures
        r == decimal_u32(text@),
{
    text.parse::<u32>().ok()
}

/// Reads a count from what the environment holds for it.
pub fn count_setting(text: Option<&str>) -> (r: CountSetting)
    ensures
        r == match text {
            None => CountSetting::Unset,
            Some(t) => match decimal_u32(t@) {
                Some(n) => CountSetting::Value(n),
                None => CountSetting::Malformed,
            },
        },
{
    match text {
        None => CountSetting::Unset,
        Some(t) => match parse_u32(t) {
            Some(n) => CountSetting::Value(n),
            None => CountSetting::Malformed,
        },
    }
}

/// What `str::to_lowercase` makes of a text.
pub uninterp spec fn lowercased(text: Seq<char>) -> Seq<char>;

/// `str::to_lowercase`. Believed of it: the same text always gives the
/// same result.
#[verifier::external_body]
fn to_lowercase(text: &str) -> (r: String)
    ensures
        r@ == lowercased(text@),
{
    text.to_lowercase()
}

/// Whether simulations are logged: the switch is set, and reads `true` in
/// whatever case.
pub fn is_simulation_logging_enabled(value: Option<&str>) -> (r: bool)
    ensures
        r == (value matches Some(v) && lowercased(v@) == "true"@),
{
    match value {
        None => false,
        Some(v) => {
            let lowered: String = to_lowercase(v);
            let wanted: String = "true".to_owned();
            lowered == wanted
        },
    }
}

} // verus!
