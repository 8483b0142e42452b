//! The texts under which risks and temperatures are shown.

use vstd::prelude::*;
use crate::forecast_codec::{digits_value, is_digit, parse_int, unsigned_part, TemperatureForecast};
use crate::hazard::{HazardKind, RiskValue};

verus! {

/// The character of a decimal digit.
pub open spec fn digit_char(digit: int) -> char {
    if digit == 0 {
        '0'
    } else if digit == 1 {
        '1'
    } else if digit == 2 {
        '2'
    } else if digit == 3 {
        '3'
    } else if digit == 4 {
        '4'
    } else if digit == 5 {
        '5'
    } else if digit == 6 {
        '6'
    } else if digit == 7 {
        '7'
    } else if digit == 8 {
        '8'
    } else {
        '9'
    }
}

/// The decimal digits of a natural number, without leading zeros.
pub open spec fn decimal(n: nat) -> Seq<char>
    decreases n,
{
    if n < 10 {
        seq![digit_char(n as int)]
    } else {
        decimal(n / 10).push(digit_char((n % 10) as int))
    }
}

/// The decimal text of an integer: a minus sign where it is negative, then
/// the digits of its magnitude.
pub open spec fn signed_decimal(value: int) -> Seq<char> {
    if value < 0 {
        seq!['-'] + decimal((-value) as nat)
    } else {
        decimal(value as nat)
    }
}

/// The code that stands for a risk value in a style class: the category's
/// code, the percentage, or zero where there is no category.
pub open spec fn risk_code(value: RiskValue) -> int {
    match value {
        RiskValue::Categorical(category) => category.spec_code(),
        RiskValue::Percentage(percent) => percent as int,
        RiskValue::NoRisk => 0,
    }
}

/// The text that shows a risk value: the category's label, the percentage
/// with a percent sign, or `NONE` where there is no category.
pub open spec fn risk_text(value: RiskValue) -> Seq<char> {
    match value {
        RiskValue::Categorical(category) => category.spec_label(),
        RiskValue::Percentage(percent) => signed_decimal(percent as int) + "%"@,
        RiskValue::NoRisk => "NONE"@,
    }
}

/// The style class of a risk value: the hazard's label, a hyphen and the
/// value's code.
pub open spec fn risk_class(kind: HazardKind, value: RiskValue) -> Seq<char> {
    kind.spec_label() + "-"@ + signed_decimal(risk_code(value))
}

/// The text that shows a temperature, in degrees Fahrenheit.
pub open spec fn temperature_text(degrees: i32) -> Seq<char> {
    signed_decimal(degrees as int) + "°F"@
}

/// The decimal digits of a number are digits, at least one, and denote the
/// number.
pub proof fn lemma_decimal_denotes(n: nat)
    ensures
        decimal(n).len() > 0,
        forall|i: int| 0 <= i < decimal(n).len() ==> is_digit(#[trigger] decimal(n)[i]),
        digits_value(decimal(n)) == n,
    decreases n,
{
    if n < 10 {
        assert(decimal(n).drop_last() =~= Seq::<char>::empty());
        assert(digits_value(decimal(n).drop_last()) == 0);
    } else {
        lemma_decimal_denotes(n / 10);
        assert(decimal(n).drop_last() =~= decimal(n / 10));
    }
}

/// Reading the decimal text of a 32-bit integer gives the integer back.
pub proof fn lemma_decimal_round_trip(value: i32)
    ensures
        parse_int(signed_decimal(value as int)) == Some(value),
{
    let text = signed_decimal(value as int);
    if value < 0 {
        lemma_decimal_denotes((-value) as nat);
        assert(unsigned_part(text) =~= decimal((-value) as nat));
    } else {
        lemma_decimal_denotes(value as nat);
        assert(is_digit(text[0]));
    }
}

/// The layer text of a hazard kind is the decimal text of its layer
/// identifier.
pub proof fn lemma_layer_text_is_decimal(kind: HazardKind)
    ensures
        kind.spec_layer_text() == signed_decimal(kind.spec_layer_id()),
        parse_int(kind.spec_layer_text()) == Some(kind.spec_layer_id() as i32),
{
    reveal_strlit("1");
    reveal_strlit("3");
    reveal_strlit("5");
    reveal_strlit("7");
    assert(kind.spec_layer_text() =~= signed_decimal(kind.spec_layer_id()));
    lemma_decimal_round_trip(kind.spec_layer_id() as i32);
}

/// The text of one decimal digit.
fn digit_text(digit: u32) -> (text: &'static str)
    requires
        digit < 10,
    ensures
        text@ == seq![digit_char(digit as int)],
{
    proof {
        reveal_strlit("0");
        reveal_strlit("1");
        reveal_strlit("2");
        reveal_strlit("3");
        reveal_strlit("4");
        reveal_strlit("5");
        reveal_strlit("6");
        reveal_strlit("7");
        reveal_strlit("8");
        reveal_strlit("9");
    }
    let text = match digit {
        0 => "0",
        1 => "1",
        2 => "2",
        3 => "3",
        4 => "4",
        5 => "5",
        6 => "6",
        7 => "7",
        8 => "8",
        _ => "9",
    };
    proof {
        assert(text@ =~= seq![digit_char(digit as int)]);
    }
    text
}

/// Appends the decimal digits of a number to a text.
fn append_decimal(text: &mut String, n: u32)
    ensures
        final(text)@ == old(text)@ + decimal(n as nat),
    decreases n,
{
    if n >= 10 {
        append_decimal(text, n / 10);
    }
    text.append(digit_text(n % 10));
    proof {
        assert(text@ =~= old(text)@ + decimal(n as nat));
    }
}

/// Writes an integer in decimal.
pub fn decimal_text(value: i32) -> (text: String)
    ensures
        text@ == signed_decimal(value as int),
        parse_int(text@) == Some(value),
{
    let mut text = String::new();
    let wide: i64 = value as i64;
    let magnitude: u32 = if value < 0 {
        proof {
            reveal_strlit("-");
        }
        text.append("-");
        (0 - wide) as u32
    } else {
        value as u32
    };
    append_decimal(&mut text, magnitude);
    proof {
        assert(text@ =~= signed_decimal(value as int));
        lemma_decimal_round_trip(value);
    }
    text
}

impl RiskValue {
    /// The text that shows the value.
    pub fn text(&self) -> (text: String)
        ensures
            text@ == risk_text(*self),
    {
        match self {
            RiskValue::Categorical(category) => String::from_str(category.label()),
            RiskValue::Percentage(percent) => {
                let mut text = decimal_text(*percent);
                text.append("%");
                text
            },
            RiskValue::NoRisk => String::from_str("NONE"),
        }
    }

    /// The style class of the value when shown for the hazard `kind`.
    pub fn style_class(&self, kind: HazardKind) -> (class: String)
        ensures
            class@ == risk_class(kind, *self),
    {
        let code: i32 = match self {
            RiskValue::Categorical(category) => category.code(),
            RiskValue::Percentage(percent) => *percent,
            RiskValue::NoRisk => 0,
        };
        let mut class = String::from_str(kind.label());
        class.append("-");
        let digits = decimal_text(code);
        class.append(digits.as_str());
        class
    }
}

impl TemperatureForecast {
    /// The text that shows the high.
    pub fn high_text(&self) -> (text: String)
        ensures
            text@ == temperature_text(self.high),
    {
        let mut text = decimal_text(self.high);
        text.append("°F");
        text
    }

    /// The text that shows the low.
    pub fn low_text(&self) -> (text: String)
        ensures
            text@ == temperature_text(self.low),
    {
        let mut text = decimal_text(self.low);
        text.append("°F");
        text
    }
}

} // verus!
