//! A function that spells out a digit, with a mock in front of it, and a
//! caller that frames what it gets.

use vstd::prelude::*;
use vstd::string::StringExecFns;
use crate::function_mock::FunctionMock;

verus! {

/// The English name of a digit.
pub open spec fn digit_name(digit: u8) -> Seq<char>
    recommends
        digit <= 9,
{
    if digit == 0 {
        "Zero"@
    } else if digit == 1 {
        "One"@
    } else if digit == 2 {
        "Two"@
    } else if digit == 3 {
        "Three"@
    } else if digit == 4 {
        "Four"@
    } else if digit == 5 {
        "Five"@
    } else if digit == 6 {
        "Six"@
    } else if digit == 7 {
        "Seven"@
    } else if digit == 8 {
        "Eight"@
    } else {
        "Nine"@
    }
}

/// What the real function answers for `digit`: its name, or the complaint
/// that it is no digit.
pub open spec fn spells(digit: u8, generated: Result<String, String>) -> bool {
    match generated {
        Ok(name) => digit <= 9 && name@ == digit_name(digit),
        Err(message) => digit > 9 && message@ == "Digit should be between 0 and 9"@,
    }
}

/// Spells out a digit. Anything above nine is refused.
pub fn generate_string_from_digit(digit: u8) -> (generated: Result<String, String>)
    ensures
        spells(digit, generated),
{
    match digit {
        0 => Ok(String::from_str("Zero")),
        1 => Ok(String::from_str("One")),
        2 => Ok(String::from_str("Two")),
        3 => Ok(String::from_str("Three")),
        4 => Ok(String::from_str("Four")),
        5 => Ok(String::from_str("Five")),
        6 => Ok(String::from_str("Six")),
        7 => Ok(String::from_str("Seven")),
        8 => Ok(String::from_str("Eight")),
        9 => Ok(String::from_str("Nine")),
        _ => Err(String::from_str("Digit should be between 0 and 9")),
    }
}

/// Whether `output` is what `format_output` makes of `generated`.
pub open spec fn frames(generated: Result<String, String>, output: Result<String, String>) -> bool {
    match generated {
        Ok(name) => output matches Ok(line) && line@ == "Output: "@ + name@,
        Err(message) => output matches Err(same) && same@ == message@,
    }
}

/// Puts a generated name on an output line; an error passes through as it
/// is.
pub fn format_output(generated: Result<String, String>) -> (output: Result<String, String>)
    ensures
        frames(generated, output),
{
    match generated {
        Ok(name) => {
            let mut line = String::from_str("Output: ");
            line.append(name.as_str());
            Ok(line)
        },
        Err(message) => Err(message),
    }
}

/// The output line for `digit`. With a configured mock the name comes from
/// the mock, which records the digit; otherwise the real function spells it
/// and the mock is left alone.
pub fn generate_output<Function: Fn(u8) -> Result<String, String>>(
    digit: u8,
    generate_string_from_digit_mock: &mut FunctionMock<u8, Result<String, String>, Function>,
) -> (output: Result<String, String>)
    requires
        old(generate_string_from_digit_mock)@.is_configured() ==> call_requires(
            old(generate_string_from_digit_mock)@.behavior.unwrap(),
            (digit,),
        ),
    ensures
        final(generate_string_from_digit_mock)@ == if old(
            generate_string_from_digit_mock,
        )@.is_configured() {
            old(generate_string_from_digit_mock)@.record(digit)
        } else {
            old(generate_string_from_digit_mock)@
        },
        exists|generated: Result<String, String>|
            {
                &&& #[trigger] frames(generated, output)
                &&& if old(generate_string_from_digit_mock)@.is_configured() {
                    call_ensures(
                        old(generate_string_from_digit_mock)@.behavior.unwrap(),
                        (digit,),
                        generated,
                    )
                } else {
                    spells(digit, generated)
                }
            },
{
    let generated = if generate_string_from_digit_mock.is_set() {
        generate_string_from_digit_mock.call(digit)
    } else {
        generate_string_from_digit(digit)
    };
    let output = format_output(generated);
    assert(frames(generated, output));
    output
}

} // verus!
