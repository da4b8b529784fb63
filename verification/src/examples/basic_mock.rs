//! A function with a mock in front of it, and a caller of that function.

use vstd::prelude::*;
use vstd::string::StringExecFns;
use crate::function_mock::FunctionMock;
use crate::text::{decimal, to_decimal};

verus! {

/// The name under which the user with number `id` is found.
pub open spec fn user_name(id: u32) -> Seq<char> {
    "user_"@ + decimal(id as nat)
}

/// Looks a user up. This is the real function: it always succeeds.
pub fn fetch_user(id: u32) -> (user: Result<String, String>)
    ensures
        user matches Ok(name) && name@ == user_name(id),
{
    let mut name = String::from_str("user_");
    let number = to_decimal(id as u64);
    name.append(number.as_str());
    Ok(name)
}

/// Looks the user up and drops the answer. With a configured mock the lookup
/// goes to the mock, which records it; otherwise the real function is asked
/// and the mock is left alone.
pub fn handle_user<Function: Fn(u32) -> Result<String, String>>(
    id: u32,
    fetch_user_mock: &mut FunctionMock<u32, Result<String, String>, Function>,
)
    requires
        old(fetch_user_mock)@.is_configured() ==> call_requires(
            old(fetch_user_mock)@.behavior.unwrap(),
            (id,),
        ),
    ensures
        final(fetch_user_mock)@ == if old(fetch_user_mock)@.is_configured() {
            old(fetch_user_mock)@.record(id)
        } else {
            old(fetch_user_mock)@
        },
{
    let _user = if fetch_user_mock.is_set() {
        fetch_user_mock.call(id)
    } else {
        fetch_user(id)
    };
}

} // verus!
