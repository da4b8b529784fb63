//! A caller of two functions, one behind a fake and one behind a mock.

use vstd::prelude::*;
use vstd::string::StringExecFns;
use crate::function_fake::{FakeState, FunctionFake};
use crate::function_mock::{FunctionMock, MockState};
use crate::text::{decimal, to_decimal};

verus! {

/// The name under which the user with number `id` is found.
pub open spec fn user_name(id: u32) -> Seq<char> {
    "user_"@ + decimal(id as nat)
}

/// The name under which the notes of user `id` are found.
pub open spec fn notes_name(id: u32) -> Seq<char> {
    "notes_"@ + decimal(id as nat)
}

/// Looks a user up. This is the real function: it always succeeds.
pub fn fetch_user(id: u32) -> (user: Result<String, String>)
    ensures
        user matches Ok(name) && name@ == user_name(id),
{
    let mut name = String::from_str("user_");
    let number = to_decimal(id as u64);
    name.append(number.as_str());
    Ok(name)
}

/// Looks a user's notes up. This is the real function: it always succeeds.
pub fn fetch_notes(id: u32) -> (notes: Result<String, String>)
    ensures
        notes matches Ok(name) && name@ == notes_name(id),
{
    let mut name = String::from_str("notes_");
    let number = to_decimal(id as u64);
    name.append(number.as_str());
    Ok(name)
}

/// Whether `user` can be the answer to the user lookup: an answer of the
/// fake's behaviour where one is configured, the real answer otherwise.
pub open spec fn user_answer<Fake: Fn(u32) -> Result<String, String>>(
    fake: FakeState<Fake>,
    id: u32,
    user: Result<String, String>,
) -> bool {
    if fake.is_configured() {
        call_ensures(fake.behavior.unwrap(), (id,), user)
    } else {
        user matches Ok(name) && name@ == user_name(id)
    }
}

/// Whether `notes` can be the answer to the notes lookup: an answer of the
/// mock's behaviour where one is configured, the real answer otherwise.
pub open spec fn notes_answer<Mock: Fn(u32) -> Result<String, String>>(
    mock: MockState<u32, Mock>,
    id: u32,
    notes: Result<String, String>,
) -> bool {
    if mock.is_configured() {
        call_ensures(mock.behavior.unwrap(), (id,), notes)
    } else {
        notes matches Ok(name) && name@ == notes_name(id)
    }
}

/// What `handle_user` returns once both answers are in: the first error, or
/// success.
pub open spec fn verdict(user: Result<String, String>, notes: Result<String, String>) -> Result<
    (),
    String,
> {
    match user {
        Err(error) => Err(error),
        Ok(_) => match notes {
            Err(error) => Err(error),
            Ok(_) => Ok(()),
        },
    }
}

/// Looks up a user and then the user's notes.
///
/// An error of the user lookup is returned as it is, and the notes are then
/// never asked for: the mock's history stays as it was. Otherwise the notes
/// lookup runs, through the mock where it is configured, and its error, if
/// any, is returned as it is.
pub fn handle_user<
    Fake: Copy + Fn(u32) -> Result<String, String>,
    Mock: Fn(u32) -> Result<String, String>,
>(
    id: u32,
    fetch_user_fake: &FunctionFake<Fake>,
    fetch_notes_mock: &mut FunctionMock<u32, Result<String, String>, Mock>,
) -> (result: Result<(), String>)
    requires
        fetch_user_fake@.is_configured() ==> call_requires(
            fetch_user_fake@.behavior.unwrap(),
            (id,),
        ),
        old(fetch_notes_mock)@.is_configured() ==> call_requires(
            old(fetch_notes_mock)@.behavior.unwrap(),
            (id,),
        ),
    ensures
        exists|user: Result<String, String>, notes: Result<String, String>|
            {
                &&& #[trigger] verdict(user, notes) == result
                &&& user_answer(fetch_user_fake@, id, user)
                &&& user is Ok ==> notes_answer(old(fetch_notes_mock)@, id, notes)
                &&& final(fetch_notes_mock)@ == if user is Ok && old(
                    fetch_notes_mock,
                )@.is_configured() {
                    old(fetch_notes_mock)@.record(id)
                } else {
                    old(fetch_notes_mock)@
                }
            },
{
    let user = if fetch_user_fake.is_set() {
        let implementation = fetch_user_fake.get_implementation();
        implementation(id)
    } else {
        fetch_user(id)
    };
    if let Err(error) = user {
        assert(verdict(user, user) == Err::<(), String>(error));
        return Err(error);
    }
    let notes = if fetch_notes_mock.is_set() {
        fetch_notes_mock.call(id)
    } else {
        fetch_notes(id)
    };
    match notes {
        Err(error) => {
            assert(verdict(user, notes) == Err::<(), String>(error));
            Err(error)
        },
        Ok(_) => {
            assert(verdict(user, notes) == Ok::<(), String>(()));
            Ok(())
        },
    }
}

} // verus!
