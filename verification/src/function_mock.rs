//! The mock engine: it replays a configured behaviour, keeps every call's
//! parameters in call order, and answers questions about that history.

use vstd::prelude::*;
use vstd::std_specs::cmp::PartialEqSpec;
use vstd::string::StringExecFns;
use crate::param_utils::{
    ignores, lemma_project_length, lemma_project_skips_ignored, matches_ignoring, project,
    tuples_equal,
};
use crate::text::{decimal, to_decimal};

verus! {

/// What a mock is, as a mathematical value: the name it reports under, the
/// parameter positions it leaves out of comparisons, the behaviour it replays
/// (if any), and the parameters of every call so far.
pub struct MockState<Params, Function> {
    pub name: Seq<char>,
    pub ignored: Seq<usize>,
    pub behavior: Option<Function>,
    pub calls: Seq<Params>,
}

impl<Params, Function> MockState<Params, Function> {
    /// The state right after construction with an ignore-list.
    pub open spec fn unconfigured_ignoring(name: Seq<char>, ignored: Seq<usize>) -> Self {
        MockState { name, ignored, behavior: None, calls: Seq::empty() }
    }

    /// The state right after construction without one.
    pub open spec fn unconfigured(name: Seq<char>) -> Self {
        Self::unconfigured_ignoring(name, Seq::empty())
    }

    pub open spec fn is_configured(self) -> bool {
        self.behavior is Some
    }

    /// The state after `behavior` was stored; an earlier behaviour is gone.
    pub open spec fn configure(self, behavior: Function) -> Self {
        MockState { behavior: Some(behavior), ..self }
    }

    /// The state after a reset: no behaviour, no history, the same name and
    /// ignore-list.
    pub open spec fn clear(self) -> Self {
        MockState { behavior: None, calls: Seq::empty(), ..self }
    }

    /// The state after one call with `params`.
    pub open spec fn record(self, params: Params) -> Self {
        MockState { calls: self.calls.push(params), ..self }
    }

    /// The state after one call for each entry of `params`, in order.
    pub open spec fn record_all(self, params: Seq<Params>) -> Self {
        MockState { calls: self.calls + params, ..self }
    }

    /// Whether exactly `expected` calls are on record.
    pub open spec fn called_times(self, expected: nat) -> bool {
        self.calls.len() == expected
    }

    /// What a call on an unconfigured mock is reported with.
    pub open spec fn not_initialized_text(self) -> Seq<char> {
        self.name + " mock not initialized"@
    }

    /// What a failed count expectation is reported with.
    pub open spec fn wrong_count_text(self, expected: nat) -> Seq<char> {
        "Expected "@ + self.name + " mock to be called "@ + decimal(expected)
            + " times, received "@ + decimal(self.calls.len())
    }

    /// What a failed parameter expectation is reported with, given the
    /// rendering of the parameters that were looked for.
    pub open spec fn not_called_with_text(self, rendered: Seq<char>) -> Seq<char> {
        "Expected "@ + self.name + " mock to be called with "@ + rendered
    }
}

impl<Params: PartialEq, Function> MockState<Params, Function> {
    /// Whether some recorded call equals `params`.
    pub open spec fn called_with(self, params: Params) -> bool {
        exists|i: int| 0 <= i < self.calls.len() && (#[trigger] self.calls[i]).eq_spec(&params)
    }
}

impl<T: PartialEq, Function> MockState<Vec<T>, Function> {
    /// Whether the reduced tuple of some recorded call equals `expected`,
    /// where the calls were made with one value per parameter position and
    /// each is reduced by the mock's ignore-list.
    pub open spec fn called_with_ignoring(self, expected: Seq<T>) -> bool {
        exists|i: int|
            0 <= i < self.calls.len() && tuples_equal(
                project((#[trigger] self.calls[i])@, self.ignored),
                expected,
            )
    }
}

/// Bookkeeping for one mocked function.
///
/// `Params` is the parameter tuple of the mocked function, `Return` what it
/// returns, and `Function` the type of the behaviour that stands in for it: a
/// plain function from the tuple to the result unless another type is named.
///
/// A mock may be made with an ignore-list. Calls are recorded and handed to
/// the behaviour in full all the same; the list only says which positions the
/// `_ignoring` expectations leave out, and those are to be had where the
/// tuple is a `Vec` with one value per position.
pub struct FunctionMock<Params, Return, Function = fn(Params) -> Return> {
    name: String,
    ignore_indices: Vec<usize>,
    implementation: Option<Function>,
    calls: Vec<Params>,
    returns: core::marker::PhantomData<Return>,
}

impl<Params, Return, Function> View for FunctionMock<Params, Return, Function> {
    type V = MockState<Params, Function>;

    closed spec fn view(&self) -> MockState<Params, Function> {
        MockState {
            name: self.name@,
            ignored: self.ignore_indices@,
            behavior: self.implementation,
            calls: self.calls@,
        }
    }
}

/// Renders a value through its `Debug` impl, as `format!("{:?}", value)` does.
/// Nothing is claimed of the text: it is whatever that impl writes.
#[verifier::external_body]
fn debug_text<T: core::fmt::Debug>(value: &T) -> (text: String) {
    format!("{:?}", value)
}

impl<Params: Clone + PartialEq + core::fmt::Debug, Return, Function> FunctionMock<
    Params,
    Return,
    Function,
> {
    /// A mock for the function called `function_name`, not yet configured.
    pub fn new(function_name: &str) -> (mock: Self)
        ensures
            mock@ == MockState::<Params, Function>::unconfigured(function_name@),
    {
        Self {
            name: String::from_str(function_name),
            ignore_indices: Vec::new(),
            implementation: None,
            calls: Vec::new(),
            returns: core::marker::PhantomData,
        }
    }

    /// A mock for the function called `function_name`, not yet configured,
    /// whose `_ignoring` expectations leave out the positions in
    /// `ignore_indices`.
    pub fn with_ignored(function_name: &str, ignore_indices: Vec<usize>) -> (mock: Self)
        ensures
            mock@ == MockState::<Params, Function>::unconfigured_ignoring(
                function_name@,
                ignore_indices@,
            ),
    {
        Self {
            name: String::from_str(function_name),
            ignore_indices,
            implementation: None,
            calls: Vec::new(),
            returns: core::marker::PhantomData,
        }
    }

    /// The positions that the `_ignoring` expectations leave out.
    pub fn ignore_indices(&self) -> (ignore_indices: &Vec<usize>)
        ensures
            ignore_indices@ == self@.ignored,
    {
        &self.ignore_indices
    }

    /// Stores `new_f` as the behaviour, in place of any earlier one.
    pub fn mock_implementation(&mut self, new_f: Function)
        ensures
            final(self)@ == old(self)@.configure(new_f),
    {
        self.implementation = Some(new_f);
    }

    /// Forgets the behaviour and the call history.
    pub fn clear_mock(&mut self)
        ensures
            final(self)@ == old(self)@.clear(),
    {
        self.implementation = None;
        self.calls = Vec::new();
    }

    /// The name given at construction.
    pub fn name(&self) -> (name: &str)
        ensures
            name@ == self@.name,
    {
        self.name.as_str()
    }

    /// Whether a behaviour is stored.
    pub fn is_set(&self) -> (set: bool)
        ensures
            set == self@.is_configured(),
    {
        self.implementation.is_some()
    }

    /// The parameters of every call so far, oldest first.
    pub fn calls(&self) -> (calls: &Vec<Params>)
        ensures
            calls@ == self@.calls,
    {
        &self.calls
    }

    /// Runs the behaviour on `params`, after putting `params` on record, or
    /// reports that there is no behaviour to run.
    ///
    /// Whether a behaviour is stored is looked at first: without one nothing
    /// is recorded. With one, the record is made before the behaviour runs, so
    /// it shows the attempt whatever the behaviour then does. The behaviour is
    /// handed a clone and the record keeps the value that was passed in.
    pub fn try_call(&mut self, params: Params) -> (outcome: Result<Return, String>) where
        Function: Fn(Params) -> Return,

        requires
            old(self)@.is_configured() ==> forall|argument: Params|
                cloned(params, argument) ==> call_requires(
                    old(self)@.behavior.unwrap(),
                    (argument,),
                ),
        ensures
            match outcome {
                Ok(result) => {
                    &&& old(self)@.is_configured()
                    &&& final(self)@ == old(self)@.record(params)
                    &&& exists|argument: Params|
                        cloned(params, argument) && call_ensures(
                            old(self)@.behavior.unwrap(),
                            (argument,),
                            result,
                        )
                },
                Err(message) => {
                    &&& !old(self)@.is_configured()
                    &&& final(self)@ == old(self)@
                    &&& message@ == old(self)@.not_initialized_text()
                },
            },
    {
        match self.implementation.as_ref() {
            None => Err(self.not_initialized_message()),
            Some(implementation) => {
                let argument = params.clone();
                assert(cloned(params, argument));
                assert(call_requires(*implementation, (argument,)));
                self.calls.push(params);
                let result = implementation(argument);
                assert(call_ensures(*implementation, (argument,), result));
                Ok(result)
            },
        }
    }

    /// Runs the behaviour on `params`, after putting `params` on record.
    ///
    /// A mock without a behaviour is a failed expectation: verified callers
    /// have to rule it out, and for everyone else it ends the test with
    /// [`not_initialized_message`](Self::not_initialized_message).
    pub fn call(&mut self, params: Params) -> (result: Return) where
        Function: Fn(Params) -> Return,

        requires
            old(self)@.is_configured(),
            forall|argument: Params|
                cloned(params, argument) ==> call_requires(
                    old(self)@.behavior.unwrap(),
                    (argument,),
                ),
        ensures
            final(self)@ == old(self)@.record(params),
            exists|argument: Params|
                cloned(params, argument) && call_ensures(
                    old(self)@.behavior.unwrap(),
                    (argument,),
                    result,
                ),
    {
        match self.try_call(params) {
            Ok(result) => result,
            Err(message) => {
                let missing: Option<Return> = None;
                missing.expect(message.as_str())
            },
        }
    }

    /// How many calls are on record.
    pub fn times_called(&self) -> (count: usize)
        ensures
            count == self@.calls.len(),
    {
        self.calls.len()
    }

    /// Whether some recorded call equals `params`. One match is enough; how
    /// often it occurs is not looked at.
    pub fn was_called_with(&self, params: &Params) -> (found: bool)
        ensures
            Params::obeys_eq_spec() ==> found == self@.called_with(*params),
    {
        let mut found = false;
        let mut i: usize = 0;
        while i < self.calls.len()
            invariant
                i <= self.calls.len(),
                Params::obeys_eq_spec() ==> found == exists|k: int|
                    0 <= k < i && (#[trigger] self@.calls[k]).eq_spec(params),
            decreases self.calls.len() - i,
        {
            let same = self.calls[i] == *params;
            assert(Params::obeys_eq_spec() ==> same == self@.calls[i as int].eq_spec(params));
            if same {
                found = true;
            }
            i += 1;
        }
        found
    }

    /// The report for a call that found no behaviour.
    pub fn not_initialized_message(&self) -> (message: String)
        ensures
            message@ == self@.not_initialized_text(),
    {
        let mut message = self.name.clone();
        message.append(" mock not initialized");
        message
    }

    /// The report for a count expectation that the history does not meet:
    /// it names the mock, then the expected count, then the count on record.
    pub fn wrong_count_message(&self, expected_num_of_calls: u32) -> (message: String)
        ensures
            message@ == self@.wrong_count_text(expected_num_of_calls as nat),
    {
        let expected = to_decimal(expected_num_of_calls as u64);
        let received = to_decimal(self.calls.len() as u64);
        let mut message = String::from_str("Expected ");
        message.append(self.name.as_str());
        message.append(" mock to be called ");
        message.append(expected.as_str());
        message.append(" times, received ");
        message.append(received.as_str());
        message
    }

    /// The report for a parameter expectation that no recorded call meets:
    /// it names the mock, then shows the parameters as `rendered` has them.
    pub fn not_called_with_message(&self, rendered: &str) -> (message: String)
        ensures
            message@ == self@.not_called_with_text(rendered@),
    {
        let mut message = String::from_str("Expected ");
        message.append(self.name.as_str());
        message.append(" mock to be called with ");
        message.append(rendered);
        message
    }

    /// Holds the history against a count: `Ok` when exactly
    /// `expected_num_of_calls` calls are on record, otherwise the report of
    /// [`wrong_count_message`](Self::wrong_count_message).
    pub fn check_times(&self, expected_num_of_calls: u32) -> (outcome: Result<(), String>)
        ensures
            match outcome {
                Ok(_) => self@.called_times(expected_num_of_calls as nat),
                Err(message) => {
                    &&& !self@.called_times(expected_num_of_calls as nat)
                    &&& message@ == self@.wrong_count_text(expected_num_of_calls as nat)
                },
            },
    {
        if self.calls.len() == expected_num_of_calls as usize {
            Ok(())
        } else {
            Err(self.wrong_count_message(expected_num_of_calls))
        }
    }

    /// Holds the history against a parameter tuple: `Ok` when some recorded
    /// call equals `params`, otherwise the report of
    /// [`not_called_with_message`](Self::not_called_with_message), with
    /// `params` shown as its `Debug` impl writes it.
    pub fn check_with(&self, params: &Params) -> (outcome: Result<(), String>)
        ensures
            Params::obeys_eq_spec() ==> (outcome is Ok <==> self@.called_with(*params)),
            outcome matches Err(message) ==> exists|rendered: Seq<char>|
                message@ == #[trigger] self@.not_called_with_text(rendered),
    {
        if self.was_called_with(params) {
            Ok(())
        } else {
            let rendered = debug_text(params);
            Err(self.not_called_with_message(rendered.as_str()))
        }
    }

    /// Passes when exactly `expected_num_of_calls` calls are on record.
    ///
    /// Any other count is a failed expectation: verified callers have to rule
    /// it out, and for everyone else it ends the test with
    /// [`wrong_count_message`](Self::wrong_count_message).
    pub fn assert_times(&self, expected_num_of_calls: u32)
        requires
            self@.called_times(expected_num_of_calls as nat),
    {
        match self.check_times(expected_num_of_calls) {
            Ok(_) => {},
            Err(message) => {
                let unmet: Option<()> = None;
                unmet.expect(message.as_str())
            },
        }
    }

    /// Passes when some recorded call equals `params`.
    ///
    /// A history without such a call is a failed expectation: verified callers
    /// have to rule it out, and for everyone else it ends the test with
    /// [`not_called_with_message`](Self::not_called_with_message).
    pub fn assert_with(&self, params: Params)
        requires
            Params::obeys_eq_spec(),
            self@.called_with(params),
    {
        match self.check_with(&params) {
            Ok(_) => {},
            Err(message) => {
                let unmet: Option<()> = None;
                unmet.expect(message.as_str())
            },
        }
    }
}

impl<T: Clone + PartialEq + core::fmt::Debug, Return, Function> FunctionMock<
    Vec<T>,
    Return,
    Function,
> {
    /// Whether some recorded call, reduced by the mock's ignore-list, equals
    /// `params`. Every recorded call is reduced by the same list; `params` is
    /// the reduced tuple that is looked for.
    pub fn was_called_with_ignoring(&self, params: &Vec<T>) -> (found: bool)
        ensures
            T::obeys_eq_spec() ==> found == self@.called_with_ignoring(params@),
    {
        let mut found = false;
        let mut i: usize = 0;
        while i < self.calls.len()
            invariant
                i <= self.calls.len(),
                T::obeys_eq_spec() ==> found == exists|k: int|
                    0 <= k < i && tuples_equal(
                        project((#[trigger] self@.calls[k])@, self@.ignored),
                        params@,
                    ),
            decreases self.calls.len() - i,
        {
            let same = matches_ignoring(&self.calls[i], params, &self.ignore_indices);
            assert(T::obeys_eq_spec() ==> same == tuples_equal(
                project(self@.calls[i as int]@, self@.ignored),
                params@,
            ));
            if same {
                found = true;
            }
            i += 1;
        }
        found
    }

    /// Holds the history against a reduced tuple: `Ok` when some recorded
    /// call, reduced by the mock's ignore-list, equals `params`, otherwise the
    /// report of [`not_called_with_message`](Self::not_called_with_message),
    /// with `params` shown as its `Debug` impl writes it.
    pub fn check_with_ignoring(&self, params: &Vec<T>) -> (outcome: Result<(), String>)
        ensures
            T::obeys_eq_spec() ==> (outcome is Ok <==> self@.called_with_ignoring(params@)),
            outcome matches Err(message) ==> exists|rendered: Seq<char>|
                message@ == #[trigger] self@.not_called_with_text(rendered),
    {
        if self.was_called_with_ignoring(params) {
            Ok(())
        } else {
            let rendered = debug_text(params);
            Err(self.not_called_with_message(rendered.as_str()))
        }
    }

    /// Passes when some recorded call, reduced by the mock's ignore-list,
    /// equals `params`.
    ///
    /// A history without such a call is a failed expectation: verified callers
    /// have to rule it out, and for everyone else it ends the test with
    /// [`not_called_with_message`](Self::not_called_with_message).
    pub fn assert_with_ignoring(&self, params: Vec<T>)
        requires
            T::obeys_eq_spec(),
            self@.called_with_ignoring(params@),
    {
        match self.check_with_ignoring(&params) {
            Ok(_) => {},
            Err(message) => {
                let unmet: Option<()> = None;
                unmet.expect(message.as_str())
            },
        }
    }
}

/// A mock that was just made holds no behaviour and no history, and clearing
/// any mock leads back to exactly that state under the same name and
/// ignore-list. The report for a call in that state begins with the mock's
/// name and ends with its role.
pub proof fn lemma_new_or_cleared_mock_is_unconfigured<Params, Function>(
    name: Seq<char>,
    state: MockState<Params, Function>,
)
    ensures
        !MockState::<Params, Function>::unconfigured(name).is_configured(),
        MockState::<Params, Function>::unconfigured(name).called_times(0),
        state.clear() == MockState::<Params, Function>::unconfigured_ignoring(
            state.name,
            state.ignored,
        ),
        !state.clear().is_configured(),
        state.clear().called_times(0),
        state.not_initialized_text().subrange(0, state.name.len() as int) == state.name,
        state.not_initialized_text().subrange(
            state.name.len() as int,
            state.not_initialized_text().len() as int,
        ) == " mock not initialized"@,
{
    let text = state.not_initialized_text();
    assert(text.subrange(0, state.name.len() as int) =~= state.name);
    assert(text.subrange(state.name.len() as int, text.len() as int)
        =~= " mock not initialized"@);
}

/// Configuring, clearing and configuring again leaves only the second
/// behaviour: the state is the one reached without the first configuration.
pub proof fn lemma_clear_forgets_behavior<Params, Function>(
    state: MockState<Params, Function>,
    first: Function,
    second: Function,
)
    ensures
        state.configure(first).clear().configure(second) == state.clear().configure(second),
        state.configure(first).clear().configure(second).behavior == Some(second),
        state.configure(first).configure(second) == state.configure(second),
{
}

/// Recording a whole sequence of calls is recording them one by one.
pub proof fn lemma_record_all_is_repeated_record<Params, Function>(
    state: MockState<Params, Function>,
    params: Seq<Params>,
    last: Params,
)
    ensures
        state.record_all(Seq::empty()) == state,
        state.record_all(params.push(last)) == state.record_all(params).record(last),
{
    assert(state.calls + Seq::<Params>::empty() =~= state.calls);
    assert(state.calls + params.push(last) =~= (state.calls + params).push(last));
}

/// After any sequence of calls on a mock whose history was empty, the count
/// expectation holds for the number of calls made and for no other number.
pub proof fn lemma_count_is_number_of_calls<Params, Function>(
    state: MockState<Params, Function>,
    params: Seq<Params>,
    expected: nat,
)
    requires
        state.called_times(0),
    ensures
        state.record_all(params).called_times(expected) <==> expected == params.len(),
{
}

/// After any sequence of calls, each of the parameter tuples that was passed
/// is found in the history, provided it equals itself.
pub proof fn lemma_every_call_is_found<Params: PartialEq, Function>(
    state: MockState<Params, Function>,
    params: Seq<Params>,
    k: int,
)
    requires
        0 <= k < params.len(),
        params[k].eq_spec(&params[k]),
    ensures
        state.record_all(params).called_with(params[k]),
{
    let after = state.record_all(params);
    assert(after.calls[state.calls.len() + k] == params[k]);
}

/// After any sequence of calls on a mock whose history was empty, a tuple is
/// found in the history exactly if it equals one of those that were passed.
pub proof fn lemma_only_calls_are_found<Params: PartialEq, Function>(
    state: MockState<Params, Function>,
    params: Seq<Params>,
    other: Params,
)
    requires
        state.called_times(0),
    ensures
        state.record_all(params).called_with(other) <==> exists|k: int|
            0 <= k < params.len() && (#[trigger] params[k]).eq_spec(&other),
{
    assert(state.record_all(params).calls =~= params);
}

/// Two calls that differ only at ignored positions are both on record, so the
/// count goes up by two; and whatever reduced tuple one of them matches, the
/// other matches too. Their own reduced tuple is such a match when its entries
/// equal themselves.
pub proof fn lemma_ignored_positions_do_not_matter<T: PartialEq, Function>(
    state: MockState<Vec<T>, Function>,
    first: Vec<T>,
    second: Vec<T>,
    expected: Seq<T>,
)
    requires
        first@.len() == second@.len(),
        forall|position: int|
            0 <= position < first@.len() && !ignores(state.ignored, position) ==> first@[position]
                == second@[position],
    ensures
        state.record(first).record(second).calls.len() == state.calls.len() + 2,
        project(first@, state.ignored) == project(second@, state.ignored),
        tuples_equal(project(first@, state.ignored), expected) <==> tuples_equal(
            project(second@, state.ignored),
            expected,
        ),
        tuples_equal(project(first@, state.ignored), expected) ==> state.record(
            first,
        ).called_with_ignoring(expected) && state.record(second).called_with_ignoring(expected),
        tuples_equal(project(first@, state.ignored), project(first@, state.ignored))
            ==> state.record(first).record(second).called_with_ignoring(
            project(first@, state.ignored),
        ),
{
    lemma_project_skips_ignored(first@, second@, state.ignored);
    let one = state.record(first);
    let other = state.record(second);
    let both = state.record(first).record(second);
    assert(one.calls[state.calls.len() as int] == first);
    assert(other.calls[state.calls.len() as int] == second);
    assert(both.calls[state.calls.len() as int] == first);
}

/// With an empty ignore-list the reduced tuple is the whole tuple: the
/// `_ignoring` expectations then compare every position.
pub proof fn lemma_nothing_ignored_compares_everything<T: PartialEq, Function>(
    state: MockState<Vec<T>, Function>,
    expected: Seq<T>,
)
    requires
        state.ignored.len() == 0,
    ensures
        state.called_with_ignoring(expected) <==> exists|i: int|
            0 <= i < state.calls.len() && tuples_equal((#[trigger] state.calls[i])@, expected),
{
    assert forall|i: int| 0 <= i < state.calls.len() implies project(
        (#[trigger] state.calls[i])@,
        state.ignored,
    ) == state.calls[i]@ by {
        lemma_project_length(state.calls[i]@, state.ignored);
    }
}

} // verus!
