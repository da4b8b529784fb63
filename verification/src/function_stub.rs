//! The stub engine: one canned value, handed out on every request. It keeps no
//! record of how often it was asked.

use vstd::prelude::*;
use vstd::string::StringExecFns;

verus! {

/// What a stub is, as a mathematical value: the name it reports under and the
/// value it hands out (if any).
pub struct StubState<ReturnType> {
    pub name: Seq<char>,
    pub return_value: Option<ReturnType>,
}

impl<ReturnType> StubState<ReturnType> {
    /// The state right after construction.
    pub open spec fn unconfigured(name: Seq<char>) -> Self {
        StubState { name, return_value: None }
    }

    pub open spec fn is_configured(self) -> bool {
        self.return_value is Some
    }

    /// The state after `value` was stored; an earlier value is gone.
    pub open spec fn configure(self, value: ReturnType) -> Self {
        StubState { return_value: Some(value), ..self }
    }

    /// The state after a reset: no value, the same name.
    pub open spec fn clear(self) -> Self {
        StubState { return_value: None, ..self }
    }

    /// What a request to an unconfigured stub is reported with.
    pub open spec fn not_initialized_text(self) -> Seq<char> {
        self.name + " stub not initialized"@
    }
}

/// Bookkeeping for one stubbed function, whose return type is `ReturnType`.
pub struct FunctionStub<ReturnType> {
    name: String,
    return_value: Option<ReturnType>,
}

impl<ReturnType> View for FunctionStub<ReturnType> {
    type V = StubState<ReturnType>;

    closed spec fn view(&self) -> StubState<ReturnType> {
        StubState { name: self.name@, return_value: self.return_value }
    }
}

impl<ReturnType: Clone> FunctionStub<ReturnType> {
    /// A stub for the function called `function_name`, not yet configured.
    pub fn new(function_name: &str) -> (stub: Self)
        ensures
            stub@ == StubState::<ReturnType>::unconfigured(function_name@),
    {
        Self { name: String::from_str(function_name), return_value: None }
    }

    /// Stores `new_r` as the canned value, in place of any earlier one.
    pub fn setup(&mut self, new_r: ReturnType)
        ensures
            final(self)@ == old(self)@.configure(new_r),
    {
        self.return_value = Some(new_r);
    }

    /// Forgets the canned value.
    pub fn clear(&mut self)
        ensures
            final(self)@ == old(self)@.clear(),
    {
        self.return_value = None;
    }

    /// Whether a canned value is stored. Call sites use this to choose
    /// between the stub and the real implementation.
    pub fn is_set(&self) -> (set: bool)
        ensures
            set == self@.is_configured(),
    {
        self.return_value.is_some()
    }

    /// The name given at construction.
    pub fn name(&self) -> (name: &str)
        ensures
            name@ == self@.name,
    {
        self.name.as_str()
    }

    /// The report for a request that found no canned value.
    pub fn not_initialized_message(&self) -> (message: String)
        ensures
            message@ == self@.not_initialized_text(),
    {
        let mut message = self.name.clone();
        message.append(" stub not initialized");
        message
    }

    /// A clone of the canned value, or the report that there is none. The
    /// stub is left as it was, so every request until the next `setup` or
    /// `clear` yields a clone of the same stored value.
    pub fn try_get_return_value(&self) -> (outcome: Result<ReturnType, String>)
        ensures
            match outcome {
                Ok(value) => self@.is_configured() && cloned(self@.return_value.unwrap(), value),
                Err(message) => !self@.is_configured() && message@ == self@.not_initialized_text(),
            },
    {
        match self.return_value.as_ref() {
            Some(stored) => Ok(stored.clone()),
            None => Err(self.not_initialized_message()),
        }
    }

    /// A clone of the canned value. The stub is left as it was, so every
    /// request until the next `setup` or `clear` yields a clone of the same
    /// stored value.
    ///
    /// An unconfigured stub is a failed expectation: verified callers have to
    /// rule it out, and for everyone else it ends the test with
    /// [`not_initialized_message`](Self::not_initialized_message).
    pub fn get_return_value(&self) -> (value: ReturnType)
        requires
            self@.is_configured(),
        ensures
            cloned(self@.return_value.unwrap(), value),
    {
        match self.try_get_return_value() {
            Ok(value) => value,
            Err(message) => {
                let missing: Option<ReturnType> = None;
                missing.expect(message.as_str())
            },
        }
    }
}

/// A stub that was just made holds no value, and clearing any stub leads back
/// to exactly that state under the same name. The report for a request in that
/// state begins with the stub's name and ends with its role.
pub proof fn lemma_new_or_cleared_stub_is_unconfigured<ReturnType>(
    name: Seq<char>,
    state: StubState<ReturnType>,
)
    ensures
        !StubState::<ReturnType>::unconfigured(name).is_configured(),
        state.clear() == StubState::<ReturnType>::unconfigured(state.name),
        state.not_initialized_text().subrange(0, state.name.len() as int) == state.name,
        state.not_initialized_text().subrange(
            state.name.len() as int,
            state.not_initialized_text().len() as int,
        ) == " stub not initialized"@,
{
    let text = state.not_initialized_text();
    assert(text.subrange(0, state.name.len() as int) =~= state.name);
    assert(text.subrange(state.name.len() as int, text.len() as int)
        =~= " stub not initialized"@);
}

/// Configuring, clearing and configuring again leaves only the second value:
/// the state is the one reached without the first configuration.
pub proof fn lemma_clear_forgets_value<ReturnType>(
    state: StubState<ReturnType>,
    first: ReturnType,
    second: ReturnType,
)
    ensures
        state.configure(first).clear().configure(second) == state.clear().configure(second),
        state.configure(first).clear().configure(second).return_value == Some(second),
        state.configure(first).configure(second) == state.configure(second),
{
}

/// Once a value is stored it stays stored until the next `setup` or `clear`:
/// a request reads the stub and leaves it as it was, so any number of requests
/// in a row are answered from the same stored value.
pub proof fn lemma_configured_stub_holds_value<ReturnType>(
    state: StubState<ReturnType>,
    value: ReturnType,
)
    ensures
        state.configure(value).is_configured(),
        state.configure(value).return_value == Some(value),
        state.configure(value).name == state.name,
{
}

} // verus!
