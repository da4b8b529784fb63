//! The fake engine: it holds a replacement behaviour and hands it back to the
//! call site, which runs it. Nothing about the calls is recorded.

use vstd::prelude::*;
use vstd::string::StringExecFns;

verus! {

/// What a fake is, as a mathematical value: the name it reports under and the
/// behaviour it holds (if any).
pub struct FakeState<Function> {
    pub name: Seq<char>,
    pub behavior: Option<Function>,
}

impl<Function> FakeState<Function> {
    /// The state right after construction.
    pub open spec fn unconfigured(name: Seq<char>) -> Self {
        FakeState { name, behavior: None }
    }

    pub open spec fn is_configured(self) -> bool {
        self.behavior is Some
    }

    /// The state after `behavior` was stored; an earlier behaviour is gone.
    pub open spec fn configure(self, behavior: Function) -> Self {
        FakeState { behavior: Some(behavior), ..self }
    }

    /// The state after a reset: no behaviour, the same name.
    pub open spec fn clear(self) -> Self {
        FakeState { behavior: None, ..self }
    }

    /// What a request to an unconfigured fake is reported with.
    pub open spec fn not_initialized_text(self) -> Seq<char> {
        self.name + " fake not initialized"@
    }
}

/// Bookkeeping for one faked function. `Function` is the type of the
/// behaviour; it is copied out on request, so it can be run any number of
/// times.
pub struct FunctionFake<Function> {
    name: String,
    implementation: Option<Function>,
}

impl<Function> View for FunctionFake<Function> {
    type V = FakeState<Function>;

    closed spec fn view(&self) -> FakeState<Function> {
        FakeState { name: self.name@, behavior: self.implementation }
    }
}

impl<Function: Copy> FunctionFake<Function> {
    /// A fake for the function called `function_name`, not yet configured.
    pub fn new(function_name: &str) -> (fake: Self)
        ensures
            fake@ == FakeState::<Function>::unconfigured(function_name@),
    {
        Self { name: String::from_str(function_name), implementation: None }
    }

    /// Stores `new_f` as the behaviour, in place of any earlier one.
    pub fn setup(&mut self, new_f: Function)
        ensures
            final(self)@ == old(self)@.configure(new_f),
    {
        self.implementation = Some(new_f);
    }

    /// Forgets the behaviour.
    pub fn clear(&mut self)
        ensures
            final(self)@ == old(self)@.clear(),
    {
        self.implementation = None;
    }

    /// Whether a behaviour is stored. Call sites use this where the fake is an
    /// optional layer in front of the real implementation.
    pub fn is_set(&self) -> (set: bool)
        ensures
            set == self@.is_configured(),
    {
        self.implementation.is_some()
    }

    /// The name given at construction.
    pub fn name(&self) -> (name: &str)
        ensures
            name@ == self@.name,
    {
        self.name.as_str()
    }

    /// The report for a request that found no behaviour.
    pub fn not_initialized_message(&self) -> (message: String)
        ensures
            message@ == self@.not_initialized_text(),
    {
        let mut message = self.name.clone();
        message.append(" fake not initialized");
        message
    }

    /// The stored behaviour itself, not a result of it, or the report that
    /// there is none.
    pub fn try_get_implementation(&self) -> (outcome: Result<Function, String>)
        ensures
            match outcome {
                Ok(implementation) => self@.behavior == Some(implementation),
                Err(message) => !self@.is_configured() && message@ == self@.not_initialized_text(),
            },
    {
        match self.implementation {
            Some(implementation) => Ok(implementation),
            None => Err(self.not_initialized_message()),
        }
    }

    /// The stored behaviour itself, not a result of it: the call site supplies
    /// the parameters and runs it.
    ///
    /// An unconfigured fake is a failed expectation: verified callers have to
    /// rule it out, and for everyone else it ends the test with
    /// [`not_initialized_message`](Self::not_initialized_message).
    pub fn get_implementation(&self) -> (implementation: Function)
        requires
            self@.is_configured(),
        ensures
            implementation == self@.behavior.unwrap(),
    {
        match self.try_get_implementation() {
            Ok(implementation) => implementation,
            Err(message) => {
                let missing: Option<Function> = None;
                missing.expect(message.as_str())
            },
        }
    }
}

/// A fake that was just made holds no behaviour, and clearing any fake leads
/// back to exactly that state under the same name. The report for a request in
/// that state begins with the fake's name and ends with its role.
pub proof fn lemma_new_or_cleared_fake_is_unconfigured<Function>(
    name: Seq<char>,
    state: FakeState<Function>,
)
    ensures
        !FakeState::<Function>::unconfigured(name).is_configured(),
        state.clear() == FakeState::<Function>::unconfigured(state.name),
        state.not_initialized_text().subrange(0, state.name.len() as int) == state.name,
        state.not_initialized_text().subrange(
            state.name.len() as int,
            state.not_initialized_text().len() as int,
        ) == " fake not initialized"@,
{
    let text = state.not_initialized_text();
    assert(text.subrange(0, state.name.len() as int) =~= state.name);
    assert(text.subrange(state.name.len() as int, text.len() as int)
        =~= " fake not initialized"@);
}

/// Configuring, clearing and configuring again leaves only the second
/// behaviour: the state is the one reached without the first configuration.
pub proof fn lemma_clear_forgets_fake_behavior<Function>(
    state: FakeState<Function>,
    first: Function,
    second: Function,
)
    ensures
        state.configure(first).clear().configure(second) == state.clear().configure(second),
        state.configure(first).clear().configure(second).behavior == Some(second),
        state.configure(first).configure(second) == state.configure(second),
{
}

} // verus!
