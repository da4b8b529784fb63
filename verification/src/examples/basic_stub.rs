//! A function with a stub in front of it.

use vstd::prelude::*;
use vstd::string::StringExecFns;
use crate::function_stub::FunctionStub;

verus! {

/// What `get_config` yields when no stub is configured.
pub open spec fn production_config() -> Seq<char> {
    "production_config"@
}

/// The configuration: the stub's canned value where one is stored, the
/// production value otherwise.
pub fn get_config(get_config_stub: &FunctionStub<String>) -> (config: String)
    ensures
        config@ == if get_config_stub@.is_configured() {
            get_config_stub@.return_value.unwrap()@
        } else {
            production_config()
        },
{
    if get_config_stub.is_set() {
        return get_config_stub.get_return_value();
    }
    String::from_str("production_config")
}

/// Reads the configuration through `get_config`.
pub fn process_config(get_config_stub: &FunctionStub<String>) -> (config: String)
    ensures
        config@ == if get_config_stub@.is_configured() {
            get_config_stub@.return_value.unwrap()@
        } else {
            production_config()
        },
{
    get_config(get_config_stub)
}

} // verus!
