//! Runtime engines behind test doubles for free functions: mocks that record
//! their calls, stubs that hand out one canned value, and fakes that only
//! replace behaviour; and what has to be decided about a function before a
//! double is written for it.

pub mod examples;
pub mod function_fake;
pub mod function_mock;
pub mod function_stub;
pub mod param_utils;
pub mod signature;
pub mod text;
pub mod use_tree_processor;
