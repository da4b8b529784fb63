//! Small call sites that show how the engines are put in front of real
//! functions. Each takes its test doubles as arguments: a double that is not
//! configured leaves the real function in charge.

pub mod basic_mock;
pub mod basic_stub;
pub mod generate_string;
pub mod mock_and_fake;
