//! A conformance-test harness for line-oriented cache servers: it builds the
//! input for one batch run, reads the captured output back as lines, compares
//! them with what was expected and reports where they diverge.
//!
//! The library decides and never runs anything. A driver writes the input
//! to the program, closes it, waits for the program to end and hands back
//! what it left behind as an [`helpers::Execution`]; the library says what
//! is to be logged and whether the test passed. There is no timeout at this
//! level: a program that hangs hangs its test.
//!
//! - [`text`]: decimal numerals, joining and splitting lines.
//! - [`error`], [`logger`]: the failures and the log, as plain records.
//! - [`helpers`]: the input for a run and the responses read back from it.
//! - [`pattern`]: what the harness asks of regular expressions.
//! - [`assertions`]: the checks of responses, by equality or by pattern.
//! - [`test_case`]: test cases, their builder, and batches of them.
//! - [`scripted`], [`observed`], [`repeated`]: other shapes of test.
//! - `stage_0` to `stage_7`: the tests themselves.
//! - [`laws`]: what holds of all this for every input.

pub mod assertions;
pub mod error;
pub mod helpers;
pub mod laws;
pub mod logger;
pub mod observed;
pub mod pattern;
pub mod repeated;
pub mod scripted;
pub mod stage_0;
pub mod stage_0_multi_examples;
pub mod stage_1;
pub mod stage_2;
pub mod stage_3;
pub mod stage_4;
pub mod stage_5;
pub mod stage_6;
pub mod stage_7;
pub mod test_case;
pub mod text;
