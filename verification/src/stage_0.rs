//! Edge cases and error handling: the smallest capacity, empty values,
//! and commands sent in the wrong order.

use vstd::prelude::*;
use crate::observed::{ObservedTest, Remark};
use crate::test_case::CacheTestCase;

verus! {

/// With room for one entry, each new key drives out the one before it.
pub fn test_capacity_one() -> (case: CacheTestCase)
    ensures
        case.description == "Testing edge case: capacity = 1",
        case.commands@ == seq!["INIT 1", "PUT a 1", "GET a", "PUT b 2", "GET a", "GET b"],
        case.expected_responses@ == seq!["OK", "OK", "1", "OK", "NULL", "2"],
        case.hint == Some(
            "With capacity=1, inserting a new key should immediately evict the existing key.",
        ),
        !case.verbose,
        !case.regex_match,
        case.well_formed(),
{
    CacheTestCase::new(
        "Testing edge case: capacity = 1",
        vec!["INIT 1", "PUT a 1", "GET a", "PUT b 2", "GET a", "GET b"],
        vec!["OK", "OK", "1", "OK", "NULL", "2"],
    ).with_hint(
        "With capacity=1, inserting a new key should immediately evict the existing key.",
    )
}

/// Values that are empty or missing: whatever the program answers, it must
/// answer every command.
pub fn test_empty_values() -> (test: ObservedTest)
    ensures
        test.title == "Testing edge case: empty values",
        test.commands@ == seq!["INIT 5", "PUT key ", "GET key", "PUT empty"],
        test.remark == Remark::Nothing,
        test.success == "✓ Empty values handled without crash",
{
    ObservedTest {
        title: "Testing edge case: empty values",
        commands: vec!["INIT 5", "PUT key ", "GET key", "PUT empty"],
        remark: Remark::Nothing,
        success: "✓ Empty values handled without crash",
    }
}

/// Commands before `INIT`: the program may answer with errors or end; both
/// are taken as handling the mistake.
pub fn test_no_init() -> (test: ObservedTest)
    ensures
        test.title == "Testing error handling: operations before INIT",
        test.commands@ == seq!["PUT name Alice", "GET name"],
        test.remark == (Remark::ErrorsExpected {
            warning: "Warning: Operations before INIT should return errors, got: ",
            on_exit: "Program exited (expected behavior)",
        }),
        test.success == "✓ Error handling test completed",
{
    ObservedTest {
        title: "Testing error handling: operations before INIT",
        commands: vec!["PUT name Alice", "GET name"],
        remark: Remark::ErrorsExpected {
            warning: "Warning: Operations before INIT should return errors, got: ",
            on_exit: "Program exited (expected behavior)",
        },
        success: "✓ Error handling test completed",
    }
}

/// A second `INIT`: the program may start afresh or keep what it has; which
/// of the two it does is logged.
pub fn test_double_init() -> (test: ObservedTest)
    ensures
        test.title == "Testing error handling: double INIT",
        test.commands@ == seq!["INIT 10", "PUT a 1", "INIT 5", "GET a"],
        test.remark == (Remark::Compare {
            index: 3,
            value: "NULL",
            same: "Double INIT resets cache (NULL returned)",
            other: "Double INIT preserves state or returns error",
        }),
        test.success == "✓ Double INIT handled",
{
    ObservedTest {
        title: "Testing error handling: double INIT",
        commands: vec!["INIT 10", "PUT a 1", "INIT 5", "GET a"],
        remark: Remark::Compare {
            index: 3,
            value: "NULL",
            same: "Double INIT resets cache (NULL returned)",
            other: "Double INIT preserves state or returns error",
        },
        success: "✓ Double INIT handled",
    }
}

} // verus!
