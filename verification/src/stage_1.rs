//! Basic cache operations: `INIT`, `PUT`, `GET` and `SIZE`, where a key
//! that is not there gives `NULL`.

use vstd::prelude::*;
use crate::test_case::CacheTestCase;

verus! {

/// `INIT`, `PUT` and `GET`, with a key that is missing and a key that is
/// written twice.
pub fn test_basic_cache() -> (case: CacheTestCase)
    ensures
        case.description == "Testing basic cache operations",
        case.commands@ == seq!["INIT 10", "PUT name Alice", "GET name", "GET age", "PUT name Bob", "GET name"],
        case.expected_responses@ == seq!["OK", "OK", "Alice", "NULL", "OK", "Bob"],
        case.hint == Some(
            "Basic cache operations: INIT, PUT, GET should work correctly. Non-existent keys \
            should return NULL.",
        ),
        !case.verbose,
        !case.regex_match,
        case.well_formed(),
{
    CacheTestCase::new(
        "Testing basic cache operations",
        vec!["INIT 10", "PUT name Alice", "GET name", "GET age", "PUT name Bob", "GET name"],
        vec!["OK", "OK", "Alice", "NULL", "OK", "Bob"],
    ).with_hint(
        "Basic cache operations: INIT, PUT, GET should work correctly. Non-existent keys \
        should return NULL.",
    )
}

/// Several keys side by side.
pub fn test_multiple_keys() -> (case: CacheTestCase)
    ensures
        case.description == "Testing multiple keys operations",
        case.commands@ == seq![
            "INIT 5", "PUT key1 value1", "PUT key2 value2", "PUT key3 value3", "GET key1",
            "GET key2", "GET key3", "GET key4",
        ],
        case.expected_responses@ == seq!["OK", "OK", "OK", "OK", "value1", "value2", "value3", "NULL"],
        case.hint == Some("Cache should handle multiple different keys independently."),
        !case.verbose,
        !case.regex_match,
        case.well_formed(),
{
    CacheTestCase::new(
        "Testing multiple keys operations",
        vec![
            "INIT 5",
            "PUT key1 value1",
            "PUT key2 value2",
            "PUT key3 value3",
            "GET key1",
            "GET key2",
            "GET key3",
            "GET key4",
        ],
        vec!["OK", "OK", "OK", "OK", "value1", "value2", "value3", "NULL"],
    ).with_hint(
        "Cache should handle multiple different keys independently.",
    )
}

/// Writing a key again replaces its value.
pub fn test_key_update() -> (case: CacheTestCase)
    ensures
        case.description == "Testing key update operations",
        case.commands@ == seq![
            "INIT 10", "PUT name Alice", "GET name", "PUT name Bob", "GET name",
            "PUT name Charlie", "GET name",
        ],
        case.expected_responses@ == seq!["OK", "OK", "Alice", "OK", "Bob", "OK", "Charlie"],
        case.hint == Some("Updating an existing key should replace its value."),
        !case.verbose,
        !case.regex_match,
        case.well_formed(),
{
    CacheTestCase::new(
        "Testing key update operations",
        vec![
            "INIT 10",
            "PUT name Alice",
            "GET name",
            "PUT name Bob",
            "GET name",
            "PUT name Charlie",
            "GET name",
        ],
        vec!["OK", "OK", "Alice", "OK", "Bob", "OK", "Charlie"],
    ).with_hint(
        "Updating an existing key should replace its value.",
    )
}

/// `SIZE` follows the number of entries: a new key adds one, an update and
/// a `GET` add none.
pub fn test_size_command() -> (case: CacheTestCase)
    ensures
        case.description == "Testing SIZE command",
        case.commands@ == seq![
            "INIT 10", "SIZE", "PUT key1 value1", "SIZE", "PUT key2 value2", "PUT key3 value3",
            "SIZE", "PUT key1 updated", "SIZE", "GET key2", "SIZE",
        ],
        case.expected_responses@ == seq!["OK", "0", "OK", "1", "OK", "OK", "3", "OK", "3", "value2", "3"],
        case.hint == Some(
            "SIZE should return the current number of items in cache. Updates don't change \
            size, only new keys do.",
        ),
        !case.verbose,
        !case.regex_match,
        case.well_formed(),
{
    CacheTestCase::new(
        "Testing SIZE command",
        vec![
            "INIT 10",
            "SIZE",
            "PUT key1 value1",
            "SIZE",
            "PUT key2 value2",
            "PUT key3 value3",
            "SIZE",
            "PUT key1 updated",
            "SIZE",
            "GET key2",
            "SIZE",
        ],
        vec!["OK", "0", "OK", "1", "OK", "OK", "3", "OK", "3", "value2", "3"],
    ).with_hint(
        "SIZE should return the current number of items in cache. Updates don't change size, \
        only new keys do.",
    )
}

} // verus!
