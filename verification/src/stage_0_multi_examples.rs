//! Batches of small tests: several test cases that run one after the other
//! under numbered log prefixes.

use vstd::prelude::*;
use crate::test_case::{CacheTestCase, MultiCacheTestCase};

verus! {

/// The basic commands, one test case for each.
pub fn test_basic_commands_batch() -> (batch: MultiCacheTestCase)
    ensures
        batch.test_cases@.len() == 3,
        batch.test_cases@[0].description == "Testing INIT command",
        batch.test_cases@[0].commands@ == seq!["INIT 5"],
        batch.test_cases@[0].expected_responses@ == seq!["OK"],
        batch.test_cases@[0].hint == None::<&'static str>,
        !batch.test_cases@[0].verbose,
        !batch.test_cases@[0].regex_match,
        batch.test_cases@[0].well_formed(),
        batch.test_cases@[1].description == "Testing PUT command",
        batch.test_cases@[1].commands@ == seq!["INIT 5", "PUT a 1"],
        batch.test_cases@[1].expected_responses@ == seq!["OK", "OK"],
        batch.test_cases@[1].hint == None::<&'static str>,
        !batch.test_cases@[1].verbose,
        !batch.test_cases@[1].regex_match,
        batch.test_cases@[1].well_formed(),
        batch.test_cases@[2].description == "Testing GET command",
        batch.test_cases@[2].commands@ == seq!["INIT 5", "PUT a 1", "GET a"],
        batch.test_cases@[2].expected_responses@ == seq!["OK", "OK", "1"],
        batch.test_cases@[2].hint == None::<&'static str>,
        !batch.test_cases@[2].verbose,
        !batch.test_cases@[2].regex_match,
        batch.test_cases@[2].well_formed(),
{
    let case_1 = CacheTestCase::new(
        "Testing INIT command",
        vec!["INIT 5"],
        vec!["OK"],
    );
    let case_2 = CacheTestCase::new(
        "Testing PUT command",
        vec!["INIT 5", "PUT a 1"],
        vec!["OK", "OK"],
    );
    let case_3 = CacheTestCase::new(
        "Testing GET command",
        vec!["INIT 5", "PUT a 1", "GET a"],
        vec!["OK", "OK", "1"],
    );
    MultiCacheTestCase::new(vec![case_1, case_2, case_3])
}

/// The same exchange with caches of several capacities.
pub fn test_various_capacities() -> (batch: MultiCacheTestCase)
    ensures
        batch.test_cases@.len() == 3,
        batch.test_cases@[0].description == "Capacity 1",
        batch.test_cases@[0].commands@ == seq!["INIT 1", "PUT a 1", "GET a"],
        batch.test_cases@[0].expected_responses@ == seq!["OK", "OK", "1"],
        batch.test_cases@[0].hint == None::<&'static str>,
        !batch.test_cases@[0].verbose,
        !batch.test_cases@[0].regex_match,
        batch.test_cases@[0].well_formed(),
        batch.test_cases@[1].description == "Capacity 5",
        batch.test_cases@[1].commands@ == seq!["INIT 5", "PUT a 1", "GET a"],
        batch.test_cases@[1].expected_responses@ == seq!["OK", "OK", "1"],
        batch.test_cases@[1].hint == None::<&'static str>,
        !batch.test_cases@[1].verbose,
        !batch.test_cases@[1].regex_match,
        batch.test_cases@[1].well_formed(),
        batch.test_cases@[2].description == "Capacity 10",
        batch.test_cases@[2].commands@ == seq!["INIT 10", "PUT a 1", "GET a"],
        batch.test_cases@[2].expected_responses@ == seq!["OK", "OK", "1"],
        batch.test_cases@[2].hint == None::<&'static str>,
        !batch.test_cases@[2].verbose,
        !batch.test_cases@[2].regex_match,
        batch.test_cases@[2].well_formed(),
{
    let case_1 = CacheTestCase::new(
        "Capacity 1",
        vec!["INIT 1", "PUT a 1", "GET a"],
        vec!["OK", "OK", "1"],
    );
    let case_2 = CacheTestCase::new(
        "Capacity 5",
        vec!["INIT 5", "PUT a 1", "GET a"],
        vec!["OK", "OK", "1"],
    );
    let case_3 = CacheTestCase::new(
        "Capacity 10",
        vec!["INIT 10", "PUT a 1", "GET a"],
        vec!["OK", "OK", "1"],
    );
    MultiCacheTestCase::new(vec![case_1, case_2, case_3])
}

/// Keys that are not there, each case with a hint.
pub fn test_error_cases_batch() -> (batch: MultiCacheTestCase)
    ensures
        batch.test_cases@.len() == 2,
        batch.test_cases@[0].description == "GET non-existent key",
        batch.test_cases@[0].commands@ == seq!["INIT 5", "GET missing"],
        batch.test_cases@[0].expected_responses@ == seq!["OK", "NULL"],
        batch.test_cases@[0].hint == Some("Non-existent keys should return NULL"),
        !batch.test_cases@[0].verbose,
        !batch.test_cases@[0].regex_match,
        batch.test_cases@[0].well_formed(),
        batch.test_cases@[1].description == "GET after DELETE",
        batch.test_cases@[1].commands@ == seq!["INIT 5", "PUT a 1", "DELETE a", "GET a"],
        batch.test_cases@[1].expected_responses@ == seq!["OK", "OK", "OK", "NULL"],
        batch.test_cases@[1].hint == Some("Deleted keys should return NULL"),
        !batch.test_cases@[1].verbose,
        !batch.test_cases@[1].regex_match,
        batch.test_cases@[1].well_formed(),
{
    let case_1 = CacheTestCase::new(
        "GET non-existent key",
        vec!["INIT 5", "GET missing"],
        vec!["OK", "NULL"],
    ).with_hint(
        "Non-existent keys should return NULL",
    );
    let case_2 = CacheTestCase::new(
        "GET after DELETE",
        vec!["INIT 5", "PUT a 1", "DELETE a", "GET a"],
        vec!["OK", "OK", "OK", "NULL"],
    ).with_hint(
        "Deleted keys should return NULL",
    );
    MultiCacheTestCase::new(vec![case_1, case_2])
}

} // verus!
