//! Stage 2: FIFO Eviction
//!
//! Test FIFO (First In First Out) eviction policy:
//! - When cache reaches capacity, evict the oldest item
//! - Updating a key does NOT change its position in eviction order
//! - SIZE reflects capacity limit after evictions

use vstd::prelude::*;
use crate::scripted::ScriptedTest;
use crate::test_case::CacheTestCase;

verus! {

/// Test FIFO eviction when cache is full
///
/// Scenario:
/// 1. Init cache with capacity 2
/// 2. Add 3 items (a, b, c)
/// 3. First item 'a' should be evicted
/// 4. Items 'b' and 'c' should remain
pub fn test_fifo_eviction() -> (case: CacheTestCase)
    ensures
        case.description == "Testing FIFO eviction",
        case.commands@ == seq!["INIT 2", "PUT a 1", "PUT b 2", "PUT c 3", "GET a", "GET b", "GET c"],
        case.expected_responses@ == seq!["OK", "OK", "OK", "OK", "NULL", "2", "3"],
        case.hint == Some(
            "In FIFO, the oldest item should be evicted first. When cache is full, adding 'c' \
            should evict 'a' (the first inserted item).",
        ),
        !case.verbose,
        !case.regex_match,
        case.well_formed(),
{
    CacheTestCase::new(
        "Testing FIFO eviction",
        vec![
            "INIT 2",
            "PUT a 1",
            "PUT b 2",
            "PUT c 3",  // This should evict 'a' (oldest)
            "GET a",  // Should return NULL (evicted)
            "GET b",  // Should return 2
            "GET c",  // Should return 3
        ],
        vec!["OK", "OK", "OK", "OK", "NULL", "2", "3"],
    ).with_hint(
        "In FIFO, the oldest item should be evicted first. When cache is full, adding 'c' \
        should evict 'a' (the first inserted item).",
    )
}

/// Test that updating a key doesn't change eviction order (FIFO property)
///
/// This is the key difference between FIFO and LRU:
/// - FIFO: Update doesn't change order (still evicts oldest insertion)
/// - LRU: Update moves item to end (makes it "recently used")
///
/// Scenario:
/// 1. Init cache with capacity 2
/// 2. Add 'a' and 'b'
/// 3. Update 'a' (should NOT change its position)
/// 4. Add 'c' (should evict 'a', not 'b')
pub fn test_fifo_update_no_reorder() -> (test: ScriptedTest)
    ensures
        test.title == "Testing FIFO with key updates",
        test.steps@ == seq![
            "Step 1: Add items in order: a, b",
            "Step 2: Update 'a' (should NOT change eviction order)",
            "Step 3: Add 'c' (should evict 'a', the oldest)",
        ],
        test.commands@ == seq![
            "INIT 2", "PUT a 1", "PUT b 2", "PUT a 100", "PUT c 3", "GET a", "GET b", "GET c",
        ],
        test.expected_responses@ == seq!["OK", "OK", "OK", "OK", "OK", "NULL", "2", "3"],
        test.advice == "Hint: In FIFO, updating a key should NOT change its eviction order.\n\
            The eviction order is based on insertion time, not last update time.",
        test.success == "✓ FIFO correctly maintains insertion order",
        test.notes@ == seq![
            "  - Update doesn't change eviction priority",
            "  - Item 'a' evicted (oldest insertion)",
        ],
{
    ScriptedTest {
        title: "Testing FIFO with key updates",
        steps: vec![
            "Step 1: Add items in order: a, b",
            "Step 2: Update 'a' (should NOT change eviction order)",
            "Step 3: Add 'c' (should evict 'a', the oldest)",
        ],
        commands: vec![
            "INIT 2",
            "PUT a 1",
            "PUT b 2",
            "PUT a 100",  // Update 'a' - in FIFO this doesn't change order
            "PUT c 3",  // This should evict 'a' (oldest insertion)
            "GET a",  // Should return NULL (evicted)
            "GET b",  // Should return 2 (still in cache)
            "GET c",  // Should return 3 (just added)
        ],
        expected_responses: vec!["OK", "OK", "OK", "OK", "OK", "NULL", "2", "3"],
        advice: "Hint: In FIFO, updating a key should NOT change its eviction order.\n\
        The eviction order is based on insertion time, not last update time.",
        success: "✓ FIFO correctly maintains insertion order",
        notes: vec![
            "  - Update doesn't change eviction priority",
            "  - Item 'a' evicted (oldest insertion)",
        ],
    }
}

/// Test SIZE command with FIFO eviction
///
/// Verify that:
/// - SIZE increases as items are added
/// - SIZE doesn't exceed capacity
/// - SIZE remains at capacity after evictions
pub fn test_fifo_size() -> (test: ScriptedTest)
    ensures
        test.title == "Testing SIZE with FIFO eviction",
        test.steps@ == seq!["Step 1: Add items one by one, check SIZE"],
        test.commands@ == seq![
            "INIT 3", "PUT a 1", "SIZE", "PUT b 2", "PUT c 3", "SIZE", "PUT d 4", "SIZE",
            "GET a",
        ],
        test.expected_responses@ == seq!["OK", "OK", "1", "OK", "OK", "3", "OK", "3", "NULL"],
        test.advice == "Hint: SIZE should not exceed capacity even after evictions",
        test.success == "✓ SIZE correct with FIFO eviction",
        test.notes@ == seq!["  - SIZE grows to capacity", "  - SIZE stays at capacity after evictions"],
{
    ScriptedTest {
        title: "Testing SIZE with FIFO eviction",
        steps: vec![
            "Step 1: Add items one by one, check SIZE",
        ],
        commands: vec![
            "INIT 3",
            "PUT a 1",
            "SIZE",  // Should be 1
            "PUT b 2",
            "PUT c 3",
            "SIZE",  // Should be 3 (at capacity)
            "PUT d 4",  // Should evict 'a'
            "SIZE",  // Should remain 3 (not exceed capacity)
            "GET a",  // Should return NULL (evicted)
        ],
        expected_responses: vec!["OK", "OK", "1", "OK", "OK", "3", "OK", "3", "NULL"],
        advice: "Hint: SIZE should not exceed capacity even after evictions",
        success: "✓ SIZE correct with FIFO eviction",
        notes: vec![
            "  - SIZE grows to capacity",
            "  - SIZE stays at capacity after evictions",
        ],
    }
}

} // verus!
