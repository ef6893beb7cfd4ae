//! Stage 3: LRU Eviction
//!
//! Test LRU (Least Recently Used) eviction policy:
//! - When cache reaches capacity, evict the least recently used item
//! - GET operation updates access time (moves item to "most recent")
//! - PUT operation also updates access time for existing keys
//! - Key difference from FIFO: access order matters!

use vstd::prelude::*;
use crate::scripted::ScriptedTest;

verus! {

/// Test basic LRU eviction
///
/// Scenario:
/// 1. Init cache with capacity 2
/// 2. Add 'a' and 'b'
/// 3. Access 'a' (moves 'a' to most recent)
/// 4. Add 'c' (should evict 'b', not 'a')
///
/// This demonstrates the core LRU behavior: accessing an item
/// prevents it from being evicted.
pub fn test_lru_eviction() -> (test: ScriptedTest)
    ensures
        test.title == "Testing LRU eviction",
        test.steps@ == seq![
            "Step 1: Initialize cache with capacity 2", "Step 2: Add 'a' and 'b'",
            "Step 3: Access 'a' (updates access time)",
            "Step 4: Add 'c' (should evict 'b', the least recently used)",
        ],
        test.commands@ == seq!["INIT 2", "PUT a 1", "PUT b 2", "GET a", "PUT c 3", "GET a", "GET b", "GET c"],
        test.expected_responses@ == seq!["OK", "OK", "OK", "1", "OK", "1", "NULL", "3"],
        test.advice == "Hint: In LRU, accessing an item (GET) should make it 'recently used'.\n\
            When cache is full, the least recently accessed item should be evicted.",
        test.success == "✓ LRU eviction working correctly",
        test.notes@ == seq![
            "  - GET operation updated access time for 'a'",
            "  - Least recently used item 'b' was evicted",
            "  - Recently accessed item 'a' was retained",
        ],
{
    ScriptedTest {
        title: "Testing LRU eviction",
        steps: vec![
            "Step 1: Initialize cache with capacity 2",
            "Step 2: Add 'a' and 'b'",
            "Step 3: Access 'a' (updates access time)",
            "Step 4: Add 'c' (should evict 'b', the least recently used)",
        ],
        commands: vec![
            "INIT 2",
            "PUT a 1",
            "PUT b 2",
            "GET a",  // Access 'a' - makes it "recently used"
            "PUT c 3",  // This should evict 'b' (least recently used)
            "GET a",  // Should return 1 (still in cache)
            "GET b",  // Should return NULL (evicted)
            "GET c",  // Should return 3 (just added)
        ],
        expected_responses: vec!["OK", "OK", "OK", "1", "OK", "1", "NULL", "3"],
        advice: "Hint: In LRU, accessing an item (GET) should make it 'recently used'.\n\
        When cache is full, the least recently accessed item should be evicted.",
        success: "✓ LRU eviction working correctly",
        notes: vec![
            "  - GET operation updated access time for 'a'",
            "  - Least recently used item 'b' was evicted",
            "  - Recently accessed item 'a' was retained",
        ],
    }
}

/// Test LRU vs FIFO difference
///
/// This test directly compares LRU and FIFO behavior with the same
/// sequence of operations. The key difference is how GET affects eviction.
///
/// Scenario (identical to Stage 2 FIFO test):
/// 1. Init capacity 2
/// 2. Add 'a', then 'b'
/// 3. Update 'a' value
/// 4. Add 'c'
///
/// Expected behavior:
/// - FIFO: Would evict 'a' (oldest insertion)
/// - LRU: Should evict 'b' (least recently used, since 'a' was just updated)
pub fn test_lru_vs_fifo() -> (test: ScriptedTest)
    ensures
        test.title == "Testing LRU vs FIFO difference",
        test.steps@ == seq![
            "Step 1: Add items in order: a, b",
            "Step 2: Update 'a' (in LRU this moves 'a' to most recent)",
            "Step 3: Add 'c' (should evict 'b', not 'a')",
        ],
        test.commands@ == seq![
            "INIT 2", "PUT a 1", "PUT b 2", "PUT a 100", "PUT c 3", "GET a", "GET b", "GET c",
        ],
        test.expected_responses@ == seq!["OK", "OK", "OK", "OK", "OK", "100", "NULL", "3"],
        test.advice == "Hint: This is the key difference between LRU and FIFO!\n\
            - FIFO: Update doesn't change eviction order (would evict 'a')\n\
            - LRU: Update makes item 'recently used' (should evict 'b')",
        test.success == "✓ LRU correctly differs from FIFO",
        test.notes@ == seq![
            "  - PUT operation updated access time for 'a'",
            "  - Item 'b' evicted (least recently accessed)",
            "  - Item 'a' retained (recently updated)",
        ],
{
    ScriptedTest {
        title: "Testing LRU vs FIFO difference",
        steps: vec![
            "Step 1: Add items in order: a, b",
            "Step 2: Update 'a' (in LRU this moves 'a' to most recent)",
            "Step 3: Add 'c' (should evict 'b', not 'a')",
        ],
        commands: vec![
            "INIT 2",
            "PUT a 1",
            "PUT b 2",
            "PUT a 100",  // Update 'a' - in LRU this makes 'a' most recent
            "PUT c 3",  // This should evict 'b' (least recent)
            "GET a",  // Should return 100 (retained, was just updated)
            "GET b",  // Should return NULL (evicted)
            "GET c",  // Should return 3 (just added)
        ],
        expected_responses: vec!["OK", "OK", "OK", "OK", "OK", "100", "NULL", "3"],
        advice: "Hint: This is the key difference between LRU and FIFO!\n\
        - FIFO: Update doesn't change eviction order (would evict 'a')\n\
        - LRU: Update makes item 'recently used' (should evict 'b')",
        success: "✓ LRU correctly differs from FIFO",
        notes: vec![
            "  - PUT operation updated access time for 'a'",
            "  - Item 'b' evicted (least recently accessed)",
            "  - Item 'a' retained (recently updated)",
        ],
    }
}

/// Test multiple GET operations update access order
///
/// Scenario:
/// 1. Init capacity 3
/// 2. Add 'a', 'b', 'c' (cache full)
/// 3. Access 'a' and 'b' (moves them to recent)
/// 4. Add 'd' (should evict 'c', the only item not accessed)
pub fn test_lru_multiple_access() -> (test: ScriptedTest)
    ensures
        test.title == "Testing LRU with multiple access patterns",
        test.steps@ == seq![
            "Step 1: Fill cache with a, b, c",
            "Step 2: Access 'a' and 'b' (updates their access time)",
            "Step 3: Add 'd' (should evict 'c', the only unaccessed item)",
        ],
        test.commands@ == seq![
            "INIT 3", "PUT a 1", "PUT b 2", "PUT c 3", "GET a", "GET b", "PUT d 4", "GET a",
            "GET b", "GET c", "GET d", "SIZE",
        ],
        test.expected_responses@ == seq!["OK", "OK", "OK", "OK", "1", "2", "OK", "1", "2", "NULL", "4", "3"],
        test.advice == "Hint: Multiple GET operations should all update access time.\n\
            The item that hasn't been accessed should be evicted first.",
        test.success == "✓ LRU handles multiple accesses correctly",
        test.notes@ == seq![
            "  - Items 'a' and 'b' retained (recently accessed)",
            "  - Item 'c' evicted (not accessed after insertion)",
        ],
{
    ScriptedTest {
        title: "Testing LRU with multiple access patterns",
        steps: vec![
            "Step 1: Fill cache with a, b, c",
            "Step 2: Access 'a' and 'b' (updates their access time)",
            "Step 3: Add 'd' (should evict 'c', the only unaccessed item)",
        ],
        commands: vec![
            "INIT 3",
            "PUT a 1",
            "PUT b 2",
            "PUT c 3",
            "GET a",  // Access 'a'
            "GET b",  // Access 'b'
            "PUT d 4",  // Should evict 'c' (least recently used)
            "GET a",  // Should return 1
            "GET b",  // Should return 2
            "GET c",  // Should return NULL (evicted)
            "GET d",  // Should return 4
            "SIZE",  // Should be 3
        ],
        expected_responses: vec!["OK", "OK", "OK", "OK", "1", "2", "OK", "1", "2", "NULL", "4", "3"],
        advice: "Hint: Multiple GET operations should all update access time.\n\
        The item that hasn't been accessed should be evicted first.",
        success: "✓ LRU handles multiple accesses correctly",
        notes: vec![
            "  - Items 'a' and 'b' retained (recently accessed)",
            "  - Item 'c' evicted (not accessed after insertion)",
        ],
    }
}

/// Test LRU with sequential evictions
///
/// Verify that after each eviction, the access order is correctly maintained
/// for subsequent evictions.
///
/// Scenario:
/// 1. Capacity 2, add a, b
/// 2. Add c (evicts a)
/// 3. Add d (evicts b)
/// 4. Access c
/// 5. Add e (evicts d, not c)
pub fn test_lru_sequential_evictions() -> (test: ScriptedTest)
    ensures
        test.title == "Testing LRU with sequential evictions",
        test.steps@ == seq!["Testing sequence: a, b, c(evict a), d(evict b), GET c, e(evict d)"],
        test.commands@ == seq![
            "INIT 2", "PUT a 1", "PUT b 2", "PUT c 3", "PUT d 4", "GET c", "PUT e 5", "GET c",
            "GET d", "GET e",
        ],
        test.expected_responses@ == seq!["OK", "OK", "OK", "OK", "OK", "3", "OK", "3", "NULL", "5"],
        test.advice == "Hint: LRU should maintain correct access order through multiple evictions.",
        test.success == "✓ Sequential evictions maintain correct LRU order",
        test.notes@ == Seq::<&'static str>::empty(),
{
    ScriptedTest {
        title: "Testing LRU with sequential evictions",
        steps: vec![
            "Testing sequence: a, b, c(evict a), d(evict b), GET c, e(evict d)",
        ],
        commands: vec![
            "INIT 2",
            "PUT a 1",
            "PUT b 2",
            "PUT c 3",  // Evicts 'a'
            "PUT d 4",  // Evicts 'b'
            "GET c",  // Access 'c', makes it recent
            "PUT e 5",  // Should evict 'd' (not 'c')
            "GET c",  // Should return 3
            "GET d",  // Should return NULL
            "GET e",  // Should return 5
        ],
        expected_responses: vec!["OK", "OK", "OK", "OK", "OK", "3", "OK", "3", "NULL", "5"],
        advice: "Hint: LRU should maintain correct access order through multiple evictions.",
        success: "✓ Sequential evictions maintain correct LRU order",
        notes: vec![],
    }
}

} // verus!
