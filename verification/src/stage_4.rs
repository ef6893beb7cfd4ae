//! Stage 4: Custom Doubly Linked List Implementation
//!
//! Stage 4 implements LRU cache from scratch using HashMap + Doubly Linked List,
//! without relying on language built-ins like OrderedDict/LinkedHashMap.
//!
//! Functionally identical to Stage 3, but tests implementation correctness
//! and edge cases specific to manual pointer management.

use vstd::prelude::*;
use crate::scripted::ScriptedTest;

verus! {

/// Test basic LRU eviction (same as Stage 3)
///
/// This ensures Stage 4's manual implementation has the same behavior
/// as Stage 3's OrderedDict implementation.
pub fn test_lru_eviction() -> (test: ScriptedTest)
    ensures
        test.title == "Testing LRU eviction with custom DLL",
        test.steps@ == seq![
            "Step 1: Initialize cache with capacity 2", "Step 2: Add 'a' and 'b'",
            "Step 3: Access 'a' (updates access time)",
            "Step 4: Add 'c' (should evict 'b', the least recently used)",
        ],
        test.commands@ == seq!["INIT 2", "PUT a 1", "PUT b 2", "GET a", "PUT c 3", "GET a", "GET b", "GET c"],
        test.expected_responses@ == seq!["OK", "OK", "OK", "1", "OK", "1", "NULL", "3"],
        test.advice == "Hint: Check your doubly linked list pointer updates.\n\
            - Is move_to_head() correctly updating prev/next pointers?\n\
            - Is remove_lru() removing the tail.prev node?",
        test.success == "✓ LRU eviction working correctly with custom DLL",
        test.notes@ == Seq::<&'static str>::empty(),
{
    ScriptedTest {
        title: "Testing LRU eviction with custom DLL",
        steps: vec![
            "Step 1: Initialize cache with capacity 2",
            "Step 2: Add 'a' and 'b'",
            "Step 3: Access 'a' (updates access time)",
            "Step 4: Add 'c' (should evict 'b', the least recently used)",
        ],
        commands: vec![
            "INIT 2",
            "PUT a 1",
            "PUT b 2",
            "GET a",  // Access 'a' - makes it "recently used"
            "PUT c 3",  // This should evict 'b' (least recently used)
            "GET a",  // Should return 1 (still in cache)
            "GET b",  // Should return NULL (evicted)
            "GET c",  // Should return 3 (just added)
        ],
        expected_responses: vec!["OK", "OK", "OK", "1", "OK", "1", "NULL", "3"],
        advice: "Hint: Check your doubly linked list pointer updates.\n\
        - Is move_to_head() correctly updating prev/next pointers?\n\
        - Is remove_lru() removing the tail.prev node?",
        success: "✓ LRU eviction working correctly with custom DLL",
        notes: vec![],
    }
}

/// Test LRU vs FIFO difference (same as Stage 3)
pub fn test_lru_vs_fifo() -> (test: ScriptedTest)
    ensures
        test.title == "Testing LRU vs FIFO difference with custom DLL",
        test.steps@ == seq!["Verifying PUT updates access order in custom implementation"],
        test.commands@ == seq![
            "INIT 2", "PUT a 1", "PUT b 2", "PUT a 100", "PUT c 3", "GET a", "GET b", "GET c",
        ],
        test.expected_responses@ == seq!["OK", "OK", "OK", "OK", "OK", "100", "NULL", "3"],
        test.advice == "Hint: When updating an existing key with PUT:\n\
            - Update the value in the node\n\
            - Call move_to_head() to mark as recently used\n\
            - Don't forget both steps!",
        test.success == "✓ PUT correctly updates access order in custom DLL",
        test.notes@ == Seq::<&'static str>::empty(),
{
    ScriptedTest {
        title: "Testing LRU vs FIFO difference with custom DLL",
        steps: vec![
            "Verifying PUT updates access order in custom implementation",
        ],
        commands: vec![
            "INIT 2",
            "PUT a 1",
            "PUT b 2",
            "PUT a 100",  // Update 'a' - should move to head in DLL
            "PUT c 3",  // Should evict 'b' (least recent)
            "GET a",  // Should return 100 (retained)
            "GET b",  // Should return NULL (evicted)
            "GET c",  // Should return 3 (just added)
        ],
        expected_responses: vec!["OK", "OK", "OK", "OK", "OK", "100", "NULL", "3"],
        advice: "Hint: When updating an existing key with PUT:\n\
        - Update the value in the node\n\
        - Call move_to_head() to mark as recently used\n\
        - Don't forget both steps!",
        success: "✓ PUT correctly updates access order in custom DLL",
        notes: vec![],
    }
}

/// Test multiple access patterns (same as Stage 3)
pub fn test_lru_multiple_access() -> (test: ScriptedTest)
    ensures
        test.title == "Testing multiple access patterns with custom DLL",
        test.steps@ == Seq::<&'static str>::empty(),
        test.commands@ == seq![
            "INIT 3", "PUT a 1", "PUT b 2", "PUT c 3", "GET a", "GET b", "PUT d 4", "GET a",
            "GET b", "GET c", "GET d", "SIZE",
        ],
        test.expected_responses@ == seq!["OK", "OK", "OK", "OK", "1", "2", "OK", "1", "2", "NULL", "4", "3"],
        test.advice == "Hint: Each GET should call move_to_head().\n\
            Verify your DLL maintains correct order through multiple operations.",
        test.success == "✓ Multiple accesses handled correctly",
        test.notes@ == Seq::<&'static str>::empty(),
{
    ScriptedTest {
        title: "Testing multiple access patterns with custom DLL",
        steps: vec![],
        commands: vec![
            "INIT 3",
            "PUT a 1",
            "PUT b 2",
            "PUT c 3",
            "GET a",  // Access 'a'
            "GET b",  // Access 'b'
            "PUT d 4",  // Should evict 'c'
            "GET a",  // Should return 1
            "GET b",  // Should return 2
            "GET c",  // Should return NULL
            "GET d",  // Should return 4
            "SIZE",  // Should be 3
        ],
        expected_responses: vec!["OK", "OK", "OK", "OK", "1", "2", "OK", "1", "2", "NULL", "4", "3"],
        advice: "Hint: Each GET should call move_to_head().\n\
        Verify your DLL maintains correct order through multiple operations.",
        success: "✓ Multiple accesses handled correctly",
        notes: vec![],
    }
}

/// Test sequential evictions (same as Stage 3)
pub fn test_lru_sequential_evictions() -> (test: ScriptedTest)
    ensures
        test.title == "Testing sequential evictions with custom DLL",
        test.steps@ == Seq::<&'static str>::empty(),
        test.commands@ == seq![
            "INIT 2", "PUT a 1", "PUT b 2", "PUT c 3", "PUT d 4", "GET c", "PUT e 5", "GET c",
            "GET d", "GET e",
        ],
        test.expected_responses@ == seq!["OK", "OK", "OK", "OK", "OK", "3", "OK", "3", "NULL", "5"],
        test.advice == "Hint: After each eviction, verify:\n\
            - HashMap is updated (del cache[lru_node.key])\n\
            - DLL head/tail pointers are correct\n\
            - No dangling pointers remain",
        test.success == "✓ Sequential evictions maintain correct order",
        test.notes@ == Seq::<&'static str>::empty(),
{
    ScriptedTest {
        title: "Testing sequential evictions with custom DLL",
        steps: vec![],
        commands: vec![
            "INIT 2",
            "PUT a 1",
            "PUT b 2",
            "PUT c 3",  // Evicts 'a'
            "PUT d 4",  // Evicts 'b'
            "GET c",  // Access 'c'
            "PUT e 5",  // Should evict 'd' (not 'c')
            "GET c",  // Should return 3
            "GET d",  // Should return NULL
            "GET e",  // Should return 5
        ],
        expected_responses: vec!["OK", "OK", "OK", "OK", "OK", "3", "OK", "3", "NULL", "5"],
        advice: "Hint: After each eviction, verify:\n\
        - HashMap is updated (del cache[lru_node.key])\n\
        - DLL head/tail pointers are correct\n\
        - No dangling pointers remain",
        success: "✓ Sequential evictions maintain correct order",
        notes: vec![],
    }
}

/// Test capacity = 1 edge case
///
/// This tests the smallest possible cache, which stresses
/// boundary conditions in the DLL implementation.
pub fn test_capacity_one() -> (test: ScriptedTest)
    ensures
        test.title == "Testing capacity = 1 edge case",
        test.steps@ == seq!["Testing smallest possible cache (capacity = 1)"],
        test.commands@ == seq![
            "INIT 1", "PUT a 1", "GET a", "PUT b 2", "GET a", "GET b", "SIZE", "PUT c 3",
            "GET b", "GET c",
        ],
        test.expected_responses@ == seq!["OK", "OK", "1", "OK", "NULL", "2", "1", "OK", "NULL", "3"],
        test.advice == "Hint: With capacity=1, every PUT should evict the previous item.\n\
            - Check if your DLL handles single-node cases correctly\n\
            - Verify head.next == tail.prev when size=1",
        test.success == "✓ Capacity = 1 edge case handled correctly",
        test.notes@ == Seq::<&'static str>::empty(),
{
    ScriptedTest {
        title: "Testing capacity = 1 edge case",
        steps: vec![
            "Testing smallest possible cache (capacity = 1)",
        ],
        commands: vec![
            "INIT 1",
            "PUT a 1",
            "GET a",  // Should return 1
            "PUT b 2",  // Should evict 'a'
            "GET a",  // Should return NULL
            "GET b",  // Should return 2
            "SIZE",  // Should be 1
            "PUT c 3",  // Should evict 'b'
            "GET b",  // Should return NULL
            "GET c",  // Should return 3
        ],
        expected_responses: vec!["OK", "OK", "1", "OK", "NULL", "2", "1", "OK", "NULL", "3"],
        advice: "Hint: With capacity=1, every PUT should evict the previous item.\n\
        - Check if your DLL handles single-node cases correctly\n\
        - Verify head.next == tail.prev when size=1",
        success: "✓ Capacity = 1 edge case handled correctly",
        notes: vec![],
    }
}

/// Test empty cache operations
///
/// Verifies correct handling of operations on an empty cache.
pub fn test_empty_cache() -> (test: ScriptedTest)
    ensures
        test.title == "Testing empty cache operations",
        test.steps@ == seq!["Testing operations on empty cache"],
        test.commands@ == seq!["INIT 3", "GET nonexistent", "SIZE", "PUT a 1", "SIZE", "GET a"],
        test.expected_responses@ == seq!["OK", "NULL", "0", "OK", "1", "1"],
        test.advice == "Hint: Empty cache should:\n\
            - Return NULL for any GET\n\
            - Return 0 for SIZE\n\
            - Handle first PUT correctly (initialize DLL)",
        test.success == "✓ Empty cache operations work correctly",
        test.notes@ == Seq::<&'static str>::empty(),
{
    ScriptedTest {
        title: "Testing empty cache operations",
        steps: vec![
            "Testing operations on empty cache",
        ],
        commands: vec![
            "INIT 3",
            "GET nonexistent",  // Should return NULL
            "SIZE",  // Should be 0
            "PUT a 1",
            "SIZE",  // Should be 1
            "GET a",  // Should return 1
        ],
        expected_responses: vec!["OK", "NULL", "0", "OK", "1", "1"],
        advice: "Hint: Empty cache should:\n\
        - Return NULL for any GET\n\
        - Return 0 for SIZE\n\
        - Handle first PUT correctly (initialize DLL)",
        success: "✓ Empty cache operations work correctly",
        notes: vec![],
    }
}

/// Test repeated operations on same key
///
/// Stresses the move_to_head operation with repeated accesses.
pub fn test_repeated_operations() -> (test: ScriptedTest)
    ensures
        test.title == "Testing repeated operations on same key",
        test.steps@ == seq!["Testing repeated GET/PUT on same key"],
        test.commands@ == seq![
            "INIT 2", "PUT a 1", "GET a", "GET a", "GET a", "PUT a 2", "PUT a 3", "GET a",
            "SIZE", "PUT b 4", "PUT c 5", "GET a", "GET b",
        ],
        test.expected_responses@ == seq!["OK", "OK", "1", "1", "1", "OK", "OK", "3", "1", "OK", "OK", "NULL", "4"],
        test.advice == "Hint: Repeated operations on same key should:\n\
            - Not create duplicate nodes in DLL\n\
            - Correctly update value in place\n\
            - Still maintain LRU order (most recent operation wins)\n\
            - When evicting, remove the node that was least recently accessed",
        test.success == "✓ Repeated operations maintain correct LRU order",
        test.notes@ == Seq::<&'static str>::empty(),
{
    ScriptedTest {
        title: "Testing repeated operations on same key",
        steps: vec![
            "Testing repeated GET/PUT on same key",
        ],
        commands: vec![
            "INIT 2",
            "PUT a 1",
            "GET a",  // Access 1
            "GET a",  // Access 2
            "GET a",  // Access 3
            "PUT a 2",  // Update
            "PUT a 3",  // Update again
            "GET a",  // Should return 3
            "SIZE",  // Should still be 1
            "PUT b 4",
            "PUT c 5",  // Should evict 'a' (LRU: a is oldest, added before b)
            "GET a",  // Should return NULL (a was evicted)
            "GET b",  // Should return 4
        ],
        expected_responses: vec!["OK", "OK", "1", "1", "1", "OK", "OK", "3", "1", "OK", "OK", "NULL", "4"],
        advice: "Hint: Repeated operations on same key should:\n\
        - Not create duplicate nodes in DLL\n\
        - Correctly update value in place\n\
        - Still maintain LRU order (most recent operation wins)\n\
        - When evicting, remove the node that was least recently accessed",
        success: "✓ Repeated operations maintain correct LRU order",
        notes: vec![],
    }
}

/// Test full eviction cycle
///
/// Fill cache, evict all items, then refill.
/// Tests that DLL can recover from being emptied.
pub fn test_full_eviction_cycle() -> (test: ScriptedTest)
    ensures
        test.title == "Testing full eviction and refill cycle",
        test.steps@ == seq!["Fill -> evict all -> refill cycle"],
        test.commands@ == seq![
            "INIT 2", "PUT a 1", "PUT b 2", "SIZE", "PUT c 3", "PUT d 4", "GET a", "GET b",
            "SIZE", "PUT e 5", "PUT f 6", "GET e", "GET f", "SIZE",
        ],
        test.expected_responses@ == seq![
            "OK", "OK", "OK", "2", "OK", "OK", "NULL", "NULL", "2", "OK", "OK", "5", "6", "2",
        ],
        test.advice == "Hint: After evicting all original items:\n\
            - DLL should still be valid (head.next != tail, tail.prev != head)\n\
            - SIZE should remain at capacity\n\
            - New items should work correctly",
        test.success == "✓ Full eviction cycle works correctly",
        test.notes@ == Seq::<&'static str>::empty(),
{
    ScriptedTest {
        title: "Testing full eviction and refill cycle",
        steps: vec![
            "Fill -> evict all -> refill cycle",
        ],
        commands: vec![
            "INIT 2",
            // Fill cache
            "PUT a 1",
            "PUT b 2",
            "SIZE",  // Should be 2
            // Evict all
            "PUT c 3",  // Evicts 'a'
            "PUT d 4",  // Evicts 'b'
            "GET a",  // NULL
            "GET b",  // NULL
            "SIZE",  // Should still be 2
            // Refill
            "PUT e 5",  // Evicts 'c'
            "PUT f 6",  // Evicts 'd'
            "GET e",  // Should return 5
            "GET f",  // Should return 6
            "SIZE",  // Should be 2
        ],
        expected_responses: vec![
            "OK", "OK", "OK", "2",  // Fill
            "OK", "OK", "NULL", "NULL", "2",  // Evict
            "OK", "OK", "5", "6", "2",  // Refill
        ],
        advice: "Hint: After evicting all original items:\n\
        - DLL should still be valid (head.next != tail, tail.prev != head)\n\
        - SIZE should remain at capacity\n\
        - New items should work correctly",
        success: "✓ Full eviction cycle works correctly",
        notes: vec![],
    }
}

} // verus!
