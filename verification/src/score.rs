//! Looking for the score counter in the memory of a running game.
//!
//! A scan reads the `i32` at each of a run of consecutive addresses after a
//! start address. The first value ever read at an address is kept as that
//! address's baseline; an address whose new value is its baseline plus one
//! counts as a goal, a sign that it may hold the score.

use vstd::prelude::*;
use std::collections::HashMap;

verus! {

broadcast use vstd::std_specs::hash::group_hash_axioms;

/// What one scan found: the last address it read, and how many addresses
/// showed a goal.
pub struct ScanReport {
    pub last_addr: i32,
    pub count: u32,
}

/// The address read for `reads[k]`: the one `k + 1` after the start.
pub open spec fn scan_addr(start_addr: int, k: int) -> int {
    start_addr + k + 1
}

/// The value `value` read at `addr` shows a goal against the baselines
/// `baselines`: the address has a baseline, the baseline is not `i32::MAX`,
/// and the value is one more than it.
pub open spec fn is_goal(baselines: Map<i32, i32>, addr: i32, value: i32) -> bool {
    &&& baselines.contains_key(addr)
    &&& baselines[addr] != i32::MAX
    &&& baselines[addr] + 1 == value
}

/// The number of reads in `reads` that show a goal against `baselines`,
/// `reads[k]` being the value at `scan_addr(start_addr, k)`.
pub open spec fn goal_count(baselines: Map<i32, i32>, start_addr: int, reads: Seq<i32>) -> nat
    decreases reads.len(),
{
    if reads.len() == 0 {
        0
    } else {
        let k = reads.len() - 1;
        goal_count(baselines, start_addr, reads.drop_last()) + if is_goal(
            baselines,
            scan_addr(start_addr, k) as i32,
            reads[k],
        ) {
            1nat
        } else {
            0nat
        }
    }
}

/// The baselines after a scan: each address read that had no baseline gets
/// the value read there; every baseline already known stays as it was.
pub open spec fn baselines_after(baselines: Map<i32, i32>, start_addr: int, reads: Seq<i32>) -> Map<
    i32,
    i32,
> {
    Map::new(
        |a: i32| baselines.contains_key(a) || (start_addr < a <= start_addr + reads.len()),
        |a: i32|
            if baselines.contains_key(a) {
                baselines[a]
            } else {
                reads[a - start_addr - 1]
            },
    )
}

/// One scan over the values `reads`, where `reads[k]` was read at the
/// address `start_addr + k + 1`. Records a baseline for each address that
/// had none and counts the goals.
pub fn rl_score_check(start_addr: i32, addrs_map: &mut HashMap<i32, i32>, reads: &Vec<i32>) -> (report:
    ScanReport)
    requires
        start_addr + reads@.len() <= i32::MAX,
    ensures
        report.last_addr == start_addr + reads@.len(),
        report.count == goal_count(old(addrs_map)@, start_addr as int, reads@),
        final(addrs_map)@ == baselines_after(old(addrs_map)@, start_addr as int, reads@),
{
    let ghost before = addrs_map@;
    let n = reads.len();
    let mut addr = start_addr;
    let mut count: u32 = 0;
    let mut i: usize = 0;
    assert(reads@.take(0) =~= Seq::<i32>::empty());
    assert(addrs_map@ =~= baselines_after(before, start_addr as int, reads@.take(0)));
    while i < n
        invariant
            n == reads@.len(),
            start_addr + n <= i32::MAX,
            i <= n,
            addr == start_addr + i,
            count <= i,
            count == goal_count(before, start_addr as int, reads@.take(i as int)),
            addrs_map@ == baselines_after(before, start_addr as int, reads@.take(i as int)),
        decreases n - i,
    {
        addr = addr + 1;
        let value = reads[i];
        let ghost seen = reads@.take(i as int);
        let ghost next_seen = reads@.take(i + 1);
        assert(next_seen.drop_last() =~= seen);
        assert(next_seen[i as int] == value);
        assert(addrs_map@.contains_key(addr) == before.contains_key(addr));
        let baseline = match addrs_map.get(&addr) {
            Some(v) => *v,
            None => {
                addrs_map.insert(addr, value);
                value
            },
        };
        if baseline != i32::MAX && baseline + 1 == value {
            count = count + 1;
        }
        assert(is_goal(before, addr, value) == (baseline != i32::MAX && baseline + 1 == value));
        assert(addrs_map@ =~= baselines_after(before, start_addr as int, next_seen));
        i = i + 1;
    }
    assert(reads@.take(n as int) =~= reads@);
    ScanReport { last_addr: addr, count }
}

/// A scan never changes a baseline it finds: every address that had a
/// baseline before keeps it, and every address it reads has one after.
pub proof fn scan_keeps_baselines(baselines: Map<i32, i32>, start_addr: int, reads: Seq<i32>)
    ensures
        forall|a: i32| #[trigger]
            baselines.contains_key(a) ==> baselines_after(baselines, start_addr, reads).contains_key(
                a,
            ) && baselines_after(baselines, start_addr, reads)[a] == baselines[a],
        forall|k: int|
            0 <= k < reads.len() && i32::MIN <= #[trigger] scan_addr(start_addr, k) <= i32::MAX
                ==> baselines_after(baselines, start_addr, reads).contains_key(
                scan_addr(start_addr, k) as i32,
            ),
{
}

/// A scan that finds no baseline at any address it reads counts no goal.
pub proof fn first_scan_counts_nothing(baselines: Map<i32, i32>, start_addr: int, reads: Seq<i32>)
    requires
        forall|k: int|
            0 <= k < reads.len() ==> !baselines.contains_key(
                #[trigger] scan_addr(start_addr, k) as i32,
            ),
    ensures
        goal_count(baselines, start_addr, reads) == 0,
    decreases reads.len(),
{
    if reads.len() > 0 {
        let p = reads.drop_last();
        assert forall|k: int| 0 <= k < p.len() implies !baselines.contains_key(
            #[trigger] scan_addr(start_addr, k) as i32,
        ) by {
            assert(!baselines.contains_key(scan_addr(start_addr, k) as i32));
        }
        first_scan_counts_nothing(baselines, start_addr, p);
        assert(!baselines.contains_key(scan_addr(start_addr, reads.len() - 1) as i32));
    }
}

/// Only a rise by exactly one counts. A read that shows a goal is exactly
/// one more than the baseline of its address; so a scan in which no read
/// is exactly one more than its address's baseline (every value stayed,
/// fell, or jumped) counts nothing.
pub proof fn only_a_rise_by_one_counts(baselines: Map<i32, i32>, start_addr: int, reads: Seq<i32>)
    ensures
        forall|a: i32, v: i32| #[trigger]
            is_goal(baselines, a, v) ==> baselines.contains_key(a) && baselines[a] + 1 == v,
        (forall|k: int|
            0 <= k < reads.len() && baselines.contains_key(
                #[trigger] scan_addr(start_addr, k) as i32,
            ) ==> baselines[scan_addr(start_addr, k) as i32] + 1 != reads[k]) ==> goal_count(
            baselines,
            start_addr,
            reads,
        ) == 0,
    decreases reads.len(),
{
    if reads.len() > 0 {
        let p = reads.drop_last();
        if forall|k: int|
            0 <= k < reads.len() && baselines.contains_key(
                #[trigger] scan_addr(start_addr, k) as i32,
            ) ==> baselines[scan_addr(start_addr, k) as i32] + 1 != reads[k] {
            assert forall|k: int|
                0 <= k < p.len() && baselines.contains_key(
                    #[trigger] scan_addr(start_addr, k) as i32,
                ) implies baselines[scan_addr(start_addr, k) as i32] + 1 != p[k] by {
                assert(p[k] == reads[k]);
            }
            only_a_rise_by_one_counts(baselines, start_addr, p);
            let last = reads.len() - 1;
            assert(baselines.contains_key(scan_addr(start_addr, last) as i32) ==> baselines[scan_addr(
                start_addr,
                last,
            ) as i32] + 1 != reads[last]);
        } else {
            only_a_rise_by_one_counts(baselines, start_addr, p);
        }
    }
}

} // verus!
