//! Leaderboard handling: parsing stored miner records from their on-ledger
//! byte layout, ranking miners, and computing reward allocations.

use vstd::prelude::*;
use vstd::bytes::{spec_u64_from_le_bytes, spec_u32_from_le_bytes, u64_from_le_bytes,
    u32_from_le_bytes};
use vstd::slice::slice_subrange;

verus! {

/// One miner's statistics as read back from storage.
#[derive(Clone, Copy, Debug)]
pub struct LeaderboardEntry {
    /// The miner's public identifier.
    pub pubkey: [u8; 32],
    /// Total accepted proofs.
    pub total_hashes: u64,
    /// Completed rounds.
    pub rounds_completed: u32,
    /// Highest difficulty achieved.
    pub best_difficulty: u8,
}

/// A stored miner record is at least this long: an 8-byte discriminator, the
/// 32-byte identifier, the 8-byte hash counter, the 4-byte round counter, an
/// 8-byte timestamp, a 4-byte streak, the best difficulty and one spare byte.
pub const MINER_ACCOUNT_MIN_LEN: usize = 66;

/// Parse one stored miner record from its byte layout: the identifier at
/// offset 8, the hash counter (little-endian) at offset 40, the round counter
/// (little-endian) at offset 48 and the best difficulty at offset 64. Bytes
/// too short for the layout parse to nothing.
pub fn parse_miner_account(data: &[u8]) -> (entry: Option<LeaderboardEntry>)
    ensures
        match entry {
            Some(e) => {
                &&& data@.len() >= MINER_ACCOUNT_MIN_LEN
                &&& e.pubkey@ == data@.subrange(8, 40)
                &&& e.total_hashes == spec_u64_from_le_bytes(data@.subrange(40, 48))
                &&& e.rounds_completed == spec_u32_from_le_bytes(data@.subrange(48, 52))
                &&& e.best_difficulty == data@[64]
            },
            None => data@.len() < MINER_ACCOUNT_MIN_LEN,
        },
{
    if data.len() < MINER_ACCOUNT_MIN_LEN {
        return None;
    }
    let mut pubkey = [0u8; 32];
    let mut i: usize = 0;
    while i < 32
        invariant
            0 <= i <= 32,
            data@.len() >= 66,
            forall|j: int| 0 <= j < i ==> pubkey@[j] == data@[8 + j],
        decreases 32 - i,
    {
        pubkey[i] = data[8 + i];
        i = i + 1;
    }
    proof {
        assert(pubkey@ =~= data@.subrange(8, 40));
    }
    let total_hashes: u64 = u64_from_le_bytes(slice_subrange(data, 40, 48));
    let rounds_completed: u32 = u32_from_le_bytes(slice_subrange(data, 48, 52));
    let best_difficulty: u8 = data[64];
    Some(LeaderboardEntry { pubkey, total_hashes, rounds_completed, best_difficulty })
}

/// Ranking order: by total hashes first, then by completed rounds, both
/// descending. `entry_ge(a, b)` says `a` ranks at least as high as `b`.
pub open spec fn entry_ge(a: LeaderboardEntry, b: LeaderboardEntry) -> bool {
    ||| a.total_hashes > b.total_hashes
    ||| (a.total_hashes == b.total_hashes && a.rounds_completed >= b.rounds_completed)
}

/// Descending order: every earlier entry ranks at least as high as every
/// later one.
pub open spec fn sorted_desc(s: Seq<LeaderboardEntry>) -> bool {
    forall|i: int, j: int| 0 <= i < j < s.len() ==> entry_ge(s[i], s[j])
}

fn entry_ge_exec(a: &LeaderboardEntry, b: &LeaderboardEntry) -> (r: bool)
    ensures
        r == entry_ge(*a, *b),
{
    a.total_hashes > b.total_hashes || (a.total_hashes == b.total_hashes && a.rounds_completed
        >= b.rounds_completed)
}

/// Sort entries into ranking order (insertion sort): the result is the same
/// collection of entries, in descending rank.
pub fn sort_leaderboard(entries: &Vec<LeaderboardEntry>) -> (out: Vec<LeaderboardEntry>)
    ensures
        sorted_desc(out@),
        out@.to_multiset() == entries@.to_multiset(),
        out@.len() == entries@.len(),
{
    let mut out: Vec<LeaderboardEntry> = Vec::new();
    let mut i: usize = 0;
    proof {
        assert(entries@.take(0) =~= Seq::<LeaderboardEntry>::empty());
    }
    while i < entries.len()
        invariant
            0 <= i <= entries@.len(),
            out@.len() == i,
            sorted_desc(out@),
            out@.to_multiset() == entries@.take(i as int).to_multiset(),
        decreases entries@.len() - i,
    {
        let e = entries[i];
        let mut p: usize = 0;
        while p < out.len() && entry_ge_exec(&out[p], &e)
            invariant
                0 <= p <= out@.len(),
                forall|k: int| 0 <= k < p ==> entry_ge(out@[k], e),
            decreases out@.len() - p,
        {
            p = p + 1;
        }
        proof {
            // Insertion keeps the order: entries before p outrank e, and e
            // outranks everything from p on, by totality and transitivity.
            assert forall|k: int| p <= k < out@.len() implies entry_ge(e, out@[k]) by {
                if p < out@.len() {
                    assert(entry_ge(e, out@[p as int]));
                    if k > p {
                        assert(entry_ge(out@[p as int], out@[k]));
                    }
                }
            }
        }
        out.insert(p, e);
        proof {
            broadcast use vstd::seq_lib::group_to_multiset_ensures;
            broadcast use vstd::seq_lib::to_multiset_insert;

            assert(entries@.take(i + 1) =~= entries@.take(i as int).push(entries@[i as int]));
            assert(out@.to_multiset() =~= entries@.take(i + 1).to_multiset());
        }
        i = i + 1;
    }
    proof {
        assert(entries@.take(entries@.len() as int) =~= entries@);
    }
    out
}

/// Rank the leaderboard and keep only the `limit` highest-ranked entries:
/// the result is a prefix of some complete ranking of the input.
pub fn rank_leaderboard(entries: &Vec<LeaderboardEntry>, limit: usize) -> (top: Vec<
    LeaderboardEntry,
>)
    ensures
        sorted_desc(top@),
        top@.len() == (if entries@.len() <= limit {
            entries@.len()
        } else {
            limit as nat
        }),
        exists|s: Seq<LeaderboardEntry>|
            {
                &&& s.to_multiset() == entries@.to_multiset()
                &&& sorted_desc(s)
                &&& top@ == s.take(top@.len() as int)
            },
{
    let mut sorted = sort_leaderboard(entries);
    let ghost full = sorted@;
    if sorted.len() > limit {
        sorted.truncate(limit);
    }
    proof {
        assert(sorted@ =~= full.take(sorted@.len() as int));
    }
    sorted
}

/// Reward units granted per million accepted proofs.
pub const TOKENS_PER_MILLION_HASHES: u64 = 100;

/// Miners with fewer accepted proofs than this get no allocation.
pub const MINIMUM_HASHES_FOR_AIRDROP: u64 = 100_000;

/// The allocation formula counts whole millions of accepted proofs.
pub const HASHES_PER_REWARD_STEP: u64 = 1_000_000;

/// Reward units for a miner: 100 per whole million accepted proofs.
pub open spec fn spec_allocation_tokens(total_hashes: u64) -> int {
    (total_hashes as int / 1_000_000) * 100
}

/// A miner receives an allocation when it reaches the minimum volume and the
/// formula grants a positive amount.
pub open spec fn spec_eligible(e: LeaderboardEntry) -> bool {
    e.total_hashes >= MINIMUM_HASHES_FOR_AIRDROP && spec_allocation_tokens(e.total_hashes) > 0
}

/// One miner's reward allocation.
#[derive(Clone, Copy, Debug)]
pub struct Allocation {
    /// The recipient's public identifier.
    pub pubkey: [u8; 32],
    /// Reward units granted.
    pub tokens: u64,
}

/// The allocations of a leaderboard, in leaderboard order: one allocation
/// per eligible entry, with the amount the formula grants.
pub open spec fn spec_allocations(entries: Seq<LeaderboardEntry>) -> Seq<Allocation>
    decreases entries.len(),
{
    if entries.len() == 0 {
        Seq::empty()
    } else {
        let prefix = spec_allocations(entries.drop_last());
        let e = entries.last();
        if spec_eligible(e) {
            prefix.push(
                Allocation {
                    pubkey: e.pubkey,
                    tokens: spec_allocation_tokens(e.total_hashes) as u64,
                },
            )
        } else {
            prefix
        }
    }
}

/// The allocation formula: 100 reward units per whole million accepted
/// proofs (floor division, so anything below one million yields 0).
pub fn allocation_tokens(total_hashes: u64) -> (tokens: u64)
    ensures
        tokens == spec_allocation_tokens(total_hashes),
{
    let steps: u64 = total_hashes / HASHES_PER_REWARD_STEP;
    assert(steps <= u64::MAX / 1_000_000) by {
        assert(total_hashes / 1_000_000 <= u64::MAX / 1_000_000) by (nonlinear_arith)
            requires
                total_hashes <= u64::MAX,
        ;
    }
    steps * TOKENS_PER_MILLION_HASHES
}

/// Compute the reward allocation of every eligible miner on the
/// leaderboard, in leaderboard order.
pub fn calculate_allocations(leaderboard: &Vec<LeaderboardEntry>) -> (allocations: Vec<Allocation>)
    ensures
        allocations@ == spec_allocations(leaderboard@),
{
    let mut out: Vec<Allocation> = Vec::new();
    let mut i: usize = 0;
    proof {
        assert(leaderboard@.take(0) =~= Seq::<LeaderboardEntry>::empty());
    }
    while i < leaderboard.len()
        invariant
            0 <= i <= leaderboard@.len(),
            out@ == spec_allocations(leaderboard@.take(i as int)),
        decreases leaderboard@.len() - i,
    {
        let e = leaderboard[i];
        if e.total_hashes >= MINIMUM_HASHES_FOR_AIRDROP {
            let tokens = allocation_tokens(e.total_hashes);
            if tokens > 0 {
                out.push(Allocation { pubkey: e.pubkey, tokens });
            }
        }
        proof {
            assert(leaderboard@.take(i + 1).drop_last() =~= leaderboard@.take(i as int));
            assert(leaderboard@.take(i + 1).last() == leaderboard@[i as int]);
        }
        i = i + 1;
    }
    proof {
        assert(leaderboard@.take(leaderboard@.len() as int) =~= leaderboard@);
    }
    out
}

} // verus!
