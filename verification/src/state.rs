//! The two mutable records of the mining core — one per miner, one global —
//! with their invariants, initial values, and the rejection taxonomy.

use vstd::prelude::*;
use crate::hashing::spec_challenge;
use crate::hashing::generate_challenge;

verus! {

/// The difficulty floor a fresh round starts at.
pub const INITIAL_MIN_DIFFICULTY: u8 = 8;

/// The hard cap the difficulty floor saturates at.
pub const MAX_MIN_DIFFICULTY: u8 = 16;

/// A streak of this many consecutive accepted proofs completes a round for
/// the miner and resets the streak.
pub const STREAK_COMPLETION_THRESHOLD: u32 = 10;

/// Submission volume above which a rotation raises the difficulty floor.
pub const DIFFICULTY_ADJUSTMENT_VOLUME: u64 = 1_000_000;

/// Why a submission or a rotation was rejected. All variants but
/// `ArithmeticOverflow` are recoverable by the caller; `ArithmeticOverflow`
/// signals an exhausted counter and is fatal for the record.
#[derive(Clone, Copy, Debug, PartialEq, Eq, Structural)]
pub enum ErrorCode {
    /// The submitted hash does not meet the claimed difficulty.
    InsufficientDifficulty,
    /// Less than one second has passed since the miner's last accepted proof.
    TooManySubmissions,
    /// The claimed difficulty is below the round's current floor.
    DifficultyTooLow,
    /// A rotation was attempted by someone other than the round's admin.
    Unauthorized,
    /// A monotonic counter would exceed its representable range.
    ArithmeticOverflow,
}

/// Per-miner mining statistics.
pub struct Miner {
    /// The miner's public identifier, immutable after creation.
    pub authority: [u8; 32],
    /// Monotonic count of accepted proofs.
    pub total_hashes: u64,
    /// Rounds completed: streaks that reached the completion threshold.
    pub rounds_completed: u32,
    /// Timestamp of the most recently accepted proof.
    pub last_hash_at: i64,
    /// Consecutive accepted proofs since the last completion.
    pub current_streak: u32,
    /// High-water mark of difficulty achieved.
    pub best_difficulty: u8,
}

impl Miner {
    /// A completed submission always leaves the streak strictly below the
    /// completion threshold, since reaching it immediately resets it.
    pub open spec fn wf(self) -> bool {
        self.current_streak < STREAK_COMPLETION_THRESHOLD
    }
}

/// The single global round record every submission is checked against.
pub struct GlobalRound {
    /// The 32-byte value all proofs of the current round hash against.
    pub current_challenge: [u8; 32],
    /// Monotonic round counter, starting at 1; advances by 1 per rotation.
    pub round_number: u64,
    /// Timestamp of the current round's start.
    pub started_at: i64,
    /// The difficulty floor: non-decreasing, capped at 16.
    pub min_difficulty: u8,
    /// Proofs accepted during the current round; reset to 0 on rotation.
    pub total_hashes_submitted: u64,
    /// Streak completions across all miners; never reset.
    pub total_rounds_completed: u64,
    /// The identifier authorized to rotate rounds.
    pub admin: [u8; 32],
}

impl GlobalRound {
    /// The difficulty floor stays between its initial value and its cap.
    pub open spec fn wf(self) -> bool {
        INITIAL_MIN_DIFFICULTY <= self.min_difficulty <= MAX_MIN_DIFFICULTY
    }
}

/// Create the record for a new miner: all counters zero and the submission
/// clock started at `now`, so the rate limit covers the first second.
pub fn initialize_miner(authority: [u8; 32], now: i64) -> (miner: Miner)
    ensures
        miner.authority == authority,
        miner.total_hashes == 0,
        miner.rounds_completed == 0,
        miner.last_hash_at == now,
        miner.current_streak == 0,
        miner.best_difficulty == 0,
        miner.wf(),
{
    Miner {
        authority,
        total_hashes: 0,
        rounds_completed: 0,
        last_hash_at: now,
        current_streak: 0,
        best_difficulty: 0,
    }
}

/// Create the global round record: round number 1, an initial challenge
/// derived from the clock, and the initial difficulty floor.
pub fn initialize_global_round(admin: [u8; 32], now: i64, slot: u64) -> (round: GlobalRound)
    ensures
        round.current_challenge@ == spec_challenge(now, slot),
        round.round_number == 1,
        round.started_at == now,
        round.min_difficulty == INITIAL_MIN_DIFFICULTY,
        round.total_hashes_submitted == 0,
        round.total_rounds_completed == 0,
        round.admin == admin,
        round.wf(),
{
    let challenge = generate_challenge(now, slot);
    GlobalRound {
        current_challenge: challenge,
        round_number: 1,
        started_at: now,
        min_difficulty: INITIAL_MIN_DIFFICULTY,
        total_hashes_submitted: 0,
        total_rounds_completed: 0,
        admin,
    }
}

} // verus!
