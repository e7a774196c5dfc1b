//! The submission processor and the round rotator: the state machine that
//! accepts or rejects each proof and the admin operation that starts a new
//! round.

use vstd::prelude::*;
use crate::difficulty::{check_difficulty, spec_meets_difficulty};
use crate::hashing::{hash_proof, spec_proof_hash, spec_challenge, generate_challenge};
use crate::state::{
    Miner, GlobalRound, ErrorCode, STREAK_COMPLETION_THRESHOLD, DIFFICULTY_ADJUSTMENT_VOLUME,
    MAX_MIN_DIFFICULTY,
};

verus! {

/// The digest a submission is scored by: the miner's identifier and the
/// round's current challenge, hashed with the nonce.
pub open spec fn submission_hash(m: Miner, g: GlobalRound, nonce: u64) -> Seq<u8> {
    spec_proof_hash(m.authority@, g.current_challenge@, nonce)
}

/// The submission's hash has at least as many leading zero bits as the
/// claimed difficulty.
pub open spec fn hash_meets(m: Miner, g: GlobalRound, nonce: u64, difficulty: u8) -> bool {
    spec_meets_difficulty(submission_hash(m, g, nonce), difficulty as int)
}

/// Less than one second has passed since the miner's last accepted proof.
pub open spec fn too_soon(m: Miner, now: i64) -> bool {
    now - m.last_hash_at < 1
}

/// Accepting one more proof brings the streak to the completion threshold.
pub open spec fn completes_round(m: Miner) -> bool {
    m.current_streak + 1 >= STREAK_COMPLETION_THRESHOLD
}

/// Accepting the submission would push a monotonic counter past its range.
pub open spec fn submit_would_overflow(m: Miner, g: GlobalRound) -> bool {
    ||| m.total_hashes == u64::MAX
    ||| g.total_hashes_submitted == u64::MAX
    ||| (completes_round(m) && (m.rounds_completed == u32::MAX || g.total_rounds_completed
        == u64::MAX))
}

/// All checks pass: the submission is accepted and both records advance.
pub open spec fn submission_accepted(
    m: Miner,
    g: GlobalRound,
    nonce: u64,
    difficulty: u8,
    now: i64,
) -> bool {
    &&& hash_meets(m, g, nonce, difficulty)
    &&& !too_soon(m, now)
    &&& difficulty >= g.min_difficulty
    &&& !submit_would_overflow(m, g)
}

/// The outcome of a submission: the checks run in a fixed order — hash
/// validity, then rate limit, then the difficulty floor, then counter range —
/// and the first failure decides the rejection reason.
pub open spec fn submit_outcome(
    m: Miner,
    g: GlobalRound,
    nonce: u64,
    difficulty: u8,
    now: i64,
) -> Result<(), ErrorCode> {
    if !hash_meets(m, g, nonce, difficulty) {
        Err(ErrorCode::InsufficientDifficulty)
    } else if too_soon(m, now) {
        Err(ErrorCode::TooManySubmissions)
    } else if difficulty < g.min_difficulty {
        Err(ErrorCode::DifficultyTooLow)
    } else if submit_would_overflow(m, g) {
        Err(ErrorCode::ArithmeticOverflow)
    } else {
        Ok(())
    }
}

/// The miner's record after an accepted submission: one more accepted proof,
/// the submission clock moved to `now`, the difficulty high-water mark
/// raised if beaten, and the streak advanced — or, when it reaches the
/// completion threshold, counted as a completed round and reset.
pub open spec fn accepted_miner(m: Miner, difficulty: u8, now: i64) -> Miner {
    (Miner {
        authority: m.authority,
        total_hashes: (m.total_hashes + 1) as u64,
        rounds_completed: if completes_round(m) {
            (m.rounds_completed + 1) as u32
        } else {
            m.rounds_completed
        },
        last_hash_at: now,
        current_streak: if completes_round(m) {
            0
        } else {
            (m.current_streak + 1) as u32
        },
        best_difficulty: if difficulty > m.best_difficulty {
            difficulty
        } else {
            m.best_difficulty
        },
    })
}

/// The global round after an accepted submission: one more hash submitted
/// this round, and one more completion across all miners when the
/// submission completed the miner's streak. Challenge, round number and
/// difficulty floor are untouched.
pub open spec fn accepted_round(g: GlobalRound, completed: bool) -> GlobalRound {
    (GlobalRound {
        current_challenge: g.current_challenge,
        round_number: g.round_number,
        started_at: g.started_at,
        min_difficulty: g.min_difficulty,
        total_hashes_submitted: (g.total_hashes_submitted + 1) as u64,
        total_rounds_completed: if completed {
            (g.total_rounds_completed + 1) as u64
        } else {
            g.total_rounds_completed
        },
        admin: g.admin,
    })
}

/// Process one proof submission against the miner's record and the global
/// round.
///
/// The checks run in a fixed order — hash validity, then rate limit, then
/// the difficulty floor, then counter range — and the first failure decides
/// the rejection reason. A rejection leaves both records untouched; an
/// acceptance advances both records as `accepted_miner` and `accepted_round`
/// describe.
pub fn submit_proof(
    miner: &mut Miner,
    global_round: &mut GlobalRound,
    nonce: u64,
    difficulty: u8,
    now: i64,
) -> (result: Result<(), ErrorCode>)
    requires
        old(miner).wf(),
        old(global_round).wf(),
    ensures
        final(miner).wf(),
        final(global_round).wf(),
        result == submit_outcome(*old(miner), *old(global_round), nonce, difficulty, now),
        result == Ok::<(), ErrorCode>(()) <==> submission_accepted(
            *old(miner), *old(global_round), nonce, difficulty, now),
        result is Err ==> *final(miner) == *old(miner) && *final(global_round) == *old(
            global_round),
        result is Ok ==> *final(miner) == accepted_miner(*old(miner), difficulty, now),
        result is Ok ==> *final(global_round) == accepted_round(
            *old(global_round), completes_round(*old(miner))),
        final(miner).authority == old(miner).authority,
        final(miner).total_hashes >= old(miner).total_hashes,
        final(miner).rounds_completed >= old(miner).rounds_completed,
        final(global_round).total_rounds_completed >= old(global_round).total_rounds_completed,
{
    let hash = hash_proof(&miner.authority, &global_round.current_challenge, nonce);
    if !check_difficulty(&hash, difficulty) {
        return Err(ErrorCode::InsufficientDifficulty);
    }
    if now <= miner.last_hash_at {
        return Err(ErrorCode::TooManySubmissions);
    }
    if difficulty < global_round.min_difficulty {
        return Err(ErrorCode::DifficultyTooLow);
    }
    let completes = miner.current_streak + 1 >= STREAK_COMPLETION_THRESHOLD;
    if miner.total_hashes == u64::MAX || global_round.total_hashes_submitted == u64::MAX {
        return Err(ErrorCode::ArithmeticOverflow);
    }
    if completes && (miner.rounds_completed == u32::MAX || global_round.total_rounds_completed
        == u64::MAX) {
        return Err(ErrorCode::ArithmeticOverflow);
    }
    miner.total_hashes = miner.total_hashes + 1;
    miner.last_hash_at = now;
    if difficulty > miner.best_difficulty {
        miner.best_difficulty = difficulty;
    }
    if completes {
        miner.rounds_completed = miner.rounds_completed + 1;
        miner.current_streak = 0;
        global_round.total_rounds_completed = global_round.total_rounds_completed + 1;
    } else {
        miner.current_streak = miner.current_streak + 1;
    }
    global_round.total_hashes_submitted = global_round.total_hashes_submitted + 1;
    Ok(())
}

/// The difficulty floor after a rotation: raised by one when the prior
/// round saw more submissions than the adjustment volume, and never past
/// the cap.
pub open spec fn rotated_min_difficulty(g: GlobalRound) -> u8 {
    if g.total_hashes_submitted > DIFFICULTY_ADJUSTMENT_VOLUME {
        if g.min_difficulty < MAX_MIN_DIFFICULTY {
            (g.min_difficulty + 1) as u8
        } else {
            MAX_MIN_DIFFICULTY
        }
    } else {
        g.min_difficulty
    }
}

/// The outcome of a rotation attempt: only the round's admin may rotate,
/// and an exhausted round counter is fatal.
pub open spec fn rotate_outcome(g: GlobalRound, caller: Seq<u8>) -> Result<(), ErrorCode> {
    if caller != g.admin@ {
        Err(ErrorCode::Unauthorized)
    } else if g.round_number == u64::MAX {
        Err(ErrorCode::ArithmeticOverflow)
    } else {
        Ok(())
    }
}

/// Whether two 32-byte identifiers are the same.
pub fn authority_eq(a: &[u8; 32], b: &[u8; 32]) -> (r: bool)
    ensures
        r <==> a@ == b@,
{
    let mut i: usize = 0;
    while i < 32
        invariant
            0 <= i <= 32,
            forall|j: int| 0 <= j < i ==> a@[j] == b@[j],
        decreases 32 - i,
    {
        if a[i] != b[i] {
            return false;
        }
        i = i + 1;
    }
    proof {
        assert(a@ =~= b@);
    }
    true
}

/// Rotate to a new round: admin-only. Installs a fresh challenge derived
/// from the clock, advances the round number by exactly one, may raise the
/// difficulty floor in reaction to the prior round's volume (one-directional,
/// saturating at the cap), and resets the per-round submission counter.
/// The all-miners completion counter is untouched.
pub fn rotate_round(
    global_round: &mut GlobalRound,
    caller: &[u8; 32],
    now: i64,
    slot: u64,
) -> (result: Result<(), ErrorCode>)
    requires
        old(global_round).wf(),
    ensures
        final(global_round).wf(),
        result == rotate_outcome(*old(global_round), caller@),
        result == Ok::<(), ErrorCode>(()) <==> caller@ == old(global_round).admin@ && old(
            global_round).round_number < u64::MAX,
        result is Err ==> *final(global_round) == *old(global_round),
        result is Ok ==> {
            &&& final(global_round).current_challenge@ == spec_challenge(now, slot)
            &&& final(global_round).round_number == old(global_round).round_number + 1
            &&& final(global_round).started_at == now
            &&& final(global_round).min_difficulty == rotated_min_difficulty(*old(global_round))
            &&& final(global_round).total_hashes_submitted == 0
            &&& final(global_round).total_rounds_completed == old(
                global_round).total_rounds_completed
            &&& final(global_round).admin == old(global_round).admin
        },
        old(global_round).min_difficulty <= final(global_round).min_difficulty
            <= MAX_MIN_DIFFICULTY,
        final(global_round).round_number >= old(global_round).round_number,
{
    if !authority_eq(caller, &global_round.admin) {
        return Err(ErrorCode::Unauthorized);
    }
    if global_round.round_number == u64::MAX {
        return Err(ErrorCode::ArithmeticOverflow);
    }
    global_round.current_challenge = generate_challenge(now, slot);
    global_round.round_number = global_round.round_number + 1;
    global_round.started_at = now;
    if global_round.total_hashes_submitted > DIFFICULTY_ADJUSTMENT_VOLUME {
        if global_round.min_difficulty < MAX_MIN_DIFFICULTY {
            global_round.min_difficulty = global_round.min_difficulty + 1;
        }
    }
    global_round.total_hashes_submitted = 0;
    Ok(())
}

/// Rejections are reported in check order: a submission whose hash misses
/// the claimed difficulty is rejected as `InsufficientDifficulty` even when
/// it also comes too soon after the miner's last accepted proof.
pub proof fn lemma_rejection_order(m: Miner, g: GlobalRound, nonce: u64, difficulty: u8, now: i64)
    requires
        !hash_meets(m, g, nonce, difficulty),
        too_soon(m, now),
    ensures
        submit_outcome(m, g, nonce, difficulty, now) == Err::<(), ErrorCode>(
            ErrorCode::InsufficientDifficulty,
        ),
{
}

/// An accepted submission by a miner whose streak stands at 9 completes a
/// round: the streak resets to 0, the miner's completion counter advances by
/// one, and so does the global completion counter.
pub proof fn lemma_streak_completion(
    m: Miner,
    g: GlobalRound,
    nonce: u64,
    difficulty: u8,
    now: i64,
)
    requires
        m.current_streak == 9,
        submission_accepted(m, g, nonce, difficulty, now),
    ensures
        accepted_miner(m, difficulty, now).current_streak == 0,
        accepted_miner(m, difficulty, now).rounds_completed == m.rounds_completed + 1,
        accepted_round(g, completes_round(m)).total_rounds_completed == g.total_rounds_completed
            + 1,
{
}

/// The difficulty adjustment is one-directional and saturating: a rotation
/// raises the floor by exactly one when the prior round's volume was above
/// the adjustment threshold and the floor is below its cap, never lowers it,
/// and never takes it past the cap.
pub proof fn lemma_difficulty_adjustment_bounds(g: GlobalRound)
    requires
        g.wf(),
    ensures
        g.min_difficulty <= rotated_min_difficulty(g) <= MAX_MIN_DIFFICULTY,
        g.total_hashes_submitted > DIFFICULTY_ADJUSTMENT_VOLUME && g.min_difficulty
            < MAX_MIN_DIFFICULTY ==> rotated_min_difficulty(g) == g.min_difficulty + 1,
        g.total_hashes_submitted <= DIFFICULTY_ADJUSTMENT_VOLUME ==> rotated_min_difficulty(g)
            == g.min_difficulty,
{
}

} // verus!
