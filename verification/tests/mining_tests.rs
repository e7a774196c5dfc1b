use testore::difficulty::check_difficulty;
use testore::hashing::hash_proof;
use testore::mining::{rotate_round, submit_proof};
use testore::state::{initialize_global_round, initialize_miner, ErrorCode, GlobalRound, Miner};

const ADMIN: [u8; 32] = [7u8; 32];

fn fresh_round() -> GlobalRound {
    initialize_global_round(ADMIN, 1_700_000_000, 99)
}

fn fresh_miner(authority: [u8; 32]) -> Miner {
    initialize_miner(authority, 1_700_000_000)
}

/// Search for a nonce whose proof hash meets the given difficulty.
fn find_valid_nonce(miner: &Miner, round: &GlobalRound, difficulty: u8) -> u64 {
    let mut nonce = 0u64;
    loop {
        let hash = hash_proof(&miner.authority, &round.current_challenge, nonce);
        if check_difficulty(&hash, difficulty) {
            return nonce;
        }
        nonce += 1;
        assert!(nonce < 10_000_000, "no valid nonce found in range");
    }
}

#[test]
fn test_accepted_submission_updates_both_records() {
    let round0 = fresh_round();
    let miner0 = fresh_miner([1u8; 32]);
    let nonce = find_valid_nonce(&miner0, &round0, 8);

    let mut miner = miner0;
    let mut round = round0;
    let now = 1_700_000_005;
    let result = submit_proof(&mut miner, &mut round, nonce, 8, now);
    assert_eq!(result, Ok(()));
    assert_eq!(miner.total_hashes, 1);
    assert_eq!(miner.current_streak, 1);
    assert_eq!(miner.rounds_completed, 0);
    assert_eq!(miner.last_hash_at, now);
    assert_eq!(miner.best_difficulty, 8);
    assert_eq!(round.total_hashes_submitted, 1);
    assert_eq!(round.total_rounds_completed, 0);
}

#[test]
fn test_too_many_submissions() {
    // A submission half a second after the last accepted one falls in the
    // same one-second window and is rejected, however good the hash is:
    // claimed difficulty 0 is met by every hash.
    let mut round = fresh_round();
    let mut miner = fresh_miner([2u8; 32]);
    let t = miner.last_hash_at;
    let result = submit_proof(&mut miner, &mut round, 4242, 0, t);
    assert_eq!(result, Err(ErrorCode::TooManySubmissions));
    assert_eq!(miner.total_hashes, 0);
    assert_eq!(round.total_hashes_submitted, 0);
}

#[test]
fn test_rejection_order_difficulty_before_rate() {
    // Both violated: the hash misses the claimed difficulty AND the
    // submission is too soon. The difficulty check comes first.
    let round0 = fresh_round();
    let miner0 = fresh_miner([3u8; 32]);

    // Find a nonce whose hash does NOT meet difficulty 32
    let mut nonce = 0u64;
    loop {
        let hash = hash_proof(&miner0.authority, &round0.current_challenge, nonce);
        if !check_difficulty(&hash, 32) {
            break;
        }
        nonce += 1;
    }

    let mut miner = miner0;
    let mut round = round0;
    let t = miner.last_hash_at;
    let result = submit_proof(&mut miner, &mut round, nonce, 32, t);
    assert_eq!(result, Err(ErrorCode::InsufficientDifficulty));
}

#[test]
fn test_difficulty_too_low() {
    // Claimed difficulty 0 is met by every hash and the timing is fine, but
    // 0 is below the round's floor of 8.
    let mut round = fresh_round();
    let mut miner = fresh_miner([4u8; 32]);
    let now = miner.last_hash_at + 5;
    let result = submit_proof(&mut miner, &mut round, 1, 0, now);
    assert_eq!(result, Err(ErrorCode::DifficultyTooLow));
    assert_eq!(miner.total_hashes, 0);
}

#[test]
fn test_streak_completion() {
    // At streak 9, an accepted submission completes a round: the streak
    // resets and both completion counters advance by one.
    let round0 = fresh_round();
    let miner0 = fresh_miner([5u8; 32]);
    let nonce = find_valid_nonce(&miner0, &round0, 8);

    let mut miner = miner0;
    let mut round = round0;
    miner.current_streak = 9;
    round.total_rounds_completed = 3;
    miner.rounds_completed = 1;

    let now = miner.last_hash_at + 2;
    let result = submit_proof(&mut miner, &mut round, nonce, 8, now);
    assert_eq!(result, Ok(()));
    assert_eq!(miner.current_streak, 0);
    assert_eq!(miner.rounds_completed, 2);
    assert_eq!(round.total_rounds_completed, 4);
}

#[test]
fn test_submission_overflow_is_fatal_and_mutates_nothing() {
    let round0 = fresh_round();
    let miner0 = fresh_miner([6u8; 32]);
    let nonce = find_valid_nonce(&miner0, &round0, 8);

    let mut miner = miner0;
    let mut round = round0;
    miner.total_hashes = u64::MAX;
    let now = miner.last_hash_at + 2;
    let result = submit_proof(&mut miner, &mut round, nonce, 8, now);
    assert_eq!(result, Err(ErrorCode::ArithmeticOverflow));
    assert_eq!(miner.total_hashes, u64::MAX);
    assert_eq!(miner.current_streak, 0);
    assert_eq!(round.total_hashes_submitted, 0);
}

#[test]
fn test_rotate_round_unauthorized() {
    let mut round = fresh_round();
    let not_admin = [8u8; 32];
    let before_number = round.round_number;
    let result = rotate_round(&mut round, &not_admin, 1_700_000_100, 100);
    assert_eq!(result, Err(ErrorCode::Unauthorized));
    assert_eq!(round.round_number, before_number);
}

#[test]
fn test_rotate_round_advances_and_resets() {
    let mut round = fresh_round();
    round.total_hashes_submitted = 500;
    let old_challenge = round.current_challenge;
    let result = rotate_round(&mut round, &ADMIN, 1_700_000_100, 100);
    assert_eq!(result, Ok(()));
    assert_eq!(round.round_number, 2);
    assert_eq!(round.started_at, 1_700_000_100);
    assert_eq!(round.total_hashes_submitted, 0);
    assert_eq!(round.min_difficulty, 8); // volume too low for an adjustment
    assert_ne!(round.current_challenge, old_challenge);
}

#[test]
fn test_difficulty_adjustment_saturates() {
    // Above a million submissions the floor rises by one per rotation and
    // saturates at 16, never past it.
    let mut round = fresh_round();
    assert_eq!(round.min_difficulty, 8);

    round.total_hashes_submitted = 1_000_001;
    let result = rotate_round(&mut round, &ADMIN, 1_700_000_100, 100);
    assert_eq!(result, Ok(()));
    assert_eq!(round.min_difficulty, 9);
    assert_eq!(round.total_hashes_submitted, 0);

    for i in 0..20 {
        round.total_hashes_submitted = 1_000_001;
        let result = rotate_round(&mut round, &ADMIN, 1_700_000_200 + i, 101);
        assert_eq!(result, Ok(()));
        assert!(round.min_difficulty <= 16);
    }
    assert_eq!(round.min_difficulty, 16);

    // Exactly at the threshold, no adjustment happens
    round.total_hashes_submitted = 1_000_000;
    let before = round.min_difficulty;
    rotate_round(&mut round, &ADMIN, 1_700_001_000, 102).unwrap();
    assert_eq!(round.min_difficulty, before);
}

#[test]
fn test_rotate_round_counter_exhausted() {
    let mut round = fresh_round();
    round.round_number = u64::MAX;
    let result = rotate_round(&mut round, &ADMIN, 1_700_000_100, 100);
    assert_eq!(result, Err(ErrorCode::ArithmeticOverflow));
    assert_eq!(round.round_number, u64::MAX);
}

#[test]
fn test_initialize_records() {
    let round = fresh_round();
    assert_eq!(round.round_number, 1);
    assert_eq!(round.min_difficulty, 8);
    assert_eq!(round.total_hashes_submitted, 0);
    assert_eq!(round.total_rounds_completed, 0);
    assert_eq!(round.admin, ADMIN);

    let miner = fresh_miner([9u8; 32]);
    assert_eq!(miner.authority, [9u8; 32]);
    assert_eq!(miner.total_hashes, 0);
    assert_eq!(miner.rounds_completed, 0);
    assert_eq!(miner.current_streak, 0);
    assert_eq!(miner.best_difficulty, 0);
    assert_eq!(miner.last_hash_at, 1_700_000_000);
}
