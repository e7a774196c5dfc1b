use testore::leaderboard::{
    allocation_tokens, calculate_allocations, parse_miner_account, rank_leaderboard,
    sort_leaderboard, LeaderboardEntry,
};
use testore::numfmt::format_number;

#[test]
fn test_airdrop_allocation() {
    const TOKENS_PER_MILLION: u64 = 100;

    // 100K hashes = 0 tokens (below 1M threshold)
    let hashes_1 = 100_000;
    let tokens_1 = (hashes_1 / 1_000_000) * TOKENS_PER_MILLION;
    assert_eq!(tokens_1, 0);

    // 1M hashes = 100 tokens
    let hashes_2 = 1_000_000;
    let tokens_2 = (hashes_2 / 1_000_000) * TOKENS_PER_MILLION;
    assert_eq!(tokens_2, 100);

    // 10M hashes = 1000 tokens
    let hashes_3 = 10_000_000;
    let tokens_3 = (hashes_3 / 1_000_000) * TOKENS_PER_MILLION;
    assert_eq!(tokens_3, 1000);
}

#[test]
fn test_allocation_tokens_formula() {
    assert_eq!(allocation_tokens(100_000), 0);
    assert_eq!(allocation_tokens(999_999), 0);
    assert_eq!(allocation_tokens(1_000_000), 100);
    assert_eq!(allocation_tokens(1_999_999), 100);
    assert_eq!(allocation_tokens(10_000_000), 1000);
    assert_eq!(allocation_tokens(u64::MAX), (u64::MAX / 1_000_000) * 100);
}

fn entry(id: u8, total_hashes: u64, rounds_completed: u32) -> LeaderboardEntry {
    LeaderboardEntry { pubkey: [id; 32], total_hashes, rounds_completed, best_difficulty: 0 }
}

#[test]
fn test_calculate_allocations_filters_and_orders() {
    let board = vec![
        entry(1, 10_000_000, 5), // 1000 tokens
        entry(2, 100_000, 9),    // below a whole million: no allocation
        entry(3, 1_000_000, 2),  // 100 tokens
        entry(4, 0, 0),          // nothing
    ];
    let allocs = calculate_allocations(&board);
    assert_eq!(allocs.len(), 2);
    assert_eq!(allocs[0].pubkey, [1u8; 32]);
    assert_eq!(allocs[0].tokens, 1000);
    assert_eq!(allocs[1].pubkey, [3u8; 32]);
    assert_eq!(allocs[1].tokens, 100);
}

#[test]
fn test_sort_and_rank_leaderboard() {
    let board = vec![
        entry(1, 50, 1),
        entry(2, 200, 0),
        entry(3, 50, 7), // same total as entry 1, more rounds: ranks higher
        entry(4, 1000, 2),
    ];
    let sorted = sort_leaderboard(&board);
    let ids: Vec<u8> = sorted.iter().map(|e| e.pubkey[0]).collect();
    assert_eq!(ids, vec![4, 2, 3, 1]);

    let top = rank_leaderboard(&board, 2);
    assert_eq!(top.len(), 2);
    assert_eq!(top[0].pubkey[0], 4);
    assert_eq!(top[1].pubkey[0], 2);

    // A limit beyond the input keeps everything
    let all = rank_leaderboard(&board, 10);
    assert_eq!(all.len(), 4);
}

#[test]
fn test_parse_miner_account_layout() {
    // discriminator 8 | authority 32 | total_hashes 8 | rounds 4 |
    // last_hash 8 | streak 4 | best_difficulty 1 | bump 1
    let mut data = vec![0u8; 66];
    for i in 0..32 {
        data[8 + i] = 0xAB;
    }
    data[40..48].copy_from_slice(&12_345_678u64.to_le_bytes());
    data[48..52].copy_from_slice(&77u32.to_le_bytes());
    data[64] = 13;

    let parsed = parse_miner_account(&data).expect("long enough to parse");
    assert_eq!(parsed.pubkey, [0xAB; 32]);
    assert_eq!(parsed.total_hashes, 12_345_678);
    assert_eq!(parsed.rounds_completed, 77);
    assert_eq!(parsed.best_difficulty, 13);

    // Too short to hold the layout
    let short = vec![0u8; 65];
    assert!(parse_miner_account(&short).is_none());
}

#[test]
fn test_format_number() {
    assert_eq!(format_number(0), "0");
    assert_eq!(format_number(7), "7");
    assert_eq!(format_number(100), "100");
    assert_eq!(format_number(1_000), "1,000");
    assert_eq!(format_number(1_234_567), "1,234,567");
    assert_eq!(format_number(1_000_000_000), "1,000,000,000");
    assert_eq!(format_number(u64::MAX), "18,446,744,073,709,551,615");
}
