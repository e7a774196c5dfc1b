//! Proof-of-work verification core: hash-based difficulty scoring, per-miner
//! and global round bookkeeping, round rotation with dynamic difficulty
//! adjustment, and leaderboard ranking with reward allocation.

pub mod difficulty;
pub mod hashing;
pub mod state;
pub mod mining;
pub mod leaderboard;
pub mod numfmt;
