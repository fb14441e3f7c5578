//! Contributor reputation: scores from work events, tiers, time decay,
//! achievements and per-group leaderboards, with every rule proved.

pub mod achievements;
pub mod leaderboard;
pub mod profile;
pub mod scoring;
pub mod storage;
pub mod system;
pub mod types;

pub use storage::{take_notices, ReputationStore};
pub use system::{
    apply_time_decay, award_achievement, calculate_multiplier, check_achievement_eligibility,
    get_achievements, get_reputation, get_tier, get_top_contributors_for_guild,
    initialize_profile, initialize_reputation_system, update_guild_leaderboard,
    update_reputation,
};
pub use types::{
    Achievement, ContributorId, Notice, ReputationError, ReputationEvent, ReputationProfile,
    ReputationTier,
};
