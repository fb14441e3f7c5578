use reputation::{
    award_achievement, calculate_multiplier, check_achievement_eligibility, get_achievements,
    get_reputation, get_tier, get_top_contributors_for_guild, initialize_profile,
    initialize_reputation_system, update_guild_leaderboard, update_reputation, ReputationError,
    ReputationEvent, ReputationStore, ReputationTier,
};

const NOW: u64 = 0;

fn setup() -> ReputationStore {
    initialize_reputation_system()
}

// ============ Profile initialization ============

#[test]
fn test_initialize_new_profile() {
    let mut env = setup();
    let address = 1u64;

    let profile = initialize_profile(&mut env, address, NOW).unwrap();

    assert_eq!(profile.address, address);
    assert_eq!(profile.score, 0);
    assert_eq!(profile.tier, ReputationTier::Bronze);
    assert_eq!(profile.tasks_completed, 0);
    assert_eq!(profile.tasks_failed, 0);
    assert_eq!(profile.success_rate, 100);
    assert_eq!(profile.achievements.len(), 0);
    assert_eq!(profile.disputes_won, 0);
    assert_eq!(profile.disputes_lost, 0);
    assert_eq!(profile.milestones_completed, 0);
}

#[test]
fn test_initialize_duplicate_profile() {
    let mut env = setup();
    let address = 1u64;

    assert!(initialize_profile(&mut env, address, NOW).is_ok());
    assert_eq!(
        initialize_profile(&mut env, address, NOW).unwrap_err(),
        ReputationError::ProfileAlreadyExists
    );
}

// ============ Task completion ============

#[test]
fn test_task_completion_simple() {
    let mut env = setup();
    let address = 1u64;

    let score = update_reputation(&mut env, address, ReputationEvent::TaskCompleted, 1, NOW);
    assert_eq!(score, 10);

    let profile = get_reputation(&mut env, address, NOW).unwrap();
    assert_eq!(profile.tasks_completed, 1);
    assert_eq!(profile.success_rate, 100);
}

#[test]
fn test_task_completion_complex() {
    let mut env = setup();
    let address = 1u64;

    let score = update_reputation(&mut env, address, ReputationEvent::TaskCompleted, 5, NOW);
    assert_eq!(score, 50); // 10 * 5

    let profile = get_reputation(&mut env, address, NOW).unwrap();
    assert_eq!(profile.tasks_completed, 1);
}

#[test]
fn test_multiple_task_completions() {
    let mut env = setup();
    let address = 1u64;

    update_reputation(&mut env, address, ReputationEvent::TaskCompleted, 1, NOW); // +10
    update_reputation(&mut env, address, ReputationEvent::TaskCompleted, 2, NOW); // +20
    update_reputation(&mut env, address, ReputationEvent::TaskCompleted, 3, NOW); // +30
    update_reputation(&mut env, address, ReputationEvent::TaskCompleted, 4, NOW); // +40
    let final_score = update_reputation(&mut env, address, ReputationEvent::TaskCompleted, 5, NOW); // +50

    assert_eq!(final_score, 150);

    let profile = get_reputation(&mut env, address, NOW).unwrap();
    assert_eq!(profile.tasks_completed, 5);
    assert_eq!(profile.tier, ReputationTier::Silver);
}

// ============ Task failure ============

#[test]
fn test_task_failure() {
    let mut env = setup();
    let address = 1u64;

    update_reputation(&mut env, address, ReputationEvent::TaskCompleted, 3, NOW); // +30
    let score = update_reputation(&mut env, address, ReputationEvent::TaskFailed, 0, NOW); // -10
    assert_eq!(score, 20);

    let profile = get_reputation(&mut env, address, NOW).unwrap();
    assert_eq!(profile.tasks_completed, 1);
    assert_eq!(profile.tasks_failed, 1);
    assert_eq!(profile.success_rate, 50);
}

#[test]
fn test_reputation_cannot_go_below_zero() {
    let mut env = setup();
    let address = 1u64;

    update_reputation(&mut env, address, ReputationEvent::TaskCompleted, 3, NOW);
    update_reputation(&mut env, address, ReputationEvent::TaskFailed, 0, NOW);
    update_reputation(&mut env, address, ReputationEvent::TaskFailed, 0, NOW);
    update_reputation(&mut env, address, ReputationEvent::TaskFailed, 0, NOW);
    let final_score = update_reputation(&mut env, address, ReputationEvent::TaskFailed, 0, NOW);

    assert_eq!(final_score, 0);

    let profile = get_reputation(&mut env, address, NOW).unwrap();
    assert_eq!(profile.score, 0);
}

// ============ Tier progression ============

#[test]
fn test_tier_progression_bronze_to_silver() {
    let mut env = setup();
    let address = 1u64;

    assert_eq!(get_tier(&mut env, address, NOW), ReputationTier::Bronze);
    for _ in 0..4 {
        update_reputation(&mut env, address, ReputationEvent::TaskCompleted, 5, NOW);
    }
    assert_eq!(get_tier(&mut env, address, NOW), ReputationTier::Silver);
}

#[test]
fn test_tier_progression_to_gold() {
    let mut env = setup();
    let address = 1u64;

    for _ in 0..10 {
        update_reputation(&mut env, address, ReputationEvent::TaskCompleted, 5, NOW);
    }
    assert_eq!(get_tier(&mut env, address, NOW), ReputationTier::Gold);

    let profile = get_reputation(&mut env, address, NOW).unwrap();
    assert_eq!(profile.score, 500);
}

#[test]
fn test_tier_progression_to_platinum() {
    let mut env = setup();
    let address = 1u64;

    for _ in 0..30 {
        update_reputation(&mut env, address, ReputationEvent::TaskCompleted, 5, NOW);
    }
    assert_eq!(get_tier(&mut env, address, NOW), ReputationTier::Platinum);

    let profile = get_reputation(&mut env, address, NOW).unwrap();
    assert_eq!(profile.score, 1500);
}

#[test]
fn test_tier_progression_to_diamond() {
    let mut env = setup();
    let address = 1u64;

    for _ in 0..100 {
        update_reputation(&mut env, address, ReputationEvent::TaskCompleted, 5, NOW);
    }
    assert_eq!(get_tier(&mut env, address, NOW), ReputationTier::Diamond);

    let profile = get_reputation(&mut env, address, NOW).unwrap();
    assert_eq!(profile.score, 5000);
}

// ============ Milestones ============

#[test]
fn test_milestone_achievement() {
    let mut env = setup();
    let address = 1u64;

    let score = update_reputation(&mut env, address, ReputationEvent::MilestoneAchieved, 3, NOW);
    assert_eq!(score, 60); // 20 * 3

    let profile = get_reputation(&mut env, address, NOW).unwrap();
    assert_eq!(profile.milestones_completed, 1);
}

#[test]
fn test_multiple_milestones() {
    let mut env = setup();
    let address = 1u64;

    for i in 1..=5 {
        update_reputation(&mut env, address, ReputationEvent::MilestoneAchieved, i, NOW);
    }

    let profile = get_reputation(&mut env, address, NOW).unwrap();
    assert_eq!(profile.milestones_completed, 5);
    assert_eq!(profile.score, 300);
}

// ============ Disputes ============

#[test]
fn test_dispute_won() {
    let mut env = setup();
    let address = 1u64;

    let score = update_reputation(&mut env, address, ReputationEvent::DisputeWon, 0, NOW);
    assert_eq!(score, 5);

    let profile = get_reputation(&mut env, address, NOW).unwrap();
    assert_eq!(profile.disputes_won, 1);
}

#[test]
fn test_dispute_lost() {
    let mut env = setup();
    let address = 1u64;

    update_reputation(&mut env, address, ReputationEvent::TaskCompleted, 5, NOW); // +50
    let score = update_reputation(&mut env, address, ReputationEvent::DisputeLost, 0, NOW);
    assert_eq!(score, 30); // 50 - 20

    let profile = get_reputation(&mut env, address, NOW).unwrap();
    assert_eq!(profile.disputes_lost, 1);
}

// ============ Success rate ============

#[test]
fn test_success_rate_perfect() {
    let mut env = setup();
    let address = 1u64;

    for _ in 0..10 {
        update_reputation(&mut env, address, ReputationEvent::TaskCompleted, 1, NOW);
    }

    let profile = get_reputation(&mut env, address, NOW).unwrap();
    assert_eq!(profile.success_rate, 100);
}

#[test]
fn test_success_rate_mixed() {
    let mut env = setup();
    let address = 1u64;

    for _ in 0..8 {
        update_reputation(&mut env, address, ReputationEvent::TaskCompleted, 1, NOW);
    }
    for _ in 0..2 {
        update_reputation(&mut env, address, ReputationEvent::TaskFailed, 0, NOW);
    }

    let profile = get_reputation(&mut env, address, NOW).unwrap();
    assert_eq!(profile.success_rate, 80);
}

// ============ Incentive multipliers ============

#[test]
fn test_incentive_multiplier_bronze() {
    let mut env = setup();
    let address = 1u64;

    initialize_profile(&mut env, address, NOW).unwrap();

    let multiplier = calculate_multiplier(&mut env, address, NOW);
    assert_eq!(multiplier, 100);
}

#[test]
fn test_incentive_multiplier_silver() {
    let mut env = setup();
    let address = 1u64;

    for _ in 0..4 {
        update_reputation(&mut env, address, ReputationEvent::TaskCompleted, 5, NOW);
    }

    let multiplier = calculate_multiplier(&mut env, address, NOW);
    assert_eq!(multiplier, 110);
}

#[test]
fn test_incentive_multiplier_gold() {
    let mut env = setup();
    let address = 1u64;

    for _ in 0..10 {
        update_reputation(&mut env, address, ReputationEvent::TaskCompleted, 5, NOW);
    }

    let multiplier = calculate_multiplier(&mut env, address, NOW);
    assert_eq!(multiplier, 125);
}

#[test]
fn test_incentive_multiplier_platinum() {
    let mut env = setup();
    let address = 1u64;

    for _ in 0..30 {
        update_reputation(&mut env, address, ReputationEvent::TaskCompleted, 5, NOW);
    }

    let multiplier = calculate_multiplier(&mut env, address, NOW);
    assert_eq!(multiplier, 150);
}

#[test]
fn test_incentive_multiplier_diamond() {
    let mut env = setup();
    let address = 1u64;

    for _ in 0..100 {
        update_reputation(&mut env, address, ReputationEvent::TaskCompleted, 5, NOW);
    }

    let multiplier = calculate_multiplier(&mut env, address, NOW);
    assert_eq!(multiplier, 200);
}

// ============ Achievements ============

#[test]
fn test_award_first_task_achievement() {
    let mut env = setup();
    let address = 1u64;

    update_reputation(&mut env, address, ReputationEvent::TaskCompleted, 1, NOW);

    let awarded = award_achievement(&mut env, address, 1, NOW);
    assert_eq!(awarded, true);

    let achievements = get_achievements(&mut env, address, NOW);
    assert_eq!(achievements.len(), 1);

    let profile = get_reputation(&mut env, address, NOW).unwrap();
    assert_eq!(profile.achievements.len(), 1);
}

#[test]
fn test_cannot_award_same_achievement_twice() {
    let mut env = setup();
    let address = 1u64;

    update_reputation(&mut env, address, ReputationEvent::TaskCompleted, 1, NOW);
    award_achievement(&mut env, address, 1, NOW);

    let awarded = award_achievement(&mut env, address, 1, NOW);
    assert_eq!(awarded, false);
}

#[test]
fn test_check_achievement_eligibility() {
    let mut env = setup();
    let address = 1u64;

    assert_eq!(check_achievement_eligibility(&mut env, address, 1, NOW), false);

    update_reputation(&mut env, address, ReputationEvent::TaskCompleted, 1, NOW);

    assert_eq!(check_achievement_eligibility(&mut env, address, 1, NOW), true);
}

#[test]
fn test_achievement_adds_reputation_points() {
    let mut env = setup();
    let address = 1u64;

    update_reputation(&mut env, address, ReputationEvent::TaskCompleted, 1, NOW);

    let profile_before = get_reputation(&mut env, address, NOW).unwrap();
    let score_before = profile_before.score;

    award_achievement(&mut env, address, 1, NOW);

    let profile_after = get_reputation(&mut env, address, NOW).unwrap();
    assert_eq!(profile_after.score, score_before + 10);
}

// ============ Leaderboard ============

#[test]
fn test_update_leaderboard() {
    let mut env = setup();
    let guild_id = 1u64;
    let address1 = 1u64;
    let address2 = 2u64;
    let address3 = 3u64;

    update_reputation(&mut env, address1, ReputationEvent::TaskCompleted, 5, NOW); // 50
    update_reputation(&mut env, address2, ReputationEvent::TaskCompleted, 10, NOW); // 10: level 10 counts as 1
    update_reputation(&mut env, address3, ReputationEvent::TaskCompleted, 3, NOW); // 30

    update_guild_leaderboard(&mut env, guild_id, address1, NOW);
    update_guild_leaderboard(&mut env, guild_id, address2, NOW);
    update_guild_leaderboard(&mut env, guild_id, address3, NOW);

    let top = get_top_contributors_for_guild(&env, guild_id, 3);

    assert_eq!(top.len(), 3);
    assert_eq!(top[0], address1);
    assert_eq!(top[1], address3);
    assert_eq!(top[2], address2); // Lowest score
}

#[test]
fn test_leaderboard_limit() {
    let mut env = setup();
    let guild_id = 1u64;

    for i in 0..5u64 {
        let addr = i + 1;
        update_reputation(&mut env, addr, ReputationEvent::TaskCompleted, (i + 1) as u32, NOW);
        update_guild_leaderboard(&mut env, guild_id, addr, NOW);
    }

    let top = get_top_contributors_for_guild(&env, guild_id, 3);
    assert_eq!(top.len(), 3);
}

// ============ Lifecycle ============

#[test]
fn test_full_contributor_lifecycle() {
    let mut env = setup();
    let address = 1u64;

    initialize_profile(&mut env, address, NOW).unwrap();
    assert_eq!(get_tier(&mut env, address, NOW), ReputationTier::Bronze);

    for _ in 0..10 {
        update_reputation(&mut env, address, ReputationEvent::TaskCompleted, 3, NOW);
    }

    assert_eq!(get_tier(&mut env, address, NOW), ReputationTier::Silver);

    let profile = get_reputation(&mut env, address, NOW).unwrap();
    assert_eq!(profile.tasks_completed, 10);
    assert_eq!(profile.score, 300);

    let awarded = award_achievement(&mut env, address, 2, NOW);
    assert_eq!(awarded, true);

    let achievements = get_achievements(&mut env, address, NOW);
    assert_eq!(achievements.len(), 1);
}

#[test]
fn test_reputation_with_mixed_events() {
    let mut env = setup();
    let address = 1u64;

    for _ in 0..5 {
        update_reputation(&mut env, address, ReputationEvent::TaskCompleted, 2, NOW);
    }
    update_reputation(&mut env, address, ReputationEvent::MilestoneAchieved, 3, NOW);
    update_reputation(&mut env, address, ReputationEvent::MilestoneAchieved, 4, NOW);
    update_reputation(&mut env, address, ReputationEvent::DisputeWon, 0, NOW);
    update_reputation(&mut env, address, ReputationEvent::TaskFailed, 0, NOW);

    let profile = get_reputation(&mut env, address, NOW).unwrap();

    assert_eq!(profile.tasks_completed, 5);
    assert_eq!(profile.tasks_failed, 1);
    assert_eq!(profile.milestones_completed, 2);
    assert_eq!(profile.disputes_won, 1);
    assert_eq!(profile.score, 235);
    assert_eq!(profile.success_rate, 83);
}
