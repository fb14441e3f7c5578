use reputation::{
    award_achievement, check_achievement_eligibility, get_reputation, get_tier,
    get_top_contributors_for_guild, initialize_reputation_system, update_guild_leaderboard,
    update_reputation, ReputationEvent, ReputationTier,
};

const NOW: u64 = 0;

#[test]
fn test_bounty_completion_reputation_flow() {
    let mut env = initialize_reputation_system();
    let contributor = 7u64;
    let guild_id = 1u64;

    update_reputation(&mut env, contributor, ReputationEvent::TaskCompleted, 3, NOW);

    let profile = get_reputation(&mut env, contributor, NOW).unwrap();
    assert_eq!(profile.tasks_completed, 1);
    assert_eq!(profile.score, 30);

    update_guild_leaderboard(&mut env, guild_id, contributor, NOW);

    let top = get_top_contributors_for_guild(&env, guild_id, 10);
    assert_eq!(top.len(), 1);
    assert_eq!(top[0], contributor);
}

#[test]
fn test_milestone_completion_reputation_flow() {
    let mut env = initialize_reputation_system();
    let contributor = 7u64;
    let guild_id = 1u64;

    update_reputation(&mut env, contributor, ReputationEvent::MilestoneAchieved, 5, NOW);

    let profile = get_reputation(&mut env, contributor, NOW).unwrap();
    assert_eq!(profile.milestones_completed, 1);
    assert_eq!(profile.score, 100);

    update_guild_leaderboard(&mut env, guild_id, contributor, NOW);
}

#[test]
fn test_combined_bounty_milestone_flow() {
    let mut env = initialize_reputation_system();
    let contributor = 7u64;
    let guild_id = 1u64;

    for i in 1..=5 {
        update_reputation(&mut env, contributor, ReputationEvent::TaskCompleted, i, NOW);
    }
    update_reputation(&mut env, contributor, ReputationEvent::MilestoneAchieved, 3, NOW);
    update_reputation(&mut env, contributor, ReputationEvent::MilestoneAchieved, 4, NOW);

    let profile = get_reputation(&mut env, contributor, NOW).unwrap();

    assert_eq!(profile.score, 290);
    assert_eq!(profile.tasks_completed, 5);
    assert_eq!(profile.milestones_completed, 2);
    assert_eq!(get_tier(&mut env, contributor, NOW), ReputationTier::Silver);

    update_guild_leaderboard(&mut env, guild_id, contributor, NOW);
}

#[test]
fn test_dispute_resolution_flow() {
    let mut env = initialize_reputation_system();
    let contributor = 7u64;

    for _ in 0..5 {
        update_reputation(&mut env, contributor, ReputationEvent::TaskCompleted, 3, NOW);
    }

    let profile_before = get_reputation(&mut env, contributor, NOW).unwrap();
    assert_eq!(profile_before.score, 150);

    update_reputation(&mut env, contributor, ReputationEvent::DisputeWon, 0, NOW);

    let profile_after_win = get_reputation(&mut env, contributor, NOW).unwrap();
    assert_eq!(profile_after_win.score, 155);
    assert_eq!(profile_after_win.disputes_won, 1);

    update_reputation(&mut env, contributor, ReputationEvent::DisputeLost, 0, NOW);

    let profile_after_loss = get_reputation(&mut env, contributor, NOW).unwrap();
    assert_eq!(profile_after_loss.score, 135);
    assert_eq!(profile_after_loss.disputes_lost, 1);
}

#[test]
fn test_task_failure_impact() {
    let mut env = initialize_reputation_system();
    let contributor = 7u64;
    let guild_id = 1u64;

    for _ in 0..9 {
        update_reputation(&mut env, contributor, ReputationEvent::TaskCompleted, 3, NOW);
    }

    let profile_before_failure = get_reputation(&mut env, contributor, NOW).unwrap();
    assert_eq!(profile_before_failure.tasks_completed, 9);
    assert_eq!(profile_before_failure.success_rate, 100);

    update_reputation(&mut env, contributor, ReputationEvent::TaskFailed, 0, NOW);

    let profile_after_failure = get_reputation(&mut env, contributor, NOW).unwrap();
    assert_eq!(profile_after_failure.tasks_completed, 9);
    assert_eq!(profile_after_failure.tasks_failed, 1);
    assert_eq!(profile_after_failure.success_rate, 90);

    update_guild_leaderboard(&mut env, guild_id, contributor, NOW);
}

#[test]
fn test_achievement_award_on_task_milestones() {
    let mut env = initialize_reputation_system();
    let contributor = 7u64;

    update_reputation(&mut env, contributor, ReputationEvent::TaskCompleted, 1, NOW);

    assert_eq!(check_achievement_eligibility(&mut env, contributor, 1, NOW), true);

    let awarded = award_achievement(&mut env, contributor, 1, NOW);
    assert_eq!(awarded, true);

    let profile = get_reputation(&mut env, contributor, NOW).unwrap();
    assert_eq!(profile.achievements.len(), 1);

    for _ in 0..9 {
        update_reputation(&mut env, contributor, ReputationEvent::TaskCompleted, 2, NOW);
    }

    assert_eq!(check_achievement_eligibility(&mut env, contributor, 2, NOW), true);

    let awarded = award_achievement(&mut env, contributor, 2, NOW);
    assert_eq!(awarded, true);

    let profile = get_reputation(&mut env, contributor, NOW).unwrap();
    assert_eq!(profile.achievements.len(), 2);
}

#[test]
fn test_multi_guild_leaderboard() {
    let mut env = initialize_reputation_system();
    let contributor1 = 1u64;
    let contributor2 = 2u64;
    let contributor3 = 3u64;
    let guild_1 = 1u64;
    let guild_2 = 2u64;

    update_reputation(&mut env, contributor1, ReputationEvent::TaskCompleted, 5, NOW);
    update_guild_leaderboard(&mut env, guild_1, contributor1, NOW);

    update_reputation(&mut env, contributor2, ReputationEvent::TaskCompleted, 3, NOW);
    update_guild_leaderboard(&mut env, guild_1, contributor2, NOW);

    update_reputation(&mut env, contributor3, ReputationEvent::TaskCompleted, 4, NOW);
    update_guild_leaderboard(&mut env, guild_2, contributor3, NOW);

    let guild1_top = get_top_contributors_for_guild(&env, guild_1, 10);
    assert_eq!(guild1_top.len(), 2);

    let guild2_top = get_top_contributors_for_guild(&env, guild_2, 10);
    assert_eq!(guild2_top.len(), 1);
    assert_eq!(guild2_top[0], contributor3);
}

#[test]
fn test_tier_upgrade_during_bounty_completion() {
    let mut env = initialize_reputation_system();
    let contributor = 7u64;

    assert_eq!(get_tier(&mut env, contributor, NOW), ReputationTier::Bronze);

    for _ in 0..4 {
        update_reputation(&mut env, contributor, ReputationEvent::TaskCompleted, 5, NOW);
    }
    assert_eq!(get_tier(&mut env, contributor, NOW), ReputationTier::Silver);

    for _ in 0..16 {
        update_reputation(&mut env, contributor, ReputationEvent::TaskCompleted, 5, NOW);
    }
    assert_eq!(get_tier(&mut env, contributor, NOW), ReputationTier::Gold);
}

#[test]
fn test_contributor_progress_tracking() {
    let mut env = initialize_reputation_system();
    let contributor = 7u64;
    let guild_id = 1u64;

    for i in 1..=3 {
        update_reputation(&mut env, contributor, ReputationEvent::TaskCompleted, i, NOW);
    }
    for i in 1..=2 {
        update_reputation(&mut env, contributor, ReputationEvent::MilestoneAchieved, i, NOW);
    }
    for i in 1..=2 {
        update_reputation(&mut env, contributor, ReputationEvent::TaskCompleted, i + 3, NOW);
    }

    let profile = get_reputation(&mut env, contributor, NOW).unwrap();
    assert_eq!(profile.tasks_completed, 5);
    assert_eq!(profile.milestones_completed, 2);
    assert_eq!(profile.success_rate, 100);

    update_guild_leaderboard(&mut env, guild_id, contributor, NOW);

    let top = get_top_contributors_for_guild(&env, guild_id, 10);
    assert!(top.len() > 0);
}

#[test]
fn test_perfect_record_achievement() {
    let mut env = initialize_reputation_system();
    let contributor = 7u64;

    for _ in 0..10 {
        update_reputation(&mut env, contributor, ReputationEvent::TaskCompleted, 2, NOW);
    }

    let profile = get_reputation(&mut env, contributor, NOW).unwrap();
    assert_eq!(profile.tasks_completed, 10);
    assert_eq!(profile.success_rate, 100);

    assert_eq!(check_achievement_eligibility(&mut env, contributor, 4, NOW), true);
}

#[test]
fn test_reputation_consistency() {
    let mut env = initialize_reputation_system();
    let contributor = 7u64;
    let guild_id = 1u64;

    for _ in 0..5 {
        update_reputation(&mut env, contributor, ReputationEvent::TaskCompleted, 3, NOW);
        update_guild_leaderboard(&mut env, guild_id, contributor, NOW);
    }

    let profile1 = get_reputation(&mut env, contributor, NOW).unwrap();

    for _ in 0..3 {
        update_reputation(&mut env, contributor, ReputationEvent::MilestoneAchieved, 2, NOW);
        update_guild_leaderboard(&mut env, guild_id, contributor, NOW);
    }

    let profile2 = get_reputation(&mut env, contributor, NOW).unwrap();

    assert!(profile2.score > profile1.score);
    assert_eq!(profile2.tasks_completed, profile1.tasks_completed);
    assert_eq!(profile2.milestones_completed, 3);
}
