use vstd::prelude::*;

verus! {

/// A contributor's identity: an opaque key that can be compared and ordered.
pub type ContributorId = u64;

/// Reputation tier levels determining contributor status and benefits.
#[derive(Clone, Copy, Debug, PartialEq, Eq, Structural, PartialOrd, Ord, Hash)]
pub enum ReputationTier {
    /// 0-99 points
    Bronze,
    /// 100-499 points
    Silver,
    /// 500-1499 points
    Gold,
    /// 1500-4999 points
    Platinum,
    /// 5000+ points
    Diamond,
}

/// Events that trigger reputation changes.
#[derive(Clone, Copy, Debug, PartialEq, Eq, Structural, Hash)]
pub enum ReputationEvent {
    /// Task completed successfully; the value is its complexity (1-5).
    TaskCompleted,
    /// Milestone reached; the value is its significance (1-5).
    MilestoneAchieved,
    /// Won a dispute.
    DisputeWon,
    /// Lost a dispute.
    DisputeLost,
    /// Task failed or cancelled.
    TaskFailed,
    /// A point penalty for inactivity; the value is the number of idle periods.
    TimeDecay,
    /// A one-off bonus for a high success rate; the value is that rate (0-100).
    /// When recorded, the bonus is added to the stored score for good: it is
    /// never applied to the tier alone.
    SuccessRateBonus,
}

/// Achievement (badge) definition.
#[derive(Clone, Debug, PartialEq, Eq)]
pub struct Achievement {
    /// Unique achievement identifier, assigned in order from 1.
    pub id: u64,
    /// Achievement name.
    pub name: String,
    /// Detailed description.
    pub description: String,
    /// Reputation points awarded, once.
    pub points: u32,
    /// Criteria for earning, for people to read (e.g. "Complete 10 tasks").
    pub criteria: String,
    /// Minimum tasks required.
    pub min_tasks: u32,
    /// Minimum success rate (0-100).
    pub min_success_rate: u32,
}

/// Contributor reputation profile with full tracking.
#[derive(Clone, Debug, PartialEq, Eq)]
pub struct ReputationProfile {
    /// Contributor identity.
    pub address: ContributorId,
    /// Current reputation score.
    pub score: u32,
    /// Current reputation tier, always the tier of `score`.
    pub tier: ReputationTier,
    /// Total tasks completed.
    pub tasks_completed: u32,
    /// Total tasks failed.
    pub tasks_failed: u32,
    /// Success rate (0-100).
    pub success_rate: u32,
    /// Achievements earned (by achievement id), each at most once.
    pub achievements: Vec<u64>,
    /// Time of the last processed event or decay application (seconds).
    pub last_activity: u64,
    /// Creation time (seconds).
    pub created_at: u64,
    /// Disputes won.
    pub disputes_won: u32,
    /// Disputes lost.
    pub disputes_lost: u32,
    /// Milestones completed.
    pub milestones_completed: u32,
}

/// What a profile holds, with its achievements as a sequence.
pub struct ProfileView {
    pub address: ContributorId,
    pub score: u32,
    pub tier: ReputationTier,
    pub tasks_completed: u32,
    pub tasks_failed: u32,
    pub success_rate: u32,
    pub achievements: Seq<u64>,
    pub last_activity: u64,
    pub created_at: u64,
    pub disputes_won: u32,
    pub disputes_lost: u32,
    pub milestones_completed: u32,
}

impl View for ReputationProfile {
    type V = ProfileView;

    open spec fn view(&self) -> ProfileView {
        ProfileView {
            address: self.address,
            score: self.score,
            tier: self.tier,
            tasks_completed: self.tasks_completed,
            tasks_failed: self.tasks_failed,
            success_rate: self.success_rate,
            achievements: self.achievements@,
            last_activity: self.last_activity,
            created_at: self.created_at,
            disputes_won: self.disputes_won,
            disputes_lost: self.disputes_lost,
            milestones_completed: self.milestones_completed,
        }
    }
}

/// Notice that a reputation profile was initialized.
#[derive(Clone, Copy, Debug, PartialEq, Eq, Structural)]
pub struct ProfileInitializedEvent {
    pub address: ContributorId,
    pub initial_score: u32,
    pub tier: ReputationTier,
    pub timestamp: u64,
}

/// Notice that a reputation score changed.
#[derive(Clone, Copy, Debug, PartialEq, Eq, Structural)]
pub struct ReputationUpdatedEvent {
    pub address: ContributorId,
    pub event_type: ReputationEvent,
    pub old_score: u32,
    pub new_score: u32,
    pub old_tier: ReputationTier,
    pub new_tier: ReputationTier,
    pub timestamp: u64,
}

/// Notice that an achievement was awarded.
#[derive(Clone, Debug, PartialEq, Eq)]
pub struct AchievementAwardedEvent {
    pub address: ContributorId,
    pub achievement_id: u64,
    pub achievement_name: String,
    pub points_awarded: u32,
    pub timestamp: u64,
}

/// Notice that a reputation tier changed, in either direction.
#[derive(Clone, Copy, Debug, PartialEq, Eq, Structural)]
pub struct TierUpgradedEvent {
    pub address: ContributorId,
    pub old_tier: ReputationTier,
    pub new_tier: ReputationTier,
    pub current_score: u32,
    pub timestamp: u64,
}

/// A notice for outside observers, published by a reputation operation.
#[derive(Clone, Debug, PartialEq, Eq)]
pub enum Notice {
    ProfileInitialized(ProfileInitializedEvent),
    ReputationUpdated(ReputationUpdatedEvent),
    AchievementAwarded(AchievementAwardedEvent),
    TierChanged(TierUpgradedEvent),
}

/// Errors of the reputation operations.
#[derive(Clone, Copy, Debug, PartialEq, Eq, Structural)]
pub enum ReputationError {
    /// A query named a contributor that has no profile.
    ProfileNotFound,
    /// A profile was initialized twice.
    ProfileAlreadyExists,
}

} // verus!
