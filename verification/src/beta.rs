//! The beta programme: who was onboarded, and what they said.

use vstd::prelude::*;
use crate::clock::now_timestamp;
use crate::cohort::{expanded, new_member, CohortManager, CohortMemberView, CohortStatistics, statistics_of};
use crate::fixed::{divide, quotient};
use crate::strmap::StrMap;
use crate::types::UserProfile;

verus! {

/// How many users the beta is to reach.
pub const BETA_TARGET: usize = 500;

/// What a piece of feedback is.
#[derive(Clone, Copy, Debug, PartialEq, Eq, Structural, Hash)]
pub enum FeedbackType {
    FeatureRequest,
    BugReport,
    UsabilityIssue,
    PositiveFeedback,
    General,
}

/// A piece of feedback. Ratings go from 1 to 10.
#[derive(Debug)]
pub struct BetaFeedback {
    pub user_id: String,
    pub feedback_type: FeedbackType,
    pub content: String,
    pub rating: Option<u8>,
    pub timestamp: i64,
}

impl Clone for BetaFeedback {
    fn clone(&self) -> (r: Self)
        ensures
            r == *self,
    {
        BetaFeedback {
            user_id: self.user_id.clone(),
            feedback_type: self.feedback_type,
            content: self.content.clone(),
            rating: self.rating,
            timestamp: self.timestamp,
        }
    }
}

/// Figures on the feedback. The mean rating is fixed-point.
#[derive(Clone, Debug)]
pub struct FeedbackSummary {
    pub total_feedback: usize,
    pub avg_rating: i64,
    pub feedback_by_type: StrMap<usize>,
    pub total_beta_users: usize,
}

/// The name of a kind of feedback.
pub open spec fn feedback_type_text(kind: FeedbackType) -> Seq<char> {
    match kind {
        FeedbackType::FeatureRequest => "FeatureRequest"@,
        FeedbackType::BugReport => "BugReport"@,
        FeedbackType::UsabilityIssue => "UsabilityIssue"@,
        FeedbackType::PositiveFeedback => "PositiveFeedback"@,
        FeedbackType::General => "General"@,
    }
}

/// The kinds of feedback, in the order in which a summary lists them.
pub open spec fn feedback_types() -> Seq<FeedbackType> {
    seq![
        FeedbackType::FeatureRequest,
        FeedbackType::BugReport,
        FeedbackType::UsabilityIssue,
        FeedbackType::PositiveFeedback,
        FeedbackType::General,
    ]
}

/// The profiles that simulated users of the beta take in turn.
pub open spec fn beta_profiles() -> Seq<UserProfile> {
    seq![UserProfile::Developer, UserProfile::Accountant, UserProfile::Designer]
}

/// The sum of the ratings among the first `n` pieces of feedback.
pub open spec fn rating_sum(feedback: Seq<BetaFeedback>, n: int) -> int
    decreases n,
{
    if n <= 0 {
        0
    } else {
        rating_sum(feedback, n - 1) + match feedback[n - 1].rating {
            Some(rating) => rating as int,
            None => 0,
        }
    }
}

/// How many of the first `n` pieces of feedback are of the kind given.
pub open spec fn type_count(feedback: Seq<BetaFeedback>, kind: FeedbackType, n: int) -> int
    decreases n,
{
    if n <= 0 {
        0
    } else {
        type_count(feedback, kind, n - 1) + if feedback[n - 1].feedback_type == kind {
            1int
        } else {
            0int
        }
    }
}

/// The mean rating: the sum of the ratings by the number of all pieces of
/// feedback, rated or not; zero where there is no feedback.
pub open spec fn mean_rating(feedback: Seq<BetaFeedback>) -> int {
    if feedback.len() > 0 {
        quotient(rating_sum(feedback, feedback.len() as int), feedback.len() as int)
    } else {
        0
    }
}

/// The counts by kind that a summary holds, over the first `k` kinds: each
/// kind that occurs stands under its name with its count.
pub open spec fn counts_by_type(feedback: Seq<BetaFeedback>, k: int) -> Map<Seq<char>, usize>
    decreases k,
{
    if k <= 0 {
        Map::empty()
    } else {
        let earlier = counts_by_type(feedback, k - 1);
        let kind = feedback_types()[k - 1];
        let count = type_count(feedback, kind, feedback.len() as int);
        if count > 0 {
            earlier.insert(feedback_type_text(kind), count as usize)
        } else {
            earlier
        }
    }
}

/// The name of a kind of feedback.
pub fn feedback_type_name(kind: FeedbackType) -> (r: &'static str)
    ensures
        r@ == feedback_type_text(kind),
{
    match kind {
        FeedbackType::FeatureRequest => "FeatureRequest",
        FeedbackType::BugReport => "BugReport",
        FeedbackType::UsabilityIssue => "UsabilityIssue",
        FeedbackType::PositiveFeedback => "PositiveFeedback",
        FeedbackType::General => "General",
    }
}

/// Brings users into the beta and collects what they say.
pub struct BetaOnboardingManager {
    cohort_manager: CohortManager,
    feedback: Vec<BetaFeedback>,
    onboarding_complete: StrMap<bool>,
}

impl BetaOnboardingManager {
    /// The cohort of the beta.
    pub closed spec fn cohort(&self) -> CohortManager {
        self.cohort_manager
    }

    /// The feedback, oldest first.
    pub closed spec fn feedback(&self) -> Seq<BetaFeedback> {
        self.feedback@
    }

    /// For each user, whether onboarding is complete.
    pub closed spec fn onboarded(&self) -> Map<Seq<char>, bool> {
        self.onboarding_complete@
    }

    /// A manager with an empty cohort that is to reach five hundred, and no
    /// feedback.
    pub fn new() -> (r: Self)
        ensures
            r.cohort()@ == Map::<Seq<char>, CohortMemberView>::empty(),
            r.cohort().member_ids() == Seq::<Seq<char>>::empty(),
            r.cohort().target() == BETA_TARGET,
            r.feedback() == Seq::<BetaFeedback>::empty(),
            r.onboarded() == Map::<Seq<char>, bool>::empty(),
    {
        BetaOnboardingManager {
            cohort_manager: CohortManager::new(BETA_TARGET),
            feedback: Vec::new(),
            onboarding_complete: StrMap::new(),
        }
    }

    /// How many pieces of feedback there are.
    pub fn feedback_count(&self) -> (n: usize)
        ensures
            n == self.feedback().len(),
    {
        self.feedback.len()
    }

    /// Whether onboarding is complete for `user_id`.
    pub fn is_onboarded(&self, user_id: &str) -> (r: bool)
        ensures
            r == (self.onboarded().contains_key(user_id@) && self.onboarded()[user_id@]),
    {
        match self.onboarding_complete.get(user_id) {
            Some(done) => *done,
            None => false,
        }
    }

    /// Onboards a user as if the clock read `now`.
    pub fn onboard_user_at(&mut self, user_id: String, profile: UserProfile, now: i64)
        ensures
            final(self).cohort()@ == old(self).cohort()@.insert(
                user_id@,
                new_member(user_id@, profile, now),
            ),
            final(self).cohort().member_ids() == crate::strmap::placed_keys(
                old(self).cohort().member_ids(),
                user_id@,
            ),
            final(self).cohort().target() == old(self).cohort().target(),
            final(self).onboarded() == old(self).onboarded().insert(user_id@, true),
            final(self).feedback() == old(self).feedback(),
    {
        self.cohort_manager.add_member_at(user_id.clone(), profile, now);
        self.onboarding_complete.insert(user_id, true);
    }

    /// Adds a user to the cohort and marks onboarding as complete.
    pub fn onboard_user(&mut self, user_id: String, profile: UserProfile)
        ensures
            exists|now: i64|
                final(self).cohort()@ == old(self).cohort()@.insert(
                    user_id@,
                    #[trigger] new_member(user_id@, profile, now),
                ),
            final(self).cohort().member_ids() == crate::strmap::placed_keys(
                old(self).cohort().member_ids(),
                user_id@,
            ),
            final(self).cohort().target() == old(self).cohort().target(),
            final(self).onboarded() == old(self).onboarded().insert(user_id@, true),
            final(self).feedback() == old(self).feedback(),
    {
        let now = now_timestamp();
        self.onboard_user_at(user_id, profile, now);
    }

    /// Fills the cohort up to its target with simulated developers,
    /// accountants and designers in turn.
    pub fn simulate_beta_onboarding(&mut self)
        ensures
            final(self).cohort().target() == old(self).cohort().target(),
            exists|now: i64|
                (final(self).cohort()@, final(self).cohort().member_ids()) == #[trigger] expanded(
                    old(self).cohort()@,
                    old(self).cohort().member_ids(),
                    old(self).cohort().target() as int,
                    beta_profiles(),
                    now,
                    old(self).cohort().member_ids().len() as int,
                ),
            final(self).onboarded() == old(self).onboarded(),
            final(self).feedback() == old(self).feedback(),
    {
        let profiles = [UserProfile::Developer, UserProfile::Accountant, UserProfile::Designer];
        assert(profiles@ =~= beta_profiles());
        self.cohort_manager.simulate_expansion(profiles.as_slice());
    }

    /// Notes a piece of feedback as if the clock read `now`.
    pub fn collect_feedback_at(
        &mut self,
        user_id: String,
        feedback_type: FeedbackType,
        content: String,
        rating: Option<u8>,
        now: i64,
    )
        ensures
            final(self).feedback() == old(self).feedback().push(
                BetaFeedback { user_id, feedback_type, content, rating, timestamp: now },
            ),
            final(self).cohort() == old(self).cohort(),
            final(self).onboarded() == old(self).onboarded(),
    {
        self.feedback.push(BetaFeedback { user_id, feedback_type, content, rating, timestamp: now });
    }

    /// Notes a piece of feedback, stamped with the time the clock reads.
    pub fn collect_feedback(
        &mut self,
        user_id: String,
        feedback_type: FeedbackType,
        content: String,
        rating: Option<u8>,
    )
        ensures
            final(self).feedback().len() == old(self).feedback().len() + 1,
            final(self).feedback().drop_last() == old(self).feedback(),
            final(self).feedback().last().user_id == user_id,
            final(self).feedback().last().feedback_type == feedback_type,
            final(self).feedback().last().content == content,
            final(self).feedback().last().rating == rating,
            final(self).cohort() == old(self).cohort(),
            final(self).onboarded() == old(self).onboarded(),
    {
        let now = now_timestamp();
        self.collect_feedback_at(user_id, feedback_type, content, rating, now);
        assert(self.feedback().drop_last() =~= old(self).feedback());
    }

    fn count_of(&self, kind: FeedbackType) -> (n: usize)
        ensures
            n == type_count(self.feedback(), kind, self.feedback().len() as int),
    {
        let mut n: usize = 0;
        let mut i: usize = 0;
        while i < self.feedback.len()
            invariant
                i <= self.feedback.len(),
                n == type_count(self.feedback(), kind, i as int),
                n <= i,
            decreases self.feedback.len() - i,
        {
            if self.feedback[i].feedback_type == kind {
                n += 1;
            }
            i += 1;
        }
        n
    }

    /// The figures on the feedback: how much there is, the mean rating, the
    /// counts by kind, and the number of users in the cohort.
    pub fn get_feedback_summary(&self) -> (r: FeedbackSummary)
        ensures
            r.total_feedback == self.feedback().len(),
            r.avg_rating == mean_rating(self.feedback()),
            r.feedback_by_type@ == counts_by_type(self.feedback(), 5),
            r.total_beta_users == self.cohort().member_ids().len(),
    {
        let total_feedback = self.feedback.len();
        let mut sum: u128 = 0;
        let mut i: usize = 0;
        while i < total_feedback
            invariant
                i <= total_feedback,
                total_feedback == self.feedback().len(),
                sum == rating_sum(self.feedback(), i as int),
                sum <= 255 * i,
            decreases total_feedback - i,
        {
            match self.feedback[i].rating {
                Some(rating) => {
                    sum = sum + (rating as u128);
                },
                None => {},
            }
            i += 1;
        }
        let avg_rating = if total_feedback > 0 {
            divide(sum as i128, total_feedback as i128)
        } else {
            0
        };
        let kinds = [
            FeedbackType::FeatureRequest,
            FeedbackType::BugReport,
            FeedbackType::UsabilityIssue,
            FeedbackType::PositiveFeedback,
            FeedbackType::General,
        ];
        assert(kinds@ =~= feedback_types());
        let mut feedback_by_type: StrMap<usize> = StrMap::new();
        let mut k: usize = 0;
        while k < 5
            invariant
                k <= 5,
                kinds@ == feedback_types(),
                feedback_by_type@ == counts_by_type(self.feedback(), k as int),
            decreases 5 - k,
        {
            let kind = kinds[k];
            let count = self.count_of(kind);
            if count > 0 {
                feedback_by_type.insert(feedback_type_name(kind).to_string(), count);
            }
            k += 1;
        }
        FeedbackSummary {
            total_feedback,
            avg_rating,
            feedback_by_type,
            total_beta_users: self.cohort_manager.get_statistics().total_members,
        }
    }

    /// The figures on the cohort.
    pub fn get_cohort_stats(&self) -> (r: CohortStatistics)
        ensures
            r == statistics_of(self.cohort().member_list(), self.cohort().target()),
    {
        self.cohort_manager.get_statistics()
    }
}

impl Default for BetaOnboardingManager {
    fn default() -> (r: Self)
        ensures
            r.cohort()@ == Map::<Seq<char>, CohortMemberView>::empty(),
            r.cohort().member_ids() == Seq::<Seq<char>>::empty(),
            r.cohort().target() == BETA_TARGET,
            r.feedback() == Seq::<BetaFeedback>::empty(),
            r.onboarded() == Map::<Seq<char>, bool>::empty(),
    {
        BetaOnboardingManager::new()
    }
}

} // verus!
