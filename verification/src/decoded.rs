//! The records of the input files, as decoded, and what turns each into the store's shape.

use crate::error::{rating_out_of_range_text, ErrorKind, IoError};
use crate::models::{
    AdvisorReview as StoredReview, ChallengeType, ChallengeValues, CommunityChoiceChallengeInfo,
    CommunityChoiceChallengeValues, Proposal as StoredProposal, ProposalChallengeInfo,
    SimpleChallengeInfo, SimpleChallengeValues,
};
use vstd::prelude::*;

verus! {

/// A challenge of the challenges input. `id` is the key by which proposals refer to it.
#[derive(Debug, PartialEq, Eq)]
pub struct Challenge {
    pub id: i32,
    pub challenge_type: ChallengeType,
    pub title: String,
    pub description: String,
    pub rewards_total: i64,
    pub proposers_rewards: i64,
    pub fund_id: i32,
    pub challenge_url: String,
    pub highlights: Option<String>,
}

/// A proposal of the proposals input, with the fields of both extensions.
#[derive(Debug, PartialEq, Eq)]
pub struct Proposal {
    pub id: i32,
    pub proposal_id: String,
    pub proposal_category: String,
    pub proposal_title: String,
    pub proposal_summary: String,
    pub proposal_public_key: String,
    pub proposal_funds: i64,
    pub proposal_url: String,
    pub proposal_files_url: String,
    pub proposal_impact_score: i64,
    pub proposer_name: String,
    pub proposer_contact: String,
    pub proposer_url: String,
    pub proposer_relevant_experience: String,
    pub chain_proposal_id: Vec<u8>,
    pub chain_proposal_index: i64,
    pub chain_vote_options: String,
    pub chain_voteplan_id: String,
    pub challenge_id: i32,
    pub proposal_solution: Option<String>,
    pub proposal_brief: Option<String>,
    pub proposal_importance: Option<String>,
    pub proposal_goal: Option<String>,
    pub proposal_metrics: Option<String>,
}

/// A review of the reviews input. Ratings are as wide as the input's integers; the store's
/// columns are narrower.
#[derive(Debug, PartialEq, Eq)]
pub struct AdvisorReview {
    pub id: i32,
    pub proposal_id: i32,
    pub assessor: String,
    pub impact_alignment_rating_given: Option<i64>,
    pub impact_alignment_note: Option<String>,
    pub feasibility_rating_given: Option<i64>,
    pub feasibility_note: Option<String>,
    pub auditability_rating_given: Option<i64>,
    pub auditability_note: Option<String>,
    pub ranking: Option<i64>,
    pub rating_given: Option<i64>,
    pub tag: Option<String>,
    pub note: Option<String>,
}

/// Whether the store's column can hold the rating.
pub open spec fn rating_fits(rating: Option<i64>) -> bool {
    rating matches Some(r) ==> i32::MIN <= r <= i32::MAX
}

/// The rating as the store's column holds it.
pub open spec fn narrowed(rating: Option<i64>) -> Option<i32> {
    match rating {
        Some(r) => Some(r as i32),
        None => None,
    }
}

/// Narrows a rating to the store's column, or reports the rating that does not fit.
pub fn narrow_rating(rating: Option<i64>) -> (r: Result<Option<i32>, IoError>)
    ensures
        rating_fits(rating) ==> r == Ok::<Option<i32>, IoError>(narrowed(rating)),
        !rating_fits(rating) ==> r is Err && r->Err_0.kind == ErrorKind::InvalidData
            && r->Err_0.message@ == rating_out_of_range_text(rating->Some_0 as int),
{
    match rating {
        None => Ok(None),
        Some(value) => {
            if value < -2147483648 || value > 2147483647 {
                Err(IoError::rating_out_of_range(value))
            } else {
                Ok(Some(value as i32))
            }
        },
    }
}

impl Challenge {
    /// The challenge in the store's shape: every field as it is.
    pub open spec fn db_challenge_values(self) -> ChallengeValues {
        ChallengeValues {
            id: self.id,
            challenge_type: self.challenge_type,
            title: self.title,
            description: self.description,
            rewards_total: self.rewards_total,
            proposers_rewards: self.proposers_rewards,
            fund_id: self.fund_id,
            challenge_url: self.challenge_url,
            highlights: self.highlights,
        }
    }

    /// This challenge, referring to the fund `fund_id`.
    pub open spec fn stamped(self, fund_id: i32) -> Challenge {
        Challenge { fund_id, ..self }
    }

    /// Overwrites the fund reference, whatever it was.
    pub fn with_fund_id(self, fund_id: i32) -> (c: Challenge)
        ensures
            c == self.stamped(fund_id),
    {
        let mut c = self;
        c.fund_id = fund_id;
        c
    }

    /// Projects the challenge into the store's shape.
    pub fn into_db_challenge_values(self) -> (v: ChallengeValues)
        ensures
            v == self.db_challenge_values(),
    {
        ChallengeValues {
            id: self.id,
            challenge_type: self.challenge_type,
            title: self.title,
            description: self.description,
            rewards_total: self.rewards_total,
            proposers_rewards: self.proposers_rewards,
            fund_id: self.fund_id,
            challenge_url: self.challenge_url,
            highlights: self.highlights,
        }
    }
}

impl Proposal {
    /// The proposal in the store's shape. It refers to no fund yet: the reference is zero
    /// until the fund's identifier is known.
    pub open spec fn db_proposal(self) -> StoredProposal {
        StoredProposal {
            id: self.id,
            proposal_id: self.proposal_id,
            proposal_category: self.proposal_category,
            proposal_title: self.proposal_title,
            proposal_summary: self.proposal_summary,
            proposal_public_key: self.proposal_public_key,
            proposal_funds: self.proposal_funds,
            proposal_url: self.proposal_url,
            proposal_files_url: self.proposal_files_url,
            proposal_impact_score: self.proposal_impact_score,
            proposer_name: self.proposer_name,
            proposer_contact: self.proposer_contact,
            proposer_url: self.proposer_url,
            proposer_relevant_experience: self.proposer_relevant_experience,
            chain_proposal_id: self.chain_proposal_id,
            chain_proposal_index: self.chain_proposal_index,
            chain_vote_options: self.chain_vote_options,
            chain_voteplan_id: self.chain_voteplan_id,
            challenge_id: self.challenge_id,
            fund_id: 0,
        }
    }

    /// The extension of the proposal under a challenge of the type `challenge_type`: the
    /// fields of that type's extension, and none of the other's.
    pub open spec fn challenge_info(self, challenge_type: ChallengeType) -> ProposalChallengeInfo {
        match challenge_type {
            ChallengeType::Simple => ProposalChallengeInfo::Simple(
                SimpleChallengeInfo { proposal_solution: self.proposal_solution },
            ),
            ChallengeType::CommunityChoice => ProposalChallengeInfo::CommunityChoice(
                CommunityChoiceChallengeInfo {
                    proposal_brief: self.proposal_brief,
                    proposal_importance: self.proposal_importance,
                    proposal_goal: self.proposal_goal,
                    proposal_metrics: self.proposal_metrics,
                },
            ),
        }
    }

    /// The row that the proposal adds to the side table of simple challenges.
    pub open spec fn simple_row(self) -> SimpleChallengeValues {
        SimpleChallengeValues {
            proposal_id: self.proposal_id,
            proposal_solution: self.proposal_solution,
        }
    }

    /// The row that the proposal adds to the side table of community-choice challenges.
    pub open spec fn community_choice_row(self) -> CommunityChoiceChallengeValues {
        CommunityChoiceChallengeValues {
            proposal_id: self.proposal_id,
            proposal_brief: self.proposal_brief,
            proposal_importance: self.proposal_importance,
            proposal_goal: self.proposal_goal,
            proposal_metrics: self.proposal_metrics,
        }
    }

    /// Splits the proposal into the store's record and the extension that the type of its
    /// challenge calls for.
    pub fn into_db_proposal_and_challenge_info(self, challenge_type: ChallengeType) -> (r: (
        StoredProposal,
        ProposalChallengeInfo,
    ))
        ensures
            r.0 == self.db_proposal(),
            r.1 == self.challenge_info(challenge_type),
    {
        let info = match challenge_type {
            ChallengeType::Simple => ProposalChallengeInfo::Simple(
                SimpleChallengeInfo { proposal_solution: self.proposal_solution },
            ),
            ChallengeType::CommunityChoice => ProposalChallengeInfo::CommunityChoice(
                CommunityChoiceChallengeInfo {
                    proposal_brief: self.proposal_brief,
                    proposal_importance: self.proposal_importance,
                    proposal_goal: self.proposal_goal,
                    proposal_metrics: self.proposal_metrics,
                },
            ),
        };
        let proposal = StoredProposal {
            id: self.id,
            proposal_id: self.proposal_id,
            proposal_category: self.proposal_category,
            proposal_title: self.proposal_title,
            proposal_summary: self.proposal_summary,
            proposal_public_key: self.proposal_public_key,
            proposal_funds: self.proposal_funds,
            proposal_url: self.proposal_url,
            proposal_files_url: self.proposal_files_url,
            proposal_impact_score: self.proposal_impact_score,
            proposer_name: self.proposer_name,
            proposer_contact: self.proposer_contact,
            proposer_url: self.proposer_url,
            proposer_relevant_experience: self.proposer_relevant_experience,
            chain_proposal_id: self.chain_proposal_id,
            chain_proposal_index: self.chain_proposal_index,
            chain_vote_options: self.chain_vote_options,
            chain_voteplan_id: self.chain_voteplan_id,
            challenge_id: self.challenge_id,
            fund_id: 0,
        };
        (proposal, info)
    }
}

impl AdvisorReview {
    /// The first rating, in the order of the fields, that the store's column cannot hold.
    pub open spec fn first_unfit_rating(self) -> Option<i64> {
        if !rating_fits(self.impact_alignment_rating_given) {
            self.impact_alignment_rating_given
        } else if !rating_fits(self.feasibility_rating_given) {
            self.feasibility_rating_given
        } else if !rating_fits(self.auditability_rating_given) {
            self.auditability_rating_given
        } else if !rating_fits(self.ranking) {
            self.ranking
        } else if !rating_fits(self.rating_given) {
            self.rating_given
        } else {
            None
        }
    }

    /// Whether the store can hold every rating of the review.
    pub open spec fn convertible(self) -> bool {
        self.first_unfit_rating() is None
    }

    /// The review in the store's shape, every rating narrowed.
    pub open spec fn db_review(self) -> StoredReview {
        StoredReview {
            id: self.id,
            proposal_id: self.proposal_id,
            assessor: self.assessor,
            impact_alignment_rating_given: narrowed(self.impact_alignment_rating_given),
            impact_alignment_note: self.impact_alignment_note,
            feasibility_rating_given: narrowed(self.feasibility_rating_given),
            feasibility_note: self.feasibility_note,
            auditability_rating_given: narrowed(self.auditability_rating_given),
            auditability_note: self.auditability_note,
            ranking: narrowed(self.ranking),
            rating_given: narrowed(self.rating_given),
            tag: self.tag,
            note: self.note,
        }
    }

    /// Converts the review into the store's shape. It fails on the first rating that the
    /// store's column cannot hold.
    pub fn try_into_db(self) -> (r: Result<StoredReview, IoError>)
        ensures
            self.convertible() ==> r == Ok::<StoredReview, IoError>(self.db_review()),
            !self.convertible() ==> r is Err && r->Err_0.kind == ErrorKind::InvalidData
                && r->Err_0.message@ == rating_out_of_range_text(
                self.first_unfit_rating()->Some_0 as int,
            ),
    {
        let impact = match narrow_rating(self.impact_alignment_rating_given) {
            Ok(v) => v,
            Err(e) => {
                return Err(e);
            },
        };
        let feasibility = match narrow_rating(self.feasibility_rating_given) {
            Ok(v) => v,
            Err(e) => {
                return Err(e);
            },
        };
        let auditability = match narrow_rating(self.auditability_rating_given) {
            Ok(v) => v,
            Err(e) => {
                return Err(e);
            },
        };
        let ranking = match narrow_rating(self.ranking) {
            Ok(v) => v,
            Err(e) => {
                return Err(e);
            },
        };
        let rating = match narrow_rating(self.rating_given) {
            Ok(v) => v,
            Err(e) => {
                return Err(e);
            },
        };
        Ok(
            StoredReview {
                id: self.id,
                proposal_id: self.proposal_id,
                assessor: self.assessor,
                impact_alignment_rating_given: impact,
                impact_alignment_note: self.impact_alignment_note,
                feasibility_rating_given: feasibility,
                feasibility_note: self.feasibility_note,
                auditability_rating_given: auditability,
                auditability_note: self.auditability_note,
                ranking,
                rating_given: rating,
                tag: self.tag,
                note: self.note,
            },
        )
    }
}

} // verus!
