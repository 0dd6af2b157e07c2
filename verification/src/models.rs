//! The records of the store, as the importer writes them.

use vstd::prelude::*;

verus! {

/// One voting round. The store assigns `id` when the fund is inserted; whatever the input
/// holds there is not what dependent records refer to.
#[derive(Debug, PartialEq, Eq)]
pub struct Fund {
    pub id: i32,
    pub fund_name: String,
    pub fund_goal: String,
    pub registration_snapshot_time: i64,
    pub next_registration_snapshot_time: i64,
    pub voting_power_threshold: i64,
    pub fund_start_time: i64,
    pub fund_end_time: i64,
    pub next_fund_start_time: i64,
    pub insight_sharing_start: i64,
    pub proposal_submission_start: i64,
    pub refine_proposals_start: i64,
    pub finalize_proposals_start: i64,
    pub proposal_assessment_start: i64,
    pub assessment_qa_start: i64,
    pub snapshot_start: i64,
    pub voting_start: i64,
    pub voting_end: i64,
    pub tallying_end: i64,
    pub results_url: Option<String>,
    pub survey_url: Option<String>,
}

/// A voting-mechanism descriptor, tied to one fund by `fund_id`.
#[derive(Debug, PartialEq, Eq)]
pub struct Voteplan {
    pub id: i32,
    pub chain_voteplan_id: String,
    pub chain_vote_start_time: i64,
    pub chain_vote_end_time: i64,
    pub chain_committee_end_time: i64,
    pub chain_voteplan_payload: String,
    pub chain_vote_encryption_key: String,
    pub fund_id: i32,
}

/// The type tag of a challenge. It decides which extension a proposal of the challenge has.
#[derive(Clone, Copy, Debug, PartialEq, Eq, Structural)]
pub enum ChallengeType {
    Simple,
    CommunityChoice,
}

/// A challenge as the store takes it. `id` is the business key, unique within a fund.
#[derive(Debug, PartialEq, Eq)]
pub struct ChallengeValues {
    pub id: i32,
    pub challenge_type: ChallengeType,
    pub title: String,
    pub description: String,
    pub rewards_total: i64,
    pub proposers_rewards: i64,
    pub fund_id: i32,
    pub challenge_url: String,
    pub highlights: Option<String>,
}

/// A proposal as the store takes it. `challenge_id` is the business key of its challenge.
#[derive(Debug, PartialEq, Eq)]
pub struct Proposal {
    pub id: i32,
    pub proposal_id: String,
    pub proposal_category: String,
    pub proposal_title: String,
    pub proposal_summary: String,
    pub proposal_public_key: String,
    pub proposal_funds: i64,
    pub proposal_url: String,
    pub proposal_files_url: String,
    pub proposal_impact_score: i64,
    pub proposer_name: String,
    pub proposer_contact: String,
    pub proposer_url: String,
    pub proposer_relevant_experience: String,
    pub chain_proposal_id: Vec<u8>,
    pub chain_proposal_index: i64,
    pub chain_vote_options: String,
    pub chain_voteplan_id: String,
    pub challenge_id: i32,
    pub fund_id: i32,
}

/// What a proposal of a simple challenge holds besides the proposal itself.
#[derive(Debug, PartialEq, Eq)]
pub struct SimpleChallengeInfo {
    pub proposal_solution: Option<String>,
}

/// What a proposal of a community-choice challenge holds besides the proposal itself.
#[derive(Debug, PartialEq, Eq)]
pub struct CommunityChoiceChallengeInfo {
    pub proposal_brief: Option<String>,
    pub proposal_importance: Option<String>,
    pub proposal_goal: Option<String>,
    pub proposal_metrics: Option<String>,
}

/// The extension of a proposal: one of two, by the type of the proposal's challenge.
#[derive(Debug, PartialEq, Eq)]
pub enum ProposalChallengeInfo {
    Simple(SimpleChallengeInfo),
    CommunityChoice(CommunityChoiceChallengeInfo),
}

/// A row of the side table for proposals of simple challenges.
#[derive(Debug, PartialEq, Eq)]
pub struct SimpleChallengeValues {
    pub proposal_id: String,
    pub proposal_solution: Option<String>,
}

/// A row of the side table for proposals of community-choice challenges.
#[derive(Debug, PartialEq, Eq)]
pub struct CommunityChoiceChallengeValues {
    pub proposal_id: String,
    pub proposal_brief: Option<String>,
    pub proposal_importance: Option<String>,
    pub proposal_goal: Option<String>,
    pub proposal_metrics: Option<String>,
}

/// A community assessment of one proposal, as the store takes it.
#[derive(Debug, PartialEq, Eq)]
pub struct AdvisorReview {
    pub id: i32,
    pub proposal_id: i32,
    pub assessor: String,
    pub impact_alignment_rating_given: Option<i32>,
    pub impact_alignment_note: Option<String>,
    pub feasibility_rating_given: Option<i32>,
    pub feasibility_note: Option<String>,
    pub auditability_rating_given: Option<i32>,
    pub auditability_note: Option<String>,
    pub ranking: Option<i32>,
    pub rating_given: Option<i32>,
    pub tag: Option<String>,
    pub note: Option<String>,
}

/// A named objective of one fund.
#[derive(Debug, PartialEq, Eq)]
pub struct InsertGoal {
    pub goal_name: String,
    pub fund_id: i32,
}

/// A cast vote. `time_bits` is the bit pattern of the single-precision time of the vote.
#[derive(Debug, PartialEq, Eq)]
pub struct Vote {
    pub fragment_id: String,
    pub caster: String,
    pub proposal: i32,
    pub voteplan_id: String,
    pub time_bits: u32,
    pub choice: Option<i16>,
    pub raw_fragment: String,
}

/// A cast vote as the store takes it, column by column.
#[derive(Debug, PartialEq, Eq)]
pub struct VoteValues {
    pub fragment_id: String,
    pub caster: String,
    pub proposal: i32,
    pub voteplan_id: String,
    pub time_bits: u32,
    pub choice: Option<i16>,
    pub raw_fragment: String,
}

impl ChallengeType {
    /// The tag as the store writes it.
    pub open spec fn tag(self) -> Seq<char> {
        match self {
            ChallengeType::Simple => "simple"@,
            ChallengeType::CommunityChoice => "community-choice"@,
        }
    }

    /// The tag as the store writes it.
    pub fn as_str(&self) -> (s: &'static str)
        ensures
            s@ == self.tag(),
    {
        match self {
            ChallengeType::Simple => "simple",
            ChallengeType::CommunityChoice => "community-choice",
        }
    }
}

impl Voteplan {
    /// This voteplan, referring to the fund `fund_id`.
    pub open spec fn stamped(self, fund_id: i32) -> Voteplan {
        Voteplan { fund_id, ..self }
    }

    /// Overwrites the fund reference, whatever it was.
    pub fn with_fund_id(self, fund_id: i32) -> (v: Voteplan)
        ensures
            v == self.stamped(fund_id),
    {
        let mut v = self;
        v.fund_id = fund_id;
        v
    }
}

impl Proposal {
    /// This proposal, referring to the fund `fund_id`.
    pub open spec fn stamped(self, fund_id: i32) -> Proposal {
        Proposal { fund_id, ..self }
    }

    /// Overwrites the fund reference, whatever it was.
    pub fn with_fund_id(self, fund_id: i32) -> (p: Proposal)
        ensures
            p == self.stamped(fund_id),
    {
        let mut p = self;
        p.fund_id = fund_id;
        p
    }
}

impl InsertGoal {
    /// This goal, referring to the fund `fund_id`.
    pub open spec fn stamped(self, fund_id: i32) -> InsertGoal {
        InsertGoal { fund_id, ..self }
    }

    /// Overwrites the fund reference, whatever it was.
    pub fn with_fund_id(self, fund_id: i32) -> (g: InsertGoal)
        ensures
            g == self.stamped(fund_id),
    {
        let mut g = self;
        g.fund_id = fund_id;
        g
    }
}

impl SimpleChallengeInfo {
    /// The side-table row of the proposal `proposal_id`.
    pub open spec fn sql_values(self, proposal_id: String) -> SimpleChallengeValues {
        SimpleChallengeValues { proposal_id, proposal_solution: self.proposal_solution }
    }

    /// The side-table row of the proposal `proposal_id`.
    pub fn to_sql_values_with_proposal_id(self, proposal_id: &String) -> (row:
        SimpleChallengeValues)
        ensures
            row == self.sql_values(*proposal_id),
    {
        SimpleChallengeValues {
            proposal_id: proposal_id.clone(),
            proposal_solution: self.proposal_solution,
        }
    }
}

impl CommunityChoiceChallengeInfo {
    /// The side-table row of the proposal `proposal_id`.
    pub open spec fn sql_values(self, proposal_id: String) -> CommunityChoiceChallengeValues {
        CommunityChoiceChallengeValues {
            proposal_id,
            proposal_brief: self.proposal_brief,
            proposal_importance: self.proposal_importance,
            proposal_goal: self.proposal_goal,
            proposal_metrics: self.proposal_metrics,
        }
    }

    /// The side-table row of the proposal `proposal_id`.
    pub fn to_sql_values_with_proposal_id(self, proposal_id: &String) -> (row:
        CommunityChoiceChallengeValues)
        ensures
            row == self.sql_values(*proposal_id),
    {
        CommunityChoiceChallengeValues {
            proposal_id: proposal_id.clone(),
            proposal_brief: self.proposal_brief,
            proposal_importance: self.proposal_importance,
            proposal_goal: self.proposal_goal,
            proposal_metrics: self.proposal_metrics,
        }
    }
}

impl Vote {
    /// The vote, column by column.
    pub open spec fn column_values(self) -> VoteValues {
        VoteValues {
            fragment_id: self.fragment_id,
            caster: self.caster,
            proposal: self.proposal,
            voteplan_id: self.voteplan_id,
            time_bits: self.time_bits,
            choice: self.choice,
            raw_fragment: self.raw_fragment,
        }
    }

    /// The vote, column by column.
    pub fn values(self) -> (v: VoteValues)
        ensures
            v == self.column_values(),
    {
        VoteValues {
            fragment_id: self.fragment_id,
            caster: self.caster,
            proposal: self.proposal,
            voteplan_id: self.voteplan_id,
            time_bits: self.time_bits,
            choice: self.choice,
            raw_fragment: self.raw_fragment,
        }
    }
}

} // verus!
