//! Whole runs of the full load: what the store has taken after any sequence of answers.

use crate::envelope::{law_import_runs_inside, GuardedModel, Phase, PipelineModel};
use crate::error::{challenge_not_found_text, ErrorKind, ErrorView, IoErrorView};
use crate::load::{lemma_step_well_formed, LoadAllModel};
use crate::loaders::decoded_file;
use crate::resolve::{first_missing_challenge, resolvable};
use crate::models::{
    AdvisorReview, ChallengeValues, CommunityChoiceChallengeValues, Fund, InsertGoal, Proposal,
    SimpleChallengeValues, Voteplan,
};
use crate::protocol::{Reply, Request};
use vstd::prelude::*;

verus! {

/// One write that the store has taken.
pub enum Write {
    Fund(Fund),
    Voteplans(Seq<Voteplan>),
    Proposals(Seq<Proposal>),
    SimpleChallengeData(Seq<SimpleChallengeValues>),
    CommunityChoiceChallengeData(Seq<CommunityChoiceChallengeValues>),
    Challenges(Seq<ChallengeValues>),
    AdvisorReviews(Seq<AdvisorReview>),
    Goals(Seq<InsertGoal>),
}

impl LoadAllModel {
    /// What the store takes when the driver answers `reply`: the pending insert, where
    /// the answer says that it went through.
    pub open spec fn written(self, reply: Reply) -> Option<Write> {
        match (self.pending, reply) {
            (Request::InsertFund(index), Reply::FundId(_)) => if index < self.funds.len() {
                Some(Write::Fund(self.funds[index as int]))
            } else {
                None
            },
            (Request::InsertVoteplans, Reply::Done) => Some(Write::Voteplans(self.voteplans)),
            (Request::InsertProposals, Reply::Done) => Some(Write::Proposals(self.proposals)),
            (Request::InsertSimpleChallengeData, Reply::Done) => Some(
                Write::SimpleChallengeData(self.simple),
            ),
            (Request::InsertCommunityChoiceChallengeData, Reply::Done) => Some(
                Write::CommunityChoiceChallengeData(self.community_choice),
            ),
            (Request::InsertChallenges, Reply::Done) => Some(
                Write::Challenges(self.challenge_values),
            ),
            (Request::InsertAdvisorReviews, Reply::Done) => Some(
                Write::AdvisorReviews(self.reviews),
            ),
            (Request::InsertGoals, Reply::Done) => Some(Write::Goals(self.goals)),
            _ => None,
        }
    }

    /// Everything that the store has taken, in order, after the driver's answers
    /// `replies`.
    pub open spec fn journal(self, replies: Seq<Reply>) -> Seq<Write>
        decreases replies.len(),
    {
        if replies.len() == 0 {
            Seq::empty()
        } else {
            let before = self.journal(replies.drop_last());
            match self.run(replies.drop_last()).written(replies.last()) {
                Some(write) => before.push(write),
                None => before,
            }
        }
    }

    /// The writes of a load that goes through, in their order: every fund, the current
    /// one first, then voteplans, proposals, the two side tables, challenges, reviews and
    /// goals.
    pub open spec fn batch(self) -> Seq<Write> {
        self.funds.map_values(|f: Fund| Write::Fund(f)) + seq![
            Write::Voteplans(self.voteplans),
            Write::Proposals(self.proposals),
            Write::SimpleChallengeData(self.simple),
            Write::CommunityChoiceChallengeData(self.community_choice),
            Write::Challenges(self.challenge_values),
            Write::AdvisorReviews(self.reviews),
            Write::Goals(self.goals),
        ]
    }

    /// How many writes the store has taken when the session waits for `pending`, once
    /// the current fund is in.
    pub open spec fn progress(self) -> int {
        match self.pending {
            Request::InsertFund(index) => index as int,
            Request::InsertVoteplans => self.funds.len() as int,
            Request::InsertProposals => (self.funds.len() + 1) as int,
            Request::InsertSimpleChallengeData => (self.funds.len() + 2) as int,
            Request::InsertCommunityChoiceChallengeData => (self.funds.len() + 3) as int,
            Request::InsertChallenges => (self.funds.len() + 4) as int,
            Request::InsertAdvisorReviews => (self.funds.len() + 5) as int,
            Request::InsertGoals => (self.funds.len() + 6) as int,
            _ => (self.funds.len() + 7) as int,
        }
    }

    /// What holds of a session and the journal of its run, whatever the driver answered:
    /// the journal is a beginning of the batch, as long as the pending request says.
    pub open spec fn consistent(self, journal: Seq<Write>) -> bool {
        &&& self.well_formed()
        &&& journal.len() <= self.batch().len()
        &&& journal == self.batch().take(journal.len() as int)
        &&& self.fund_id is None ==> journal.len() == 0
        &&& self.fund_id is Some ==> journal.len() > 0
        &&& self.fund_id is Some && self.outcome is None ==> journal.len() == self.progress()
        &&& self.outcome == Some(Ok::<(), ErrorView>(())) ==> journal.len() == self.batch().len()
    }
}

/// One answer keeps a session and its journal consistent.
pub proof fn lemma_step_consistent(s: LoadAllModel, journal: Seq<Write>, reply: Reply)
    requires
        s.consistent(journal),
    ensures
        s.step(reply).consistent(
            match s.written(reply) {
                Some(write) => journal.push(write),
                None => journal,
            },
        ),
{
    lemma_step_well_formed(s, reply);
    let next = s.step(reply);
    let grown = match s.written(reply) {
        Some(write) => journal.push(write),
        None => journal,
    };
    let funds = s.funds.map_values(|f: Fund| Write::Fund(f));
    assert(s.batch().len() == s.funds.len() + 7);
    match reply {
        Reply::FundId(fund_id) => {
            match s.pending {
                Request::InsertFund(index) => {
                    assert(funds[index as int] == Write::Fund(s.funds[index as int]));
                    if index == 0 {
                        assert(next.batch().len() == s.funds.len() + 7);
                        assert(next.batch()[0] == funds[0]);
                        assert(grown =~= next.batch().take(1));
                    } else {
                        assert(next.batch() == s.batch());
                        assert(s.batch()[index as int] == funds[index as int]);
                        assert(grown =~= s.batch().take(index + 1));
                    }
                },
                _ => {},
            }
        },
        Reply::Done => {
            if s.written(reply) is Some {
                assert(next.batch() == s.batch());
                let at = journal.len() as int;
                let tail = seq![
                    Write::Voteplans(s.voteplans),
                    Write::Proposals(s.proposals),
                    Write::SimpleChallengeData(s.simple),
                    Write::CommunityChoiceChallengeData(s.community_choice),
                    Write::Challenges(s.challenge_values),
                    Write::AdvisorReviews(s.reviews),
                    Write::Goals(s.goals),
                ];
                assert(s.batch() == funds + tail);
                assert(s.batch()[at] == tail[at - s.funds.len()]);
                assert(grown =~= s.batch().take(at + 1));
            }
        },
        _ => {
            assert(journal =~= next.batch().take(journal.len() as int));
        },
    }
}

/// Whatever the driver answers, a session that began at its start and the journal of its
/// run are consistent.
pub proof fn lemma_run_consistent(start: LoadAllModel, replies: Seq<Reply>)
    requires
        start.pending == Request::CheckDbFile,
        start.fund_id is None,
        start.outcome is None,
        start.funds.len() == 0,
    ensures
        start.run(replies).consistent(start.journal(replies)),
    decreases replies.len(),
{
    if replies.len() > 0 {
        lemma_run_consistent(start, replies.drop_last());
        lemma_step_consistent(
            start.run(replies.drop_last()),
            start.journal(replies.drop_last()),
            replies.last(),
        );
    } else {
        assert(start.journal(replies) =~= start.batch().take(0));
    }
}

/// Whether the session is one that has just begun.
pub open spec fn is_fresh(start: LoadAllModel) -> bool {
    start == LoadAllModel::start(
        start.db_url,
        start.funds_path,
        start.voteplans_path,
        start.proposals_path,
        start.challenges_path,
        start.reviews_path,
        start.goals_path,
    )
}

/// The identifier that a session holds is the one that the store answered when the
/// current fund was inserted.
pub proof fn lemma_fund_id_is_answer(start: LoadAllModel, replies: Seq<Reply>)
    requires
        is_fresh(start),
    ensures
        start.run(replies).fund_id matches Some(fund_id) ==> exists|i: int|
            0 <= i < replies.len() && #[trigger] replies[i] == Reply::FundId(fund_id) && start.run(
                replies.take(i),
            ).pending == Request::InsertFund(0),
    decreases replies.len(),
{
    if replies.len() > 0 {
        let before = start.run(replies.drop_last());
        let end = start.run(replies);
        lemma_fund_id_is_answer(start, replies.drop_last());
        if end.fund_id is Some {
            let fund_id = end.fund_id->Some_0;
            if before.fund_id == end.fund_id {
                let i = choose|i: int|
                    0 <= i < replies.drop_last().len() && #[trigger] replies.drop_last()[i]
                        == Reply::FundId(fund_id) && start.run(
                        replies.drop_last().take(i),
                    ).pending == Request::InsertFund(0);
                assert(replies.drop_last().take(i) =~= replies.take(i));
                assert(replies[i] == Reply::FundId(fund_id));
            } else {
                let i = replies.len() - 1;
                assert(replies.take(i) =~= replies.drop_last());
                assert(replies[i] == Reply::FundId(fund_id));
            }
        }
    }
}

/// A load that goes through has written its whole batch and nothing else, in the order
/// of the batch: every fund, the current one first, then voteplans, proposals, the two
/// side tables, challenges, reviews and goals. Every voteplan, proposal, challenge and
/// goal in it refers to the current fund by the identifier that the store generated when
/// that fund was inserted.
pub proof fn law_committed_load(start: LoadAllModel, replies: Seq<Reply>)
    requires
        is_fresh(start),
        start.run(replies).outcome == Some(Ok::<(), ErrorView>(())),
    ensures
        start.journal(replies) == start.run(replies).batch(),
        start.run(replies).fund_id is Some,
        start.run(replies).refers_to(start.run(replies).fund_id->Some_0),
        exists|i: int|
            0 <= i < replies.len() && #[trigger] replies[i] == Reply::FundId(
                start.run(replies).fund_id->Some_0,
            ) && start.run(replies.take(i)).pending == Request::InsertFund(0),
{
    lemma_run_consistent(start, replies);
    lemma_fund_id_is_answer(start, replies);
    let end = start.run(replies);
    assert(end.batch().take(end.batch().len() as int) =~= end.batch());
}

/// A load that fails has written a beginning of its batch, in the order of the batch, and
/// nothing at all while the current fund is not in the store.
pub proof fn law_failed_load(start: LoadAllModel, replies: Seq<Reply>)
    requires
        is_fresh(start),
        start.run(replies).outcome is Some,
        start.run(replies).outcome != Some(Ok::<(), ErrorView>(())),
    ensures
        start.journal(replies).len() <= start.run(replies).batch().len(),
        start.journal(replies) == start.run(replies).batch().take(
            start.journal(replies).len() as int,
        ),
        start.run(replies).fund_id is None ==> start.journal(replies).len() == 0,
{
    lemma_run_consistent(start, replies);
}

/// A proposal whose challenge is missing ends the load when the last input is read: the
/// error names the missing challenge, and nothing has been written.
pub proof fn law_missing_challenge_writes_nothing(
    start: LoadAllModel,
    replies: Seq<Reply>,
    goals: Vec<Result<crate::models::InsertGoal, String>>,
)
    requires
        is_fresh(start),
        start.run(replies).pending == Request::ReadGoals,
        decoded_file(start.run(replies).goals_path, goals@) is Ok,
        !resolvable(start.run(replies).csv_proposals, start.run(replies).challenges),
    ensures
        start.run(replies.push(Reply::Goals(goals))).pending == Request::Finished,
        start.run(replies.push(Reply::Goals(goals))).outcome == Some(
            Err::<(), ErrorView>(
                ErrorView::IoError(
                    IoErrorView {
                        kind: ErrorKind::InvalidData,
                        message: challenge_not_found_text(
                            first_missing_challenge(
                                start.run(replies).csv_proposals,
                                start.run(replies).challenges,
                            ) as int,
                        ),
                    },
                ),
            ),
        ),
        start.journal(replies.push(Reply::Goals(goals))).len() == 0,
{
    let all = replies.push(Reply::Goals(goals));
    assert(all.drop_last() =~= replies);
    lemma_run_consistent(start, replies);
    lemma_run_consistent(start, all);
}

/// A session that has finished stays as it is, whatever the driver answers.
pub proof fn law_finished_is_final(s: LoadAllModel, reply: Reply)
    requires
        s.pending == Request::Finished,
    ensures
        s.step(reply) == s,
{
}

/// The full load inside an envelope runs as it runs alone.
pub proof fn lemma_pipeline_run(start: LoadAllModel, replies: Seq<Reply>)
    ensures
        PipelineModel::All(start).run(replies) == PipelineModel::All(start.run(replies)),
    decreases replies.len(),
{
    if replies.len() > 0 {
        lemma_pipeline_run(start, replies.drop_last());
    }
}

/// A guarded full load that is committed has written its whole batch and nothing else,
/// in the order of the batch, and every voteplan, proposal, challenge and goal in it
/// refers to the current fund by the identifier that the store generated: the answers
/// that reached the load after the snapshot are those of a load that went through.
pub proof fn law_committed_attempt(start: LoadAllModel, replies: Seq<Reply>)
    requires
        is_fresh(start),
        GuardedModel::start(PipelineModel::All(start)).run(replies).phase == Phase::Committed,
    ensures
        exists|from: int, to: int|
            0 <= from <= to <= replies.len() && {
                let inside = #[trigger] replies.subrange(from, to);
                let end = start.run(inside);
                &&& end.outcome == Some(Ok::<(), ErrorView>(()))
                &&& start.journal(inside) == end.batch()
                &&& end.fund_id is Some
                &&& end.refers_to(end.fund_id->Some_0)
            },
{
    let inner = PipelineModel::All(start);
    law_import_runs_inside(inner, replies);
    let end = GuardedModel::start(inner).run(replies);
    let (from, to) = choose|from: int, to: int| #[trigger]
        end.ran_inside(inner, replies, from, to);
    let inside = replies.subrange(from, to);
    lemma_pipeline_run(start, inside);
    law_committed_load(start, inside);
}

} // verus!
