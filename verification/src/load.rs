//! The full load: funds, voteplans, proposals, challenges, reviews and goals, read from six
//! files, checked against each other and written to the store under one fund.

use crate::decoded::{AdvisorReview, Challenge, Proposal};
use crate::error::{
    challenge_not_found_text, database_not_found_text, Error, ErrorKind, ErrorView, IoError,
    IoErrorView,
};
use crate::loaders::{convert_reviews, converted_reviews, decoded_file, CsvDataCmd};
use crate::models::{
    AdvisorReview as StoredReview, ChallengeValues, CommunityChoiceChallengeValues, Fund,
    InsertGoal, Proposal as StoredProposal, SimpleChallengeValues, Voteplan,
};
use crate::propagate::{
    challenge_values, stamp_challenges, stamp_goals, stamp_proposals, stamp_voteplans,
};
use crate::protocol::{outcome_view, Reply, Request};
use crate::resolve::{
    community_choice_rows, db_proposals, first_missing_challenge, resolvable, simple_rows,
    split_proposals,
};
use vstd::prelude::*;

verus! {

/// A session of the full load as contracts speak of it.
pub struct LoadAllModel {
    /// What the session waits for.
    pub pending: Request,
    pub db_url: Seq<char>,
    pub funds_path: Seq<char>,
    pub voteplans_path: Seq<char>,
    pub proposals_path: Seq<char>,
    pub challenges_path: Seq<char>,
    pub reviews_path: Seq<char>,
    pub goals_path: Seq<char>,
    /// The funds of the input. The first one is the current fund.
    pub funds: Seq<Fund>,
    pub voteplans: Seq<Voteplan>,
    /// The challenges of the input, until they are written in the store's shape.
    pub challenges: Seq<Challenge>,
    /// The proposals of the input, until their challenges are resolved.
    pub csv_proposals: Seq<Proposal>,
    pub proposals: Seq<StoredProposal>,
    pub simple: Seq<SimpleChallengeValues>,
    pub community_choice: Seq<CommunityChoiceChallengeValues>,
    pub challenge_values: Seq<ChallengeValues>,
    pub reviews: Seq<StoredReview>,
    pub goals: Seq<InsertGoal>,
    /// The identifier that the store generated for the current fund.
    pub fund_id: Option<i32>,
    /// How the attempt ended, once it has.
    pub outcome: Option<Result<(), ErrorView>>,
}

impl LoadAllModel {
    /// The session before its first request.
    pub open spec fn start(
        db_url: Seq<char>,
        funds_path: Seq<char>,
        voteplans_path: Seq<char>,
        proposals_path: Seq<char>,
        challenges_path: Seq<char>,
        reviews_path: Seq<char>,
        goals_path: Seq<char>,
    ) -> LoadAllModel {
        LoadAllModel {
            pending: Request::CheckDbFile,
            db_url,
            funds_path,
            voteplans_path,
            proposals_path,
            challenges_path,
            reviews_path,
            goals_path,
            funds: Seq::empty(),
            voteplans: Seq::empty(),
            challenges: Seq::empty(),
            csv_proposals: Seq::empty(),
            proposals: Seq::empty(),
            simple: Seq::empty(),
            community_choice: Seq::empty(),
            challenge_values: Seq::empty(),
            reviews: Seq::empty(),
            goals: Seq::empty(),
            fund_id: None,
            outcome: None,
        }
    }

    /// The session waiting for `pending`.
    pub open spec fn awaiting(self, pending: Request) -> LoadAllModel {
        LoadAllModel { pending, ..self }
    }

    /// The session ended by the error `e`.
    pub open spec fn failed(self, e: ErrorView) -> LoadAllModel {
        LoadAllModel { pending: Request::Finished, outcome: Some(Err(e)), ..self }
    }

    /// The session ended by an input/output failure.
    pub open spec fn failed_io(self, e: IoErrorView) -> LoadAllModel {
        self.failed(ErrorView::IoError(e))
    }

    /// The session after all inputs are read: every proposal resolved against the
    /// challenges and split by the challenge's type, or the attempt ended by the first
    /// proposal whose challenge is missing.
    pub open spec fn resolved(self) -> LoadAllModel {
        if resolvable(self.csv_proposals, self.challenges) {
            LoadAllModel {
                pending: Request::OpenPool,
                csv_proposals: Seq::empty(),
                proposals: db_proposals(self.csv_proposals),
                simple: simple_rows(self.csv_proposals, self.challenges),
                community_choice: community_choice_rows(self.csv_proposals, self.challenges),
                ..self
            }
        } else {
            LoadAllModel { csv_proposals: Seq::empty(), ..self }.failed_io(
                IoErrorView {
                    kind: ErrorKind::InvalidData,
                    message: challenge_not_found_text(
                        first_missing_challenge(self.csv_proposals, self.challenges) as int,
                    ),
                },
            )
        }
    }

    /// The session once a connection is there: ready to insert the current fund, or ended
    /// because the funds input holds none.
    pub open spec fn connected(self) -> LoadAllModel {
        if self.funds.len() == 0 {
            self.failed(ErrorView::InvalidFundData(self.funds_path))
        } else {
            self.awaiting(Request::InsertFund(0))
        }
    }

    /// The session with the identifier `fund_id` put on every voteplan, proposal,
    /// challenge and goal, and the challenges in the store's shape.
    pub open spec fn stamped(self, fund_id: i32) -> LoadAllModel {
        LoadAllModel {
            voteplans: self.voteplans.map_values(|v: Voteplan| v.stamped(fund_id)),
            proposals: self.proposals.map_values(|p: StoredProposal| p.stamped(fund_id)),
            challenges: Seq::empty(),
            challenge_values: self.challenges.map_values(
                |c: Challenge| c.stamped(fund_id),
            ).map_values(|c: Challenge| c.db_challenge_values()),
            goals: self.goals.map_values(|g: InsertGoal| g.stamped(fund_id)),
            fund_id: Some(fund_id),
            ..self
        }
    }

    /// The session after the fund with the index `index` is inserted and the store has
    /// generated `fund_id` for it. Only the identifier of the current fund is kept.
    pub open spec fn fund_inserted(self, index: usize, fund_id: i32) -> LoadAllModel {
        let kept = if index == 0 {
            self.stamped(fund_id)
        } else {
            self
        };
        if index + 1 < self.funds.len() {
            kept.awaiting(Request::InsertFund((index + 1) as usize))
        } else {
            kept.awaiting(Request::InsertVoteplans)
        }
    }

    /// The session after the pending action has succeeded with nothing to report.
    pub open spec fn done(self) -> LoadAllModel {
        match self.pending {
            Request::OpenPool => self.awaiting(Request::GetConnection),
            Request::GetConnection => self.connected(),
            Request::InsertVoteplans => self.awaiting(Request::InsertProposals),
            Request::InsertProposals => self.awaiting(Request::InsertSimpleChallengeData),
            Request::InsertSimpleChallengeData => self.awaiting(
                Request::InsertCommunityChoiceChallengeData,
            ),
            Request::InsertCommunityChoiceChallengeData => self.awaiting(
                Request::InsertChallenges,
            ),
            Request::InsertChallenges => self.awaiting(Request::InsertAdvisorReviews),
            Request::InsertAdvisorReviews => self.awaiting(Request::InsertGoals),
            Request::InsertGoals => LoadAllModel {
                pending: Request::Finished,
                outcome: Some(Ok(())),
                ..self
            },
            _ => self,
        }
    }

    /// The session after the driver's answer `reply`. An answer to anything but the
    /// pending request changes nothing.
    pub open spec fn step(self, reply: Reply) -> LoadAllModel {
        match reply {
            Reply::Failed(e) => if self.pending == Request::Finished {
                self
            } else {
                self.failed_io(self.pending.failure(e@))
            },
            Reply::Done => self.done(),
            Reply::Exists(found) => if self.pending != Request::CheckDbFile {
                self
            } else if found {
                self.awaiting(Request::ReadFunds)
            } else {
                self.failed_io(
                    IoErrorView {
                        kind: ErrorKind::NotFound,
                        message: database_not_found_text(self.db_url),
                    },
                )
            },
            Reply::FundId(fund_id) => match self.pending {
                Request::InsertFund(index) => self.fund_inserted(index, fund_id),
                _ => self,
            },
            Reply::Funds(rows) => if self.pending != Request::ReadFunds {
                self
            } else {
                match decoded_file(self.funds_path, rows@) {
                    Ok(funds) => LoadAllModel { pending: Request::ReadVoteplans, funds, ..self },
                    Err(e) => self.failed_io(e),
                }
            },
            Reply::Voteplans(rows) => if self.pending != Request::ReadVoteplans {
                self
            } else {
                match decoded_file(self.voteplans_path, rows@) {
                    Ok(voteplans) => LoadAllModel {
                        pending: Request::ReadChallenges,
                        voteplans,
                        ..self
                    },
                    Err(e) => self.failed_io(e),
                }
            },
            Reply::Challenges(rows) => if self.pending != Request::ReadChallenges {
                self
            } else {
                match decoded_file(self.challenges_path, rows@) {
                    Ok(challenges) => LoadAllModel {
                        pending: Request::ReadProposals,
                        challenges,
                        ..self
                    },
                    Err(e) => self.failed_io(e),
                }
            },
            Reply::Proposals(rows) => if self.pending != Request::ReadProposals {
                self
            } else {
                match decoded_file(self.proposals_path, rows@) {
                    Ok(csv_proposals) => LoadAllModel {
                        pending: Request::ReadReviews,
                        csv_proposals,
                        ..self
                    },
                    Err(e) => self.failed_io(e),
                }
            },
            Reply::Reviews(rows) => if self.pending != Request::ReadReviews {
                self
            } else {
                match decoded_file(self.reviews_path, rows@) {
                    Ok(decoded) => match converted_reviews(decoded) {
                        Ok(reviews) => LoadAllModel {
                            pending: Request::ReadGoals,
                            reviews,
                            ..self
                        },
                        Err(e) => self.failed_io(e),
                    },
                    Err(e) => self.failed_io(e),
                }
            },
            Reply::Goals(rows) => if self.pending != Request::ReadGoals {
                self
            } else {
                match decoded_file(self.goals_path, rows@) {
                    Ok(goals) => LoadAllModel { goals, ..self }.resolved(),
                    Err(e) => self.failed_io(e),
                }
            },
            Reply::Votes(_) => self,
            Reply::Entries(_) => self,
        }
    }

    /// Whether every voteplan, proposal, challenge and goal refers to the fund `fund_id`.
    pub open spec fn refers_to(self, fund_id: i32) -> bool {
        &&& forall|i: int|
            0 <= i < self.voteplans.len() ==> (#[trigger] self.voteplans[i]).fund_id == fund_id
        &&& forall|i: int|
            0 <= i < self.proposals.len() ==> (#[trigger] self.proposals[i]).fund_id == fund_id
        &&& forall|i: int|
            0 <= i < self.challenge_values.len() ==> (#[trigger] self.challenge_values[i]).fund_id
                == fund_id
        &&& forall|i: int|
            0 <= i < self.goals.len() ==> (#[trigger] self.goals[i]).fund_id == fund_id
    }


    /// Whether the session waits for something that comes before the first write.
    pub open spec fn before_writes(self) -> bool {
        match self.pending {
            Request::CheckDbFile => true,
            Request::ReadFunds => true,
            Request::ReadVoteplans => true,
            Request::ReadChallenges => true,
            Request::ReadProposals => true,
            Request::ReadReviews => true,
            Request::ReadGoals => true,
            Request::OpenPool => true,
            Request::GetConnection => true,
            Request::InsertFund(index) => index == 0 && self.funds.len() > 0,
            _ => false,
        }
    }


    /// Whether the session waits for one of the bulk inserts that follow the funds.
    pub open spec fn at_bulk_insert(self) -> bool {
        match self.pending {
            Request::InsertVoteplans => true,
            Request::InsertProposals => true,
            Request::InsertSimpleChallengeData => true,
            Request::InsertCommunityChoiceChallengeData => true,
            Request::InsertChallenges => true,
            Request::InsertAdvisorReviews => true,
            Request::InsertGoals => true,
            _ => false,
        }
    }

    /// What holds of every session that began at its start, whatever the driver answered:
    /// it has a result exactly when it has finished; a fund that it asks to insert is
    /// there; nothing but the current fund is asked for while the store's identifier is
    /// unknown; and once that identifier is known, every dependent record refers to it.
    pub open spec fn well_formed(self) -> bool {
        &&& self.outcome is Some <==> self.pending == Request::Finished
        &&& self.pending matches Request::InsertFund(index) ==> index < self.funds.len()
        &&& self.funds.len() <= usize::MAX
        &&& self.outcome == Some(Ok::<(), ErrorView>(())) ==> self.fund_id is Some
        &&& self.fund_id is None ==> self.before_writes() || self.outcome is Some
        &&& self.fund_id matches Some(fund_id) ==> {
            &&& self.refers_to(fund_id)
            &&& self.funds.len() > 0
            &&& self.outcome is None ==> !self.before_writes() && (self.at_bulk_insert()
                || self.pending is InsertFund)
        }
    }

    /// The session after the driver's answers `replies`, one after the other.
    pub open spec fn run(self, replies: Seq<Reply>) -> LoadAllModel
        decreases replies.len(),
    {
        if replies.len() == 0 {
            self
        } else {
            self.run(replies.drop_last()).step(replies.last())
        }
    }

    /// The path of the file that the pending request reads.
    pub open spec fn read_path(self) -> Option<Seq<char>> {
        match self.pending {
            Request::ReadFunds => Some(self.funds_path),
            Request::ReadVoteplans => Some(self.voteplans_path),
            Request::ReadChallenges => Some(self.challenges_path),
            Request::ReadProposals => Some(self.proposals_path),
            Request::ReadReviews => Some(self.reviews_path),
            Request::ReadGoals => Some(self.goals_path),
            _ => None,
        }
    }

    /// The fund that the pending request inserts.
    pub open spec fn fund_to_insert(self) -> Option<Fund> {
        match self.pending {
            Request::InsertFund(index) => if index < self.funds.len() {
                Some(self.funds[index as int])
            } else {
                None
            },
            _ => None,
        }
    }
}

/// One answer keeps a session well formed.
pub proof fn lemma_step_well_formed(s: LoadAllModel, reply: Reply)
    requires
        s.well_formed(),
    ensures
        s.step(reply).well_formed(),
{
    match reply {
        Reply::FundId(fund_id) => {
            assert(s.stamped(fund_id).refers_to(fund_id));
        },
        Reply::Funds(rows) => {
            assert(rows@.len() == rows.len());
        },
        _ => {},
    }
}

/// Every answer keeps a session well formed.
pub proof fn lemma_run_well_formed(s: LoadAllModel, replies: Seq<Reply>)
    requires
        s.well_formed(),
    ensures
        s.run(replies).well_formed(),
    decreases replies.len(),
{
    if replies.len() > 0 {
        lemma_run_well_formed(s, replies.drop_last());
        lemma_step_well_formed(s.run(replies.drop_last()), replies.last());
    }
}

/// A session of the full load. It starts by asking whether the store's file exists, and
/// has finished when its request is `Request::Finished`.
#[derive(Debug)]
pub struct LoadAll {
    pending: Request,
    db_url: String,
    funds_path: String,
    voteplans_path: String,
    proposals_path: String,
    challenges_path: String,
    reviews_path: String,
    goals_path: String,
    funds: Vec<Fund>,
    voteplans: Vec<Voteplan>,
    challenges: Vec<Challenge>,
    csv_proposals: Vec<Proposal>,
    proposals: Vec<StoredProposal>,
    simple: Vec<SimpleChallengeValues>,
    community_choice: Vec<CommunityChoiceChallengeValues>,
    challenge_values: Vec<ChallengeValues>,
    reviews: Vec<StoredReview>,
    goals: Vec<InsertGoal>,
    fund_id: Option<i32>,
    outcome: Option<Result<(), Error>>,
}

impl View for LoadAll {
    type V = LoadAllModel;

    closed spec fn view(&self) -> LoadAllModel {
        LoadAllModel {
            pending: self.pending,
            db_url: self.db_url@,
            funds_path: self.funds_path@,
            voteplans_path: self.voteplans_path@,
            proposals_path: self.proposals_path@,
            challenges_path: self.challenges_path@,
            reviews_path: self.reviews_path@,
            goals_path: self.goals_path@,
            funds: self.funds@,
            voteplans: self.voteplans@,
            challenges: self.challenges@,
            csv_proposals: self.csv_proposals@,
            proposals: self.proposals@,
            simple: self.simple@,
            community_choice: self.community_choice@,
            challenge_values: self.challenge_values@,
            reviews: self.reviews@,
            goals: self.goals@,
            fund_id: self.fund_id,
            outcome: outcome_view(self.outcome),
        }
    }
}

impl LoadAll {
    /// A session for the store at `db_url` and the six input files.
    pub fn new(
        db_url: String,
        funds_path: String,
        voteplans_path: String,
        proposals_path: String,
        challenges_path: String,
        reviews_path: String,
        goals_path: String,
    ) -> (session: LoadAll)
        ensures
            session@ == LoadAllModel::start(
                db_url@,
                funds_path@,
                voteplans_path@,
                proposals_path@,
                challenges_path@,
                reviews_path@,
                goals_path@,
            ),
            session@.well_formed(),
    {
        LoadAll {
            pending: Request::CheckDbFile,
            db_url,
            funds_path,
            voteplans_path,
            proposals_path,
            challenges_path,
            reviews_path,
            goals_path,
            funds: Vec::new(),
            voteplans: Vec::new(),
            challenges: Vec::new(),
            csv_proposals: Vec::new(),
            proposals: Vec::new(),
            simple: Vec::new(),
            community_choice: Vec::new(),
            challenge_values: Vec::new(),
            reviews: Vec::new(),
            goals: Vec::new(),
            fund_id: None,
            outcome: None,
        }
    }

    /// What the session waits for.
    pub fn request(&self) -> (r: Request)
        ensures
            r == self@.pending,
    {
        self.pending
    }

    /// Where the store is.
    pub fn db_url(&self) -> (url: &String)
        ensures
            url@ == self@.db_url,
    {
        &self.db_url
    }

    /// The path of the file that the pending request reads.
    pub fn read_path(&self) -> (path: Option<&String>)
        ensures
            path is Some <==> self@.read_path() is Some,
            path matches Some(p) ==> p@ == self@.read_path()->Some_0,
    {
        match self.pending {
            Request::ReadFunds => Some(&self.funds_path),
            Request::ReadVoteplans => Some(&self.voteplans_path),
            Request::ReadChallenges => Some(&self.challenges_path),
            Request::ReadProposals => Some(&self.proposals_path),
            Request::ReadReviews => Some(&self.reviews_path),
            Request::ReadGoals => Some(&self.goals_path),
            _ => None,
        }
    }

    /// The fund that the pending request inserts.
    pub fn fund(&self) -> (fund: Option<&Fund>)
        ensures
            fund is Some <==> self@.fund_to_insert() is Some,
            fund matches Some(f) ==> *f == self@.fund_to_insert()->Some_0,
    {
        match self.pending {
            Request::InsertFund(index) => {
                if index < self.funds.len() {
                    Some(&self.funds[index])
                } else {
                    None
                }
            },
            _ => None,
        }
    }

    /// The voteplans to insert.
    pub fn voteplans(&self) -> (records: &Vec<Voteplan>)
        ensures
            records@ == self@.voteplans,
    {
        &self.voteplans
    }

    /// The proposals to insert.
    pub fn proposals(&self) -> (records: &Vec<StoredProposal>)
        ensures
            records@ == self@.proposals,
    {
        &self.proposals
    }

    /// The rows to insert into the side table of simple challenges.
    pub fn simple_challenge_data(&self) -> (records: &Vec<SimpleChallengeValues>)
        ensures
            records@ == self@.simple,
    {
        &self.simple
    }

    /// The rows to insert into the side table of community-choice challenges.
    pub fn community_choice_challenge_data(&self) -> (records: &Vec<
        CommunityChoiceChallengeValues,
    >)
        ensures
            records@ == self@.community_choice,
    {
        &self.community_choice
    }

    /// The challenges to insert.
    pub fn challenges(&self) -> (records: &Vec<ChallengeValues>)
        ensures
            records@ == self@.challenge_values,
    {
        &self.challenge_values
    }

    /// The reviews to insert.
    pub fn advisor_reviews(&self) -> (records: &Vec<StoredReview>)
        ensures
            records@ == self@.reviews,
    {
        &self.reviews
    }

    /// The goals to insert.
    pub fn goals(&self) -> (records: &Vec<InsertGoal>)
        ensures
            records@ == self@.goals,
    {
        &self.goals
    }

    /// The identifier that the store generated for the current fund, once it has.
    pub fn fund_id(&self) -> (id: Option<i32>)
        ensures
            id == self@.fund_id,
    {
        self.fund_id
    }

    /// Whether the attempt has ended.
    pub fn has_ended(&self) -> (b: bool)
        ensures
            b == self@.outcome is Some,
    {
        self.outcome.is_some()
    }

    /// How the attempt ended; nothing while it is under way.
    pub fn into_outcome(self) -> (outcome: Option<Result<(), Error>>)
        ensures
            outcome_view(outcome) == self@.outcome,
    {
        self.outcome
    }

    fn awaiting(self, pending: Request) -> (next: LoadAll)
        ensures
            next@ == self@.awaiting(pending),
    {
        LoadAll { pending, ..self }
    }

    fn failed(self, e: Error) -> (next: LoadAll)
        ensures
            next@ == self@.failed(e@),
    {
        LoadAll { pending: Request::Finished, outcome: Some(Err(e)), ..self }
    }

    fn resolved(self) -> (next: LoadAll)
        ensures
            next@ == self@.resolved(),
    {
        let LoadAll {
            pending,
            db_url,
            funds_path,
            voteplans_path,
            proposals_path,
            challenges_path,
            reviews_path,
            goals_path,
            funds,
            voteplans,
            challenges,
            csv_proposals,
            proposals,
            simple,
            community_choice,
            challenge_values,
            reviews,
            goals,
            fund_id,
            outcome,
        } = self;
        match split_proposals(csv_proposals, &challenges) {
            Ok(split) => LoadAll {
                pending: Request::OpenPool,
                db_url,
                funds_path,
                voteplans_path,
                proposals_path,
                challenges_path,
                reviews_path,
                goals_path,
                funds,
                voteplans,
                challenges,
                csv_proposals: Vec::new(),
                proposals: split.proposals,
                simple: split.simple,
                community_choice: split.community_choice,
                challenge_values,
                reviews,
                goals,
                fund_id,
                outcome,
            },
            Err(e) => LoadAll {
                pending: Request::Finished,
                db_url,
                funds_path,
                voteplans_path,
                proposals_path,
                challenges_path,
                reviews_path,
                goals_path,
                funds,
                voteplans,
                challenges,
                csv_proposals: Vec::new(),
                proposals,
                simple,
                community_choice,
                challenge_values,
                reviews,
                goals,
                fund_id,
                outcome: Some(Err(Error::IoError(e))),
            },
        }
    }

    fn connected(self) -> (next: LoadAll)
        ensures
            next@ == self@.connected(),
    {
        if self.funds.len() == 0 {
            let e = Error::InvalidFundData(self.funds_path.clone());
            self.failed(e)
        } else {
            self.awaiting(Request::InsertFund(0))
        }
    }

    fn stamped(self, id: i32) -> (next: LoadAll)
        ensures
            next@ == self@.stamped(id),
    {
        let LoadAll {
            pending,
            db_url,
            funds_path,
            voteplans_path,
            proposals_path,
            challenges_path,
            reviews_path,
            goals_path,
            funds,
            voteplans,
            challenges,
            csv_proposals,
            proposals,
            simple,
            community_choice,
            challenge_values: _,
            reviews,
            goals,
            fund_id: _,
            outcome,
        } = self;
        LoadAll {
            pending,
            db_url,
            funds_path,
            voteplans_path,
            proposals_path,
            challenges_path,
            reviews_path,
            goals_path,
            funds,
            voteplans: stamp_voteplans(voteplans, id),
            challenges: Vec::new(),
            csv_proposals,
            proposals: stamp_proposals(proposals, id),
            simple,
            community_choice,
            challenge_values: challenge_values(stamp_challenges(challenges, id)),
            reviews,
            goals: stamp_goals(goals, id),
            fund_id: Some(id),
            outcome,
        }
    }

    fn fund_inserted(self, index: usize, id: i32) -> (next: LoadAll)
        ensures
            next@ == self@.fund_inserted(index, id),
    {
        let more = index < self.funds.len() && index + 1 < self.funds.len();
        let kept = if index == 0 {
            self.stamped(id)
        } else {
            self
        };
        if more {
            kept.awaiting(Request::InsertFund(index + 1))
        } else {
            kept.awaiting(Request::InsertVoteplans)
        }
    }

    fn done(self) -> (next: LoadAll)
        ensures
            next@ == self@.done(),
    {
        match self.pending {
            Request::OpenPool => self.awaiting(Request::GetConnection),
            Request::GetConnection => self.connected(),
            Request::InsertVoteplans => self.awaiting(Request::InsertProposals),
            Request::InsertProposals => self.awaiting(Request::InsertSimpleChallengeData),
            Request::InsertSimpleChallengeData => self.awaiting(
                Request::InsertCommunityChoiceChallengeData,
            ),
            Request::InsertCommunityChoiceChallengeData => self.awaiting(
                Request::InsertChallenges,
            ),
            Request::InsertChallenges => self.awaiting(Request::InsertAdvisorReviews),
            Request::InsertAdvisorReviews => self.awaiting(Request::InsertGoals),
            Request::InsertGoals => LoadAll {
                pending: Request::Finished,
                outcome: Some(Ok(())),
                ..self
            },
            _ => self,
        }
    }

    /// Takes the driver's answer and decides what comes next. An answer to anything but
    /// the pending request changes nothing.
    pub fn resume(self, reply: Reply) -> (next: LoadAll)
        ensures
            next@ == self@.step(reply),
            self@.well_formed() ==> next@.well_formed(),
    {
        proof {
            if self@.well_formed() {
                lemma_step_well_formed(self@, reply);
            }
        }
        match reply {
            Reply::Failed(e) => {
                if self.pending == Request::Finished {
                    self
                } else {
                    let e = self.pending.failure_of(e);
                    self.failed(Error::IoError(e))
                }
            },
            Reply::Done => self.done(),
            Reply::Exists(found) => {
                if self.pending != Request::CheckDbFile {
                    self
                } else if found {
                    self.awaiting(Request::ReadFunds)
                } else {
                    let e = IoError::database_not_found(self.db_url.as_str());
                    self.failed(Error::IoError(e))
                }
            },
            Reply::FundId(id) => match self.pending {
                Request::InsertFund(index) => self.fund_inserted(index, id),
                _ => self,
            },
            Reply::Funds(rows) => {
                if self.pending != Request::ReadFunds {
                    self
                } else {
                    match CsvDataCmd::load_from_csv(self.funds_path.as_str(), rows) {
                        Ok(funds) => LoadAll { pending: Request::ReadVoteplans, funds, ..self },
                        Err(e) => self.failed(Error::IoError(e)),
                    }
                }
            },
            Reply::Voteplans(rows) => {
                if self.pending != Request::ReadVoteplans {
                    self
                } else {
                    match CsvDataCmd::load_from_csv(self.voteplans_path.as_str(), rows) {
                        Ok(voteplans) => LoadAll {
                            pending: Request::ReadChallenges,
                            voteplans,
                            ..self
                        },
                        Err(e) => self.failed(Error::IoError(e)),
                    }
                }
            },
            Reply::Challenges(rows) => {
                if self.pending != Request::ReadChallenges {
                    self
                } else {
                    match CsvDataCmd::load_from_csv(self.challenges_path.as_str(), rows) {
                        Ok(challenges) => LoadAll {
                            pending: Request::ReadProposals,
                            challenges,
                            ..self
                        },
                        Err(e) => self.failed(Error::IoError(e)),
                    }
                }
            },
            Reply::Proposals(rows) => {
                if self.pending != Request::ReadProposals {
                    self
                } else {
                    match CsvDataCmd::load_from_csv(self.proposals_path.as_str(), rows) {
                        Ok(csv_proposals) => LoadAll {
                            pending: Request::ReadReviews,
                            csv_proposals,
                            ..self
                        },
                        Err(e) => self.failed(Error::IoError(e)),
                    }
                }
            },
            Reply::Reviews(rows) => {
                if self.pending != Request::ReadReviews {
                    self
                } else {
                    match CsvDataCmd::load_from_csv(self.reviews_path.as_str(), rows) {
                        Ok(decoded) => match convert_reviews(decoded) {
                            Ok(reviews) => LoadAll {
                                pending: Request::ReadGoals,
                                reviews,
                                ..self
                            },
                            Err(e) => self.failed(Error::IoError(e)),
                        },
                        Err(e) => self.failed(Error::IoError(e)),
                    }
                }
            },
            Reply::Goals(rows) => {
                if self.pending != Request::ReadGoals {
                    self
                } else {
                    match CsvDataCmd::load_from_csv(self.goals_path.as_str(), rows) {
                        Ok(goals) => {
                            let read = LoadAll { goals, ..self };
                            read.resolved()
                        },
                        Err(e) => self.failed(Error::IoError(e)),
                    }
                }
            },
            Reply::Votes(_) => self,
            Reply::Entries(_) => self,
        }
    }

    /// Takes the driver's answers one after the other, as `resume` takes each.
    pub fn run(self, replies: Vec<Reply>) -> (end: LoadAll)
        ensures
            end@ == self@.run(replies@),
            self@.well_formed() ==> end@.well_formed(),
    {
        let ghost start = self@;
        let mut session = self;
        for reply in it: replies
            invariant
                it.seq() == replies@,
                session@ == start.run(it.seq().take(it.index() as int)),
        {
            proof {
                let next = it.seq().take(it.index() as int + 1);
                assert(next.drop_last() =~= it.seq().take(it.index() as int));
                assert(next.last() == reply);
            }
            session = session.resume(reply);
        }
        proof {
            assert(replies@.take(replies@.len() as int) =~= replies@);
            if start.well_formed() {
                lemma_run_well_formed(start, replies@);
            }
        }
        session
    }
}

} // verus!
