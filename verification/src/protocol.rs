//! What an import session asks of its driver, and what the driver answers.
//!
//! A session decides; it touches neither files nor the store. It names the next action,
//! the driver performs it and hands the answer back, until the session has finished.

use crate::decoded::{AdvisorReview, Challenge, Proposal};
use crate::error::{ErrorKind, IoError, IoErrorView};
use crate::models::{Fund, InsertGoal, Vote, Voteplan};
use vstd::prelude::*;

verus! {

/// The next action that a session asks for.
#[derive(Clone, Copy, Debug, PartialEq, Eq, Structural)]
pub enum Request {
    /// Say whether the store's file exists.
    CheckDbFile,
    /// Copy the store's file, as it is, to a temporary place.
    Backup,
    /// Copy the snapshot back over the store's file.
    Restore,
    /// Read and decode the funds input.
    ReadFunds,
    /// Read and decode the voteplans input.
    ReadVoteplans,
    /// Read and decode the challenges input.
    ReadChallenges,
    /// Read and decode the proposals input.
    ReadProposals,
    /// Read and decode the reviews input.
    ReadReviews,
    /// Read and decode the goals input.
    ReadGoals,
    /// List the entries of the votes directory.
    ListVotes,
    /// Read and decode the votes file with this index among the recognized ones.
    ReadVotes(usize),
    /// Set up the pool of connections to the store.
    OpenPool,
    /// Take a connection from the pool.
    GetConnection,
    /// Insert the fund with this index, alone, and report its generated identifier.
    InsertFund(usize),
    /// Insert all voteplans at once.
    InsertVoteplans,
    /// Insert all proposals at once.
    InsertProposals,
    /// Insert all rows of the side table of simple challenges at once.
    InsertSimpleChallengeData,
    /// Insert all rows of the side table of community-choice challenges at once.
    InsertCommunityChoiceChallengeData,
    /// Insert all challenges at once.
    InsertChallenges,
    /// Insert all reviews at once.
    InsertAdvisorReviews,
    /// Insert all goals at once.
    InsertGoals,
    /// Insert all votes at once.
    InsertVotes,
    /// Nothing: the session has finished.
    Finished,
}

/// An entry of a directory: where it is, and its name within the directory.
#[derive(Debug, PartialEq, Eq)]
pub struct DirEntry {
    pub path: String,
    pub file_name: String,
}

/// The driver's answer to a request. The rows of a file come one by one, each decoded or
/// failed with its cause.
#[derive(Debug, PartialEq, Eq)]
pub enum Reply {
    /// The action succeeded and has nothing to report.
    Done,
    /// Whether the store's file exists.
    Exists(bool),
    /// The identifier that the store generated for the inserted fund.
    FundId(i32),
    Funds(Vec<Result<Fund, String>>),
    Voteplans(Vec<Result<Voteplan, String>>),
    Challenges(Vec<Result<Challenge, String>>),
    Proposals(Vec<Result<Proposal, String>>),
    Reviews(Vec<Result<AdvisorReview, String>>),
    Goals(Vec<Result<InsertGoal, String>>),
    Votes(Vec<Result<Vote, String>>),
    /// The entries of the listed directory, in the order of the listing.
    Entries(Vec<DirEntry>),
    /// The action failed.
    Failed(IoError),
}

impl Request {
    /// The class under which the failure of this request is reported, where the request
    /// goes to the store: the importer files such failures itself. A failure of any other
    /// request keeps the class that the driver reports.
    pub open spec fn failure_kind(self) -> Option<ErrorKind> {
        match self {
            Request::OpenPool => Some(ErrorKind::InvalidInput),
            Request::GetConnection => Some(ErrorKind::NotConnected),
            Request::InsertFund(_) => Some(ErrorKind::Other),
            Request::InsertVoteplans => Some(ErrorKind::Other),
            Request::InsertProposals => Some(ErrorKind::Other),
            Request::InsertSimpleChallengeData => Some(ErrorKind::Other),
            Request::InsertCommunityChoiceChallengeData => Some(ErrorKind::Other),
            Request::InsertChallenges => Some(ErrorKind::Other),
            Request::InsertAdvisorReviews => Some(ErrorKind::Other),
            Request::InsertGoals => Some(ErrorKind::Other),
            Request::InsertVotes => Some(ErrorKind::Other),
            _ => None,
        }
    }

    /// The failure of this request as the importer reports it, given what the driver
    /// reported.
    pub open spec fn failure(self, reported: IoErrorView) -> IoErrorView {
        match self.failure_kind() {
            Some(kind) => reported.with_kind(kind),
            None => reported,
        }
    }

    /// Whether this request writes to the store.
    pub open spec fn is_insert(self) -> bool {
        self.failure_kind() == Some(ErrorKind::Other)
    }

    /// The failure of this request as the importer reports it, given what the driver
    /// reported.
    pub fn failure_of(self, reported: IoError) -> (e: IoError)
        ensures
            e@ == self.failure(reported@),
    {
        match self {
            Request::OpenPool => reported.with_kind(ErrorKind::InvalidInput),
            Request::GetConnection => reported.with_kind(ErrorKind::NotConnected),
            Request::InsertFund(_) => reported.with_kind(ErrorKind::Other),
            Request::InsertVoteplans => reported.with_kind(ErrorKind::Other),
            Request::InsertProposals => reported.with_kind(ErrorKind::Other),
            Request::InsertSimpleChallengeData => reported.with_kind(ErrorKind::Other),
            Request::InsertCommunityChoiceChallengeData => reported.with_kind(ErrorKind::Other),
            Request::InsertChallenges => reported.with_kind(ErrorKind::Other),
            Request::InsertAdvisorReviews => reported.with_kind(ErrorKind::Other),
            Request::InsertGoals => reported.with_kind(ErrorKind::Other),
            Request::InsertVotes => reported.with_kind(ErrorKind::Other),
            _ => reported,
        }
    }
}

/// The result of an import attempt as contracts speak of it.
pub open spec fn outcome_view(outcome: Option<Result<(), crate::error::Error>>) -> Option<
    Result<(), crate::error::ErrorView>,
> {
    match outcome {
        None => None,
        Some(Ok(_)) => Some(Ok(())),
        Some(Err(e)) => Some(Err(e@)),
    }
}

} // verus!
