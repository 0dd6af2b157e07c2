//! The import commands and the steps that they are made of.

use crate::decoded::AdvisorReview;
use crate::envelope::{Guarded, GuardedModel, Pipeline, PipelineModel};
use crate::error::{
    decode_failure_text, rating_out_of_range_text, ErrorKind, IoError, IoErrorView,
};
use crate::load::{LoadAll, LoadAllModel};
use crate::models::AdvisorReview as StoredReview;
use crate::protocol::DirEntry;
use crate::votes::{csv_paths, has_csv_extension, VotesLoad, VotesLoadModel};
use vstd::prelude::*;
use vstd::string::*;

verus! {

/// Whether every row of a file was decoded.
pub open spec fn all_decoded<T>(rows: Seq<Result<T, String>>) -> bool {
    forall|i: int| 0 <= i < rows.len() ==> (#[trigger] rows[i]) is Ok
}

/// The records of the rows, in the order of the rows.
pub open spec fn decoded_records<T>(rows: Seq<Result<T, String>>) -> Seq<T> {
    rows.map_values(|row: Result<T, String>| row->Ok_0)
}

/// Whether `index` is where the first row that was not decoded stands.
pub open spec fn is_first_failure<T>(rows: Seq<Result<T, String>>, index: int) -> bool {
    &&& 0 <= index < rows.len()
    &&& rows[index] is Err
    &&& forall|j: int| 0 <= j < index ==> (#[trigger] rows[j]) is Ok
}

/// The cause that the first row that was not decoded failed with.
pub open spec fn first_failure_cause<T>(rows: Seq<Result<T, String>>) -> Seq<char> {
    rows[choose|index: int| is_first_failure(rows, index)]->Err_0@
}

/// What decoding the file at `path` comes to, given its rows: the records of all rows, or
/// the failure of the first row that was not decoded.
pub open spec fn decoded_file<T>(path: Seq<char>, rows: Seq<Result<T, String>>) -> Result<
    Seq<T>,
    IoErrorView,
> {
    if all_decoded(rows) {
        Ok(decoded_records(rows))
    } else {
        Err(
            IoErrorView {
                kind: ErrorKind::InvalidInput,
                message: decode_failure_text(path, first_failure_cause(rows)),
            },
        )
    }
}

/// Whether every review can be converted into the store's shape.
pub open spec fn all_convertible(reviews: Seq<AdvisorReview>) -> bool {
    forall|i: int| 0 <= i < reviews.len() ==> (#[trigger] reviews[i]).convertible()
}

/// Whether `index` is where the first review that cannot be converted stands.
pub open spec fn is_first_inconvertible(reviews: Seq<AdvisorReview>, index: int) -> bool {
    &&& 0 <= index < reviews.len()
    &&& !reviews[index].convertible()
    &&& forall|j: int| 0 <= j < index ==> (#[trigger] reviews[j]).convertible()
}

/// The rating that stops the conversion of the reviews.
pub open spec fn first_unfit_rating(reviews: Seq<AdvisorReview>) -> i64 {
    reviews[choose|index: int| is_first_inconvertible(reviews, index)].first_unfit_rating()->Some_0
}

/// What converting the reviews comes to: all of them in the store's shape, or the failure
/// of the first one that cannot be converted.
pub open spec fn converted_reviews(reviews: Seq<AdvisorReview>) -> Result<
    Seq<StoredReview>,
    IoErrorView,
> {
    if all_convertible(reviews) {
        Ok(reviews.map_values(|r: AdvisorReview| r.db_review()))
    } else {
        Err(
            IoErrorView {
                kind: ErrorKind::InvalidData,
                message: rating_out_of_range_text(first_unfit_rating(reviews) as int),
            },
        )
    }
}

/// The view of a result that holds records or a failure.
pub open spec fn result_view<T>(r: Result<Vec<T>, IoError>) -> Result<Seq<T>, IoErrorView> {
    match r {
        Ok(records) => Ok(records@),
        Err(e) => Err(e@),
    }
}

/// Converts every review into the store's shape. One review that cannot be converted
/// fails them all.
pub fn convert_reviews(reviews: Vec<AdvisorReview>) -> (r: Result<Vec<StoredReview>, IoError>)
    ensures
        result_view(r) == converted_reviews(reviews@),
{
    let mut out: Vec<StoredReview> = Vec::new();
    for review in it: reviews
        invariant
            it.seq() == reviews@,
            all_convertible(it.seq().take(it.index() as int)),
            out@ == it.seq().take(it.index() as int).map_values(|r: AdvisorReview| r.db_review()),
    {
        let ghost done = it.seq().take(it.index() as int);
        let ghost next = it.seq().take(it.index() as int + 1);
        proof {
            assert forall|j: int| 0 <= j < done.len() implies (
            #[trigger] reviews@[j]).convertible() by {
                assert(done[j] == reviews@[j]);
            }
        }
        match review.try_into_db() {
            Ok(stored) => {
                out.push(stored);
            },
            Err(e) => {
                proof {
                    let at = it.index() as int;
                    assert(is_first_inconvertible(reviews@, at));
                    let chosen = choose|index: int| is_first_inconvertible(reviews@, index);
                    if chosen < at {
                        assert(reviews@[chosen].convertible());
                    } else if at < chosen {
                        assert(reviews@[at].convertible());
                    }
                    assert(!reviews@[at].convertible());
                }
                return Err(e);
            },
        }
        proof {
            assert(next.map_values(|r: AdvisorReview| r.db_review()) =~= done.map_values(
                |r: AdvisorReview| r.db_review(),
            ).push(review.db_review()));
            assert forall|j: int| 0 <= j < next.len() implies (
            #[trigger] next[j]).convertible() by {
                if j < done.len() {
                    assert(done[j] == next[j]);
                }
            }
        }
    }
    proof {
        assert(reviews@.take(reviews@.len() as int) =~= reviews@);
    }
    Ok(out)
}

/// What to load.
#[derive(Debug, PartialEq, Eq)]
pub enum Load {
    /// Load the votes of every CSV file of a directory.
    Votes { folder: String },
    /// Load funds, voteplans, proposals, challenges, reviews and goals, each from the file
    /// at its path. The first fund of the funds file is the current one.
    All {
        funds: String,
        voteplans: String,
        proposals: String,
        challenges: String,
        reviews: String,
        goals: String,
    },
}

/// The command that loads CSV data into the store at `db_url`.
#[derive(Debug, PartialEq, Eq)]
pub struct CsvDataCmd {
    pub db_url: String,
    pub command: Load,
}

impl Load {
    /// The import that this command runs on the store at `db_url`, before its first
    /// request.
    pub open spec fn pipeline(self, db_url: Seq<char>) -> PipelineModel {
        match self {
            Load::Votes { folder } => PipelineModel::Votes(VotesLoadModel::start(db_url, folder@)),
            Load::All { funds, voteplans, proposals, challenges, reviews, goals } => {
                PipelineModel::All(
                    LoadAllModel::start(
                        db_url,
                        funds@,
                        voteplans@,
                        proposals@,
                        challenges@,
                        reviews@,
                        goals@,
                    ),
                )
            },
        }
    }
}

impl CsvDataCmd {
    /// The command `command` on the store at `db_url`.
    pub fn new(db_url: String, command: Load) -> (cmd: CsvDataCmd)
        ensures
            cmd.db_url == db_url,
            cmd.command == command,
    {
        CsvDataCmd { db_url, command }
    }

    /// Gathers the records of a file's rows. One row that was not decoded fails the whole
    /// file, and the failure names the file and the cause of the first such row.
    pub fn load_from_csv<T>(csv_path: &str, rows: Vec<Result<T, String>>) -> (r: Result<
        Vec<T>,
        IoError,
    >)
        ensures
            result_view(r) == decoded_file(csv_path@, rows@),
    {
        let mut out: Vec<T> = Vec::new();
        for row in it: rows
            invariant
                it.seq() == rows@,
                all_decoded(it.seq().take(it.index() as int)),
                out@ == decoded_records(it.seq().take(it.index() as int)),
        {
            let ghost done = it.seq().take(it.index() as int);
            let ghost next = it.seq().take(it.index() as int + 1);
            proof {
                assert forall|j: int| 0 <= j < done.len() implies (#[trigger] rows@[j]) is Ok by {
                    assert(done[j] == rows@[j]);
                }
            }
            match row {
                Ok(record) => {
                    out.push(record);
                    proof {
                        assert(decoded_records(next) =~= decoded_records(done).push(record));
                        assert forall|j: int| 0 <= j < next.len() implies (
                        #[trigger] next[j]) is Ok by {
                            if j < done.len() {
                                assert(done[j] == next[j]);
                            }
                        }
                    }
                },
                Err(cause) => {
                    proof {
                        let at = it.index() as int;
                        assert(is_first_failure(rows@, at));
                        let chosen = choose|index: int| is_first_failure(rows@, index);
                        if chosen < at {
                            assert(rows@[chosen] is Ok);
                        } else if at < chosen {
                            assert(rows@[at] is Ok);
                        }
                        assert(rows@[at] is Err);
                    }
                    return Err(IoError::decode_failure(csv_path, cause.as_str()));
                },
            }
        }
        proof {
            assert(rows@.take(rows@.len() as int) =~= rows@);
        }
        Ok(out)
    }

    /// Starts the full load of the six files into the store at `db_url`. The session that
    /// comes back asks for every read and write in turn and decides on each answer.
    pub fn handle_load(
        db_url: &str,
        funds_path: &str,
        voteplans_path: &str,
        proposals_path: &str,
        challenges_path: &str,
        reviews_path: &str,
        goals_path: &str,
    ) -> (session: LoadAll)
        ensures
            session@ == LoadAllModel::start(
                db_url@,
                funds_path@,
                voteplans_path@,
                proposals_path@,
                challenges_path@,
                reviews_path@,
                goals_path@,
            ),
            session@.well_formed(),
    {
        LoadAll::new(
            String::from_str(db_url),
            String::from_str(funds_path),
            String::from_str(voteplans_path),
            String::from_str(proposals_path),
            String::from_str(challenges_path),
            String::from_str(reviews_path),
            String::from_str(goals_path),
        )
    }

    /// Keeps the paths of the entries that are CSV files, in the order of the entries.
    pub fn list_of_csv_paths(entries: Vec<DirEntry>) -> (paths: Vec<String>)
        ensures
            paths@ == csv_paths(entries@),
    {
        let mut paths: Vec<String> = Vec::new();
        for entry in it: entries
            invariant
                it.seq() == entries@,
                paths@ == csv_paths(it.seq().take(it.index() as int)),
        {
            proof {
                let next = it.seq().take(it.index() as int + 1);
                assert(next.drop_last() =~= it.seq().take(it.index() as int));
                assert(next.last() == entry);
            }
            if has_csv_extension(entry.file_name.as_str()) {
                paths.push(entry.path);
            }
        }
        proof {
            assert(entries@.take(entries@.len() as int) =~= entries@);
        }
        paths
    }

    /// Starts the load of the votes in the directory at `votes_path` into the store at
    /// `db_url`.
    pub fn handle_votes_load(db_url: &str, votes_path: &str) -> (session: VotesLoad)
        ensures
            session@ == VotesLoadModel::start(db_url@, votes_path@),
            session@.well_formed(),
    {
        VotesLoad::new(String::from_str(db_url), String::from_str(votes_path))
    }

    /// Starts the full load inside the backup/restore envelope.
    pub fn handle_load_with_db_backup(
        db_url: &str,
        funds_path: &str,
        voteplans_path: &str,
        proposals_path: &str,
        challenges_path: &str,
        reviews: &str,
        goals: &str,
    ) -> (guarded: Guarded)
        ensures
            guarded@ == GuardedModel::start(
                PipelineModel::All(
                    LoadAllModel::start(
                        db_url@,
                        funds_path@,
                        voteplans_path@,
                        proposals_path@,
                        challenges_path@,
                        reviews@,
                        goals@,
                    ),
                ),
            ),
            guarded@.well_formed(),
    {
        Guarded::new(
            Pipeline::All(
                CsvDataCmd::handle_load(
                    db_url,
                    funds_path,
                    voteplans_path,
                    proposals_path,
                    challenges_path,
                    reviews,
                    goals,
                ),
            ),
        )
    }

    /// Starts what the command asks for, inside the backup/restore envelope.
    pub fn exec(&self) -> (guarded: Guarded)
        ensures
            guarded@ == GuardedModel::start(self.command.pipeline(self.db_url@)),
            guarded@.well_formed(),
    {
        match &self.command {
            Load::All {
                funds,
                voteplans,
                proposals,
                challenges,
                reviews,
                goals,
            } => CsvDataCmd::handle_load_with_db_backup(
                self.db_url.as_str(),
                funds.as_str(),
                voteplans.as_str(),
                proposals.as_str(),
                challenges.as_str(),
                reviews.as_str(),
                goals.as_str(),
            ),
            Load::Votes { folder } => Guarded::new(
                Pipeline::Votes(
                    CsvDataCmd::handle_votes_load(self.db_url.as_str(), folder.as_str()),
                ),
            ),
        }
    }
}

} // verus!
