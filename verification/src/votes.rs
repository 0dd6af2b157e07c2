//! The votes load: every CSV file of one directory, read and written as one flat batch.

use crate::error::{database_not_found_text, Error, ErrorKind, ErrorView, IoError, IoErrorView};
use crate::loaders::{all_decoded, decoded_file, decoded_records, CsvDataCmd};
use crate::models::{Vote, VoteValues};
use crate::protocol::{outcome_view, DirEntry, Reply, Request};
use vstd::prelude::*;
use vstd::string::*;

verus! {

/// Whether a file of this name has the extension `csv`: the name ends in `.csv` and has
/// something before that.
pub open spec fn is_csv_name(name: Seq<char>) -> bool {
    &&& name.len() > 4
    &&& name[name.len() - 4] == '.'
    &&& name[name.len() - 3] == 'c'
    &&& name[name.len() - 2] == 's'
    &&& name[name.len() - 1] == 'v'
}

/// The paths of the entries that are CSV files, in the order of the entries.
pub open spec fn csv_paths(entries: Seq<DirEntry>) -> Seq<String>
    decreases entries.len(),
{
    if entries.len() == 0 {
        Seq::empty()
    } else {
        let before = csv_paths(entries.drop_last());
        if is_csv_name(entries.last().file_name@) {
            before.push(entries.last().path)
        } else {
            before
        }
    }
}

/// The votes in the store's shape, in order.
pub open spec fn vote_values(votes: Seq<Vote>) -> Seq<VoteValues> {
    votes.map_values(|v: Vote| v.column_values())
}

/// Whether a file of this name has the extension `csv`.
pub fn has_csv_extension(file_name: &str) -> (b: bool)
    ensures
        b == is_csv_name(file_name@),
{
    let n = file_name.unicode_len();
    if n <= 4 {
        false
    } else {
        file_name.get_char(n - 4) == '.' && file_name.get_char(n - 3) == 'c' && file_name.get_char(
            n - 2,
        ) == 's' && file_name.get_char(n - 1) == 'v'
    }
}

/// Appends the votes, in the store's shape, to `out`.
pub fn append_vote_values(out: &mut Vec<VoteValues>, votes: Vec<Vote>)
    ensures
        final(out)@ == old(out)@ + vote_values(votes@),
{
    for vote in it: votes
        invariant
            it.seq() == votes@,
            out@ == old(out)@ + vote_values(it.seq().take(it.index() as int)),
    {
        proof {
            let done = it.seq().take(it.index() as int);
            let next = it.seq().take(it.index() as int + 1);
            assert(vote_values(next) =~= vote_values(done).push(vote.column_values()));
            assert(old(out)@ + vote_values(next) =~= (old(out)@ + vote_values(done)).push(
                vote.column_values(),
            ));
        }
        out.push(vote.values());
    }
    proof {
        assert(votes@.take(votes@.len() as int) =~= votes@);
    }
}

/// A session of the votes load as contracts speak of it.
pub struct VotesLoadModel {
    /// What the session waits for.
    pub pending: Request,
    pub db_url: Seq<char>,
    pub votes_path: Seq<char>,
    /// The CSV files of the directory, in the order of its listing.
    pub paths: Seq<String>,
    /// The votes read so far, file after file, in the store's shape.
    pub values: Seq<VoteValues>,
    /// How the attempt ended, once it has.
    pub outcome: Option<Result<(), ErrorView>>,
}

impl VotesLoadModel {
    /// The session before its first request.
    pub open spec fn start(db_url: Seq<char>, votes_path: Seq<char>) -> VotesLoadModel {
        VotesLoadModel {
            pending: Request::CheckDbFile,
            db_url,
            votes_path,
            paths: Seq::empty(),
            values: Seq::empty(),
            outcome: None,
        }
    }

    /// The session waiting for `pending`.
    pub open spec fn awaiting(self, pending: Request) -> VotesLoadModel {
        VotesLoadModel { pending, ..self }
    }

    /// The session ended by the error `e`.
    pub open spec fn failed(self, e: ErrorView) -> VotesLoadModel {
        VotesLoadModel { pending: Request::Finished, outcome: Some(Err(e)), ..self }
    }

    /// The session ended by an input/output failure.
    pub open spec fn failed_io(self, e: IoErrorView) -> VotesLoadModel {
        self.failed(ErrorView::IoError(e))
    }

    /// What follows the file with the index `index`: the next file, or the store.
    pub open spec fn after_file(self, index: int) -> Request {
        if index + 1 < self.paths.len() {
            Request::ReadVotes((index + 1) as usize)
        } else {
            Request::OpenPool
        }
    }

    /// The session after the directory is listed.
    pub open spec fn listed(self, entries: Seq<DirEntry>) -> VotesLoadModel {
        let listed = VotesLoadModel { paths: csv_paths(entries), ..self };
        listed.awaiting(listed.after_file(-1))
    }

    /// The session after the rows of the file with the index `index` are there.
    pub open spec fn file_read(
        self,
        index: usize,
        rows: Seq<Result<Vote, String>>,
    ) -> VotesLoadModel {
        if index >= self.paths.len() {
            self
        } else {
            match decoded_file(self.paths[index as int]@, rows) {
                Ok(votes) => VotesLoadModel {
                    pending: self.after_file(index as int),
                    values: self.values + vote_values(votes),
                    ..self
                },
                Err(e) => self.failed_io(e),
            }
        }
    }

    /// The session after the pending action has succeeded with nothing to report.
    pub open spec fn done(self) -> VotesLoadModel {
        match self.pending {
            Request::OpenPool => self.awaiting(Request::GetConnection),
            Request::GetConnection => self.awaiting(Request::InsertVotes),
            Request::InsertVotes => VotesLoadModel {
                pending: Request::Finished,
                outcome: Some(Ok(())),
                ..self
            },
            _ => self,
        }
    }

    /// The session after the driver's answer `reply`. An answer to anything but the
    /// pending request changes nothing.
    pub open spec fn step(self, reply: Reply) -> VotesLoadModel {
        match reply {
            Reply::Failed(e) => if self.pending == Request::Finished {
                self
            } else {
                self.failed_io(self.pending.failure(e@))
            },
            Reply::Done => self.done(),
            Reply::Exists(found) => if self.pending != Request::CheckDbFile {
                self
            } else if found {
                self.awaiting(Request::ListVotes)
            } else {
                self.failed_io(
                    IoErrorView {
                        kind: ErrorKind::NotFound,
                        message: database_not_found_text(self.db_url),
                    },
                )
            },
            Reply::Entries(entries) => if self.pending != Request::ListVotes {
                self
            } else {
                self.listed(entries@)
            },
            Reply::Votes(rows) => match self.pending {
                Request::ReadVotes(index) => self.file_read(index, rows@),
                _ => self,
            },
            _ => self,
        }
    }

    /// The session after the driver's answers `replies`, one after the other.
    pub open spec fn run(self, replies: Seq<Reply>) -> VotesLoadModel
        decreases replies.len(),
    {
        if replies.len() == 0 {
            self
        } else {
            self.run(replies.drop_last()).step(replies.last())
        }
    }

    /// What holds of every session that began at its start, whatever the driver answered:
    /// it has a result exactly when it has finished, and a file that it asks to read is
    /// one of the listed ones.
    pub open spec fn well_formed(self) -> bool {
        &&& self.outcome is Some <==> self.pending == Request::Finished
        &&& self.pending matches Request::ReadVotes(index) ==> index < self.paths.len()
        &&& self.paths.len() <= usize::MAX
    }

    /// The path of the file that the pending request reads.
    pub open spec fn read_path(self) -> Option<String> {
        match self.pending {
            Request::ReadVotes(index) => if index < self.paths.len() {
                Some(self.paths[index as int])
            } else {
                None
            },
            _ => None,
        }
    }
}

/// No more paths are kept than there are entries.
pub proof fn lemma_csv_paths_len(entries: Seq<DirEntry>)
    ensures
        csv_paths(entries).len() <= entries.len(),
    decreases entries.len(),
{
    if entries.len() > 0 {
        lemma_csv_paths_len(entries.drop_last());
    }
}

/// One answer keeps a session well formed.
pub proof fn lemma_step_well_formed(s: VotesLoadModel, reply: Reply)
    requires
        s.well_formed(),
    ensures
        s.step(reply).well_formed(),
{
    match reply {
        Reply::Entries(entries) => {
            lemma_csv_paths_len(entries@);
            assert(entries@.len() == entries.len());
        },
        _ => {},
    }
}

/// Every answer keeps a session well formed.
pub proof fn lemma_run_well_formed(s: VotesLoadModel, replies: Seq<Reply>)
    requires
        s.well_formed(),
    ensures
        s.run(replies).well_formed(),
    decreases replies.len(),
{
    if replies.len() > 0 {
        lemma_run_well_formed(s, replies.drop_last());
        lemma_step_well_formed(s.run(replies.drop_last()), replies.last());
    }
}

/// A session of the votes load. It starts by asking whether the store's file exists, and
/// has finished when its request is `Request::Finished`.
#[derive(Debug)]
pub struct VotesLoad {
    pending: Request,
    db_url: String,
    votes_path: String,
    paths: Vec<String>,
    values: Vec<VoteValues>,
    outcome: Option<Result<(), Error>>,
}

impl View for VotesLoad {
    type V = VotesLoadModel;

    closed spec fn view(&self) -> VotesLoadModel {
        VotesLoadModel {
            pending: self.pending,
            db_url: self.db_url@,
            votes_path: self.votes_path@,
            paths: self.paths@,
            values: self.values@,
            outcome: outcome_view(self.outcome),
        }
    }
}

impl VotesLoad {
    /// A session for the store at `db_url` and the directory at `votes_path`.
    pub fn new(db_url: String, votes_path: String) -> (session: VotesLoad)
        ensures
            session@ == VotesLoadModel::start(db_url@, votes_path@),
            session@.well_formed(),
    {
        VotesLoad {
            pending: Request::CheckDbFile,
            db_url,
            votes_path,
            paths: Vec::new(),
            values: Vec::new(),
            outcome: None,
        }
    }

    /// What the session waits for.
    pub fn request(&self) -> (r: Request)
        ensures
            r == self@.pending,
    {
        self.pending
    }

    /// Where the store is.
    pub fn db_url(&self) -> (url: &String)
        ensures
            url@ == self@.db_url,
    {
        &self.db_url
    }

    /// The directory that holds the votes files.
    pub fn votes_path(&self) -> (path: &String)
        ensures
            path@ == self@.votes_path,
    {
        &self.votes_path
    }

    /// The path of the file that the pending request reads.
    pub fn read_path(&self) -> (path: Option<&String>)
        ensures
            path is Some <==> self@.read_path() is Some,
            path matches Some(p) ==> *p == self@.read_path()->Some_0,
    {
        match self.pending {
            Request::ReadVotes(index) => {
                if index < self.paths.len() {
                    Some(&self.paths[index])
                } else {
                    None
                }
            },
            _ => None,
        }
    }

    /// The votes to insert.
    pub fn votes(&self) -> (records: &Vec<VoteValues>)
        ensures
            records@ == self@.values,
    {
        &self.values
    }

    /// Whether the attempt has ended.
    pub fn has_ended(&self) -> (b: bool)
        ensures
            b == self@.outcome is Some,
    {
        self.outcome.is_some()
    }

    /// How the attempt ended; nothing while it is under way.
    pub fn into_outcome(self) -> (outcome: Option<Result<(), Error>>)
        ensures
            outcome_view(outcome) == self@.outcome,
    {
        self.outcome
    }

    fn awaiting(self, pending: Request) -> (next: VotesLoad)
        ensures
            next@ == self@.awaiting(pending),
    {
        VotesLoad { pending, ..self }
    }

    fn failed(self, e: Error) -> (next: VotesLoad)
        ensures
            next@ == self@.failed(e@),
    {
        VotesLoad { pending: Request::Finished, outcome: Some(Err(e)), ..self }
    }

    fn after_file(&self, next: usize) -> (r: Request)
        requires
            next <= self@.paths.len(),
        ensures
            r == self@.after_file(next - 1),
    {
        if next < self.paths.len() {
            Request::ReadVotes(next)
        } else {
            Request::OpenPool
        }
    }

    fn file_read(self, index: usize, rows: Vec<Result<Vote, String>>) -> (next: VotesLoad)
        ensures
            next@ == self@.file_read(index, rows@),
    {
        if index >= self.paths.len() {
            self
        } else {
            match CsvDataCmd::load_from_csv(self.paths[index].as_str(), rows) {
                Ok(votes) => {
                    let pending = self.after_file(index + 1);
                    let mut values = self.values;
                    append_vote_values(&mut values, votes);
                    VotesLoad {
                        pending,
                        db_url: self.db_url,
                        votes_path: self.votes_path,
                        paths: self.paths,
                        values,
                        outcome: self.outcome,
                    }
                },
                Err(e) => self.failed(Error::IoError(e)),
            }
        }
    }

    fn done(self) -> (next: VotesLoad)
        ensures
            next@ == self@.done(),
    {
        match self.pending {
            Request::OpenPool => self.awaiting(Request::GetConnection),
            Request::GetConnection => self.awaiting(Request::InsertVotes),
            Request::InsertVotes => VotesLoad {
                pending: Request::Finished,
                outcome: Some(Ok(())),
                ..self
            },
            _ => self,
        }
    }

    /// Takes the driver's answer and decides what comes next. An answer to anything but
    /// the pending request changes nothing.
    pub fn resume(self, reply: Reply) -> (next: VotesLoad)
        ensures
            next@ == self@.step(reply),
            self@.well_formed() ==> next@.well_formed(),
    {
        proof {
            if self@.well_formed() {
                lemma_step_well_formed(self@, reply);
            }
        }
        match reply {
            Reply::Failed(e) => {
                if self.pending == Request::Finished {
                    self
                } else {
                    let e = self.pending.failure_of(e);
                    self.failed(Error::IoError(e))
                }
            },
            Reply::Done => self.done(),
            Reply::Exists(found) => {
                if self.pending != Request::CheckDbFile {
                    self
                } else if found {
                    self.awaiting(Request::ListVotes)
                } else {
                    let e = IoError::database_not_found(self.db_url.as_str());
                    self.failed(Error::IoError(e))
                }
            },
            Reply::Entries(entries) => {
                if self.pending != Request::ListVotes {
                    self
                } else {
                    let paths = CsvDataCmd::list_of_csv_paths(entries);
                    let listed = VotesLoad { paths, ..self };
                    let pending = listed.after_file(0);
                    listed.awaiting(pending)
                }
            },
            Reply::Votes(rows) => match self.pending {
                Request::ReadVotes(index) => self.file_read(index, rows),
                _ => self,
            },
            _ => self,
        }
    }

    /// Takes the driver's answers one after the other, as `resume` takes each.
    pub fn run(self, replies: Vec<Reply>) -> (end: VotesLoad)
        ensures
            end@ == self@.run(replies@),
            self@.well_formed() ==> end@.well_formed(),
    {
        let ghost start = self@;
        let mut session = self;
        for reply in it: replies
            invariant
                it.seq() == replies@,
                session@ == start.run(it.seq().take(it.index() as int)),
        {
            proof {
                let next = it.seq().take(it.index() as int + 1);
                assert(next.drop_last() =~= it.seq().take(it.index() as int));
                assert(next.last() == reply);
            }
            session = session.resume(reply);
        }
        proof {
            assert(replies@.take(replies@.len() as int) =~= replies@);
            if start.well_formed() {
                lemma_run_well_formed(start, replies@);
            }
        }
        session
    }
}

/// The votes of all files, file after file.
pub open spec fn all_votes(files: Seq<Seq<Vote>>) -> Seq<Vote>
    decreases files.len(),
{
    if files.len() == 0 {
        Seq::empty()
    } else {
        all_votes(files.drop_last()) + files.last()
    }
}

/// How many votes the files hold together.
pub open spec fn total_votes(files: Seq<Seq<Vote>>) -> nat
    decreases files.len(),
{
    if files.len() == 0 {
        0
    } else {
        total_votes(files.drop_last()) + files.last().len()
    }
}

/// Whether the answers are the decoded rows of the files, one answer for each file.
pub open spec fn answers_hold(replies: Seq<Reply>, files: Seq<Seq<Vote>>) -> bool {
    &&& replies.len() == files.len()
    &&& forall|i: int|
        0 <= i < replies.len() ==> (#[trigger] replies[i] matches Reply::Votes(rows) && all_decoded(
            rows@,
        ) && decoded_records(rows@) == files[i])
}

/// The votes of all files are as many as the files hold together.
pub proof fn lemma_all_votes_len(files: Seq<Seq<Vote>>)
    ensures
        all_votes(files).len() == total_votes(files),
    decreases files.len(),
{
    if files.len() > 0 {
        lemma_all_votes_len(files.drop_last());
    }
}

/// After the first `count` files are read, the session holds their votes, file after file.
proof fn lemma_files_read(
    listed: VotesLoadModel,
    replies: Seq<Reply>,
    files: Seq<Seq<Vote>>,
    count: int,
)
    requires
        listed.pending == listed.after_file(-1),
        listed.values.len() == 0,
        listed.paths.len() <= usize::MAX,
        replies.len() == listed.paths.len(),
        answers_hold(replies, files),
        0 <= count <= replies.len(),
    ensures
        listed.run(replies.take(count)) == (VotesLoadModel {
            pending: listed.after_file(count - 1),
            values: vote_values(all_votes(files.take(count))),
            ..listed
        }),
    decreases count,
{
    if count == 0 {
        assert(replies.take(0).len() == 0);
        assert(files.take(0).len() == 0);
        assert(vote_values(all_votes(files.take(0))) =~= listed.values);
    } else {
        lemma_files_read(listed, replies, files, count - 1);
        let sofar = replies.take(count);
        assert(sofar.drop_last() =~= replies.take(count - 1));
        assert(sofar.last() == replies[count - 1]);
        assert(files.take(count).drop_last() =~= files.take(count - 1));
        assert(files.take(count).last() == files[count - 1]);
        let before = listed.run(replies.take(count - 1));
        assert(before.pending == Request::ReadVotes((count - 1) as usize));
        assert(vote_values(all_votes(files.take(count - 1)) + files[count - 1]) =~= vote_values(
            all_votes(files.take(count - 1)),
        ) + vote_values(files[count - 1]));
    }
}

/// The votes load concatenates: once every CSV file of the directory is read, the batch
/// that goes to the store holds the votes of all files, file after file in the order of
/// the listing, whichever file a vote came from. It holds as many votes as the files hold
/// together, and it is the same batch when the insert is due.
pub proof fn law_votes_are_concatenated(
    db_url: Seq<char>,
    votes_path: Seq<char>,
    entries: Vec<DirEntry>,
    replies: Seq<Reply>,
    files: Seq<Seq<Vote>>,
)
    requires
        replies.len() == csv_paths(entries@).len(),
        answers_hold(replies, files),
    ensures
        ({
            let listed = VotesLoadModel::start(db_url, votes_path).step(Reply::Exists(true)).step(
                Reply::Entries(entries),
            );
            let read = listed.run(replies);
            let connected = read.step(Reply::Done).step(Reply::Done);
            &&& read.pending == Request::OpenPool
            &&& read.values == vote_values(all_votes(files))
            &&& read.values.len() == total_votes(files)
            &&& connected.pending == Request::InsertVotes
            &&& connected.values == read.values
        }),
{
    let listed = VotesLoadModel::start(db_url, votes_path).step(Reply::Exists(true)).step(
        Reply::Entries(entries),
    );
    lemma_csv_paths_len(entries@);
    assert(entries@.len() == entries.len());
    lemma_files_read(listed, replies, files, replies.len() as int);
    assert(replies.take(replies.len() as int) =~= replies);
    assert(files.take(files.len() as int) =~= files);
    lemma_all_votes_len(files);
}

} // verus!
