//! The backup/restore envelope: an import runs on a snapshotted store, and whatever fails
//! after the snapshot has the snapshot put back.

use crate::error::{
    database_not_found_text, restore_failure_text, Error, ErrorKind, ErrorView, IoError,
    IoErrorView,
};
use crate::load::{LoadAll, LoadAllModel};
use crate::protocol::{outcome_view, Reply, Request};
use crate::votes::{VotesLoad, VotesLoadModel};
use vstd::prelude::*;

verus! {

/// Where a guarded import stands.
#[derive(Clone, Copy, Debug, PartialEq, Eq, Structural)]
pub enum Phase {
    /// No snapshot is taken yet; the store is as it was.
    Idle,
    /// The snapshot is taken; the import runs, or has failed and awaits the restore.
    Snapshotted,
    /// Ended: the import went through, and the store holds what it wrote.
    Committed,
    /// Ended: the import failed, and the snapshot is back in place.
    Restored,
    /// Ended: no snapshot could be taken, and the import never ran.
    NotStarted,
    /// Ended: the import failed and the snapshot could not be put back.
    RestoreFailed,
}

/// One of the two imports.
#[derive(Debug)]
pub enum Pipeline {
    All(LoadAll),
    Votes(VotesLoad),
}

/// One of the two imports as contracts speak of it.
pub enum PipelineModel {
    All(LoadAllModel),
    Votes(VotesLoadModel),
}

impl View for Pipeline {
    type V = PipelineModel;

    open spec fn view(&self) -> PipelineModel {
        match self {
            Pipeline::All(session) => PipelineModel::All(session@),
            Pipeline::Votes(session) => PipelineModel::Votes(session@),
        }
    }
}

impl PipelineModel {
    /// What the import waits for.
    pub open spec fn pending(self) -> Request {
        match self {
            PipelineModel::All(session) => session.pending,
            PipelineModel::Votes(session) => session.pending,
        }
    }

    /// Where the store is.
    pub open spec fn db_url(self) -> Seq<char> {
        match self {
            PipelineModel::All(session) => session.db_url,
            PipelineModel::Votes(session) => session.db_url,
        }
    }

    /// How the import ended, once it has.
    pub open spec fn outcome(self) -> Option<Result<(), ErrorView>> {
        match self {
            PipelineModel::All(session) => session.outcome,
            PipelineModel::Votes(session) => session.outcome,
        }
    }

    /// Whether the import is well formed.
    pub open spec fn well_formed(self) -> bool {
        match self {
            PipelineModel::All(session) => session.well_formed(),
            PipelineModel::Votes(session) => session.well_formed(),
        }
    }

    /// The import after the driver's answers `replies`, one after the other.
    pub open spec fn run(self, replies: Seq<Reply>) -> PipelineModel
        decreases replies.len(),
    {
        if replies.len() == 0 {
            self
        } else {
            self.run(replies.drop_last()).step(replies.last())
        }
    }

    /// The import after the driver's answer `reply`.
    pub open spec fn step(self, reply: Reply) -> PipelineModel {
        match self {
            PipelineModel::All(session) => PipelineModel::All(session.step(reply)),
            PipelineModel::Votes(session) => PipelineModel::Votes(session.step(reply)),
        }
    }
}

impl Pipeline {
    /// What the import waits for.
    pub fn request(&self) -> (r: Request)
        ensures
            r == self@.pending(),
    {
        match self {
            Pipeline::All(session) => session.request(),
            Pipeline::Votes(session) => session.request(),
        }
    }

    /// Where the store is.
    pub fn db_url(&self) -> (url: &String)
        ensures
            url@ == self@.db_url(),
    {
        match self {
            Pipeline::All(session) => session.db_url(),
            Pipeline::Votes(session) => session.db_url(),
        }
    }

    /// Whether the import has ended.
    pub fn has_ended(&self) -> (b: bool)
        ensures
            b == self@.outcome() is Some,
    {
        match self {
            Pipeline::All(session) => session.has_ended(),
            Pipeline::Votes(session) => session.has_ended(),
        }
    }

    /// How the import ended; nothing while it is under way.
    pub fn into_outcome(self) -> (outcome: Option<Result<(), Error>>)
        ensures
            outcome_view(outcome) == self@.outcome(),
    {
        match self {
            Pipeline::All(session) => session.into_outcome(),
            Pipeline::Votes(session) => session.into_outcome(),
        }
    }

    /// Takes the driver's answer and decides what comes next.
    pub fn resume(self, reply: Reply) -> (next: Pipeline)
        ensures
            next@ == self@.step(reply),
            self@.well_formed() ==> next@.well_formed(),
    {
        match self {
            Pipeline::All(session) => Pipeline::All(session.resume(reply)),
            Pipeline::Votes(session) => Pipeline::Votes(session.resume(reply)),
        }
    }
}

/// A guarded import as contracts speak of it.
pub struct GuardedModel {
    pub phase: Phase,
    /// What the guarded import waits for.
    pub pending: Request,
    pub db_url: Seq<char>,
    /// The import, while it has not ended.
    pub inner: Option<PipelineModel>,
    /// The error that ended the import, while the restore is awaited.
    pub failure: Option<ErrorView>,
    /// How the attempt ended, once it has.
    pub outcome: Option<Result<(), ErrorView>>,
}

impl GuardedModel {
    /// The guarded import before its first request.
    pub open spec fn start(inner: PipelineModel) -> GuardedModel {
        GuardedModel {
            phase: Phase::Idle,
            pending: Request::CheckDbFile,
            db_url: inner.db_url(),
            inner: Some(inner),
            failure: None,
            outcome: None,
        }
    }

    /// The attempt ended in the phase `phase` with the result `outcome`.
    pub open spec fn ended(self, phase: Phase, outcome: Result<(), ErrorView>) -> GuardedModel {
        GuardedModel {
            phase,
            pending: Request::Finished,
            inner: None,
            failure: None,
            outcome: Some(outcome),
            ..self
        }
    }

    /// The attempt ended before any snapshot was taken.
    pub open spec fn not_started(self, e: IoErrorView) -> GuardedModel {
        self.ended(Phase::NotStarted, Err(ErrorView::IoError(e)))
    }

    /// The envelope once the import `inner` has taken a step: the import goes on, or it
    /// went through and the attempt is committed, or it failed and the restore is due.
    pub open spec fn advanced(self, inner: PipelineModel) -> GuardedModel {
        match inner.outcome() {
            None => GuardedModel { pending: inner.pending(), inner: Some(inner), ..self },
            Some(Ok(_)) => self.ended(Phase::Committed, Ok(())),
            Some(Err(e)) => GuardedModel {
                pending: Request::Restore,
                inner: None,
                failure: Some(e),
                ..self
            },
        }
    }

    /// The envelope after the driver's answer about the restore: restored, the error that
    /// ended the import is the result; not restored, that failure is.
    pub open spec fn restore_answered(self, reply: Reply) -> GuardedModel {
        match reply {
            Reply::Done => match self.failure {
                Some(e) => self.ended(Phase::Restored, Err(e)),
                None => self,
            },
            Reply::Failed(cause) => self.ended(
                Phase::RestoreFailed,
                Err(
                    ErrorView::IoError(
                        IoErrorView {
                            kind: ErrorKind::Other,
                            message: restore_failure_text(cause@.message),
                        },
                    ),
                ),
            ),
            _ => self,
        }
    }

    /// The envelope after the driver's answer to one of its first two requests.
    pub open spec fn idle_answered(self, reply: Reply) -> GuardedModel {
        match reply {
            Reply::Failed(e) => self.not_started(e@),
            Reply::Exists(found) => if self.pending != Request::CheckDbFile {
                self
            } else if found {
                GuardedModel { pending: Request::Backup, ..self }
            } else {
                self.not_started(
                    IoErrorView {
                        kind: ErrorKind::NotFound,
                        message: database_not_found_text(self.db_url),
                    },
                )
            },
            Reply::Done => match (self.pending, self.inner) {
                (Request::Backup, Some(inner)) => GuardedModel {
                    phase: Phase::Snapshotted,
                    pending: inner.pending(),
                    ..self
                },
                _ => self,
            },
            _ => self,
        }
    }

    /// The guarded import after the driver's answer `reply`. An answer to anything but
    /// the pending request changes nothing.
    pub open spec fn step(self, reply: Reply) -> GuardedModel {
        match self.phase {
            Phase::Idle => self.idle_answered(reply),
            Phase::Snapshotted => if self.failure is Some {
                self.restore_answered(reply)
            } else {
                match self.inner {
                    Some(inner) => self.advanced(inner.step(reply)),
                    None => self,
                }
            },
            _ => self,
        }
    }
}

/// A guarded import: one of the two imports inside the backup/restore envelope. It starts
/// by asking whether the store's file exists, and has finished when its request is
/// `Request::Finished`.
#[derive(Debug)]
pub struct Guarded {
    phase: Phase,
    pending: Request,
    db_url: String,
    inner: Option<Pipeline>,
    failure: Option<Error>,
    outcome: Option<Result<(), Error>>,
}

/// An error that may be there, as contracts speak of it.
pub open spec fn failure_view(failure: Option<Error>) -> Option<ErrorView> {
    match failure {
        Some(e) => Some(e@),
        None => None,
    }
}

/// An import that may be there, as contracts speak of it.
pub open spec fn inner_view(inner: Option<Pipeline>) -> Option<PipelineModel> {
    match inner {
        Some(p) => Some(p@),
        None => None,
    }
}

impl View for Guarded {
    type V = GuardedModel;

    closed spec fn view(&self) -> GuardedModel {
        GuardedModel {
            phase: self.phase,
            pending: self.pending,
            db_url: self.db_url@,
            inner: inner_view(self.inner),
            failure: failure_view(self.failure),
            outcome: outcome_view(self.outcome),
        }
    }
}

impl Guarded {
    /// The envelope around the import `inner`.
    pub fn new(inner: Pipeline) -> (guarded: Guarded)
        ensures
            guarded@ == GuardedModel::start(inner@),
            inner@.well_formed() && inner@.outcome() is None ==> guarded@.well_formed(),
    {
        let db_url = inner.db_url().clone();
        Guarded {
            phase: Phase::Idle,
            pending: Request::CheckDbFile,
            db_url,
            inner: Some(inner),
            failure: None,
            outcome: None,
        }
    }

    /// What the guarded import waits for.
    pub fn request(&self) -> (r: Request)
        ensures
            r == self@.pending,
    {
        self.pending
    }

    /// Where the guarded import stands.
    pub fn phase(&self) -> (p: Phase)
        ensures
            p == self@.phase,
    {
        self.phase
    }

    /// Where the store is.
    pub fn db_url(&self) -> (url: &String)
        ensures
            url@ == self@.db_url,
    {
        &self.db_url
    }

    /// The import, while it has not ended: it holds what the pending request reads or
    /// writes.
    pub fn pipeline(&self) -> (inner: Option<&Pipeline>)
        ensures
            inner is Some <==> self@.inner is Some,
            inner matches Some(p) ==> p@ == self@.inner->Some_0,
    {
        self.inner.as_ref()
    }

    /// How the attempt ended; nothing while it is under way.
    pub fn into_outcome(self) -> (outcome: Option<Result<(), Error>>)
        ensures
            outcome_view(outcome) == self@.outcome,
    {
        self.outcome
    }

    fn ended(self, phase: Phase, outcome: Result<(), Error>) -> (next: Guarded)
        ensures
            next@ == self@.ended(
                phase,
                match outcome {
                    Ok(_) => Ok(()),
                    Err(e) => Err(e@),
                },
            ),
    {
        Guarded {
            phase,
            pending: Request::Finished,
            db_url: self.db_url,
            inner: None,
            failure: None,
            outcome: Some(outcome),
        }
    }

    fn advanced(self, inner: Pipeline) -> (next: Guarded)
        ensures
            next@ == self@.advanced(inner@),
    {
        if inner.has_ended() {
            match inner.into_outcome() {
                Some(Ok(_)) => self.ended(Phase::Committed, Ok(())),
                Some(Err(e)) => Guarded {
                    phase: self.phase,
                    pending: Request::Restore,
                    db_url: self.db_url,
                    inner: None,
                    failure: Some(e),
                    outcome: self.outcome,
                },
                None => self,
            }
        } else {
            Guarded {
                phase: self.phase,
                pending: inner.request(),
                db_url: self.db_url,
                inner: Some(inner),
                failure: self.failure,
                outcome: self.outcome,
            }
        }
    }

    fn restore_answered(self, reply: Reply) -> (next: Guarded)
        ensures
            next@ == self@.restore_answered(reply),
    {
        match reply {
            Reply::Done => {
                let Guarded { phase, pending, db_url, inner, failure, outcome } = self;
                match failure {
                    Some(e) => Guarded {
                        phase: Phase::Restored,
                        pending: Request::Finished,
                        db_url,
                        inner: None,
                        failure: None,
                        outcome: Some(Err(e)),
                    },
                    None => Guarded { phase, pending, db_url, inner, failure: None, outcome },
                }
            },
            Reply::Failed(cause) => {
                let e = IoError::restore_failure(cause.message.as_str());
                self.ended(Phase::RestoreFailed, Err(Error::IoError(e)))
            },
            _ => self,
        }
    }

    fn idle_answered(self, reply: Reply) -> (next: Guarded)
        ensures
            next@ == self@.idle_answered(reply),
    {
        match reply {
            Reply::Failed(e) => self.ended(Phase::NotStarted, Err(Error::IoError(e))),
            Reply::Exists(found) => {
                if self.pending != Request::CheckDbFile {
                    self
                } else if found {
                    Guarded { pending: Request::Backup, ..self }
                } else {
                    let e = IoError::database_not_found(self.db_url.as_str());
                    self.ended(Phase::NotStarted, Err(Error::IoError(e)))
                }
            },
            Reply::Done => {
                if self.pending != Request::Backup {
                    self
                } else {
                    match &self.inner {
                        Some(inner) => {
                            let pending = inner.request();
                            Guarded { phase: Phase::Snapshotted, pending, ..self }
                        },
                        None => self,
                    }
                }
            },
            _ => self,
        }
    }

    /// Takes the driver's answer and decides what comes next. An answer to anything but
    /// the pending request changes nothing.
    pub fn resume(self, reply: Reply) -> (next: Guarded)
        ensures
            next@ == self@.step(reply),
            self@.well_formed() ==> next@.well_formed(),
    {
        proof {
            if self@.well_formed() {
                lemma_step_well_formed(self@, reply);
            }
        }
        match self.phase {
            Phase::Idle => self.idle_answered(reply),
            Phase::Snapshotted => {
                if self.failure.is_some() {
                    self.restore_answered(reply)
                } else {
                    let Guarded { phase, pending, db_url, inner, failure, outcome } = self;
                    match inner {
                        Some(running) => {
                            let stepped = running.resume(reply);
                            let rest = Guarded {
                                phase,
                                pending,
                                db_url,
                                inner: None,
                                failure,
                                outcome,
                            };
                            rest.advanced(stepped)
                        },
                        None => Guarded { phase, pending, db_url, inner: None, failure, outcome },
                    }
                }
            },
            _ => self,
        }
    }

    /// Takes the driver's answers one after the other, as `resume` takes each.
    pub fn run(self, replies: Vec<Reply>) -> (end: Guarded)
        ensures
            end@ == self@.run(replies@),
            self@.well_formed() ==> end@.well_formed(),
    {
        let ghost start = self@;
        let mut session = self;
        for reply in it: replies
            invariant
                it.seq() == replies@,
                session@ == start.run(it.seq().take(it.index() as int)),
        {
            proof {
                let next = it.seq().take(it.index() as int + 1);
                assert(next.drop_last() =~= it.seq().take(it.index() as int));
                assert(next.last() == reply);
            }
            session = session.resume(reply);
        }
        proof {
            assert(replies@.take(replies@.len() as int) =~= replies@);
            if start.well_formed() {
                lemma_run_well_formed(start, replies@);
            }
        }
        session
    }
}

impl GuardedModel {
    /// The guarded import after the driver's answers `replies`, one after the other.
    pub open spec fn run(self, replies: Seq<Reply>) -> GuardedModel
        decreases replies.len(),
    {
        if replies.len() == 0 {
            self
        } else {
            self.run(replies.drop_last()).step(replies.last())
        }
    }

    /// What holds of every guarded import that began at its start, whatever the driver
    /// answered: the phase, the pending request and the result fit each other.
    pub open spec fn well_formed(self) -> bool {
        match self.phase {
            Phase::Idle => {
                &&& self.pending == Request::CheckDbFile || self.pending == Request::Backup
                &&& self.inner matches Some(inner) && inner.outcome() is None
                    && inner.well_formed()
                &&& self.failure is None
                &&& self.outcome is None
            },
            Phase::Snapshotted => {
                &&& self.outcome is None
                &&& if self.failure is Some {
                    self.pending == Request::Restore && self.inner is None
                } else {
                    self.inner matches Some(inner) && inner.outcome() is None
                        && inner.well_formed() && self.pending == inner.pending()
                }
            },
            Phase::Committed => {
                &&& self.pending == Request::Finished
                &&& self.outcome == Some(Ok::<(), ErrorView>(()))
            },
            Phase::Restored => {
                &&& self.pending == Request::Finished
                &&& self.outcome matches Some(Err(_))
            },
            Phase::NotStarted => {
                &&& self.pending == Request::Finished
                &&& self.outcome matches Some(Err(ErrorView::IoError(_)))
            },
            Phase::RestoreFailed => {
                &&& self.pending == Request::Finished
                &&& self.outcome matches Some(Err(ErrorView::IoError(e))) && e.kind
                    == ErrorKind::Other
            },
        }
    }

    /// Whether the guarded import and the import inside it stand as the answers
    /// `replies` put them, where the import got the answers from `from` up to `to` and
    /// no others.
    pub open spec fn ran_inside(
        self,
        inner: PipelineModel,
        replies: Seq<Reply>,
        from: int,
        to: int,
    ) -> bool {
        &&& 0 <= from <= to <= replies.len()
        &&& match self.phase {
            Phase::Idle => false,
            Phase::NotStarted => false,
            Phase::Snapshotted => match self.failure {
                Some(e) => inner.run(replies.subrange(from, to)).outcome() == Some(
                    Err::<(), ErrorView>(e),
                ),
                None => to == replies.len() && self.inner == Some(
                    inner.run(replies.subrange(from, to)),
                ),
            },
            Phase::Committed => inner.run(replies.subrange(from, to)).outcome() == Some(
                Ok::<(), ErrorView>(()),
            ),
            Phase::Restored => self.outcome is Some && self.outcome != Some(
                Ok::<(), ErrorView>(()),
            ) && inner.run(replies.subrange(from, to)).outcome() == self.outcome,
            Phase::RestoreFailed => inner.run(replies.subrange(from, to)).outcome() matches Some(
                Err(_),
            ),
        }
    }
}

/// One answer keeps an import well formed.
pub proof fn lemma_pipeline_step_well_formed(p: PipelineModel, reply: Reply)
    requires
        p.well_formed(),
    ensures
        p.step(reply).well_formed(),
{
    match p {
        PipelineModel::All(session) => crate::load::lemma_step_well_formed(session, reply),
        PipelineModel::Votes(session) => crate::votes::lemma_step_well_formed(session, reply),
    }
}

/// One answer keeps a guarded import well formed.
pub proof fn lemma_step_well_formed(s: GuardedModel, reply: Reply)
    requires
        s.well_formed(),
    ensures
        s.step(reply).well_formed(),
{
    if s.inner is Some && s.inner->Some_0.well_formed() {
        lemma_pipeline_step_well_formed(s.inner->Some_0, reply);
    }
}

/// Every answer keeps a guarded import well formed.
pub proof fn lemma_run_well_formed(s: GuardedModel, replies: Seq<Reply>)
    requires
        s.well_formed(),
    ensures
        s.run(replies).well_formed(),
    decreases replies.len(),
{
    if replies.len() > 0 {
        lemma_run_well_formed(s, replies.drop_last());
        lemma_step_well_formed(s.run(replies.drop_last()), replies.last());
    }
}

/// Whatever the driver answers, a guarded import is well formed. So it asks for nothing
/// once it has a result, and it ends in exactly one of four ways: committed, which is
/// the only way to end well; restored; without a snapshot; or with the restore failed,
/// which is reported as such.
pub proof fn law_guarded_run_is_well_formed(inner: PipelineModel, replies: Seq<Reply>)
    requires
        inner.well_formed(),
        inner.outcome() is None,
    ensures
        GuardedModel::start(inner).run(replies).well_formed(),
{
    lemma_run_well_formed(GuardedModel::start(inner), replies);
}

/// The store takes writes under a snapshot only: while a write is pending, the snapshot
/// is taken and no result is there yet.
pub proof fn law_writes_only_under_snapshot(inner: PipelineModel, replies: Seq<Reply>)
    requires
        inner.well_formed(),
        inner.outcome() is None,
        GuardedModel::start(inner).run(replies).pending.is_insert(),
    ensures
        GuardedModel::start(inner).run(replies).phase == Phase::Snapshotted,
        GuardedModel::start(inner).run(replies).outcome is None,
{
    law_guarded_run_is_well_formed(inner, replies);
}

/// Until the snapshot is taken, the import inside the envelope has not taken a step: no
/// answer has reached it.
pub proof fn law_nothing_runs_before_snapshot(inner: PipelineModel, replies: Seq<Reply>)
    requires
        inner.well_formed(),
        inner.outcome() is None,
    ensures
        GuardedModel::start(inner).run(replies).phase == Phase::Idle ==> GuardedModel::start(
            inner,
        ).run(replies).inner == Some(inner),
        GuardedModel::start(inner).run(replies).phase == Phase::NotStarted ==> replies.len() > 0
            && exists|i: int|
            0 <= i < replies.len() && GuardedModel::start(inner).run(
                #[trigger] replies.take(i),
            ).phase == Phase::Idle,
    decreases replies.len(),
{
    let start = GuardedModel::start(inner);
    if replies.len() > 0 {
        let before = start.run(replies.drop_last());
        law_nothing_runs_before_snapshot(inner, replies.drop_last());
        law_guarded_run_is_well_formed(inner, replies.drop_last());
        if start.run(replies).phase == Phase::NotStarted {
            if before.phase == Phase::NotStarted {
                let i = choose|i: int|
                    0 <= i < replies.drop_last().len() && start.run(
                        #[trigger] replies.drop_last().take(i),
                    ).phase == Phase::Idle;
                assert(replies.drop_last().take(i) =~= replies.take(i));
            } else {
                let i = replies.len() - 1;
                assert(replies.take(i) =~= replies.drop_last());
            }
        }
    }
}

/// Once the snapshot is taken, the import inside the envelope has got a stretch of the
/// driver's answers, one after the other, and no others: all answers since the snapshot
/// while it runs, and those up to its own end afterwards. A committed attempt is one
/// whose import went through; a restored attempt ends with the very error that ended its
/// import.
pub proof fn law_import_runs_inside(inner: PipelineModel, replies: Seq<Reply>)
    requires
        inner.well_formed(),
        inner.outcome() is None,
    ensures
        ({
            let end = GuardedModel::start(inner).run(replies);
            end.phase != Phase::Idle && end.phase != Phase::NotStarted ==> exists|
                from: int,
                to: int,
            | #[trigger] end.ran_inside(inner, replies, from, to)
        }),
    decreases replies.len(),
{
    let start = GuardedModel::start(inner);
    let end = start.run(replies);
    if replies.len() > 0 && end.phase != Phase::Idle && end.phase != Phase::NotStarted {
        let shorter = replies.drop_last();
        let before = start.run(shorter);
        law_import_runs_inside(inner, shorter);
        law_nothing_runs_before_snapshot(inner, shorter);
        law_guarded_run_is_well_formed(inner, shorter);
        let len = replies.len() as int;
        if before.phase == Phase::Idle {
            assert(replies.subrange(len, len) =~= Seq::<Reply>::empty());
            assert(end.ran_inside(inner, replies, len, len));
        } else {
            let (from, to) = choose|from: int, to: int| #[trigger]
                before.ran_inside(inner, shorter, from, to);
            assert(shorter.subrange(from, to) =~= replies.subrange(from, to));
            if before.phase == Phase::Snapshotted && before.failure is None {
                assert(replies.subrange(from, len).drop_last() =~= replies.subrange(from, to));
                assert(replies.subrange(from, len).last() == replies.last());
                assert(end.ran_inside(inner, replies, from, len));
            } else {
                assert(end.ran_inside(inner, replies, from, to));
            }
        }
    }
}

/// When the import fails after the snapshot, the envelope asks for the restore and for
/// nothing else. Once the snapshot is back, the attempt ends restored with the error that
/// ended the import; if it cannot be put back, the attempt ends with that failure,
/// reported as the restore's own.
pub proof fn law_failed_import_is_restored(
    s: GuardedModel,
    reply: Reply,
    e: ErrorView,
    cause: crate::error::IoError,
)
    requires
        s.phase == Phase::Snapshotted,
        s.failure is None,
        s.inner matches Some(inner) && inner.step(reply).outcome() == Some(
            Err::<(), ErrorView>(e),
        ),
    ensures
        s.step(reply).phase == Phase::Snapshotted,
        s.step(reply).pending == Request::Restore,
        s.step(reply).step(Reply::Done).phase == Phase::Restored,
        s.step(reply).step(Reply::Done).outcome == Some(Err::<(), ErrorView>(e)),
        s.step(reply).step(Reply::Failed(cause)).phase == Phase::RestoreFailed,
        s.step(reply).step(Reply::Failed(cause)).outcome == Some(
            Err::<(), ErrorView>(
                ErrorView::IoError(
                    IoErrorView {
                        kind: ErrorKind::Other,
                        message: restore_failure_text(cause@.message),
                    },
                ),
            ),
        ),
{
}

/// When the import goes through, the attempt is committed at once: no restore is asked
/// for.
pub proof fn law_finished_import_is_committed(s: GuardedModel, reply: Reply)
    requires
        s.phase == Phase::Snapshotted,
        s.failure is None,
        s.inner matches Some(inner) && inner.step(reply).outcome() == Some(
            Ok::<(), ErrorView>(()),
        ),
    ensures
        s.step(reply).phase == Phase::Committed,
        s.step(reply).pending == Request::Finished,
        s.step(reply).outcome == Some(Ok::<(), ErrorView>(())),
{
}

/// An attempt that is repeated with the same input fails alike: a guarded import is a
/// function of the driver's answers, so the same answers end it in the same phase with
/// the same error.
pub proof fn law_repeated_attempt_ends_alike(
    inner: PipelineModel,
    first: Seq<Reply>,
    second: Seq<Reply>,
)
    requires
        first == second,
    ensures
        GuardedModel::start(inner).run(first).phase == GuardedModel::start(inner).run(
            second,
        ).phase,
        GuardedModel::start(inner).run(first).outcome == GuardedModel::start(inner).run(
            second,
        ).outcome,
{
}

} // verus!
