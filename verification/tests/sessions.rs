use vit_servicing_station::decoded;
use vit_servicing_station::envelope::{Guarded, Phase, Pipeline};
use vit_servicing_station::error::{Error, ErrorKind, IoError};
use vit_servicing_station::loaders::{CsvDataCmd, Load};
use vit_servicing_station::models::{ChallengeType, Fund, InsertGoal, Vote, Voteplan};
use vit_servicing_station::protocol::{DirEntry, Reply, Request};

fn fund(id: i32, name: &str) -> Fund {
    Fund {
        id,
        fund_name: name.to_string(),
        fund_goal: format!("goal of {}", name),
        registration_snapshot_time: 1,
        next_registration_snapshot_time: 2,
        voting_power_threshold: 450,
        fund_start_time: 3,
        fund_end_time: 4,
        next_fund_start_time: 5,
        insight_sharing_start: 6,
        proposal_submission_start: 7,
        refine_proposals_start: 8,
        finalize_proposals_start: 9,
        proposal_assessment_start: 10,
        assessment_qa_start: 11,
        snapshot_start: 12,
        voting_start: 13,
        voting_end: 14,
        tallying_end: 15,
        results_url: None,
        survey_url: Some("http://survey".to_string()),
    }
}

fn voteplan(key: &str, fund_id: i32) -> Voteplan {
    Voteplan {
        id: 0,
        chain_voteplan_id: key.to_string(),
        chain_vote_start_time: 1,
        chain_vote_end_time: 2,
        chain_committee_end_time: 3,
        chain_voteplan_payload: "public".to_string(),
        chain_vote_encryption_key: "".to_string(),
        fund_id,
    }
}

fn challenge(id: i32, challenge_type: ChallengeType) -> decoded::Challenge {
    decoded::Challenge {
        id,
        challenge_type,
        title: format!("challenge {}", id),
        description: "description".to_string(),
        rewards_total: 100,
        proposers_rewards: 90,
        fund_id: 1000 + id,
        challenge_url: format!("http://challenge/{}", id),
        highlights: None,
    }
}

fn proposal(proposal_id: &str, challenge_id: i32) -> decoded::Proposal {
    decoded::Proposal {
        id: 0,
        proposal_id: proposal_id.to_string(),
        proposal_category: "category".to_string(),
        proposal_title: "title".to_string(),
        proposal_summary: "summary".to_string(),
        proposal_public_key: "key".to_string(),
        proposal_funds: 10,
        proposal_url: "url".to_string(),
        proposal_files_url: "files".to_string(),
        proposal_impact_score: 1,
        proposer_name: "name".to_string(),
        proposer_contact: "contact".to_string(),
        proposer_url: "url".to_string(),
        proposer_relevant_experience: "experience".to_string(),
        chain_proposal_id: vec![7],
        chain_proposal_index: 0,
        chain_vote_options: "yes,no".to_string(),
        chain_voteplan_id: "vp1".to_string(),
        challenge_id,
        proposal_solution: Some("solution".to_string()),
        proposal_brief: Some("brief".to_string()),
        proposal_importance: None,
        proposal_goal: None,
        proposal_metrics: None,
    }
}

fn review(id: i32, rating: i64) -> decoded::AdvisorReview {
    decoded::AdvisorReview {
        id,
        proposal_id: 1,
        assessor: "assessor".to_string(),
        impact_alignment_rating_given: Some(rating),
        impact_alignment_note: None,
        feasibility_rating_given: None,
        feasibility_note: None,
        auditability_rating_given: None,
        auditability_note: None,
        ranking: None,
        rating_given: Some(4),
        tag: None,
        note: None,
    }
}

fn vote(fragment_id: String) -> Vote {
    Vote {
        fragment_id,
        caster: "caster".to_string(),
        proposal: 1,
        voteplan_id: "vp1".to_string(),
        time_bits: 0,
        choice: None,
        raw_fragment: "".to_string(),
    }
}

/// What the files hold, told by a few numbers, so that each read can build its rows anew.
struct Input {
    funds: usize,
    proposal_challenges: Vec<i32>,
    review_rating: i64,
    vote_files: Vec<(String, usize)>,
    broken_vote_file: Option<usize>,
}

impl Input {
    fn well_formed() -> Input {
        Input {
            funds: 2,
            proposal_challenges: vec![2, 1],
            review_rating: 5,
            vote_files: vec![("b.csv".to_string(), 3), ("a.csv".to_string(), 5)],
            broken_vote_file: None,
        }
    }
}

/// A store that lives in memory: its file is a list of rows.
struct Store {
    exists: bool,
    rows: Vec<String>,
    snapshot: Option<Vec<String>>,
    next_fund_id: i32,
    fail_on: Option<Request>,
    restore_fails: bool,
    asked: Vec<Request>,
}

impl Store {
    fn with_rows(rows: &[&str]) -> Store {
        Store {
            exists: true,
            rows: rows.iter().map(|r| r.to_string()).collect(),
            snapshot: None,
            next_fund_id: 1,
            fail_on: None,
            restore_fails: false,
            asked: Vec::new(),
        }
    }
}

fn answer(
    pipeline: Option<&Pipeline>,
    request: Request,
    input: &Input,
    store: &mut Store,
) -> Reply {
    if store.fail_on == Some(request) {
        return Reply::Failed(IoError::new(ErrorKind::NotFound, "the driver failed".to_string()));
    }
    match request {
        Request::CheckDbFile => Reply::Exists(store.exists),
        Request::Backup => {
            store.snapshot = Some(store.rows.clone());
            Reply::Done
        }
        Request::Restore => {
            if store.restore_fails {
                return Reply::Failed(IoError::new(ErrorKind::Other, "disk full".to_string()));
            }
            store.rows = store.snapshot.clone().unwrap();
            Reply::Done
        }
        Request::ReadFunds => Reply::Funds(
            (0..input.funds).map(|i| Ok(fund(500 + i as i32, &format!("fund{}", i)))).collect(),
        ),
        Request::ReadVoteplans => Reply::Voteplans(vec![Ok(voteplan("vp1", 99))]),
        Request::ReadChallenges => Reply::Challenges(vec![
            Ok(challenge(1, ChallengeType::Simple)),
            Ok(challenge(2, ChallengeType::CommunityChoice)),
        ]),
        Request::ReadProposals => Reply::Proposals(
            input
                .proposal_challenges
                .iter()
                .enumerate()
                .map(|(i, c)| Ok(proposal(&format!("idea{}", i), *c)))
                .collect(),
        ),
        Request::ReadReviews => Reply::Reviews(vec![Ok(review(1, input.review_rating))]),
        Request::ReadGoals => Reply::Goals(vec![
            Ok(InsertGoal { goal_name: "g1".to_string(), fund_id: 0 }),
            Ok(InsertGoal { goal_name: "g2".to_string(), fund_id: 77 }),
        ]),
        Request::ListVotes => {
            let mut entries = vec![DirEntry {
                path: "votes/readme.txt".to_string(),
                file_name: "readme.txt".to_string(),
            }];
            for (name, _) in input.vote_files.iter() {
                entries
                    .push(DirEntry { path: format!("votes/{}", name), file_name: name.clone() });
            }
            Reply::Entries(entries)
        }
        Request::ReadVotes(index) => {
            let path = match pipeline {
                Some(Pipeline::Votes(votes)) => votes.read_path().unwrap().clone(),
                _ => panic!("no votes load is running"),
            };
            let (name, count) = &input.vote_files[index];
            assert_eq!(path, format!("votes/{}", name));
            let mut rows: Vec<Result<Vote, String>> =
                (0..*count).map(|i| Ok(vote(format!("{}#{}", name, i)))).collect();
            if input.broken_vote_file == Some(index) {
                rows.push(Err("record 4: found 2 fields".to_string()));
            }
            Reply::Votes(rows)
        }
        Request::OpenPool | Request::GetConnection => Reply::Done,
        Request::Finished => panic!("a finished session asks for nothing"),
        insert => {
            let id = store.next_fund_id;
            match (pipeline, insert) {
                (Some(Pipeline::All(all)), Request::InsertFund(_)) => {
                    let fund = all.fund().unwrap();
                    store.rows.push(format!("fund {} {}", fund.id, fund.fund_name));
                    store.next_fund_id += 1;
                    return Reply::FundId(id);
                }
                (Some(Pipeline::All(all)), Request::InsertVoteplans) => {
                    for v in all.voteplans() {
                        let row = format!("voteplan {} of {}", v.chain_voteplan_id, v.fund_id);
                        store.rows.push(row);
                    }
                }
                (Some(Pipeline::All(all)), Request::InsertProposals) => {
                    for p in all.proposals() {
                        store.rows.push(format!("proposal {} of {}", p.proposal_id, p.fund_id));
                    }
                }
                (Some(Pipeline::All(all)), Request::InsertSimpleChallengeData) => {
                    for r in all.simple_challenge_data() {
                        store.rows.push(format!("simple {}", r.proposal_id));
                    }
                }
                (Some(Pipeline::All(all)), Request::InsertCommunityChoiceChallengeData) => {
                    for r in all.community_choice_challenge_data() {
                        store.rows.push(format!("community-choice {}", r.proposal_id));
                    }
                }
                (Some(Pipeline::All(all)), Request::InsertChallenges) => {
                    for c in all.challenges() {
                        store.rows.push(format!("challenge {} of {}", c.id, c.fund_id));
                    }
                }
                (Some(Pipeline::All(all)), Request::InsertAdvisorReviews) => {
                    for r in all.advisor_reviews() {
                        store.rows.push(format!("review {}", r.id));
                    }
                }
                (Some(Pipeline::All(all)), Request::InsertGoals) => {
                    for g in all.goals() {
                        store.rows.push(format!("goal {} of {}", g.goal_name, g.fund_id));
                    }
                }
                (Some(Pipeline::Votes(votes)), Request::InsertVotes) => {
                    for v in votes.votes() {
                        store.rows.push(format!("vote {}", v.fragment_id));
                    }
                }
                _ => panic!("nothing holds what {:?} writes", insert),
            }
            Reply::Done
        }
    }
}

fn drive(mut session: Guarded, input: &Input, store: &mut Store) -> (Phase, Result<(), Error>) {
    loop {
        let request = session.request();
        if request == Request::Finished {
            break;
        }
        store.asked.push(request);
        let reply = answer(session.pipeline(), request, input, store);
        session = session.resume(reply);
    }
    (session.phase(), session.into_outcome().unwrap())
}

fn load_all() -> Guarded {
    CsvDataCmd::handle_load_with_db_backup(
        "db.sqlite",
        "funds.csv",
        "voteplans.csv",
        "proposals.csv",
        "challenges.csv",
        "reviews.csv",
        "goals.csv",
    )
}

fn load_votes() -> Guarded {
    CsvDataCmd::new("db.sqlite".to_string(), Load::Votes { folder: "votes".to_string() }).exec()
}

fn io_error(outcome: Result<(), Error>) -> IoError {
    match outcome {
        Err(Error::IoError(e)) => e,
        other => panic!("not an input/output failure: {:?}", other),
    }
}

#[test]
fn load_all_writes_the_batch_in_order_under_the_first_fund() {
    let mut store = Store::with_rows(&["old row"]);
    store.next_fund_id = 1;
    let (phase, outcome) = drive(load_all(), &Input::well_formed(), &mut store);
    assert_eq!(phase, Phase::Committed);
    assert_eq!(outcome, Ok(()));
    assert_eq!(
        store.rows,
        vec![
            "old row",
            "fund 500 fund0",
            "fund 501 fund1",
            "voteplan vp1 of 1",
            "proposal idea0 of 1",
            "proposal idea1 of 1",
            "simple idea1",
            "community-choice idea0",
            "challenge 1 of 1",
            "challenge 2 of 1",
            "review 1",
            "goal g1 of 1",
            "goal g2 of 1",
        ]
    );
    assert_eq!(
        store.asked,
        vec![
            Request::CheckDbFile,
            Request::Backup,
            Request::CheckDbFile,
            Request::ReadFunds,
            Request::ReadVoteplans,
            Request::ReadChallenges,
            Request::ReadProposals,
            Request::ReadReviews,
            Request::ReadGoals,
            Request::OpenPool,
            Request::GetConnection,
            Request::InsertFund(0),
            Request::InsertFund(1),
            Request::InsertVoteplans,
            Request::InsertProposals,
            Request::InsertSimpleChallengeData,
            Request::InsertCommunityChoiceChallengeData,
            Request::InsertChallenges,
            Request::InsertAdvisorReviews,
            Request::InsertGoals,
        ]
    );
}

#[test]
fn generated_identifier_is_what_gets_propagated() {
    let mut store = Store::with_rows(&[]);
    store.next_fund_id = 41;
    let mut input = Input::well_formed();
    input.funds = 1;
    let (phase, _) = drive(load_all(), &input, &mut store);
    assert_eq!(phase, Phase::Committed);
    assert!(store.rows.contains(&"fund 500 fund0".to_string()));
    assert!(store.rows.contains(&"voteplan vp1 of 41".to_string()));
    assert!(store.rows.contains(&"proposal idea0 of 41".to_string()));
    assert!(store.rows.contains(&"challenge 2 of 41".to_string()));
    assert!(store.rows.contains(&"goal g2 of 41".to_string()));
    assert!(!store.asked.contains(&Request::InsertFund(1)));
}

#[test]
fn missing_challenge_fails_the_load_and_leaves_the_store_as_it_was() {
    let mut store = Store::with_rows(&["old row", "another"]);
    let mut input = Input::well_formed();
    input.proposal_challenges = vec![1, 77, 88];
    let (phase, outcome) = drive(load_all(), &input, &mut store);
    assert_eq!(phase, Phase::Restored);
    let e = io_error(outcome);
    assert_eq!(e.kind, ErrorKind::InvalidData);
    assert_eq!(e.message, "Challenge with id 77 not found");
    assert_eq!(store.rows, vec!["old row", "another"]);
    assert_eq!(store.asked.last(), Some(&Request::Restore));
    assert!(!store.asked.contains(&Request::OpenPool));
    assert!(!store.asked.contains(&Request::InsertFund(0)));
}

#[test]
fn failing_twice_on_the_same_input_fails_alike() {
    let mut store = Store::with_rows(&["old row"]);
    let mut input = Input::well_formed();
    input.proposal_challenges = vec![5];
    let (first_phase, first) = drive(load_all(), &input, &mut store);
    assert_eq!(store.rows, vec!["old row"]);
    let (second_phase, second) = drive(load_all(), &input, &mut store);
    assert_eq!(store.rows, vec!["old row"]);
    assert_eq!(first_phase, Phase::Restored);
    assert_eq!(second_phase, Phase::Restored);
    let (first, second) = (io_error(first), io_error(second));
    assert_eq!(first.kind, ErrorKind::InvalidData);
    assert_eq!(first.kind, second.kind);
    assert_eq!(first, second);
}

#[test]
fn write_failure_on_goals_is_rolled_back() {
    let mut store = Store::with_rows(&["old row"]);
    store.fail_on = Some(Request::InsertGoals);
    let (phase, outcome) = drive(load_all(), &Input::well_formed(), &mut store);
    assert_eq!(phase, Phase::Restored);
    let e = io_error(outcome);
    assert_eq!(e.kind, ErrorKind::Other);
    assert_eq!(e.message, "the driver failed");
    assert!(store.asked.contains(&Request::InsertVoteplans));
    assert!(store.asked.contains(&Request::InsertProposals));
    assert!(store.asked.contains(&Request::InsertChallenges));
    assert!(store.asked.contains(&Request::InsertAdvisorReviews));
    assert_eq!(&store.asked[store.asked.len() - 2..], &[Request::InsertGoals, Request::Restore]);
    assert_eq!(store.rows, vec!["old row"]);
}

#[test]
fn first_write_failure_stops_the_remaining_writes() {
    let mut store = Store::with_rows(&[]);
    store.fail_on = Some(Request::InsertProposals);
    let (phase, outcome) = drive(load_all(), &Input::well_formed(), &mut store);
    assert_eq!(phase, Phase::Restored);
    assert_eq!(io_error(outcome).kind, ErrorKind::Other);
    assert!(store.asked.contains(&Request::InsertVoteplans));
    assert!(!store.asked.contains(&Request::InsertSimpleChallengeData));
    assert!(!store.asked.contains(&Request::InsertGoals));
    assert!(store.rows.is_empty());
}

#[test]
fn failures_to_connect_are_filed_by_their_step() {
    let mut store = Store::with_rows(&[]);
    store.fail_on = Some(Request::OpenPool);
    let (phase, outcome) = drive(load_all(), &Input::well_formed(), &mut store);
    assert_eq!(phase, Phase::Restored);
    let e = io_error(outcome);
    assert_eq!(e.kind, ErrorKind::InvalidInput);
    assert_eq!(e.message, "the driver failed");
    assert!(!store.asked.contains(&Request::GetConnection));

    let mut store = Store::with_rows(&[]);
    store.fail_on = Some(Request::GetConnection);
    let (_, outcome) = drive(load_all(), &Input::well_formed(), &mut store);
    assert_eq!(io_error(outcome).kind, ErrorKind::NotConnected);
    assert!(!store.asked.contains(&Request::InsertFund(0)));

    let mut store = Store::with_rows(&[]);
    store.fail_on = Some(Request::InsertFund(1));
    let (_, outcome) = drive(load_all(), &Input::well_formed(), &mut store);
    assert_eq!(io_error(outcome).kind, ErrorKind::Other);
    assert!(!store.asked.contains(&Request::InsertVoteplans));
    assert!(store.rows.is_empty());
}

#[test]
fn unreadable_file_keeps_the_class_that_the_driver_reports() {
    let mut store = Store::with_rows(&["old row"]);
    store.fail_on = Some(Request::ReadChallenges);
    let (phase, outcome) = drive(load_all(), &Input::well_formed(), &mut store);
    assert_eq!(phase, Phase::Restored);
    assert_eq!(io_error(outcome).kind, ErrorKind::NotFound);
    assert!(!store.asked.contains(&Request::ReadProposals));
    assert_eq!(store.rows, vec!["old row"]);
}

#[test]
fn empty_funds_input_is_invalid_fund_data() {
    let mut store = Store::with_rows(&["old row"]);
    let mut input = Input::well_formed();
    input.funds = 0;
    let (phase, outcome) = drive(load_all(), &input, &mut store);
    assert_eq!(phase, Phase::Restored);
    assert_eq!(outcome, Err(Error::InvalidFundData("funds.csv".to_string())));
    assert!(store.asked.contains(&Request::GetConnection));
    assert!(!store.asked.contains(&Request::InsertFund(0)));
    assert_eq!(store.rows, vec!["old row"]);
}

#[test]
fn unfit_review_rating_fails_the_load_before_the_goals_are_read() {
    let mut store = Store::with_rows(&[]);
    let mut input = Input::well_formed();
    input.review_rating = 1 << 33;
    let (phase, outcome) = drive(load_all(), &input, &mut store);
    assert_eq!(phase, Phase::Restored);
    let e = io_error(outcome);
    assert_eq!(e.kind, ErrorKind::InvalidData);
    assert_eq!(e.message, "Rating 8589934592 is out of range");
    assert!(!store.asked.contains(&Request::ReadGoals));
}

#[test]
fn missing_store_file_stops_before_the_snapshot() {
    let mut store = Store::with_rows(&[]);
    store.exists = false;
    let (phase, outcome) = drive(load_all(), &Input::well_formed(), &mut store);
    assert_eq!(phase, Phase::NotStarted);
    let e = io_error(outcome);
    assert_eq!(e.kind, ErrorKind::NotFound);
    assert_eq!(e.message, "database not found: db.sqlite");
    assert_eq!(store.asked, vec![Request::CheckDbFile]);
    assert_eq!(store.snapshot, None);
}

#[test]
fn failed_snapshot_stops_the_attempt() {
    let mut store = Store::with_rows(&["old row"]);
    store.fail_on = Some(Request::Backup);
    let (phase, outcome) = drive(load_votes(), &Input::well_formed(), &mut store);
    assert_eq!(phase, Phase::NotStarted);
    assert_eq!(
        outcome,
        Err(Error::IoError(IoError::new(ErrorKind::NotFound, "the driver failed".to_string())))
    );
    assert_eq!(store.asked, vec![Request::CheckDbFile, Request::Backup]);
    assert_eq!(store.rows, vec!["old row"]);
}

#[test]
fn failed_restore_is_reported_as_such() {
    let mut store = Store::with_rows(&["old row"]);
    store.fail_on = Some(Request::InsertChallenges);
    store.restore_fails = true;
    let (phase, outcome) = drive(load_all(), &Input::well_formed(), &mut store);
    assert_eq!(phase, Phase::RestoreFailed);
    let e = io_error(outcome);
    assert_eq!(e.kind, ErrorKind::Other);
    assert_eq!(e.message, "backup restore failed: disk full");
    assert_eq!(store.asked.last(), Some(&Request::Restore));
}

#[test]
fn votes_of_all_files_go_in_one_batch() {
    let mut store = Store::with_rows(&["old row"]);
    let (phase, outcome) = drive(load_votes(), &Input::well_formed(), &mut store);
    assert_eq!(phase, Phase::Committed);
    assert_eq!(outcome, Ok(()));
    assert_eq!(store.rows.len(), 1 + 8);
    assert_eq!(
        &store.rows[1..],
        &[
            "vote b.csv#0",
            "vote b.csv#1",
            "vote b.csv#2",
            "vote a.csv#0",
            "vote a.csv#1",
            "vote a.csv#2",
            "vote a.csv#3",
            "vote a.csv#4",
        ]
    );
    assert_eq!(
        store.asked,
        vec![
            Request::CheckDbFile,
            Request::Backup,
            Request::CheckDbFile,
            Request::ListVotes,
            Request::ReadVotes(0),
            Request::ReadVotes(1),
            Request::OpenPool,
            Request::GetConnection,
            Request::InsertVotes,
        ]
    );
}

#[test]
fn votes_batch_holds_eight_records_before_it_is_written() {
    let input = Input::well_formed();
    let mut store = Store::with_rows(&[]);
    let mut session = CsvDataCmd::handle_votes_load("db.sqlite", "votes");
    assert_eq!(session.db_url(), "db.sqlite");
    assert_eq!(session.votes_path(), "votes");
    while session.request() != Request::InsertVotes {
        let running = Pipeline::Votes(session);
        let reply = answer(Some(&running), running.request(), &input, &mut store);
        session = match running.resume(reply) {
            Pipeline::Votes(next) => next,
            Pipeline::All(_) => panic!("a votes load stays a votes load"),
        };
    }
    assert_eq!(session.votes().len(), 8);
    assert!(!session.has_ended());
    assert_eq!(session.read_path(), None);
}

#[test]
fn directory_without_csv_files_writes_an_empty_batch() {
    let mut store = Store::with_rows(&["old row"]);
    let mut input = Input::well_formed();
    input.vote_files = Vec::new();
    let (phase, outcome) = drive(load_votes(), &input, &mut store);
    assert_eq!(phase, Phase::Committed);
    assert_eq!(outcome, Ok(()));
    assert_eq!(store.rows, vec!["old row"]);
    assert!(store.asked.contains(&Request::InsertVotes));
    assert!(!store.asked.contains(&Request::ReadVotes(0)));
}

#[test]
fn malformed_votes_file_fails_the_whole_load() {
    let mut store = Store::with_rows(&["old row"]);
    let mut input = Input::well_formed();
    input.broken_vote_file = Some(1);
    let (phase, outcome) = drive(load_votes(), &input, &mut store);
    assert_eq!(phase, Phase::Restored);
    let e = io_error(outcome);
    assert_eq!(e.kind, ErrorKind::InvalidInput);
    assert_eq!(e.message, "Error in file votes/a.csv.\nCause:\n\trecord 4: found 2 fields");
    assert!(!store.asked.contains(&Request::OpenPool));
    assert_eq!(store.rows, vec!["old row"]);
}

#[test]
fn answer_to_another_request_changes_nothing() {
    let session = CsvDataCmd::handle_load("db", "f", "v", "p", "c", "r", "g");
    assert_eq!(session.request(), Request::CheckDbFile);
    let session = session.resume(Reply::Done);
    assert_eq!(session.request(), Request::CheckDbFile);
    let session = session.resume(Reply::FundId(3));
    assert_eq!(session.request(), Request::CheckDbFile);
    assert_eq!(session.fund_id(), None);
    let session = session.resume(Reply::Goals(Vec::new()));
    assert_eq!(session.request(), Request::CheckDbFile);
    let session = session.resume(Reply::Exists(true));
    assert_eq!(session.request(), Request::ReadFunds);
    let session = session.resume(Reply::Exists(false));
    assert_eq!(session.request(), Request::ReadFunds);
    assert!(!session.has_ended());
    assert_eq!(session.into_outcome(), None);
}

#[test]
fn finished_session_stays_finished() {
    let session = CsvDataCmd::handle_load("db", "f", "v", "p", "c", "r", "g");
    let session = session.resume(Reply::Exists(false));
    assert_eq!(session.request(), Request::Finished);
    assert!(session.has_ended());
    let session = session.resume(Reply::Failed(IoError::new(ErrorKind::Other, "x".to_string())));
    let session = session.resume(Reply::Exists(true));
    assert_eq!(session.request(), Request::Finished);
    let e = io_error(session.into_outcome().unwrap());
    assert_eq!(e.kind, ErrorKind::NotFound);
    assert_eq!(e.message, "database not found: db");
}

#[test]
fn each_read_names_its_file() {
    let mut session =
        CsvDataCmd::handle_load("db", "f.csv", "v.csv", "p.csv", "c.csv", "r.csv", "g.csv");
    assert_eq!(session.db_url(), "db");
    assert_eq!(session.read_path(), None);
    session = session.resume(Reply::Exists(true));
    assert_eq!(session.read_path().unwrap(), "f.csv");
    session = session.resume(Reply::Funds(vec![Ok(fund(1, "one"))]));
    assert_eq!(session.request(), Request::ReadVoteplans);
    assert_eq!(session.read_path().unwrap(), "v.csv");
    session = session.resume(Reply::Voteplans(Vec::new()));
    assert_eq!(session.request(), Request::ReadChallenges);
    assert_eq!(session.read_path().unwrap(), "c.csv");
    session = session.resume(Reply::Challenges(Vec::new()));
    assert_eq!(session.request(), Request::ReadProposals);
    assert_eq!(session.read_path().unwrap(), "p.csv");
    session = session.resume(Reply::Proposals(Vec::new()));
    assert_eq!(session.request(), Request::ReadReviews);
    assert_eq!(session.read_path().unwrap(), "r.csv");
    session = session.resume(Reply::Reviews(Vec::new()));
    assert_eq!(session.request(), Request::ReadGoals);
    assert_eq!(session.read_path().unwrap(), "g.csv");
    session = session.resume(Reply::Goals(Vec::new()));
    assert_eq!(session.request(), Request::OpenPool);
    assert_eq!(session.fund(), None);
    session = session.resume(Reply::Done).resume(Reply::Done);
    assert_eq!(session.request(), Request::InsertFund(0));
    assert_eq!(session.fund(), Some(&fund(1, "one")));
    session = session.resume(Reply::FundId(9));
    assert_eq!(session.request(), Request::InsertVoteplans);
    assert_eq!(session.fund_id(), Some(9));
}

#[test]
fn malformed_row_fails_the_file_it_stands_in() {
    let session =
        CsvDataCmd::handle_load("db", "f.csv", "v.csv", "p.csv", "c.csv", "r.csv", "g.csv");
    let session = session.resume(Reply::Exists(true));
    let session = session.resume(Reply::Funds(vec![
        Ok(fund(1, "one")),
        Err("invalid digit found in string".to_string()),
    ]));
    assert_eq!(session.request(), Request::Finished);
    let e = io_error(session.into_outcome().unwrap());
    assert_eq!(e.kind, ErrorKind::InvalidInput);
    assert_eq!(e.message, "Error in file f.csv.\nCause:\n\tinvalid digit found in string");
}

#[test]
fn command_starts_the_import_it_names() {
    let all = CsvDataCmd::new(
        "db.sqlite".to_string(),
        Load::All {
            funds: "f.csv".to_string(),
            voteplans: "v.csv".to_string(),
            proposals: "p.csv".to_string(),
            challenges: "c.csv".to_string(),
            reviews: "r.csv".to_string(),
            goals: "g.csv".to_string(),
        },
    );
    let guarded = all.exec();
    assert_eq!(guarded.phase(), Phase::Idle);
    assert_eq!(guarded.request(), Request::CheckDbFile);
    assert_eq!(guarded.db_url(), "db.sqlite");
    assert!(matches!(guarded.pipeline(), Some(Pipeline::All(_))));
    let guarded = guarded.resume(Reply::Exists(true));
    assert_eq!(guarded.request(), Request::Backup);
    let guarded = guarded.resume(Reply::Done);
    assert_eq!(guarded.phase(), Phase::Snapshotted);
    assert_eq!(guarded.request(), Request::CheckDbFile);
    let guarded = guarded.resume(Reply::Exists(true));
    assert_eq!(guarded.request(), Request::ReadFunds);
    match guarded.pipeline() {
        Some(Pipeline::All(session)) => assert_eq!(session.read_path().unwrap(), "f.csv"),
        _ => panic!("the full load is running"),
    }
    let votes = load_votes();
    assert!(matches!(votes.pipeline(), Some(Pipeline::Votes(_))));
    assert_eq!(votes.into_outcome(), None);
}

#[test]
fn request_failures_are_filed_by_the_importer_only_for_the_store() {
    let reported = || IoError::new(ErrorKind::NotFound, "cause".to_string());
    assert_eq!(Request::OpenPool.failure_of(reported()).kind, ErrorKind::InvalidInput);
    assert_eq!(Request::GetConnection.failure_of(reported()).kind, ErrorKind::NotConnected);
    assert_eq!(Request::InsertFund(3).failure_of(reported()).kind, ErrorKind::Other);
    assert_eq!(Request::InsertVotes.failure_of(reported()).kind, ErrorKind::Other);
    assert_eq!(Request::InsertGoals.failure_of(reported()).kind, ErrorKind::Other);
    assert_eq!(Request::ReadFunds.failure_of(reported()).kind, ErrorKind::NotFound);
    assert_eq!(Request::ListVotes.failure_of(reported()).kind, ErrorKind::NotFound);
    assert_eq!(Request::Backup.failure_of(reported()).message, "cause");
}

#[test]
fn answers_taken_at_once_end_where_answers_taken_in_turn_end() {
    let replies = vec![
        Reply::Exists(true),
        Reply::Funds(vec![Ok(fund(0, "only"))]),
        Reply::Voteplans(vec![Ok(voteplan("vp1", 0)), Ok(voteplan("vp2", 3))]),
        Reply::Challenges(vec![Ok(challenge(4, ChallengeType::Simple))]),
        Reply::Proposals(vec![Ok(proposal("lone", 4))]),
        Reply::Reviews(Vec::new()),
        Reply::Goals(vec![Ok(InsertGoal { goal_name: "g".to_string(), fund_id: 0 })]),
        Reply::Done,
        Reply::Done,
        Reply::FundId(17),
    ];
    let session = CsvDataCmd::handle_load("db", "f", "v", "p", "c", "r", "g").run(replies);
    assert_eq!(session.request(), Request::InsertVoteplans);
    assert_eq!(session.fund_id(), Some(17));
    assert!(session.voteplans().iter().all(|v| v.fund_id == 17));
    assert_eq!(session.voteplans().len(), 2);
    assert!(session.proposals().iter().all(|p| p.fund_id == 17));
    assert!(session.challenges().iter().all(|c| c.fund_id == 17));
    assert!(session.goals().iter().all(|g| g.fund_id == 17));
    assert_eq!(session.simple_challenge_data().len(), 1);
    assert_eq!(session.community_choice_challenge_data().len(), 0);
    assert_eq!(session.simple_challenge_data()[0].proposal_id, "lone");
    let session = session.run(vec![
        Reply::Done,
        Reply::Done,
        Reply::Done,
        Reply::Done,
        Reply::Done,
        Reply::Done,
        Reply::Done,
    ]);
    assert_eq!(session.request(), Request::Finished);
    assert_eq!(session.into_outcome(), Some(Ok(())));
}

#[test]
fn guarded_answers_taken_at_once() {
    let guarded = load_votes().run(vec![
        Reply::Exists(true),
        Reply::Done,
        Reply::Exists(true),
        Reply::Entries(vec![DirEntry {
            path: "votes/one.csv".to_string(),
            file_name: "one.csv".to_string(),
        }]),
        Reply::Votes(vec![Ok(vote("v1".to_string())), Ok(vote("v2".to_string()))]),
        Reply::Done,
    ]);
    assert_eq!(guarded.phase(), Phase::Snapshotted);
    assert_eq!(guarded.request(), Request::GetConnection);
    match guarded.pipeline() {
        Some(Pipeline::Votes(votes)) => assert_eq!(votes.votes().len(), 2),
        _ => panic!("the votes load is running"),
    }
    let guarded =
        guarded.run(vec![Reply::Failed(IoError::new(ErrorKind::Other, "timeout".to_string()))]);
    assert_eq!(guarded.request(), Request::Restore);
    assert!(guarded.pipeline().is_none());
    let guarded = guarded.run(vec![Reply::Exists(true), Reply::Done, Reply::Done]);
    assert_eq!(guarded.phase(), Phase::Restored);
    let e = io_error(guarded.into_outcome().unwrap());
    assert_eq!(e.kind, ErrorKind::NotConnected);
    assert_eq!(e.message, "timeout");
    let votes = CsvDataCmd::handle_votes_load("db", "votes").run(Vec::new());
    assert_eq!(votes.request(), Request::CheckDbFile);
}
