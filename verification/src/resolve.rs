//! Cross-file resolution: every proposal finds its challenge by the challenge's key, and
//! is split by the challenge's type.

use crate::decoded::{Challenge, Proposal};
use crate::error::{challenge_not_found_text, ErrorKind, IoError};
use crate::models::{
    ChallengeType, CommunityChoiceChallengeValues, Proposal as StoredProposal,
    ProposalChallengeInfo, SimpleChallengeValues,
};
use vstd::prelude::*;

verus! {

/// Whether some challenge has the key `id`.
pub open spec fn has_challenge(challenges: Seq<Challenge>, id: i32) -> bool {
    exists|i: int| 0 <= i < challenges.len() && #[trigger] challenges[i].id == id
}

/// Whether `index` is where the first challenge with the key `id` stands.
pub open spec fn is_first_match(challenges: Seq<Challenge>, id: i32, index: int) -> bool {
    &&& 0 <= index < challenges.len()
    &&& challenges[index].id == id
    &&& forall|j: int| 0 <= j < index ==> #[trigger] challenges[j].id != id
}

/// The index of the first challenge with the key `id`.
pub open spec fn first_match(challenges: Seq<Challenge>, id: i32) -> int {
    choose|index: int| is_first_match(challenges, id, index)
}

/// The type of the challenge that the key `id` resolves to: the first match wins.
pub open spec fn resolved_type(challenges: Seq<Challenge>, id: i32) -> ChallengeType {
    challenges[first_match(challenges, id)].challenge_type
}

/// Two first matches for one key are one and the same.
pub proof fn lemma_first_match_unique(challenges: Seq<Challenge>, id: i32, a: int, b: int)
    requires
        is_first_match(challenges, id, a),
        is_first_match(challenges, id, b),
    ensures
        a == b,
{
    if a < b {
        assert(challenges[a].id != id);
    } else if b < a {
        assert(challenges[b].id != id);
    }
}

/// Finds the first challenge with the key `id`.
pub fn find_challenge(challenges: &Vec<Challenge>, id: i32) -> (found: Option<usize>)
    ensures
        found is Some <==> has_challenge(challenges@, id),
        found matches Some(index) ==> is_first_match(challenges@, id, index as int)
            && index as int == first_match(challenges@, id),
{
    let mut i: usize = 0;
    while i < challenges.len()
        invariant
            i <= challenges.len(),
            forall|j: int| 0 <= j < i ==> #[trigger] challenges@[j].id != id,
        decreases challenges.len() - i,
    {
        if challenges[i].id == id {
            proof {
                assert(is_first_match(challenges@, id, i as int));
                lemma_first_match_unique(
                    challenges@,
                    id,
                    i as int,
                    first_match(challenges@, id),
                );
            }
            return Some(i);
        }
        i += 1;
    }
    None
}

/// Whether every proposal refers to a challenge that is there.
pub open spec fn resolvable(proposals: Seq<Proposal>, challenges: Seq<Challenge>) -> bool {
    forall|i: int|
        0 <= i < proposals.len() ==> has_challenge(challenges, #[trigger] proposals[i].challenge_id)
}

/// Whether `index` is where the first proposal without a challenge stands.
pub open spec fn is_first_unresolved(
    proposals: Seq<Proposal>,
    challenges: Seq<Challenge>,
    index: int,
) -> bool {
    &&& 0 <= index < proposals.len()
    &&& !has_challenge(challenges, proposals[index].challenge_id)
    &&& forall|j: int|
        0 <= j < index ==> has_challenge(challenges, #[trigger] proposals[j].challenge_id)
}

/// The challenge key that the first proposal without a challenge refers to.
pub open spec fn first_missing_challenge(
    proposals: Seq<Proposal>,
    challenges: Seq<Challenge>,
) -> i32 {
    proposals[choose|index: int| is_first_unresolved(proposals, challenges, index)].challenge_id
}

/// The store's records of the proposals, in order, none referring to a fund yet.
pub open spec fn db_proposals(proposals: Seq<Proposal>) -> Seq<StoredProposal> {
    proposals.map_values(|p: Proposal| p.db_proposal())
}

/// The rows for the side table of simple challenges: one for each proposal whose challenge
/// is simple, in the order of the proposals.
pub open spec fn simple_rows(proposals: Seq<Proposal>, challenges: Seq<Challenge>) -> Seq<
    SimpleChallengeValues,
>
    decreases proposals.len(),
{
    if proposals.len() == 0 {
        Seq::empty()
    } else {
        let before = simple_rows(proposals.drop_last(), challenges);
        match resolved_type(challenges, proposals.last().challenge_id) {
            ChallengeType::Simple => before.push(proposals.last().simple_row()),
            ChallengeType::CommunityChoice => before,
        }
    }
}

/// The rows for the side table of community-choice challenges: one for each proposal whose
/// challenge is of that type, in the order of the proposals.
pub open spec fn community_choice_rows(
    proposals: Seq<Proposal>,
    challenges: Seq<Challenge>,
) -> Seq<CommunityChoiceChallengeValues>
    decreases proposals.len(),
{
    if proposals.len() == 0 {
        Seq::empty()
    } else {
        let before = community_choice_rows(proposals.drop_last(), challenges);
        match resolved_type(challenges, proposals.last().challenge_id) {
            ChallengeType::Simple => before,
            ChallengeType::CommunityChoice => before.push(proposals.last().community_choice_row()),
        }
    }
}

/// The proposals in the store's shape, with the rows of the two side tables.
#[derive(Debug, PartialEq, Eq)]
pub struct SplitProposals {
    pub proposals: Vec<StoredProposal>,
    pub simple: Vec<SimpleChallengeValues>,
    pub community_choice: Vec<CommunityChoiceChallengeValues>,
}

/// Resolves every proposal's challenge and splits the proposal by the challenge's type.
/// One proposal without a challenge fails them all, and the first such proposal is named.
pub fn split_proposals(proposals: Vec<Proposal>, challenges: &Vec<Challenge>) -> (r: Result<
    SplitProposals,
    IoError,
>)
    ensures
        resolvable(proposals@, challenges@) ==> r is Ok && r->Ok_0.proposals@ == db_proposals(
            proposals@,
        ) && r->Ok_0.simple@ == simple_rows(proposals@, challenges@)
            && r->Ok_0.community_choice@ == community_choice_rows(proposals@, challenges@),
        !resolvable(proposals@, challenges@) ==> r is Err && r->Err_0.kind
            == ErrorKind::InvalidData && r->Err_0.message@ == challenge_not_found_text(
            first_missing_challenge(proposals@, challenges@) as int,
        ),
{
    let mut out: Vec<StoredProposal> = Vec::new();
    let mut simple: Vec<SimpleChallengeValues> = Vec::new();
    let mut community_choice: Vec<CommunityChoiceChallengeValues> = Vec::new();
    for proposal in it: proposals
        invariant
            it.seq() == proposals@,
            resolvable(it.seq().take(it.index() as int), challenges@),
            out@ == db_proposals(it.seq().take(it.index() as int)),
            simple@ == simple_rows(it.seq().take(it.index() as int), challenges@),
            community_choice@ == community_choice_rows(
                it.seq().take(it.index() as int),
                challenges@,
            ),
    {
        let ghost done = it.seq().take(it.index() as int);
        let ghost next = it.seq().take(it.index() as int + 1);
        proof {
            assert(next.drop_last() =~= done);
            assert(next.last() == proposal);
            assert forall|j: int| 0 <= j < done.len() implies has_challenge(
                challenges@,
                #[trigger] proposals@[j].challenge_id,
            ) by {
                assert(done[j] == proposals@[j]);
            }
        }
        let challenge_type = match find_challenge(challenges, proposal.challenge_id) {
            Some(index) => challenges[index].challenge_type,
            None => {
                proof {
                    let at = it.index() as int;
                    assert(is_first_unresolved(proposals@, challenges@, at));
                    let chosen = choose|index: int|
                        is_first_unresolved(proposals@, challenges@, index);
                    if chosen < at {
                        assert(has_challenge(challenges@, proposals@[chosen].challenge_id));
                    } else if at < chosen {
                        assert(has_challenge(challenges@, proposals@[at].challenge_id));
                    }
                }
                return Err(IoError::challenge_not_found(proposal.challenge_id));
            },
        };
        let (stored, info) = proposal.into_db_proposal_and_challenge_info(challenge_type);
        match info {
            ProposalChallengeInfo::Simple(info) => {
                simple.push(info.to_sql_values_with_proposal_id(&stored.proposal_id));
            },
            ProposalChallengeInfo::CommunityChoice(info) => {
                community_choice.push(info.to_sql_values_with_proposal_id(&stored.proposal_id));
            },
        }
        out.push(stored);
        proof {
            assert(db_proposals(next) =~= db_proposals(done).push(proposal.db_proposal()));
            assert forall|j: int| 0 <= j < next.len() implies has_challenge(
                challenges@,
                #[trigger] next[j].challenge_id,
            ) by {
                if j < done.len() {
                    assert(done[j] == next[j]);
                }
            }
        }
    }
    proof {
        assert(proposals@.take(proposals@.len() as int) =~= proposals@);
    }
    Ok(SplitProposals { proposals: out, simple, community_choice })
}

/// How many rows of the side table of simple challenges belong to the proposal with the
/// identifier `proposal_id`.
pub open spec fn simple_rows_of(rows: Seq<SimpleChallengeValues>, proposal_id: Seq<char>) -> nat
    decreases rows.len(),
{
    if rows.len() == 0 {
        0
    } else if rows.last().proposal_id@ == proposal_id {
        simple_rows_of(rows.drop_last(), proposal_id) + 1
    } else {
        simple_rows_of(rows.drop_last(), proposal_id)
    }
}

/// How many rows of the side table of community-choice challenges belong to the proposal
/// with the identifier `proposal_id`.
pub open spec fn community_choice_rows_of(
    rows: Seq<CommunityChoiceChallengeValues>,
    proposal_id: Seq<char>,
) -> nat
    decreases rows.len(),
{
    if rows.len() == 0 {
        0
    } else if rows.last().proposal_id@ == proposal_id {
        community_choice_rows_of(rows.drop_last(), proposal_id) + 1
    } else {
        community_choice_rows_of(rows.drop_last(), proposal_id)
    }
}

/// How many proposals have the identifier `proposal_id` and a challenge of the type
/// `challenge_type`.
pub open spec fn proposals_of_type(
    proposals: Seq<Proposal>,
    challenges: Seq<Challenge>,
    proposal_id: Seq<char>,
    challenge_type: ChallengeType,
) -> nat
    decreases proposals.len(),
{
    if proposals.len() == 0 {
        0
    } else if proposals.last().proposal_id@ == proposal_id && resolved_type(
        challenges,
        proposals.last().challenge_id,
    ) == challenge_type {
        proposals_of_type(proposals.drop_last(), challenges, proposal_id, challenge_type) + 1
    } else {
        proposals_of_type(proposals.drop_last(), challenges, proposal_id, challenge_type)
    }
}

/// Each side table holds, for any proposal identifier, as many rows as there are
/// proposals with that identifier whose challenge is of the table's type.
pub proof fn law_extension_rows_follow_challenge_type(
    proposals: Seq<Proposal>,
    challenges: Seq<Challenge>,
    proposal_id: Seq<char>,
)
    ensures
        simple_rows_of(simple_rows(proposals, challenges), proposal_id) == proposals_of_type(
            proposals,
            challenges,
            proposal_id,
            ChallengeType::Simple,
        ),
        community_choice_rows_of(community_choice_rows(proposals, challenges), proposal_id)
            == proposals_of_type(
            proposals,
            challenges,
            proposal_id,
            ChallengeType::CommunityChoice,
        ),
    decreases proposals.len(),
{
    if proposals.len() > 0 {
        let before = proposals.drop_last();
        law_extension_rows_follow_challenge_type(before, challenges, proposal_id);
        let last = proposals.last();
        match resolved_type(challenges, last.challenge_id) {
            ChallengeType::Simple => {
                let rows = simple_rows(before, challenges).push(last.simple_row());
                assert(rows.drop_last() =~= simple_rows(before, challenges));
            },
            ChallengeType::CommunityChoice => {
                let rows = community_choice_rows(before, challenges).push(
                    last.community_choice_row(),
                );
                assert(rows.drop_last() =~= community_choice_rows(before, challenges));
            },
        }
    }
}

/// Where no proposal but the one at `index` has the identifier `proposal_id`, the number
/// of proposals with that identifier and a challenge of a given type is one or zero.
proof fn lemma_count_of_one(
    proposals: Seq<Proposal>,
    challenges: Seq<Challenge>,
    proposal_id: Seq<char>,
    challenge_type: ChallengeType,
    index: int,
)
    requires
        0 <= index,
        forall|j: int|
            0 <= j < proposals.len() && j != index ==> (#[trigger] proposals[j]).proposal_id@
                != proposal_id,
    ensures
        proposals_of_type(proposals, challenges, proposal_id, challenge_type) == (if index
            < proposals.len() && proposals[index].proposal_id@ == proposal_id && resolved_type(
            challenges,
            proposals[index].challenge_id,
        ) == challenge_type {
            1nat
        } else {
            0nat
        }),
    decreases proposals.len(),
{
    if proposals.len() > 0 {
        let before = proposals.drop_last();
        assert forall|j: int| 0 <= j < before.len() && j != index implies (
        #[trigger] before[j]).proposal_id@ != proposal_id by {
            assert(before[j] == proposals[j]);
        }
        lemma_count_of_one(before, challenges, proposal_id, challenge_type, index);
        if index < before.len() {
            assert(before[index] == proposals[index]);
        }
    }
}

/// A proposal whose identifier no other proposal has, and whose challenge is simple, has
/// exactly one row in the side table of simple challenges and none in the other; with a
/// community-choice challenge it is the other way round.
pub proof fn law_one_extension_row(
    proposals: Seq<Proposal>,
    challenges: Seq<Challenge>,
    index: int,
)
    requires
        0 <= index < proposals.len(),
        forall|j: int|
            0 <= j < proposals.len() && j != index ==> (#[trigger] proposals[j]).proposal_id@
                != proposals[index].proposal_id@,
    ensures
        resolved_type(challenges, proposals[index].challenge_id) == ChallengeType::Simple ==> {
            &&& simple_rows_of(simple_rows(proposals, challenges), proposals[index].proposal_id@)
                == 1
            &&& community_choice_rows_of(
                community_choice_rows(proposals, challenges),
                proposals[index].proposal_id@,
            ) == 0
        },
        resolved_type(challenges, proposals[index].challenge_id)
            == ChallengeType::CommunityChoice ==> {
            &&& simple_rows_of(simple_rows(proposals, challenges), proposals[index].proposal_id@)
                == 0
            &&& community_choice_rows_of(
                community_choice_rows(proposals, challenges),
                proposals[index].proposal_id@,
            ) == 1
        },
{
    let proposal_id = proposals[index].proposal_id@;
    law_extension_rows_follow_challenge_type(proposals, challenges, proposal_id);
    lemma_count_of_one(proposals, challenges, proposal_id, ChallengeType::Simple, index);
    lemma_count_of_one(proposals, challenges, proposal_id, ChallengeType::CommunityChoice, index);
}

} // verus!
