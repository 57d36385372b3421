//! What holds of the ledger across calls. Each law is stated over the ledger's
//! own operations, which the contracts of the entry points refer to.

use crate::contract::{carried_out, is_action_response};
use crate::error::{ContractError, ErrorKind};
use crate::state::{valid_choice, Ledger, PollView};
use cosmwasm_std::Response;
use vstd::multiset::Multiset;
use vstd::prelude::*;
use vstd::seq_lib::to_multiset_build;

verus! {

/// How often `choice` occurs among `votes`.
pub open spec fn count(votes: Seq<Seq<char>>, choice: Seq<char>) -> nat
    decreases votes.len(),
{
    if votes.len() == 0 {
        0
    } else {
        count(votes.drop_last(), choice) + if votes.last() == choice {
            1nat
        } else {
            0nat
        }
    }
}

/// Casting `votes` one after the other in the poll on `question`, stopping at the
/// first vote that is refused.
pub open spec fn vote_all(ledger: Ledger, question: Seq<char>, votes: Seq<Seq<char>>) -> Result<
    Ledger,
    ErrorKind,
>
    decreases votes.len(),
{
    if votes.len() == 0 {
        Ok(ledger)
    } else {
        match vote_all(ledger, question, votes.drop_last()) {
            Ok(so_far) => so_far.vote(question, votes.last()),
            Err(kind) => Err(kind),
        }
    }
}

/// `poll` with `yes` and `no` more votes.
pub open spec fn raised(poll: PollView, yes: nat, no: nat) -> PollView {
    PollView {
        question: poll.question,
        yes_votes: poll.yes_votes + yes,
        no_votes: poll.no_votes + no,
    }
}

/// Once the administrator's address is written, reading the settings gives it
/// back; before anything is written there is nothing to find.
pub proof fn config_reads_back(ledger: Ledger, admin_address: Seq<char>)
    ensures
        ledger.with_config(admin_address).load_config() == Ok::<Seq<char>, ErrorKind>(
            admin_address,
        ),
        ledger.with_config(admin_address).polls == ledger.polls,
        ledger.config is None ==> ledger.load_config() == Err::<Seq<char>, ErrorKind>(
            ErrorKind::NotFound,
        ),
{
}

/// A question that is not taken can be created, and the poll then reads back
/// with both tallies at zero. Every other question reads as before.
pub proof fn created_poll_reads_back(ledger: Ledger, question: Seq<char>, other: Seq<char>)
    requires
        !ledger.has_poll(question),
    ensures
        ledger.create_poll(question) == Ok::<Ledger, ErrorKind>(
            ledger.with_poll(question, PollView::fresh(question)),
        ),
        ledger.create_poll(question).unwrap().get_poll(question) == Ok::<
            Option<PollView>,
            ErrorKind,
        >(Some(PollView { question, yes_votes: 0, no_votes: 0 })),
        other != question ==> ledger.create_poll(question).unwrap().get_poll(other)
            == ledger.get_poll(other),
        ledger.create_poll(question).unwrap().config == ledger.config,
{
}

/// A question that is taken cannot be created again, whatever its poll holds.
pub proof fn taken_question_is_refused(ledger: Ledger, question: Seq<char>)
    requires
        ledger.has_poll(question),
    ensures
        ledger.create_poll(question) == Err::<Ledger, ErrorKind>(ErrorKind::AlreadyExists),
{
}

/// Creating the same question twice: the second call is refused.
pub proof fn second_creation_is_refused(ledger: Ledger, question: Seq<char>)
    requires
        ledger.create_poll(question) is Ok,
    ensures
        ledger.create_poll(question).unwrap().create_poll(question) == Err::<Ledger, ErrorKind>(
            ErrorKind::AlreadyExists,
        ),
{
}

/// A state-changing call succeeds exactly when the ledger accepts the request.
/// It then leaves the ledger that the request asks for and answers with the
/// action alone.
pub proof fn success_follows_the_ledger(
    before: Ledger,
    after: Ledger,
    r: Result<Response, ContractError>,
    planned: Result<Ledger, ErrorKind>,
    action: Seq<char>,
)
    requires
        carried_out(before, after, r, planned, action),
    ensures
        r is Ok <==> planned is Ok,
        planned matches Ok(next) ==> after == next && is_action_response(r->Ok_0, action),
        planned matches Err(kind) ==> after == before && r->Err_0.kind_of() == kind,
{
}

/// A call that the ledger refuses writes nothing: the settings and every poll
/// with its tallies are as before, and the caller gets the refusal.
pub proof fn refusal_changes_nothing(
    before: Ledger,
    after: Ledger,
    r: Result<Response, ContractError>,
    kind: ErrorKind,
    action: Seq<char>,
)
    requires
        carried_out(before, after, r, Err(kind), action),
    ensures
        after == before,
        r is Err,
        r->Err_0.kind_of() == kind,
{
}

/// A call that fails writes nothing.
pub proof fn failure_changes_nothing(
    before: Ledger,
    after: Ledger,
    r: Result<Response, ContractError>,
    planned: Result<Ledger, ErrorKind>,
    action: Seq<char>,
)
    requires
        carried_out(before, after, r, planned, action),
        r is Err,
    ensures
        after == before,
{
}

/// A vote in a poll that does not exist is refused with `NotFound`, whatever the
/// choice, "yes" and "no" included.
pub proof fn vote_needs_a_poll(ledger: Ledger, question: Seq<char>, choice: Seq<char>)
    requires
        !ledger.has_poll(question),
    ensures
        ledger.vote(question, choice) == Err::<Ledger, ErrorKind>(ErrorKind::NotFound),
{
}

/// A vote in an existing poll with a choice other than "yes" or "no" is refused
/// with `InvalidChoice`.
pub proof fn vote_needs_a_valid_choice(ledger: Ledger, question: Seq<char>, choice: Seq<char>)
    requires
        ledger.has_poll(question),
        !valid_choice(choice),
    ensures
        ledger.vote(question, choice) == Err::<Ledger, ErrorKind>(ErrorKind::InvalidChoice),
{
}

/// The two accepted choices are what they are spelled, and nothing spelled
/// otherwise is accepted: in particular not "maybe", and not "Yes".
pub proof fn choices_are_case_sensitive()
    ensures
        valid_choice("yes"@),
        valid_choice("no"@),
        "yes"@ != "no"@,
        !valid_choice("maybe"@),
        !valid_choice("Yes"@),
        !valid_choice("NO"@),
        !valid_choice(""@),
{
    reveal_strlit("yes");
    reveal_strlit("no");
    reveal_strlit("maybe");
    reveal_strlit("Yes");
    reveal_strlit("NO");
    reveal_strlit("");
    assert("yes"@.len() == 3 && "no"@.len() == 2 && "maybe"@.len() == 5 && ""@.len() == 0);
    assert("Yes"@[0] != "yes"@[0]);
    assert("NO"@[0] != "no"@[0]);
}

/// One accepted vote raises the tally of its choice by one and leaves the other
/// tally, the question, the settings and every other poll as they were.
pub proof fn vote_counts_once(
    ledger: Ledger,
    question: Seq<char>,
    choice: Seq<char>,
    other: Seq<char>,
)
    requires
        ledger.vote(question, choice) is Ok,
    ensures
        ledger.has_poll(question),
        ledger.polls[question] is Some,
        ({
            let poll = ledger.polls[question].unwrap();
            let next = ledger.vote(question, choice).unwrap();
            &&& next.get_poll(question) == Ok::<Option<PollView>, ErrorKind>(
                Some(poll.voted(choice)),
            )
            &&& poll.voted(choice).yes_votes + poll.voted(choice).no_votes == poll.yes_votes
                + poll.no_votes + 1
            &&& choice == "yes"@ ==> poll.voted(choice) == raised(poll, 1, 0)
            &&& choice == "no"@ ==> poll.voted(choice) == raised(poll, 0, 1)
            &&& other != question ==> next.get_poll(other) == ledger.get_poll(other)
            &&& next.config == ledger.config
        }),
{
    choices_are_case_sensitive();
}

/// A tally never goes down: after any accepted vote both counters are at least
/// what they were.
pub proof fn tallies_never_fall(ledger: Ledger, question: Seq<char>, choice: Seq<char>)
    requires
        ledger.vote(question, choice) is Ok,
    ensures
        ledger.polls[question] is Some,
        ledger.vote(question, choice).unwrap().polls[question] is Some,
        ledger.vote(question, choice).unwrap().polls[question].unwrap().yes_votes
            >= ledger.polls[question].unwrap().yes_votes,
        ledger.vote(question, choice).unwrap().polls[question].unwrap().no_votes
            >= ledger.polls[question].unwrap().no_votes,
{
}

/// After a sequence of valid votes in an existing poll, the "yes" tally has gone
/// up by the number of "yes" votes in the sequence and the "no" tally by the
/// number of "no" votes, provided both tallies stay within what a record holds.
/// Nothing else in the ledger changes.
pub proof fn tallies_match_votes(
    ledger: Ledger,
    question: Seq<char>,
    poll: PollView,
    votes: Seq<Seq<char>>,
)
    requires
        ledger.has_poll(question),
        ledger.polls[question] == Some(poll),
        forall|i: int| 0 <= i < votes.len() ==> valid_choice(#[trigger] votes[i]),
        raised(poll, count(votes, "yes"@), count(votes, "no"@)).storable(),
    ensures
        vote_all(ledger, question, votes) is Ok,
        vote_all(ledger, question, votes).unwrap().polls == ledger.polls.insert(
            question,
            Some(raised(poll, count(votes, "yes"@), count(votes, "no"@))),
        ),
        vote_all(ledger, question, votes).unwrap().config == ledger.config,
    decreases votes.len(),
{
    if votes.len() > 0 {
        let earlier = votes.drop_last();
        let choice = votes.last();
        assert forall|i: int| 0 <= i < earlier.len() implies valid_choice(
            #[trigger] earlier[i],
        ) by {
            assert(earlier[i] == votes[i]);
        }
        tallies_match_votes(ledger, question, poll, earlier);
        let so_far = vote_all(ledger, question, earlier).unwrap();
        let counted = raised(poll, count(earlier, "yes"@), count(earlier, "no"@));
        assert(so_far.polls[question] == Some(counted));
        assert(valid_choice(choice));
        assert(counted.voted(choice) == raised(poll, count(votes, "yes"@), count(votes, "no"@)));
        assert(so_far.vote(question, choice).unwrap().polls =~= ledger.polls.insert(
            question,
            Some(counted.voted(choice)),
        ));
    } else {
        assert(ledger.polls =~= ledger.polls.insert(question, Some(poll)));
    }
}

/// The number of times a choice occurs in a sequence of votes does not depend on
/// their order.
pub proof fn count_ignores_order(votes: Seq<Seq<char>>, choice: Seq<char>)
    ensures
        count(votes, choice) == votes.to_multiset().count(choice),
    decreases votes.len(),
{
    if votes.len() == 0 {
        assert(votes.to_multiset() =~= Multiset::<Seq<char>>::empty()) by {
            votes.to_multiset_ensures();
            assert(votes.to_multiset().len() == 0);
        }
    } else {
        count_ignores_order(votes.drop_last(), choice);
        to_multiset_build(votes.drop_last(), votes.last());
        assert(votes.drop_last().push(votes.last()) =~= votes);
    }
}

/// The order of the votes does not matter: two sequences that hold the same valid
/// votes, each as often as the other, leave the same ledger.
pub proof fn vote_order_is_irrelevant(
    ledger: Ledger,
    question: Seq<char>,
    poll: PollView,
    votes: Seq<Seq<char>>,
    reordered: Seq<Seq<char>>,
)
    requires
        ledger.has_poll(question),
        ledger.polls[question] == Some(poll),
        forall|i: int| 0 <= i < votes.len() ==> valid_choice(#[trigger] votes[i]),
        raised(poll, count(votes, "yes"@), count(votes, "no"@)).storable(),
        reordered.to_multiset() == votes.to_multiset(),
    ensures
        vote_all(ledger, question, reordered) == vote_all(ledger, question, votes),
        vote_all(ledger, question, votes) is Ok,
{
    count_ignores_order(votes, "yes"@);
    count_ignores_order(votes, "no"@);
    count_ignores_order(reordered, "yes"@);
    count_ignores_order(reordered, "no"@);
    assert forall|i: int| 0 <= i < reordered.len() implies valid_choice(
        #[trigger] reordered[i],
    ) by {
        reordered.to_multiset_ensures();
        votes.to_multiset_ensures();
        assert(reordered.contains(reordered[i]));
        assert(votes.to_multiset().count(reordered[i]) > 0);
        assert(votes.contains(reordered[i]));
    }
    tallies_match_votes(ledger, question, poll, votes);
    tallies_match_votes(ledger, question, poll, reordered);
    let a = vote_all(ledger, question, votes).unwrap();
    let b = vote_all(ledger, question, reordered).unwrap();
    assert(a.polls =~= b.polls);
    assert(a == b);
}

/// Reading a poll that does not exist gives `None`; it never fails.
pub proof fn missing_poll_reads_as_none(ledger: Ledger, question: Seq<char>)
    requires
        !ledger.has_poll(question),
    ensures
        ledger.get_poll(question) == Ok::<Option<PollView>, ErrorKind>(None),
{
}

} // verus!
