//! The handlers: one-time initialization, poll creation and voting, and the
//! (unimplemented) query path. Each handler's full effect on the store and
//! its result are pinned by a spec-level transition function; the proof
//! functions at the end state the laws of those transitions.

use crate::error::ContractError;
use crate::msg::{ExecuteMsg, InstantiateMsg, QueryMsg};
use crate::response::{AttrView, Response, result_view};
use crate::state::{Config, Poll, PollData, Store, StoreData, find_index, lemma_polls_map_at};
use vstd::prelude::*;

verus! {

/// One more vote. The counters have no stated upper bound, so they saturate
/// at `u64::MAX` rather than wrap or fail.
pub open spec fn bump(c: u64) -> u64 {
    if c < u64::MAX {
        (c + 1) as u64
    } else {
        c
    }
}

/// What initialization does: with a valid admin identifier it fills the
/// configuration slot and reports `action=instantiated`; otherwise it fails
/// with `InvalidAddress` and changes nothing. The poll registry is never
/// touched.
pub open spec fn spec_instantiate(s: StoreData, admin: Seq<char>, addr_valid: bool) -> (
    StoreData,
    Result<AttrView, ContractError>,
) {
    if addr_valid {
        (
            StoreData { config: Some(admin), polls: s.polls },
            Ok(seq![("action"@, "instantiated"@)]),
        )
    } else {
        (s, Err(ContractError::InvalidAddress))
    }
}

/// What poll creation does: an already-taken question fails with
/// `DuplicateKey` and changes nothing; otherwise a record with both counters
/// at zero is stored under the question and `action=create_poll` is
/// reported.
pub open spec fn spec_create_poll(s: StoreData, question: Seq<char>) -> (
    StoreData,
    Result<AttrView, ContractError>,
) {
    if s.polls.contains_key(question) {
        (s, Err(ContractError::DuplicateKey))
    } else {
        (
            StoreData {
                config: s.config,
                polls: s.polls.insert(
                    question,
                    PollData { question, yes_votes: 0, no_votes: 0 },
                ),
            },
            Ok(seq![("action"@, "create_poll"@)]),
        )
    }
}

/// What voting does: a missing poll fails with `NotFound` (before the choice
/// is judged); a choice other than exactly `"yes"` or `"no"` fails with
/// `InvalidChoice`; otherwise exactly the chosen counter is bumped and
/// `action=vote` is reported.
pub open spec fn spec_vote(s: StoreData, question: Seq<char>, choice: Seq<char>) -> (
    StoreData,
    Result<AttrView, ContractError>,
) {
    if !s.polls.contains_key(question) {
        (s, Err(ContractError::NotFound))
    } else if choice != "yes"@ && choice != "no"@ {
        (s, Err(ContractError::InvalidChoice))
    } else {
        let p = s.polls[question];
        let updated = if choice == "yes"@ {
            PollData { question: p.question, yes_votes: bump(p.yes_votes), no_votes: p.no_votes }
        } else {
            PollData { question: p.question, yes_votes: p.yes_votes, no_votes: bump(p.no_votes) }
        };
        (
            StoreData { config: s.config, polls: s.polls.insert(question, updated) },
            Ok(seq![("action"@, "vote"@)]),
        )
    }
}

/// What a state-changing request does: dispatch to creation or voting.
pub open spec fn spec_execute(s: StoreData, msg: ExecuteMsg) -> (
    StoreData,
    Result<AttrView, ContractError>,
) {
    match msg {
        ExecuteMsg::CreatePoll { question } => spec_create_poll(s, question@),
        ExecuteMsg::Vote { question, choice } => spec_vote(s, question@, choice@),
    }
}

/// Decide initialization from the caller's identifier and the host's verdict
/// on it. The host runtime owns address formats, so validity arrives as a
/// plain value; on success the configuration record to store comes back with
/// the audit attributes.
pub fn apply_instantiate(admin_address: String, addr_valid: bool) -> (r: Result<
    (Config, Response),
    ContractError,
>)
    ensures
        addr_valid ==> (r matches Ok(p) && p.0.admin_address@ == admin_address@ && p.1@ == seq![
            ("action"@, "instantiated"@),
        ]),
        !addr_valid ==> r == Err::<(Config, Response), ContractError>(
            ContractError::InvalidAddress,
        ),
{
    if !addr_valid {
        return Err(ContractError::InvalidAddress);
    }
    let resp = Response::new().add_attribute("action", "instantiated");
    proof {
        assert(resp@ =~= seq![("action"@, "instantiated"@)]);
    }
    Ok((Config { admin_address }, resp))
}

/// Decide poll creation from whether the question is already taken. On
/// success the fresh record to store comes back with the audit attributes.
pub fn apply_create(exists: bool, question: String) -> (r: Result<(Poll, Response), ContractError>)
    requires
        question@.len() > 0,
    ensures
        exists ==> r == Err::<(Poll, Response), ContractError>(ContractError::DuplicateKey),
        !exists ==> (r matches Ok(p) && p.0@ == (PollData {
            question: question@,
            yes_votes: 0,
            no_votes: 0,
        }) && p.1@ == seq![("action"@, "create_poll"@)]),
{
    if exists {
        return Err(ContractError::DuplicateKey);
    }
    let poll = Poll { question, yes_votes: 0, no_votes: 0 };
    let resp = Response::new().add_attribute("action", "create_poll");
    proof {
        assert(resp@ =~= seq![("action"@, "create_poll"@)]);
    }
    Ok((poll, resp))
}

/// Decide a vote from the stored record, if any, and the choice. The
/// existence check comes first, so a missing poll reports `NotFound` even
/// when the choice is also invalid. On success the updated record to store
/// comes back with the audit attributes.
pub fn apply_vote(existing: Option<&Poll>, choice: &String) -> (r: Result<
    (Poll, Response),
    ContractError,
>)
    ensures
        match existing {
            None => r == Err::<(Poll, Response), ContractError>(ContractError::NotFound),
            Some(p) => (if choice@ == "yes"@ {
                r matches Ok(u) && u.0@ == (PollData {
                    question: p.question@,
                    yes_votes: bump(p.yes_votes),
                    no_votes: p.no_votes,
                }) && u.1@ == seq![("action"@, "vote"@)]
            } else if choice@ == "no"@ {
                r matches Ok(u) && u.0@ == (PollData {
                    question: p.question@,
                    yes_votes: p.yes_votes,
                    no_votes: bump(p.no_votes),
                }) && u.1@ == seq![("action"@, "vote"@)]
            } else {
                r == Err::<(Poll, Response), ContractError>(ContractError::InvalidChoice)
            }),
        },
{
    let poll = match existing {
        Some(p) => p,
        None => {
            return Err(ContractError::NotFound);
        },
    };
    let is_yes = *choice == "yes".to_owned();
    let is_no = *choice == "no".to_owned();
    if !is_yes && !is_no {
        return Err(ContractError::InvalidChoice);
    }
    let updated = if is_yes {
        Poll {
            question: poll.question.clone(),
            yes_votes: if poll.yes_votes < u64::MAX {
                poll.yes_votes + 1
            } else {
                poll.yes_votes
            },
            no_votes: poll.no_votes,
        }
    } else {
        Poll {
            question: poll.question.clone(),
            yes_votes: poll.yes_votes,
            no_votes: if poll.no_votes < u64::MAX {
                poll.no_votes + 1
            } else {
                poll.no_votes
            },
        }
    };
    let resp = Response::new().add_attribute("action", "vote");
    proof {
        assert(resp@ =~= seq![("action"@, "vote"@)]);
    }
    Ok((updated, resp))
}

/// One-time initialization: record the admin identifier. `addr_valid` is the
/// host's verdict on `msg.admin_address` under its addressing rules. The
/// host calls this only at genesis, on a store whose configuration slot is
/// still empty; once it succeeds the slot is filled, so it cannot succeed a
/// second time.
pub fn instantiate(store: &mut Store, msg: InstantiateMsg, addr_valid: bool) -> (r: Result<
    Response,
    ContractError,
>)
    requires
        old(store).wf(),
        old(store)@.config is None,
    ensures
        final(store).wf(),
        (final(store)@, result_view(r)) == spec_instantiate(
            old(store)@,
            msg.admin_address@,
            addr_valid,
        ),
{
    match apply_instantiate(msg.admin_address, addr_valid) {
        Ok((config, resp)) => {
            store.config = Some(config);
            Ok(resp)
        },
        Err(e) => Err(e),
    }
}

/// Handle a state-changing request by dispatching on its kind.
pub fn execute(store: &mut Store, msg: ExecuteMsg) -> (r: Result<Response, ContractError>)
    requires
        old(store).wf(),
        msg matches ExecuteMsg::CreatePoll { question } ==> question@.len() > 0,
    ensures
        final(store).wf(),
        (final(store)@, result_view(r)) == spec_execute(old(store)@, msg),
{
    match msg {
        ExecuteMsg::CreatePoll { question } => execute_create_poll(store, question),
        ExecuteMsg::Vote { question, choice } => execute_vote(store, question, choice),
    }
}

/// Create a poll under `question`. The existence check and the write are one
/// step on the store, so no caller can observe a state between them.
pub fn execute_create_poll(store: &mut Store, question: String) -> (r: Result<
    Response,
    ContractError,
>)
    requires
        old(store).wf(),
        question@.len() > 0,
    ensures
        final(store).wf(),
        (final(store)@, result_view(r)) == spec_create_poll(old(store)@, question@),
{
    let exists = match find_index(&store.polls, &question) {
        Some(i) => {
            proof {
                lemma_polls_map_at(store.polls@, i as int);
            }
            true
        },
        None => false,
    };
    match apply_create(exists, question) {
        Ok((poll, resp)) => {
            store.insert_poll(poll);
            Ok(resp)
        },
        Err(e) => Err(e),
    }
}

/// Vote on the poll under `question`: bump its `yes_votes` if `choice` is
/// exactly `"yes"`, its `no_votes` if exactly `"no"`. The load and the write
/// back are one step on the store.
pub fn execute_vote(store: &mut Store, question: String, choice: String) -> (r: Result<
    Response,
    ContractError,
>)
    requires
        old(store).wf(),
    ensures
        final(store).wf(),
        (final(store)@, result_view(r)) == spec_vote(old(store)@, question@, choice@),
{
    match find_index(&store.polls, &question) {
        None => Err(ContractError::NotFound),
        Some(i) => {
            proof {
                lemma_polls_map_at(store.polls@, i as int);
            }
            match apply_vote(Some(&store.polls[i]), &choice) {
                Ok((updated, resp)) => {
                    store.set_poll(i, updated);
                    Ok(resp)
                },
                Err(e) => Err(e),
            }
        },
    }
}

/// The read path. No query is implemented; every call fails with
/// `Unimplemented` and the store is left as it is.
pub fn query(_store: &Store, _msg: QueryMsg) -> (r: Result<Vec<u8>, ContractError>)
    ensures
        r == Err::<Vec<u8>, ContractError>(ContractError::Unimplemented),
{
    Err(ContractError::Unimplemented)
}

/// Initialization with a valid admin identifier succeeds, fills the
/// configuration slot with exactly that identifier, and leaves the registry
/// alone. Afterwards the slot is occupied, and `instantiate` demands an
/// empty slot, so it can succeed at most once.
pub proof fn lemma_instantiate_sets_admin(s: StoreData, admin: Seq<char>)
    ensures
        ({
            let (s2, r) = spec_instantiate(s, admin, true);
            r is Ok && s2.config == Some(admin) && s2.polls == s.polls
        }),
{
}

/// Creating a never-created poll succeeds and stores a record with both
/// counters at zero; creating it again fails with `DuplicateKey` and leaves
/// the whole store, the stored record included, unchanged.
pub proof fn lemma_create_then_duplicate(s: StoreData, q: Seq<char>)
    requires
        !s.polls.contains_key(q),
    ensures
        ({
            let (s1, r1) = spec_create_poll(s, q);
            let (s2, r2) = spec_create_poll(s1, q);
            r1 is Ok && s1.polls.contains_key(q) && s1.polls[q] == (PollData {
                question: q,
                yes_votes: 0,
                no_votes: 0,
            }) && r2 == Err::<AttrView, ContractError>(ContractError::DuplicateKey) && s2 == s1
        }),
{
}

/// Voting on a never-created poll fails with `NotFound`, whatever the
/// choice, and changes nothing.
pub proof fn lemma_vote_missing_not_found(s: StoreData, q: Seq<char>, choice: Seq<char>)
    requires
        !s.polls.contains_key(q),
    ensures
        spec_vote(s, q, choice) == (s, Err::<AttrView, ContractError>(ContractError::NotFound)),
{
}

/// A `"yes"` vote on an existing poll whose counter is below `u64::MAX`
/// raises `yes_votes` by exactly one and leaves `no_votes`, the question,
/// every other poll and the configuration unchanged.
pub proof fn lemma_vote_yes_increments(s: StoreData, q: Seq<char>)
    requires
        s.polls.contains_key(q),
        s.polls[q].yes_votes < u64::MAX,
    ensures
        ({
            let (s2, r) = spec_vote(s, q, "yes"@);
            r is Ok && s2.polls.contains_key(q) && s2.polls[q].yes_votes == s.polls[q].yes_votes
                + 1 && s2.polls[q].no_votes == s.polls[q].no_votes && s2.polls[q].question
                == s.polls[q].question && s2.config == s.config && forall|k: Seq<char>|
                k != q ==> #[trigger] s2.polls.contains_key(k) == s.polls.contains_key(k) && (
                s.polls.contains_key(k) ==> s2.polls[k] == s.polls[k])
        }),
{
}

/// A `"no"` vote on an existing poll whose counter is below `u64::MAX`
/// raises `no_votes` by exactly one and leaves `yes_votes`, the question,
/// every other poll and the configuration unchanged.
pub proof fn lemma_vote_no_increments(s: StoreData, q: Seq<char>)
    requires
        s.polls.contains_key(q),
        s.polls[q].no_votes < u64::MAX,
    ensures
        ({
            let (s2, r) = spec_vote(s, q, "no"@);
            r is Ok && s2.polls.contains_key(q) && s2.polls[q].no_votes == s.polls[q].no_votes + 1
                && s2.polls[q].yes_votes == s.polls[q].yes_votes && s2.polls[q].question
                == s.polls[q].question && s2.config == s.config && forall|k: Seq<char>|
                k != q ==> #[trigger] s2.polls.contains_key(k) == s.polls.contains_key(k) && (
                s.polls.contains_key(k) ==> s2.polls[k] == s.polls[k])
        }),
{
    reveal_strlit("yes");
    reveal_strlit("no");
    assert("no"@.len() == 2);
    assert("yes"@.len() == 3);
    assert("no"@ != "yes"@);
}

/// A vote whose choice is neither exactly `"yes"` nor exactly `"no"` fails
/// with `InvalidChoice` and changes nothing, the stored record included.
pub proof fn lemma_vote_invalid_choice(s: StoreData, q: Seq<char>, choice: Seq<char>)
    requires
        s.polls.contains_key(q),
        choice != "yes"@,
        choice != "no"@,
    ensures
        spec_vote(s, q, choice) == (
            s,
            Err::<AttrView, ContractError>(ContractError::InvalidChoice),
        ),
{
}

/// Over any vote, successful or not, every existing poll stays present, its
/// question stays what it was, and its counters never decrease.
pub proof fn lemma_vote_monotonic(s: StoreData, q: Seq<char>, choice: Seq<char>)
    ensures
        ({
            let (s2, r) = spec_vote(s, q, choice);
            forall|k: Seq<char>|
                s.polls.contains_key(k) ==> #[trigger] s2.polls.contains_key(k)
                    && s2.polls[k].question == s.polls[k].question && s2.polls[k].yes_votes
                    >= s.polls[k].yes_votes && s2.polls[k].no_votes >= s.polls[k].no_votes
        }),
{
}

} // verus!
