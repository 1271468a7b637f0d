//! The persistent state: a write-once admin configuration record and a
//! registry of polls keyed by their question text. The registry is held as a
//! vector of records with pairwise-distinct questions; its mathematical value
//! is a map from question to poll record.

use vstd::map::*;
use vstd::prelude::*;

verus! {

/// The singleton configuration record: the admin identifier, stored once at
/// initialization and never changed afterwards.
#[derive(Debug)]
pub struct Config {
    pub admin_address: String,
}

/// A poll: its question (also its key in the registry) and the two vote
/// counters, both starting at zero.
#[derive(Debug)]
pub struct Poll {
    pub question: String,
    pub yes_votes: u64,
    pub no_votes: u64,
}

/// The mathematical value of a `Poll`.
pub ghost struct PollData {
    pub question: Seq<char>,
    pub yes_votes: u64,
    pub no_votes: u64,
}

impl View for Poll {
    type V = PollData;

    open spec fn view(&self) -> PollData {
        PollData {
            question: self.question@,
            yes_votes: self.yes_votes,
            no_votes: self.no_votes,
        }
    }
}

/// Whether some record in `s` has the question `q`.
pub open spec fn has_question(s: Seq<Poll>, q: Seq<char>) -> bool {
    exists|i: int| 0 <= i < s.len() && #[trigger] s[i].question@ == q
}

/// The index of the record with question `q`; meaningful only when
/// `has_question(s, q)` holds and the questions are pairwise distinct.
pub open spec fn question_index(s: Seq<Poll>, q: Seq<char>) -> int {
    choose|i: int| 0 <= i < s.len() && #[trigger] s[i].question@ == q
}

/// No two records share a question.
pub open spec fn questions_unique(s: Seq<Poll>) -> bool {
    forall|i: int, j: int|
        0 <= i < j < s.len() ==> #[trigger] s[i].question@ != #[trigger] s[j].question@
}

/// Every record's question is non-empty.
pub open spec fn questions_nonempty(s: Seq<Poll>) -> bool {
    forall|i: int| 0 <= i < s.len() ==> #[trigger] s[i].question@.len() > 0
}

/// The registry a sequence of records denotes: question text to poll record.
pub open spec fn polls_map(s: Seq<Poll>) -> Map<Seq<char>, PollData> {
    Map::new(|q: Seq<char>| has_question(s, q), |q: Seq<char>| s[question_index(s, q)]@)
}

/// The whole persistent state: the configuration slot and the poll registry.
/// The two live in disjoint namespaces, so neither operation set can touch
/// the other's slot.
pub struct Store {
    pub config: Option<Config>,
    pub polls: Vec<Poll>,
}

/// The mathematical value of a `Store`.
pub ghost struct StoreData {
    pub config: Option<Seq<char>>,
    pub polls: Map<Seq<char>, PollData>,
}

impl View for Store {
    type V = StoreData;

    open spec fn view(&self) -> StoreData {
        StoreData {
            config: match self.config {
                Some(c) => Some(c.admin_address@),
                None => None,
            },
            polls: polls_map(self.polls@),
        }
    }
}

/// With pairwise-distinct questions, the record at index `i` is exactly what
/// the registry map holds under its question.
pub proof fn lemma_polls_map_at(s: Seq<Poll>, i: int)
    requires
        questions_unique(s),
        0 <= i < s.len(),
    ensures
        polls_map(s).contains_key(s[i].question@),
        polls_map(s)[s[i].question@] == s[i]@,
        question_index(s, s[i].question@) == i,
{
    let q = s[i].question@;
    assert(has_question(s, q));
    let j = question_index(s, q);
    assert(0 <= j < s.len() && s[j].question@ == q);
    if i < j {
        assert(s[i].question@ != s[j].question@);
    } else if j < i {
        assert(s[j].question@ != s[i].question@);
    }
}

/// Appending a record with a fresh, non-empty question keeps the registry
/// well formed and inserts exactly that record into its map.
pub proof fn lemma_polls_map_push(s: Seq<Poll>, p: Poll)
    requires
        questions_unique(s),
        questions_nonempty(s),
        !has_question(s, p.question@),
        p.question@.len() > 0,
    ensures
        questions_unique(s.push(p)),
        questions_nonempty(s.push(p)),
        polls_map(s.push(p)) == polls_map(s).insert(p.question@, p@),
{
    let t = s.push(p);
    assert forall|i: int, j: int| 0 <= i < j < t.len() implies #[trigger] t[i].question@
        != #[trigger] t[j].question@ by {
        assert(t[i] == s[i]);
        if j == s.len() {
            assert(t[j] == p);
            if s[i].question@ == p.question@ {
                assert(has_question(s, p.question@));
            }
        } else {
            assert(t[j] == s[j]);
        }
    }
    assert forall|i: int| 0 <= i < t.len() implies #[trigger] t[i].question@.len() > 0 by {
        if i < s.len() {
            assert(t[i] == s[i]);
        } else {
            assert(t[i] == p);
        }
    }
    assert_maps_equal!(polls_map(t), polls_map(s).insert(p.question@, p@), q => {
        if q == p.question@ {
            lemma_polls_map_at(t, s.len() as int);
        } else {
            if has_question(t, q) {
                let i = choose|i: int| 0 <= i < t.len() && #[trigger] t[i].question@ == q;
                assert(t[i] == s[i]);
                assert(has_question(s, q));
                lemma_polls_map_at(s, i);
                lemma_polls_map_at(t, i);
            }
            if has_question(s, q) {
                let i = choose|i: int| 0 <= i < s.len() && #[trigger] s[i].question@ == q;
                assert(t[i] == s[i]);
                assert(has_question(t, q));
                lemma_polls_map_at(s, i);
                lemma_polls_map_at(t, i);
            }
        }
    });
}

/// Replacing the record at index `i` by one with the same question keeps the
/// registry well formed and overwrites exactly that entry of its map.
pub proof fn lemma_polls_map_update(s: Seq<Poll>, i: int, p: Poll)
    requires
        questions_unique(s),
        questions_nonempty(s),
        0 <= i < s.len(),
        p.question@ == s[i].question@,
    ensures
        questions_unique(s.update(i, p)),
        questions_nonempty(s.update(i, p)),
        polls_map(s.update(i, p)) == polls_map(s).insert(p.question@, p@),
{
    let t = s.update(i, p);
    assert forall|a: int, b: int| 0 <= a < b < t.len() implies #[trigger] t[a].question@
        != #[trigger] t[b].question@ by {
        assert(s[a].question@ != s[b].question@);
        assert(t[a].question@ == s[a].question@);
        assert(t[b].question@ == s[b].question@);
    }
    assert forall|a: int| 0 <= a < t.len() implies #[trigger] t[a].question@.len() > 0 by {
        assert(t[a].question@ == s[a].question@);
        assert(s[a].question@.len() > 0);
    }
    assert_maps_equal!(polls_map(t), polls_map(s).insert(p.question@, p@), q => {
        if q == p.question@ {
            lemma_polls_map_at(t, i);
        } else {
            if has_question(t, q) {
                let a = choose|a: int| 0 <= a < t.len() && #[trigger] t[a].question@ == q;
                assert(t[a] == s[a]);
                assert(has_question(s, q));
                lemma_polls_map_at(s, a);
                lemma_polls_map_at(t, a);
            }
            if has_question(s, q) {
                let a = choose|a: int| 0 <= a < s.len() && #[trigger] s[a].question@ == q;
                assert(t[a] == s[a]);
                assert(has_question(t, q));
                lemma_polls_map_at(s, a);
                lemma_polls_map_at(t, a);
            }
        }
    });
}

/// The index of the record whose question is `question`, if any.
pub(crate) fn find_index(polls: &Vec<Poll>, question: &String) -> (r: Option<usize>)
    ensures
        match r {
            Some(i) => 0 <= i < polls@.len() && polls@[i as int].question@ == question@,
            None => !has_question(polls@, question@),
        },
{
    let mut i: usize = 0;
    while i < polls.len()
        invariant
            i <= polls@.len(),
            forall|j: int| 0 <= j < i ==> #[trigger] polls@[j].question@ != question@,
        decreases polls@.len() - i,
    {
        if polls[i].question == *question {
            return Some(i);
        }
        i += 1;
    }
    None
}

impl Store {
    /// The store's invariant: questions are pairwise distinct and non-empty,
    /// so the registry map determines the records completely.
    pub open spec fn wf(self) -> bool {
        questions_unique(self.polls@) && questions_nonempty(self.polls@)
    }

    /// An empty store: not yet initialized, no polls.
    pub fn new() -> (s: Store)
        ensures
            s.wf(),
            s@.config is None,
            s@.polls == Map::<Seq<char>, PollData>::empty(),
    {
        let s = Store { config: None, polls: Vec::new() };
        proof {
            assert(s@.polls =~= Map::<Seq<char>, PollData>::empty());
        }
        s
    }

    /// Add a poll under a question not yet present in the registry.
    pub fn insert_poll(&mut self, poll: Poll)
        requires
            old(self).wf(),
            !old(self)@.polls.contains_key(poll.question@),
            poll.question@.len() > 0,
        ensures
            final(self).wf(),
            final(self)@.config == old(self)@.config,
            final(self)@.polls == old(self)@.polls.insert(poll.question@, poll@),
    {
        let ghost pv = poll;
        let ghost old_polls = self.polls@;
        self.polls.push(poll);
        proof {
            lemma_polls_map_push(old_polls, pv);
        }
    }

    /// Replace the poll at index `i` by one carrying the same question.
    pub(crate) fn set_poll(&mut self, i: usize, poll: Poll)
        requires
            old(self).wf(),
            i < old(self).polls@.len(),
            poll.question@ == old(self).polls@[i as int].question@,
        ensures
            final(self).wf(),
            final(self)@.config == old(self)@.config,
            final(self)@.polls == old(self)@.polls.insert(poll.question@, poll@),
    {
        let ghost pv = poll;
        let ghost old_polls = self.polls@;
        self.polls.set(i, poll);
        proof {
            lemma_polls_map_update(old_polls, i as int, pv);
        }
    }

    /// The poll stored under `question`, if any.
    pub fn poll(&self, question: &String) -> (r: Option<&Poll>)
        requires
            self.wf(),
        ensures
            match r {
                Some(p) => self@.polls.contains_key(question@) && p@ == self@.polls[question@],
                None => !self@.polls.contains_key(question@),
            },
    {
        match find_index(&self.polls, question) {
            Some(i) => {
                proof {
                    lemma_polls_map_at(self.polls@, i as int);
                }
                Some(&self.polls[i])
            },
            None => None,
        }
    }

    /// The admin identifier recorded at initialization, if any.
    pub fn admin(&self) -> (r: Option<&String>)
        ensures
            match r {
                Some(a) => self@.config == Some(a@),
                None => self@.config is None,
            },
    {
        match &self.config {
            Some(c) => Some(&c.admin_address),
            None => None,
        }
    }
}

} // verus!
