//! The per-quiz vote collector: the authoritative tally of selections,
//! mutated only by its own quiz, and the decision that turns the tally
//! into a winner set once the deadline fires.

use vstd::prelude::*;

use crate::quiz::Quiz;

verus! {

broadcast use vstd::seq_lib::lemma_seq_contains_after_push;

/// The selections a sequence of recorded votes leaves behind: each voter
/// maps to the choice of the vote recorded last for them.
pub open spec fn selections_of(votes: Seq<(u64, u64)>) -> Map<u64, u64>
    decreases votes.len(),
{
    if votes.len() == 0 {
        Map::empty()
    } else {
        selections_of(votes.drop_last()).insert(votes.last().0, votes.last().1)
    }
}

/// The tally of a quiz nobody has voted in.
pub open spec fn no_selections() -> Map<u64, u64> {
    Map::empty()
}

/// The choice of the last vote a voter submitted, if they voted at all.
pub open spec fn last_choice(votes: Seq<(u64, u64)>, voter: u64) -> Option<u64>
    decreases votes.len(),
{
    if votes.len() == 0 {
        None
    } else if votes.last().0 == voter {
        Some(votes.last().1)
    } else {
        last_choice(votes.drop_last(), voter)
    }
}

/// Last vote wins: for any sequence of votes, the selections left behind
/// record each voter's last submitted choice, and record a voter at all
/// exactly when they voted.
pub proof fn lemma_last_vote_wins(votes: Seq<(u64, u64)>, voter: u64)
    ensures
        selections_of(votes).contains_key(voter) <==> last_choice(votes, voter) is Some,
        selections_of(votes).contains_key(voter) ==> last_choice(votes, voter) == Some(
            selections_of(votes)[voter],
        ),
    decreases votes.len(),
{
    if votes.len() > 0 {
        lemma_last_vote_wins(votes.drop_last(), voter);
    }
}

/// Recording one more vote is, on the selections, exactly an insert of
/// that voter's choice: the step by which a run of recorded votes stays
/// tied to its history.
pub proof fn lemma_vote_recorded(votes: Seq<(u64, u64)>, voter: u64, choice: u64)
    ensures
        selections_of(votes.push((voter, choice))) == selections_of(votes).insert(voter, choice),
{
    assert(votes.push((voter, choice)).drop_last() =~= votes);
}

/// Winner law: against any correct index, a voter's final selection
/// counts as a win exactly when the last vote they submitted chose it.
pub proof fn lemma_winner_is_last_correct_voter(votes: Seq<(u64, u64)>, answer: u64, voter: u64)
    ensures
        (selections_of(votes).contains_key(voter) && selections_of(votes)[voter] == answer)
            <==> last_choice(votes, voter) == Some(answer),
{
    lemma_last_vote_wins(votes, voter);
}

/// Overwrite law: when the same voter votes twice, only the later choice
/// is left in the selections, and no other voter's entry moves.
pub proof fn lemma_vote_overwrite(votes: Seq<(u64, u64)>, voter: u64, first: u64, second: u64)
    ensures
        selections_of(votes.push((voter, first)).push((voter, second)))
            == selections_of(votes).insert(voter, second),
{
    let once = votes.push((voter, first));
    let twice = once.push((voter, second));
    assert(once.drop_last() =~= votes);
    assert(twice.drop_last() =~= once);
    assert(selections_of(once) == selections_of(votes).insert(voter, first));
    assert(selections_of(twice) == selections_of(once).insert(voter, second));
    assert(selections_of(votes).insert(voter, first).insert(voter, second) =~= selections_of(
        votes,
    ).insert(voter, second));
}

/// No two entries name the same voter.
pub open spec fn unique_voters(entries: Seq<(u64, u64)>) -> bool {
    forall|i: int, j: int|
        0 <= i < j < entries.len() ==> (#[trigger] entries[i]).0 != (#[trigger] entries[j]).0
}

/// With unique voters, every stored entry is visible in the selections.
proof fn lemma_entry_selected(entries: Seq<(u64, u64)>, i: int)
    requires
        unique_voters(entries),
        0 <= i < entries.len(),
    ensures
        selections_of(entries).contains_key(entries[i].0),
        selections_of(entries)[entries[i].0] == entries[i].1,
    decreases entries.len(),
{
    if i < entries.len() - 1 {
        assert(entries.drop_last()[i] == entries[i]);
        lemma_entry_selected(entries.drop_last(), i);
        assert(entries[entries.len() - 1].0 != entries[i].0);
    }
}

/// Every voter the selections know of stands in some entry.
proof fn lemma_selected_entry(entries: Seq<(u64, u64)>, voter: u64)
    requires
        selections_of(entries).contains_key(voter),
    ensures
        exists|i: int| 0 <= i < entries.len() && (#[trigger] entries[i]).0 == voter,
    decreases entries.len(),
{
    if entries.len() > 0 {
        if entries.last().0 == voter {
            assert(entries[entries.len() - 1].0 == voter);
        } else {
            lemma_selected_entry(entries.drop_last(), voter);
            let i = choose|i: int|
                0 <= i < entries.drop_last().len() && (#[trigger] entries.drop_last()[i]).0
                    == voter;
            assert(entries[i].0 == voter);
        }
    }
}

/// Overwriting the choice of the entry at `i` is, on the selections, an
/// insert for that entry's voter.
proof fn lemma_update_selections(entries: Seq<(u64, u64)>, i: int, choice: u64)
    requires
        unique_voters(entries),
        0 <= i < entries.len(),
    ensures
        selections_of(entries.update(i, (entries[i].0, choice))) == selections_of(
            entries,
        ).insert(entries[i].0, choice),
    decreases entries.len(),
{
    let updated = entries.update(i, (entries[i].0, choice));
    if i == entries.len() - 1 {
        assert(updated.drop_last() =~= entries.drop_last());
        assert(selections_of(updated) =~= selections_of(entries).insert(entries[i].0, choice));
    } else {
        assert(updated.drop_last() =~= entries.drop_last().update(i, (entries[i].0, choice)));
        assert(entries.drop_last()[i] == entries[i]);
        lemma_update_selections(entries.drop_last(), i, choice);
        assert(entries[entries.len() - 1].0 != entries[i].0);
        assert(selections_of(updated) =~= selections_of(entries).insert(entries[i].0, choice));
    }
}

/// The outcome of one quiz, computed once at close: the text of the
/// correct choice and the set of voters whose final selection was it.
pub struct Outcome {
    /// Text of the correct choice.
    pub correct: String,
    /// Voters whose last selection equals the correct index, each once.
    pub winners: Vec<u64>,
}

/// One quiz's vote collector: it owns the tally of selections and the
/// correct answer, and nothing else ever mutates them.
pub struct Collector {
    answer: u64,
    correct: String,
    entries: Vec<(u64, u64)>,
}

impl Collector {
    /// The tally is stored with one entry per voter.
    pub closed spec fn wf(&self) -> bool {
        unique_voters(self.entries@)
    }

    /// The selections so far: each voter's most recent choice.
    pub closed spec fn selections(&self) -> Map<u64, u64> {
        selections_of(self.entries@)
    }

    /// The index the quiz counts as correct.
    pub closed spec fn spec_answer(&self) -> u64 {
        self.answer
    }

    /// The text of the correct choice.
    pub closed spec fn spec_correct(&self) -> Seq<char> {
        self.correct@
    }

    /// Opens a collector for a valid quiz definition, with no selection
    /// recorded yet; yields `None` exactly on a malformed definition.
    pub fn for_quiz(quiz: &Quiz) -> (r: Option<Collector>)
        ensures
            match r {
                Some(c) => quiz.is_valid() && c.wf() && c.selections() == no_selections()
                    && c.spec_answer() == quiz.answer as u64 && c.spec_correct()
                    == quiz.choices@[quiz.answer as int]@,
                None => !quiz.is_valid(),
            },
    {
        match quiz.correct_text() {
            Some(text) => Some(
                Collector {
                    answer: quiz.answer as u64,
                    correct: text.clone(),
                    entries: Vec::new(),
                },
            ),
            None => None,
        }
    }

    /// Records one vote: the voter's selection becomes this choice,
    /// overwriting any earlier one; nobody else's selection moves.
    pub fn record_vote(&mut self, voter: u64, choice: u64)
        requires
            old(self).wf(),
        ensures
            final(self).wf(),
            final(self).selections() == old(self).selections().insert(voter, choice),
            final(self).spec_answer() == old(self).spec_answer(),
            final(self).spec_correct() == old(self).spec_correct(),
    {
        let n = self.entries.len();
        let mut i: usize = 0;
        while i < n
            invariant
                0 <= i <= n,
                n == self.entries@.len(),
                *self == *old(self),
                old(self).wf(),
                forall|j: int| 0 <= j < i ==> (#[trigger] self.entries@[j]).0 != voter,
            decreases n - i,
        {
            if self.entries[i].0 == voter {
                proof {
                    lemma_update_selections(self.entries@, i as int, choice);
                }
                let ghost before = self.entries@;
                self.entries[i] = (voter, choice);
                proof {
                    assert(self.entries@ =~= before.update(i as int, (voter, choice)));
                    assert forall|a: int, b: int|
                        0 <= a < b < self.entries@.len() implies (#[trigger] self.entries@[a]).0
                        != (#[trigger] self.entries@[b]).0 by {
                        assert(before[a].0 != before[b].0);
                    }
                }
                return ;
            }
            i = i + 1;
        }
        proof {
            assert(*self == *old(self));
        }
        proof {
            assert(self.entries@.push((voter, choice)).drop_last() =~= self.entries@);
        }
        self.entries.push((voter, choice));
    }

    /// Computes the winner set at close: exactly the voters whose final
    /// selection equals the correct index, each listed once.
    pub fn finalize(&self) -> (o: Outcome)
        requires
            self.wf(),
        ensures
            o.correct@ == self.spec_correct(),
            forall|v: u64|
                #[trigger] o.winners@.contains(v) <==> (self.selections().contains_key(v)
                    && self.selections()[v] == self.spec_answer()),
            forall|i: int, j: int|
                0 <= i < j < o.winners@.len() ==> o.winners@[i] != o.winners@[j],
    {
        let n = self.entries.len();
        let mut winners: Vec<u64> = Vec::new();
        let mut i: usize = 0;
        while i < n
            invariant
                0 <= i <= n,
                n == self.entries@.len(),
                self.wf(),
                forall|v: u64|
                    #[trigger] winners@.contains(v) <==> exists|j: int|
                        0 <= j < i && (#[trigger] self.entries@[j]) == (v, self.answer),
                forall|a: int, b: int|
                    0 <= a < b < winners@.len() ==> winners@[a] != winners@[b],
            decreases n - i,
        {
            let entry = self.entries[i];
            let voter = entry.0;
            if entry.1 == self.answer {
                proof {
                    if winners@.contains(voter) {
                        let j = choose|j: int|
                            0 <= j < i && (#[trigger] self.entries@[j]) == (voter, self.answer);
                        assert(self.entries@[j].0 == self.entries@[i as int].0);
                    }
                }
                let ghost w0 = winners@;
                winners.push(voter);
                proof {
                    assert(forall|a: int| 0 <= a < w0.len() ==> winners@[a] == w0[a]);
                    assert forall|a: int, b: int|
                        0 <= a < b < winners@.len() implies winners@[a] != winners@[b] by {
                        if b == winners@.len() - 1 {
                            assert(w0[a] == winners@[a]);
                            assert(!w0.contains(voter));
                        }
                    }
                    assert(self.entries@[i as int] == (voter, self.answer));
                    assert forall|v: u64| #[trigger] winners@.contains(v) implies exists|j: int|
                        0 <= j < i + 1 && (#[trigger] self.entries@[j]) == (v, self.answer) by {
                        if v == voter {
                            assert(self.entries@[i as int] == (v, self.answer));
                        }
                    }
                    assert forall|v: u64|
                        exists|j: int|
                            0 <= j < i + 1 && (#[trigger] self.entries@[j]) == (
                                v,
                                self.answer,
                            ) implies #[trigger] winners@.contains(v) by {
                        let j = choose|j: int|
                            0 <= j < i + 1 && (#[trigger] self.entries@[j]) == (v, self.answer);
                    }
                }
            } else {
                proof {
                    assert(self.entries@[i as int].1 != self.answer);
                    assert forall|v: u64|
                        exists|j: int|
                            0 <= j < i + 1 && (#[trigger] self.entries@[j]) == (
                                v,
                                self.answer,
                            ) implies #[trigger] winners@.contains(v) by {
                        let j = choose|j: int|
                            0 <= j < i + 1 && (#[trigger] self.entries@[j]) == (v, self.answer);
                        assert(j < i);
                    }
                }
            }
            i = i + 1;
        }
        proof {
            assert forall|v: u64| #[trigger]
                winners@.contains(v) <==> (self.selections().contains_key(v) && self.selections()[v]
                    == self.answer) by {
                if winners@.contains(v) {
                    let j = choose|j: int|
                        0 <= j < n && (#[trigger] self.entries@[j]) == (v, self.answer);
                    lemma_entry_selected(self.entries@, j);
                }
                if self.selections().contains_key(v) && self.selections()[v] == self.answer {
                    lemma_selected_entry(self.entries@, v);
                    let j = choose|j: int|
                        0 <= j < self.entries@.len() && (#[trigger] self.entries@[j]).0 == v;
                    lemma_entry_selected(self.entries@, j);
                    assert(self.entries@[j] == (v, self.answer));
                }
            }
        }
        Outcome { correct: self.correct.clone(), winners }
    }
}

} // verus!
