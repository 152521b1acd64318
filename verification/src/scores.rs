//! The scoreboard: who scored how much, and when.

use crate::text::{decimal, push_decimal};
use std::time::SystemTime;
use vstd::multiset::Multiset;
use vstd::prelude::*;

verus! {

/// A point in time of the system clock; the engine only carries it along.
#[verifier::external_type_specification]
#[verifier::external_body]
pub struct ExSystemTime(SystemTime);

/// `SystemTime::now` reads the system clock. Nothing is claimed of the time
/// that it returns.
pub assume_specification[ SystemTime::now ]() -> (now: SystemTime)
;

#[derive(Debug)]
pub struct Score {
    pub name: String,
    pub points: u16,
    pub timestamp: SystemTime,
}

#[derive(Debug)]
pub struct Scores {
    pub scores: Vec<Score>,
}

/// Index of the first score from `from` on that is not above `points`, or
/// the number of scores if all of them are.
pub open spec fn slot(board: Seq<Score>, points: u16, from: int) -> int
    decreases board.len() - from,
{
    if from < 0 || from >= board.len() {
        board.len() as int
    } else if board[from].points <= points {
        from
    } else {
        slot(board, points, from + 1)
    }
}

/// The board with `score` put in at its rank: below every higher score and
/// above every other.
pub open spec fn placed(board: Seq<Score>, score: Score) -> Seq<Score> {
    board.insert(slot(board, score.points, 0), score)
}

/// The board after the scores of `rest` have been put in one by one, from
/// the first to the last.
pub open spec fn placed_all(board: Seq<Score>, rest: Seq<Score>) -> Seq<Score>
    decreases rest.len(),
{
    if rest.len() == 0 {
        board
    } else {
        placed_all(placed(board, rest[0]), rest.drop_first())
    }
}

/// The scores from the highest to the lowest; of two that are equal, the
/// later one comes first.
pub open spec fn ranked(scores: Seq<Score>) -> Seq<Score> {
    placed_all(Seq::empty(), scores)
}

/// The scores ranked, and cut to the best `max` of them.
pub open spec fn best(scores: Seq<Score>, max: nat) -> Seq<Score> {
    if max < ranked(scores).len() {
        ranked(scores).take(max as int)
    } else {
        ranked(scores)
    }
}

/// No score is followed by a higher one.
pub open spec fn descending(board: Seq<Score>) -> bool {
    forall|i: int, j: int| 0 <= i < j < board.len() ==> board[i].points >= board[j].points
}

/// The line of the scoreboard for a score, given its date in writing.
pub open spec fn line_of(score: Score, date: Seq<char>) -> Seq<char> {
    date + "\t"@ + score.name@ + ":\t\t"@ + decimal(score.points as nat) + " points"@
}

/// The slot is a place on the board; everything before it is higher than
/// `points`, and what stands at it is not.
pub proof fn lemma_slot(board: Seq<Score>, points: u16, from: int)
    requires
        0 <= from <= board.len(),
    ensures
        from <= slot(board, points, from) <= board.len(),
        forall|j: int| from <= j < slot(board, points, from) ==> (#[trigger] board[j]).points > points,
        slot(board, points, from) < board.len() ==> board[slot(board, points, from)].points
            <= points,
    decreases board.len() - from,
{
    if from < board.len() && board[from].points > points {
        lemma_slot(board, points, from + 1);
    }
}

/// Putting a score on a descending board leaves it descending, makes it
/// one longer, and adds that score and no other.
pub proof fn lemma_placed(board: Seq<Score>, score: Score)
    requires
        descending(board),
    ensures
        descending(placed(board, score)),
        placed(board, score).len() == board.len() + 1,
        placed(board, score).to_multiset() == board.to_multiset().insert(score),
{
    let k = slot(board, score.points, 0);
    lemma_slot(board, score.points, 0);
    let out = placed(board, score);
    assert forall|i: int, j: int| 0 <= i < j < out.len() implies out[i].points
        >= out[j].points by {
        if i < k {
            assert(out[i] == board[i]);
        } else if i > k {
            assert(out[i] == board[i - 1]);
        }
        if j < k {
            assert(out[j] == board[j]);
        } else if j > k {
            assert(out[j] == board[j - 1]);
        }
        if i < k && j > k && k < board.len() {
            assert(board[i].points >= board[k].points);
        }
    }
    assert(out.remove(k) =~= board);
    broadcast use vstd::seq_lib::group_to_multiset_ensures;

    assert(out[k] == score);
    assert(out.remove(k).to_multiset() =~= out.to_multiset().remove(out[k]));
    assert(out.contains(score));
    assert(out.to_multiset() =~= board.to_multiset().insert(score));
}

/// Putting scores on a descending board one by one leaves it descending,
/// and the board then holds what it held and what was put on it.
pub proof fn lemma_placed_all(board: Seq<Score>, rest: Seq<Score>)
    requires
        descending(board),
    ensures
        descending(placed_all(board, rest)),
        placed_all(board, rest).len() == board.len() + rest.len(),
        placed_all(board, rest).to_multiset() == board.to_multiset().add(rest.to_multiset()),
    decreases rest.len(),
{
    broadcast use vstd::seq_lib::group_to_multiset_ensures;

    if rest.len() == 0 {
        assert(rest.to_multiset() =~= Multiset::empty());
        assert(board.to_multiset().add(rest.to_multiset()) =~= board.to_multiset());
    } else {
        lemma_placed(board, rest[0]);
        lemma_placed_all(placed(board, rest[0]), rest.drop_first());
        assert(rest.remove(0) =~= rest.drop_first());
        assert(rest.drop_first().to_multiset() =~= rest.to_multiset().remove(rest[0]));
        assert(rest.contains(rest[0]));
        assert(board.to_multiset().insert(rest[0]).add(rest.drop_first().to_multiset())
            =~= board.to_multiset().add(rest.to_multiset()));
    }
}

/// The ranking holds exactly the scores that were given, the highest first.
pub proof fn law_ranked(scores: Seq<Score>)
    ensures
        descending(ranked(scores)),
        ranked(scores).len() == scores.len(),
        ranked(scores).to_multiset() == scores.to_multiset(),
{
    broadcast use vstd::seq_lib::group_to_multiset_ensures;

    lemma_placed_all(Seq::empty(), scores);
    assert(Seq::<Score>::empty().to_multiset() =~= Multiset::empty());
    assert(Multiset::<Score>::empty().add(scores.to_multiset()) =~= scores.to_multiset());
}

impl Score {
    /// A score made now.
    pub fn new(name: String, points: u16) -> (score: Score)
        ensures
            score.name == name,
            score.points == points,
    {
        Score { name, points, timestamp: SystemTime::now() }
    }

    /// The line of the scoreboard for this score, given its date in
    /// writing.
    pub fn line(&self, date: &str) -> (s: String)
        ensures
            s@ == line_of(*self, date@),
    {
        let mut s: String = date.to_owned();
        s.push('\t');
        s.push_str(self.name.as_str());
        s.push_str(":\t\t");
        push_decimal(&mut s, self.points as usize);
        s.push_str(" points");
        proof {
            reveal_strlit("\t");
            assert(s@ =~= line_of(*self, date@));
        }
        s
    }
}

impl Scores {
    /// Ranks the scores, the highest first, and keeps the best `max`.
    pub fn rank(&mut self, max: usize)
        ensures
            final(self).scores@ == best(old(self).scores@, max as nat),
    {
        let mut board: Vec<Score> = Vec::new();
        while self.scores.len() > 0
            invariant
                placed_all(board@, self.scores@) == ranked(old(self).scores@),
            decreases self.scores.len(),
        {
            let ghost rest = self.scores@;
            let score = self.scores.remove(0);
            assert(self.scores@ =~= rest.drop_first());
            let mut k: usize = 0;
            while k < board.len() && board[k].points > score.points
                invariant
                    k <= board.len(),
                    slot(board@, score.points, 0) == slot(board@, score.points, k as int),
                decreases board.len() - k,
            {
                k += 1;
            }
            board.insert(k, score);
        }
        board.truncate(max);
        self.scores = board;
    }
}

} // verus!
