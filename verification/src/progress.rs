//! Accounting for the render progress bar.
//!
//! The reporter tracks how much of the total work has been done and how many
//! fill marks of the bar that amount of work corresponds to; drawing the bar
//! on a terminal is left to the unverified shell.

use vstd::arithmetic::div_mod::lemma_div_is_ordered;
use vstd::arithmetic::div_mod::lemma_div_multiples_vanish;
use vstd::arithmetic::mul::lemma_mul_inequality;
use vstd::arithmetic::mul::lemma_mul_is_commutative;
use vstd::prelude::*;
use vstd::string::StringExecFns;

verus! {

/// How many fill marks a bar of `total_plusses` marks shows once `work_done`
/// of `total_work` units are finished; the bar never overfills.
pub open spec fn spec_plusses_needed(total_plusses: int, work_done: int, total_work: int) -> int {
    if work_done >= total_work {
        total_plusses
    } else {
        total_plusses * work_done / total_work
    }
}

/// Progress of a long-running piece of work, displayed as a bar of plus
/// signs between brackets after a title.
pub struct ProgressReporter {
    pub total_work: usize,
    pub work_done: usize,
    pub plusses_printed: usize,
    pub total_plusses: usize,
    pub title: String,
}

impl ProgressReporter {
    /// Starts tracking `total_work` units, with the bar sized so that title
    /// and marks fill `bar_length` columns; at least two marks are used.
    pub fn new(total_work: usize, bar_length: usize, title: String) -> (r: ProgressReporter)
        requires
            1 <= total_work,
            title@.len() <= bar_length,
        ensures
            r.total_work == total_work,
            r.work_done == 0,
            r.plusses_printed == 0,
            r.total_plusses == if bar_length - title@.len() >= 2 {
                bar_length - title@.len()
            } else {
                2int
            },
            r.title == title,
    {
        let title_len: usize = title.as_str().unicode_len();
        let room: usize = bar_length - title_len;
        let total_plusses: usize = if room >= 2 {
            room
        } else {
            2
        };
        ProgressReporter {
            total_work,
            work_done: 0,
            plusses_printed: 0,
            total_plusses,
            title,
        }
    }

    /// Records `num` more units of finished work and returns how many fill
    /// marks the bar now shows.
    pub fn update(&mut self, num: usize) -> (plusses: usize)
        requires
            old(self).work_done + num <= usize::MAX,
            1 <= old(self).total_work,
            old(self).total_plusses * old(self).total_work <= usize::MAX,
        ensures
            final(self).work_done == old(self).work_done + num,
            final(self).total_work == old(self).total_work,
            final(self).total_plusses == old(self).total_plusses,
            final(self).title == old(self).title,
            plusses == spec_plusses_needed(
                final(self).total_plusses as int,
                final(self).work_done as int,
                final(self).total_work as int,
            ),
            final(self).plusses_printed == plusses,
            plusses <= final(self).total_plusses,
    {
        self.work_done = self.work_done + num;
        let plusses: usize = if self.work_done >= self.total_work {
            self.total_plusses
        } else {
            proof {
                lemma_mul_inequality(
                    self.work_done as int,
                    self.total_work as int,
                    self.total_plusses as int,
                );
                lemma_mul_is_commutative(self.total_plusses as int, self.work_done as int);
                lemma_mul_is_commutative(self.total_plusses as int, self.total_work as int);
                lemma_div_is_ordered(
                    self.total_plusses * self.work_done,
                    self.total_plusses * self.total_work,
                    self.total_work as int,
                );
                lemma_div_multiples_vanish(self.total_plusses as int, self.total_work as int);
            }
            (self.total_plusses * self.work_done) / self.total_work
        };
        self.plusses_printed = plusses;
        plusses
    }

    /// The completely filled bar shown when the work is finished.
    pub fn done(&self) -> (plusses: usize)
        ensures
            plusses == self.total_plusses,
    {
        self.total_plusses
    }

    /// The line drawn for a bar with `plusses` of its marks filled: a
    /// carriage return, the title, the opening bracket, the fill marks,
    /// blanks for the rest of the bar, and the closing bracket.
    pub fn bar_line(&self, plusses: usize) -> (r: String)
        requires
            plusses <= self.total_plusses,
        ensures
            r@ == seq!['\r'] + self.title@ + seq![':', ' ', '['] + Seq::new(
                plusses as nat,
                |j: int| '+',
            ) + Seq::new((self.total_plusses - plusses) as nat, |j: int| ' ') + seq![']', ' '],
    {
        let mut buf: String = "\r".to_owned();
        buf.append(self.title.as_str());
        buf.append(": [");
        let ghost head: Seq<char> = seq!['\r'] + self.title@ + seq![':', ' ', '['];
        proof {
            reveal_strlit("\r");
            reveal_strlit(": [");
            assert(buf@ =~= head);
            assert(buf@ =~= head + Seq::new(0nat, |j: int| '+'));
        }
        let mut i: usize = 0;
        while i < plusses
            invariant
                i <= plusses,
                buf@ == head + Seq::new(i as nat, |j: int| '+'),
            decreases plusses - i,
        {
            buf.append("+");
            proof {
                reveal_strlit("+");
                assert(buf@ =~= head + Seq::new((i + 1) as nat, |j: int| '+'));
            }
            i = i + 1;
        }
        let ghost marks: Seq<char> = head + Seq::new(plusses as nat, |j: int| '+');
        let blanks: usize = self.total_plusses - plusses;
        proof {
            assert(buf@ =~= marks + Seq::new(0nat, |j: int| ' '));
        }
        let mut b: usize = 0;
        while b < blanks
            invariant
                b <= blanks,
                buf@ == marks + Seq::new(b as nat, |j: int| ' '),
            decreases blanks - b,
        {
            buf.append(" ");
            proof {
                reveal_strlit(" ");
                assert(buf@ =~= marks + Seq::new((b + 1) as nat, |j: int| ' '));
            }
            b = b + 1;
        }
        buf.append("] ");
        proof {
            reveal_strlit("] ");
            assert(buf@ =~= seq!['\r'] + self.title@ + seq![':', ' ', '['] + Seq::new(
                plusses as nat,
                |j: int| '+',
            ) + Seq::new((self.total_plusses - plusses) as nat, |j: int| ' ') + seq![']', ' ']);
        }
        buf
    }
}

} // verus!
