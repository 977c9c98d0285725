//! The steps of a commit, and why their order does not matter.
//!
//! A commit is made of five steps: one for each of the four windows, and
//! the write of the window enable field. Each step fills fields of the
//! registers that no other step touches, with values that depend on the
//! windows alone.

use vstd::prelude::*;
use crate::bits::{lemma_disjoint_writes_commute, lemma_write_overwrites, write_field};
use crate::registers::{
    register_at, DISPLAY_CONTROL, REG_HORIZONTAL_BASE, REG_VERTICAL_BASE, REG_WINDOW_CONTROL_BASE,
};
use crate::window::{extent, with_summary, WinIn, Windows, SUMMARY_LENGTH, SUMMARY_SHIFT};

verus! {

/// One step of a commit.
pub enum CommitStep {
    /// The commit of a movable window to its slot, 0 or 1.
    Inside(WinIn),
    /// The commit of the window outside to slot 2.
    Outside,
    /// The commit of the object window to slot 3.
    Objects,
    /// The write of the window enable field.
    Summary,
}

/// A control register that held `reg`, after the flag bytes `low` and
/// `high` were written to its halves, where there is one to write.
spec fn control_after(reg: u16, low: Option<u8>, high: Option<u8>) -> u16 {
    let with_low = match low {
        Some(byte) => write_field(reg, byte as u16, 8, 0),
        None => reg,
    };
    match high {
        Some(byte) => write_field(with_low, byte as u16, 8, 8),
        None => with_low,
    }
}

/// `byte` if the step was made.
spec fn if_made(made: bool, byte: u8) -> Option<u8> {
    if made {
        Some(byte)
    } else {
        None
    }
}

/// One more write to a half of a control register replaces what an earlier
/// write put there and keeps the other half.
proof fn lemma_control_after(reg: u16, low: Option<u8>, high: Option<u8>, byte: u8)
    ensures
        write_field(control_after(reg, low, high), byte as u16, 8, 0) == control_after(
            reg,
            Some(byte),
            high,
        ),
        write_field(control_after(reg, low, high), byte as u16, 8, 8) == control_after(
            reg,
            low,
            Some(byte),
        ),
{
    let with_low = match low {
        Some(earlier) => write_field(reg, earlier as u16, 8, 0),
        None => reg,
    };
    if let Some(earlier) = low {
        lemma_write_overwrites(reg, earlier as u16, byte as u16, 8, 0);
    }
    if let Some(other) = high {
        lemma_disjoint_writes_commute(with_low, byte as u16, 8, 0, other as u16, 8, 8);
        lemma_write_overwrites(with_low, other as u16, byte as u16, 8, 8);
    }
}

impl Windows {
    /// The registers `regs` after one step of a commit of these windows.
    pub open spec fn after_step(&self, step: CommitStep, regs: Map<u32, u16>) -> Map<u32, u16> {
        match step {
            CommitStep::Inside(id) => self.inside(id).committed(id.slot(), regs),
            CommitStep::Outside => self.outside().committed(2, regs),
            CommitStep::Objects => self.objects().committed(3, regs),
            CommitStep::Summary => with_summary(regs, self.enable_summary()),
        }
    }

    /// The registers `regs` after a run of steps, made in order.
    pub open spec fn after_steps(&self, steps: Seq<CommitStep>, regs: Map<u32, u16>) -> Map<
        u32,
        u16,
    >
        decreases steps.len(),
    {
        if steps.len() == 0 {
            regs
        } else {
            self.after_step(steps.last(), self.after_steps(steps.drop_last(), regs))
        }
    }

    /// What the registers hold once the steps in `made` were made, in
    /// whatever order and however often.
    spec fn settled(&self, made: Set<CommitStep>, regs: Map<u32, u16>) -> Map<u32, u16> {
        let first = made.contains(CommitStep::Inside(WinIn::Win0));
        let second = made.contains(CommitStep::Inside(WinIn::Win1));
        let outside = made.contains(CommitStep::Outside);
        let objects = made.contains(CommitStep::Objects);
        let summary = made.contains(CommitStep::Summary);
        let window0 = self.inside(WinIn::Win0);
        let window1 = self.inside(WinIn::Win1);
        let low = register_at(REG_WINDOW_CONTROL_BASE, 0);
        let high = register_at(REG_WINDOW_CONTROL_BASE, 1);
        let with_low = if first || second {
            regs.insert(
                low,
                control_after(
                    regs[low],
                    if_made(first, window0.bits()),
                    if_made(second, window1.bits()),
                ),
            )
        } else {
            regs
        };
        let with_high = if outside || objects {
            with_low.insert(
                high,
                control_after(
                    regs[high],
                    if_made(outside, self.outside().bits()),
                    if_made(objects, self.objects().bits()),
                ),
            )
        } else {
            with_low
        };
        let with_first = if first {
            with_high.insert(
                register_at(REG_HORIZONTAL_BASE, 0),
                extent(window0.rect().position.x, window0.rect().size.x) as u16,
            ).insert(
                register_at(REG_VERTICAL_BASE, 0),
                extent(window0.rect().position.y, window0.rect().size.y) as u16,
            )
        } else {
            with_high
        };
        let with_second = if second {
            with_first.insert(
                register_at(REG_HORIZONTAL_BASE, 1),
                extent(window1.rect().position.x, window1.rect().size.x) as u16,
            ).insert(
                register_at(REG_VERTICAL_BASE, 1),
                extent(window1.rect().position.y, window1.rect().size.y) as u16,
            )
        } else {
            with_first
        };
        if summary {
            with_summary(with_second, self.enable_summary())
        } else {
            with_second
        }
    }

    /// A step takes the registers from what they hold after some steps to
    /// what they hold after those and the new one.
    proof fn lemma_step_settles(&self, made: Set<CommitStep>, step: CommitStep, regs: Map<u32, u16>)
        ensures
            self.after_step(step, self.settled(made, regs)) == self.settled(
                made.insert(step),
                regs,
            ),
    {
        let low = register_at(REG_WINDOW_CONTROL_BASE, 0);
        let high = register_at(REG_WINDOW_CONTROL_BASE, 1);
        let before = self.settled(made, regs);
        lemma_control_after(
            regs[low],
            if_made(made.contains(CommitStep::Inside(WinIn::Win0)), self.inside(WinIn::Win0).bits()),
            if_made(made.contains(CommitStep::Inside(WinIn::Win1)), self.inside(WinIn::Win1).bits()),
            self.inside(WinIn::Win0).bits(),
        );
        lemma_control_after(
            regs[low],
            if_made(made.contains(CommitStep::Inside(WinIn::Win0)), self.inside(WinIn::Win0).bits()),
            if_made(made.contains(CommitStep::Inside(WinIn::Win1)), self.inside(WinIn::Win1).bits()),
            self.inside(WinIn::Win1).bits(),
        );
        lemma_control_after(
            regs[high],
            if_made(made.contains(CommitStep::Outside), self.outside().bits()),
            if_made(made.contains(CommitStep::Objects), self.objects().bits()),
            self.outside().bits(),
        );
        lemma_control_after(
            regs[high],
            if_made(made.contains(CommitStep::Outside), self.outside().bits()),
            if_made(made.contains(CommitStep::Objects), self.objects().bits()),
            self.objects().bits(),
        );
        lemma_write_overwrites(
            regs[DISPLAY_CONTROL],
            self.enable_summary(),
            self.enable_summary(),
            SUMMARY_LENGTH,
            SUMMARY_SHIFT,
        );
        assert(self.after_step(step, before) =~= self.settled(made.insert(step), regs));
    }

    /// After any run of steps the registers hold what the set of the steps
    /// made settles.
    proof fn lemma_steps_settle(&self, steps: Seq<CommitStep>, regs: Map<u32, u16>)
        ensures
            self.after_steps(steps, regs) == self.settled(steps.to_set(), regs),
        decreases steps.len(),
    {
        if steps.len() == 0 {
            assert(steps.to_set() =~= Set::<CommitStep>::empty());
            assert(self.settled(Set::empty(), regs) =~= regs);
        } else {
            let earlier = steps.drop_last();
            self.lemma_steps_settle(earlier, regs);
            self.lemma_step_settles(earlier.to_set(), steps.last(), regs);
            assert(steps.to_set() =~= earlier.to_set().insert(steps.last())) by {
                assert forall|step: CommitStep| steps.contains(step) implies earlier.contains(step)
                    || step == steps.last() by {
                    let i = choose|i: int| 0 <= i < steps.len() && steps[i] == step;
                    if i < steps.len() - 1 {
                        assert(earlier[i] == step);
                    }
                }
                assert forall|step: CommitStep| earlier.contains(step) implies steps.contains(
                    step,
                ) by {
                    let i = choose|i: int| 0 <= i < earlier.len() && earlier[i] == step;
                    assert(steps[i] == step);
                }
                assert(steps[steps.len() - 1] == steps.last());
            }
        }
    }

    /// The order of the steps of a commit does not matter: a run that makes
    /// each of the five steps leaves in the registers what a commit leaves,
    /// in whatever order it makes them, and also where it makes a step
    /// again.
    pub proof fn lemma_commit_in_any_order(&self, steps: Seq<CommitStep>, regs: Map<u32, u16>)
        requires
            steps.contains(CommitStep::Inside(WinIn::Win0)),
            steps.contains(CommitStep::Inside(WinIn::Win1)),
            steps.contains(CommitStep::Outside),
            steps.contains(CommitStep::Objects),
            steps.contains(CommitStep::Summary),
        ensures
            self.after_steps(steps, regs) == self.committed(regs),
    {
        let none = Set::<CommitStep>::empty();
        let one = none.insert(CommitStep::Inside(WinIn::Win0));
        let two = one.insert(CommitStep::Inside(WinIn::Win1));
        let three = two.insert(CommitStep::Outside);
        let four = three.insert(CommitStep::Objects);
        let five = four.insert(CommitStep::Summary);
        assert(self.settled(none, regs) =~= regs);
        self.lemma_step_settles(none, CommitStep::Inside(WinIn::Win0), regs);
        self.lemma_step_settles(one, CommitStep::Inside(WinIn::Win1), regs);
        self.lemma_step_settles(two, CommitStep::Outside, regs);
        self.lemma_step_settles(three, CommitStep::Objects, regs);
        self.lemma_step_settles(four, CommitStep::Summary, regs);
        assert(self.committed(regs) == self.settled(five, regs));
        self.lemma_steps_settle(steps, regs);
        assert(steps.to_set() =~= five) by {
            assert forall|step: CommitStep| five.contains(step) by {
                match step {
                    CommitStep::Inside(WinIn::Win0) => {},
                    CommitStep::Inside(WinIn::Win1) => {},
                    CommitStep::Outside => {},
                    CommitStep::Objects => {},
                    CommitStep::Summary => {},
                }
            }
        }
    }

    /// Two steps of a commit may change places.
    pub proof fn lemma_steps_commute(
        &self,
        first: CommitStep,
        second: CommitStep,
        regs: Map<u32, u16>,
    )
        ensures
            self.after_step(second, self.after_step(first, regs)) == self.after_step(
                first,
                self.after_step(second, regs),
            ),
    {
        let none = Set::<CommitStep>::empty();
        assert(self.settled(none, regs) =~= regs);
        self.lemma_step_settles(none, first, regs);
        self.lemma_step_settles(none.insert(first), second, regs);
        self.lemma_step_settles(none, second, regs);
        self.lemma_step_settles(none.insert(second), first, regs);
        assert(none.insert(first).insert(second) =~= none.insert(second).insert(first));
    }

    /// A step made twice leaves what the step made once leaves.
    pub proof fn lemma_step_again(&self, step: CommitStep, regs: Map<u32, u16>)
        ensures
            self.after_step(step, self.after_step(step, regs)) == self.after_step(step, regs),
    {
        let none = Set::<CommitStep>::empty();
        assert(self.settled(none, regs) =~= regs);
        self.lemma_step_settles(none, step, regs);
        self.lemma_step_settles(none.insert(step), step, regs);
        assert(none.insert(step).insert(step) =~= none.insert(step));
    }
}

} // verus!
