//! The steps of a long operation (one per game), run a bounded number at a time.
use vstd::prelude::*;

verus! {

/// At most this many steps run at once.
pub const MAX_ACTIVE_STEPS: usize = 100;

/// What to do after a step has reported.
#[derive(Debug, PartialEq, Eq)]
pub enum StepOutcome<T> {
    /// Start this waiting step.
    Next(T),
    /// Wait for the steps still running.
    Waiting,
    /// Every step has reported: the operation is done.
    Done,
}

/// The steps of an operation that wait to start, and how many are running.
pub struct StepQueue<T> {
    waiting: Vec<T>,
    active: usize,
}

impl<T> StepQueue<T> {
    /// The steps waiting to start; the last one starts next.
    pub closed spec fn waiting_view(&self) -> Seq<T> {
        self.waiting@
    }

    /// How many steps are running.
    pub closed spec fn active_view(&self) -> nat {
        self.active as nat
    }

    /// How many steps have still to report: those running and those waiting.
    pub open spec fn remaining(&self) -> nat {
        self.waiting_view().len() + self.active_view()
    }

    /// No step waits and none runs.
    pub fn new() -> (r: Self)
        ensures
            r.waiting_view() == Seq::<T>::empty(),
            r.active_view() == 0,
    {
        StepQueue { waiting: Vec::new(), active: 0 }
    }

    /// How many steps are running.
    pub fn active(&self) -> (r: usize)
        ensures
            r == self.active_view(),
    {
        self.active
    }

    /// Queues `steps` behind those waiting, then starts as many as may run at once from
    /// the front of the queue and returns them; the rest wait.
    pub fn start(&mut self, steps: Vec<T>) -> (r: Vec<T>)
        ensures
            ({
                let all = old(self).waiting_view() + steps@;
                let k = if all.len() < MAX_ACTIVE_STEPS {
                    all.len()
                } else {
                    MAX_ACTIVE_STEPS as nat
                };
                &&& r@ == all.take(k as int)
                &&& final(self).waiting_view() == all.skip(k as int)
                &&& final(self).active_view() == k
            }),
            r@ + final(self).waiting_view() == old(self).waiting_view() + steps@,
            final(self).active_view() <= MAX_ACTIVE_STEPS,
    {
        let mut steps = steps;
        let ghost all = self.waiting@ + steps@;
        self.waiting.append(&mut steps);
        assert(self.waiting@ =~= all);
        let k = if self.waiting.len() < MAX_ACTIVE_STEPS {
            self.waiting.len()
        } else {
            MAX_ACTIVE_STEPS
        };
        let rest = self.waiting.split_off(k);
        let mut started = rest;
        std::mem::swap(&mut started, &mut self.waiting);
        self.active = k;
        assert(started@ + self.waiting@ =~= all);
        started
    }

    /// Records that a running step reported. The last waiting step starts in its place;
    /// when none waits, one step fewer runs, and once none runs the operation is done.
    /// Each report leaves one step fewer to report, and the operation is done exactly
    /// when the last one has.
    pub fn finish(&mut self) -> (r: StepOutcome<T>)
        requires
            old(self).active_view() > 0,
        ensures
            old(self).waiting_view().len() > 0 ==> {
                &&& r == StepOutcome::Next(old(self).waiting_view().last())
                &&& final(self).waiting_view() == old(self).waiting_view().drop_last()
                &&& final(self).active_view() == old(self).active_view()
            },
            old(self).waiting_view().len() == 0 ==> {
                &&& final(self).waiting_view() == old(self).waiting_view()
                &&& final(self).active_view() == old(self).active_view() - 1
                &&& r == if final(self).active_view() == 0 {
                    StepOutcome::<T>::Done
                } else {
                    StepOutcome::<T>::Waiting
                }
            },
            final(self).remaining() == old(self).remaining() - 1,
            (r is Done) <==> old(self).remaining() == 1,
    {
        match self.waiting.pop() {
            Some(step) => StepOutcome::Next(step),
            None => {
                self.active = self.active - 1;
                if self.active == 0 {
                    StepOutcome::Done
                } else {
                    StepOutcome::Waiting
                }
            },
        }
    }

    /// Forgets every step: the operation has gone idle.
    pub fn clear(&mut self)
        ensures
            final(self).waiting_view() == Seq::<T>::empty(),
            final(self).active_view() == 0,
    {
        self.waiting.clear();
        self.active = 0;
    }
}

} // verus!
