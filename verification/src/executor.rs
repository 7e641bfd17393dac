use vstd::prelude::*;
use std::collections::VecDeque;

verus! {

/// What polling a task yields.
#[derive(Debug, Copy, Clone, PartialEq, Eq, Structural)]
pub enum Poll {
    /// The task is not done and wants another turn.
    Pending,
    /// The task is done.
    Ready,
}

/// The cooperative executor: the tasks that are ready to run, by their
/// ids, in the order of their turns.
pub struct Executor {
    task_queue: VecDeque<u64>,
}

impl View for Executor {
    type V = Seq<u64>;

    closed spec fn view(&self) -> Seq<u64> {
        self.task_queue@
    }
}

impl Executor {
    /// An executor without tasks.
    pub fn new() -> (r: Executor)
        ensures
            r@ == Seq::<u64>::empty(),
    {
        Executor { task_queue: VecDeque::new() }
    }

    /// Adds the task `task` behind those that are ready.
    pub fn spawn(&mut self, task: u64)
        ensures
            final(self)@ == old(self)@.push(task),
    {
        self.task_queue.push_back(task)
    }

    /// Takes the task whose turn it is, if any is ready.
    pub fn next_task(&mut self) -> (r: Option<u64>)
        ensures
            old(self)@.len() == 0 ==> r is None && final(self)@ == old(self)@,
            old(self)@.len() > 0 ==> r == Some(old(self)@[0]) && final(self)@ == old(self)@.subrange(
                1,
                old(self)@.len() as int,
            ),
    {
        self.task_queue.pop_front()
    }

    /// Takes note of what polling the task `task` yielded: a task that is
    /// not done goes behind those that are ready, a task that is done is
    /// dropped.
    pub fn polled(&mut self, task: u64, result: Poll)
        ensures
            result == Poll::Pending ==> final(self)@ == old(self)@.push(task),
            result == Poll::Ready ==> final(self)@ == old(self)@,
    {
        match result {
            Poll::Pending => self.task_queue.push_back(task),
            Poll::Ready => {},
        }
    }
}

/// A wait that gives the other tasks one turn.
#[derive(Debug, Copy, Clone, PartialEq, Eq, Structural)]
pub struct Yield {
    pub polled: bool,
}

impl Yield {
    /// A wait that was not polled yet.
    pub fn new() -> (r: Yield)
        ensures
            !r.polled,
    {
        Yield { polled: false }
    }

    /// Polls the wait: it is pending once, and ready from then on.
    pub fn poll(&mut self) -> (r: Poll)
        ensures
            final(self).polled,
            r == (if old(self).polled {
                Poll::Ready
            } else {
                Poll::Pending
            }),
    {
        if self.polled {
            Poll::Ready
        } else {
            self.polled = true;
            Poll::Pending
        }
    }
}

/// A wait for a time to pass.
#[derive(Debug, Copy, Clone, PartialEq, Eq, Structural)]
pub struct TimeoutFuture {
    /// The time to wait, in milliseconds.
    pub wait_ms: u64,
    /// The counter value at which the wait is over, once it was polled.
    pub deadline: Option<u64>,
}

/// The counter value at which a wait of `wait_ms` milliseconds that is
/// first polled at `now` is over, where the counter runs at `freq` ticks a
/// second; the largest counter value where that lies beyond it.
pub open spec fn spec_timeout_deadline(now: u64, freq: u64, wait_ms: u64) -> u64 {
    if now + freq / 1000 * wait_ms > u64::MAX {
        u64::MAX
    } else {
        (now + freq / 1000 * wait_ms) as u64
    }
}

impl TimeoutFuture {
    /// A wait of `ms` milliseconds, which start when it is first polled.
    pub fn new_ms(ms: u64) -> (r: TimeoutFuture)
        ensures
            r == (TimeoutFuture { wait_ms: ms, deadline: None }),
    {
        TimeoutFuture { wait_ms: ms, deadline: None }
    }

    /// Polls the wait at the counter value `now`: the first poll sets the
    /// deadline, and the wait is over once the counter has reached it.
    pub fn poll(&mut self, now: u64, freq: u64) -> (r: Poll)
        ensures
            final(self).wait_ms == old(self).wait_ms,
            final(self).deadline == Some(
                match old(self).deadline {
                    Some(d) => d,
                    None => spec_timeout_deadline(now, freq, old(self).wait_ms),
                },
            ),
            r == (if now >= final(self).deadline->0 {
                Poll::Ready
            } else {
                Poll::Pending
            }),
    {
        let deadline = match self.deadline {
            Some(d) => d,
            None => {
                let rate: u128 = (freq / 1000) as u128;
                let wait: u128 = self.wait_ms as u128;
                assert(rate * wait <= 0xffff_ffff_ffff_ffff * 0xffff_ffff_ffff_ffff) by (nonlinear_arith)
                    requires
                        0 <= rate <= 0xffff_ffff_ffff_ffff,
                        0 <= wait <= 0xffff_ffff_ffff_ffff,
                ;
                let ticks = rate * wait;
                let at = now as u128 + ticks;
                if at > u64::MAX as u128 {
                    u64::MAX
                } else {
                    at as u64
                }
            },
        };
        self.deadline = Some(deadline);
        if now >= deadline {
            Poll::Ready
        } else {
            Poll::Pending
        }
    }
}

} // verus!
