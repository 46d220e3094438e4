//! The decisions of the background worker of a command run. The worker
//! runs the run's commands strictly one after another: the next command is
//! launched only once the previous one's output has ended, each output line
//! is forwarded tagged with the run, and a command that cannot be launched
//! ends the run. A command's exit status is never looked at.

use vstd::prelude::*;

verus! {

/// What the worker observed.
pub enum WorkerEvent {
    /// The worker is ready for the next command: at the start of the run,
    /// or once the previous command's output has ended.
    Ready,
    /// The command just asked for could not be launched.
    LaunchFailed,
    /// The running command produced a line.
    Line(String),
}

/// What the worker is to do next.
pub enum WorkerAction {
    /// Launch the command at this index of the run.
    Launch(usize),
    /// Forward the line, tagged with the run.
    Send(u64, String),
    /// Stop: the run is over.
    Finish,
}

pub struct Worker {
    pub run: u64,
    pub count: usize,
    /// Index of the next command to launch.
    pub next: usize,
    pub done: bool,
}

impl Worker {
    /// The worker of run `run` over `count` commands.
    pub fn new(run: u64, count: usize) -> (r: Worker)
        ensures
            r.run == run,
            r.count == count,
            r.next == 0,
            !r.done,
    {
        Worker { run, count, next: 0, done: false }
    }

    /// Takes one event and says what to do.
    pub fn step(&mut self, event: WorkerEvent) -> (action: WorkerAction)
        requires
            old(self).next <= old(self).count,
        ensures
            final(self).run == old(self).run,
            final(self).count == old(self).count,
            final(self).next <= final(self).count,
            old(self).done ==> action is Finish && *final(self) == *old(self),
            !old(self).done ==> match event {
                WorkerEvent::Ready => if old(self).next < old(self).count {
                    action == WorkerAction::Launch(old(self).next)
                        && final(self).next == old(self).next + 1 && !final(self).done
                } else {
                    action is Finish && final(self).done && final(self).next == old(self).next
                },
                WorkerEvent::LaunchFailed => action is Finish && final(self).done
                    && final(self).next == old(self).next,
                WorkerEvent::Line(l) => action == WorkerAction::Send(old(self).run, l)
                    && *final(self) == *old(self),
            },
    {
        if self.done {
            return WorkerAction::Finish;
        }
        match event {
            WorkerEvent::Ready => {
                if self.next < self.count {
                    let i = self.next;
                    self.next = self.next + 1;
                    WorkerAction::Launch(i)
                } else {
                    self.done = true;
                    WorkerAction::Finish
                }
            },
            WorkerEvent::LaunchFailed => {
                self.done = true;
                WorkerAction::Finish
            },
            WorkerEvent::Line(l) => WorkerAction::Send(self.run, l),
        }
    }
}

} // verus!
