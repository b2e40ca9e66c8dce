//! The command signal: one slot that carries the latest command to one task.
//!
//! A new command overwrites one that was not consumed yet: the last write
//! wins and nothing queues. At most one task waits on a signal.

use vstd::prelude::*;

verus! {

/// What the slot of a signal holds.
#[derive(Debug)]
pub enum SignalState<C> {
    /// No command, and nobody waits for one.
    Empty,
    /// A command that was not consumed yet.
    Signaled(C),
    /// No command, and the consumer is suspended until one comes.
    Waiting,
}

/// A single-slot, coalescing signal that carries commands of type `C`.
#[derive(Debug)]
pub struct CommandSignal<C> {
    pub state: SignalState<C>,
}

impl<C: Copy> CommandSignal<C> {
    /// The command that waits to be consumed, if there is one.
    pub open spec fn pending(&self) -> Option<C> {
        match self.state {
            SignalState::Signaled(cmd) => Some(cmd),
            _ => None,
        }
    }

    /// True when the consumer is suspended on this signal.
    pub open spec fn waiting(&self) -> bool {
        self.state is Waiting
    }

    /// The signal after `signal(cmd)`.
    pub open spec fn after_signal(self, cmd: C) -> Self {
        CommandSignal { state: SignalState::Signaled(cmd) }
    }

    /// The signal after `wait()`.
    pub open spec fn after_wait(self) -> Self {
        match self.state {
            SignalState::Signaled(_) => CommandSignal { state: SignalState::Empty },
            _ => CommandSignal { state: SignalState::Waiting },
        }
    }

    /// A signal with no command and no waiting consumer.
    pub fn new() -> (s: Self)
        ensures
            s.state is Empty,
            s.pending() is None,
            !s.waiting(),
    {
        CommandSignal { state: SignalState::Empty }
    }

    /// Stores `cmd` over whatever the slot held. Returns whether the consumer
    /// was suspended and is to be woken now.
    pub fn signal(&mut self, cmd: C) -> (wake: bool)
        ensures
            *final(self) == old(self).after_signal(cmd),
            final(self).pending() == Some(cmd),
            wake == old(self).waiting(),
    {
        let wake = match self.state {
            SignalState::Waiting => true,
            _ => false,
        };
        self.state = SignalState::Signaled(cmd);
        wake
    }

    /// Consumes the pending command. Without one, the consumer is marked as
    /// suspended and `None` tells it to wait until it is woken.
    pub fn wait(&mut self) -> (r: Option<C>)
        ensures
            r == old(self).pending(),
            *final(self) == old(self).after_wait(),
            final(self).pending() is None,
            final(self).waiting() == (r is None),
    {
        match self.state {
            SignalState::Signaled(cmd) => {
                self.state = SignalState::Empty;
                Some(cmd)
            },
            _ => {
                self.state = SignalState::Waiting;
                None
            },
        }
    }

    /// Consumes the pending command, if there is one; changes nothing else.
    pub fn try_take(&mut self) -> (r: Option<C>)
        ensures
            r == old(self).pending(),
            r is Some ==> final(self).state is Empty,
            r is None ==> *final(self) == *old(self),
    {
        match self.state {
            SignalState::Signaled(cmd) => {
                self.state = SignalState::Empty;
                Some(cmd)
            },
            _ => None,
        }
    }

    /// Drops the pending command, if there is one.
    pub fn reset(&mut self)
        ensures
            final(self).pending() is None,
            final(self).waiting() == old(self).waiting(),
    {
        let _ = self.try_take();
    }

    /// Whether a command waits to be consumed.
    pub fn signaled(&self) -> (r: bool)
        ensures
            r == (self.pending() is Some),
    {
        match self.state {
            SignalState::Signaled(_) => true,
            _ => false,
        }
    }
}

/// Coalescing: of two commands signalled with no `wait` between them, only the
/// second is left; the signal is as if the first had never been sent.
pub proof fn lemma_signal_coalesces<C: Copy>(s: CommandSignal<C>, first: C, second: C)
    ensures
        s.after_signal(first).after_signal(second) == s.after_signal(second),
        s.after_signal(first).after_signal(second).pending() == Some(second),
        s.after_signal(first).after_signal(second).after_wait().pending() is None,
{
}

/// A signal wakes at most one task: once a command is stored, nobody is left
/// suspended, so a further `signal` has nobody to wake.
pub proof fn lemma_signal_wakes_once<C: Copy>(s: CommandSignal<C>, cmd: C)
    ensures
        !s.after_signal(cmd).waiting(),
{
}

/// A command is consumed once: the `wait` that follows a `signal` takes the
/// command, and the slot is empty after it.
pub proof fn lemma_wait_consumes<C: Copy>(s: CommandSignal<C>, cmd: C)
    ensures
        s.after_signal(cmd).pending() == Some(cmd),
        s.after_signal(cmd).after_wait().state is Empty,
{
}

} // verus!
