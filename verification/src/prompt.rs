//! One-shot question from the VPN worker to the GUI.
//!
//! The worker waits on a `Prompt` while the command loop delivers the answer
//! with `Prompt::answer`, or gives up with `Prompt::cancel`. This is the
//! prompt's state and its rules; the waiting itself (a lock and a condition
//! variable) belongs to whoever shares the prompt between threads.
use vstd::prelude::*;

verus! {

/// Where a prompt stands.
pub enum PromptState<T> {
    /// Nobody is waiting.
    Idle,
    Waiting,
    Answered(T),
    Cancelled,
}

/// What a waiter learns when it looks at the prompt.
pub enum WaitStep<T> {
    /// The answer; the prompt is idle again.
    Answered(T),
    /// The attempt was cancelled.
    Cancelled,
    /// Nothing yet: block until woken, then look again.
    Blocked,
}

pub struct Prompt<T> {
    pub state: PromptState<T>,
}

impl<T> Default for Prompt<T> {
    fn default() -> (r: Self)
        ensures
            r.state is Idle,
    {
        Prompt { state: PromptState::Idle }
    }
}

impl<T> Prompt<T> {
    /// Starts waiting. A cancellation that arrived before the wait started
    /// still applies, so a disconnect racing a prompt can never leave the
    /// worker blocked. Otherwise the prompt waits for a fresh answer: one
    /// left over from before the wait is dropped.
    pub fn wait(&mut self) -> (r: WaitStep<T>)
        ensures
            old(self).state is Cancelled ==> r is Cancelled && final(self).state is Cancelled,
            !(old(self).state is Cancelled) ==> r is Blocked && final(self).state is Waiting,
    {
        if let PromptState::Cancelled = self.state {
            return WaitStep::Cancelled;
        }
        self.state = PromptState::Waiting;
        WaitStep::Blocked
    }

    /// Looks at the prompt again after being woken. An answer is taken, and
    /// leaves the prompt idle; a cancellation is left in place, so once an
    /// attempt is cancelled every later prompt in it fails fast rather than
    /// blocking again. Otherwise the prompt is left as it was, and the waiter
    /// blocks again.
    pub fn poll(&mut self) -> (r: WaitStep<T>)
        ensures
            old(self).state matches PromptState::Answered(v) ==> r == WaitStep::Answered(v)
                && final(self).state is Idle,
            old(self).state is Cancelled ==> r is Cancelled && final(self).state is Cancelled,
            old(self).state is Waiting ==> r is Blocked && final(self).state is Waiting,
            old(self).state is Idle ==> r is Blocked && final(self).state is Idle,
    {
        let mut state = PromptState::Waiting;
        std::mem::swap(&mut state, &mut self.state);
        match state {
            PromptState::Answered(value) => {
                self.state = PromptState::Idle;
                WaitStep::Answered(value)
            },
            PromptState::Cancelled => {
                self.state = PromptState::Cancelled;
                WaitStep::Cancelled
            },
            PromptState::Idle => {
                self.state = PromptState::Idle;
                WaitStep::Blocked
            },
            PromptState::Waiting => WaitStep::Blocked,
        }
    }

    /// Delivers an answer. Ignored when nothing is waiting, so a stray reply
    /// cannot be picked up by the next question. Returns whether the waiter
    /// has to be woken.
    pub fn answer(&mut self, value: T) -> (r: bool)
        ensures
            r == (old(self).state is Waiting),
            old(self).state is Waiting ==> final(self).state == PromptState::Answered(value),
            !(old(self).state is Waiting) ==> final(self).state == old(self).state,
    {
        if let PromptState::Waiting = self.state {
            self.state = PromptState::Answered(value);
            true
        } else {
            false
        }
    }

    /// Cancels the attempt's prompt; the waiter has to be woken.
    pub fn cancel(&mut self)
        ensures
            final(self).state is Cancelled,
    {
        self.state = PromptState::Cancelled;
    }

    /// Clears a cancellation so the prompt can be used by the next attempt.
    pub fn reset(&mut self)
        ensures
            final(self).state is Idle,
    {
        self.state = PromptState::Idle;
    }

    /// Whether nobody is waiting and nothing is pending.
    pub fn is_idle(&self) -> (r: bool)
        ensures
            r == (self.state is Idle),
    {
        if let PromptState::Idle = self.state {
            true
        } else {
            false
        }
    }

    /// Whether the prompt has been cancelled.
    pub fn is_cancelled(&self) -> (r: bool)
        ensures
            r == (self.state is Cancelled),
    {
        if let PromptState::Cancelled = self.state {
            true
        } else {
            false
        }
    }
}

} // verus!
