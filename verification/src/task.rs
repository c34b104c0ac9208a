//! The steps that every operation is made of.

use vstd::prelude::*;
use crate::command::{Cmd, CommandDispatch};
use crate::controller::{Action, Dir, Event};
use crate::datapath::{DataSetup, Transfer, TransferKind, KEPT_WORDS, MAX_BLOCK_SIZE};
use crate::sdmmc::Error;

verus! {

/// One step of an operation: a single access, a wait, or one of the
/// machines of the command path and the data path.
#[derive(Copy, Clone, Debug)]
pub enum Task {
    /// One write or delay.
    Perform { action: Action, done: bool },
    /// One read of a response register.
    Fetch { register: u8, word: Option<u32> },
    /// Reads of the status until the command path and the data path are idle.
    AwaitIdle { idle: bool },
    /// The dispatch of a command.
    Command(CommandDispatch),
    /// The configuration of a transfer.
    Setup(DataSetup),
    /// A transfer.
    Transfer(Transfer),
}

impl Task {
    /// The step is one that an operation may hold: a single access is a
    /// write or a delay, the blocks of a transfer are no larger than the
    /// controller takes, and a transfer is well formed.
    pub open spec fn wf(self) -> bool {
        match self {
            Task::Perform { action, .. } => action.answered_by(Event::Performed),
            Task::Setup(setup) => setup.block_size <= MAX_BLOCK_SIZE,
            Task::Transfer(transfer) => transfer.wf(),
            _ => true,
        }
    }

    /// `event` may follow: the configuration of a transfer in blocks of one
    /// byte must not find double data rate on. Any other step takes any
    /// event.
    pub open spec fn spec_admits(&self, event: Event) -> bool {
        match *self {
            Task::Setup(setup) => setup.spec_admits(event),
            _ => true,
        }
    }

    /// What the step ended with: the word read, or zero where it reads
    /// none, or the error. `None` while the step is under way.
    pub open spec fn spec_completion(&self) -> Option<Result<u32, Error>> {
        match *self {
            Task::Perform { done, .. } => if done {
                Some(Ok(0u32))
            } else {
                None
            },
            Task::Fetch { word, .. } => match word {
                Some(word) => Some(Ok(word)),
                None => None,
            },
            Task::AwaitIdle { idle } => if idle {
                Some(Ok(0u32))
            } else {
                None
            },
            Task::Command(dispatch) => match dispatch.spec_result() {
                Some(Ok(_)) => Some(Ok(0u32)),
                Some(Err(e)) => Some(Err(e)),
                None => None,
            },
            Task::Setup(setup) => if setup.spec_finished() {
                Some(Ok(0u32))
            } else {
                None
            },
            Task::Transfer(transfer) => match transfer.spec_result() {
                Some(Ok(_)) => Some(Ok(0u32)),
                Some(Err(e)) => Some(Err(e)),
                None => None,
            },
        }
    }

    /// The access that the step waits for. A step that has ended waits for
    /// none.
    pub open spec fn spec_pending(&self) -> Action {
        match *self {
            Task::Perform { action, done } => if done {
                Action::Finished(Ok(()))
            } else {
                action
            },
            Task::Fetch { register, word } => if word is Some {
                Action::Finished(Ok(()))
            } else {
                Action::ReadResponse { register }
            },
            Task::AwaitIdle { idle } => if idle {
                Action::Finished(Ok(()))
            } else {
                Action::ReadStatus
            },
            Task::Command(dispatch) => dispatch.spec_pending(),
            Task::Setup(setup) => setup.spec_pending(),
            Task::Transfer(transfer) => transfer.spec_pending(),
        }
    }

    /// The step after `event`. An event that does not answer the pending
    /// access changes nothing.
    pub open spec fn next(self, event: Event) -> Task {
        match self {
            Task::Perform { action, done } => if !done && event is Performed {
                Task::Perform { action, done: true }
            } else {
                self
            },
            Task::Fetch { register, word } => match (word, event) {
                (None, Event::Word(value)) => Task::Fetch { register, word: Some(value) },
                _ => self,
            },
            Task::AwaitIdle { idle } => match event {
                Event::Status(status) => Task::AwaitIdle { idle: idle || status.idle() },
                _ => self,
            },
            Task::Command(dispatch) => Task::Command(dispatch.next(event)),
            Task::Setup(setup) => Task::Setup(setup.next(event)),
            Task::Transfer(transfer) => Task::Transfer(transfer.next(event)),
        }
    }

    /// The words that the step has received and kept: those of a transfer,
    /// and zeros for any other step.
    pub open spec fn spec_words(&self) -> [u32; 16] {
        match *self {
            Task::Transfer(transfer) => transfer.words,
            _ => vstd::array::spec_array_fill_for_copy_type::<u32, 16>(0u32),
        }
    }

    /// This step is `first`, or what has become of it: the same access, the
    /// same command, the same transfer.
    pub open spec fn continues(self, first: Task) -> bool {
        match (self, first) {
            (Task::Perform { action: mine, .. }, Task::Perform { action: theirs, .. }) => mine
                == theirs,
            (Task::Fetch { register: mine, .. }, Task::Fetch { register: theirs, .. }) => mine
                == theirs,
            (Task::AwaitIdle { .. }, Task::AwaitIdle { .. }) => true,
            (Task::Command(mine), Task::Command(theirs)) => mine.cmd == theirs.cmd,
            (Task::Setup(mine), Task::Setup(theirs)) => mine.length == theirs.length
                && mine.block_size == theirs.block_size && mine.direction == theirs.direction,
            (Task::Transfer(mine), Task::Transfer(theirs)) => mine.kind == theirs.kind
                && mine.count == theirs.count,
            _ => false,
        }
    }

    /// No event turns a step into another.
    pub proof fn lemma_next_continues(self, first: Task, event: Event)
        requires
            self.continues(first),
        ensures
            self.next(event).continues(first),
    {
    }

    /// A well-formed step stays well formed, whatever the event.
    pub proof fn lemma_next_wf(self, event: Event)
        requires
            self.wf(),
        ensures
            self.next(event).wf(),
    {
        if let Task::Transfer(transfer) = self {
            transfer.lemma_next_wf(event);
        }
    }

    /// A step that has ended takes no event.
    pub proof fn lemma_ended_stays(self, event: Event)
        requires
            self.spec_completion() is Some,
        ensures
            self.next(event) == self,
    {
    }

    /// The step that performs `action` once.
    pub open spec fn spec_perform(action: Action) -> Task {
        Task::Perform { action, done: false }
    }

    /// The step that reads response register `register`.
    pub open spec fn spec_fetch(register: u8) -> Task {
        Task::Fetch { register, word: None }
    }

    /// The step that waits for both paths to go idle.
    pub open spec fn spec_await_idle() -> Task {
        Task::AwaitIdle { idle: false }
    }

    /// The step that dispatches `cmd`.
    pub open spec fn spec_command(cmd: Cmd) -> Task {
        Task::Command(CommandDispatch::spec_new(cmd))
    }

    /// The step that configures a transfer.
    pub open spec fn spec_setup(length: u32, block_size: u8, direction: Dir) -> Task {
        Task::Setup(DataSetup::spec_new(length, block_size, direction))
    }

    /// The step that moves the words of a transfer.
    pub open spec fn spec_transfer(kind: TransferKind, count: usize) -> Task {
        Task::Transfer(Transfer::spec_new(kind, count))
    }

    /// The step that performs `action` once.
    #[verifier::when_used_as_spec(spec_perform)]
    pub fn perform(action: Action) -> (r: Task)
        requires
            action.answered_by(Event::Performed),
        ensures
            r == Self::spec_perform(action),
            r.wf(),
            r.spec_completion() is None,
            r.continues(r),
    {
        Task::Perform { action, done: false }
    }

    /// The step that reads response register `register`.
    #[verifier::when_used_as_spec(spec_fetch)]
    pub fn fetch(register: u8) -> (r: Task)
        ensures
            r == Self::spec_fetch(register),
            r.wf(),
            r.spec_completion() is None,
            r.continues(r),
    {
        Task::Fetch { register, word: None }
    }

    /// The step that waits for both paths to go idle.
    #[verifier::when_used_as_spec(spec_await_idle)]
    pub fn await_idle() -> (r: Task)
        ensures
            r == Self::spec_await_idle(),
            r.wf(),
            r.spec_completion() is None,
            r.continues(r),
    {
        Task::AwaitIdle { idle: false }
    }

    /// The step that dispatches `cmd`.
    #[verifier::when_used_as_spec(spec_command)]
    pub fn command(cmd: Cmd) -> (r: Task)
        ensures
            r == Self::spec_command(cmd),
            r.wf(),
            r.spec_completion() is None,
            r.continues(r),
    {
        Task::Command(CommandDispatch::new(cmd))
    }

    /// The step that configures a transfer of `length` bytes in blocks of
    /// two to the power of `block_size` bytes.
    #[verifier::when_used_as_spec(spec_setup)]
    pub fn setup(length: u32, block_size: u8, direction: Dir) -> (r: Task)
        requires
            block_size <= MAX_BLOCK_SIZE,
        ensures
            r == Self::spec_setup(length, block_size, direction),
            r.wf(),
            r.spec_completion() is None,
            r.continues(r),
    {
        Task::Setup(DataSetup::new(length, block_size, direction))
    }

    /// The step that moves the `count` words of a transfer of `kind`.
    #[verifier::when_used_as_spec(spec_transfer)]
    pub fn transfer(kind: TransferKind, count: usize) -> (r: Task)
        requires
            kind.spec_kept() ==> count <= KEPT_WORDS,
        ensures
            r == Self::spec_transfer(kind, count),
            r.wf(),
            r.spec_completion() is None,
            r.continues(r),
    {
        Task::Transfer(Transfer::new(kind, count))
    }

    /// What the step ended with, once it has ended.
    #[verifier::when_used_as_spec(spec_completion)]
    pub fn completion(&self) -> (r: Option<Result<u32, Error>>)
        ensures
            r == self.spec_completion(),
    {
        match *self {
            Task::Perform { done, .. } => if done {
                Some(Ok(0))
            } else {
                None
            },
            Task::Fetch { word, .. } => match word {
                Some(word) => Some(Ok(word)),
                None => None,
            },
            Task::AwaitIdle { idle } => if idle {
                Some(Ok(0))
            } else {
                None
            },
            Task::Command(dispatch) => match dispatch.result() {
                Some(Ok(_)) => Some(Ok(0)),
                Some(Err(e)) => Some(Err(e)),
                None => None,
            },
            Task::Setup(setup) => if setup.finished() {
                Some(Ok(0))
            } else {
                None
            },
            Task::Transfer(transfer) => match transfer.result() {
                Some(Ok(_)) => Some(Ok(0)),
                Some(Err(e)) => Some(Err(e)),
                None => None,
            },
        }
    }

    /// The access to perform next.
    #[verifier::when_used_as_spec(spec_pending)]
    pub fn pending(&self) -> (r: Action)
        ensures
            r == self.spec_pending(),
    {
        match *self {
            Task::Perform { action, done } => if done {
                Action::Finished(Ok(()))
            } else {
                action
            },
            Task::Fetch { register, word } => if word.is_some() {
                Action::Finished(Ok(()))
            } else {
                Action::ReadResponse { register }
            },
            Task::AwaitIdle { idle } => if idle {
                Action::Finished(Ok(()))
            } else {
                Action::ReadStatus
            },
            Task::Command(dispatch) => dispatch.pending(),
            Task::Setup(setup) => setup.pending(),
            Task::Transfer(transfer) => transfer.pending(),
        }
    }

    /// Whether `event` may follow.
    #[verifier::when_used_as_spec(spec_admits)]
    pub fn admits(&self, event: Event) -> (r: bool)
        ensures
            r == self.spec_admits(event),
    {
        match *self {
            Task::Setup(setup) => setup.admits(event),
            _ => true,
        }
    }

    /// Takes in what the pending access returned.
    pub fn advance(&mut self, event: Event)
        requires
            old(self).wf(),
            old(self).admits(event),
        ensures
            *final(self) == old(self).next(event),
            final(self).wf(),
            forall|first: Task| old(self).continues(first) ==> final(self).continues(first),
    {
        match *self {
            Task::Perform { action, done } => {
                if !done {
                    if let Event::Performed = event {
                        *self = Task::Perform { action, done: true };
                    }
                }
            },
            Task::Fetch { register, word } => {
                if word.is_none() {
                    if let Event::Word(value) = event {
                        *self = Task::Fetch { register, word: Some(value) };
                    }
                }
            },
            Task::AwaitIdle { idle } => {
                if let Event::Status(status) = event {
                    *self = Task::AwaitIdle { idle: idle || status.idle() };
                }
            },
            Task::Command(dispatch) => {
                let mut dispatch = dispatch;
                dispatch.advance(event);
                *self = Task::Command(dispatch);
            },
            Task::Setup(setup) => {
                let mut setup = setup;
                setup.advance(event);
                *self = Task::Setup(setup);
            },
            Task::Transfer(transfer) => {
                let mut transfer = transfer;
                transfer.advance(event);
                *self = Task::Transfer(transfer);
            },
        }
    }

    /// The words that the step has received and kept.
    #[verifier::when_used_as_spec(spec_words)]
    pub fn words(&self) -> (r: [u32; 16])
        ensures
            r == self.spec_words(),
    {
        match *self {
            Task::Transfer(transfer) => transfer.words,
            _ => [0u32; 16],
        }
    }
}

} // verus!
