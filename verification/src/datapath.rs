//! The data path: configuring a block transfer and moving its words through
//! the FIFO.

use vstd::prelude::*;
use crate::controller::{Action, Dir, Event, Status};
use crate::sdmmc::Error;

verus! {

/// Data timeout of every transfer, in bus cycles.
pub const DATA_TIMEOUT: u32 = 5_000_000;

/// The largest block size exponent that the controller takes.
pub const MAX_BLOCK_SIZE: u8 = 14;

/// Where the configuration of a transfer stands.
#[derive(Copy, Clone, Debug, PartialEq, Eq, Structural)]
pub enum SetupPhase {
    /// The signalling mode is to be read.
    CheckMode,
    /// Waiting for the command path and the data path to go idle.
    AwaitIdle,
    /// The transfer is to be programmed.
    Program,
    /// The data path has been started.
    Finished,
}

/// Configures the data path for one transfer and starts it.
#[derive(Copy, Clone, Debug)]
pub struct DataSetup {
    /// Length of the transfer in bytes.
    pub length: u32,
    /// Base-2 logarithm of the block size in bytes.
    pub block_size: u8,
    /// Direction of the transfer.
    pub direction: Dir,
    /// Where the configuration stands.
    pub phase: SetupPhase,
}

impl DataSetup {
    /// The configuration of a transfer before its first access.
    pub open spec fn spec_new(length: u32, block_size: u8, direction: Dir) -> DataSetup {
        DataSetup { length, block_size, direction, phase: SetupPhase::CheckMode }
    }

    /// The access that the configuration waits for.
    pub open spec fn spec_pending(&self) -> Action {
        match self.phase {
            SetupPhase::CheckMode => Action::ReadDdr,
            SetupPhase::AwaitIdle => Action::ReadStatus,
            SetupPhase::Program => Action::StartData {
                timeout: DATA_TIMEOUT,
                length: self.length,
                block_size: self.block_size,
                direction: self.direction,
            },
            SetupPhase::Finished => Action::Finished(Ok(())),
        }
    }

    /// `event` may follow: blocks of one byte cannot be moved at double data
    /// rate, so with a block size exponent of zero the signalling mode must
    /// not read as double data rate.
    pub open spec fn spec_admits(&self, event: Event) -> bool {
        !(self.phase == SetupPhase::CheckMode && self.block_size == 0 && event == Event::Flag(
            true,
        ))
    }

    /// The configuration after `event`. An event that does not answer the
    /// pending access changes nothing.
    pub open spec fn next(self, event: Event) -> DataSetup {
        match (self.phase, event) {
            (SetupPhase::CheckMode, Event::Flag(_)) => DataSetup {
                phase: SetupPhase::AwaitIdle,
                ..self
            },
            (SetupPhase::AwaitIdle, Event::Status(status)) => if status.idle() {
                DataSetup { phase: SetupPhase::Program, ..self }
            } else {
                self
            },
            (SetupPhase::Program, Event::Performed) => DataSetup {
                phase: SetupPhase::Finished,
                ..self
            },
            _ => self,
        }
    }

    /// Whether the data path has been started.
    pub open spec fn spec_finished(&self) -> bool {
        self.phase == SetupPhase::Finished
    }

    /// Starts the configuration of a transfer of `length` bytes in blocks of
    /// two to the power of `block_size` bytes.
    #[verifier::when_used_as_spec(spec_new)]
    pub fn new(length: u32, block_size: u8, direction: Dir) -> (r: DataSetup)
        requires
            block_size <= MAX_BLOCK_SIZE,
        ensures
            r == Self::spec_new(length, block_size, direction),
    {
        DataSetup { length, block_size, direction, phase: SetupPhase::CheckMode }
    }

    /// The access to perform next, or the end of the configuration.
    #[verifier::when_used_as_spec(spec_pending)]
    pub fn pending(&self) -> (r: Action)
        ensures
            r == self.spec_pending(),
    {
        match self.phase {
            SetupPhase::CheckMode => Action::ReadDdr,
            SetupPhase::AwaitIdle => Action::ReadStatus,
            SetupPhase::Program => Action::StartData {
                timeout: DATA_TIMEOUT,
                length: self.length,
                block_size: self.block_size,
                direction: self.direction,
            },
            SetupPhase::Finished => Action::Finished(Ok(())),
        }
    }

    /// Whether `event` may follow.
    #[verifier::when_used_as_spec(spec_admits)]
    pub fn admits(&self, event: Event) -> (r: bool)
        ensures
            r == self.spec_admits(event),
    {
        match (self.phase, event) {
            (SetupPhase::CheckMode, Event::Flag(true)) => self.block_size != 0,
            _ => true,
        }
    }

    /// Takes in what the pending access returned.
    pub fn advance(&mut self, event: Event)
        requires
            old(self).admits(event),
        ensures
            *final(self) == old(self).next(event),
    {
        match (self.phase, event) {
            (SetupPhase::CheckMode, Event::Flag(_)) => {
                self.phase = SetupPhase::AwaitIdle;
            },
            (SetupPhase::AwaitIdle, Event::Status(status)) => {
                if status.idle() {
                    self.phase = SetupPhase::Program;
                }
            },
            (SetupPhase::Program, Event::Performed) => {
                self.phase = SetupPhase::Finished;
            },
            _ => {},
        }
    }

    /// Whether the data path has been started.
    #[verifier::when_used_as_spec(spec_finished)]
    pub fn finished(&self) -> (r: bool)
        ensures
            r == self.spec_finished(),
    {
        self.phase == SetupPhase::Finished
    }
}

/// The ways in which words are moved through the FIFO.
#[derive(Copy, Clone, Debug, PartialEq, Eq, Structural)]
pub enum TransferKind {
    /// Blocks from the card into the host's buffer: eight words whenever
    /// the FIFO is half full, until the end of data.
    ReadBlocks,
    /// Blocks from the host's buffer to the card: eight words whenever the
    /// FIFO is half empty, until the end of data.
    WriteBlocks,
    /// A status block from the card, which the engine keeps: eight words
    /// whenever the FIFO is half full, until the end of the block.
    ReadStatusBlock,
    /// A short register from the card, which the engine keeps: one word
    /// whenever the FIFO is not empty, until the end of the block.
    ReadRegister,
}

impl TransferKind {
    /// The direction of the transfer.
    pub open spec fn spec_direction(&self) -> Dir {
        match self {
            TransferKind::WriteBlocks => Dir::HostToCard,
            _ => Dir::CardToHost,
        }
    }

    /// Whether the engine keeps the words of the transfer.
    pub open spec fn spec_kept(&self) -> bool {
        match self {
            TransferKind::ReadStatusBlock | TransferKind::ReadRegister => true,
            _ => false,
        }
    }

    /// The number of words moved in one go.
    pub open spec fn spec_burst(&self) -> usize {
        match self {
            TransferKind::ReadRegister => 1,
            _ => 8,
        }
    }

    /// The FIFO can take part in a burst.
    pub open spec fn spec_ready(&self, status: Status) -> bool {
        match self {
            TransferKind::ReadBlocks | TransferKind::ReadStatusBlock => status.rxfifohf,
            TransferKind::ReadRegister => !status.rxfifoe,
            TransferKind::WriteBlocks => status.txfifohe,
        }
    }

    /// The FIFO fault that stops the transfer: an overrun of a transfer from
    /// the card, an underrun of one to the card.
    pub open spec fn spec_overrun(&self, status: Status) -> bool {
        match self {
            TransferKind::WriteBlocks => status.txunderr,
            _ => status.rxoverr,
        }
    }

    /// The FIFO fault that fails the transfer: an overrun, and in a transfer
    /// to the card an underrun as well.
    pub open spec fn spec_fifo_fault(&self, status: Status) -> bool {
        status.rxoverr || self.spec_overrun(status)
    }

    /// The data path has raised a fault or reached the end of the transfer.
    pub open spec fn spec_stopped(&self, status: Status) -> bool {
        self.spec_overrun(status) || status.dcrcfail || status.dtimeout || match self {
            TransferKind::ReadBlocks | TransferKind::WriteBlocks => status.dataend,
            _ => status.dbckend,
        }
    }

    /// The fault that `status` shows, if any. A CRC failure counts first,
    /// then the FIFO fault, then a timeout.
    pub open spec fn spec_fault(&self, status: Status) -> Result<(), Error> {
        if status.dcrcfail {
            Err(Error::DataCrcFail)
        } else if self.spec_fifo_fault(status) {
            Err(Error::RxOverFlow)
        } else if status.dtimeout {
            Err(Error::Timeout)
        } else {
            Ok(())
        }
    }

    /// The direction of the transfer.
    #[verifier::when_used_as_spec(spec_direction)]
    pub fn direction(&self) -> (r: Dir)
        ensures
            r == self.spec_direction(),
    {
        match self {
            TransferKind::WriteBlocks => Dir::HostToCard,
            _ => Dir::CardToHost,
        }
    }

    /// Whether the engine keeps the words of the transfer.
    #[verifier::when_used_as_spec(spec_kept)]
    pub fn kept(&self) -> (r: bool)
        ensures
            r == self.spec_kept(),
    {
        match self {
            TransferKind::ReadStatusBlock | TransferKind::ReadRegister => true,
            _ => false,
        }
    }

    /// The number of words moved in one go.
    #[verifier::when_used_as_spec(spec_burst)]
    pub fn burst(&self) -> (r: usize)
        ensures
            r == self.spec_burst(),
    {
        match self {
            TransferKind::ReadRegister => 1,
            _ => 8,
        }
    }

    /// Whether the FIFO can take part in a burst.
    #[verifier::when_used_as_spec(spec_ready)]
    pub fn ready(&self, status: Status) -> (r: bool)
        ensures
            r == self.spec_ready(status),
    {
        match self {
            TransferKind::ReadBlocks | TransferKind::ReadStatusBlock => status.rxfifohf,
            TransferKind::ReadRegister => !status.rxfifoe,
            TransferKind::WriteBlocks => status.txfifohe,
        }
    }

    /// Whether the FIFO shows the fault that stops the transfer.
    #[verifier::when_used_as_spec(spec_overrun)]
    pub fn overrun(&self, status: Status) -> (r: bool)
        ensures
            r == self.spec_overrun(status),
    {
        match self {
            TransferKind::WriteBlocks => status.txunderr,
            _ => status.rxoverr,
        }
    }

    /// Whether the FIFO shows a fault that fails the transfer.
    #[verifier::when_used_as_spec(spec_fifo_fault)]
    pub fn fifo_fault(&self, status: Status) -> (r: bool)
        ensures
            r == self.spec_fifo_fault(status),
    {
        status.rxoverr || self.overrun(status)
    }

    /// Whether the data path has raised a fault or reached the end of the
    /// transfer.
    #[verifier::when_used_as_spec(spec_stopped)]
    pub fn stopped(&self, status: Status) -> (r: bool)
        ensures
            r == self.spec_stopped(status),
    {
        let ended: bool = match self {
            TransferKind::ReadBlocks | TransferKind::WriteBlocks => status.dataend,
            _ => status.dbckend,
        };
        self.overrun(status) || status.dcrcfail || status.dtimeout || ended
    }

    /// The fault that `status` shows, if any.
    #[verifier::when_used_as_spec(spec_fault)]
    pub fn fault(&self, status: Status) -> (r: Result<(), Error>)
        ensures
            r == self.spec_fault(status),
    {
        if status.dcrcfail {
            Err(Error::DataCrcFail)
        } else if self.fifo_fault(status) {
            Err(Error::RxOverFlow)
        } else if status.dtimeout {
            Err(Error::Timeout)
        } else {
            Ok(())
        }
    }
}

/// The most words of a transfer that the engine keeps.
pub const KEPT_WORDS: usize = 16;

/// Where a transfer stands.
#[derive(Copy, Clone, Debug)]
pub enum TransferPhase {
    /// The status is to be read.
    Poll,
    /// A burst is under way, with `left` words still to move.
    Burst { left: usize },
    /// The transfer has ended.
    Finished { result: Result<(), Error> },
}

/// Moves the words of one transfer through the FIFO.
///
/// The words of a block transfer never pass through the engine: it names
/// the word of the host's buffer that each FIFO access fills or sends.
#[derive(Copy, Clone, Debug)]
pub struct Transfer {
    /// How the words are moved.
    pub kind: TransferKind,
    /// The number of words of the transfer.
    pub count: usize,
    /// The number of words moved so far.
    pub moved: usize,
    /// The words received so far, where the engine keeps them; the others
    /// are zero.
    pub words: [u32; 16],
    /// The fault that the latest status showed, if any.
    pub fault: Result<(), Error>,
    /// Where the transfer stands.
    pub phase: TransferPhase,
}

impl Transfer {
    /// No more words are counted as moved than the transfer has, a burst
    /// under way does not go beyond them, and the engine keeps no more words
    /// than it has room for.
    pub open spec fn wf(self) -> bool {
        &&& self.moved <= self.count
        &&& self.kind.spec_kept() ==> self.count <= KEPT_WORDS
        &&& self.phase matches TransferPhase::Burst { left } ==> 0 < left && self.moved + left
            <= self.count
    }

    /// The access that the transfer waits for.
    pub open spec fn spec_pending(&self) -> Action {
        match self.phase {
            TransferPhase::Poll => Action::ReadStatus,
            TransferPhase::Burst { .. } => match self.kind {
                TransferKind::ReadBlocks => Action::FifoToBuffer { word: self.moved },
                TransferKind::WriteBlocks => Action::BufferToFifo { word: self.moved },
                _ => Action::ReadFifo,
            },
            TransferPhase::Finished { result } => Action::Finished(result),
        }
    }

    /// The transfer after its status was read. A fault or the end flag ends
    /// it. Else a burst starts where the FIFO is ready and the words of a
    /// burst are still to move, and the transfer ends where every word has
    /// been moved.
    pub open spec fn polled(self, status: Status) -> Transfer {
        let fault = self.kind.spec_fault(status);
        if self.kind.spec_stopped(status) {
            Transfer { fault, phase: TransferPhase::Finished { result: fault }, ..self }
        } else if self.kind.spec_ready(status) && self.moved + self.kind.spec_burst()
            <= self.count {
            Transfer { fault, phase: TransferPhase::Burst { left: self.kind.spec_burst() }, ..self }
        } else if self.moved >= self.count {
            Transfer { fault, phase: TransferPhase::Finished { result: fault }, ..self }
        } else {
            Transfer { fault, ..self }
        }
    }

    /// The transfer after one word of a burst was moved. With the last word
    /// of the transfer it ends, on the fault that the latest status showed.
    pub open spec fn stepped(self, left: usize) -> Transfer {
        let moved = (self.moved + 1) as usize;
        let phase = if left > 1 {
            TransferPhase::Burst { left: (left - 1) as usize }
        } else if moved >= self.count {
            TransferPhase::Finished { result: self.fault }
        } else {
            TransferPhase::Poll
        };
        Transfer { moved, phase, ..self }
    }

    /// The transfer after `event`. An event that does not answer the pending
    /// access changes nothing.
    pub open spec fn next(self, event: Event) -> Transfer {
        match (self.phase, event) {
            (TransferPhase::Poll, Event::Status(status)) => self.polled(status),
            (TransferPhase::Burst { left }, Event::Word(word)) => if self.kind.spec_kept() {
                Transfer {
                    words: vstd::array::spec_array_update(self.words, self.moved as int, word),
                    ..self
                }.stepped(left)
            } else {
                self
            },
            (TransferPhase::Burst { left }, Event::Performed) => if self.kind.spec_kept() {
                self
            } else {
                self.stepped(left)
            },
            _ => self,
        }
    }

    /// The result of the transfer, once it has ended.
    pub open spec fn spec_result(&self) -> Option<Result<(), Error>> {
        match self.phase {
            TransferPhase::Finished { result } => Some(result),
            _ => None,
        }
    }

    /// A well-formed transfer stays well formed, whatever the event.
    pub proof fn lemma_next_wf(self, event: Event)
        requires
            self.wf(),
        ensures
            self.next(event).wf(),
    {
    }

    /// Every FIFO access of a transfer moves the next word in order: the
    /// count of words moved goes up by one with each, and by nothing else.
    pub proof fn lemma_words_in_order(self, event: Event)
        requires
            self.wf(),
        ensures
            self.next(event).moved == self.moved + 1 || self.next(event).moved == self.moved,
            self.next(event).moved == self.moved + 1 <==> self.phase is Burst
                && self.spec_pending().answered_by(event),
            self.spec_pending() matches Action::FifoToBuffer { word } ==> word == self.moved,
            self.spec_pending() matches Action::BufferToFifo { word } ==> word == self.moved,
    {
    }

    /// A status that stops a transfer ends it with the fault that the
    /// status shows, and a CRC failure counts before any other fault.
    pub proof fn lemma_polled_fault_first(self, status: Status)
        ensures
            self.kind.spec_stopped(status) ==> self.polled(status).spec_result() == Some(
                self.kind.spec_fault(status),
            ),
            status.dcrcfail ==> self.polled(status).spec_result() == Some(
                Err::<(), Error>(Error::DataCrcFail),
            ),
    {
    }

    /// The transfer after `events`, taken in one after the other.
    pub open spec fn after(self, events: Seq<Event>) -> Transfer
        decreases events.len(),
    {
        if events.len() == 0 {
            self
        } else {
            self.after(events.drop_last()).next(events.last())
        }
    }

    /// The words of the host's buffer that the transfer has moved over
    /// `events`, in the order of its FIFO accesses: each access to the buffer
    /// that was performed adds the word that it names.
    pub open spec fn places(self, events: Seq<Event>) -> Seq<int>
        decreases events.len(),
    {
        if events.len() == 0 {
            Seq::empty()
        } else {
            let before = self.after(events.drop_last());
            let earlier = self.places(events.drop_last());
            match (before.spec_pending(), events.last()) {
                (Action::FifoToBuffer { word }, Event::Performed) => earlier.push(word as int),
                (Action::BufferToFifo { word }, Event::Performed) => earlier.push(word as int),
                _ => earlier,
            }
        }
    }

    /// A block transfer moves the words of the host's buffer in their order,
    /// each once: after any events, the words moved are 0, 1, 2 and so on
    /// up to the count of words moved, whatever the status showed in
    /// between.
    pub proof fn lemma_places_in_order(self, events: Seq<Event>)
        requires
            self.wf(),
            !self.kind.spec_kept(),
            self.moved == 0,
        ensures
            self.after(events).wf(),
            self.after(events).kind == self.kind,
            self.after(events).count == self.count,
            self.places(events) =~= crate::bits::in_order(self.after(events).moved as nat),
        decreases events.len(),
    {
        if events.len() > 0 {
            self.lemma_places_in_order(events.drop_last());
            let before = self.after(events.drop_last());
            before.lemma_next_wf(events.last());
            before.lemma_words_in_order(events.last());
        }
    }

    /// A transfer of `kind` and of `count` words before its first access.
    pub open spec fn spec_new(kind: TransferKind, count: usize) -> Transfer {
        Transfer {
            kind,
            count,
            moved: 0,
            words: vstd::array::spec_array_fill_for_copy_type::<u32, 16>(0u32),
            fault: Ok(()),
            phase: TransferPhase::Poll,
        }
    }

    /// Starts a transfer of `kind` and of `count` words.
    #[verifier::when_used_as_spec(spec_new)]
    pub fn new(kind: TransferKind, count: usize) -> (r: Transfer)
        requires
            kind.spec_kept() ==> count <= KEPT_WORDS,
        ensures
            r == Self::spec_new(kind, count),
            r.wf(),
    {
        Transfer {
            kind,
            count,
            moved: 0,
            words: [0u32; 16],
            fault: Ok(()),
            phase: TransferPhase::Poll,
        }
    }

    /// The access to perform next, or the end of the transfer.
    #[verifier::when_used_as_spec(spec_pending)]
    pub fn pending(&self) -> (r: Action)
        ensures
            r == self.spec_pending(),
    {
        match self.phase {
            TransferPhase::Poll => Action::ReadStatus,
            TransferPhase::Burst { .. } => match self.kind {
                TransferKind::ReadBlocks => Action::FifoToBuffer { word: self.moved },
                TransferKind::WriteBlocks => Action::BufferToFifo { word: self.moved },
                _ => Action::ReadFifo,
            },
            TransferPhase::Finished { result } => Action::Finished(result),
        }
    }

    /// Takes in what the pending access returned.
    pub fn advance(&mut self, event: Event)
        requires
            old(self).wf(),
        ensures
            *final(self) == old(self).next(event),
            final(self).wf(),
    {
        match (self.phase, event) {
            (TransferPhase::Poll, Event::Status(status)) => {
                self.fault = self.kind.fault(status);
                if self.kind.stopped(status) {
                    self.phase = TransferPhase::Finished { result: self.fault };
                } else if self.kind.ready(status) && self.kind.burst() <= self.count
                    - self.moved {
                    self.phase = TransferPhase::Burst { left: self.kind.burst() };
                } else if self.moved >= self.count {
                    self.phase = TransferPhase::Finished { result: self.fault };
                }
            },
            (TransferPhase::Burst { left }, Event::Word(word)) => {
                if self.kind.kept() {
                    self.words[self.moved] = word;
                    self.step(left);
                }
            },
            (TransferPhase::Burst { left }, Event::Performed) => {
                if !self.kind.kept() {
                    self.step(left);
                }
            },
            _ => {},
        }
    }

    /// Counts one word of a burst as moved.
    fn step(&mut self, left: usize)
        requires
            0 < left,
            old(self).moved + left <= old(self).count,
            old(self).kind.spec_kept() ==> old(self).count <= KEPT_WORDS,
        ensures
            *final(self) == old(self).stepped(left),
            final(self).wf(),
    {
        self.moved = self.moved + 1;
        if left > 1 {
            self.phase = TransferPhase::Burst { left: left - 1 };
        } else if self.moved >= self.count {
            self.phase = TransferPhase::Finished { result: self.fault };
        } else {
            self.phase = TransferPhase::Poll;
        }
    }

    /// The result of the transfer, once it has ended.
    #[verifier::when_used_as_spec(spec_result)]
    pub fn result(&self) -> (r: Option<Result<(), Error>>)
        ensures
            r == self.spec_result(),
    {
        match self.phase {
            TransferPhase::Finished { result } => Some(result),
            _ => None,
        }
    }
}

} // verus!
