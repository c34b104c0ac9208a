//! Block reads and writes.

use vstd::prelude::*;
use crate::command::{Cmd, POLL_LIMIT};
use crate::controller::{Action, Dir, Event, Flags};
use crate::bits::{lemma_words_round_trip, with_words, words_of};
use crate::datapath::{Transfer, TransferKind};
use crate::query::QueryStage;
use crate::sdmmc::Error;
use crate::task::Task;

verus! {

/// Length of a block in bytes.
pub const BLOCK_BYTES: u32 = 512;

/// Base-2 logarithm of [`BLOCK_BYTES`].
pub const BLOCK_SIZE: u8 = 9;

/// Length of a block in words.
pub const BLOCK_WORDS: usize = 128;

/// The most blocks that one read can ask for: their bytes must be counted
/// in 32 bits.
pub const MAX_BLOCKS: u32 = 0x7F_FFFF;

/// The number of blocks that a buffer of `length` bytes holds, where it
/// holds whole blocks and one read can fill them.
pub open spec fn spec_whole_blocks(length: usize) -> Option<u32> {
    if length % 512 == 0 && length / 512 <= MAX_BLOCKS {
        Some((length / 512) as u32)
    } else {
        None
    }
}

/// The number of blocks that a buffer of `length` bytes holds. A length that
/// is no multiple of the block length is not rounded: it holds no whole
/// number of blocks.
#[verifier::when_used_as_spec(spec_whole_blocks)]
pub fn whole_blocks(length: usize) -> (r: Option<u32>)
    ensures
        r == spec_whole_blocks(length),
        r matches Some(blocks) ==> length == 512 * blocks,
{
    if length % 512 == 0 && length / 512 <= MAX_BLOCKS as usize {
        Some((length / 512) as u32)
    } else {
        None
    }
}

/// A block that was written reads back as it was, byte for byte.
///
/// The write of a block sends the words of `data` through the FIFO, and
/// the read of a block stores the words that the FIFO gives it into
/// `buffer`. Where both have moved all their words, over whatever events,
/// and the card gives back the words that it was sent, in the order in
/// which it was sent them, the buffer that was read equals `data`.
pub proof fn lemma_written_block_reads_back(
    address: u32,
    rca: u32,
    data: Seq<u8>,
    buffer: Seq<u8>,
    sending: Seq<Event>,
    receiving: Seq<Event>,
)
    requires
        data.len() == BLOCK_BYTES,
        buffer.len() == BLOCK_BYTES,
        Transfer::spec_new(TransferKind::WriteBlocks, BLOCK_WORDS).after(sending).moved
            == BLOCK_WORDS,
        Transfer::spec_new(TransferKind::ReadBlocks, BLOCK_WORDS).after(receiving).moved
            == BLOCK_WORDS,
    ensures
        ({
            let send = Transfer::spec_new(TransferKind::WriteBlocks, BLOCK_WORDS);
            let receive = Transfer::spec_new(TransferKind::ReadBlocks, BLOCK_WORDS);
            let sent = send.places(sending).map_values(|k: int| words_of(data)[k]);
            &&& BlockWrite::spec_new(address, rca).spec_step_of(WriteStage::Send)
                == Task::Transfer(send)
            &&& BlockRead::spec_new(address, 1, false).spec_step_of(ReadStage::Receive)
                == Task::Transfer(receive)
            &&& with_words(buffer, receive.places(receiving), sent) == data
        }),
{
    let send = Transfer::spec_new(TransferKind::WriteBlocks, BLOCK_WORDS);
    let receive = Transfer::spec_new(TransferKind::ReadBlocks, BLOCK_WORDS);
    send.lemma_places_in_order(sending);
    receive.lemma_places_in_order(receiving);
    let sent = send.places(sending).map_values(|k: int| words_of(data)[k]);
    assert(sent =~= words_of(data));
    lemma_words_round_trip(data, buffer);
}

/// The steps of a block read, in their order.
#[derive(Copy, Clone, Debug)]
pub enum ReadStage {
    /// The block length is set.
    BlockLen,
    /// The data path is configured.
    Setup,
    /// The read command is sent.
    Command,
    /// The words are received.
    Receive,
    /// The transmission is stopped. Only a read of multiple blocks does so.
    Stop,
    /// The read has ended.
    Finished { result: Result<(), Error> },
}

/// Reads one block, or a run of blocks, from the card into the host's
/// buffer.
#[derive(Copy, Clone, Debug)]
pub struct BlockRead {
    /// Block address of the first block.
    pub address: u32,
    /// Number of blocks.
    pub blocks: u32,
    /// Whether the blocks are read with the command for multiple blocks.
    pub multiple: bool,
    /// How the data phase ended, once it has.
    pub received: Result<(), Error>,
    /// The stage that the read is at.
    pub stage: ReadStage,
    /// The step of that stage.
    pub task: Task,
}

impl BlockRead {
    /// The step of `stage`. A read that has ended keeps its last step.
    pub open spec fn spec_step_of(&self, stage: ReadStage) -> Task {
        match stage {
            ReadStage::BlockLen => Task::spec_command(Cmd::set_block_length(BLOCK_BYTES)),
            ReadStage::Setup => Task::spec_setup(
                (BLOCK_BYTES * self.blocks) as u32,
                BLOCK_SIZE,
                Dir::CardToHost,
            ),
            ReadStage::Command => Task::spec_command(
                if self.multiple {
                    Cmd::read_multiple_blocks(self.address)
                } else {
                    Cmd::read_single_block(self.address)
                },
            ),
            ReadStage::Receive => Task::spec_transfer(
                TransferKind::ReadBlocks,
                (BLOCK_WORDS * self.blocks) as usize,
            ),
            ReadStage::Stop => Task::spec_command(Cmd::stop_transmission()),
            ReadStage::Finished { .. } => self.task,
        }
    }

    /// The read is one that the engine can hold: the bytes of its blocks are
    /// counted in 32 bits, and unless it has ended, the step of its stage is
    /// under way.
    pub open spec fn wf(self) -> bool {
        &&& self.blocks <= MAX_BLOCKS
        &&& self.task.wf()
        &&& !(self.stage is Finished) ==> self.task.spec_completion() is None
            && self.task.continues(self.spec_step_of(self.stage))
    }

    /// The read of `blocks` blocks from `address` before its first access.
    pub open spec fn spec_new(address: u32, blocks: u32, multiple: bool) -> BlockRead {
        BlockRead {
            address,
            blocks,
            multiple,
            received: Ok(()),
            stage: ReadStage::BlockLen,
            task: Task::spec_command(Cmd::set_block_length(BLOCK_BYTES)),
        }
    }

    /// The result of the read, once it has ended.
    pub open spec fn spec_result(&self) -> Option<Result<(), Error>> {
        match self.stage {
            ReadStage::Finished { result } => Some(result),
            _ => None,
        }
    }

    /// The access that the read waits for.
    pub open spec fn spec_pending(&self) -> Action {
        match self.stage {
            ReadStage::Finished { result } => Action::Finished(result),
            _ => self.task.spec_pending(),
        }
    }

    /// The read at `stage`, about to start its step.
    pub open spec fn at(self, stage: ReadStage) -> BlockRead {
        BlockRead { stage, task: self.spec_step_of(stage), ..self }
    }

    /// The read after the step of its stage has ended with `outcome`. A
    /// command that fails ends the read with its error. A read of multiple
    /// blocks stops the transmission however the data phase ended, and then
    /// ends with the error of the stop command, if any, else with that of
    /// the data phase.
    pub open spec fn proceeded(self, outcome: Result<u32, Error>) -> BlockRead {
        match (self.stage, outcome) {
            (ReadStage::BlockLen, Ok(_)) => self.at(ReadStage::Setup),
            (ReadStage::Setup, Ok(_)) => self.at(ReadStage::Command),
            (ReadStage::Command, Ok(_)) => self.at(ReadStage::Receive),
            (ReadStage::Receive, _) => {
                let received = match outcome {
                    Ok(_) => Ok(()),
                    Err(e) => Err(e),
                };
                if self.multiple {
                    BlockRead { received, ..self }.at(ReadStage::Stop)
                } else {
                    BlockRead { received, ..self }.at(ReadStage::Finished { result: received })
                }
            },
            (ReadStage::Stop, Ok(_)) => self.at(ReadStage::Finished { result: self.received }),
            (ReadStage::Finished { .. }, _) => self,
            (_, Err(e)) => self.at(ReadStage::Finished { result: Err(e) }),
        }
    }

    /// The read after `event`. An event that does not answer the pending
    /// access changes nothing.
    pub open spec fn next(self, event: Event) -> BlockRead {
        if self.stage is Finished {
            self
        } else {
            let stepped = BlockRead { task: self.task.next(event), ..self };
            match stepped.task.spec_completion() {
                Some(outcome) => stepped.proceeded(outcome),
                None => stepped,
            }
        }
    }

    /// A read of multiple blocks stops the transmission however its data
    /// phase ended, and a failure of the stop command counts before one of
    /// the data phase.
    pub proof fn lemma_stop_follows_data(self, outcome: Result<u32, Error>)
        requires
            self.stage is Receive,
            self.multiple,
        ensures
            self.proceeded(outcome).stage is Stop,
            self.proceeded(outcome).task == Task::spec_command(Cmd::stop_transmission()),
            forall|e: Error| #[trigger]
                self.proceeded(outcome).proceeded(Err(e)).spec_result() == Some(
                    Err::<(), Error>(e),
                ),
            self.proceeded(outcome).proceeded(Ok(0)).spec_result() == Some(
                match outcome {
                    Ok(_) => Ok::<(), Error>(()),
                    Err(e) => Err::<(), Error>(e),
                },
            ),
    {
    }

    /// Every command that a read sends is the command of its stage, and the
    /// only one that stops a transmission is the one that follows the data
    /// of a read of multiple blocks.
    pub proof fn lemma_commands(self)
        requires
            self.wf(),
            self.spec_pending() is SendCommand,
        ensures
            self.spec_step_of(self.stage) == Task::spec_command(
                self.spec_pending()->SendCommand_cmd,
            ),
            self.spec_pending()->SendCommand_stop <==> self.stage is Stop,
    {
    }

    /// A well-formed read stays well formed, whatever the event.
    pub proof fn lemma_next_wf(self, event: Event)
        requires
            self.wf(),
        ensures
            self.next(event).wf(),
    {
        self.task.lemma_next_wf(event);
        self.task.lemma_next_continues(self.spec_step_of(self.stage), event);
    }

    /// Starts the read of `blocks` blocks from block address `address`, with
    /// the command for multiple blocks or with that for a single one.
    #[verifier::when_used_as_spec(spec_new)]
    pub fn new(address: u32, blocks: u32, multiple: bool) -> (r: BlockRead)
        requires
            blocks <= MAX_BLOCKS,
        ensures
            r == Self::spec_new(address, blocks, multiple),
            r.wf(),
    {
        BlockRead {
            address,
            blocks,
            multiple,
            received: Ok(()),
            stage: ReadStage::BlockLen,
            task: Task::command(Cmd::set_block_length(BLOCK_BYTES)),
        }
    }

    /// The result of the read, once it has ended.
    #[verifier::when_used_as_spec(spec_result)]
    pub fn result(&self) -> (r: Option<Result<(), Error>>)
        ensures
            r == self.spec_result(),
    {
        match self.stage {
            ReadStage::Finished { result } => Some(result),
            _ => None,
        }
    }

    /// The access to perform next, or the end of the read.
    #[verifier::when_used_as_spec(spec_pending)]
    pub fn pending(&self) -> (r: Action)
        ensures
            r == self.spec_pending(),
    {
        match self.stage {
            ReadStage::Finished { result } => Action::Finished(result),
            _ => self.task.pending(),
        }
    }

    /// Takes in what the pending access returned.
    pub fn advance(&mut self, event: Event)
        requires
            old(self).wf(),
        ensures
            *final(self) == old(self).next(event),
            final(self).wf(),
    {
        if let ReadStage::Finished { .. } = self.stage {
            return ;
        }
        self.task.advance(event);
        if let Some(outcome) = self.task.completion() {
            self.proceed(outcome);
        }
    }

    /// The step of `stage`.
    fn step_of(&self, stage: ReadStage) -> (r: Task)
        requires
            self.blocks <= MAX_BLOCKS,
            self.task.wf(),
        ensures
            r == self.spec_step_of(stage),
            r.wf(),
            !(stage is Finished) ==> r.spec_completion() is None && r.continues(r),
    {
        match stage {
            ReadStage::BlockLen => Task::command(Cmd::set_block_length(BLOCK_BYTES)),
            ReadStage::Setup => Task::setup(BLOCK_BYTES * self.blocks, BLOCK_SIZE, Dir::CardToHost),
            ReadStage::Command => Task::command(
                if self.multiple {
                    Cmd::read_multiple_blocks(self.address)
                } else {
                    Cmd::read_single_block(self.address)
                },
            ),
            ReadStage::Receive => Task::transfer(
                TransferKind::ReadBlocks,
                BLOCK_WORDS * (self.blocks as usize),
            ),
            ReadStage::Stop => Task::command(Cmd::stop_transmission()),
            ReadStage::Finished { .. } => self.task,
        }
    }

    /// Puts the read at `stage`, about to start its step.
    fn go(&mut self, stage: ReadStage)
        requires
            old(self).blocks <= MAX_BLOCKS,
            old(self).task.wf(),
        ensures
            *final(self) == old(self).at(stage),
            final(self).wf(),
    {
        self.task = self.step_of(stage);
        self.stage = stage;
    }

    /// Goes on to the stage that follows one whose step ended with
    /// `outcome`.
    fn proceed(&mut self, outcome: Result<u32, Error>)
        requires
            old(self).blocks <= MAX_BLOCKS,
            old(self).task.wf(),
        ensures
            *final(self) == old(self).proceeded(outcome),
            final(self).wf(),
    {
        match (self.stage, outcome) {
            (ReadStage::BlockLen, Ok(_)) => self.go(ReadStage::Setup),
            (ReadStage::Setup, Ok(_)) => self.go(ReadStage::Command),
            (ReadStage::Command, Ok(_)) => self.go(ReadStage::Receive),
            (ReadStage::Receive, _) => {
                self.received = match outcome {
                    Ok(_) => Ok(()),
                    Err(e) => Err(e),
                };
                if self.multiple {
                    self.go(ReadStage::Stop);
                } else {
                    self.go(ReadStage::Finished { result: self.received });
                }
            },
            (ReadStage::Stop, Ok(_)) => self.go(ReadStage::Finished { result: self.received }),
            (ReadStage::Finished { .. }, _) => {},
            (_, Err(e)) => self.go(ReadStage::Finished { result: Err(e) }),
        }
    }
}

/// The steps of a block write, in their order.
#[derive(Copy, Clone, Debug)]
pub enum WriteStage {
    /// The block length is set.
    BlockLen,
    /// The data path is configured.
    Setup,
    /// The write command is sent.
    Command,
    /// The words are sent.
    Send,
    /// The sticky flags of the data path are cleared.
    ClearFlags,
    /// The SD status is queried, until the card answers.
    Query { stage: QueryStage },
    /// The write has ended.
    Finished { result: Result<(), Error> },
}

/// Writes one block from the host's buffer to the card and waits until the
/// card has taken it.
#[derive(Copy, Clone, Debug)]
pub struct BlockWrite {
    /// Block address.
    pub address: u32,
    /// Relative address of the card.
    pub rca: u32,
    /// The number of queries that may still time out, the one under way
    /// included.
    pub remaining: u32,
    /// The SD status that ended the write, where it ended well.
    pub status: [u32; 16],
    /// The stage that the write is at.
    pub stage: WriteStage,
    /// The step of that stage.
    pub task: Task,
}

impl BlockWrite {
    /// The step of `stage`. A write that has ended keeps its last step.
    pub open spec fn spec_step_of(&self, stage: WriteStage) -> Task {
        match stage {
            WriteStage::BlockLen => Task::spec_command(Cmd::set_block_length(BLOCK_BYTES)),
            WriteStage::Setup => Task::spec_setup(BLOCK_BYTES, BLOCK_SIZE, Dir::HostToCard),
            WriteStage::Command => Task::spec_command(Cmd::write_single_block(self.address)),
            WriteStage::Send => Task::spec_transfer(TransferKind::WriteBlocks, BLOCK_WORDS),
            WriteStage::ClearFlags => Task::spec_perform(
                Action::ClearFlags(Flags::of_data_path()),
            ),
            WriteStage::Query { stage } => stage.spec_step(self.rca),
            WriteStage::Finished { .. } => self.task,
        }
    }

    /// Unless the write has ended, the step of its stage is under way; and
    /// while the status is queried, a query is left.
    pub open spec fn wf(self) -> bool {
        &&& self.task.wf()
        &&& !(self.stage is Finished) ==> self.task.spec_completion() is None
            && self.task.continues(self.spec_step_of(self.stage))
        &&& self.stage is Query ==> self.remaining > 0
    }

    /// The write to `address` on the card at `rca` before its first access.
    pub open spec fn spec_new(address: u32, rca: u32) -> BlockWrite {
        BlockWrite {
            address,
            rca,
            remaining: POLL_LIMIT,
            status: vstd::array::spec_array_fill_for_copy_type::<u32, 16>(0u32),
            stage: WriteStage::BlockLen,
            task: Task::spec_command(Cmd::set_block_length(BLOCK_BYTES)),
        }
    }

    /// The result of the write, once it has ended.
    pub open spec fn spec_result(&self) -> Option<Result<(), Error>> {
        match self.stage {
            WriteStage::Finished { result } => Some(result),
            _ => None,
        }
    }

    /// The access that the write waits for.
    pub open spec fn spec_pending(&self) -> Action {
        match self.stage {
            WriteStage::Finished { result } => Action::Finished(result),
            _ => self.task.spec_pending(),
        }
    }

    /// The write at `stage`, about to start its step.
    pub open spec fn at(self, stage: WriteStage) -> BlockWrite {
        BlockWrite { stage, task: self.spec_step_of(stage), ..self }
    }

    /// The write after a step of a query has ended with `outcome`. The first
    /// status received ends the write well. A query that times out is made
    /// again, as the card is still programming, until none is left; any
    /// other failure ends the write.
    pub open spec fn queried(self, stage: QueryStage, outcome: Result<u32, Error>) -> BlockWrite {
        match outcome {
            Ok(_) => match stage.spec_following() {
                Some(following) => self.at(WriteStage::Query { stage: following }),
                None => BlockWrite { status: self.task.spec_words(), ..self }.at(
                    WriteStage::Finished { result: Ok(()) },
                ),
            },
            Err(error) => if error != Error::Timeout {
                self.at(WriteStage::Finished { result: Err(error) })
            } else if self.remaining > 1 {
                BlockWrite { remaining: (self.remaining - 1) as u32, ..self }.at(
                    WriteStage::Query { stage: QueryStage::BlockLen },
                )
            } else {
                BlockWrite { remaining: 0, ..self }.at(
                    WriteStage::Finished { result: Err(Error::SoftwareTimeout) },
                )
            },
        }
    }

    /// The write after the step of its stage has ended with `outcome`. Up to
    /// the end of the data phase any failure ends the write with its error.
    pub open spec fn proceeded(self, outcome: Result<u32, Error>) -> BlockWrite {
        match (self.stage, outcome) {
            (WriteStage::Finished { .. }, _) => self,
            (WriteStage::Query { stage }, _) => self.queried(stage, outcome),
            (_, Err(e)) => self.at(WriteStage::Finished { result: Err(e) }),
            (WriteStage::BlockLen, Ok(_)) => self.at(WriteStage::Setup),
            (WriteStage::Setup, Ok(_)) => self.at(WriteStage::Command),
            (WriteStage::Command, Ok(_)) => self.at(WriteStage::Send),
            (WriteStage::Send, Ok(_)) => self.at(WriteStage::ClearFlags),
            (WriteStage::ClearFlags, Ok(_)) => BlockWrite { remaining: POLL_LIMIT, ..self }.at(
                WriteStage::Query { stage: QueryStage::BlockLen },
            ),
        }
    }

    /// The write after `event`. An event that does not answer the pending
    /// access changes nothing.
    pub open spec fn next(self, event: Event) -> BlockWrite {
        if self.stage is Finished {
            self
        } else {
            let stepped = BlockWrite { task: self.task.next(event), ..self };
            match stepped.task.spec_completion() {
                Some(outcome) => stepped.proceeded(outcome),
                None => stepped,
            }
        }
    }

    /// While the card is programming, a query that times out is made again:
    /// only a timeout is taken so, and only while a query is left.
    pub proof fn lemma_timeout_asks_again(self, stage: QueryStage, error: Error)
        requires
            self.stage == (WriteStage::Query { stage }),
            self.remaining > 0,
        ensures
            self.queried(stage, Err(error)).spec_result() == (if error != Error::Timeout {
                Some(Err::<(), Error>(error))
            } else if self.remaining == 1 {
                Some(Err::<(), Error>(Error::SoftwareTimeout))
            } else {
                None::<Result<(), Error>>
            }),
            error == Error::Timeout && self.remaining > 1 ==> self.queried(stage, Err(error)).task
                == QueryStage::BlockLen.spec_step(self.rca) && self.queried(
                stage,
                Err(error),
            ).remaining == self.remaining - 1,
    {
    }

    /// Every command that a write sends is the command of its stage, and
    /// none of them stops a transmission.
    pub proof fn lemma_commands(self)
        requires
            self.wf(),
            self.spec_pending() is SendCommand,
        ensures
            self.spec_step_of(self.stage) == Task::spec_command(
                self.spec_pending()->SendCommand_cmd,
            ),
            !self.spec_pending()->SendCommand_stop,
    {
    }

    /// A well-formed write stays well formed, whatever the event.
    pub proof fn lemma_next_wf(self, event: Event)
        requires
            self.wf(),
        ensures
            self.next(event).wf(),
    {
        self.task.lemma_next_wf(event);
        self.task.lemma_next_continues(self.spec_step_of(self.stage), event);
    }

    /// Starts the write of one block to block address `address` of the card
    /// at relative address `rca`.
    #[verifier::when_used_as_spec(spec_new)]
    pub fn new(address: u32, rca: u32) -> (r: BlockWrite)
        ensures
            r == Self::spec_new(address, rca),
            r.wf(),
    {
        BlockWrite {
            address,
            rca,
            remaining: POLL_LIMIT,
            status: [0u32; 16],
            stage: WriteStage::BlockLen,
            task: Task::command(Cmd::set_block_length(BLOCK_BYTES)),
        }
    }

    /// The result of the write, once it has ended.
    #[verifier::when_used_as_spec(spec_result)]
    pub fn result(&self) -> (r: Option<Result<(), Error>>)
        ensures
            r == self.spec_result(),
    {
        match self.stage {
            WriteStage::Finished { result } => Some(result),
            _ => None,
        }
    }

    /// The access to perform next, or the end of the write.
    #[verifier::when_used_as_spec(spec_pending)]
    pub fn pending(&self) -> (r: Action)
        ensures
            r == self.spec_pending(),
    {
        match self.stage {
            WriteStage::Finished { result } => Action::Finished(result),
            _ => self.task.pending(),
        }
    }

    /// Takes in what the pending access returned.
    pub fn advance(&mut self, event: Event)
        requires
            old(self).wf(),
        ensures
            *final(self) == old(self).next(event),
            final(self).wf(),
    {
        if let WriteStage::Finished { .. } = self.stage {
            return ;
        }
        self.task.advance(event);
        if let Some(outcome) = self.task.completion() {
            self.proceed(outcome);
        }
    }

    /// The step of `stage`.
    fn step_of(&self, stage: WriteStage) -> (r: Task)
        requires
            self.task.wf(),
        ensures
            r == self.spec_step_of(stage),
            r.wf(),
            !(stage is Finished) ==> r.spec_completion() is None && r.continues(r),
    {
        match stage {
            WriteStage::BlockLen => Task::command(Cmd::set_block_length(BLOCK_BYTES)),
            WriteStage::Setup => Task::setup(BLOCK_BYTES, BLOCK_SIZE, Dir::HostToCard),
            WriteStage::Command => Task::command(Cmd::write_single_block(self.address)),
            WriteStage::Send => Task::transfer(TransferKind::WriteBlocks, BLOCK_WORDS),
            WriteStage::ClearFlags => Task::perform(Action::ClearFlags(Flags::of_data_path())),
            WriteStage::Query { stage } => stage.step(self.rca),
            WriteStage::Finished { .. } => self.task,
        }
    }

    /// Puts the write at `stage`, about to start its step.
    fn go(&mut self, stage: WriteStage)
        requires
            old(self).task.wf(),
            stage is Query ==> old(self).remaining > 0,
        ensures
            *final(self) == old(self).at(stage),
            final(self).wf(),
    {
        self.task = self.step_of(stage);
        self.stage = stage;
    }

    /// Goes on to the stage that follows one whose step ended with
    /// `outcome`.
    fn proceed(&mut self, outcome: Result<u32, Error>)
        requires
            old(self).task.wf(),
            old(self).stage is Query ==> old(self).remaining > 0,
        ensures
            *final(self) == old(self).proceeded(outcome),
            final(self).wf(),
    {
        match (self.stage, outcome) {
            (WriteStage::Finished { .. }, _) => {},
            (WriteStage::Query { stage }, Ok(_)) => match stage.following() {
                Some(following) => self.go(WriteStage::Query { stage: following }),
                None => {
                    self.status = self.task.words();
                    self.go(WriteStage::Finished { result: Ok(()) });
                },
            },
            (WriteStage::Query { .. }, Err(error)) => {
                if error != Error::Timeout {
                    self.go(WriteStage::Finished { result: Err(error) });
                } else {
                    self.remaining = self.remaining - 1;
                    if self.remaining > 0 {
                        self.go(WriteStage::Query { stage: QueryStage::BlockLen });
                    } else {
                        self.go(WriteStage::Finished { result: Err(Error::SoftwareTimeout) });
                    }
                }
            },
            (_, Err(e)) => self.go(WriteStage::Finished { result: Err(e) }),
            (WriteStage::BlockLen, Ok(_)) => self.go(WriteStage::Setup),
            (WriteStage::Setup, Ok(_)) => self.go(WriteStage::Command),
            (WriteStage::Command, Ok(_)) => self.go(WriteStage::Send),
            (WriteStage::Send, Ok(_)) => self.go(WriteStage::ClearFlags),
            (WriteStage::ClearFlags, Ok(_)) => {
                self.remaining = POLL_LIMIT;
                self.go(WriteStage::Query { stage: QueryStage::BlockLen });
            },
        }
    }
}

} // verus!
