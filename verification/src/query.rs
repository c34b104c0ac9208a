//! The query of the SD status: the steps that fetch the sixteen status words
//! of the selected card.

use vstd::prelude::*;
use crate::command::Cmd;
use crate::controller::Dir;
use crate::datapath::TransferKind;
use crate::task::Task;

verus! {

/// Length of the SD status in bytes.
pub const STATUS_BYTES: u32 = 64;

/// Base-2 logarithm of [`STATUS_BYTES`].
pub const STATUS_BLOCK_SIZE: u8 = 6;

/// Length of the SD status in words.
pub const STATUS_WORDS: usize = 16;

/// The steps of a query, in their order.
#[derive(Copy, Clone, Debug, PartialEq, Eq, Structural)]
pub enum QueryStage {
    /// The block length is set to that of the status.
    BlockLen,
    /// The card is told that an application command follows.
    AppPrefix,
    /// The data path is configured for one block from the card.
    Setup,
    /// The status is asked for.
    Command,
    /// The words of the status are received.
    Receive,
}

impl QueryStage {
    /// The step of this stage, in a query for the card at address `rca`.
    pub open spec fn spec_step(&self, rca: u32) -> Task {
        match self {
            QueryStage::BlockLen => Task::spec_command(Cmd::set_block_length(STATUS_BYTES)),
            QueryStage::AppPrefix => Task::spec_command(Cmd::app_cmd(rca << 16u32)),
            QueryStage::Setup => Task::spec_setup(
                STATUS_BYTES,
                STATUS_BLOCK_SIZE,
                Dir::CardToHost,
            ),
            QueryStage::Command => Task::spec_command(Cmd::card_status(0)),
            QueryStage::Receive => Task::spec_transfer(
                TransferKind::ReadStatusBlock,
                STATUS_WORDS,
            ),
        }
    }

    /// The stage that follows this one, if any.
    pub open spec fn spec_following(&self) -> Option<QueryStage> {
        match self {
            QueryStage::BlockLen => Some(QueryStage::AppPrefix),
            QueryStage::AppPrefix => Some(QueryStage::Setup),
            QueryStage::Setup => Some(QueryStage::Command),
            QueryStage::Command => Some(QueryStage::Receive),
            QueryStage::Receive => None,
        }
    }

    /// The step of this stage, in a query for the card at address `rca`.
    #[verifier::when_used_as_spec(spec_step)]
    pub fn step(&self, rca: u32) -> (r: Task)
        ensures
            r == self.spec_step(rca),
            r.wf(),
            r.spec_completion() is None,
            r.continues(r),
    {
        match self {
            QueryStage::BlockLen => Task::command(Cmd::set_block_length(STATUS_BYTES)),
            QueryStage::AppPrefix => Task::command(Cmd::app_cmd(rca << 16u32)),
            QueryStage::Setup => Task::setup(STATUS_BYTES, STATUS_BLOCK_SIZE, Dir::CardToHost),
            QueryStage::Command => Task::command(Cmd::card_status(0)),
            QueryStage::Receive => Task::transfer(TransferKind::ReadStatusBlock, STATUS_WORDS),
        }
    }

    /// The stage that follows this one, if any.
    #[verifier::when_used_as_spec(spec_following)]
    pub fn following(&self) -> (r: Option<QueryStage>)
        ensures
            r == self.spec_following(),
    {
        match self {
            QueryStage::BlockLen => Some(QueryStage::AppPrefix),
            QueryStage::AppPrefix => Some(QueryStage::Setup),
            QueryStage::Setup => Some(QueryStage::Command),
            QueryStage::Command => Some(QueryStage::Receive),
            QueryStage::Receive => None,
        }
    }
}

} // verus!
