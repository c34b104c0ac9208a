//! Commands and the command dispatcher.

use vstd::prelude::*;
use crate::controller::{Action, Event, Flags, Status};
use crate::sdmmc::Error;

verus! {

/// The response that a command is answered with.
#[derive(Copy, Clone, Debug, PartialEq, Eq, Structural)]
pub enum Response {
    /// No response.
    Nothing,
    /// A response of 32 bits.
    Short,
    /// A response of 128 bits.
    Long,
}

impl Response {
    /// The value of the response length field of the command register.
    pub open spec fn spec_bits(self) -> u8 {
        match self {
            Response::Nothing => 0,
            Response::Short => 1,
            Response::Long => 3,
        }
    }

    /// The value of the response length field of the command register.
    #[verifier::when_used_as_spec(spec_bits)]
    pub fn bits(self) -> (r: u8)
        ensures
            r == self.spec_bits(),
    {
        match self {
            Response::Nothing => 0,
            Response::Short => 1,
            Response::Long => 3,
        }
    }
}

/// A SD command.
#[derive(Copy, Clone, Debug, PartialEq, Eq, Structural)]
pub struct Cmd {
    /// Command index.
    pub cmd: u8,
    /// Argument.
    pub arg: u32,
    /// Expected response.
    pub resp: Response,
}

/// Index of the stop-transmission command.
pub const STOP_TRANSMISSION: u8 = 12;

/// SD card Commands.
impl Cmd {
    #[verifier::allow_in_spec]
    pub fn new(cmd: u8, arg: u32, resp: Response) -> Cmd
        returns
            (Cmd { cmd, arg, resp }),
    {
        Cmd { cmd, arg, resp }
    }

    /// CMD0: Idle
    #[verifier::allow_in_spec]
    pub fn idle() -> Cmd
        returns
            (Cmd { cmd: 0, arg: 0, resp: Response::Nothing }),
    {
        Cmd::new(0, 0, Response::Nothing)
    }

    /// CMD2: Send CID
    #[verifier::allow_in_spec]
    pub fn all_send_cid() -> Cmd
        returns
            (Cmd { cmd: 2, arg: 0, resp: Response::Long }),
    {
        Cmd::new(2, 0, Response::Long)
    }

    /// CMD3: Send Relative Address
    #[verifier::allow_in_spec]
    pub fn send_rel_addr() -> Cmd
        returns
            (Cmd { cmd: 3, arg: 0, resp: Response::Short }),
    {
        Cmd::new(3, 0, Response::Short)
    }

    /// CMD6: Switch Function Command
    /// ACMD6: Bus Width
    #[verifier::allow_in_spec]
    pub fn cmd6(arg: u32) -> Cmd
        returns
            (Cmd { cmd: 6, arg, resp: Response::Short }),
    {
        Cmd::new(6, arg, Response::Short)
    }

    /// CMD7: Select one card and put it into the _Tranfer State_
    #[verifier::allow_in_spec]
    pub fn sel_desel_card(rca: u32) -> Cmd
        returns
            (Cmd { cmd: 7, arg: rca, resp: Response::Short }),
    {
        Cmd::new(7, rca, Response::Short)
    }

    /// CMD8: Send interface condition
    #[verifier::allow_in_spec]
    pub fn hs_send_ext_csd(arg: u32) -> Cmd
        returns
            (Cmd { cmd: 8, arg, resp: Response::Short }),
    {
        Cmd::new(8, arg, Response::Short)
    }

    /// CMD9: Send CSD
    #[verifier::allow_in_spec]
    pub fn send_csd(rca: u32) -> Cmd
        returns
            (Cmd { cmd: 9, arg: rca, resp: Response::Long }),
    {
        Cmd::new(9, rca, Response::Long)
    }

    /// CMD12: Stop transmission
    #[verifier::allow_in_spec]
    pub fn stop_transmission() -> Cmd
        returns
            (Cmd { cmd: 12, arg: 0, resp: Response::Short }),
    {
        Cmd::new(12, 0, Response::Short)
    }

    /// CMD13: Ask card to send status register
    /// ACMD13: SD Status
    #[verifier::allow_in_spec]
    pub fn card_status(rca: u32) -> Cmd
        returns
            (Cmd { cmd: 13, arg: rca, resp: Response::Short }),
    {
        Cmd::new(13, rca, Response::Short)
    }

    /// CMD16: Set block length
    #[verifier::allow_in_spec]
    pub fn set_block_length(blocklen: u32) -> Cmd
        returns
            (Cmd { cmd: 16, arg: blocklen, resp: Response::Short }),
    {
        Cmd::new(16, blocklen, Response::Short)
    }

    /// CMD17: Block Read
    #[verifier::allow_in_spec]
    pub fn read_single_block(addr: u32) -> Cmd
        returns
            (Cmd { cmd: 17, arg: addr, resp: Response::Short }),
    {
        Cmd::new(17, addr, Response::Short)
    }

    /// CMD18: Multiple Block Read
    #[verifier::allow_in_spec]
    pub fn read_multiple_blocks(addr: u32) -> Cmd
        returns
            (Cmd { cmd: 18, arg: addr, resp: Response::Short }),
    {
        Cmd::new(18, addr, Response::Short)
    }

    /// CMD24: Block Write
    #[verifier::allow_in_spec]
    pub fn write_single_block(addr: u32) -> Cmd
        returns
            (Cmd { cmd: 24, arg: addr, resp: Response::Short }),
    {
        Cmd::new(24, addr, Response::Short)
    }

    /// ACMD41: Send operating condition
    #[verifier::allow_in_spec]
    pub fn app_op_cmd(arg: u32) -> Cmd
        returns
            (Cmd { cmd: 41, arg, resp: Response::Short }),
    {
        Cmd::new(41, arg, Response::Short)
    }

    /// ACMD51: Send SCR
    #[verifier::allow_in_spec]
    pub fn cmd51() -> Cmd
        returns
            (Cmd { cmd: 51, arg: 0, resp: Response::Short }),
    {
        Cmd::new(51, 0, Response::Short)
    }

    /// App Command. Indicates that next command will be a app command
    #[verifier::allow_in_spec]
    pub fn app_cmd(rca: u32) -> Cmd
        returns
            (Cmd { cmd: 55, arg: rca, resp: Response::Short }),
    {
        Cmd::new(55, rca, Response::Short)
    }
}

/// The number of status reads after which a dispatch gives up on a command
/// that the controller has not flagged, less one.
pub const POLL_LIMIT: u32 = 0xFFFF_FFFF;

/// Where a dispatch stands.
#[derive(Copy, Clone, Debug)]
pub enum DispatchPhase {
    /// The sticky flags are to be cleared.
    ClearFlags,
    /// Waiting for the command path to go idle.
    AwaitIdle,
    /// The command is to be written.
    Issue,
    /// Waiting for the controller to flag the command, for `remaining` more
    /// reads of the status after the next.
    Poll { remaining: u32 },
    /// The dispatch has ended.
    Finished { result: Result<(), Error> },
}

/// Sends one command to the card and classifies what became of it.
#[derive(Copy, Clone, Debug)]
pub struct CommandDispatch {
    /// The command.
    pub cmd: Cmd,
    /// Where the dispatch stands.
    pub phase: DispatchPhase,
}

impl CommandDispatch {
    /// The controller has flagged the command: with a timeout, or with its
    /// end, which for a command without response is that it was sent, and
    /// for one with a response that the response came, with or without a
    /// CRC failure.
    pub open spec fn spec_flagged(status: Status, resp: Response) -> bool {
        if resp == Response::Nothing {
            status.ctimeout || status.cmdsent
        } else {
            status.ctimeout || status.cmdrend || status.ccrcfail
        }
    }

    /// What became of a command whose polling ended on `status` with
    /// `remaining` reads left. A timeout flag counts first, then the
    /// exhausted countdown, then a CRC failure.
    pub open spec fn spec_outcome(status: Status, remaining: u32) -> Result<(), Error> {
        if status.ctimeout {
            Err(Error::Timeout)
        } else if remaining == 0 {
            Err(Error::SoftwareTimeout)
        } else if status.ccrcfail {
            Err(Error::Crc)
        } else {
            Ok(())
        }
    }

    /// The dispatch of `cmd` before its first access.
    pub open spec fn spec_new(cmd: Cmd) -> CommandDispatch {
        CommandDispatch { cmd, phase: DispatchPhase::ClearFlags }
    }

    /// The access that the dispatch waits for.
    pub open spec fn spec_pending(&self) -> Action {
        match self.phase {
            DispatchPhase::ClearFlags => Action::ClearFlags(Flags::before_command()),
            DispatchPhase::AwaitIdle => Action::ReadStatus,
            DispatchPhase::Issue => Action::SendCommand {
                cmd: self.cmd,
                stop: self.cmd.cmd == STOP_TRANSMISSION,
            },
            DispatchPhase::Poll { .. } => Action::ReadStatus,
            DispatchPhase::Finished { result } => Action::Finished(result),
        }
    }

    /// The dispatch after `event`. An event that does not answer the pending
    /// access changes nothing.
    pub open spec fn next(self, event: Event) -> CommandDispatch {
        match (self.phase, event) {
            (DispatchPhase::ClearFlags, Event::Performed) => CommandDispatch {
                phase: DispatchPhase::AwaitIdle,
                ..self
            },
            (DispatchPhase::AwaitIdle, Event::Status(status)) => if status.cpsmact {
                self
            } else {
                CommandDispatch { phase: DispatchPhase::Issue, ..self }
            },
            (DispatchPhase::Issue, Event::Performed) => CommandDispatch {
                phase: DispatchPhase::Poll { remaining: POLL_LIMIT },
                ..self
            },
            (DispatchPhase::Poll { remaining }, Event::Status(status)) => if Self::spec_flagged(
                status,
                self.cmd.resp,
            ) || remaining == 0 {
                CommandDispatch {
                    phase: DispatchPhase::Finished {
                        result: Self::spec_outcome(status, remaining),
                    },
                    ..self
                }
            } else {
                CommandDispatch {
                    phase: DispatchPhase::Poll { remaining: (remaining - 1) as u32 },
                    ..self
                }
            },
            _ => self,
        }
    }

    /// The result of the dispatch, once it has ended.
    pub open spec fn spec_result(&self) -> Option<Result<(), Error>> {
        match self.phase {
            DispatchPhase::Finished { result } => Some(result),
            _ => None,
        }
    }

    /// The status reads that a dispatch in `phase` can still make while it
    /// polls for the end of its command.
    pub open spec fn polls_left(phase: DispatchPhase) -> nat {
        match phase {
            DispatchPhase::Finished { .. } => 0,
            DispatchPhase::Poll { remaining } => (remaining + 1) as nat,
            _ => (POLL_LIMIT + 1) as nat,
        }
    }

    /// Against a controller that is idle and then flags the command at the
    /// first poll, a dispatch clears the flags, sends the command and ends
    /// with what the flags show.
    pub proof fn lemma_dispatch(cmd: Cmd, idle: Status, answer: Status)
        requires
            !idle.cpsmact,
            Self::spec_flagged(answer, cmd.resp),
        ensures
            ({
                let cleared = Self::spec_new(cmd).next(Event::Performed);
                let ready = cleared.next(Event::Status(idle));
                let sent = ready.next(Event::Performed);
                &&& Self::spec_new(cmd).spec_pending() == Action::ClearFlags(Flags::before_command())
                &&& cleared.spec_pending() == Action::ReadStatus
                &&& ready.spec_pending() == (Action::SendCommand {
                    cmd,
                    stop: cmd.cmd == STOP_TRANSMISSION,
                })
                &&& sent.spec_pending() == Action::ReadStatus
                &&& sent.next(Event::Status(answer)).spec_result() == Some(
                    Self::spec_outcome(answer, POLL_LIMIT),
                )
            }),
    {
    }

    /// The outcome of a command shows a timeout whenever the controller has
    /// flagged one; else the exhausted countdown; else a CRC failure; and it
    /// is well only where none of the three holds.
    pub proof fn lemma_outcome_priority(status: Status, remaining: u32)
        ensures
            status.ctimeout ==> Self::spec_outcome(status, remaining) == Err::<(), Error>(
                Error::Timeout,
            ),
            !status.ctimeout && remaining == 0 ==> Self::spec_outcome(status, remaining) == Err::<
                (),
                Error,
            >(Error::SoftwareTimeout),
            !status.ctimeout && remaining > 0 && status.ccrcfail ==> Self::spec_outcome(
                status,
                remaining,
            ) == Err::<(), Error>(Error::Crc),
            Self::spec_outcome(status, remaining) is Ok <==> !status.ctimeout && remaining > 0
                && !status.ccrcfail,
    {
    }

    /// Polling ends: each status read while polling either ends the dispatch
    /// or leaves one read fewer, and no other event adds a read.
    pub proof fn lemma_polls_run_out(self, event: Event)
        ensures
            Self::polls_left(self.next(event).phase) <= Self::polls_left(self.phase),
            self.phase is Poll && event is Status ==> Self::polls_left(self.next(event).phase)
                < Self::polls_left(self.phase),
    {
    }

    /// Whether the controller has flagged the command.
    #[verifier::when_used_as_spec(spec_flagged)]
    pub fn flagged(status: Status, resp: Response) -> (r: bool)
        ensures
            r == Self::spec_flagged(status, resp),
    {
        match resp {
            Response::Nothing => status.ctimeout || status.cmdsent,
            _ => status.ctimeout || status.cmdrend || status.ccrcfail,
        }
    }

    /// What became of a command whose polling ended on `status` with
    /// `remaining` reads left.
    #[verifier::when_used_as_spec(spec_outcome)]
    pub fn outcome(status: Status, remaining: u32) -> (r: Result<(), Error>)
        ensures
            r == Self::spec_outcome(status, remaining),
    {
        if status.ctimeout {
            Err(Error::Timeout)
        } else if remaining == 0 {
            Err(Error::SoftwareTimeout)
        } else if status.ccrcfail {
            Err(Error::Crc)
        } else {
            Ok(())
        }
    }

    /// Starts the dispatch of `cmd`.
    #[verifier::when_used_as_spec(spec_new)]
    pub fn new(cmd: Cmd) -> (r: CommandDispatch)
        ensures
            r == Self::spec_new(cmd),
    {
        CommandDispatch { cmd, phase: DispatchPhase::ClearFlags }
    }

    /// The access to perform next, or the end of the dispatch.
    #[verifier::when_used_as_spec(spec_pending)]
    pub fn pending(&self) -> (r: Action)
        ensures
            r == self.spec_pending(),
    {
        match self.phase {
            DispatchPhase::ClearFlags => Action::ClearFlags(Flags::before_command()),
            DispatchPhase::AwaitIdle => Action::ReadStatus,
            DispatchPhase::Issue => Action::SendCommand {
                cmd: self.cmd,
                stop: self.cmd.cmd == STOP_TRANSMISSION,
            },
            DispatchPhase::Poll { .. } => Action::ReadStatus,
            DispatchPhase::Finished { result } => Action::Finished(result),
        }
    }

    /// Takes in what the pending access returned.
    pub fn advance(&mut self, event: Event)
        ensures
            *final(self) == old(self).next(event),
    {
        match (self.phase, event) {
            (DispatchPhase::ClearFlags, Event::Performed) => {
                self.phase = DispatchPhase::AwaitIdle;
            },
            (DispatchPhase::AwaitIdle, Event::Status(status)) => {
                if !status.cpsmact {
                    self.phase = DispatchPhase::Issue;
                }
            },
            (DispatchPhase::Issue, Event::Performed) => {
                self.phase = DispatchPhase::Poll { remaining: POLL_LIMIT };
            },
            (DispatchPhase::Poll { remaining }, Event::Status(status)) => {
                if Self::flagged(status, self.cmd.resp) || remaining == 0 {
                    self.phase = DispatchPhase::Finished {
                        result: Self::outcome(status, remaining),
                    };
                } else {
                    self.phase = DispatchPhase::Poll { remaining: remaining - 1 };
                }
            },
            _ => {},
        }
    }

    /// The result of the dispatch, once it has ended.
    #[verifier::when_used_as_spec(spec_result)]
    pub fn result(&self) -> (r: Option<Result<(), Error>>)
        ensures
            r == self.spec_result(),
    {
        match self.phase {
            DispatchPhase::Finished { result } => Some(result),
            _ => None,
        }
    }
}

} // verus!
