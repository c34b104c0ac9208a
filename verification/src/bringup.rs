//! Card bring-up: power-up, voltage negotiation, identification, and the
//! negotiation of bus width, clock and signalling.

use vstd::prelude::*;
use crate::bits::{field32, field64, get_field32, reverse32, reversed32};
use crate::command::Cmd;
use crate::controller::{Action, Dir, Event, PowerCtrl};
use crate::datapath::TransferKind;
use crate::query::{QueryStage, STATUS_BLOCK_SIZE, STATUS_BYTES, STATUS_WORDS};
use crate::sd_registers::{SDStatus, CID, CSD, OCR, SCR};
use crate::sdmmc::{clock_divisor, BusWidth, Card, CardType, Error, Sdmmc, Signalling};
use crate::task::Task;

verus! {

/// Check pattern of the interface condition, which the card echoes.
pub const CHECK_PATTERN: u32 = 0x1AA;

/// Argument of the operating condition: the voltage window of the host,
/// support for high capacity, and the ability to switch to 1.8 V.
pub const OP_COND_ARG: u32 = 0xC110_0000;

/// The fastest clock of SDR12 signalling, in hertz.
pub const SDR12_CEILING: u32 = 25_000_000;

/// Processor cycles that pass between a switch of function and the use of
/// the new function.
pub const SETTLE_CYCLES: u32 = 300;

/// Length of the SCR in bytes.
pub const SCR_BYTES: u32 = 8;

/// Base-2 logarithm of [`SCR_BYTES`].
pub const SCR_BLOCK_SIZE: u8 = 3;

/// Length of the SCR in words.
pub const SCR_WORDS: usize = 2;

/// The state of a card as its status word reports it.
#[derive(Copy, Clone, Debug, PartialEq, Eq, Structural)]
pub enum CardStatus {
    /// Card state is ready
    Ready,
    /// Card is in identification state
    Identification,
    /// Card is in standby state
    Standby,
    /// Card is in transfer state
    Transfer,
    /// Card is sending an operation
    Sending,
    /// Card is receiving operation information
    Receiving,
    /// Card is in programming state
    Programming,
    /// Card is disconnected
    Disconnected,
    /// Error
    Error,
}

impl CardStatus {
    /// The state that the state field `n` of a status word stands for.
    pub open spec fn of_state(n: u8) -> CardStatus {
        if n == 1 {
            CardStatus::Ready
        } else if n == 2 {
            CardStatus::Identification
        } else if n == 3 {
            CardStatus::Standby
        } else if n == 4 {
            CardStatus::Transfer
        } else if n == 5 {
            CardStatus::Sending
        } else if n == 6 {
            CardStatus::Receiving
        } else if n == 7 {
            CardStatus::Programming
        } else if n == 8 {
            CardStatus::Disconnected
        } else {
            CardStatus::Error
        }
    }
}

impl From<u8> for CardStatus {
    fn from(n: u8) -> (r: Self) {
        match n {
            1 => Self::Ready,
            2 => Self::Identification,
            3 => Self::Standby,
            4 => Self::Transfer,
            5 => Self::Sending,
            6 => Self::Receiving,
            7 => Self::Programming,
            8 => Self::Disconnected,
            _ => Self::Error,
        }
    }
}

impl vstd::std_specs::convert::FromSpecImpl<u8> for CardStatus {
    open spec fn obeys_from_spec() -> bool {
        true
    }

    open spec fn from_spec(n: u8) -> CardStatus {
        CardStatus::of_state(n)
    }
}

/// A long response with `word` taken in at its low end: four words taken in
/// one after the other make up the response, the first word highest.
pub open spec fn spec_shifted_in(long: u128, word: u32) -> u128 {
    (long << 32u32) | (word as u128)
}

/// Takes `word` in at the low end of a long response.
#[verifier::when_used_as_spec(spec_shifted_in)]
pub fn shifted_in(long: u128, word: u32) -> (r: u128)
    ensures
        r == spec_shifted_in(long, word),
{
    (long << 32u32) | (word as u128)
}

/// The 128 bits of a long response from its four words, the first highest.
pub open spec fn long_response(first: u32, second: u32, third: u32, fourth: u32) -> u128 {
    ((first as u128) << 96u32) | ((second as u128) << 64u32) | ((third as u128) << 32u32) | (
    fourth as u128)
}

/// Four words taken in one after the other make up the long response,
/// whatever was there before.
pub proof fn lemma_long_response(
    before: u128,
    first: u32,
    second: u32,
    third: u32,
    fourth: u32,
)
    ensures
        spec_shifted_in(
            spec_shifted_in(spec_shifted_in(spec_shifted_in(before, first), second), third),
            fourth,
        ) == long_response(first, second, third, fourth),
{
    let one: u128 = spec_shifted_in(before, first);
    let two: u128 = spec_shifted_in(one, second);
    let three: u128 = spec_shifted_in(two, third);
    let four: u128 = spec_shifted_in(three, fourth);
    let whole: u128 = long_response(first, second, third, fourth);
    assert(four == whole) by (bit_vector)
        requires
            one == (before << 32u32) | (first as u128),
            two == (one << 32u32) | (second as u128),
            three == (two << 32u32) | (third as u128),
            four == (three << 32u32) | (fourth as u128),
            whole == ((first as u128) << 96u32) | ((second as u128) << 64u32) | ((third as u128)
                << 32u32) | (fourth as u128),
    ;
}

/// The SCR from the two words in which it was received. The card sends the
/// register high byte first, so the first word, bytes reversed, is its high
/// half.
pub open spec fn spec_scr_of(first: u32, second: u32) -> u64 {
    ((reversed32(first) as u64) << 32u32) | (reversed32(second) as u64)
}

/// The SCR from the two words in which it was received.
#[verifier::when_used_as_spec(spec_scr_of)]
pub fn scr_of(first: u32, second: u32) -> (r: u64)
    ensures
        r == spec_scr_of(first, second),
{
    ((reverse32(first) as u64) << 32u32) | (reverse32(second) as u64)
}

/// The bus width to use: four lines where the host has wired them and the
/// card supports them, one line otherwise.
pub open spec fn spec_negotiated_width(wired: BusWidth, scr: SCR) -> BusWidth {
    if wired == BusWidth::Four && field64(scr.0, 50, 1) == 1 {
        BusWidth::Four
    } else {
        BusWidth::One
    }
}

/// The bus width to use.
#[verifier::when_used_as_spec(spec_negotiated_width)]
pub fn negotiated_width(wired: BusWidth, scr: SCR) -> (r: BusWidth)
    ensures
        r == spec_negotiated_width(wired, scr),
{
    match wired {
        BusWidth::Four => if scr.bus_width_four() {
            BusWidth::Four
        } else {
            BusWidth::One
        },
        _ => BusWidth::One,
    }
}

/// Argument of the command that sets the card's bus width.
pub open spec fn spec_width_argument(width: BusWidth) -> u32 {
    if width == BusWidth::Four {
        2
    } else {
        0
    }
}

/// Argument of the command that sets the card's bus width.
#[verifier::when_used_as_spec(spec_width_argument)]
pub fn width_argument(width: BusWidth) -> (r: u32)
    ensures
        r == spec_width_argument(width),
{
    match width {
        BusWidth::Four => 2,
        _ => 0,
    }
}

/// Argument of the switch command that selects `signalling` in function
/// group 1.
pub open spec fn spec_switch_argument(signalling: Signalling) -> u32 {
    match signalling {
        Signalling::DDR50 => 0x80FF_FF04,
        Signalling::SDR104 => 0x80FF_1F03,
        Signalling::SDR50 => 0x80FF_1F02,
        Signalling::SDR25 => 0x80FF_FF01,
        Signalling::SDR12 => 0x80FF_FF00,
    }
}

/// Argument of the switch command that selects `signalling`.
#[verifier::when_used_as_spec(spec_switch_argument)]
pub fn switch_argument(signalling: Signalling) -> (r: u32)
    ensures
        r == spec_switch_argument(signalling),
{
    match signalling {
        Signalling::DDR50 => 0x80FF_FF04,
        Signalling::SDR104 => 0x80FF_1F03,
        Signalling::SDR50 => 0x80FF_1F02,
        Signalling::SDR25 => 0x80FF_FF01,
        Signalling::SDR12 => 0x80FF_FF00,
    }
}

/// The function of group 1 that the switch status reports as selected: four
/// bits of word 4 of the status, which the card sends high byte first.
pub open spec fn spec_selection(words: [u32; 16]) -> u32 {
    field32(reversed32(words[4]), 24, 0xF)
}

/// The function of group 1 that the switch status reports as selected.
#[verifier::when_used_as_spec(spec_selection)]
pub fn selection(words: [u32; 16]) -> (r: u32)
    ensures
        r == spec_selection(words),
{
    get_field32(reverse32(words[4]), 24, 0xF)
}

/// The signalling that the card uses when its switch status reports
/// `selection` as the selected function of group 1. A card that reports no
/// function that the group knows has not switched: it stays at SDR12.
pub open spec fn spec_selected_signalling(selection: u32) -> Signalling {
    if selection == 1 {
        Signalling::SDR25
    } else if selection == 2 {
        Signalling::SDR50
    } else if selection == 3 {
        Signalling::SDR104
    } else if selection == 4 {
        Signalling::DDR50
    } else {
        Signalling::SDR12
    }
}

/// The signalling that the card uses when its switch status reports
/// `selection` as the selected function of group 1.
#[verifier::when_used_as_spec(spec_selected_signalling)]
pub fn selected_signalling(selection: u32) -> (r: Signalling)
    ensures
        r == spec_selected_signalling(selection),
        r == Signalling::SDR25 <==> selection == 1,
{
    match selection {
        1 => Signalling::SDR25,
        2 => Signalling::SDR50,
        3 => Signalling::SDR104,
        4 => Signalling::DDR50,
        _ => Signalling::SDR12,
    }
}

/// The state of the card that status word `word` reports.
pub open spec fn spec_card_state(word: u32) -> CardStatus {
    CardStatus::of_state(field32(word, 9, 0xF) as u8)
}

/// The state of the card that status word `word` reports.
#[verifier::when_used_as_spec(spec_card_state)]
pub fn card_state(word: u32) -> (r: CardStatus)
    ensures
        r == spec_card_state(word),
{
    CardStatus::from(get_field32(word, 9, 0xF) as u8)
}

/// The clock that a bring-up to `freq` programs before signalling is
/// negotiated: `freq` itself, but no more than SDR12 allows.
pub open spec fn spec_first_target(freq: u32) -> u32 {
    if freq <= SDR12_CEILING {
        freq
    } else {
        SDR12_CEILING
    }
}

/// The clock that a bring-up to `freq` programs before signalling is
/// negotiated.
#[verifier::when_used_as_spec(spec_first_target)]
pub fn first_target(freq: u32) -> (r: u32)
    ensures
        r == spec_first_target(freq),
{
    if freq <= SDR12_CEILING {
        freq
    } else {
        SDR12_CEILING
    }
}

/// The steps of a bring-up, in their order.
#[derive(Copy, Clone, Debug)]
pub enum InitStage {
    /// The card is powered.
    PowerOn,
    /// The card is sent to the idle state.
    GoIdle,
    /// The interface condition is sent, with the check pattern.
    IfCond,
    /// The echo of the check pattern is read.
    IfCondEcho,
    /// Voltage negotiation: an application command is announced.
    AppPrefix,
    /// Voltage negotiation: the operating condition is sent.
    OpCond,
    /// Voltage negotiation: the OCR is read.
    OpCondResult,
    /// The CID is asked for.
    SendCid,
    /// Word `register` of the CID is read.
    CidWord { register: u8 },
    /// The relative address is asked for.
    SendRca,
    /// The relative address is read.
    RcaWord,
    /// The CSD is asked for.
    SendCsd,
    /// Word `register` of the CSD is read.
    CsdWord { register: u8 },
    /// The card is selected.
    Select,
    /// SCR: the block length is set to that of the register.
    ScrBlockLen,
    /// SCR: an application command is announced.
    ScrAppPrefix,
    /// SCR: the data path is configured.
    ScrSetup,
    /// SCR: the register is asked for.
    ScrCommand,
    /// SCR: the two words of the register are received.
    ScrReceive,
    /// Bus width: an application command is announced.
    WidthAppPrefix,
    /// Bus width: the card is told the width.
    WidthSwitch,
    /// Bus width: the controller goes idle.
    WidthIdle,
    /// Bus width: the controller is told the width.
    WidthApply,
    /// Clock: the controller goes idle.
    ClockIdle,
    /// Clock: the divisor is written.
    ClockApply,
    /// The SD status is queried.
    Query { stage: QueryStage },
    /// Signalling: the data path is configured for the switch status.
    SwitchSetup,
    /// Signalling: the switch to SDR25 is asked for.
    SwitchCommand,
    /// Signalling: the switch status is received.
    SwitchReceive,
    /// Signalling: the card is given time to switch.
    SwitchSettle,
    /// Full clock: the controller goes idle.
    FinalClockIdle,
    /// Full clock: the divisor is written.
    FinalClockApply,
    /// The card's status is asked for.
    Verify,
    /// The card's status is read.
    VerifyState,
    /// The bring-up has ended.
    Finished { result: Result<(), Error> },
}

/// Brings a card up, from power-on to the negotiated bus.
#[derive(Copy, Clone, Debug)]
pub struct CardInit {
    /// Kernel clock of the controller, in hertz.
    pub ker_ck: u32,
    /// The bus clock asked for, in hertz.
    pub freq: u32,
    /// The data lines that the host has wired.
    pub bus_width: BusWidth,
    /// The bus clock as programmed, in hertz.
    pub clock: u32,
    /// The divisor that gives `clock`.
    pub divisor: u16,
    /// The signalling in use.
    pub signalling: Signalling,
    /// The bus width negotiated.
    pub width: BusWidth,
    /// The OCR as read.
    pub ocr: u32,
    /// The CID as far as read.
    pub cid: u128,
    /// The relative address as read.
    pub rca: u32,
    /// The CSD as far as read.
    pub csd: u128,
    /// The SCR as read.
    pub scr: u64,
    /// The SD status as read.
    pub status: [u32; 16],
    /// The function that the switch status reports as selected.
    pub selection: u32,
    /// The stage that the bring-up is at.
    pub stage: InitStage,
    /// The step of that stage.
    pub task: Task,
}

impl CardInit {
    /// The step of `stage`. A bring-up that has ended keeps its last step.
    pub open spec fn spec_step_of(&self, stage: InitStage) -> Task {
        match stage {
            InitStage::PowerOn => Task::spec_perform(Action::Power(PowerCtrl::On)),
            InitStage::GoIdle => Task::spec_command(Cmd::idle()),
            InitStage::IfCond => Task::spec_command(Cmd::hs_send_ext_csd(CHECK_PATTERN)),
            InitStage::IfCondEcho => Task::spec_fetch(1),
            InitStage::AppPrefix => Task::spec_command(Cmd::app_cmd(0)),
            InitStage::OpCond => Task::spec_command(Cmd::app_op_cmd(OP_COND_ARG)),
            InitStage::OpCondResult => Task::spec_fetch(1),
            InitStage::SendCid => Task::spec_command(Cmd::all_send_cid()),
            InitStage::CidWord { register } => Task::spec_fetch(register),
            InitStage::SendRca => Task::spec_command(Cmd::send_rel_addr()),
            InitStage::RcaWord => Task::spec_fetch(1),
            InitStage::SendCsd => Task::spec_command(Cmd::send_csd(self.rca << 16u32)),
            InitStage::CsdWord { register } => Task::spec_fetch(register),
            InitStage::Select => Task::spec_command(Cmd::sel_desel_card(self.rca << 16u32)),
            InitStage::ScrBlockLen => Task::spec_command(Cmd::set_block_length(SCR_BYTES)),
            InitStage::ScrAppPrefix => Task::spec_command(Cmd::app_cmd(self.rca << 16u32)),
            InitStage::ScrSetup => Task::spec_setup(SCR_BYTES, SCR_BLOCK_SIZE, Dir::CardToHost),
            InitStage::ScrCommand => Task::spec_command(Cmd::cmd51()),
            InitStage::ScrReceive => Task::spec_transfer(TransferKind::ReadRegister, SCR_WORDS),
            InitStage::WidthAppPrefix => Task::spec_command(Cmd::app_cmd(self.rca << 16u32)),
            InitStage::WidthSwitch => Task::spec_command(
                Cmd::cmd6(spec_width_argument(self.width)),
            ),
            InitStage::WidthIdle => Task::spec_await_idle(),
            InitStage::WidthApply => Task::spec_perform(Action::SetBusWidth(self.width)),
            InitStage::ClockIdle => Task::spec_await_idle(),
            InitStage::ClockApply => Task::spec_perform(Action::SetClockDivisor(self.divisor)),
            InitStage::Query { stage } => stage.spec_step(self.rca),
            InitStage::SwitchSetup => Task::spec_setup(
                STATUS_BYTES,
                STATUS_BLOCK_SIZE,
                Dir::CardToHost,
            ),
            InitStage::SwitchCommand => Task::spec_command(
                Cmd::cmd6(spec_switch_argument(Signalling::SDR25)),
            ),
            InitStage::SwitchReceive => Task::spec_transfer(
                TransferKind::ReadStatusBlock,
                STATUS_WORDS,
            ),
            InitStage::SwitchSettle => Task::spec_perform(Action::Delay { cycles: SETTLE_CYCLES }),
            InitStage::FinalClockIdle => Task::spec_await_idle(),
            InitStage::FinalClockApply => Task::spec_perform(
                Action::SetClockDivisor(self.divisor),
            ),
            InitStage::Verify => Task::spec_command(Cmd::card_status(self.rca << 16u32)),
            InitStage::VerifyState => Task::spec_fetch(1),
            InitStage::Finished { .. } => self.task,
        }
    }

    /// The clock that a bring-up that ended well has programmed: the clock
    /// asked for, unless that is beyond SDR12 and the card did not take
    /// SDR25.
    pub open spec fn settled_target(self) -> u32 {
        if self.freq > SDR12_CEILING && self.signalling != Signalling::SDR25 {
            SDR12_CEILING
        } else {
            self.freq
        }
    }

    /// The clock and the divisor are those for `target`.
    pub open spec fn clocked_for(self, target: u32) -> bool {
        clock_divisor(self.ker_ck, target) == Ok::<(u16, u32), Error>((self.divisor, self.clock))
    }

    /// What holds of the clock at each stage: once the first clock is
    /// programmed it is that for the clamped target, until the card has
    /// taken SDR25, from where on it is that for the clock asked for. Only
    /// a bring-up to a clock beyond SDR12 negotiates the signalling.
    pub open spec fn clock_settled(self) -> bool {
        match self.stage {
            InitStage::ClockIdle | InitStage::ClockApply | InitStage::Query { .. } => self.clocked_for(
                spec_first_target(self.freq),
            ),
            InitStage::SwitchSetup
            | InitStage::SwitchCommand
            | InitStage::SwitchReceive
            | InitStage::SwitchSettle => self.freq > SDR12_CEILING && self.clocked_for(
                SDR12_CEILING,
            ),
            InitStage::FinalClockIdle
            | InitStage::FinalClockApply
            | InitStage::Verify
            | InitStage::VerifyState => self.freq > SDR12_CEILING && self.signalling
                == Signalling::SDR25 && self.clocked_for(self.freq),
            InitStage::Finished { result: Ok(_) } => self.clocked_for(self.settled_target()),
            _ => true,
        }
    }

    /// What holds of a bring-up whatever its step: the host has wired one
    /// line or four, the words of a long response are counted from 1 to 4,
    /// and the clock is as the stages have programmed it.
    pub open spec fn steady(self) -> bool {
        &&& self.bus_width != BusWidth::Eight
        &&& self.task.wf()
        &&& self.stage matches InitStage::CidWord { register } ==> 1 <= register <= 4
        &&& self.stage matches InitStage::CsdWord { register } ==> 1 <= register <= 4
        &&& self.clock_settled()
    }

    /// The bring-up is one that the engine can hold: it is steady, and
    /// unless it has ended, the step of its stage is under way.
    pub open spec fn wf(self) -> bool {
        &&& self.steady()
        &&& !(self.stage is Finished) ==> self.task.spec_completion() is None
            && self.task.continues(self.spec_step_of(self.stage))
    }

    /// The bring-up to `freq` before its first access, on a controller
    /// clocked with `ker_ck`, at the bus clock and signalling that the
    /// session has.
    pub open spec fn spec_new(
        ker_ck: u32,
        freq: u32,
        bus_width: BusWidth,
        clock: u32,
        signalling: Signalling,
    ) -> CardInit {
        CardInit {
            ker_ck,
            freq,
            bus_width,
            clock,
            divisor: 0,
            signalling,
            width: BusWidth::One,
            ocr: 0,
            cid: 0,
            rca: 0,
            csd: 0,
            scr: 0,
            status: vstd::array::spec_array_fill_for_copy_type::<u32, 16>(0u32),
            selection: 0,
            stage: InitStage::PowerOn,
            task: Task::spec_perform(Action::Power(PowerCtrl::On)),
        }
    }

    /// The result of the bring-up, once it has ended.
    pub open spec fn spec_result(&self) -> Option<Result<(), Error>> {
        match self.stage {
            InitStage::Finished { result } => Some(result),
            _ => None,
        }
    }

    /// The access that the bring-up waits for.
    pub open spec fn spec_pending(&self) -> Action {
        match self.stage {
            InitStage::Finished { result } => Action::Finished(result),
            _ => self.task.spec_pending(),
        }
    }

    /// The bring-up ended with `result`.
    pub open spec fn ended(self, result: Result<(), Error>) -> CardInit {
        self.at(InitStage::Finished { result })
    }

    /// The bring-up at `stage`, about to start its step.
    pub open spec fn at(self, stage: InitStage) -> CardInit {
        CardInit { stage, task: self.spec_step_of(stage), ..self }
    }

    /// The bring-up with the clock for `target`, waiting at `stage` for the
    /// controller to go idle; or ended, where no divisor gives that clock.
    pub open spec fn retargeted(self, target: u32, stage: InitStage) -> CardInit {
        match clock_divisor(self.ker_ck, target) {
            Ok((divisor, clock)) => CardInit { divisor, clock, ..self }.at(stage),
            Err(e) => self.ended(Err(e)),
        }
    }

    /// Power-up, voltage negotiation and identification: the bring-up after
    /// the step of one of their stages has ended well, with `word` read.
    ///
    /// The card must echo the check pattern, else its version is not
    /// supported. The operating condition is sent again for as long as the
    /// OCR reads busy; a card that then does not report high capacity is not
    /// supported. The words of a long response are taken in one after the
    /// other. The relative address is the high half of the response.
    pub open spec fn identified(self, word: u32) -> CardInit {
        match self.stage {
            InitStage::PowerOn => self.at(InitStage::GoIdle),
            InitStage::GoIdle => self.at(InitStage::IfCond),
            InitStage::IfCond => self.at(InitStage::IfCondEcho),
            InitStage::IfCondEcho => if word == CHECK_PATTERN {
                self.at(InitStage::AppPrefix)
            } else {
                self.ended(Err(Error::UnsupportedCardVersion))
            },
            InitStage::AppPrefix => self.at(InitStage::OpCond),
            InitStage::OpCond => self.at(InitStage::OpCondResult),
            InitStage::OpCondResult => if !OCR(word).flag(31) {
                self.at(InitStage::AppPrefix)
            } else if !OCR(word).flag(30) {
                self.ended(Err(Error::UnsupportedCardType))
            } else {
                CardInit { ocr: word, ..self }.at(InitStage::SendCid)
            },
            InitStage::SendCid => self.at(InitStage::CidWord { register: 1 }),
            InitStage::CidWord { register } => {
                let taken = CardInit { cid: spec_shifted_in(self.cid, word), ..self };
                if register < 4 {
                    taken.at(InitStage::CidWord { register: (register + 1) as u8 })
                } else {
                    taken.at(InitStage::SendRca)
                }
            },
            InitStage::SendRca => self.at(InitStage::RcaWord),
            InitStage::RcaWord => CardInit { rca: word >> 16u32, ..self }.at(InitStage::SendCsd),
            InitStage::SendCsd => self.at(InitStage::CsdWord { register: 1 }),
            InitStage::CsdWord { register } => {
                let taken = CardInit { csd: spec_shifted_in(self.csd, word), ..self };
                if register < 4 {
                    taken.at(InitStage::CsdWord { register: (register + 1) as u8 })
                } else {
                    taken.at(InitStage::Select)
                }
            },
            InitStage::Select => self.at(InitStage::ScrBlockLen),
            _ => self,
        }
    }

    /// Configuration: the bring-up after the step of a stage of reading the
    /// SCR, of setting the bus width or of programming the first clock has
    /// ended well.
    ///
    /// Four lines are used only where the host has wired them and the SCR
    /// reports them. The first clock is the one asked for, but no more than
    /// SDR12 allows.
    pub open spec fn configured(self) -> CardInit {
        match self.stage {
            InitStage::ScrBlockLen => self.at(InitStage::ScrAppPrefix),
            InitStage::ScrAppPrefix => self.at(InitStage::ScrSetup),
            InitStage::ScrSetup => self.at(InitStage::ScrCommand),
            InitStage::ScrCommand => self.at(InitStage::ScrReceive),
            InitStage::ScrReceive => {
                let scr = spec_scr_of(self.task.spec_words()[0], self.task.spec_words()[1]);
                CardInit {
                    scr,
                    width: spec_negotiated_width(self.bus_width, SCR(scr)),
                    ..self
                }.at(InitStage::WidthAppPrefix)
            },
            InitStage::WidthAppPrefix => self.at(InitStage::WidthSwitch),
            InitStage::WidthSwitch => self.at(InitStage::WidthIdle),
            InitStage::WidthIdle => self.at(InitStage::WidthApply),
            InitStage::WidthApply => self.retargeted(
                spec_first_target(self.freq),
                InitStage::ClockIdle,
            ),
            InitStage::ClockIdle => self.at(InitStage::ClockApply),
            InitStage::ClockApply => self.at(InitStage::Query { stage: QueryStage::BlockLen }),
            _ => self,
        }
    }

    /// Negotiation of the signalling: the bring-up after the step of one of
    /// its stages has ended well, with `word` read.
    ///
    /// A card that reports anything but SDR25 as the selected function
    /// stays at the first clock, and the bring-up has ended well: not to
    /// take the faster mode is no failure. With SDR25 the clock asked for is
    /// programmed, and the card must then report the transfer state.
    pub open spec fn negotiated(self, word: u32) -> CardInit {
        match self.stage {
            InitStage::SwitchSetup => self.at(InitStage::SwitchCommand),
            InitStage::SwitchCommand => self.at(InitStage::SwitchReceive),
            InitStage::SwitchReceive => CardInit {
                selection: spec_selection(self.task.spec_words()),
                ..self
            }.at(InitStage::SwitchSettle),
            InitStage::SwitchSettle => {
                let signalling = spec_selected_signalling(self.selection);
                if signalling == Signalling::SDR25 {
                    CardInit { signalling, ..self }.retargeted(
                        self.freq,
                        InitStage::FinalClockIdle,
                    )
                } else {
                    CardInit { signalling, ..self }.ended(Ok(()))
                }
            },
            InitStage::FinalClockIdle => self.at(InitStage::FinalClockApply),
            InitStage::FinalClockApply => self.at(InitStage::Verify),
            InitStage::Verify => self.at(InitStage::VerifyState),
            InitStage::VerifyState => if spec_card_state(word) == CardStatus::Transfer {
                self.ended(Ok(()))
            } else {
                self.ended(Err(Error::SignalingSwitchFailed))
            },
            _ => self,
        }
    }

    /// The bring-up after the step of a stage of the query of the SD status
    /// has ended with `outcome`. Any failure ends the bring-up. With the
    /// status read, a bring-up to a clock that SDR12 allows has ended well;
    /// any other goes on to negotiate the signalling.
    pub open spec fn queried(self, stage: QueryStage, outcome: Result<u32, Error>) -> CardInit {
        match outcome {
            Err(error) => self.ended(Err(error)),
            Ok(_) => match stage.spec_following() {
                Some(following) => self.at(InitStage::Query { stage: following }),
                None => if self.freq > SDR12_CEILING {
                    CardInit { status: self.task.spec_words(), ..self }.at(InitStage::SwitchSetup)
                } else {
                    CardInit { status: self.task.spec_words(), ..self }.ended(Ok(()))
                },
            },
        }
    }

    /// The failure `error` of the step at hand is one that the bring-up goes
    /// on from: a CRC failure of the operating condition, as the card may
    /// not yet take application commands, and a timeout of the selection of
    /// a card whose address is zero.
    pub open spec fn spec_tolerates(&self, error: Error) -> bool {
        match self.stage {
            InitStage::OpCond => error == Error::Crc,
            InitStage::Select => error == Error::Timeout && self.rca << 16u32 == 0,
            _ => false,
        }
    }

    /// The bring-up is at a stage of configuration.
    pub open spec fn in_configuration(self) -> bool {
        match self.stage {
            InitStage::ScrBlockLen
            | InitStage::ScrAppPrefix
            | InitStage::ScrSetup
            | InitStage::ScrCommand
            | InitStage::ScrReceive
            | InitStage::WidthAppPrefix
            | InitStage::WidthSwitch
            | InitStage::WidthIdle
            | InitStage::WidthApply
            | InitStage::ClockIdle
            | InitStage::ClockApply => true,
            _ => false,
        }
    }

    /// The bring-up is at a stage of the negotiation of the signalling.
    pub open spec fn in_negotiation(self) -> bool {
        match self.stage {
            InitStage::SwitchSetup
            | InitStage::SwitchCommand
            | InitStage::SwitchReceive
            | InitStage::SwitchSettle
            | InitStage::FinalClockIdle
            | InitStage::FinalClockApply
            | InitStage::Verify
            | InitStage::VerifyState => true,
            _ => false,
        }
    }

    /// The bring-up after the step of its stage has ended with `outcome`. A
    /// failure that is not tolerated ends the bring-up with its error.
    pub open spec fn proceeded(self, outcome: Result<u32, Error>) -> CardInit {
        match self.stage {
            InitStage::Finished { .. } => self,
            InitStage::Query { stage } => self.queried(stage, outcome),
            _ => match outcome {
                Err(e) => if self.spec_tolerates(e) {
                    self.identified(0)
                } else {
                    self.ended(Err(e))
                },
                Ok(word) => if self.in_configuration() {
                    self.configured()
                } else if self.in_negotiation() {
                    self.negotiated(word)
                } else {
                    self.identified(word)
                },
            },
        }
    }

    /// The bring-up after `event`. An event that does not answer the pending
    /// access changes nothing.
    pub open spec fn next(self, event: Event) -> CardInit {
        if self.stage is Finished {
            self
        } else {
            let stepped = CardInit { task: self.task.next(event), ..self };
            match stepped.task.spec_completion() {
                Some(outcome) => stepped.proceeded(outcome),
                None => stepped,
            }
        }
    }

    /// A bring-up that has ended well has programmed a clock no faster than
    /// the one asked for. Where that is beyond SDR12 and the card has not
    /// taken SDR25, the clock is the one for the ceiling of SDR12.
    pub proof fn lemma_settled_clock(self)
        requires
            self.wf(),
            self.spec_result() == Some(Ok::<(), Error>(())),
        ensures
            self.clock <= self.freq,
            self.freq > SDR12_CEILING && self.signalling != Signalling::SDR25
                ==> self.clock <= SDR12_CEILING && self.clocked_for(SDR12_CEILING),
    {
        crate::sdmmc::lemma_clock_within_target(self.ker_ck, self.settled_target());
    }

    /// A card that reports anything but SDR25 as the selected function ends
    /// the bring-up well, at the clock and divisor that it had.
    pub proof fn lemma_other_mode_keeps_clock(self, word: u32)
        requires
            self.stage is SwitchSettle,
            self.selection != 1,
        ensures
            self.negotiated(word).spec_result() == Some(Ok::<(), Error>(())),
            self.negotiated(word).clock == self.clock,
            self.negotiated(word).divisor == self.divisor,
            self.negotiated(word).signalling != Signalling::SDR25,
            self.wf() ==> self.negotiated(word).clocked_for(SDR12_CEILING) && self.negotiated(
                word,
            ).clock <= SDR12_CEILING,
    {
        crate::sdmmc::lemma_clock_within_target(self.ker_ck, SDR12_CEILING);
    }

    /// The switch of signalling fails the bring-up in one place only: where
    /// the card, at the full clock, does not report the transfer state.
    pub proof fn lemma_switch_failure(self, outcome: Result<u32, Error>)
        requires
            self.wf(),
            outcome != Err::<u32, Error>(Error::SignalingSwitchFailed),
            self.proceeded(outcome).spec_result() == Some(
                Err::<(), Error>(Error::SignalingSwitchFailed),
            ),
            !(self.stage is Finished),
        ensures
            self.stage is VerifyState,
            outcome matches Ok(word) && spec_card_state(word) != CardStatus::Transfer,
    {
        crate::sdmmc::lemma_clock_within_target(self.ker_ck, self.freq);
        crate::sdmmc::lemma_clock_within_target(self.ker_ck, spec_first_target(self.freq));
    }

    /// The CID of the card is the long response to the command that asks
    /// for it: its four words, read one after the other, the first highest.
    pub proof fn lemma_cid_assembled(self, first: u32, second: u32, third: u32, fourth: u32)
        requires
            self.stage == (InitStage::CidWord { register: 1 }),
        ensures
            ({
                let read = self.identified(first).identified(second).identified(third).identified(
                    fourth,
                );
                &&& read.cid == long_response(first, second, third, fourth)
                &&& read.spec_card().cid.raw() == long_response(first, second, third, fourth)
                &&& read.stage is SendRca
            }),
    {
        lemma_long_response(self.cid, first, second, third, fourth);
        CID::lemma_new_raw(long_response(first, second, third, fourth));
    }

    /// The CSD of the card is the long response to the command that asks
    /// for it: its four words, read one after the other, the first highest.
    pub proof fn lemma_csd_assembled(self, first: u32, second: u32, third: u32, fourth: u32)
        requires
            self.stage == (InitStage::CsdWord { register: 1 }),
        ensures
            ({
                let read = self.identified(first).identified(second).identified(third).identified(
                    fourth,
                );
                &&& read.spec_card().csd == CSD(long_response(first, second, third, fourth))
                &&& read.stage is Select
            }),
    {
        lemma_long_response(self.csd, first, second, third, fourth);
    }

    /// A failure of a step ends the bring-up with its error, but for the two
    /// that are tolerated, from which the bring-up goes on as if the step had
    /// ended well.
    pub proof fn lemma_failures_end(self, error: Error)
        requires
            !(self.stage is Finished),
        ensures
            !self.spec_tolerates(error) ==> self.proceeded(Err(error)).spec_result() == Some(
                Err::<(), Error>(error),
            ),
            self.spec_tolerates(error) ==> self.proceeded(Err(error)) == self.proceeded(Ok(0))
                && self.proceeded(Err(error)).spec_result() is None,
            self.spec_tolerates(error) <==> (self.stage is OpCond && error == Error::Crc) || (
            self.stage is Select && error == Error::Timeout && self.rca << 16u32 == 0),
    {
    }

    /// Every command that a bring-up sends is the command of its stage, and
    /// none of them stops a transmission.
    pub proof fn lemma_commands(self)
        requires
            self.wf(),
            self.spec_pending() is SendCommand,
        ensures
            self.spec_step_of(self.stage) == Task::spec_command(
                self.spec_pending()->SendCommand_cmd,
            ),
            !self.spec_pending()->SendCommand_stop,
    {
    }

    /// A well-formed bring-up stays well formed, whatever the event.
    pub proof fn lemma_next_wf(self, event: Event)
        requires
            self.wf(),
        ensures
            self.next(event).wf(),
    {
        if !(self.stage is Finished) {
            self.task.lemma_next_wf(event);
            self.task.lemma_next_continues(self.spec_step_of(self.stage), event);
            let stepped = CardInit { task: self.task.next(event), ..self };
            match stepped.task.spec_completion() {
                Some(outcome) => {
                    stepped.lemma_proceeded_wf(outcome);
                },
                None => {},
            }
        }
    }

    /// The stage that follows one whose step has ended starts its step, and
    /// the bring-up stays steady.
    proof fn lemma_proceeded_wf(self, outcome: Result<u32, Error>)
        requires
            self.steady(),
        ensures
            self.proceeded(outcome).wf(),
    {
        match self.stage {
            InitStage::Finished { .. } => {},
            InitStage::Query { stage } => {
                self.lemma_queried_wf(stage, outcome);
            },
            _ => {
                match outcome {
                    Err(e) => {
                        if self.spec_tolerates(e) {
                            self.lemma_identified_wf(0);
                        }
                    },
                    Ok(word) => {
                        if self.in_configuration() {
                            self.lemma_configured_wf();
                        } else if self.in_negotiation() {
                            self.lemma_negotiated_wf(word);
                        } else {
                            self.lemma_identified_wf(word);
                        }
                    },
                }
            },
        }
    }

    /// Identification leaves the bring-up well formed.
    proof fn lemma_identified_wf(self, word: u32)
        requires
            self.steady(),
            !self.in_configuration(),
            !self.in_negotiation(),
            !(self.stage is Query),
            !(self.stage is Finished),
        ensures
            self.identified(word).wf(),
    {
    }

    /// Configuration leaves the bring-up well formed.
    proof fn lemma_configured_wf(self)
        requires
            self.steady(),
            self.in_configuration(),
        ensures
            self.configured().wf(),
    {
    }

    /// The negotiation of the signalling leaves the bring-up well formed.
    proof fn lemma_negotiated_wf(self, word: u32)
        requires
            self.steady(),
            self.in_negotiation(),
        ensures
            self.negotiated(word).wf(),
    {
    }

    /// The query of the SD status leaves the bring-up well formed.
    proof fn lemma_queried_wf(self, stage: QueryStage, outcome: Result<u32, Error>)
        requires
            self.steady(),
            self.stage == (InitStage::Query { stage }),
        ensures
            self.queried(stage, outcome).wf(),
    {
    }

    /// The card as the bring-up has read it.
    pub open spec fn spec_card(&self) -> Card {
        Card {
            card_type: CardType::SDHC,
            ocr: OCR(self.ocr),
            rca: self.rca,
            cid: CID::spec_new(self.cid),
            csd: CSD(self.csd),
            scr: SCR(self.scr),
            status: SDStatus::spec_new(self.status),
        }
    }

    /// The card as the bring-up has read it.
    #[verifier::when_used_as_spec(spec_card)]
    pub fn card(&self) -> (r: Card)
        ensures
            r == self.spec_card(),
    {
        Card {
            card_type: CardType::SDHC,
            ocr: OCR(self.ocr),
            rca: self.rca,
            cid: CID::new(self.cid),
            csd: CSD(self.csd),
            scr: SCR(self.scr),
            status: SDStatus::new(self.status),
        }
    }

    /// Starts the bring-up of a card to a bus clock of `freq` hertz, on a
    /// controller clocked with `ker_ck`, at the bus clock and signalling
    /// that the session has.
    #[verifier::when_used_as_spec(spec_new)]
    pub fn new(
        ker_ck: u32,
        freq: u32,
        bus_width: BusWidth,
        clock: u32,
        signalling: Signalling,
    ) -> (r: CardInit)
        requires
            bus_width != BusWidth::Eight,
        ensures
            r == Self::spec_new(ker_ck, freq, bus_width, clock, signalling),
            r.wf(),
    {
        CardInit {
            ker_ck,
            freq,
            bus_width,
            clock,
            divisor: 0,
            signalling,
            width: BusWidth::One,
            ocr: 0,
            cid: 0,
            rca: 0,
            csd: 0,
            scr: 0,
            status: [0u32; 16],
            selection: 0,
            stage: InitStage::PowerOn,
            task: Task::perform(Action::Power(PowerCtrl::On)),
        }
    }

    /// The result of the bring-up, once it has ended.
    #[verifier::when_used_as_spec(spec_result)]
    pub fn result(&self) -> (r: Option<Result<(), Error>>)
        ensures
            r == self.spec_result(),
    {
        match self.stage {
            InitStage::Finished { result } => Some(result),
            _ => None,
        }
    }

    /// The access to perform next, or the end of the bring-up.
    #[verifier::when_used_as_spec(spec_pending)]
    pub fn pending(&self) -> (r: Action)
        ensures
            r == self.spec_pending(),
    {
        match self.stage {
            InitStage::Finished { result } => Action::Finished(result),
            _ => self.task.pending(),
        }
    }

    /// Takes in what the pending access returned.
    pub fn advance(&mut self, event: Event)
        requires
            old(self).wf(),
        ensures
            *final(self) == old(self).next(event),
            final(self).wf(),
    {
        if let InitStage::Finished { .. } = self.stage {
            return ;
        }
        self.task.advance(event);
        if let Some(outcome) = self.task.completion() {
            self.proceed(outcome);
        }
    }

    /// Whether the bring-up goes on from the failure `error` of the step at
    /// hand.
    #[verifier::when_used_as_spec(spec_tolerates)]
    pub fn tolerates(&self, error: Error) -> (r: bool)
        ensures
            r == self.spec_tolerates(error),
    {
        match self.stage {
            InitStage::OpCond => error == Error::Crc,
            InitStage::Select => error == Error::Timeout && self.rca << 16u32 == 0,
            _ => false,
        }
    }

    /// The step of `stage`.
    fn step_of(&self, stage: InitStage) -> (r: Task)
        requires
            self.task.wf(),
        ensures
            r == self.spec_step_of(stage),
            r.wf(),
            !(stage is Finished) ==> r.spec_completion() is None && r.continues(r),
    {
        match stage {
            InitStage::PowerOn => Task::perform(Action::Power(PowerCtrl::On)),
            InitStage::GoIdle => Task::command(Cmd::idle()),
            InitStage::IfCond => Task::command(Cmd::hs_send_ext_csd(CHECK_PATTERN)),
            InitStage::IfCondEcho => Task::fetch(1),
            InitStage::AppPrefix => Task::command(Cmd::app_cmd(0)),
            InitStage::OpCond => Task::command(Cmd::app_op_cmd(OP_COND_ARG)),
            InitStage::OpCondResult => Task::fetch(1),
            InitStage::SendCid => Task::command(Cmd::all_send_cid()),
            InitStage::CidWord { register } => Task::fetch(register),
            InitStage::SendRca => Task::command(Cmd::send_rel_addr()),
            InitStage::RcaWord => Task::fetch(1),
            InitStage::SendCsd => Task::command(Cmd::send_csd(self.rca << 16u32)),
            InitStage::CsdWord { register } => Task::fetch(register),
            InitStage::Select => Task::command(Cmd::sel_desel_card(self.rca << 16u32)),
            InitStage::ScrBlockLen => Task::command(Cmd::set_block_length(SCR_BYTES)),
            InitStage::ScrAppPrefix => Task::command(Cmd::app_cmd(self.rca << 16u32)),
            InitStage::ScrSetup => Task::setup(SCR_BYTES, SCR_BLOCK_SIZE, Dir::CardToHost),
            InitStage::ScrCommand => Task::command(Cmd::cmd51()),
            InitStage::ScrReceive => Task::transfer(TransferKind::ReadRegister, SCR_WORDS),
            InitStage::WidthAppPrefix => Task::command(Cmd::app_cmd(self.rca << 16u32)),
            InitStage::WidthSwitch => Task::command(Cmd::cmd6(width_argument(self.width))),
            InitStage::WidthIdle => Task::await_idle(),
            InitStage::WidthApply => Task::perform(Action::SetBusWidth(self.width)),
            InitStage::ClockIdle => Task::await_idle(),
            InitStage::ClockApply => Task::perform(Action::SetClockDivisor(self.divisor)),
            InitStage::Query { stage } => stage.step(self.rca),
            InitStage::SwitchSetup => Task::setup(
                STATUS_BYTES,
                STATUS_BLOCK_SIZE,
                Dir::CardToHost,
            ),
            InitStage::SwitchCommand => Task::command(
                Cmd::cmd6(switch_argument(Signalling::SDR25)),
            ),
            InitStage::SwitchReceive => Task::transfer(
                TransferKind::ReadStatusBlock,
                STATUS_WORDS,
            ),
            InitStage::SwitchSettle => Task::perform(Action::Delay { cycles: SETTLE_CYCLES }),
            InitStage::FinalClockIdle => Task::await_idle(),
            InitStage::FinalClockApply => Task::perform(Action::SetClockDivisor(self.divisor)),
            InitStage::Verify => Task::command(Cmd::card_status(self.rca << 16u32)),
            InitStage::VerifyState => Task::fetch(1),
            InitStage::Finished { .. } => self.task,
        }
    }

    /// Puts the bring-up at `stage`, about to start its step.
    fn go(&mut self, stage: InitStage)
        requires
            old(self).task.wf(),
        ensures
            *final(self) == old(self).at(stage),
            final(self).task.wf(),
            !(stage is Finished) ==> final(self).task.spec_completion() is None
                && final(self).task.continues(final(self).spec_step_of(stage)),
    {
        self.task = self.step_of(stage);
        self.stage = stage;
    }

    /// Ends the bring-up with `result`.
    fn end(&mut self, result: Result<(), Error>)
        requires
            old(self).task.wf(),
        ensures
            *final(self) == old(self).ended(result),
    {
        self.stage = InitStage::Finished { result };
    }

    /// Programs the clock for `target` and waits at `stage` for the
    /// controller to go idle, or ends the bring-up where no divisor gives
    /// that clock.
    fn retarget(&mut self, target: u32, stage: InitStage)
        requires
            old(self).task.wf(),
            !(stage is Finished),
        ensures
            *final(self) == old(self).retargeted(target, stage),
            final(self).task.wf(),
            !(final(self).stage is Finished) ==> final(self).task.spec_completion() is None
                && final(self).task.continues(final(self).spec_step_of(stage)),
    {
        match Sdmmc::clk_div(self.ker_ck, target) {
            Ok((divisor, clock)) => {
                self.divisor = divisor;
                self.clock = clock;
                self.go(stage);
            },
            Err(e) => {
                self.end(Err(e));
            },
        }
    }

    /// Goes on to the stage that follows one whose step ended with
    /// `outcome`.
    fn proceed(&mut self, outcome: Result<u32, Error>)
        requires
            old(self).steady(),
        ensures
            *final(self) == old(self).proceeded(outcome),
            final(self).wf(),
    {
        match self.stage {
            InitStage::Finished { .. } => {},
            InitStage::Query { stage } => {
                self.after_query(stage, outcome);
            },
            InitStage::ScrBlockLen
            | InitStage::ScrAppPrefix
            | InitStage::ScrSetup
            | InitStage::ScrCommand
            | InitStage::ScrReceive
            | InitStage::WidthAppPrefix
            | InitStage::WidthSwitch
            | InitStage::WidthIdle
            | InitStage::WidthApply
            | InitStage::ClockIdle
            | InitStage::ClockApply => match outcome {
                Err(e) => {
                    self.end(Err(e));
                },
                Ok(_) => {
                    self.configure();
                },
            },
            InitStage::SwitchSetup
            | InitStage::SwitchCommand
            | InitStage::SwitchReceive
            | InitStage::SwitchSettle
            | InitStage::FinalClockIdle
            | InitStage::FinalClockApply
            | InitStage::Verify
            | InitStage::VerifyState => match outcome {
                Err(e) => {
                    self.end(Err(e));
                },
                Ok(word) => {
                    self.negotiate(word);
                },
            },
            _ => match outcome {
                Err(e) => {
                    if self.tolerates(e) {
                        self.identify(0);
                    } else {
                        self.end(Err(e));
                    }
                },
                Ok(word) => {
                    self.identify(word);
                },
            },
        }
    }

    /// Goes on from a stage of power-up, voltage negotiation or
    /// identification whose step ended well, with `word` read.
    fn identify(&mut self, word: u32)
        requires
            old(self).steady(),
            !old(self).in_configuration(),
            !old(self).in_negotiation(),
            !(old(self).stage is Query),
            !(old(self).stage is Finished),
        ensures
            *final(self) == old(self).identified(word),
            final(self).wf(),
    {
        match self.stage {
            InitStage::PowerOn => self.go(InitStage::GoIdle),
            InitStage::GoIdle => self.go(InitStage::IfCond),
            InitStage::IfCond => self.go(InitStage::IfCondEcho),
            InitStage::IfCondEcho => {
                if word == CHECK_PATTERN {
                    self.go(InitStage::AppPrefix);
                } else {
                    self.end(Err(Error::UnsupportedCardVersion));
                }
            },
            InitStage::AppPrefix => self.go(InitStage::OpCond),
            InitStage::OpCond => self.go(InitStage::OpCondResult),
            InitStage::OpCondResult => {
                let ocr: OCR = OCR(word);
                if ocr.is_busy() {
                    self.go(InitStage::AppPrefix);
                } else if !ocr.ccs() {
                    self.end(Err(Error::UnsupportedCardType));
                } else {
                    self.ocr = word;
                    self.go(InitStage::SendCid);
                }
            },
            InitStage::SendCid => self.go(InitStage::CidWord { register: 1 }),
            InitStage::CidWord { register } => {
                self.cid = shifted_in(self.cid, word);
                if register < 4 {
                    self.go(InitStage::CidWord { register: register + 1 });
                } else {
                    self.go(InitStage::SendRca);
                }
            },
            InitStage::SendRca => self.go(InitStage::RcaWord),
            InitStage::RcaWord => {
                self.rca = word >> 16u32;
                self.go(InitStage::SendCsd);
            },
            InitStage::SendCsd => self.go(InitStage::CsdWord { register: 1 }),
            InitStage::CsdWord { register } => {
                self.csd = shifted_in(self.csd, word);
                if register < 4 {
                    self.go(InitStage::CsdWord { register: register + 1 });
                } else {
                    self.go(InitStage::Select);
                }
            },
            InitStage::Select => self.go(InitStage::ScrBlockLen),
            _ => {},
        }
    }

    /// Goes on from a stage of configuration whose step ended well.
    fn configure(&mut self)
        requires
            old(self).steady(),
            old(self).in_configuration(),
        ensures
            *final(self) == old(self).configured(),
            final(self).wf(),
    {
        match self.stage {
            InitStage::ScrBlockLen => self.go(InitStage::ScrAppPrefix),
            InitStage::ScrAppPrefix => self.go(InitStage::ScrSetup),
            InitStage::ScrSetup => self.go(InitStage::ScrCommand),
            InitStage::ScrCommand => self.go(InitStage::ScrReceive),
            InitStage::ScrReceive => {
                let words: [u32; 16] = self.task.words();
                self.scr = scr_of(words[0], words[1]);
                self.width = negotiated_width(self.bus_width, SCR(self.scr));
                self.go(InitStage::WidthAppPrefix);
            },
            InitStage::WidthAppPrefix => self.go(InitStage::WidthSwitch),
            InitStage::WidthSwitch => self.go(InitStage::WidthIdle),
            InitStage::WidthIdle => self.go(InitStage::WidthApply),
            InitStage::WidthApply => self.retarget(
                first_target(self.freq),
                InitStage::ClockIdle,
            ),
            InitStage::ClockIdle => self.go(InitStage::ClockApply),
            InitStage::ClockApply => self.go(InitStage::Query { stage: QueryStage::BlockLen }),
            _ => {},
        }
    }

    /// Goes on from a stage of the negotiation of the signalling whose step
    /// ended well, with `word` read.
    fn negotiate(&mut self, word: u32)
        requires
            old(self).steady(),
            old(self).in_negotiation(),
        ensures
            *final(self) == old(self).negotiated(word),
            final(self).wf(),
    {
        match self.stage {
            InitStage::SwitchSetup => self.go(InitStage::SwitchCommand),
            InitStage::SwitchCommand => self.go(InitStage::SwitchReceive),
            InitStage::SwitchReceive => {
                self.selection = selection(self.task.words());
                self.go(InitStage::SwitchSettle);
            },
            InitStage::SwitchSettle => {
                self.signalling = selected_signalling(self.selection);
                if self.signalling == Signalling::SDR25 {
                    self.retarget(self.freq, InitStage::FinalClockIdle);
                } else {
                    self.end(Ok(()));
                }
            },
            InitStage::FinalClockIdle => self.go(InitStage::FinalClockApply),
            InitStage::FinalClockApply => self.go(InitStage::Verify),
            InitStage::Verify => self.go(InitStage::VerifyState),
            InitStage::VerifyState => {
                if card_state(word) == CardStatus::Transfer {
                    self.end(Ok(()));
                } else {
                    self.end(Err(Error::SignalingSwitchFailed));
                }
            },
            _ => {},
        }
    }

    /// Goes on from a stage of the query of the SD status.
    fn after_query(&mut self, stage: QueryStage, outcome: Result<u32, Error>)
        requires
            old(self).steady(),
            old(self).stage == (InitStage::Query { stage }),
        ensures
            *final(self) == old(self).queried(stage, outcome),
            final(self).wf(),
    {
        match outcome {
            Err(error) => self.end(Err(error)),
            Ok(_) => match stage.following() {
                Some(following) => self.go(InitStage::Query { stage: following }),
                None => {
                    self.status = self.task.words();
                    if self.freq > SDR12_CEILING {
                        self.go(InitStage::SwitchSetup);
                    } else {
                        self.end(Ok(()));
                    }
                },
            },
        }
    }
}

} // verus!
