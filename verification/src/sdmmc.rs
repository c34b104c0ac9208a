//! SD MultiMediaCard interface (SDMMC).
//!
//! For SDHC / SDXC / SDUC cards. SDSC cards are not supported.

use vstd::prelude::*;
use crate::blockio::{spec_whole_blocks, whole_blocks, BlockRead, BlockWrite};
use crate::bringup::{CardInit, SDR12_CEILING};
use crate::controller::{Action, ClockControl, Event, PowerCtrl};
use crate::sd_registers::{SDStatus, CID, CSD, OCR, SCR};
use crate::task::Task;

verus! {

/// The number of lines used on the SDMMC bus.
#[derive(Copy, Clone, Debug, PartialEq, Eq, Structural)]
pub enum BusWidth {
    One,
    Four,
    Eight,
}

impl BusWidth {
    /// The number of data lines.
    pub open spec fn spec_lines(self) -> u32 {
        match self {
            BusWidth::One => 1,
            BusWidth::Four => 4,
            BusWidth::Eight => 8,
        }
    }

    /// The value of the bus width field of the clock control register.
    #[verifier::allow_in_spec]
    pub fn widbus(self) -> u8
        returns
            (match self {
                BusWidth::One => 0u8,
                BusWidth::Four => 1u8,
                BusWidth::Eight => 2u8,
            }),
    {
        match self {
            BusWidth::One => 0,
            BusWidth::Four => 1,
            BusWidth::Eight => 2,
        }
    }

    /// The number of data lines.
    #[verifier::when_used_as_spec(spec_lines)]
    pub fn lines(self) -> (r: u32)
        ensures
            r == self.spec_lines(),
    {
        match self {
            BusWidth::One => 1,
            BusWidth::Four => 4,
            BusWidth::Eight => 8,
        }
    }
}

/// Marks a pin that can carry the clock of controller `SDMMC`.
pub trait PinClk<SDMMC> {

}

/// Marks a pin that can carry the command line of controller `SDMMC`.
pub trait PinCmd<SDMMC> {

}

/// Marks a pin that can carry data line 0 of controller `SDMMC`.
pub trait PinD0<SDMMC> {

}

/// Marks a pin that can carry data line 1 of controller `SDMMC`.
pub trait PinD1<SDMMC> {

}

/// Marks a pin that can carry data line 2 of controller `SDMMC`.
pub trait PinD2<SDMMC> {

}

/// Marks a pin that can carry data line 3 of controller `SDMMC`.
pub trait PinD3<SDMMC> {

}

/// Marks a pin that can carry data line 4 of controller `SDMMC`.
pub trait PinD4<SDMMC> {

}

/// Marks a pin that can carry data line 5 of controller `SDMMC`.
pub trait PinD5<SDMMC> {

}

/// Marks a pin that can carry data line 6 of controller `SDMMC`.
pub trait PinD6<SDMMC> {

}

/// Marks a pin that can carry data line 7 of controller `SDMMC`.
pub trait PinD7<SDMMC> {

}

/// A set of pins that wires controller `SDMMC` to a card: the clock, the
/// command line, and one, four or eight data lines.
pub trait Pins<SDMMC> {
    /// The bus width that the set wires.
    const BUSWIDTH: BusWidth;
}

impl<SDMMC, CLK, CMD, D0, D1, D2, D3, D4, D5, D6, D7> Pins<SDMMC> for (
    CLK,
    CMD,
    D0,
    D1,
    D2,
    D3,
    D4,
    D5,
    D6,
    D7,
) where
    CLK: PinClk<SDMMC>,
    CMD: PinCmd<SDMMC>,
    D0: PinD0<SDMMC>,
    D1: PinD1<SDMMC>,
    D2: PinD2<SDMMC>,
    D3: PinD3<SDMMC>,
    D4: PinD4<SDMMC>,
    D5: PinD5<SDMMC>,
    D6: PinD6<SDMMC>,
    D7: PinD7<SDMMC>,
 {
    const BUSWIDTH: BusWidth = BusWidth::Eight;
}

impl<SDMMC, CLK, CMD, D0, D1, D2, D3> Pins<SDMMC> for (CLK, CMD, D0, D1, D2, D3) where
    CLK: PinClk<SDMMC>,
    CMD: PinCmd<SDMMC>,
    D0: PinD0<SDMMC>,
    D1: PinD1<SDMMC>,
    D2: PinD2<SDMMC>,
    D3: PinD3<SDMMC>,
 {
    const BUSWIDTH: BusWidth = BusWidth::Four;
}

impl<SDMMC, CLK, CMD, D0> Pins<SDMMC> for (CLK, CMD, D0) where
    CLK: PinClk<SDMMC>,
    CMD: PinCmd<SDMMC>,
    D0: PinD0<SDMMC>,
 {
    const BUSWIDTH: BusWidth = BusWidth::One;
}

/// Types of SD Card.
#[derive(Debug, Copy, Clone, PartialEq, Eq, Structural)]
#[non_exhaustive]
pub enum CardType {
    /// Standard Capacity (< 2Gb)
    SDSC,
    /// High capacity (< 32Gb)
    SDHC,
}

impl Default for CardType {
    fn default() -> (r: Self)
        ensures
            r == CardType::SDSC,
    {
        CardType::SDSC
    }
}

/// The signalling scheme used on the SDMMC bus.
#[non_exhaustive]
#[derive(Debug, Copy, Clone, PartialEq, Eq, Structural)]
pub enum Signalling {
    SDR12,
    SDR25,
    SDR50,
    SDR104,
    DDR50,
}

impl Default for Signalling {
    fn default() -> (r: Self)
        ensures
            r == Signalling::SDR12,
    {
        Signalling::SDR12
    }
}

/// Errors.
#[non_exhaustive]
#[derive(Debug, Copy, Clone, PartialEq, Eq, Structural)]
pub enum Error {
    /// The controller flagged a command or data timeout.
    Timeout,
    /// A polling bound ran out before the controller flagged anything.
    SoftwareTimeout,
    /// The card did not echo the check pattern of the interface condition.
    UnsupportedCardVersion,
    /// The card is of standard capacity.
    UnsupportedCardType,
    /// The CRC of a command response failed.
    Crc,
    /// The CRC of a data block failed.
    DataCrcFail,
    /// The FIFO overran on receive, or ran empty on transmit.
    RxOverFlow,
    /// No card has been brought up.
    NoCard,
    /// The divisor cannot bring the kernel clock down to the target.
    BadClock,
    /// The card took a faster signalling mode and then left the transfer state.
    SignalingSwitchFailed,
}

/// SD Card.
#[derive(Clone, Copy, Debug)]
pub struct Card {
    /// The type of this card
    pub card_type: CardType,
    /// Operation Conditions Register
    pub ocr: OCR,
    /// Relative Card Address
    pub rca: u32,
    /// Card ID
    pub cid: CID,
    /// Card Specific Data
    pub csd: CSD,
    /// SD CARD Configuration Register
    pub scr: SCR,
    /// SD Status
    pub status: SDStatus,
}

impl Card {
    /// Size in bytes: each block counted by the CSD stands for 512 KiB.
    pub fn size(&self) -> (r: u64)
        ensures
            r == self.csd.spec_block_count() * 512 * 1024,
    {
        proof {
            self.csd.lemma_block_count_bound();
        }
        (self.csd.block_count() as u64) * 512 * 1024
    }
}

impl Default for Card {
    fn default() -> (r: Self)
        ensures
            r.card_type == CardType::SDSC,
            r.ocr == OCR(0),
            r.rca == 0,
            r.cid.raw() == 0,
            r.csd == CSD(0),
            r.scr == SCR(0),
            forall|i: int| 0 <= i < 16 ==> r.status.word(i) == 0,
    {
        Card {
            card_type: CardType::default(),
            ocr: OCR::default(),
            rca: 0,
            cid: CID::default(),
            csd: CSD::default(),
            scr: SCR::default(),
            status: SDStatus::default(),
        }
    }
}

/// The quotient of `kernel` by `target`, rounded up.
pub open spec fn ratio(kernel: u32, target: u32) -> int
    recommends
        target > 0,
{
    (kernel + target - 1) / (target as int)
}

/// The divisor register value and the resulting bus clock for a kernel clock
/// and a target, both in hertz. With a ratio of at most 1 the kernel clock is
/// passed on undivided; with a ratio of up to 2046 it is divided by twice the
/// register value, which is half the ratio, rounded up. No other ratio can
/// be programmed, nor can a target of zero be met.
pub open spec fn clock_divisor(kernel: u32, target: u32) -> Result<(u16, u32), Error> {
    if target == 0 {
        Err(Error::BadClock)
    } else if ratio(kernel, target) <= 1 {
        Ok((0u16, kernel))
    } else if ratio(kernel, target) <= 2046 {
        let divisor = (ratio(kernel, target) + 1) / 2;
        Ok((divisor as u16, (kernel as int / (2 * divisor)) as u32))
    } else {
        Err(Error::BadClock)
    }
}

/// The bus clock that the divisor gives never exceeds the target, and the
/// divisor fits its field of ten bits. No divisor is found exactly where the
/// target is zero or the ratio is beyond 2046.
pub proof fn lemma_clock_within_target(kernel: u32, target: u32)
    ensures
        clock_divisor(kernel, target) matches Ok((divisor, clock)) ==> clock <= target && divisor
            <= 1023,
        clock_divisor(kernel, target) is Err <==> target == 0 || ratio(kernel, target) > 2046,
        clock_divisor(kernel, target) matches Err(e) ==> e == Error::BadClock,
{
    if target > 0 {
        let x = ratio(kernel, target);
        assert(x * target >= kernel && x >= 0) by (nonlinear_arith)
            requires
                target > 0,
                x == (kernel + target - 1) / (target as int),
        ;
        if x <= 1 {
            assert(kernel <= target) by (nonlinear_arith)
                requires
                    x * target >= kernel,
                    0 <= x <= 1,
                    target > 0,
            ;
        } else if x <= 2046 {
            let divisor = (x + 1) / 2;
            let clock = kernel as int / (2 * divisor);
            assert(0 <= clock <= target) by (nonlinear_arith)
                requires
                    x * target >= kernel,
                    2 * divisor >= x,
                    x >= 2,
                    clock == kernel as int / (2 * divisor),
            ;
        }
    }
}

/// The bus clock during identification, in hertz.
pub const ID_CLOCK: u32 = 400_000;

/// What a session is doing.
#[derive(Copy, Clone, Debug)]
pub enum Operation {
    /// Set-up of the controller: the clock control register is to be
    /// written.
    SetupClock { task: Task },
    /// Set-up of the controller: the card is to be powered off.
    SetupPower { task: Task },
    /// A card is brought up.
    Init(CardInit),
    /// Blocks are read.
    Read(BlockRead),
    /// A block is written.
    Write(BlockWrite),
    /// Nothing: the last operation has ended with this result.
    Ended { result: Result<(), Error> },
}

/// What a host may do with a session between two bring-ups.
pub enum Call {
    /// Hand over what the pending access returned.
    Advance(Event),
    /// Start the read of one block.
    ReadBlock { address: u32 },
    /// Start the read of the blocks that a buffer of `length` bytes holds.
    ReadBlocks { address: u32, length: usize },
    /// Start the write of one block.
    WriteBlock { address: u32 },
}

/// A session with one controller and the card behind it.
///
/// The session holds no register. An operation is started by the method of
/// its name; the host then performs [`pending`](Sdmmc::pending) and hands
/// what it returned to [`advance`](Sdmmc::advance), until `pending` is
/// [`Action::Finished`].
#[derive(Copy, Clone, Debug)]
pub struct Sdmmc {
    /// SDMMC kernel clock, in hertz.
    pub ker_ck: u32,
    /// AHB clock, in hertz.
    pub hclk: u32,
    /// Data bus width that the host has wired.
    pub bus_width: BusWidth,
    /// Current clock to card, in hertz.
    pub clock: u32,
    /// Current signalling scheme to card.
    pub signalling: Signalling,
    /// The card, once one has been brought up.
    pub card: Option<Card>,
    /// What the session is doing.
    pub op: Operation,
}

impl Sdmmc {
    /// The session is one that the engine can hold: what it is doing is well
    /// formed and under way, and each step of the set-up is a single write.
    /// During a bring-up the session has no card and shows the clock and the
    /// signalling of the bring-up.
    pub open spec fn wf(self) -> bool {
        match self.op {
            Operation::SetupClock { task } | Operation::SetupPower { task } => task.wf()
                && task.spec_completion() is None && task is Perform,
            Operation::Init(init) => {
                &&& init.wf()
                &&& !(init.stage is Finished)
                &&& init.ker_ck == self.ker_ck
                &&& init.clock == self.clock
                &&& init.signalling == self.signalling
                &&& self.card is None
            },
            Operation::Read(read) => read.wf() && !(read.stage is Finished),
            Operation::Write(write) => write.wf() && !(write.stage is Finished)
                && self.card is Some,
            Operation::Ended { .. } => true,
        }
    }

    /// The session of a controller clocked with `ker_ck`, before the first
    /// access of its set-up: without a card, at the identification clock.
    pub open spec fn spec_new(bus_width: BusWidth, ker_ck: u32, hclk: u32) -> Sdmmc {
        let (divisor, clock) = clock_divisor(ker_ck, ID_CLOCK)->Ok_0;
        Sdmmc {
            ker_ck,
            hclk,
            bus_width,
            clock,
            signalling: Signalling::SDR12,
            card: None,
            op: Operation::SetupClock {
                task: Task::spec_perform(Action::ConfigureClock(ClockControl::initial(divisor))),
            },
        }
    }

    /// The access that the session waits for, or the end of what it was
    /// doing.
    pub open spec fn spec_pending(&self) -> Action {
        match self.op {
            Operation::SetupClock { task } | Operation::SetupPower { task } => task.spec_pending(),
            Operation::Init(init) => init.spec_pending(),
            Operation::Read(read) => read.spec_pending(),
            Operation::Write(write) => write.spec_pending(),
            Operation::Ended { result } => Action::Finished(result),
        }
    }

    /// The result of the last operation, once it has ended.
    pub open spec fn spec_result(&self) -> Option<Result<(), Error>> {
        match self.op {
            Operation::Ended { result } => Some(result),
            _ => None,
        }
    }

    /// The session with its operation ended.
    pub open spec fn ended(self, result: Result<(), Error>) -> Sdmmc {
        Sdmmc { op: Operation::Ended { result }, ..self }
    }

    /// The session after a bring-up has gone on to `init`. The session shows
    /// the clock and the signalling of the bring-up at every step. It has a
    /// card once the bring-up has ended well, and none if it failed.
    pub open spec fn brought_up(self, init: CardInit) -> Sdmmc {
        let shown = Sdmmc { clock: init.clock, signalling: init.signalling, ..self };
        match init.spec_result() {
            Some(Ok(_)) => Sdmmc { card: Some(init.spec_card()), ..shown }.ended(Ok(())),
            Some(Err(e)) => Sdmmc { card: None, ..shown }.ended(Err(e)),
            None => Sdmmc { op: Operation::Init(init), ..shown },
        }
    }

    /// The session after a write has gone on to `write`. A write that ended
    /// well has read the SD status, which the card then holds.
    pub open spec fn written(self, write: BlockWrite) -> Sdmmc {
        match (write.spec_result(), self.card) {
            (Some(Ok(_)), Some(card)) => Sdmmc {
                card: Some(Card { status: SDStatus::spec_new(write.status), ..card }),
                ..self
            }.ended(Ok(())),
            (Some(result), _) => self.ended(result),
            (None, _) => Sdmmc { op: Operation::Write(write), ..self },
        }
    }

    /// The session after `event`. An event that does not answer the pending
    /// access changes nothing.
    pub open spec fn next(self, event: Event) -> Sdmmc {
        match self.op {
            Operation::SetupClock { task } => if task.next(event).spec_completion() is Some {
                Sdmmc {
                    op: Operation::SetupPower {
                        task: Task::spec_perform(Action::Power(PowerCtrl::Off)),
                    },
                    ..self
                }
            } else {
                Sdmmc { op: Operation::SetupClock { task: task.next(event) }, ..self }
            },
            Operation::SetupPower { task } => if task.next(event).spec_completion() is Some {
                self.ended(Ok(()))
            } else {
                Sdmmc { op: Operation::SetupPower { task: task.next(event) }, ..self }
            },
            Operation::Init(init) => self.brought_up(init.next(event)),
            Operation::Read(read) => match read.next(event).spec_result() {
                Some(result) => self.ended(result),
                None => Sdmmc { op: Operation::Read(read.next(event)), ..self },
            },
            Operation::Write(write) => self.written(write.next(event)),
            Operation::Ended { .. } => self,
        }
    }

    /// The session with the bring-up of a card to `freq` hertz started. The
    /// card that the session had is gone.
    pub open spec fn init_started(self, freq: u32) -> Sdmmc {
        Sdmmc {
            card: None,
            op: Operation::Init(
                CardInit::spec_new(self.ker_ck, freq, self.bus_width, self.clock, self.signalling),
            ),
            ..self
        }
    }

    /// The session with the read of `blocks` blocks from `address` started,
    /// or ended at once where the session has no card.
    pub open spec fn read_started(self, address: u32, blocks: u32, multiple: bool) -> Sdmmc {
        match self.card {
            Some(_) => Sdmmc {
                op: Operation::Read(BlockRead::spec_new(address, blocks, multiple)),
                ..self
            },
            None => self.ended(Err(Error::NoCard)),
        }
    }

    /// The session with the write of a block to `address` started, or ended
    /// at once where the session has no card.
    pub open spec fn write_started(self, address: u32) -> Sdmmc {
        match self.card {
            Some(card) => Sdmmc {
                op: Operation::Write(BlockWrite::spec_new(address, card.rca)),
                ..self
            },
            None => self.ended(Err(Error::NoCard)),
        }
    }

    /// The card is the one that `other` has: every register but the SD
    /// status, which status queries refresh, is the same.
    pub open spec fn same_card(self, other: Sdmmc) -> bool {
        match (self.card, other.card) {
            (Some(mine), Some(theirs)) => mine.card_type == theirs.card_type && mine.ocr
                == theirs.ocr && mine.rca == theirs.rca && mine.cid == theirs.cid && mine.csd
                == theirs.csd && mine.scr == theirs.scr,
            (None, None) => true,
            _ => false,
        }
    }

    /// Whether the AHB clock is fast enough for the bus: more than three
    /// thirty-seconds of the bits that the bus moves in a second.
    pub open spec fn spec_ahb_sufficient(&self, width: BusWidth) -> bool {
        self.hclk > 3 * (self.clock * width.spec_lines()) / 32
    }

    /// The session after `call`.
    pub open spec fn after(self, call: Call) -> Sdmmc {
        match call {
            Call::Advance(event) => self.next(event),
            Call::ReadBlock { address } => self.read_started(address, 1, false),
            Call::ReadBlocks { address, length } => match spec_whole_blocks(length) {
                Some(blocks) => self.read_started(address, blocks, true),
                None => self,
            },
            Call::WriteBlock { address } => self.write_started(address),
        }
    }

    /// The session after `calls`, made one after the other.
    pub open spec fn after_all(self, calls: Seq<Call>) -> Sdmmc
        decreases calls.len(),
    {
        if calls.len() == 0 {
            self
        } else {
            self.after_all(calls.drop_last()).after(calls.last())
        }
    }

    /// A well-formed session stays well formed, whatever the event.
    pub proof fn lemma_next_wf(self, event: Event)
        requires
            self.wf(),
        ensures
            self.next(event).wf(),
    {
        match self.op {
            Operation::SetupClock { task } | Operation::SetupPower { task } => {
                task.lemma_next_wf(event);
            },
            Operation::Init(init) => {
                init.lemma_next_wf(event);
            },
            Operation::Read(read) => {
                read.lemma_next_wf(event);
            },
            Operation::Write(write) => {
                write.lemma_next_wf(event);
            },
            Operation::Ended { .. } => {},
        }
    }

    /// How a bring-up leaves the session. While it is under way, and when
    /// it has failed, the session has no card. When it has ended well the
    /// session has the card that was read, at a clock no faster than the
    /// one asked for; and where that is beyond SDR12 and the card has not
    /// taken SDR25, at a clock no faster than SDR12 allows.
    pub proof fn lemma_bring_up(self, event: Event)
        requires
            self.wf(),
            self.op is Init,
        ensures
            ({
                let init = self.op->Init_0;
                let after = self.next(event);
                &&& after.spec_result() matches Some(Ok(_)) ==> {
                    &&& after.card == Some(init.next(event).spec_card())
                    &&& after.clock <= init.freq
                    &&& init.freq > SDR12_CEILING && after.signalling != Signalling::SDR25
                        ==> after.clock <= SDR12_CEILING
                }
                &&& !(after.spec_result() matches Some(Ok(_))) ==> after.card is None
                &&& after.spec_result() is None ==> after.op is Init
            }),
    {
        let init = self.op->Init_0;
        init.lemma_next_wf(event);
        if init.next(event).spec_result() == Some(Ok::<(), Error>(())) {
            init.next(event).lemma_settled_clock();
        }
    }

    /// An event of an operation other than a bring-up leaves the session
    /// the card that it had: a write refreshes the SD status, and nothing
    /// else of the card changes. Nor does such an event start a bring-up.
    pub proof fn lemma_card_kept(self, event: Event)
        requires
            !(self.op is Init),
        ensures
            self.next(event).same_card(self),
            !(self.op is Write) ==> self.next(event).card == self.card,
            !(self.next(event).op is Init),
    {
    }

    /// From one bring-up to the next the session has the same card: no
    /// event and no start of a read or of a write changes anything of it but
    /// the SD status.
    pub proof fn lemma_card_identity(self, calls: Seq<Call>)
        requires
            !(self.op is Init),
        ensures
            self.after_all(calls).same_card(self),
            !(self.after_all(calls).op is Init),
        decreases calls.len(),
    {
        if calls.len() > 0 {
            let before = self.after_all(calls.drop_last());
            self.lemma_card_identity(calls.drop_last());
            match calls.last() {
                Call::Advance(event) => {
                    before.lemma_card_kept(event);
                },
                _ => {},
            }
        }
    }

    /// Calculate clock divisor. Returns a SDMMC_CK less than or equal to
    /// `sdmmc_ck` in Hertz.
    ///
    /// Returns `(clk_div, clk_f)`, where `clk_div` is the divisor register
    /// value and `clk_f` is the resulting new clock frequency.
    pub fn clk_div(ker_ck: u32, sdmmc_ck: u32) -> (r: Result<(u16, u32), Error>)
        ensures
            r == clock_divisor(ker_ck, sdmmc_ck),
            r matches Ok((_, clock)) ==> clock <= sdmmc_ck,
            r matches Ok((divisor, _)) ==> divisor <= 1023,
            r is Err <==> sdmmc_ck == 0 || ratio(ker_ck, sdmmc_ck) > 2046,
            r matches Err(e) ==> e == Error::BadClock,
    {
        if sdmmc_ck == 0 {
            return Err(Error::BadClock);
        }
        proof {
            lemma_clock_within_target(ker_ck, sdmmc_ck);
        }
        let x: u64 = (ker_ck as u64 + sdmmc_ck as u64 - 1) / (sdmmc_ck as u64);
        if x <= 1 {
            Ok((0, ker_ck))
        } else if x <= 2046 {
            let divisor: u64 = (x + 1) / 2;
            let clock: u64 = (ker_ck as u64) / (divisor * 2);
            Ok((divisor as u16, clock as u32))
        } else {
            Err(Error::BadClock)
        }
    }

    /// Creates the session of a controller whose kernel clock runs at
    /// `ker_ck` hertz and whose AHB clock runs at `hclk` hertz, with the
    /// data lines of `bus_width` wired. Initially the bus is clocked at no
    /// more than 400 kHz, so that SD cards can be initialised. The set-up
    /// of the controller is the first operation of the session.
    #[verifier::when_used_as_spec(spec_new)]
    pub fn new(bus_width: BusWidth, ker_ck: u32, hclk: u32) -> (r: Sdmmc)
        requires
            clock_divisor(ker_ck, ID_CLOCK) is Ok,
        ensures
            r == Self::spec_new(bus_width, ker_ck, hclk),
            r.wf(),
            r.clock <= ID_CLOCK,
    {
        let (divisor, clock) = match Self::clk_div(ker_ck, ID_CLOCK) {
            Ok(found) => found,
            Err(_) => vstd::pervasive::unreached(),
        };
        Sdmmc {
            ker_ck,
            hclk,
            bus_width,
            clock,
            signalling: Signalling::default(),
            card: None,
            op: Operation::SetupClock {
                task: Task::perform(Action::ConfigureClock(ClockControl::initial(divisor))),
            },
        }
    }

    /// Initializes card (if present) and sets the bus at the specified
    /// frequency: starts the bring-up.
    pub fn init_card(&mut self, freq: u32)
        requires
            old(self).bus_width != BusWidth::Eight,
        ensures
            *final(self) == old(self).init_started(freq),
            final(self).wf(),
    {
        self.card = None;
        self.op = Operation::Init(
            CardInit::new(self.ker_ck, freq, self.bus_width, self.clock, self.signalling),
        );
    }

    /// Get a reference to the initialized card.
    ///
    /// # Errors
    ///
    /// Returns Error::NoCard if no bring-up has ended well since the session
    /// was created or the last bring-up was started.
    pub fn card(&self) -> (r: Result<&Card, Error>)
        ensures
            match self.card {
                Some(card) => r == Ok::<&Card, Error>(&card),
                None => r == Err::<&Card, Error>(Error::NoCard),
            },
    {
        match &self.card {
            Some(card) => Ok(card),
            None => Err(Error::NoCard),
        }
    }

    /// Get the current SDMMC bus clock, in hertz.
    pub fn clock(&self) -> (r: u32)
        ensures
            r == self.clock,
    {
        self.clock
    }

    /// Read block from card: starts the read of one block into a buffer of
    /// 512 bytes.
    ///
    /// `address` is the block address.
    pub fn read_block(&mut self, address: u32)
        ensures
            *final(self) == old(self).read_started(address, 1, false),
            final(self).wf(),
    {
        match self.card {
            Some(_) => {
                self.op = Operation::Read(BlockRead::new(address, 1, false));
            },
            None => {
                self.op = Operation::Ended { result: Err(Error::NoCard) };
            },
        }
    }

    /// Read multiple blocks from card: starts the read of as many blocks
    /// as a buffer of `length` bytes holds. The length of the buffer must
    /// be multiple of 512.
    ///
    /// `address` is the block address.
    pub fn read_blocks(&mut self, address: u32, length: usize)
        requires
            whole_blocks(length) is Some,
        ensures
            *final(self) == old(self).read_started(address, whole_blocks(length)->Some_0, true),
            final(self).wf(),
    {
        match self.card {
            Some(_) => {
                let blocks: u32 = match whole_blocks(length) {
                    Some(blocks) => blocks,
                    None => vstd::pervasive::unreached(),
                };
                self.op = Operation::Read(BlockRead::new(address, blocks, true));
            },
            None => {
                self.op = Operation::Ended { result: Err(Error::NoCard) };
            },
        }
    }

    /// Write block to card: starts the write of one block from a buffer of
    /// 512 bytes.
    pub fn write_block(&mut self, address: u32)
        ensures
            *final(self) == old(self).write_started(address),
            final(self).wf(),
    {
        match self.card {
            Some(card) => {
                self.op = Operation::Write(BlockWrite::new(address, card.rca));
            },
            None => {
                self.op = Operation::Ended { result: Err(Error::NoCard) };
            },
        }
    }

    /// The access to perform next, or the end of the operation.
    #[verifier::when_used_as_spec(spec_pending)]
    pub fn pending(&self) -> (r: Action)
        ensures
            r == self.spec_pending(),
    {
        match self.op {
            Operation::SetupClock { task } | Operation::SetupPower { task } => task.pending(),
            Operation::Init(init) => init.pending(),
            Operation::Read(read) => read.pending(),
            Operation::Write(write) => write.pending(),
            Operation::Ended { result } => Action::Finished(result),
        }
    }

    /// The result of the last operation, once it has ended.
    #[verifier::when_used_as_spec(spec_result)]
    pub fn result(&self) -> (r: Option<Result<(), Error>>)
        ensures
            r == self.spec_result(),
    {
        match self.op {
            Operation::Ended { result } => Some(result),
            _ => None,
        }
    }

    /// Takes in what the pending access returned.
    pub fn advance(&mut self, event: Event)
        requires
            old(self).wf(),
        ensures
            *final(self) == old(self).next(event),
            final(self).wf(),
    {
        match self.op {
            Operation::SetupClock { task } => {
                let mut task = task;
                task.advance(event);
                if task.completion().is_some() {
                    self.op = Operation::SetupPower {
                        task: Task::perform(Action::Power(PowerCtrl::Off)),
                    };
                } else {
                    self.op = Operation::SetupClock { task };
                }
            },
            Operation::SetupPower { task } => {
                let mut task = task;
                task.advance(event);
                if task.completion().is_some() {
                    self.op = Operation::Ended { result: Ok(()) };
                } else {
                    self.op = Operation::SetupPower { task };
                }
            },
            Operation::Init(init) => {
                let mut init = init;
                init.advance(event);
                self.clock = init.clock;
                self.signalling = init.signalling;
                match init.result() {
                    Some(Ok(_)) => {
                        self.card = Some(init.card());
                        self.op = Operation::Ended { result: Ok(()) };
                    },
                    Some(Err(e)) => {
                        self.card = None;
                        self.op = Operation::Ended { result: Err(e) };
                    },
                    None => {
                        self.op = Operation::Init(init);
                    },
                }
            },
            Operation::Read(read) => {
                let mut read = read;
                read.advance(event);
                match read.result() {
                    Some(result) => {
                        self.op = Operation::Ended { result };
                    },
                    None => {
                        self.op = Operation::Read(read);
                    },
                }
            },
            Operation::Write(write) => {
                let mut write = write;
                write.advance(event);
                match (write.result(), self.card) {
                    (Some(Ok(_)), Some(card)) => {
                        let mut card = card;
                        card.status = SDStatus::new(write.status);
                        self.card = Some(card);
                        self.op = Operation::Ended { result: Ok(()) };
                    },
                    (Some(result), _) => {
                        self.op = Operation::Ended { result };
                    },
                    (None, _) => {
                        self.op = Operation::Write(write);
                    },
                }
            },
            Operation::Ended { .. } => {},
        }
    }

    /// Whether the AHB clock is fast enough for a bus of `width` at the
    /// current clock.
    #[verifier::when_used_as_spec(spec_ahb_sufficient)]
    pub fn ahb_sufficient(&self, width: BusWidth) -> (r: bool)
        ensures
            r == self.spec_ahb_sufficient(width),
    {
        let lines: u64 = width.lines() as u64;
        let clock: u64 = self.clock as u64;
        assert(clock * lines <= 0xFFFF_FFFF * 8) by (nonlinear_arith)
            requires
                clock <= 0xFFFF_FFFF,
                lines <= 8,
        ;
        let bandwidth: u64 = clock * lines;
        (self.hclk as u64) > 3 * bandwidth / 32
    }
}

} // verus!
