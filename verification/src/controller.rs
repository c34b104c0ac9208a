//! The controller as the engine sees it: the accesses it may ask for and
//! what they return.
//!
//! A machine of the engine names one access at a time and is advanced with
//! the event that the access produced. Performing the access is the host's
//! part; the engine holds no register.

use vstd::prelude::*;
use crate::command::Cmd;
use crate::sdmmc::{BusWidth, Error};

verus! {

/// Power supply of the card.
#[derive(Copy, Clone, Debug, PartialEq, Eq, Structural)]
pub enum PowerCtrl {
    /// The clock to the card is stopped.
    Off,
    /// The card is clocked.
    On,
}

impl PowerCtrl {
    /// The value of the power control field.
    pub open spec fn spec_bits(self) -> u8 {
        match self {
            PowerCtrl::Off => 0,
            PowerCtrl::On => 3,
        }
    }

    /// The value of the power control field.
    #[verifier::when_used_as_spec(spec_bits)]
    pub fn bits(self) -> (r: u8)
        ensures
            r == self.spec_bits(),
    {
        match self {
            PowerCtrl::Off => 0,
            PowerCtrl::On => 3,
        }
    }
}

/// Transfer direction of the data path.
#[derive(Copy, Clone, Debug, PartialEq, Eq, Structural)]
pub enum Dir {
    CardToHost,
    HostToCard,
}

impl Dir {
    /// The value of the direction bit of the data control register: set
    /// for a transfer from the card.
    #[verifier::allow_in_spec]
    pub fn dtdir(self) -> bool
        returns
            (self == Dir::CardToHost),
    {
        match self {
            Dir::CardToHost => true,
            Dir::HostToCard => false,
        }
    }
}

/// The flags of the controller's status register that the engine reads.
#[derive(Copy, Clone, Debug, PartialEq, Eq, Structural)]
pub struct Status {
    /// Command response received, CRC check failed.
    pub ccrcfail: bool,
    /// Data block sent or received, CRC check failed.
    pub dcrcfail: bool,
    /// Command response timeout.
    pub ctimeout: bool,
    /// Data timeout.
    pub dtimeout: bool,
    /// Transmit FIFO underrun.
    pub txunderr: bool,
    /// Receive FIFO overrun.
    pub rxoverr: bool,
    /// Command response received, CRC check passed.
    pub cmdrend: bool,
    /// Command sent, no response required.
    pub cmdsent: bool,
    /// Data transfer ended.
    pub dataend: bool,
    /// Data block sent or received.
    pub dbckend: bool,
    /// Data path state machine active.
    pub dpsmact: bool,
    /// Command path state machine active.
    pub cpsmact: bool,
    /// Transmit FIFO half empty: at least eight words can be written.
    pub txfifohe: bool,
    /// Receive FIFO half full: at least eight words can be read.
    pub rxfifohf: bool,
    /// Receive FIFO empty.
    pub rxfifoe: bool,
}

impl Status {
    /// A status with every flag clear.
    pub open spec fn spec_clear() -> Status {
        Status {
            ccrcfail: false,
            dcrcfail: false,
            ctimeout: false,
            dtimeout: false,
            txunderr: false,
            rxoverr: false,
            cmdrend: false,
            cmdsent: false,
            dataend: false,
            dbckend: false,
            dpsmact: false,
            cpsmact: false,
            txfifohe: false,
            rxfifohf: false,
            rxfifoe: false,
        }
    }

    /// A status with every flag clear.
    pub fn clear() -> (r: Status)
        ensures
            r == Self::spec_clear(),
    {
        Status {
            ccrcfail: false,
            dcrcfail: false,
            ctimeout: false,
            dtimeout: false,
            txunderr: false,
            rxoverr: false,
            cmdrend: false,
            cmdsent: false,
            dataend: false,
            dbckend: false,
            dpsmact: false,
            cpsmact: false,
            txfifohe: false,
            rxfifohf: false,
            rxfifoe: false,
        }
    }

    /// Neither the command path nor the data path is active.
    pub open spec fn spec_idle(&self) -> bool {
        !self.dpsmact && !self.cpsmact
    }

    /// Neither the command path nor the data path is active.
    #[verifier::when_used_as_spec(spec_idle)]
    pub fn idle(&self) -> (r: bool)
        ensures
            r == self.spec_idle(),
    {
        !self.dpsmact && !self.cpsmact
    }
}

impl Default for Status {
    fn default() -> (r: Self)
        ensures
            r == Status::spec_clear(),
    {
        Status::clear()
    }
}

/// A choice among the sticky flags of the controller.
#[derive(Copy, Clone, Debug, PartialEq, Eq, Structural)]
pub struct Flags {
    /// Command response received, CRC check failed.
    pub ccrcfail: bool,
    /// Data block sent or received, CRC check failed.
    pub dcrcfail: bool,
    /// Command response timeout.
    pub ctimeout: bool,
    /// Data timeout.
    pub dtimeout: bool,
    /// Transmit FIFO underrun.
    pub txunderr: bool,
    /// Receive FIFO overrun.
    pub rxoverr: bool,
    /// Command response received, CRC check passed.
    pub cmdrend: bool,
    /// Command sent, no response required.
    pub cmdsent: bool,
    /// Data transfer ended.
    pub dataend: bool,
    /// Data transfer on hold.
    pub dhold: bool,
    /// Data block sent or received.
    pub dbckend: bool,
    /// Data transfer aborted.
    pub dabort: bool,
    /// SDIO interrupt received.
    pub sdioit: bool,
    /// DMA transfer error.
    pub idmate: bool,
    /// DMA buffer transfer complete.
    pub idmabtc: bool,
}

impl Flags {
    /// The flags that are cleared before a command is sent: those of the
    /// command path, and those with which a data transfer ends or fails.
    #[verifier::allow_in_spec]
    pub fn before_command() -> Flags
        returns
            (Flags {
                ccrcfail: true,
                dcrcfail: true,
                ctimeout: true,
                dtimeout: true,
                txunderr: true,
                rxoverr: true,
                cmdrend: true,
                cmdsent: true,
                dataend: true,
                dhold: false,
                dbckend: true,
                dabort: false,
                sdioit: true,
                idmate: false,
                idmabtc: false,
            }),
    {
        Flags {
            ccrcfail: true,
            dcrcfail: true,
            ctimeout: true,
            dtimeout: true,
            txunderr: true,
            rxoverr: true,
            cmdrend: true,
            cmdsent: true,
            dataend: true,
            dhold: false,
            dbckend: true,
            dabort: false,
            sdioit: true,
            idmate: false,
            idmabtc: false,
        }
    }

    /// The flags of the data path, which are cleared after a transfer.
    #[verifier::allow_in_spec]
    pub fn of_data_path() -> Flags
        returns
            (Flags {
                ccrcfail: false,
                dcrcfail: true,
                ctimeout: false,
                dtimeout: true,
                txunderr: true,
                rxoverr: true,
                cmdrend: false,
                cmdsent: false,
                dataend: true,
                dhold: true,
                dbckend: true,
                dabort: true,
                sdioit: false,
                idmate: true,
                idmabtc: true,
            }),
    {
        Flags {
            ccrcfail: false,
            dcrcfail: true,
            ctimeout: false,
            dtimeout: true,
            txunderr: true,
            rxoverr: true,
            cmdrend: false,
            cmdsent: false,
            dataend: true,
            dhold: true,
            dbckend: true,
            dabort: true,
            sdioit: false,
            idmate: true,
            idmabtc: true,
        }
    }
}

/// How the clock to the card is made from the kernel clock.
#[derive(Copy, Clone, Debug, PartialEq, Eq, Structural)]
pub struct ClockControl {
    /// The divisor.
    pub divisor: u16,
    /// The bus width.
    pub width: BusWidth,
    /// Whether the clock is stopped while the bus is idle.
    pub power_saving: bool,
    /// Whether data is changed on the rising edge of the clock.
    pub dephasing: bool,
    /// Whether the controller holds the clock when the FIFO cannot keep up.
    pub flow_control: bool,
}

impl ClockControl {
    /// The clock control of a session that has no card yet: the divisor
    /// given, one data line, no power saving, no dephasing, hardware flow
    /// control.
    #[verifier::allow_in_spec]
    pub fn initial(divisor: u16) -> ClockControl
        returns
            (ClockControl {
                divisor,
                width: BusWidth::One,
                power_saving: false,
                dephasing: false,
                flow_control: true,
            }),
    {
        ClockControl {
            divisor,
            width: BusWidth::One,
            power_saving: false,
            dephasing: false,
            flow_control: true,
        }
    }
}

/// One access to the controller, or the end of an operation.
#[derive(Copy, Clone, Debug)]
pub enum Action {
    /// Write the power control field.
    Power(PowerCtrl),
    /// Write the clock control register as a whole.
    ConfigureClock(ClockControl),
    /// Clear the sticky flags chosen, and no others.
    ClearFlags(Flags),
    /// Read the status register. Answered by [`Event::Status`].
    ReadStatus,
    /// Write the argument register, then the command register with the
    /// response length and index of `cmd`, the stop-transmission bit as
    /// given, and the command path enabled.
    SendCommand { cmd: Cmd, stop: bool },
    /// Read response register `register`, 1 to 4. Answered by
    /// [`Event::Word`].
    ReadResponse { register: u8 },
    /// Read whether double data rate signalling is on. Answered by
    /// [`Event::Flag`].
    ReadDdr,
    /// Write the data timeout in bus cycles and the length in bytes, then
    /// start the data path with blocks of two to the power of `block_size`
    /// bytes in the direction given.
    StartData { timeout: u32, length: u32, block_size: u8, direction: Dir },
    /// Write the bus width field of the clock control register.
    SetBusWidth(BusWidth),
    /// Write the divisor field of the clock control register.
    SetClockDivisor(u16),
    /// Read one word from the FIFO and hand it to the engine. Answered by
    /// [`Event::Word`].
    ReadFifo,
    /// Read one word from the FIFO and store it, low byte first, as word
    /// `word` of the buffer that the operation fills.
    FifoToBuffer { word: usize },
    /// Write word `word` of the buffer that the operation sends, read low
    /// byte first, to the FIFO.
    BufferToFifo { word: usize },
    /// Let `cycles` processor cycles pass.
    Delay { cycles: u32 },
    /// Nothing is left to do: the operation has ended with this result.
    Finished(Result<(), Error>),
}

/// What an access returned.
#[derive(Copy, Clone, Debug)]
pub enum Event {
    /// The write or the delay was performed.
    Performed,
    /// The status register as read.
    Status(Status),
    /// The word read from a response register or from the FIFO.
    Word(u32),
    /// The flag as read.
    Flag(bool),
}

impl Action {
    /// `event` is of the kind that this access produces. An operation that
    /// has ended takes no event.
    pub open spec fn answered_by(self, event: Event) -> bool {
        match self {
            Action::ReadStatus => event is Status,
            Action::ReadResponse { .. } | Action::ReadFifo => event is Word,
            Action::ReadDdr => event is Flag,
            Action::Finished(_) => false,
            _ => event is Performed,
        }
    }
}

} // verus!
