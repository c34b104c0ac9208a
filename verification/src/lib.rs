//! Driver core for an SD/MMC card controller.
//!
//! The crate has two parts. The register decoders ([`sd_registers`]) turn
//! the raw words of a card's registers into typed metadata. The protocol
//! engine brings a card up ([`bringup`]), reads and writes blocks
//! ([`blockio`]), and under both dispatches commands ([`command`]) and moves
//! data through the FIFO ([`datapath`]).
//!
//! The engine never touches hardware and never waits. Every operation is a
//! machine that names the next access to the controller ([`Action`]) and is
//! advanced with what the access returned ([`Event`]). The host runs the
//! loop, on [`Sdmmc`], the session with one controller:
//!
//! 1. start an operation, for example with [`Sdmmc::init_card`];
//! 2. perform [`Sdmmc::pending`] on the controller;
//! 3. hand the result to [`Sdmmc::advance`];
//! 4. go back to 2, until the pending action is [`Action::Finished`].
//!
//! Waiting for the controller is therefore the host's part: a machine
//! asks for the status again for as long as the protocol says so, and the
//! host may stop asking when it has waited long enough.

pub mod bits;
pub mod blockio;
pub mod bringup;
pub mod command;
pub mod controller;
pub mod datapath;
pub mod query;
pub mod sd_registers;
pub mod sdmmc;
pub mod task;

pub use controller::{Action, ClockControl, Dir, Event, Flags, PowerCtrl, Status};
pub use sd_registers::{SDStatus, CID, CSD, OCR, SCR};
pub use sdmmc::{
    BusWidth, Card, CardType, Error, PinClk, PinCmd, PinD0, PinD1, PinD2, PinD3, PinD4, PinD5, PinD6,
    PinD7, Pins, Sdmmc, Signalling,
};
