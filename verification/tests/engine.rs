use std::collections::{HashMap, VecDeque};

use stm32h7_sdmmc::bits::{load_word, store_word};
use stm32h7_sdmmc::blockio::{whole_blocks, BlockWrite, WriteStage};
use stm32h7_sdmmc::bringup::selected_signalling;
use stm32h7_sdmmc::command::Cmd;
use stm32h7_sdmmc::query::QueryStage;
use stm32h7_sdmmc::sd_registers::CardVersion;
use stm32h7_sdmmc::sdmmc::Operation;
use stm32h7_sdmmc::task::Task;
use stm32h7_sdmmc::{
    Action, BusWidth, CardType, ClockControl, Dir, Error, Event, Flags, PowerCtrl, Sdmmc,
    Signalling, Status,
};

const CID: u128 = 0x03_5344_5355303847_80_12345678_0_147_AB;
const CSD: u128 = (1u128 << 126) | (0x32u128 << 96) | (0x3B37u128 << 48);
const SCR: u64 = (2 << 56) | (1 << 47) | (5 << 48);
const OCR_READY: u32 = 0xC0FF_8000;

/// A card as a script: what it answers, and how often it stalls first.
struct Card {
    echo: u32,
    busy_polls: u32,
    op_cond_crc_failures: u32,
    ocr: u32,
    rca: u32,
    scr: u64,
    selection: u8,
    state_after_switch: u32,
    select_times_out: bool,
    programming_polls: u32,
    read_fault: Option<fn(&mut Status)>,
    status_fault: Option<fn(&mut Status)>,
    blocks: HashMap<u32, [u8; 512]>,
}

impl Card {
    fn new() -> Card {
        Card {
            echo: 0x1AA,
            busy_polls: 0,
            op_cond_crc_failures: 0,
            ocr: OCR_READY,
            rca: 0x1234,
            scr: SCR,
            selection: 1,
            state_after_switch: 4,
            select_times_out: false,
            programming_polls: 0,
            read_fault: None,
            status_fault: None,
            blocks: HashMap::new(),
        }
    }

    fn block(&self, address: u32) -> [u8; 512] {
        match self.blocks.get(&address) {
            Some(block) => *block,
            None => {
                let mut block = [0u8; 512];
                for (i, byte) in block.iter_mut().enumerate() {
                    *byte = (address as usize * 31 + i * 7) as u8;
                }
                block
            }
        }
    }

    fn sd_status(&self) -> [u8; 64] {
        let mut bytes = [0u8; 64];
        for (i, byte) in bytes.iter_mut().enumerate() {
            *byte = 0xA0 + i as u8;
        }
        bytes
    }

    fn switch_status(&self) -> [u8; 64] {
        let mut bytes = [0u8; 64];
        bytes[13] = 0x03;
        bytes[16] = self.selection;
        bytes
    }
}

fn words_of(bytes: &[u8]) -> Vec<u32> {
    (0..bytes.len() / 4).map(|word| load_word(bytes, word)).collect()
}

/// The controller with the card behind it, and the buffer of the host.
struct Host {
    card: Card,
    status: Status,
    response: [u32; 4],
    fifo: VecDeque<u32>,
    receiving: bool,
    sending: Option<u32>,
    sent: Vec<u32>,
    app: bool,
    data_length: u32,
    buffer: Vec<u8>,
    power: Option<PowerCtrl>,
    divisor: Option<u16>,
    width: Option<BusWidth>,
    card_width_argument: Option<u32>,
    commands: Vec<(Cmd, bool)>,
    delays: Vec<u32>,
}

impl Host {
    fn new(card: Card) -> Host {
        Host {
            card,
            status: Status::clear(),
            response: [0; 4],
            fifo: VecDeque::new(),
            receiving: false,
            sending: None,
            sent: Vec::new(),
            app: false,
            data_length: 0,
            buffer: Vec::new(),
            power: None,
            divisor: None,
            width: None,
            card_width_argument: None,
            commands: Vec::new(),
            delays: Vec::new(),
        }
    }

    fn long(&mut self, value: u128) {
        self.response = [
            (value >> 96) as u32,
            (value >> 64) as u32,
            (value >> 32) as u32,
            value as u32,
        ];
    }

    fn send(&mut self, words: Vec<u32>) {
        self.fifo = words.into();
        self.receiving = true;
    }

    fn command(&mut self, cmd: Cmd, stop: bool) {
        self.commands.push((cmd, stop));
        let app = self.app;
        self.app = false;
        if cmd.cmd == 0 {
            self.status.cmdsent = true;
            return;
        }
        if self.card.programming_polls > 0 && cmd.cmd == 16 {
            self.card.programming_polls -= 1;
            self.status.ctimeout = true;
            return;
        }
        self.status.cmdrend = true;
        match (app, cmd.cmd) {
            (_, 8) => self.response[0] = self.card.echo,
            (_, 55) => self.app = true,
            (true, 41) => {
                if self.card.op_cond_crc_failures > 0 {
                    self.card.op_cond_crc_failures -= 1;
                    self.status.cmdrend = false;
                    self.status.ccrcfail = true;
                }
                if self.card.busy_polls > 0 {
                    self.card.busy_polls -= 1;
                    self.response[0] = self.card.ocr & 0x7FFF_FFFF;
                } else {
                    self.response[0] = self.card.ocr;
                }
            }
            (_, 2) => self.long(CID),
            (_, 3) => self.response[0] = (self.card.rca << 16) | 0x0500,
            (_, 9) => self.long(CSD),
            (_, 7) => {
                if self.card.select_times_out {
                    self.status.cmdrend = false;
                    self.status.ctimeout = true;
                }
            }
            (true, 51) => {
                let wire = self.card.scr.to_be_bytes();
                self.send(words_of(&wire));
            }
            (true, 6) => self.card_width_argument = Some(cmd.arg),
            (true, 13) => {
                let wire = self.card.sd_status();
                self.send(words_of(&wire));
            }
            (false, 6) => {
                let wire = self.card.switch_status();
                self.send(words_of(&wire));
            }
            (false, 13) => self.response[0] = self.card.state_after_switch << 9,
            (_, 17) => {
                let block = self.card.block(cmd.arg);
                self.send(words_of(&block));
            }
            (_, 18) => {
                let mut words = Vec::new();
                for k in 0..self.data_length / 512 {
                    words.extend(words_of(&self.card.block(cmd.arg + k)));
                }
                self.send(words);
            }
            (_, 24) => {
                self.sending = Some(cmd.arg);
                self.sent.clear();
            }
            _ => {}
        }
    }

    fn perform(&mut self, action: Action) -> Event {
        match action {
            Action::Power(power) => self.power = Some(power),
            Action::ConfigureClock(control) => {
                assert_eq!(control, ClockControl::initial(control.divisor));
                self.divisor = Some(control.divisor);
                self.width = Some(control.width);
            }
            Action::ClearFlags(flags) => {
                self.status.ccrcfail &= !flags.ccrcfail;
                self.status.ctimeout &= !flags.ctimeout;
                self.status.cmdrend &= !flags.cmdrend;
                self.status.cmdsent &= !flags.cmdsent;
                self.status.dataend &= !flags.dataend;
                self.status.dbckend &= !flags.dbckend;
                self.status.dcrcfail &= !flags.dcrcfail;
                self.status.dtimeout &= !flags.dtimeout;
                self.status.rxoverr &= !flags.rxoverr;
                self.status.txunderr &= !flags.txunderr;
            }
            Action::ReadStatus => {
                self.status.rxfifohf = self.fifo.len() >= 8;
                self.status.rxfifoe = self.fifo.is_empty();
                self.status.txfifohe = self.sending.is_some();
                if self.receiving && self.fifo.is_empty() {
                    self.receiving = false;
                    self.status.dataend = true;
                    self.status.dbckend = true;
                }
                if self.receiving {
                    let fault = if self.data_length == 64 {
                        self.card.status_fault
                    } else {
                        self.card.read_fault
                    };
                    if let Some(fault) = fault {
                        fault(&mut self.status);
                        self.receiving = false;
                        self.fifo.clear();
                    }
                }
                return Event::Status(self.status);
            }
            Action::SendCommand { cmd, stop } => self.command(cmd, stop),
            Action::ReadResponse { register } => {
                return Event::Word(self.response[usize::from(register) - 1]);
            }
            Action::ReadDdr => return Event::Flag(false),
            Action::StartData { length, direction, block_size, timeout } => {
                assert_eq!(timeout, 5_000_000);
                assert!(1 <= block_size && block_size <= 14);
                assert!(direction == Dir::CardToHost || length == 512);
                self.data_length = length;
            }
            Action::SetBusWidth(width) => self.width = Some(width),
            Action::SetClockDivisor(divisor) => self.divisor = Some(divisor),
            Action::ReadFifo => return Event::Word(self.fifo.pop_front().unwrap()),
            Action::FifoToBuffer { word } => {
                let value = self.fifo.pop_front().unwrap();
                store_word(&mut self.buffer, word, value);
            }
            Action::BufferToFifo { word } => {
                let value = load_word(&self.buffer, word);
                self.sent.push(value);
                if self.sent.len() == 128 {
                    let address = self.sending.take().unwrap();
                    let mut block = [0u8; 512];
                    for (k, value) in self.sent.iter().enumerate() {
                        store_word(&mut block, k, *value);
                    }
                    self.card.blocks.insert(address, block);
                    self.status.dataend = true;
                }
            }
            Action::Delay { cycles } => self.delays.push(cycles),
            Action::Finished(_) => panic!("an operation that has ended is performed"),
        }
        Event::Performed
    }

    /// Runs the operation of the session to its end.
    fn run(&mut self, session: &mut Sdmmc) -> Result<(), Error> {
        for _ in 0..1_000_000 {
            match session.pending() {
                Action::Finished(result) => {
                    assert_eq!(session.result(), Some(result));
                    return result;
                }
                action => {
                    assert_eq!(session.result(), None);
                    let event = self.perform(action);
                    session.advance(event);
                }
            }
        }
        panic!("the operation does not end");
    }

    fn sent_command(&self, index: u8) -> usize {
        self.commands.iter().filter(|(cmd, _)| cmd.cmd == index).count()
    }
}

fn session(width: BusWidth, host: &mut Host) -> Sdmmc {
    let mut session = Sdmmc::new(width, 100_000_000, 200_000_000);
    assert_eq!(host.run(&mut session), Ok(()));
    session
}

fn brought_up(freq: u32, card: Card) -> (Sdmmc, Host) {
    let mut host = Host::new(card);
    let mut session = session(BusWidth::Four, &mut host);
    session.init_card(freq);
    assert_eq!(host.run(&mut session), Ok(()));
    (session, host)
}

#[test]
fn setup_writes_the_clock_then_powers_off() {
    let mut host = Host::new(Card::new());
    let mut session = Sdmmc::new(BusWidth::Four, 100_000_000, 200_000_000);
    assert!(matches!(
        session.pending(),
        Action::ConfigureClock(ClockControl {
            divisor: 125,
            width: BusWidth::One,
            power_saving: false,
            dephasing: false,
            flow_control: true,
        })
    ));
    session.advance(host.perform(session.pending()));
    assert!(matches!(session.pending(), Action::Power(PowerCtrl::Off)));
    session.advance(host.perform(session.pending()));
    assert!(matches!(session.pending(), Action::Finished(Ok(()))));
    assert_eq!(host.divisor, Some(125));
    assert_eq!(host.power, Some(PowerCtrl::Off));
    assert_eq!(session.clock(), 400_000);
    assert!(matches!(session.card(), Err(Error::NoCard)));
    assert_eq!(PowerCtrl::Off.bits(), 0);
    assert_eq!(PowerCtrl::On.bits(), 3);
    assert_eq!(BusWidth::One.widbus(), 0);
    assert_eq!(BusWidth::Four.widbus(), 1);
    assert_eq!(BusWidth::Eight.widbus(), 2);
    assert_eq!(BusWidth::One.lines(), 1);
    assert_eq!(BusWidth::Four.lines(), 4);
    assert_eq!(BusWidth::Eight.lines(), 8);
    assert!(Dir::CardToHost.dtdir());
    assert!(!Dir::HostToCard.dtdir());
}

#[test]
fn bring_up_reads_the_card() {
    let (session, host) = brought_up(25_000_000, Card::new());
    let card = session.card().unwrap();
    assert_eq!(card.card_type, CardType::SDHC);
    assert_eq!(card.ocr.0, OCR_READY);
    assert_eq!(card.rca, 0x1234);
    assert_eq!(card.cid.manufacturer_id(), 0x03);
    assert_eq!(card.cid.oem_id(), "SD");
    assert_eq!(card.cid.product_name(), "SU08G");
    assert_eq!(card.cid.product_serial_number(), 0x8012_3456);
    assert_eq!(card.csd.0, CSD);
    assert_eq!(card.csd.block_count(), 0x3B38);
    assert_eq!(card.size(), 0x3B38 * 512 * 1024);
    assert_eq!(card.scr.0, SCR);
    assert_eq!(card.scr.version(), CardVersion::V3);
    assert!(card.scr.bus_width_four());
    // Word 1 of the status is bytes 4 to 7 of the wire, high byte first.
    assert_eq!(card.status.size_of_protected_area(), 0xA4A5_A6A7);
    assert_eq!(card.status.speed_class(), 0xA8);
    assert_eq!(session.clock(), 25_000_000);
    assert_eq!(host.divisor, Some(2));
    assert_eq!(host.power, Some(PowerCtrl::On));
}

#[test]
fn bring_up_sends_the_commands_in_order() {
    let (_, host) = brought_up(25_000_000, Card::new());
    let rca = 0x1234 << 16;
    let expected = [
        Cmd::idle(),
        Cmd::hs_send_ext_csd(0x1AA),
        Cmd::app_cmd(0),
        Cmd::app_op_cmd(0xC110_0000),
        Cmd::all_send_cid(),
        Cmd::send_rel_addr(),
        Cmd::send_csd(rca),
        Cmd::sel_desel_card(rca),
        Cmd::set_block_length(8),
        Cmd::app_cmd(rca),
        Cmd::cmd51(),
        Cmd::app_cmd(rca),
        Cmd::cmd6(2),
        Cmd::set_block_length(64),
        Cmd::app_cmd(rca),
        Cmd::card_status(0),
    ];
    let sent: Vec<Cmd> = host.commands.iter().map(|(cmd, _)| *cmd).collect();
    assert_eq!(sent, expected);
    assert!(host.commands.iter().all(|(_, stop)| !stop));
}

#[test]
fn bring_up_negotiates_four_lines_where_card_and_host_have_them() {
    let (_, host) = brought_up(25_000_000, Card::new());
    assert_eq!(host.width, Some(BusWidth::Four));
    assert_eq!(host.card_width_argument, Some(2));
}

#[test]
fn bring_up_stays_at_one_line_where_the_card_has_no_more() {
    let mut card = Card::new();
    card.scr = (2 << 56) | (1 << 48);
    let (session, host) = brought_up(25_000_000, card);
    assert_eq!(host.width, Some(BusWidth::One));
    assert_eq!(host.card_width_argument, Some(0));
    assert!(!session.card().unwrap().scr.bus_width_four());
}

#[test]
fn bring_up_stays_at_one_line_where_the_host_has_no_more() {
    let mut host = Host::new(Card::new());
    let mut session = session(BusWidth::One, &mut host);
    session.init_card(25_000_000);
    assert_eq!(host.run(&mut session), Ok(()));
    assert_eq!(host.width, Some(BusWidth::One));
    assert_eq!(host.card_width_argument, Some(0));
}

#[test]
fn bring_up_to_50_mhz_without_sdr25_stays_at_25_mhz() {
    for selection in [0u8, 2, 3, 4, 5, 9, 15] {
        let mut card = Card::new();
        card.selection = selection;
        let (session, host) = brought_up(50_000_000, card);
        assert_eq!(session.clock(), 25_000_000);
        assert_eq!(host.divisor, Some(2));
        assert_ne!(session.signalling, Signalling::SDR25);
        assert!(session.card().is_ok());
        // The card is asked for SDR25 and given time to switch.
        assert!(host.commands.contains(&(Cmd::cmd6(0x80FF_FF01), false)));
        assert_eq!(host.delays, vec![300]);
        // Its state is not asked for: the clock was not raised.
        assert_eq!(host.sent_command(13), 1);
    }
}

#[test]
fn bring_up_to_50_mhz_with_sdr25_runs_at_50_mhz() {
    let (session, host) = brought_up(50_000_000, Card::new());
    assert_eq!(session.clock(), 50_000_000);
    assert_eq!(session.signalling, Signalling::SDR25);
    assert_eq!(host.divisor, Some(1));
    assert_eq!(host.commands.last(), Some(&(Cmd::card_status(0x1234 << 16), false)));
}

#[test]
fn bring_up_to_a_clock_between_the_divisions_stays_below() {
    let (session, host) = brought_up(40_000_000, Card::new());
    // SDR25 is taken; a division by 3 cannot be programmed.
    assert_eq!(session.clock(), 25_000_000);
    assert_eq!(session.signalling, Signalling::SDR25);
    assert_eq!(host.divisor, Some(2));
}

#[test]
fn bring_up_fails_when_the_card_leaves_the_transfer_state() {
    for state in [0u32, 1, 2, 3, 5, 6, 7, 8, 9, 15] {
        let mut card = Card::new();
        card.state_after_switch = state;
        let mut host = Host::new(card);
        let mut session = session(BusWidth::Four, &mut host);
        session.init_card(50_000_000);
        assert_eq!(host.run(&mut session), Err(Error::SignalingSwitchFailed));
        assert!(matches!(session.card(), Err(Error::NoCard)));
    }
}

#[test]
fn bring_up_with_an_unknown_selection_stays_at_sdr12() {
    for selection in 5u8..=15 {
        let mut card = Card::new();
        card.selection = selection;
        let (session, host) = brought_up(50_000_000, card);
        assert_eq!(session.clock(), 25_000_000);
        assert_eq!(session.signalling, Signalling::SDR12);
        assert_eq!(host.divisor, Some(2));
        assert!(session.card().is_ok());
    }
}

#[test]
fn selected_function_by_the_table() {
    assert_eq!(selected_signalling(0), Signalling::SDR12);
    assert_eq!(selected_signalling(1), Signalling::SDR25);
    assert_eq!(selected_signalling(2), Signalling::SDR50);
    assert_eq!(selected_signalling(3), Signalling::SDR104);
    assert_eq!(selected_signalling(4), Signalling::DDR50);
    for selection in 5u32..=15 {
        assert_eq!(selected_signalling(selection), Signalling::SDR12);
    }
}

#[test]
fn bring_up_rejects_a_card_that_does_not_echo_the_pattern() {
    for echo in [0u32, 0x1AB, 0xAA, 0x100, 0xFFFF_FFFF, 0x1_01AA] {
        let mut card = Card::new();
        card.echo = echo;
        let mut host = Host::new(card);
        let mut session = session(BusWidth::Four, &mut host);
        session.init_card(25_000_000);
        assert_eq!(host.run(&mut session), Err(Error::UnsupportedCardVersion));
        assert!(matches!(session.card(), Err(Error::NoCard)));
        assert_eq!(host.commands.len(), 2);
    }
}

#[test]
fn bring_up_rejects_a_card_of_standard_capacity() {
    let mut card = Card::new();
    card.ocr = 0x80FF_8000;
    let mut host = Host::new(card);
    let mut session = session(BusWidth::Four, &mut host);
    session.init_card(25_000_000);
    assert_eq!(host.run(&mut session), Err(Error::UnsupportedCardType));
    assert!(matches!(session.card(), Err(Error::NoCard)));
}

#[test]
fn bring_up_negotiates_the_voltage_until_the_card_is_ready() {
    let mut card = Card::new();
    card.busy_polls = 5;
    let (session, host) = brought_up(25_000_000, card);
    assert_eq!(host.sent_command(41), 6);
    assert_eq!(host.commands.iter().filter(|(cmd, _)| *cmd == Cmd::app_cmd(0)).count(), 6);
    assert_eq!(session.card().unwrap().ocr.0, OCR_READY);
}

#[test]
fn bring_up_goes_on_from_a_crc_failure_of_the_operating_condition() {
    let mut card = Card::new();
    card.op_cond_crc_failures = 3;
    card.busy_polls = 3;
    let (session, host) = brought_up(25_000_000, card);
    assert_eq!(host.sent_command(41), 4);
    assert!(session.card().is_ok());
}

#[test]
fn bring_up_fails_on_a_crc_failure_elsewhere() {
    let mut host = Host::new(Card::new());
    let mut session = session(BusWidth::Four, &mut host);
    session.init_card(25_000_000);
    let mut failed = false;
    let result = loop {
        match session.pending() {
            Action::Finished(result) => break result,
            action => {
                let mut event = host.perform(action);
                if let (Action::ReadStatus, Some((cmd, _))) = (action, host.commands.last()) {
                    if cmd.cmd == 2 && !failed && host.status.cmdrend {
                        let mut status = host.status;
                        status.cmdrend = false;
                        status.ccrcfail = true;
                        event = Event::Status(status);
                        failed = true;
                    }
                }
                session.advance(event);
            }
        }
    };
    assert_eq!(result, Err(Error::Crc));
    assert!(matches!(session.card(), Err(Error::NoCard)));
}

#[test]
fn bring_up_fails_on_a_timeout_of_the_selection() {
    let mut card = Card::new();
    card.select_times_out = true;
    let mut host = Host::new(card);
    let mut session = session(BusWidth::Four, &mut host);
    session.init_card(25_000_000);
    assert_eq!(host.run(&mut session), Err(Error::Timeout));
}

#[test]
fn bring_up_goes_on_from_a_timeout_of_the_selection_of_address_zero() {
    let mut card = Card::new();
    card.select_times_out = true;
    card.rca = 0;
    let (session, _) = brought_up(25_000_000, card);
    assert_eq!(session.card().unwrap().rca, 0);
}

#[test]
fn bring_up_fails_where_the_clock_cannot_be_divided() {
    let mut host = Host::new(Card::new());
    let mut session = session(BusWidth::Four, &mut host);
    session.init_card(1_000);
    assert_eq!(host.run(&mut session), Err(Error::BadClock));
    assert!(matches!(session.card(), Err(Error::NoCard)));
    assert_eq!(session.clock(), 400_000);
    session.init_card(0);
    assert_eq!(host.run(&mut session), Err(Error::BadClock));
}

#[test]
fn bring_up_fails_on_a_fault_of_the_status() {
    let mut card = Card::new();
    card.status_fault = Some(|status| status.dcrcfail = true);
    let mut host = Host::new(card);
    let mut session = session(BusWidth::Four, &mut host);
    session.init_card(25_000_000);
    assert_eq!(host.run(&mut session), Err(Error::DataCrcFail));
    assert!(matches!(session.card(), Err(Error::NoCard)));
}

#[test]
fn no_card_before_the_first_bring_up() {
    let mut host = Host::new(Card::new());
    let mut session = session(BusWidth::Four, &mut host);
    assert!(matches!(session.card(), Err(Error::NoCard)));
    session.read_block(0);
    assert_eq!(host.run(&mut session), Err(Error::NoCard));
    session.read_blocks(0, 1024);
    assert_eq!(host.run(&mut session), Err(Error::NoCard));
    session.write_block(0);
    assert_eq!(host.run(&mut session), Err(Error::NoCard));
    assert!(host.commands.is_empty());
}

#[test]
fn failed_bring_up_leaves_no_card() {
    let (mut session, mut host) = brought_up(25_000_000, Card::new());
    assert!(session.card().is_ok());
    host.card.echo = 0;
    session.init_card(25_000_000);
    assert!(matches!(session.card(), Err(Error::NoCard)));
    assert_eq!(host.run(&mut session), Err(Error::UnsupportedCardVersion));
    assert!(matches!(session.card(), Err(Error::NoCard)));
    session.read_block(0);
    assert_eq!(host.run(&mut session), Err(Error::NoCard));
}

#[test]
fn card_is_the_same_until_the_next_bring_up() {
    let (mut session, mut host) = brought_up(25_000_000, Card::new());
    let first = *session.card().unwrap();
    for _ in 0..3 {
        let again = session.card().unwrap();
        assert_eq!(again.rca, first.rca);
        assert_eq!(again.ocr, first.ocr);
        assert_eq!(again.csd, first.csd);
        assert_eq!(again.scr, first.scr);
        assert_eq!(again.cid.product_serial_number(), first.cid.product_serial_number());
        assert_eq!(again.status.speed_class(), first.status.speed_class());
    }
    host.buffer = vec![0; 512];
    session.read_block(3);
    assert_eq!(host.run(&mut session), Ok(()));
    session.write_block(4);
    assert_eq!(host.run(&mut session), Ok(()));
    let later = session.card().unwrap();
    assert_eq!(later.rca, first.rca);
    assert_eq!(later.ocr, first.ocr);
    assert_eq!(later.csd, first.csd);
    assert_eq!(later.scr, first.scr);
    assert_eq!(later.card_type, first.card_type);
    assert_eq!(later.cid.product_serial_number(), first.cid.product_serial_number());
    host.card.rca = 0x4321;
    session.init_card(25_000_000);
    assert_eq!(host.run(&mut session), Ok(()));
    assert_eq!(session.card().unwrap().rca, 0x4321);
}

#[test]
fn read_block_fills_the_buffer() {
    let (mut session, mut host) = brought_up(25_000_000, Card::new());
    host.commands.clear();
    host.buffer = vec![0; 512];
    session.read_block(9);
    assert_eq!(host.run(&mut session), Ok(()));
    assert_eq!(host.buffer, host.card.block(9).to_vec());
    let sent: Vec<Cmd> = host.commands.iter().map(|(cmd, _)| *cmd).collect();
    assert_eq!(sent, [Cmd::set_block_length(512), Cmd::read_single_block(9)]);
    assert_eq!(host.data_length, 512);
}

#[test]
fn read_blocks_fills_the_buffer_and_stops_the_transmission() {
    let (mut session, mut host) = brought_up(25_000_000, Card::new());
    host.commands.clear();
    host.buffer = vec![0; 5120];
    session.read_blocks(20, 5120);
    assert_eq!(host.run(&mut session), Ok(()));
    for k in 0..10usize {
        assert_eq!(host.buffer[512 * k..512 * (k + 1)], host.card.block(20 + k as u32));
    }
    assert_eq!(
        host.commands,
        [
            (Cmd::set_block_length(512), false),
            (Cmd::read_multiple_blocks(20), false),
            (Cmd::stop_transmission(), true),
        ]
    );
    assert_eq!(host.data_length, 5120);
}

#[test]
fn read_blocks_of_one_block_uses_the_command_for_multiple_blocks() {
    let (mut session, mut host) = brought_up(25_000_000, Card::new());
    host.commands.clear();
    host.buffer = vec![0; 512];
    session.read_blocks(2, 512);
    assert_eq!(host.run(&mut session), Ok(()));
    assert_eq!(host.buffer, host.card.block(2).to_vec());
    assert_eq!(host.sent_command(18), 1);
    assert_eq!(host.sent_command(12), 1);
}

#[test]
fn read_block_reports_a_fault_of_the_data_path() {
    for (fault, error) in [
        ((|s: &mut Status| s.dcrcfail = true) as fn(&mut Status), Error::DataCrcFail),
        (|s: &mut Status| s.rxoverr = true, Error::RxOverFlow),
        (|s: &mut Status| s.dtimeout = true, Error::Timeout),
    ] {
        let (mut session, mut host) = brought_up(25_000_000, Card::new());
        host.card.read_fault = Some(fault);
        host.buffer = vec![0; 512];
        session.read_block(9);
        assert_eq!(host.run(&mut session), Err(error));
        assert!(session.card().is_ok());
    }
}

#[test]
fn read_blocks_stops_the_transmission_after_a_fault() {
    let (mut session, mut host) = brought_up(25_000_000, Card::new());
    host.commands.clear();
    host.card.read_fault = Some(|status| status.dcrcfail = true);
    host.buffer = vec![0; 1024];
    session.read_blocks(9, 1024);
    assert_eq!(host.run(&mut session), Err(Error::DataCrcFail));
    assert_eq!(host.commands.last(), Some(&(Cmd::stop_transmission(), true)));
}

#[test]
fn buffer_must_hold_whole_blocks() {
    assert_eq!(whole_blocks(511), None);
    assert_eq!(whole_blocks(513), None);
    assert_eq!(whole_blocks(1), None);
    assert_eq!(whole_blocks(1023), None);
    assert_eq!(whole_blocks(0), Some(0));
    assert_eq!(whole_blocks(512), Some(1));
    assert_eq!(whole_blocks(5120), Some(10));
    assert_eq!(whole_blocks(0x7F_FFFF * 512), Some(0x7F_FFFF));
    assert_eq!(whole_blocks(0x80_0000 * 512), None);
}

#[test]
fn written_block_reads_back() {
    let (mut session, mut host) = brought_up(25_000_000, Card::new());
    let mut block = vec![0xC3u8; 512];
    for (i, byte) in block.iter_mut().enumerate() {
        if i % 3 == 0 {
            *byte = i as u8;
        }
    }
    host.buffer = block.clone();
    session.write_block(77);
    assert_eq!(host.run(&mut session), Ok(()));
    host.buffer = vec![0; 512];
    session.read_block(77);
    assert_eq!(host.run(&mut session), Ok(()));
    assert_eq!(host.buffer, block);
    // The blocks beside it are as they were.
    session.read_block(78);
    assert_eq!(host.run(&mut session), Ok(()));
    assert_ne!(host.buffer, block);
}

#[test]
fn write_block_sends_its_commands_in_order() {
    let (mut session, mut host) = brought_up(25_000_000, Card::new());
    host.commands.clear();
    host.buffer = vec![0x5A; 512];
    session.write_block(6);
    assert_eq!(host.run(&mut session), Ok(()));
    let sent: Vec<Cmd> = host.commands.iter().map(|(cmd, _)| *cmd).collect();
    assert_eq!(
        sent,
        [
            Cmd::set_block_length(512),
            Cmd::write_single_block(6),
            Cmd::set_block_length(64),
            Cmd::app_cmd(0x1234 << 16),
            Cmd::card_status(0),
        ]
    );
}

#[test]
fn write_block_waits_while_the_card_is_programming() {
    let (mut session, mut host) = brought_up(25_000_000, Card::new());
    host.commands.clear();
    host.buffer = vec![0x5A; 512];
    session.write_block(6);
    // The card takes the block length of the write, then stalls.
    let mut stalled = false;
    let result = loop {
        match session.pending() {
            Action::Finished(result) => break result,
            action => {
                if matches!(action, Action::ClearFlags(flags) if flags == Flags::of_data_path()) {
                    host.card.programming_polls = 40;
                    stalled = true;
                }
                let event = host.perform(action);
                session.advance(event);
            }
        }
    };
    assert!(stalled);
    assert_eq!(result, Ok(()));
    assert_eq!(host.sent_command(16), 1 + 41);
    assert_eq!(host.card.block(6), [0x5A; 512]);
}

#[test]
fn write_block_refreshes_the_status_of_the_card() {
    let (mut session, mut host) = brought_up(25_000_000, Card::new());
    assert_eq!(session.card().unwrap().status.speed_class(), 0xA8);
    host.buffer = vec![0; 512];
    session.write_block(6);
    // The status of the card changes while the block is sent.
    let mut replaced = false;
    loop {
        match session.pending() {
            Action::Finished(result) => {
                assert_eq!(result, Ok(()));
                break;
            }
            action => {
                let mut event = host.perform(action);
                if let (Action::ReadFifo, Event::Word(word)) = (action, event) {
                    event = Event::Word(word ^ 0x0000_00FF);
                    replaced = true;
                }
                session.advance(event);
            }
        }
    }
    assert!(replaced);
    assert_eq!(session.card().unwrap().status.speed_class(), 0xA8 ^ 0xFF);
    assert_eq!(session.card().unwrap().rca, 0x1234);
}

#[test]
fn write_block_fails_on_another_error_of_the_status_query() {
    let (mut session, mut host) = brought_up(25_000_000, Card::new());
    host.card.status_fault = Some(|status| status.dcrcfail = true);
    host.buffer = vec![0; 512];
    session.write_block(6);
    assert_eq!(host.run(&mut session), Err(Error::DataCrcFail));
    assert!(session.card().is_ok());
}

#[test]
fn write_block_gives_up_when_no_query_is_left() {
    let mut write = BlockWrite::new(6, 0x1234);
    write.stage = WriteStage::Query { stage: QueryStage::BlockLen };
    write.task = Task::command(Cmd::set_block_length(64));
    write.remaining = 2;
    let mut timeout = Status::clear();
    timeout.ctimeout = true;
    for left in [1u32, 0] {
        write.advance(Event::Performed);
        write.advance(Event::Status(Status::clear()));
        write.advance(Event::Performed);
        write.advance(Event::Status(timeout));
        assert_eq!(write.remaining, left);
        if left > 0 {
            assert_eq!(write.result(), None);
            assert!(matches!(write.pending(), Action::ClearFlags(_)));
        }
    }
    assert_eq!(write.result(), Some(Err(Error::SoftwareTimeout)));
    assert!(matches!(write.pending(), Action::Finished(Err(Error::SoftwareTimeout))));
}

#[test]
fn write_block_reports_a_fault_of_the_data_path() {
    let (mut session, mut host) = brought_up(25_000_000, Card::new());
    host.buffer = vec![0; 512];
    session.write_block(6);
    let result = loop {
        match session.pending() {
            Action::Finished(result) => break result,
            action => {
                let mut event = host.perform(action);
                if let (Action::ReadStatus, Some(_)) = (action, host.sending) {
                    if host.sent.len() == 64 {
                        let mut status = host.status;
                        status.txunderr = true;
                        event = Event::Status(status);
                    }
                }
                session.advance(event);
            }
        }
    };
    assert_eq!(result, Err(Error::RxOverFlow));
    assert_eq!(host.sent.len(), 64);
}

#[test]
fn starting_an_operation_replaces_the_one_under_way() {
    let (mut session, mut host) = brought_up(25_000_000, Card::new());
    host.buffer = vec![0; 512];
    session.read_block(1);
    for _ in 0..5 {
        let event = host.perform(session.pending());
        session.advance(event);
    }
    assert!(matches!(session.op, Operation::Read(_)));
    session.read_block(2);
    host.fifo.clear();
    assert_eq!(host.run(&mut session), Ok(()));
    assert_eq!(host.buffer, host.card.block(2).to_vec());
}

#[test]
fn session_ignores_events_when_nothing_is_under_way() {
    let (mut session, _) = brought_up(25_000_000, Card::new());
    let clock = session.clock();
    session.advance(Event::Performed);
    session.advance(Event::Word(5));
    session.advance(Event::Status(Status::clear()));
    assert_eq!(session.result(), Some(Ok(())));
    assert_eq!(session.clock(), clock);
    assert!(session.card().is_ok());
}
