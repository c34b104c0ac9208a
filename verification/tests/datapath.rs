use stm32h7_sdmmc::bits::{load_word, reverse32, store_word};
use stm32h7_sdmmc::datapath::{DataSetup, Transfer, TransferKind, TransferPhase, DATA_TIMEOUT};
use stm32h7_sdmmc::task::Task;
use stm32h7_sdmmc::{Action, Dir, Error, Event, Status};

fn flags(set: fn(&mut Status)) -> Status {
    let mut status = Status::clear();
    set(&mut status);
    status
}

#[test]
fn setup_programs_the_transfer_when_idle() {
    let mut setup = DataSetup::new(1024, 9, Dir::CardToHost);
    assert!(matches!(setup.pending(), Action::ReadDdr));
    setup.advance(Event::Flag(false));
    assert!(matches!(setup.pending(), Action::ReadStatus));
    setup.advance(Event::Status(flags(|s| s.cpsmact = true)));
    assert!(matches!(setup.pending(), Action::ReadStatus));
    setup.advance(Event::Status(flags(|s| s.dpsmact = true)));
    assert!(matches!(setup.pending(), Action::ReadStatus));
    setup.advance(Event::Status(Status::clear()));
    match setup.pending() {
        Action::StartData { timeout, length, block_size, direction } => {
            assert_eq!(timeout, 5_000_000);
            assert_eq!(timeout, DATA_TIMEOUT);
            assert_eq!(length, 1024);
            assert_eq!(block_size, 9);
            assert_eq!(direction, Dir::CardToHost);
        }
        other => panic!("the transfer is not programmed but {:?}", other),
    }
    assert!(!setup.finished());
    setup.advance(Event::Performed);
    assert!(setup.finished());
    assert!(matches!(setup.pending(), Action::Finished(Ok(()))));
}

#[test]
fn setup_keeps_the_direction() {
    let mut setup = DataSetup::new(512, 9, Dir::HostToCard);
    setup.advance(Event::Flag(true));
    setup.advance(Event::Status(Status::clear()));
    assert!(matches!(
        setup.pending(),
        Action::StartData { direction: Dir::HostToCard, length: 512, .. }
    ));
}

#[test]
fn setup_admits_one_byte_blocks_at_single_data_rate_only() {
    let setup = DataSetup::new(1, 0, Dir::CardToHost);
    assert!(setup.admits(Event::Flag(false)));
    assert!(!setup.admits(Event::Flag(true)));
    let setup = DataSetup::new(2, 1, Dir::CardToHost);
    assert!(setup.admits(Event::Flag(true)));
    let setup = DataSetup::new(1 << 14, 14, Dir::CardToHost);
    assert!(setup.admits(Event::Flag(true)));
}

#[test]
fn fault_priority() {
    let kind = TransferKind::ReadBlocks;
    assert_eq!(kind.fault(Status::clear()), Ok(()));
    assert_eq!(kind.fault(flags(|s| s.dtimeout = true)), Err(Error::Timeout));
    assert_eq!(kind.fault(flags(|s| s.rxoverr = true)), Err(Error::RxOverFlow));
    assert_eq!(kind.fault(flags(|s| s.dcrcfail = true)), Err(Error::DataCrcFail));
    assert_eq!(
        kind.fault(flags(|s| {
            s.rxoverr = true;
            s.dtimeout = true;
        })),
        Err(Error::RxOverFlow)
    );
    assert_eq!(
        kind.fault(flags(|s| {
            s.dcrcfail = true;
            s.rxoverr = true;
            s.dtimeout = true;
        })),
        Err(Error::DataCrcFail)
    );
}

#[test]
fn underrun_fails_a_write_and_stops_it() {
    let write = TransferKind::WriteBlocks;
    assert_eq!(write.fault(flags(|s| s.txunderr = true)), Err(Error::RxOverFlow));
    assert_eq!(write.fault(flags(|s| s.rxoverr = true)), Err(Error::RxOverFlow));
    assert!(write.stopped(flags(|s| s.txunderr = true)));
    assert!(!write.stopped(flags(|s| s.rxoverr = true)));
    let read = TransferKind::ReadBlocks;
    assert_eq!(read.fault(flags(|s| s.txunderr = true)), Ok(()));
    assert!(read.stopped(flags(|s| s.rxoverr = true)));
    assert!(!read.stopped(flags(|s| s.txunderr = true)));
}

#[test]
fn end_flags_by_kind() {
    assert!(TransferKind::ReadBlocks.stopped(flags(|s| s.dataend = true)));
    assert!(!TransferKind::ReadBlocks.stopped(flags(|s| s.dbckend = true)));
    assert!(TransferKind::WriteBlocks.stopped(flags(|s| s.dataend = true)));
    assert!(TransferKind::ReadStatusBlock.stopped(flags(|s| s.dbckend = true)));
    assert!(!TransferKind::ReadStatusBlock.stopped(flags(|s| s.dataend = true)));
    assert!(TransferKind::ReadRegister.stopped(flags(|s| s.dbckend = true)));
}

#[test]
fn read_moves_eight_words_per_half_full_fifo() {
    let mut transfer = Transfer::new(TransferKind::ReadBlocks, 128);
    for burst in 0..16usize {
        assert!(matches!(transfer.pending(), Action::ReadStatus));
        // Nothing is moved while the FIFO is not half full.
        transfer.advance(Event::Status(Status::clear()));
        assert!(matches!(transfer.pending(), Action::ReadStatus));
        transfer.advance(Event::Status(flags(|s| s.rxfifohf = true)));
        for word in 0..8usize {
            match transfer.pending() {
                Action::FifoToBuffer { word: at } => assert_eq!(at, 8 * burst + word),
                other => panic!("no word is moved but {:?}", other),
            }
            transfer.advance(Event::Performed);
        }
    }
    assert_eq!(transfer.moved, 128);
    assert_eq!(transfer.result(), Some(Ok(())));
}

#[test]
fn read_ends_on_the_end_of_data() {
    let mut transfer = Transfer::new(TransferKind::ReadBlocks, 128);
    transfer.advance(Event::Status(flags(|s| s.rxfifohf = true)));
    for _ in 0..8 {
        transfer.advance(Event::Performed);
    }
    transfer.advance(Event::Status(flags(|s| {
        s.dataend = true;
        s.rxfifohf = true;
    })));
    assert_eq!(transfer.result(), Some(Ok(())));
    assert_eq!(transfer.moved, 8);
}

#[test]
fn read_ends_on_a_fault_with_its_error() {
    for (status, error) in [
        (flags(|s| s.dcrcfail = true), Error::DataCrcFail),
        (flags(|s| s.rxoverr = true), Error::RxOverFlow),
        (flags(|s| s.dtimeout = true), Error::Timeout),
    ] {
        let mut transfer = Transfer::new(TransferKind::ReadBlocks, 128);
        transfer.advance(Event::Status(flags(|s| s.rxfifohf = true)));
        for _ in 0..8 {
            transfer.advance(Event::Performed);
        }
        transfer.advance(Event::Status(status));
        assert_eq!(transfer.result(), Some(Err(error)));
        assert!(matches!(transfer.pending(), Action::Finished(Err(_))));
    }
}

#[test]
fn full_buffer_ends_with_the_fault_of_the_last_status() {
    let mut transfer = Transfer::new(TransferKind::ReadBlocks, 8);
    transfer.advance(Event::Status(flags(|s| s.rxfifohf = true)));
    for _ in 0..8 {
        transfer.advance(Event::Performed);
    }
    assert_eq!(transfer.result(), Some(Ok(())));
}

#[test]
fn write_sends_eight_words_per_half_empty_fifo() {
    let mut transfer = Transfer::new(TransferKind::WriteBlocks, 128);
    for burst in 0..16usize {
        transfer.advance(Event::Status(flags(|s| s.rxfifohf = true)));
        assert!(matches!(transfer.pending(), Action::ReadStatus));
        transfer.advance(Event::Status(flags(|s| s.txfifohe = true)));
        for word in 0..8usize {
            match transfer.pending() {
                Action::BufferToFifo { word: at } => assert_eq!(at, 8 * burst + word),
                other => panic!("no word is sent but {:?}", other),
            }
            // A word read is no answer to a write.
            transfer.advance(Event::Word(0));
            transfer.advance(Event::Performed);
        }
    }
    assert_eq!(transfer.result(), Some(Ok(())));
}

#[test]
fn write_ends_on_underrun() {
    let mut transfer = Transfer::new(TransferKind::WriteBlocks, 128);
    transfer.advance(Event::Status(flags(|s| s.txunderr = true)));
    assert_eq!(transfer.result(), Some(Err(Error::RxOverFlow)));
}

#[test]
fn register_is_read_word_by_word() {
    let mut transfer = Transfer::new(TransferKind::ReadRegister, 2);
    // An empty FIFO gives nothing.
    transfer.advance(Event::Status(flags(|s| s.rxfifoe = true)));
    assert!(matches!(transfer.pending(), Action::ReadStatus));
    transfer.advance(Event::Status(Status::clear()));
    assert!(matches!(transfer.pending(), Action::ReadFifo));
    transfer.advance(Event::Word(0x1111_2222));
    assert!(matches!(transfer.pending(), Action::ReadStatus));
    transfer.advance(Event::Status(Status::clear()));
    transfer.advance(Event::Word(0x3333_4444));
    assert_eq!(transfer.result(), Some(Ok(())));
    assert_eq!(transfer.words[0], 0x1111_2222);
    assert_eq!(transfer.words[1], 0x3333_4444);
    assert_eq!(transfer.words[2], 0);
}

#[test]
fn status_block_is_kept_in_order() {
    let mut transfer = Transfer::new(TransferKind::ReadStatusBlock, 16);
    for burst in 0..2u32 {
        transfer.advance(Event::Status(flags(|s| s.rxfifohf = true)));
        for word in 0..8u32 {
            assert!(matches!(transfer.pending(), Action::ReadFifo));
            // A write performed is no answer to a read.
            transfer.advance(Event::Performed);
            transfer.advance(Event::Word(100 + 8 * burst + word));
        }
    }
    assert_eq!(transfer.result(), Some(Ok(())));
    for word in 0..16usize {
        assert_eq!(transfer.words[word], 100 + word as u32);
    }
}

#[test]
fn empty_transfer_ends_at_the_first_status() {
    let mut transfer = Transfer::new(TransferKind::ReadBlocks, 0);
    transfer.advance(Event::Status(flags(|s| s.rxfifohf = true)));
    assert_eq!(transfer.result(), Some(Ok(())));
    assert_eq!(transfer.moved, 0);
}

#[test]
fn burst_does_not_go_beyond_the_words_of_the_transfer() {
    let mut transfer = Transfer::new(TransferKind::ReadBlocks, 4);
    transfer.advance(Event::Status(flags(|s| s.rxfifohf = true)));
    assert!(matches!(transfer.phase, TransferPhase::Poll));
    assert!(matches!(transfer.pending(), Action::ReadStatus));
    assert_eq!(transfer.moved, 0);
}

#[test]
fn words_are_stored_low_byte_first() {
    let mut buffer = [0xEEu8; 12];
    store_word(&mut buffer, 1, 0x1234_5678);
    assert_eq!(buffer, [0xEE, 0xEE, 0xEE, 0xEE, 0x78, 0x56, 0x34, 0x12, 0xEE, 0xEE, 0xEE, 0xEE]);
    store_word(&mut buffer, 0, 0xFFFF_FFFF);
    store_word(&mut buffer, 2, 0);
    assert_eq!(buffer, [0xFF, 0xFF, 0xFF, 0xFF, 0x78, 0x56, 0x34, 0x12, 0, 0, 0, 0]);
}

#[test]
fn words_are_loaded_low_byte_first() {
    let buffer = [0x01u8, 0x02, 0x03, 0x04, 0xFF, 0xFE, 0xFD, 0xFC];
    assert_eq!(load_word(&buffer, 0), 0x0403_0201);
    assert_eq!(load_word(&buffer, 1), 0xFCFD_FEFF);
}

#[test]
fn stored_words_load_back() {
    let mut buffer = [0u8; 512];
    for word in 0..128usize {
        store_word(&mut buffer, word, (word as u32).wrapping_mul(0x9E37_79B9));
    }
    for word in 0..128usize {
        assert_eq!(load_word(&buffer, word), (word as u32).wrapping_mul(0x9E37_79B9));
    }
    let mut copy = [0u8; 512];
    for word in 0..128usize {
        let value = load_word(&buffer, word);
        store_word(&mut copy, word, value);
    }
    assert_eq!(buffer, copy);
}

#[test]
fn byte_reversal() {
    assert_eq!(reverse32(0x1234_5678), 0x7856_3412);
    assert_eq!(reverse32(0x0000_00FF), 0xFF00_0000);
    assert_eq!(reverse32(reverse32(0xDEAD_BEEF)), 0xDEAD_BEEF);
}

#[test]
fn step_admits_one_byte_blocks_at_single_data_rate_only() {
    let mut step = Task::setup(1, 0, Dir::CardToHost);
    assert!(!step.admits(Event::Flag(true)));
    assert!(step.admits(Event::Flag(false)));
    assert!(step.admits(Event::Performed));
    step.advance(Event::Flag(false));
    assert!(matches!(step.pending(), Action::ReadStatus));
    assert!(step.admits(Event::Flag(true)));
    step.advance(Event::Status(Status::clear()));
    assert!(matches!(step.pending(), Action::StartData { block_size: 0, length: 1, .. }));
    step.advance(Event::Performed);
    assert_eq!(step.completion(), Some(Ok(0)));
    let step = Task::setup(512, 9, Dir::CardToHost);
    assert!(step.admits(Event::Flag(true)));
    let step = Task::fetch(1);
    assert!(step.admits(Event::Flag(true)));
}
