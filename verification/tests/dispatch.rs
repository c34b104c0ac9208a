use stm32h7_sdmmc::command::{Cmd, CommandDispatch, DispatchPhase, Response, POLL_LIMIT};
use stm32h7_sdmmc::{Action, Error, Event, Flags, Status};

fn flags(set: fn(&mut Status)) -> Status {
    let mut status = Status::clear();
    set(&mut status);
    status
}

/// Runs a dispatch against a controller that is idle at once and answers
/// the first poll with `answer`.
fn dispatch(cmd: Cmd, answer: Status) -> Result<(), Error> {
    let mut machine = CommandDispatch::new(cmd);
    assert!(matches!(machine.pending(), Action::ClearFlags(flags) if flags == Flags::before_command()));
    machine.advance(Event::Performed);
    assert!(matches!(machine.pending(), Action::ReadStatus));
    machine.advance(Event::Status(Status::clear()));
    assert!(matches!(machine.pending(), Action::SendCommand { .. }));
    machine.advance(Event::Performed);
    assert!(matches!(machine.pending(), Action::ReadStatus));
    assert_eq!(machine.result(), None);
    machine.advance(Event::Status(answer));
    match machine.pending() {
        Action::Finished(result) => {
            assert_eq!(machine.result(), Some(result));
            result
        }
        other => panic!("the dispatch goes on with {:?}", other),
    }
}

#[test]
fn commands_are_as_numbered() {
    assert_eq!(Cmd::idle(), Cmd { cmd: 0, arg: 0, resp: Response::Nothing });
    assert_eq!(Cmd::all_send_cid(), Cmd { cmd: 2, arg: 0, resp: Response::Long });
    assert_eq!(Cmd::send_rel_addr(), Cmd { cmd: 3, arg: 0, resp: Response::Short });
    assert_eq!(Cmd::cmd6(2), Cmd { cmd: 6, arg: 2, resp: Response::Short });
    assert_eq!(Cmd::sel_desel_card(0x10000), Cmd { cmd: 7, arg: 0x10000, resp: Response::Short });
    assert_eq!(Cmd::hs_send_ext_csd(0x1AA), Cmd { cmd: 8, arg: 0x1AA, resp: Response::Short });
    assert_eq!(Cmd::send_csd(0x20000), Cmd { cmd: 9, arg: 0x20000, resp: Response::Long });
    assert_eq!(Cmd::stop_transmission(), Cmd { cmd: 12, arg: 0, resp: Response::Short });
    assert_eq!(Cmd::card_status(5), Cmd { cmd: 13, arg: 5, resp: Response::Short });
    assert_eq!(Cmd::set_block_length(512), Cmd { cmd: 16, arg: 512, resp: Response::Short });
    assert_eq!(Cmd::read_single_block(9), Cmd { cmd: 17, arg: 9, resp: Response::Short });
    assert_eq!(Cmd::read_multiple_blocks(9), Cmd { cmd: 18, arg: 9, resp: Response::Short });
    assert_eq!(Cmd::write_single_block(9), Cmd { cmd: 24, arg: 9, resp: Response::Short });
    assert_eq!(Cmd::app_op_cmd(7), Cmd { cmd: 41, arg: 7, resp: Response::Short });
    assert_eq!(Cmd::cmd51(), Cmd { cmd: 51, arg: 0, resp: Response::Short });
    assert_eq!(Cmd::app_cmd(0x30000), Cmd { cmd: 55, arg: 0x30000, resp: Response::Short });
    assert_eq!(Cmd::new(63, 1, Response::Long), Cmd { cmd: 63, arg: 1, resp: Response::Long });
}

#[test]
fn response_length_field() {
    assert_eq!(Response::Nothing.bits(), 0);
    assert_eq!(Response::Short.bits(), 1);
    assert_eq!(Response::Long.bits(), 3);
}

#[test]
fn dispatch_without_response_ends_when_sent() {
    assert_eq!(dispatch(Cmd::idle(), flags(|s| s.cmdsent = true)), Ok(()));
}

#[test]
fn dispatch_with_response_ends_when_it_came() {
    assert_eq!(dispatch(Cmd::send_rel_addr(), flags(|s| s.cmdrend = true)), Ok(()));
    assert_eq!(dispatch(Cmd::all_send_cid(), flags(|s| s.cmdrend = true)), Ok(()));
}

#[test]
fn dispatch_reports_hardware_timeout() {
    assert_eq!(dispatch(Cmd::idle(), flags(|s| s.ctimeout = true)), Err(Error::Timeout));
    assert_eq!(dispatch(Cmd::send_rel_addr(), flags(|s| s.ctimeout = true)), Err(Error::Timeout));
}

#[test]
fn dispatch_reports_crc_failure() {
    assert_eq!(dispatch(Cmd::send_rel_addr(), flags(|s| s.ccrcfail = true)), Err(Error::Crc));
}

#[test]
fn dispatch_timeout_counts_before_crc() {
    let both = flags(|s| {
        s.ctimeout = true;
        s.ccrcfail = true;
        s.cmdrend = true;
    });
    assert_eq!(dispatch(Cmd::send_rel_addr(), both), Err(Error::Timeout));
}

#[test]
fn dispatch_sets_the_stop_bit_for_stop_transmission_only() {
    let commands = [
        Cmd::idle(),
        Cmd::all_send_cid(),
        Cmd::send_rel_addr(),
        Cmd::cmd6(0),
        Cmd::sel_desel_card(0),
        Cmd::hs_send_ext_csd(0),
        Cmd::send_csd(0),
        Cmd::stop_transmission(),
        Cmd::card_status(0),
        Cmd::set_block_length(0),
        Cmd::read_single_block(0),
        Cmd::read_multiple_blocks(0),
        Cmd::write_single_block(0),
        Cmd::app_op_cmd(0),
        Cmd::cmd51(),
        Cmd::app_cmd(0),
    ];
    for cmd in commands {
        let mut machine = CommandDispatch::new(cmd);
        machine.advance(Event::Performed);
        machine.advance(Event::Status(Status::clear()));
        match machine.pending() {
            Action::SendCommand { cmd: sent, stop } => {
                assert_eq!(sent, cmd);
                assert_eq!(stop, cmd.cmd == 12);
            }
            other => panic!("no command is sent but {:?}", other),
        }
    }
}

#[test]
fn dispatch_waits_for_the_command_path() {
    let mut machine = CommandDispatch::new(Cmd::send_rel_addr());
    machine.advance(Event::Performed);
    for _ in 0..1000 {
        machine.advance(Event::Status(flags(|s| s.cpsmact = true)));
        assert!(matches!(machine.pending(), Action::ReadStatus));
        assert!(matches!(machine.phase, DispatchPhase::AwaitIdle));
    }
    // An active data path does not hold a command back.
    machine.advance(Event::Status(flags(|s| s.dpsmact = true)));
    assert!(matches!(machine.pending(), Action::SendCommand { .. }));
}

#[test]
fn dispatch_polls_until_flagged() {
    let mut machine = CommandDispatch::new(Cmd::send_rel_addr());
    machine.advance(Event::Performed);
    machine.advance(Event::Status(Status::clear()));
    machine.advance(Event::Performed);
    for k in 0..1000u32 {
        assert!(matches!(machine.phase, DispatchPhase::Poll { remaining } if remaining == POLL_LIMIT - k));
        // The flag of a command without response does not end one with.
        machine.advance(Event::Status(flags(|s| s.cmdsent = true)));
        assert_eq!(machine.result(), None);
    }
    machine.advance(Event::Status(flags(|s| s.cmdrend = true)));
    assert_eq!(machine.result(), Some(Ok(())));
}

#[test]
fn dispatch_gives_up_when_the_countdown_runs_out() {
    let mut machine = CommandDispatch {
        cmd: Cmd::send_rel_addr(),
        phase: DispatchPhase::Poll { remaining: 2 },
    };
    machine.advance(Event::Status(Status::clear()));
    assert_eq!(machine.result(), None);
    machine.advance(Event::Status(Status::clear()));
    assert_eq!(machine.result(), None);
    machine.advance(Event::Status(Status::clear()));
    assert_eq!(machine.result(), Some(Err(Error::SoftwareTimeout)));
    assert!(matches!(machine.pending(), Action::Finished(Err(Error::SoftwareTimeout))));
}

#[test]
fn dispatch_countdown_counts_before_crc_and_after_timeout() {
    let mut machine = CommandDispatch {
        cmd: Cmd::send_rel_addr(),
        phase: DispatchPhase::Poll { remaining: 0 },
    };
    machine.advance(Event::Status(flags(|s| {
        s.ccrcfail = true;
        s.cmdrend = true;
    })));
    assert_eq!(machine.result(), Some(Err(Error::SoftwareTimeout)));
    let mut machine = CommandDispatch {
        cmd: Cmd::send_rel_addr(),
        phase: DispatchPhase::Poll { remaining: 0 },
    };
    machine.advance(Event::Status(flags(|s| s.ctimeout = true)));
    assert_eq!(machine.result(), Some(Err(Error::Timeout)));
}

#[test]
fn dispatch_outcome_by_priority() {
    let clear = Status::clear();
    assert_eq!(CommandDispatch::outcome(clear, 1), Ok(()));
    assert_eq!(CommandDispatch::outcome(clear, 0), Err(Error::SoftwareTimeout));
    assert_eq!(CommandDispatch::outcome(flags(|s| s.ccrcfail = true), 1), Err(Error::Crc));
    assert_eq!(CommandDispatch::outcome(flags(|s| s.ctimeout = true), 0), Err(Error::Timeout));
}

#[test]
fn dispatch_ignores_events_of_the_wrong_kind() {
    let mut machine = CommandDispatch::new(Cmd::send_rel_addr());
    machine.advance(Event::Word(1));
    machine.advance(Event::Status(Status::clear()));
    machine.advance(Event::Flag(true));
    assert!(matches!(machine.pending(), Action::ClearFlags(_)));
    machine.advance(Event::Performed);
    machine.advance(Event::Performed);
    machine.advance(Event::Word(7));
    assert!(matches!(machine.pending(), Action::ReadStatus));
    assert!(matches!(machine.phase, DispatchPhase::AwaitIdle));
}

#[test]
fn dispatch_that_has_ended_stays_ended() {
    let mut machine = CommandDispatch::new(Cmd::idle());
    machine.advance(Event::Performed);
    machine.advance(Event::Status(Status::clear()));
    machine.advance(Event::Performed);
    machine.advance(Event::Status(flags(|s| s.ctimeout = true)));
    assert_eq!(machine.result(), Some(Err(Error::Timeout)));
    machine.advance(Event::Status(flags(|s| s.cmdsent = true)));
    machine.advance(Event::Performed);
    assert_eq!(machine.result(), Some(Err(Error::Timeout)));
}

#[test]
fn flags_cleared_before_a_command() {
    let flags = Flags::before_command();
    assert!(flags.ccrcfail && flags.ctimeout && flags.cmdrend && flags.cmdsent);
    assert!(flags.dataend && flags.dbckend && flags.dcrcfail && flags.dtimeout);
    assert!(flags.sdioit && flags.rxoverr && flags.txunderr);
    assert!(!flags.dhold && !flags.dabort && !flags.idmate && !flags.idmabtc);
}

#[test]
fn flags_of_the_data_path() {
    let flags = Flags::of_data_path();
    assert!(flags.dcrcfail && flags.dtimeout && flags.txunderr && flags.rxoverr);
    assert!(flags.dataend && flags.dhold && flags.dbckend && flags.dabort);
    assert!(flags.idmate && flags.idmabtc);
    assert!(!flags.ccrcfail && !flags.ctimeout && !flags.cmdrend && !flags.cmdsent);
    assert!(!flags.sdioit);
}
