use std::cell::RefCell;
use std::rc::Rc;

use nrf52::constants::{
    BLE_ADVERTISING_ACCESS_ADDRESS, PPI_CHEN_CH20, PPI_CHEN_CH21, PPI_CHEN_CH26, PPI_CHEN_CH27,
    RADIO_INTENSET_ADDRESS, RADIO_INTENSET_DISABLED, RADIO_INTENSET_END, RADIO_SHORTS_ADDRESS_BCSTART,
    RADIO_SHORTS_END_DISABLE, RADIO_SHORTS_READY_START, RADIO_STATE_DISABLE,
    RADIO_STATE_TXDISABLE, TxPower,
};
use nrf52::hil::{
    AdvertisementClient, PhyTransition, RadioChannel, ReadAction, ReturnCode, RxClient, TxClient,
    TxImmediate,
};
use nrf52::radio::{
    crc_code, AddressOutcome, DisabledOutcome, EndOutcome, Radio, RadioState, RX_PAYLOAD_HANDLE,
    TX_PAYLOAD_HANDLE,
};

type Log = Rc<RefCell<Vec<String>>>;

struct Receiver {
    log: Log,
    start: ReadAction,
    end: PhyTransition,
}

impl RxClient for Receiver {
    fn receive_start(&mut self, buf: &[u8; 260], len: usize) -> ReadAction {
        self.log.borrow_mut().push(format!("start {} {}", len, buf[1]));
        self.start
    }

    fn receive_end(&mut self, _buf: &[u8; 260], len: usize, crc: ReturnCode) -> PhyTransition {
        self.log.borrow_mut().push(format!("end {} {:?}", len, crc));
        self.end
    }
}

struct Transmitter;

impl TxClient for Transmitter {}

struct Advertiser {
    log: Log,
    answer: TxImmediate,
}

impl AdvertisementClient for Advertiser {
    fn advertisement_done(&mut self) -> TxImmediate {
        self.log.borrow_mut().push("done".to_string());
        self.answer
    }

    fn timer_expired(&mut self) {
        self.log.borrow_mut().push("expired".to_string());
    }
}

type TestRadio = Radio<Receiver, Transmitter, Advertiser>;

fn radio_with(start: ReadAction, end: PhyTransition, answer: TxImmediate) -> (TestRadio, Log) {
    let log: Log = Rc::new(RefCell::new(Vec::new()));
    let mut radio: TestRadio = Radio::new();
    radio.set_receive_client(Receiver { log: log.clone(), start, end });
    radio.set_transmit_client(Transmitter);
    radio.set_advertisement_client(Advertiser { log: log.clone(), answer });
    (radio, log)
}

/// The hardware latches an access address and the LENGTH byte.
fn inject_address(radio: &mut TestRadio, length: u8) {
    let core = radio.radio_core_mut();
    core.rx_payload[1] = length;
    core.regs.event_address = 1;
    core.regs.bcmatch = 1;
}

/// The hardware finishes a frame at timer value `t`.
fn inject_end(radio: &mut TestRadio, t: u32, crc_ok: bool) {
    let core = radio.radio_core_mut();
    core.regs.event_end = 1;
    core.regs.crcok = if crc_ok { 1 } else { 0 };
    core.timer.cc2 = t;
}

#[test]
fn new_radio_is_uninitialized() {
    let radio: TestRadio = Radio::new();
    let core = radio.radio_core();
    assert_eq!(core.state, RadioState::Uninitialized);
    assert_eq!(core.tx_power, TxPower::ZerodBm);
    assert_eq!(core.transition, PhyTransition::NoTransition);
    assert!(core.channel.is_none());
    assert_eq!(core.regs.state, RADIO_STATE_DISABLE);
    assert_eq!(core.ppi_chen, 0);
}

#[test]
fn initialize_twice_is_idempotent() {
    let mut radio: TestRadio = Radio::new();
    radio.ble_initialize();
    let once = *radio.radio_core();
    radio.ble_initialize();
    let twice = *radio.radio_core();
    assert_eq!(once.regs, twice.regs);
    assert_eq!(once.timer, twice.timer);
    assert_eq!(once.ppi_chen, twice.ppi_chen);
    assert_eq!(twice.state, RadioState::Initialized);
}

#[test]
fn ble_registers_after_initialize() {
    let mut radio: TestRadio = Radio::new();
    radio.ble_initialize();
    let core = radio.radio_core();
    assert_eq!(core.regs.power, 1);
    assert_eq!(core.regs.mode, 3);
    assert_eq!(core.regs.crccnf, 0x103);
    assert_eq!(core.regs.crcpoly, 0x65B);
    assert_eq!(core.regs.crcinit, 0x555555);
    assert_eq!(core.regs.pcnf0, 0x108);
    assert_eq!(core.regs.pcnf1, 0x0203_00ff);
    assert_eq!(core.regs.modecnf0, 1);
    assert_eq!(core.regs.tifs, 150);
    assert_eq!(core.regs.txaddress, 0);
    assert_eq!(core.regs.rxaddresses, 1);
    assert_eq!(core.ppi_chen, PPI_CHEN_CH26 | PPI_CHEN_CH27);
    assert_eq!(core.timer.prescaler, 4);
    assert_eq!(core.timer.bitmode, 3);
    assert!(core.timer.running);
    assert_eq!(core.state, RadioState::Initialized);
}

#[test]
fn access_address_split() {
    let mut radio: TestRadio = Radio::new();
    radio.radio_core_mut().regs.prefix0 = 0x1234_5600;
    radio.ble_set_access_address(BLE_ADVERTISING_ACCESS_ADDRESS);
    let core = radio.radio_core();
    assert_eq!(core.regs.prefix0 & 0xff, 0x8e);
    assert_eq!(core.regs.prefix0, 0x1234_568e);
    assert_eq!(core.regs.base0, 0x89be_d600);
}

#[test]
fn tx_programs_shortcuts() {
    let mut radio: TestRadio = Radio::new();
    radio.ble_initialize();
    radio.radio_core_mut().regs.state = RADIO_STATE_TXDISABLE;
    radio.tx();
    let core = radio.radio_core();
    assert_eq!(core.regs.state, RADIO_STATE_DISABLE);
    assert_eq!(core.regs.shorts, RADIO_SHORTS_READY_START | RADIO_SHORTS_END_DISABLE);
    assert_ne!(core.regs.inten & RADIO_INTENSET_DISABLED, 0);
    assert_eq!(core.regs.packetptr, TX_PAYLOAD_HANDLE);
    assert_eq!(core.regs.task_txen, 1);
    assert_eq!(core.state, RadioState::TX);
}

#[test]
fn rx_programs_shortcuts() {
    let mut radio: TestRadio = Radio::new();
    radio.ble_initialize();
    radio.radio_core_mut().ppi_chen |= PPI_CHEN_CH20;
    radio.radio_core_mut().regs.inten = RADIO_INTENSET_END;
    radio.rx();
    let core = radio.radio_core();
    assert_eq!(
        core.regs.shorts,
        RADIO_SHORTS_READY_START | RADIO_SHORTS_END_DISABLE | RADIO_SHORTS_ADDRESS_BCSTART
    );
    assert_eq!(core.regs.bcc, 8);
    assert_eq!(core.regs.inten, RADIO_INTENSET_ADDRESS);
    assert_eq!(core.regs.packetptr, RX_PAYLOAD_HANDLE);
    assert_eq!(core.ppi_chen & PPI_CHEN_CH20, 0);
    assert_eq!(core.regs.task_rxen, 1);
    assert_eq!(core.state, RadioState::RX);
}

#[test]
fn turnaround_tx_after_received_frame() {
    let (mut radio, log) =
        radio_with(ReadAction::ReadFrameAndMoveToTX, PhyTransition::MoveToTX, TxImmediate::GoToSleep);
    radio.receive_advertisement();
    inject_address(&mut radio, 12);
    let report = radio.handle_interrupt();
    assert_eq!(report.address, Some(AddressOutcome::MoveToTX));
    assert_eq!(radio.radio_core().transition, PhyTransition::MoveToTX);
    inject_end(&mut radio, 1000, true);
    let report = radio.handle_interrupt();
    assert_eq!(report.end, Some(EndOutcome::MoveToTX));
    let core = radio.radio_core();
    assert_eq!(core.timer.cc0, 1000 + 150 - 7 - 40 - 3);
    assert_eq!(core.timer.cc0, 1100);
    assert_ne!(core.ppi_chen & PPI_CHEN_CH20, 0);
    assert_eq!(core.ppi_chen & PPI_CHEN_CH21, 0);
    assert_eq!(core.state, RadioState::TX);
    assert_eq!(core.regs.packetptr, TX_PAYLOAD_HANDLE);
    assert_eq!(*log.borrow(), vec!["start 14 12".to_string(), "end 14 SUCCESS".to_string()]);
}

#[test]
fn turnaround_rx_after_transmission() {
    let (mut radio, _log) =
        radio_with(ReadAction::ReadFrameAndStayRX, PhyTransition::NoTransition, TxImmediate::GoToSleep);
    radio.ble_initialize();
    radio.set_transition_state(PhyTransition::MoveToRX);
    radio.tx();
    {
        let core = radio.radio_core_mut();
        core.regs.event_disabled = 1;
        core.timer.cc2 = 2000;
    }
    let report = radio.handle_interrupt();
    assert_eq!(report.disabled, Some(DisabledOutcome::TxEnd(None)));
    let core = radio.radio_core();
    assert_eq!(core.timer.cc0, 2000 + 150 - 3 - 40 - 2);
    assert_eq!(core.timer.cc0, 2105);
    assert_ne!(core.ppi_chen & PPI_CHEN_CH21, 0);
    assert_eq!(core.state, RadioState::RX);
    assert_eq!(core.regs.bcc, 8);
}

#[test]
fn turnaround_wraps_with_the_timer() {
    let (mut radio, _log) =
        radio_with(ReadAction::ReadFrameAndStayRX, PhyTransition::MoveToTX, TxImmediate::GoToSleep);
    radio.receive_advertisement();
    inject_address(&mut radio, 3);
    radio.handle_interrupt();
    inject_end(&mut radio, 0xffff_fff0, true);
    radio.handle_interrupt();
    assert_eq!(radio.radio_core().timer.cc0, 0x54);
}

#[test]
fn end_to_end_advertisement() {
    let (mut radio, log) =
        radio_with(ReadAction::ReadFrameAndStayRX, PhyTransition::NoTransition, TxImmediate::GoToSleep);
    radio.receive_advertisement();
    assert_eq!(radio.radio_core().state, RadioState::RX);
    inject_address(&mut radio, 10);
    let report = radio.handle_interrupt();
    assert_eq!(report.address, Some(AddressOutcome::StayRX));
    assert_eq!(report.disabled, None);
    assert_eq!(report.end, None);
    assert_ne!(radio.radio_core().regs.inten & RADIO_INTENSET_END, 0);
    inject_end(&mut radio, 500, true);
    let report = radio.handle_interrupt();
    assert_eq!(report.end, Some(EndOutcome::Finished(TxImmediate::GoToSleep)));
    assert_eq!(
        *log.borrow(),
        vec!["start 12 10".to_string(), "end 12 SUCCESS".to_string(), "done".to_string()]
    );
    let core = radio.radio_core();
    assert_eq!(core.state, RadioState::Initialized);
    assert_eq!(core.regs.inten, 0);
    assert_eq!(core.regs.shorts, 0);
    assert_eq!(core.regs.task_disable, 1);
}

#[test]
fn crc_failure_reaches_the_client() {
    let (mut radio, log) =
        radio_with(ReadAction::ReadFrameAndStayRX, PhyTransition::NoTransition, TxImmediate::GoToSleep);
    radio.receive_advertisement();
    inject_address(&mut radio, 6);
    radio.handle_interrupt();
    inject_end(&mut radio, 10, false);
    radio.handle_interrupt();
    assert_eq!(log.borrow()[1], "end 8 FAIL");
}

#[test]
fn address_aborts_without_length() {
    let (mut radio, log) =
        radio_with(ReadAction::ReadFrameAndStayRX, PhyTransition::NoTransition, TxImmediate::GoToSleep);
    radio.receive_advertisement();
    {
        let core = radio.radio_core_mut();
        core.regs.event_address = 1;
        core.regs.bcmatch = 0;
        core.regs.state = RADIO_STATE_DISABLE;
    }
    let report = radio.handle_interrupt();
    assert_eq!(report.address, Some(AddressOutcome::Aborted));
    assert!(log.borrow().is_empty());
    let core = radio.radio_core();
    assert_eq!(core.regs.inten, 0);
    assert_eq!(core.regs.shorts, 0);
    assert_eq!(core.regs.event_address, 0);
}

#[test]
fn skipped_frame_starts_tx_when_asked() {
    let (mut radio, log) =
        radio_with(ReadAction::SkipFrame, PhyTransition::NoTransition, TxImmediate::TX);
    radio.receive_advertisement();
    inject_address(&mut radio, 4);
    let report = radio.handle_interrupt();
    assert_eq!(report.address, Some(AddressOutcome::Skipped(TxImmediate::TX)));
    assert_eq!(*log.borrow(), vec!["start 6 4".to_string(), "done".to_string()]);
    let core = radio.radio_core();
    assert_eq!(core.state, RadioState::TX);
    assert_eq!(core.regs.task_txen, 1);
    assert_eq!(core.ppi_chen & PPI_CHEN_CH21, 0);
}

#[test]
fn skipped_frame_sleeps_without_advertisement_client() {
    let log: Log = Rc::new(RefCell::new(Vec::new()));
    let mut radio: TestRadio = Radio::new();
    radio.set_receive_client(Receiver {
        log: log.clone(),
        start: ReadAction::SkipFrame,
        end: PhyTransition::NoTransition,
    });
    radio.receive_advertisement();
    inject_address(&mut radio, 4);
    let report = radio.handle_interrupt();
    assert_eq!(report.address, Some(AddressOutcome::Skipped(TxImmediate::GoToSleep)));
    assert_eq!(radio.radio_core().state, RadioState::Initialized);
}

#[test]
fn end_of_frame_can_return_to_rx() {
    let (mut radio, _log) =
        radio_with(ReadAction::ReadFrameAndStayRX, PhyTransition::MoveToRX, TxImmediate::GoToSleep);
    radio.receive_advertisement();
    inject_address(&mut radio, 34);
    radio.handle_interrupt();
    inject_end(&mut radio, 77, true);
    let report = radio.handle_interrupt();
    assert_eq!(report.end, Some(EndOutcome::MoveToRX));
    let core = radio.radio_core();
    assert_eq!(core.state, RadioState::RX);
    assert_eq!(core.regs.task_rxen, 1);
    assert_eq!(core.regs.inten, RADIO_INTENSET_ADDRESS);
}

#[test]
fn end_of_exchange_responds_after_tifs() {
    let (mut radio, _log) = radio_with(
        ReadAction::ReadFrameAndStayRX,
        PhyTransition::NoTransition,
        TxImmediate::RespondAfterTifs,
    );
    radio.receive_advertisement();
    inject_address(&mut radio, 2);
    radio.handle_interrupt();
    inject_end(&mut radio, 300, true);
    let report = radio.handle_interrupt();
    assert_eq!(report.end, Some(EndOutcome::Finished(TxImmediate::RespondAfterTifs)));
    let core = radio.radio_core();
    assert_eq!(core.timer.cc0, 400);
    assert_ne!(core.ppi_chen & PPI_CHEN_CH20, 0);
    assert_eq!(core.state, RadioState::Initialized);
}

#[test]
fn rx_window_closing_notifies_advertiser() {
    let (mut radio, log) =
        radio_with(ReadAction::ReadFrameAndStayRX, PhyTransition::NoTransition, TxImmediate::GoToSleep);
    radio.receive_advertisement();
    {
        let core = radio.radio_core_mut();
        core.regs.inten |= RADIO_INTENSET_DISABLED;
        core.regs.event_disabled = 1;
    }
    let report = radio.handle_interrupt();
    assert_eq!(report.disabled, Some(DisabledOutcome::WindowClosed));
    assert_eq!(*log.borrow(), vec!["expired".to_string()]);
    assert_eq!(radio.radio_core().regs.event_disabled, 0);
}

#[test]
fn tx_end_with_move_to_tx_asks_advertiser() {
    let (mut radio, log) =
        radio_with(ReadAction::ReadFrameAndStayRX, PhyTransition::NoTransition, TxImmediate::TX);
    radio.ble_initialize();
    radio.set_transition_state(PhyTransition::MoveToTX);
    radio.tx();
    radio.radio_core_mut().regs.event_disabled = 1;
    radio.radio_core_mut().regs.task_txen = 0;
    let report = radio.handle_interrupt();
    assert_eq!(report.disabled, Some(DisabledOutcome::TxEnd(Some(TxImmediate::TX))));
    assert_eq!(*log.borrow(), vec!["done".to_string()]);
    assert_eq!(radio.radio_core().regs.task_txen, 1);
}

#[test]
fn tx_end_without_transition_is_quiet() {
    let (mut radio, log) =
        radio_with(ReadAction::ReadFrameAndStayRX, PhyTransition::NoTransition, TxImmediate::TX);
    radio.ble_initialize();
    radio.tx();
    radio.radio_core_mut().regs.event_disabled = 1;
    let report = radio.handle_interrupt();
    assert_eq!(report.disabled, Some(DisabledOutcome::TxEnd(None)));
    assert!(log.borrow().is_empty());
    assert_eq!(radio.radio_core().regs.inten & RADIO_INTENSET_DISABLED, 0);
}

#[test]
fn tx_power_is_validated() {
    let mut radio: TestRadio = Radio::new();
    assert_eq!(radio.set_tx_power(5), ReturnCode::ENOSUPPORT);
    assert_eq!(radio.radio_core().tx_power, TxPower::ZerodBm);
    assert_eq!(radio.set_tx_power(0xfc), ReturnCode::SUCCESS);
    assert_eq!(radio.radio_core().tx_power, TxPower::Negative4dBm);
    radio.ble_initialize();
    assert_eq!(radio.radio_core().regs.txpower, 0xfc);
    assert_eq!(TxPower::from_u8(0xd8), Some(TxPower::Negative40dBm));
    assert_eq!(TxPower::Positive4dBM.value(), 4);
}

#[test]
fn set_channel_programs_frequency_address_and_crc() {
    let mut radio: TestRadio = Radio::new();
    radio.ble_initialize();
    let channel = RadioChannel::from_channel_index(37).unwrap();
    radio.set_channel(channel, 0x5065_4321, 0x00ab_cdef);
    let core = radio.radio_core();
    assert_eq!(core.regs.frequency, 37);
    assert_eq!(core.regs.datawhiteiv, 37);
    assert_eq!(core.regs.prefix0 & 0xff, 0x50);
    assert_eq!(core.regs.base0, 0x6543_2100);
    assert_eq!(core.regs.crcinit, 0x00ab_cdef);
    assert_eq!(core.channel, Some(channel));
    assert_eq!(core.regs.state, RADIO_STATE_DISABLE);
}

#[test]
fn transmit_advertisement_loads_payload() {
    let mut radio: TestRadio = Radio::new();
    let buf = vec![0x42, 0x06, 1, 2, 3, 4, 5, 6];
    let back = radio.transmit_advertisement(buf.clone(), 5);
    assert_eq!(back, buf);
    let core = radio.radio_core();
    assert_eq!(&core.tx_payload[0..6], &[0x42, 0x06, 1, 2, 3, 0]);
    assert_eq!(core.state, RadioState::TX);
    assert_eq!(core.regs.task_txen, 1);
}

#[test]
fn advertisement_copy_is_bounded_by_buffer() {
    let mut radio: TestRadio = Radio::new();
    radio.radio_core_mut().tx_payload[3] = 9;
    let back = radio.set_advertisement_data(vec![7, 8], 10);
    assert_eq!(back, vec![7, 8]);
    assert_eq!(&radio.radio_core().tx_payload[0..4], &[7, 8, 0, 9]);
    let big = vec![1u8; 300];
    radio.replace_radio_buffer(big, 300);
    assert!(radio.radio_core().tx_payload.iter().all(|b| *b == 1));
}

#[test]
fn interrupt_masks() {
    let mut radio: TestRadio = Radio::new();
    radio.enable_interrupt(RADIO_INTENSET_END | RADIO_INTENSET_DISABLED);
    radio.clear_interrupt(RADIO_INTENSET_END);
    assert_eq!(radio.radio_core().regs.inten, RADIO_INTENSET_DISABLED);
    radio.enable_interrupts();
    assert_eq!(radio.radio_core().regs.inten, RADIO_INTENSET_DISABLED | RADIO_INTENSET_ADDRESS);
    radio.disable_all_interrupts();
    assert_eq!(radio.radio_core().regs.inten, 0);
}

#[test]
fn address_abort_needs_no_receive_client() {
    let mut radio: TestRadio = Radio::new();
    radio.receive_advertisement();
    radio.radio_core_mut().regs.event_address = 1;
    let report = radio.handle_interrupt();
    assert_eq!(report.address, Some(AddressOutcome::Aborted));
    assert_eq!(radio.radio_core().regs.inten, 0);
}

#[test]
fn crc_code_follows_crcok() {
    assert_eq!(crc_code(1), ReturnCode::SUCCESS);
    assert_eq!(crc_code(0), ReturnCode::FAIL);
    assert_eq!(crc_code(2), ReturnCode::FAIL);
}

#[test]
fn read_action_is_applied() {
    let (mut radio, log) =
        radio_with(ReadAction::ReadFrameAndStayRX, PhyTransition::NoTransition, TxImmediate::TX);
    radio.receive_advertisement();
    let o = radio.apply_read_action(ReadAction::ReadFrameAndMoveToTX);
    assert_eq!(o, AddressOutcome::MoveToTX);
    assert_eq!(radio.radio_core().transition, PhyTransition::MoveToTX);
    assert_ne!(radio.radio_core().regs.inten & RADIO_INTENSET_END, 0);
    assert!(log.borrow().is_empty());
    let o = radio.apply_read_action(ReadAction::SkipFrame);
    assert_eq!(o, AddressOutcome::Skipped(TxImmediate::TX));
    assert_eq!(*log.borrow(), vec!["done".to_string()]);
    assert_eq!(radio.radio_core().state, RadioState::TX);
}

#[test]
fn phy_transition_is_applied() {
    let (mut radio, log) = radio_with(
        ReadAction::ReadFrameAndStayRX,
        PhyTransition::NoTransition,
        TxImmediate::RespondAfterTifs,
    );
    radio.ble_initialize();
    radio.radio_core_mut().timer.cc2 = 40;
    let o = radio.apply_phy_transition(PhyTransition::MoveToTX);
    assert_eq!(o, EndOutcome::MoveToTX);
    assert_eq!(radio.radio_core().timer.cc0, 140);
    assert_eq!(radio.radio_core().state, RadioState::TX);
    assert!(log.borrow().is_empty());
    let o = radio.apply_phy_transition(PhyTransition::NoTransition);
    assert_eq!(o, EndOutcome::Finished(TxImmediate::RespondAfterTifs));
    assert_eq!(*log.borrow(), vec!["done".to_string()]);
    assert_eq!(radio.radio_core().state, RadioState::Initialized);
    let o = radio.apply_phy_transition(PhyTransition::MoveToRX);
    assert_eq!(o, EndOutcome::MoveToRX);
    assert_eq!(radio.radio_core().state, RadioState::RX);
}

#[test]
fn tx_immediate_is_applied() {
    let mut radio: TestRadio = Radio::new();
    radio.ble_initialize();
    radio.radio_core_mut().timer.cc2 = 7;
    radio.apply_tx_immediate(TxImmediate::GoToSleep);
    assert_eq!(radio.radio_core().timer.cc0, 0);
    assert_eq!(radio.radio_core().state, RadioState::Initialized);
    radio.apply_tx_immediate(TxImmediate::RespondAfterTifs);
    assert_eq!(radio.radio_core().timer.cc0, 107);
    assert_ne!(radio.radio_core().ppi_chen & PPI_CHEN_CH20, 0);
    radio.apply_tx_immediate(TxImmediate::TX);
    assert_eq!(radio.radio_core().state, RadioState::TX);
    assert_eq!(radio.radio_core().regs.task_txen, 1);
}
