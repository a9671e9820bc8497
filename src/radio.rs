//! Radio driver for BLE: register programming, TX/RX paths, turnaround
//! scheduling and interrupt dispatch to the link-layer clients.
//!
//! Packet layout in the DMA buffers: S0 (1 byte, PDU type), LENGTH (1 byte),
//! PDU payload. Preamble, access address and CRC are handled by the peripheral.
use vstd::prelude::*;
use crate::constants::{
    RADIO_INTENSET_END,
    RADIO_INTENSET_READY,
    RADIO_PAYLOAD_LENGTH,
    BLE_T_IFS,
    PPI_CHEN_CH20,
    PPI_CHEN_CH21,
    PPI_CHEN_CH26,
    PPI_CHEN_CH27,
    PPI_RADIO_SHUTDOWN_MASK,
    RADIO_CRCCNF_LEN_3BYTES,
    RADIO_CRCCNF_SKIPADDR,
    RADIO_CRCCNF_SKIPADDR_POS,
    RADIO_CRCINIT_BLE,
    RADIO_CRCPOLY_BLE,
    RADIO_EARLIER_LISTEN,
    RADIO_FAST_RAMPUP_TIME_TX,
    RADIO_INTENSET_ADDRESS,
    RADIO_INTENSET_DISABLED,
    RADIO_MODECNF0_RU_FAST,
    RADIO_MODE_BLE_1MBIT,
    RADIO_PCNF0_LFLEN_1BYTE,
    RADIO_PCNF0_LFLEN_POS,
    RADIO_PCNF0_PLEN_8BITS,
    RADIO_PCNF0_PLEN_POS,
    RADIO_PCNF0_S0LEN_POS,
    RADIO_PCNF0_S0_LEN_1BYTE,
    RADIO_PCNF0_S1INCL_MSK,
    RADIO_PCNF0_S1INCL_POS,
    RADIO_PCNF0_S1LEN_POS,
    RADIO_PCNF0_S1_ZERO,
    RADIO_PCNF1_BALEN_3BYTES,
    RADIO_PCNF1_BALEN_POS,
    RADIO_PCNF1_ENDIAN_LITTLE,
    RADIO_PCNF1_ENDIAN_POS,
    RADIO_PCNF1_MAXLEN_255BYTES,
    RADIO_PCNF1_MAXLEN_POS,
    RADIO_PCNF1_STATLEN_DONT_EXTEND,
    RADIO_PCNF1_STATLEN_POS,
    RADIO_PCNF1_WHITEEN_ENABLED,
    RADIO_PCNF1_WHITEEN_POS,
    RADIO_RX_END_DELAY,
    RADIO_SHORTS_ADDRESS_BCSTART,
    RADIO_SHORTS_END_DISABLE,
    RADIO_SHORTS_READY_START,
    RADIO_STATE_DISABLE,
    RADIO_STATE_RXDISABLE,
    RADIO_STATE_TXDISABLE,
    RADIO_TX_DELAY,
    RADIO_TX_END_DELAY,
    TxPower,
};
use crate::hil::{
    AdvertisementClient,
    PhyTransition,
    RadioChannel,
    ReadAction,
    ReturnCode,
    RxClient,
    TxClient,
    TxImmediate,
};

verus! {

/// PACKETPTR value that designates the TX payload buffer.
pub const TX_PAYLOAD_HANDLE: u32 = 1;

/// PACKETPTR value that designates the RX payload buffer.
pub const RX_PAYLOAD_HANDLE: u32 = 2;

/// Timer ticks from a received END to the TXEN trigger of the response.
pub const TX_AFTER_RX_OFFSET: u32 = BLE_T_IFS - RADIO_RX_END_DELAY - RADIO_FAST_RAMPUP_TIME_TX
    - RADIO_TX_DELAY;

/// Timer ticks from a transmitted END to the RXEN trigger of the reply window.
pub const RX_AFTER_TX_OFFSET: u32 = BLE_T_IFS - RADIO_TX_END_DELAY - RADIO_FAST_RAMPUP_TIME_TX
    - RADIO_EARLIER_LISTEN;

/// Image of the radio peripheral's registers. `inten` is the interrupt enable
/// mask, which INTENSET sets bits of and INTENCLR clears bits of; reading
/// either returns it. A task field holds 1 once the task was triggered.
#[derive(PartialEq, Eq, Structural, Clone, Copy, Debug)]
pub struct RadioRegisters {
    pub power: u32,
    pub task_txen: u32,
    pub task_rxen: u32,
    pub task_disable: u32,
    pub event_ready: u32,
    pub event_address: u32,
    pub event_end: u32,
    pub event_disabled: u32,
    pub event_devmatch: u32,
    pub event_rssiend: u32,
    pub bcmatch: u32,
    pub crcok: u32,
    pub state: u32,
    pub shorts: u32,
    pub inten: u32,
    pub packetptr: u32,
    pub frequency: u32,
    pub datawhiteiv: u32,
    pub mode: u32,
    pub pcnf0: u32,
    pub pcnf1: u32,
    pub modecnf0: u32,
    pub txaddress: u32,
    pub rxaddresses: u32,
    pub prefix0: u32,
    pub base0: u32,
    pub crccnf: u32,
    pub crcinit: u32,
    pub crcpoly: u32,
    pub tifs: u32,
    pub bcc: u32,
    pub txpower: u32,
}

/// Image of the 1 MHz reference timer: compare/capture registers CC[0..3],
/// the COMPARE[0] event and the configuration.
#[derive(PartialEq, Eq, Structural, Clone, Copy, Debug)]
pub struct TimerRegisters {
    pub cc0: u32,
    pub cc1: u32,
    pub cc2: u32,
    pub cc3: u32,
    pub events_compare0: u32,
    pub prescaler: u32,
    pub bitmode: u32,
    pub running: bool,
}

/// Lifecycle of the radio driver.
#[derive(PartialEq, Eq, Structural, Clone, Copy, Debug)]
pub enum RadioState {
    TX,
    RX,
    Initialized,
    Uninitialized,
}

/// The driver's state apart from its clients: the peripheral images it
/// programs (radio, timer, PPI channel enables), the two DMA buffers, and its
/// own bookkeeping.
#[derive(Clone, Copy, Debug)]
pub struct RadioCore {
    pub regs: RadioRegisters,
    pub timer: TimerRegisters,
    /// Enabled PPI channels, one bit per channel.
    pub ppi_chen: u32,
    pub tx_payload: [u8; 260],
    pub rx_payload: [u8; 260],
    pub tx_power: TxPower,
    pub state: RadioState,
    pub channel: Option<RadioChannel>,
    pub transition: PhyTransition,
}

/// The state a disabling peripheral settles in: TXDISABLE and RXDISABLE end in
/// DISABLED within a few microseconds; other states are left as they are.
pub open spec fn settled_state(s: u32) -> u32 {
    if s == RADIO_STATE_RXDISABLE || s == RADIO_STATE_TXDISABLE {
        RADIO_STATE_DISABLE
    } else {
        s
    }
}

/// `t + d` on the 32-bit timer, wrapping.
pub open spec fn timer_add(t: u32, d: u32) -> u32 {
    ((t + d) % 0x1_0000_0000) as u32
}

/// The registers of a peripheral just out of reset.
pub open spec fn reset_registers() -> RadioRegisters {
    RadioRegisters {
        power: 0,
        task_txen: 0,
        task_rxen: 0,
        task_disable: 0,
        event_ready: 0,
        event_address: 0,
        event_end: 0,
        event_disabled: 0,
        event_devmatch: 0,
        event_rssiend: 0,
        bcmatch: 0,
        crcok: 0,
        state: RADIO_STATE_DISABLE,
        shorts: 0,
        inten: 0,
        packetptr: 0,
        frequency: 0,
        datawhiteiv: 0,
        mode: 0,
        pcnf0: 0,
        pcnf1: 0,
        modecnf0: 0,
        txaddress: 0,
        rxaddresses: 0,
        prefix0: 0,
        base0: 0,
        crccnf: 0,
        crcinit: 0,
        crcpoly: 0,
        tifs: 0,
        bcc: 0,
        txpower: 0,
    }
}

/// PCNF0 for BLE: LENGTH of 8 bits, S0 of 1 byte, S1 of 0 bits, not included
/// in RAM, 8-bit preamble.
pub open spec fn ble_pcnf0() -> u32 {
    (RADIO_PCNF0_LFLEN_1BYTE << RADIO_PCNF0_LFLEN_POS) | (RADIO_PCNF0_S0_LEN_1BYTE
        << RADIO_PCNF0_S0LEN_POS) | (RADIO_PCNF0_S1_ZERO << RADIO_PCNF0_S1LEN_POS) | (
    RADIO_PCNF0_S1INCL_MSK << RADIO_PCNF0_S1INCL_POS) | (RADIO_PCNF0_PLEN_8BITS
        << RADIO_PCNF0_PLEN_POS)
}

/// PCNF1 for BLE: MAXLEN 255, no static length, 3-byte base address, little
/// endian, whitening on.
pub open spec fn ble_pcnf1() -> u32 {
    (RADIO_PCNF1_WHITEEN_ENABLED << RADIO_PCNF1_WHITEEN_POS) | (RADIO_PCNF1_ENDIAN_LITTLE
        << RADIO_PCNF1_ENDIAN_POS) | (RADIO_PCNF1_BALEN_3BYTES << RADIO_PCNF1_BALEN_POS) | (
    RADIO_PCNF1_STATLEN_DONT_EXTEND << RADIO_PCNF1_STATLEN_POS) | (RADIO_PCNF1_MAXLEN_255BYTES
        << RADIO_PCNF1_MAXLEN_POS)
}

/// CRCCNF for BLE: 3-byte CRC that skips the access address.
pub open spec fn ble_crccnf() -> u32 {
    (RADIO_CRCCNF_SKIPADDR << RADIO_CRCCNF_SKIPADDR_POS) | RADIO_CRCCNF_LEN_3BYTES
}

impl RadioCore {
    pub open spec fn with_regs(self, regs: RadioRegisters) -> RadioCore {
        RadioCore { regs, ..self }
    }

    pub open spec fn spec_enable_interrupt(self, intr: u32) -> RadioCore {
        self.with_regs(RadioRegisters { inten: self.regs.inten | intr, ..self.regs })
    }

    pub open spec fn spec_clear_interrupt(self, intr: u32) -> RadioCore {
        self.with_regs(RadioRegisters { inten: self.regs.inten & !intr, ..self.regs })
    }

    pub open spec fn spec_disable_all_interrupts(self) -> RadioCore {
        self.with_regs(RadioRegisters { inten: 0, ..self.regs })
    }

    pub open spec fn spec_enable_ppi(self, chen: u32) -> RadioCore {
        RadioCore { ppi_chen: self.ppi_chen | chen, ..self }
    }

    pub open spec fn spec_disable_ppi(self, chen: u32) -> RadioCore {
        RadioCore { ppi_chen: self.ppi_chen & !chen, ..self }
    }

    pub open spec fn spec_wait_until_disabled(self) -> RadioCore {
        self.with_regs(RadioRegisters { state: settled_state(self.regs.state), ..self.regs })
    }

    pub open spec fn spec_setup_tx(self) -> RadioCore {
        RadioCore {
            regs: RadioRegisters {
                packetptr: TX_PAYLOAD_HANDLE,
                event_ready: 0,
                event_end: 0,
                event_disabled: 0,
                shorts: RADIO_SHORTS_END_DISABLE | RADIO_SHORTS_READY_START,
                inten: self.regs.inten | RADIO_INTENSET_DISABLED,
                ..self.regs
            },
            state: RadioState::TX,
            ..self
        }
    }

    /// Waits for DISABLED, arms the TX shortcuts and triggers TXEN.
    pub open spec fn spec_tx(self) -> RadioCore {
        let c = self.spec_wait_until_disabled().spec_setup_tx();
        c.with_regs(RadioRegisters { task_txen: 1, ..c.regs })
    }

    pub open spec fn spec_setup_rx(self) -> RadioCore {
        RadioCore {
            regs: RadioRegisters {
                packetptr: RX_PAYLOAD_HANDLE,
                bcc: 8,
                event_address: 0,
                event_devmatch: 0,
                bcmatch: 0,
                event_rssiend: 0,
                crcok: 0,
                shorts: RADIO_SHORTS_END_DISABLE | RADIO_SHORTS_READY_START
                    | RADIO_SHORTS_ADDRESS_BCSTART,
                inten: self.regs.inten | RADIO_INTENSET_ADDRESS,
                ..self.regs
            },
            ppi_chen: self.ppi_chen & !PPI_CHEN_CH20,
            state: RadioState::RX,
            ..self
        }
    }

    /// Waits for DISABLED, masks all interrupts, clears END and DISABLED, arms
    /// the RX shortcuts and triggers RXEN.
    pub open spec fn spec_rx(self) -> RadioCore {
        let w = self.spec_wait_until_disabled();
        let c = w.with_regs(
            RadioRegisters { inten: 0, event_end: 0, event_disabled: 0, ..w.regs },
        ).spec_setup_rx();
        c.with_regs(RadioRegisters { task_rxen: 1, ..c.regs })
    }

    /// CC[0] = CC[2] + T_IFS - RX_END_DELAY - TX_RAMPUP - TX_DELAY, routed to TXEN.
    pub open spec fn spec_schedule_tx_after_t_ifs(self) -> RadioCore {
        RadioCore {
            timer: TimerRegisters {
                cc0: timer_add(self.timer.cc2, TX_AFTER_RX_OFFSET),
                events_compare0: 0,
                ..self.timer
            },
            ppi_chen: self.ppi_chen | PPI_CHEN_CH20,
            ..self
        }
    }

    /// CC[0] = CC[2] + T_IFS - TX_END_DELAY - TX_RAMPUP - earlier_listen, routed to RXEN.
    pub open spec fn spec_schedule_rx_after_t_ifs(self) -> RadioCore {
        RadioCore {
            timer: TimerRegisters {
                cc0: timer_add(self.timer.cc2, RX_AFTER_TX_OFFSET),
                events_compare0: 0,
                ..self.timer
            },
            ppi_chen: self.ppi_chen | PPI_CHEN_CH21,
            ..self
        }
    }

    /// Stops all radio activity and returns to Initialized.
    pub open spec fn spec_disable_radio(self) -> RadioCore {
        RadioCore {
            regs: RadioRegisters { inten: 0, shorts: 0, task_disable: 1, ..self.regs },
            ppi_chen: self.ppi_chen & !PPI_RADIO_SHUTDOWN_MASK,
            state: RadioState::Initialized,
            ..self
        }
    }

    /// The one-time BLE configuration, then the reference timer started.
    pub open spec fn spec_ble_initialize(self) -> RadioCore {
        let c = if self.state == RadioState::Uninitialized {
            RadioCore {
                regs: RadioRegisters {
                    power: 1,
                    txpower: self.tx_power.spec_value() as u32,
                    tifs: BLE_T_IFS,
                    mode: RADIO_MODE_BLE_1MBIT,
                    txaddress: 0,
                    rxaddresses: 1,
                    pcnf0: ble_pcnf0(),
                    pcnf1: ble_pcnf1(),
                    modecnf0: RADIO_MODECNF0_RU_FAST,
                    crccnf: ble_crccnf(),
                    crcinit: RADIO_CRCINIT_BLE,
                    crcpoly: RADIO_CRCPOLY_BLE,
                    ..self.regs
                },
                ppi_chen: self.ppi_chen | (PPI_CHEN_CH26 | PPI_CHEN_CH27),
                state: RadioState::Initialized,
                ..self
            }
        } else {
            self
        };
        RadioCore {
            timer: TimerRegisters { prescaler: 4, bitmode: 3, running: true, ..c.timer },
            ..c
        }
    }

    /// The access address split: bits 31..24 into the low byte of PREFIX0,
    /// bits 23..0 into the upper 24 bits of BASE0.
    pub open spec fn spec_set_access_address(self, aa: u32) -> RadioCore {
        self.with_regs(
            RadioRegisters {
                prefix0: (self.regs.prefix0 & 0xffffff00) | (aa >> 24),
                base0: aa << 8,
                ..self.regs
            },
        )
    }

    pub open spec fn spec_set_channel(self, channel: RadioChannel) -> RadioCore {
        RadioCore {
            regs: RadioRegisters {
                frequency: channel.spec_index() as u32,
                datawhiteiv: channel.spec_index() as u32,
                ..self.regs
            },
            channel: Some(channel),
            ..self
        }
    }
}

/// What the ADDRESS handler did.
#[derive(PartialEq, Eq, Structural, Clone, Copy, Debug)]
pub enum AddressOutcome {
    /// The radio reached DISABLED before the LENGTH byte: the frame is dropped.
    Aborted,
    /// The receive client answered `ReadFrameAndStayRX`.
    StayRX,
    /// The receive client answered `ReadFrameAndMoveToTX`.
    MoveToTX,
    /// The receive client answered `SkipFrame`; the advertisement client then
    /// answered the value held.
    Skipped(TxImmediate),
}

/// What the DISABLED handler did.
#[derive(PartialEq, Eq, Structural, Clone, Copy, Debug)]
pub enum DisabledOutcome {
    /// An RX window closed; the advertisement client was told.
    WindowClosed,
    /// A transmission ended; holds the advertisement client's answer when it
    /// was asked (transition MoveToTX).
    TxEnd(Option<TxImmediate>),
}

/// What the END handler did, by the receive client's answer.
#[derive(PartialEq, Eq, Structural, Clone, Copy, Debug)]
pub enum EndOutcome {
    MoveToTX,
    MoveToRX,
    /// The client answered `NoTransition`; the advertisement client then
    /// answered the value held.
    Finished(TxImmediate),
}

/// The handlers that one interrupt ran, in dispatch order.
#[derive(PartialEq, Eq, Structural, Clone, Copy, Debug)]
pub struct InterruptReport {
    pub address: Option<AddressOutcome>,
    pub disabled: Option<DisabledOutcome>,
    pub end: Option<EndOutcome>,
}

impl InterruptReport {
    /// Only paths that call no client ran: an aborted ADDRESS, a TX end
    /// without transition, no END.
    pub open spec fn calls_no_client(self) -> bool {
        &&& (self.address is None || self.address == Some(AddressOutcome::Aborted))
        &&& (self.disabled is None || self.disabled == Some(DisabledOutcome::TxEnd(None)))
        &&& self.end is None
    }
}

impl RadioCore {
    /// Whether a dispatch from this state handles ADDRESS with BCMATCH set,
    /// so that the receive client is called and DISABLED is skipped.
    pub open spec fn address_keeps_frame(self) -> bool {
        self.spec_ready_step().address_pending(self.regs.inten) && self.regs.bcmatch != 0
    }

    /// Whether an ADDRESS interrupt is enabled in `mask` and raised.
    pub open spec fn address_pending(self, mask: u32) -> bool {
        mask & RADIO_INTENSET_ADDRESS != 0 && self.regs.event_address == 1
    }

    /// Whether a DISABLED interrupt is enabled in `mask` and raised.
    pub open spec fn disabled_pending(self, mask: u32) -> bool {
        mask & RADIO_INTENSET_DISABLED != 0 && self.regs.event_disabled == 1
    }

    /// Whether an END interrupt is enabled in `mask` and raised.
    pub open spec fn end_pending(self, mask: u32) -> bool {
        mask & RADIO_INTENSET_END != 0 && self.regs.event_end == 1
    }

    /// The READY step: the READY interrupt is masked once it fired.
    pub open spec fn spec_ready_step(self) -> RadioCore {
        if self.regs.inten & RADIO_INTENSET_READY != 0 && self.regs.event_ready == 1 {
            self.spec_clear_interrupt(RADIO_INTENSET_READY)
        } else {
            self
        }
    }

    /// After ADDRESS the receiver either latched the LENGTH byte (BCMATCH)
    /// or fell back to DISABLED; BCMATCH takes precedence.
    pub open spec fn address_aborts(self) -> bool {
        self.regs.bcmatch == 0
    }

    /// ADDRESS acknowledged: event cleared, ADDRESS and DISABLED masked.
    pub open spec fn spec_ack_address(self) -> RadioCore {
        self.with_regs(RadioRegisters { event_address: 0, ..self.regs }).spec_clear_interrupt(
            RADIO_INTENSET_DISABLED | RADIO_INTENSET_ADDRESS,
        )
    }

    /// TXEN now when the advertisement client asked for TX, nothing otherwise.
    pub open spec fn spec_tx_if_asked(self, t: TxImmediate) -> RadioCore {
        if t == TxImmediate::TX {
            self.spec_tx()
        } else {
            self
        }
    }

    /// What follows an acknowledged ADDRESS, by outcome.
    pub open spec fn spec_address_step(self, o: AddressOutcome) -> RadioCore {
        match o {
            AddressOutcome::Aborted => self.with_regs(
                RadioRegisters { inten: 0, shorts: 0, ..self.regs },
            ),
            AddressOutcome::StayRX => self.spec_enable_interrupt(RADIO_INTENSET_END),
            AddressOutcome::MoveToTX => RadioCore {
                transition: PhyTransition::MoveToTX,
                ..self
            }.spec_enable_interrupt(RADIO_INTENSET_END),
            AddressOutcome::Skipped(t) => self.spec_disable_radio().spec_wait_until_disabled().spec_tx_if_asked(t),
        }
    }

    pub open spec fn spec_address_event(self, o: AddressOutcome) -> RadioCore {
        self.spec_ack_address().spec_address_step(o)
    }

    /// The outcomes the ADDRESS handler can report from this state.
    pub open spec fn address_outcome_valid(self, o: AddressOutcome, has_adv: bool) -> bool {
        &&& (o == AddressOutcome::Aborted) == self.address_aborts()
        &&& (!has_adv ==> (o matches AddressOutcome::Skipped(t) ==> t == TxImmediate::GoToSleep))
    }

    pub open spec fn spec_disabled_event(self, o: DisabledOutcome) -> RadioCore {
        match o {
            DisabledOutcome::WindowClosed => self.with_regs(
                RadioRegisters { event_disabled: 0, ..self.regs },
            ),
            DisabledOutcome::TxEnd(q) => {
                let a = self.with_regs(
                    RadioRegisters {
                        event_disabled: 0,
                        inten: self.regs.inten & !RADIO_INTENSET_DISABLED,
                        event_end: 0,
                        ..self.regs
                    },
                );
                match self.transition {
                    PhyTransition::MoveToRX => a.spec_setup_rx().spec_schedule_rx_after_t_ifs(),
                    PhyTransition::MoveToTX => {
                        let d = a.spec_wait_until_disabled();
                        if q == Some(TxImmediate::TX) {
                            d.spec_tx()
                        } else {
                            d
                        }
                    },
                    PhyTransition::NoTransition => a,
                }
            },
        }
    }

    /// The outcomes the DISABLED handler can report from this state.
    pub open spec fn disabled_outcome_valid(self, o: DisabledOutcome, has_adv: bool) -> bool {
        match o {
            DisabledOutcome::WindowClosed => self.state == RadioState::RX,
            DisabledOutcome::TxEnd(q) => {
                &&& self.state != RadioState::RX
                &&& (q is Some) == (self.transition == PhyTransition::MoveToTX)
                &&& (q is Some && !has_adv ==> q == Some(TxImmediate::GoToSleep))
            },
        }
    }

    /// END acknowledged: event cleared, END masked, PPI channel 21 off.
    pub open spec fn spec_ack_end(self) -> RadioCore {
        self.with_regs(RadioRegisters { event_end: 0, ..self.regs }).spec_clear_interrupt(
            RADIO_INTENSET_END,
        ).spec_disable_ppi(PPI_CHEN_CH21)
    }

    /// The advertisement client's answer at the end of an exchange: TXEN now,
    /// TXEN at T_IFS after the captured END, or nothing.
    pub open spec fn spec_apply_tx_immediate(self, t: TxImmediate) -> RadioCore {
        match t {
            TxImmediate::TX => self.spec_tx(),
            TxImmediate::RespondAfterTifs => self.spec_schedule_tx_after_t_ifs(),
            TxImmediate::GoToSleep => self,
        }
    }

    /// What follows an acknowledged END, by outcome.
    pub open spec fn spec_end_step(self, o: EndOutcome) -> RadioCore {
        match o {
            EndOutcome::MoveToTX => self.spec_setup_tx().spec_schedule_tx_after_t_ifs(),
            EndOutcome::MoveToRX => self.spec_disable_radio().spec_wait_until_disabled().spec_setup_rx().spec_rx(),
            EndOutcome::Finished(t) => self.spec_disable_radio().spec_wait_until_disabled().spec_apply_tx_immediate(t),
        }
    }

    pub open spec fn spec_end_event(self, o: EndOutcome) -> RadioCore {
        self.spec_ack_end().spec_end_step(o)
    }

    /// The outcomes the END handler can report.
    pub open spec fn end_outcome_valid(o: EndOutcome, has_adv: bool) -> bool {
        !has_adv ==> (o matches EndOutcome::Finished(t) ==> t == TxImmediate::GoToSleep)
    }

    /// The state after the ADDRESS step of a dispatch.
    pub open spec fn after_address(self, r: InterruptReport) -> RadioCore {
        let c0 = self.spec_ready_step();
        match r.address {
            Some(o) => c0.spec_address_event(o),
            None => c0,
        }
    }

    /// The enable mask that the DISABLED step tests: DISABLED is dropped from
    /// it once an ADDRESS was handled without abort, as END finishes that frame.
    pub open spec fn mask_after_address(self, r: InterruptReport) -> u32 {
        if r.address matches Some(o) && o != AddressOutcome::Aborted {
            self.regs.inten & !RADIO_INTENSET_DISABLED
        } else {
            self.regs.inten
        }
    }

    /// The state after the DISABLED step of a dispatch.
    pub open spec fn after_disabled(self, r: InterruptReport) -> RadioCore {
        let c1 = self.after_address(r);
        match r.disabled {
            Some(o) => c1.spec_disabled_event(o),
            None => c1,
        }
    }

    /// The state after a whole dispatch that ran the handlers in `r`.
    pub open spec fn spec_dispatch(self, r: InterruptReport) -> RadioCore {
        let c2 = self.after_disabled(r);
        match r.end {
            Some(o) => c2.spec_end_event(o),
            None => c2,
        }
    }

    /// Which handlers a dispatch from this state runs, in order READY,
    /// ADDRESS, DISABLED, END, each when enabled in the mask read on entry and
    /// raised; and what each may report.
    pub open spec fn dispatch_valid(self, r: InterruptReport, has_adv: bool) -> bool {
        let m = self.regs.inten;
        let c0 = self.spec_ready_step();
        let c1 = self.after_address(r);
        let c2 = self.after_disabled(r);
        &&& (r.address is Some) == c0.address_pending(m)
        &&& (r.address matches Some(o) ==> c0.address_outcome_valid(o, has_adv))
        &&& (r.disabled is Some) == c1.disabled_pending(self.mask_after_address(r))
        &&& (r.disabled matches Some(o) ==> c1.disabled_outcome_valid(o, has_adv))
        &&& (r.end is Some) == c2.end_pending(m)
        &&& (r.end matches Some(o) ==> RadioCore::end_outcome_valid(o, has_adv))
    }
}

/// The ADDRESS outcome that follows from the receive client's answer.
pub open spec fn read_action_outcome(a: ReadAction, o: AddressOutcome) -> bool {
    match a {
        ReadAction::ReadFrameAndStayRX => o == AddressOutcome::StayRX,
        ReadAction::ReadFrameAndMoveToTX => o == AddressOutcome::MoveToTX,
        ReadAction::SkipFrame => o is Skipped,
    }
}

/// The END outcome that follows from the receive client's answer.
pub open spec fn phy_transition_outcome(p: PhyTransition, o: EndOutcome) -> bool {
    match p {
        PhyTransition::MoveToTX => o == EndOutcome::MoveToTX,
        PhyTransition::MoveToRX => o == EndOutcome::MoveToRX,
        PhyTransition::NoTransition => o is Finished,
    }
}

/// The CRC result handed to the receive client: `SUCCESS` exactly when the
/// peripheral set CRCOK.
pub open spec fn spec_crc_code(crcok: u32) -> ReturnCode {
    if crcok == 1 {
        ReturnCode::SUCCESS
    } else {
        ReturnCode::FAIL
    }
}

/// The CRC result handed to the receive client for a CRCOK register value.
pub fn crc_code(crcok: u32) -> (r: ReturnCode)
    ensures
        r == spec_crc_code(crcok),
{
    if crcok == 1 {
        ReturnCode::SUCCESS
    } else {
        ReturnCode::FAIL
    }
}

/// The BLE radio driver: the core state and the link-layer clients it calls
/// back. Clients are installed once and are not owned by the link logic.
pub struct Radio<R, T, A> {
    core: RadioCore,
    rx_client: Option<R>,
    tx_client: Option<T>,
    advertisement_client: Option<A>,
}

impl<R, T, A> View for Radio<R, T, A> {
    type V = RadioCore;

    closed spec fn view(&self) -> RadioCore {
        self.core
    }
}

impl<R, T, A> Radio<R, T, A> {
    pub closed spec fn spec_rx_client(self) -> Option<R> {
        self.rx_client
    }

    pub closed spec fn spec_tx_client(self) -> Option<T> {
        self.tx_client
    }

    pub closed spec fn spec_advertisement_client(self) -> Option<A> {
        self.advertisement_client
    }

    pub closed spec fn has_rx_client(self) -> bool {
        self.rx_client is Some
    }

    pub closed spec fn has_advertisement_client(self) -> bool {
        self.advertisement_client is Some
    }

    /// The client slots of `self` are filled where those of `other` are; a
    /// client's own state may have changed through the calls it received.
    pub closed spec fn slots_kept(self, other: Radio<R, T, A>) -> bool {
        &&& (self.rx_client is Some) == (other.rx_client is Some)
        &&& self.tx_client == other.tx_client
        &&& (self.advertisement_client is Some) == (other.advertisement_client is Some)
    }

    /// `self` with its core replaced and its clients kept.
    pub closed spec fn with_core(self, core: RadioCore) -> Radio<R, T, A> {
        Radio { core, ..self }
    }

    /// What `with_core` keeps and what it replaces.
    pub proof fn lemma_with_core(self, core: RadioCore)
        ensures
            #[trigger] self.with_core(core)@ == core,
            self.with_core(core).spec_rx_client() == self.spec_rx_client(),
            self.with_core(core).spec_tx_client() == self.spec_tx_client(),
            self.with_core(core).spec_advertisement_client() == self.spec_advertisement_client(),
    {
    }
}

impl<R: RxClient, T: TxClient, A: AdvertisementClient> Radio<R, T, A> {
    /// A driver for a peripheral just out of reset, with no clients.
    pub fn new() -> (r: Radio<R, T, A>)
        ensures
            r@.regs == reset_registers(),
            r@.timer == (TimerRegisters {
                cc0: 0,
                cc1: 0,
                cc2: 0,
                cc3: 0,
                events_compare0: 0,
                prescaler: 0,
                bitmode: 0,
                running: false,
            }),
            r@.ppi_chen == 0,
            forall|i: int| 0 <= i < 260 ==> r@.tx_payload@[i] == 0 && r@.rx_payload@[i] == 0,
            r@.tx_power == TxPower::ZerodBm,
            r@.state == RadioState::Uninitialized,
            r@.channel is None,
            r@.transition == PhyTransition::NoTransition,
            r.spec_rx_client() is None,
            r.spec_tx_client() is None,
            r.spec_advertisement_client() is None,
    {
        let regs = RadioRegisters {
            power: 0,
            task_txen: 0,
            task_rxen: 0,
            task_disable: 0,
            event_ready: 0,
            event_address: 0,
            event_end: 0,
            event_disabled: 0,
            event_devmatch: 0,
            event_rssiend: 0,
            bcmatch: 0,
            crcok: 0,
            state: RADIO_STATE_DISABLE,
            shorts: 0,
            inten: 0,
            packetptr: 0,
            frequency: 0,
            datawhiteiv: 0,
            mode: 0,
            pcnf0: 0,
            pcnf1: 0,
            modecnf0: 0,
            txaddress: 0,
            rxaddresses: 0,
            prefix0: 0,
            base0: 0,
            crccnf: 0,
            crcinit: 0,
            crcpoly: 0,
            tifs: 0,
            bcc: 0,
            txpower: 0,
        };
        let timer = TimerRegisters {
            cc0: 0,
            cc1: 0,
            cc2: 0,
            cc3: 0,
            events_compare0: 0,
            prescaler: 0,
            bitmode: 0,
            running: false,
        };
        Radio {
            core: RadioCore {
                regs,
                timer,
                ppi_chen: 0,
                tx_payload: [0u8; 260],
                rx_payload: [0u8; 260],
                tx_power: TxPower::ZerodBm,
                state: RadioState::Uninitialized,
                channel: None,
                transition: PhyTransition::NoTransition,
            },
            rx_client: None,
            tx_client: None,
            advertisement_client: None,
        }
    }

    /// The driver's state and the peripheral images it programs.
    pub fn radio_core(&self) -> (r: &RadioCore)
        ensures
            *r == self@,
    {
        &self.core
    }

    /// The peripheral images, for the hardware side: events, captures and
    /// received bytes are raised here before the interrupt handler runs.
    pub fn radio_core_mut(&mut self) -> (r: &mut RadioCore)
        ensures
            *r == old(self)@,
            *final(self) == old(self).with_core(*final(r)),
    {
        &mut self.core
    }

    /// Sets bits of the interrupt enable mask (INTENSET).
    pub fn enable_interrupt(&mut self, intr: u32)
        ensures
            *final(self) == old(self).with_core(old(self)@.spec_enable_interrupt(intr)),
    {
        self.core.regs.inten = self.core.regs.inten | intr;
    }

    /// Clears bits of the interrupt enable mask (INTENCLR).
    pub fn clear_interrupt(&mut self, intr: u32)
        ensures
            *final(self) == old(self).with_core(old(self)@.spec_clear_interrupt(intr)),
    {
        self.core.regs.inten = self.core.regs.inten & !intr;
    }

    /// Enables the ADDRESS interrupt.
    pub fn enable_interrupts(&mut self)
        ensures
            *final(self) == old(self).with_core(
                old(self)@.spec_enable_interrupt(RADIO_INTENSET_ADDRESS),
            ),
    {
        self.enable_interrupt(RADIO_INTENSET_ADDRESS);
    }

    /// Disables every interrupt source.
    pub fn disable_all_interrupts(&mut self)
        ensures
            *final(self) == old(self).with_core(old(self)@.spec_disable_all_interrupts()),
    {
        let ghost before = self.core.regs.inten;
        self.clear_interrupt(0xffffffff);
        assert(before & !0xffffffffu32 == 0) by (bit_vector);
    }

    fn enable_ppi(&mut self, chen: u32)
        ensures
            *final(self) == old(self).with_core(old(self)@.spec_enable_ppi(chen)),
    {
        self.core.ppi_chen = self.core.ppi_chen | chen;
    }

    fn disable_ppi(&mut self, chen: u32)
        ensures
            *final(self) == old(self).with_core(old(self)@.spec_disable_ppi(chen)),
    {
        self.core.ppi_chen = self.core.ppi_chen & !chen;
    }

    /// Returns once the peripheral has left TXDISABLE or RXDISABLE; in the
    /// image the state register then reads DISABLED.
    fn wait_until_disabled(&mut self)
        ensures
            *final(self) == old(self).with_core(old(self)@.spec_wait_until_disabled()),
    {
        let state = self.core.regs.state;
        if state != RADIO_STATE_DISABLE {
            if state == RADIO_STATE_RXDISABLE || state == RADIO_STATE_TXDISABLE {
                self.core.regs.state = RADIO_STATE_DISABLE;
            }
        }
    }

    fn set_dma_ptr_tx(&mut self)
        ensures
            *final(self) == old(self).with_core(
                old(self)@.with_regs(
                    RadioRegisters { packetptr: TX_PAYLOAD_HANDLE, ..old(self)@.regs },
                ),
            ),
    {
        self.core.regs.packetptr = TX_PAYLOAD_HANDLE;
    }

    fn set_dma_ptr_rx(&mut self)
        ensures
            *final(self) == old(self).with_core(
                old(self)@.with_regs(
                    RadioRegisters { packetptr: RX_PAYLOAD_HANDLE, ..old(self)@.regs },
                ),
            ),
    {
        self.core.regs.packetptr = RX_PAYLOAD_HANDLE;
    }

    fn setup_tx(&mut self)
        ensures
            *final(self) == old(self).with_core(old(self)@.spec_setup_tx()),
    {
        self.set_dma_ptr_tx();
        self.core.state = RadioState::TX;
        self.core.regs.event_ready = 0;
        self.core.regs.event_end = 0;
        self.core.regs.event_disabled = 0;
        self.core.regs.shorts = RADIO_SHORTS_END_DISABLE | RADIO_SHORTS_READY_START;
        self.enable_interrupt(RADIO_INTENSET_DISABLED);
    }

    /// Starts a transmission of the TX buffer: READY->START and END->DISABLE
    /// shortcuts, DISABLED interrupt, TXEN.
    pub fn tx(&mut self)
        ensures
            *final(self) == old(self).with_core(old(self)@.spec_tx()),
            final(self)@.state == RadioState::TX,
            final(self)@.regs.packetptr == TX_PAYLOAD_HANDLE,
            final(self)@.regs.shorts & RADIO_SHORTS_READY_START != 0,
            final(self)@.regs.shorts & RADIO_SHORTS_END_DISABLE != 0,
            final(self)@.regs.inten & RADIO_INTENSET_DISABLED != 0,
            final(self)@.regs.task_txen == 1,
    {
        self.wait_until_disabled();
        self.setup_tx();
        self.core.regs.task_txen = 1;
        let ghost before = old(self)@.regs.inten;
        let ghost inten = self.core.regs.inten;
        assert(inten & 0x10u32 != 0) by (bit_vector)
            requires
                inten == before | 0x10u32,
        ;
        assert(((0x2u32 | 0x1u32) & 0x1u32) != 0 && ((0x2u32 | 0x1u32) & 0x2u32) != 0)
            by (bit_vector);
    }

    fn setup_rx(&mut self)
        ensures
            *final(self) == old(self).with_core(old(self)@.spec_setup_rx()),
    {
        self.set_dma_ptr_rx();
        self.disable_ppi(PPI_CHEN_CH20);
        self.core.state = RadioState::RX;
        self.core.regs.bcc = 8;
        self.core.regs.event_address = 0;
        self.core.regs.event_devmatch = 0;
        self.core.regs.bcmatch = 0;
        self.core.regs.event_rssiend = 0;
        self.core.regs.crcok = 0;
        self.core.regs.shorts = RADIO_SHORTS_END_DISABLE | RADIO_SHORTS_READY_START
            | RADIO_SHORTS_ADDRESS_BCSTART;
        self.enable_interrupt(RADIO_INTENSET_ADDRESS);
    }

    /// Starts listening into the RX buffer: READY->START, END->DISABLE and
    /// ADDRESS->BCSTART shortcuts, bit counter at one byte, ADDRESS interrupt, RXEN.
    pub fn rx(&mut self)
        ensures
            *final(self) == old(self).with_core(old(self)@.spec_rx()),
            final(self)@.state == RadioState::RX,
            final(self)@.regs.packetptr == RX_PAYLOAD_HANDLE,
            final(self)@.regs.shorts & RADIO_SHORTS_READY_START != 0,
            final(self)@.regs.shorts & RADIO_SHORTS_END_DISABLE != 0,
            final(self)@.regs.shorts & RADIO_SHORTS_ADDRESS_BCSTART != 0,
            final(self)@.regs.bcc == 8,
            final(self)@.regs.inten == RADIO_INTENSET_ADDRESS,
            final(self)@.regs.task_rxen == 1,
    {
        self.wait_until_disabled();
        self.disable_all_interrupts();
        self.core.regs.event_end = 0;
        self.core.regs.event_disabled = 0;
        self.setup_rx();
        self.core.regs.task_rxen = 1;
        assert((0u32 | 0x2u32) == 0x2u32) by (bit_vector);
        let ghost shorts = (0x2u32 | 0x1u32) | 0x40u32;
        assert((shorts & 0x1u32) != 0 && (shorts & 0x2u32) != 0 && (shorts & 0x40u32) != 0)
            by (bit_vector)
            requires
                shorts == (0x2u32 | 0x1u32) | 0x40u32,
        ;
    }

    /// Programs CC[0] for a TXEN at T_IFS after the captured END (CC[2]) and
    /// routes it through PPI channel 20.
    fn schedule_tx_after_t_ifs(&mut self)
        ensures
            *final(self) == old(self).with_core(old(self)@.spec_schedule_tx_after_t_ifs()),
    {
        let end_time = self.get_packet_end_time_value();
        let time = end_time.wrapping_add(TX_AFTER_RX_OFFSET);
        assert(time == timer_add(end_time, TX_AFTER_RX_OFFSET));
        self.core.timer.cc0 = time;
        self.core.timer.events_compare0 = 0;
        self.enable_ppi(PPI_CHEN_CH20);
    }

    /// Programs CC[0] to open the RX window at T_IFS after the captured END
    /// (CC[2]), a little early, and routes it through PPI channel 21.
    fn schedule_rx_after_t_ifs(&mut self)
        ensures
            *final(self) == old(self).with_core(old(self)@.spec_schedule_rx_after_t_ifs()),
    {
        let end_time = self.get_packet_end_time_value();
        let time = end_time.wrapping_add(RX_AFTER_TX_OFFSET);
        assert(time == timer_add(end_time, RX_AFTER_TX_OFFSET));
        self.core.timer.cc0 = time;
        self.core.timer.events_compare0 = 0;
        self.enable_ppi(PPI_CHEN_CH21);
    }

    /// The END timestamp that PPI channel 27 captured into CC[2].
    fn get_packet_end_time_value(&self) -> (r: u32)
        ensures
            r == self.core.timer.cc2,
    {
        self.core.timer.cc2
    }

    /// Stops all radio activity: interrupts, shortcuts and the radio's PPI
    /// channels off, DISABLE triggered, back to Initialized.
    fn disable_radio(&mut self)
        ensures
            *final(self) == old(self).with_core(old(self)@.spec_disable_radio()),
    {
        self.disable_all_interrupts();
        self.core.regs.shorts = 0;
        self.core.regs.task_disable = 1;
        self.disable_ppi(PPI_RADIO_SHUTDOWN_MASK);
        self.core.state = RadioState::Initialized;
    }
    fn set_rx_address(&mut self)
        ensures
            *final(self) == old(self).with_core(
                old(self)@.with_regs(RadioRegisters { rxaddresses: 1, ..old(self)@.regs }),
            ),
    {
        self.core.regs.rxaddresses = 0x01;
    }

    fn set_tx_address(&mut self)
        ensures
            *final(self) == old(self).with_core(
                old(self)@.with_regs(RadioRegisters { txaddress: 0, ..old(self)@.regs }),
            ),
    {
        self.core.regs.txaddress = 0x00;
    }

    /// Power-cycles the peripheral: POWER off, then on.
    fn radio_on(&mut self)
        ensures
            *final(self) == old(self).with_core(
                old(self)@.with_regs(RadioRegisters { power: 1, ..old(self)@.regs }),
            ),
    {
        self.core.regs.power = 0;
        self.core.regs.power = 1;
    }

    fn set_tifs(&mut self)
        ensures
            *final(self) == old(self).with_core(
                old(self)@.with_regs(RadioRegisters { tifs: BLE_T_IFS, ..old(self)@.regs }),
            ),
    {
        self.core.regs.tifs = BLE_T_IFS;
    }

    /// Writes the selected transmit power level into TXPOWER.
    pub fn ble_set_tx_power(&mut self)
        ensures
            *final(self) == old(self).with_core(
                old(self)@.with_regs(
                    RadioRegisters {
                        txpower: old(self)@.tx_power.spec_value() as u32,
                        ..old(self)@.regs
                    },
                ),
            ),
    {
        self.core.regs.txpower = self.core.tx_power.value() as u32;
    }

    /// BLE CRC: 3 bytes over the PDU only, polynomial 0x65B, advertising init value.
    fn ble_set_crc_config(&mut self)
        ensures
            *final(self) == old(self).with_core(
                old(self)@.with_regs(
                    RadioRegisters {
                        crccnf: ble_crccnf(),
                        crcinit: RADIO_CRCINIT_BLE,
                        crcpoly: RADIO_CRCPOLY_BLE,
                        ..old(self)@.regs
                    },
                ),
            ),
    {
        self.core.regs.crccnf = (RADIO_CRCCNF_SKIPADDR << RADIO_CRCCNF_SKIPADDR_POS)
            | RADIO_CRCCNF_LEN_3BYTES;
        self.ble_set_crcinit(RADIO_CRCINIT_BLE);
        self.core.regs.crcpoly = RADIO_CRCPOLY_BLE;
    }

    fn ble_set_crcinit(&mut self, crcinit: u32)
        ensures
            *final(self) == old(self).with_core(
                old(self)@.with_regs(RadioRegisters { crcinit, ..old(self)@.regs }),
            ),
    {
        self.core.regs.crcinit = crcinit;
    }

    /// Splits the access address over PREFIX0 (bits 31..24, low byte) and
    /// BASE0 (bits 23..0, shifted up by 8); the other bytes of PREFIX0 are kept.
    pub fn ble_set_access_address(&mut self, aa: u32)
        ensures
            *final(self) == old(self).with_core(old(self)@.spec_set_access_address(aa)),
            final(self)@.regs.prefix0 & 0xff == aa / 0x1000000,
            final(self)@.regs.prefix0 & 0xffffff00 == old(self)@.regs.prefix0 & 0xffffff00,
            final(self)@.regs.base0 == (aa % 0x1000000) * 0x100,
    {
        let prefix0 = self.core.regs.prefix0;
        self.core.regs.prefix0 = (prefix0 & 0xffffff00) | (aa >> 24);
        self.core.regs.base0 = aa << 8;
        proof {
            lemma_access_address_split(prefix0, aa);
        }
    }

    /// Packet layout for BLE (PCNF0, PCNF1) and fast ramp-up.
    fn ble_set_packet_config(&mut self)
        ensures
            *final(self) == old(self).with_core(
                old(self)@.with_regs(
                    RadioRegisters {
                        pcnf0: ble_pcnf0(),
                        pcnf1: ble_pcnf1(),
                        modecnf0: RADIO_MODECNF0_RU_FAST,
                        ..old(self)@.regs
                    },
                ),
            ),
    {
        self.core.regs.pcnf0 = (RADIO_PCNF0_LFLEN_1BYTE << RADIO_PCNF0_LFLEN_POS) | (
        RADIO_PCNF0_S0_LEN_1BYTE << RADIO_PCNF0_S0LEN_POS) | (RADIO_PCNF0_S1_ZERO
            << RADIO_PCNF0_S1LEN_POS) | (RADIO_PCNF0_S1INCL_MSK << RADIO_PCNF0_S1INCL_POS) | (
        RADIO_PCNF0_PLEN_8BITS << RADIO_PCNF0_PLEN_POS);
        self.core.regs.pcnf1 = (RADIO_PCNF1_WHITEEN_ENABLED << RADIO_PCNF1_WHITEEN_POS) | (
        RADIO_PCNF1_ENDIAN_LITTLE << RADIO_PCNF1_ENDIAN_POS) | (RADIO_PCNF1_BALEN_3BYTES
            << RADIO_PCNF1_BALEN_POS) | (RADIO_PCNF1_STATLEN_DONT_EXTEND
            << RADIO_PCNF1_STATLEN_POS) | (RADIO_PCNF1_MAXLEN_255BYTES
            << RADIO_PCNF1_MAXLEN_POS);
        self.core.regs.modecnf0 = RADIO_MODECNF0_RU_FAST;
    }

    /// 1 Mbit/s BLE mode.
    fn ble_set_channel_rate(&mut self)
        ensures
            *final(self) == old(self).with_core(
                old(self)@.with_regs(
                    RadioRegisters { mode: RADIO_MODE_BLE_1MBIT, ..old(self)@.regs },
                ),
            ),
    {
        self.core.regs.mode = RADIO_MODE_BLE_1MBIT;
    }

    /// Seeds the whitening LFSR with the channel index.
    fn ble_set_data_whitening(&mut self, channel: RadioChannel)
        ensures
            *final(self) == old(self).with_core(
                old(self)@.with_regs(
                    RadioRegisters {
                        datawhiteiv: channel.spec_index() as u32,
                        ..old(self)@.regs
                    },
                ),
            ),
    {
        self.core.regs.datawhiteiv = channel.get_channel_index();
    }

    /// Tunes to `channel`: FREQUENCY and the whitening seed take its index.
    fn ble_set_channel(&mut self, channel: RadioChannel)
        requires
            old(self)@.regs.state == RADIO_STATE_DISABLE,
        ensures
            *final(self) == old(self).with_core(old(self)@.spec_set_channel(channel)),
    {
        self.core.channel = Some(channel);
        self.core.regs.frequency = channel.get_channel_index();
        self.ble_set_data_whitening(channel);
    }

    /// Brings the peripheral up for BLE on first use, then (re)starts the
    /// 1 MHz reference timer. Calling it again changes nothing.
    pub fn ble_initialize(&mut self)
        ensures
            *final(self) == old(self).with_core(old(self)@.spec_ble_initialize()),
            final(self)@.state == (if old(self)@.state == RadioState::Uninitialized {
                RadioState::Initialized
            } else {
                old(self)@.state
            }),
    {
        if self.core.state == RadioState::Uninitialized {
            self.radio_on();
            self.ble_set_tx_power();
            self.set_tifs();
            self.ble_set_channel_rate();
            self.set_tx_address();
            self.set_rx_address();
            self.ble_set_packet_config();
            self.ble_set_crc_config();
            self.core.state = RadioState::Initialized;
            self.enable_ppi(PPI_CHEN_CH26 | PPI_CHEN_CH27);
        }
        self.core.timer.prescaler = 4;
        self.core.timer.bitmode = 3;
        self.core.timer.running = true;
    }

    /// Copies the first `len` bytes of `buf` into the TX buffer, as many as
    /// both buffers hold, and hands `buf` back.
    pub fn replace_radio_buffer(&mut self, buf: Vec<u8>, len: usize) -> (r: Vec<u8>)
        ensures
            r@ == buf@,
            final(self).spec_rx_client() == old(self).spec_rx_client(),
            final(self).spec_tx_client() == old(self).spec_tx_client(),
            final(self).spec_advertisement_client() == old(self).spec_advertisement_client(),
            final(self)@ == (RadioCore { tx_payload: final(self)@.tx_payload, ..old(self)@ }),
            forall|i: int|
                0 <= i < copy_len(buf@.len(), len) ==> final(self)@.tx_payload@[i] == buf@[i],
            forall|i: int|
                copy_len(buf@.len(), len) <= i < 260 ==> final(self)@.tx_payload@[i]
                    == old(self)@.tx_payload@[i],
    {
        let mut n = len;
        if n > buf.len() {
            n = buf.len();
        }
        if n > RADIO_PAYLOAD_LENGTH {
            n = RADIO_PAYLOAD_LENGTH;
        }
        let mut i: usize = 0;
        while i < n
            invariant
                n == copy_len(buf@.len(), len),
                i <= n,
                self.rx_client == old(self).rx_client,
                self.tx_client == old(self).tx_client,
                self.advertisement_client == old(self).advertisement_client,
                self.core == (RadioCore { tx_payload: self.core.tx_payload, ..old(self).core }),
                forall|k: int| 0 <= k < i ==> self.core.tx_payload@[k] == buf@[k],
                forall|k: int| i <= k < 260 ==> self.core.tx_payload@[k] == old(self).core.tx_payload@[k],
            decreases n - i,
        {
            self.core.tx_payload[i] = buf[i];
            i = i + 1;
        }
        buf
    }

    /// Loads an advertisement into the TX buffer, as `replace_radio_buffer` does.
    pub fn set_advertisement_data(&mut self, buf: Vec<u8>, len: usize) -> (r: Vec<u8>)
        ensures
            r@ == buf@,
            final(self).spec_rx_client() == old(self).spec_rx_client(),
            final(self).spec_tx_client() == old(self).spec_tx_client(),
            final(self).spec_advertisement_client() == old(self).spec_advertisement_client(),
            final(self)@ == (RadioCore { tx_payload: final(self)@.tx_payload, ..old(self)@ }),
            forall|i: int|
                0 <= i < copy_len(buf@.len(), len) ==> final(self)@.tx_payload@[i] == buf@[i],
            forall|i: int|
                copy_len(buf@.len(), len) <= i < 260 ==> final(self)@.tx_payload@[i]
                    == old(self)@.tx_payload@[i],
    {
        self.replace_radio_buffer(buf, len)
    }

    /// Initializes, loads the advertisement and starts transmitting it.
    pub fn transmit_advertisement(&mut self, buf: Vec<u8>, len: usize) -> (r: Vec<u8>)
        ensures
            r@ == buf@,
            final(self).spec_rx_client() == old(self).spec_rx_client(),
            final(self).spec_tx_client() == old(self).spec_tx_client(),
            final(self).spec_advertisement_client() == old(self).spec_advertisement_client(),
            final(self)@ == (RadioCore {
                tx_payload: final(self)@.tx_payload,
                ..old(self)@.spec_ble_initialize().spec_tx()
            }),
            forall|i: int|
                0 <= i < copy_len(buf@.len(), len) ==> final(self)@.tx_payload@[i] == buf@[i],
            forall|i: int|
                copy_len(buf@.len(), len) <= i < 260 ==> final(self)@.tx_payload@[i]
                    == old(self)@.tx_payload@[i],
    {
        self.ble_initialize();
        let res = self.set_advertisement_data(buf, len);
        self.tx();
        res
    }

    /// Initializes, starts listening and enables the ADDRESS interrupt.
    pub fn receive_advertisement(&mut self)
        ensures
            *final(self) == old(self).with_core(
                old(self)@.spec_ble_initialize().spec_rx().spec_enable_interrupt(
                    RADIO_INTENSET_ADDRESS,
                ),
            ),
    {
        self.ble_initialize();
        self.rx();
        self.enable_interrupts();
    }

    pub fn set_receive_client(&mut self, client: R)
        ensures
            final(self).spec_rx_client() == Some(client),
            final(self).spec_tx_client() == old(self).spec_tx_client(),
            final(self).spec_advertisement_client() == old(self).spec_advertisement_client(),
            final(self)@ == old(self)@,
    {
        self.rx_client = Some(client);
    }

    pub fn set_transmit_client(&mut self, client: T)
        ensures
            final(self).spec_tx_client() == Some(client),
            final(self).spec_rx_client() == old(self).spec_rx_client(),
            final(self).spec_advertisement_client() == old(self).spec_advertisement_client(),
            final(self)@ == old(self)@,
    {
        self.tx_client = Some(client);
    }

    pub fn set_advertisement_client(&mut self, client: A)
        ensures
            final(self).spec_advertisement_client() == Some(client),
            final(self).spec_rx_client() == old(self).spec_rx_client(),
            final(self).spec_tx_client() == old(self).spec_tx_client(),
            final(self)@ == old(self)@,
    {
        self.advertisement_client = Some(client);
    }

    /// Selects a transmit power level: `ENOSUPPORT`, with nothing changed,
    /// for a value outside the supported set; the level takes effect at the
    /// next initialization.
    pub fn set_tx_power(&mut self, tx_power: u8) -> (r: ReturnCode)
        ensures
            TxPower::is_supported(tx_power) ==> r == ReturnCode::SUCCESS
                && final(self)@.tx_power.spec_value() == tx_power
                && *final(self) == old(self).with_core(
                RadioCore { tx_power: final(self)@.tx_power, ..old(self)@ },
            ),
            !TxPower::is_supported(tx_power) ==> r == ReturnCode::ENOSUPPORT && *final(self)
                == *old(self),
    {
        match TxPower::from_u8(tx_power) {
            None => ReturnCode::ENOSUPPORT,
            Some(res) => {
                self.core.tx_power = res;
                ReturnCode::SUCCESS
            },
        }
    }

    /// Tunes to `channel` and sets the access address and CRC init value of
    /// the link. The peripheral must be DISABLED.
    pub fn set_channel(&mut self, channel: RadioChannel, address: u32, crcinit: u32)
        requires
            old(self)@.regs.state == RADIO_STATE_DISABLE,
        ensures
            *final(self) == old(self).with_core(
                old(self)@.spec_set_channel(channel).spec_set_access_address(address).with_regs(
                    RadioRegisters {
                        crcinit,
                        ..old(self)@.spec_set_channel(channel).spec_set_access_address(
                            address,
                        ).regs
                    },
                ),
            ),
    {
        self.ble_set_channel(channel);
        self.ble_set_access_address(address);
        self.ble_set_crcinit(crcinit);
    }

    /// Records what to do at the next packet boundary.
    pub fn set_transition_state(&mut self, state: PhyTransition)
        ensures
            *final(self) == old(self).with_core(
                RadioCore { transition: state, ..old(self)@ },
            ),
    {
        self.core.transition = state;
    }

    pub fn set_access_address(&mut self, aa: u32)
        ensures
            *final(self) == old(self).with_core(old(self)@.spec_set_access_address(aa)),
    {
        self.ble_set_access_address(aa);
    }
    /// Asks the advertisement client what follows an exchange; without a
    /// client the radio goes to sleep.
    fn query_advertisement_client(&mut self) -> (t: TxImmediate)
        ensures
            final(self)@ == old(self)@,
            final(self).slots_kept(*old(self)),
            final(self).spec_rx_client() == old(self).spec_rx_client(),
            !old(self).has_advertisement_client() ==> t == TxImmediate::GoToSleep,
    {
        match self.advertisement_client.take() {
            Some(mut client) => {
                let t = client.advertisement_done();
                self.advertisement_client = Some(client);
                t
            },
            None => TxImmediate::GoToSleep,
        }
    }

    /// Starts a transmission when the advertisement client answered `TX`.
    fn start_tx_if_asked(&mut self, t: TxImmediate)
        ensures
            *final(self) == old(self).with_core(old(self)@.spec_tx_if_asked(t)),
    {
        if let TxImmediate::TX = t {
            self.tx();
        }
    }

    /// Acts on the advertisement client's answer at the end of an exchange:
    /// `TX` transmits now, `RespondAfterTifs` schedules TXEN at T_IFS after
    /// the captured END, `GoToSleep` does nothing.
    pub fn apply_tx_immediate(&mut self, t: TxImmediate)
        ensures
            *final(self) == old(self).with_core(old(self)@.spec_apply_tx_immediate(t)),
    {
        match t {
            TxImmediate::TX => self.tx(),
            TxImmediate::RespondAfterTifs => self.schedule_tx_after_t_ifs(),
            TxImmediate::GoToSleep => {},
        }
    }

    /// Acts on the receive client's answer to `receive_start`, once ADDRESS
    /// is acknowledged: keep the frame in RX, keep it and move to TX after it,
    /// or drop it, stop the radio and ask the advertisement client what next.
    pub fn apply_read_action(&mut self, a: ReadAction) -> (o: AddressOutcome)
        ensures
            read_action_outcome(a, o),
            final(self)@ == old(self)@.spec_address_step(o),
            final(self).slots_kept(*old(self)),
            final(self).spec_rx_client() == old(self).spec_rx_client(),
            !old(self).has_advertisement_client() ==> (o matches AddressOutcome::Skipped(t)
                ==> t == TxImmediate::GoToSleep),
            a != ReadAction::SkipFrame ==> *final(self) == old(self).with_core(final(self)@),
    {
        match a {
            ReadAction::ReadFrameAndStayRX => {
                self.enable_interrupt(RADIO_INTENSET_END);
                AddressOutcome::StayRX
            },
            ReadAction::ReadFrameAndMoveToTX => {
                self.core.transition = PhyTransition::MoveToTX;
                self.enable_interrupt(RADIO_INTENSET_END);
                AddressOutcome::MoveToTX
            },
            ReadAction::SkipFrame => {
                self.disable_radio();
                self.wait_until_disabled();
                let should_tx = self.query_advertisement_client();
                self.start_tx_if_asked(should_tx);
                AddressOutcome::Skipped(should_tx)
            },
        }
    }

    /// Acts on the receive client's answer to `receive_end`, once END is
    /// acknowledged: respond at T_IFS, restart RX, or stop the radio and ask
    /// the advertisement client what next.
    pub fn apply_phy_transition(&mut self, p: PhyTransition) -> (o: EndOutcome)
        ensures
            phy_transition_outcome(p, o),
            final(self)@ == old(self)@.spec_end_step(o),
            final(self).slots_kept(*old(self)),
            final(self).spec_rx_client() == old(self).spec_rx_client(),
            !old(self).has_advertisement_client() ==> (o matches EndOutcome::Finished(t) ==> t
                == TxImmediate::GoToSleep),
            p != PhyTransition::NoTransition ==> *final(self) == old(self).with_core(
                final(self)@,
            ),
    {
        match p {
            PhyTransition::MoveToTX => {
                self.setup_tx();
                self.schedule_tx_after_t_ifs();
                EndOutcome::MoveToTX
            },
            PhyTransition::MoveToRX => {
                self.disable_radio();
                self.wait_until_disabled();
                self.setup_rx();
                self.rx();
                EndOutcome::MoveToRX
            },
            PhyTransition::NoTransition => {
                self.disable_radio();
                self.wait_until_disabled();
                let should_tx = self.query_advertisement_client();
                self.apply_tx_immediate(should_tx);
                EndOutcome::Finished(should_tx)
            },
        }
    }

    /// ADDRESS: the access address matched. Once the LENGTH byte is in, the
    /// receive client gets the RX buffer and the frame length (LENGTH plus the
    /// S0 and LENGTH bytes), and its answer is applied. Without BCMATCH the
    /// frame is dropped and no client is called.
    fn handle_address_event(&mut self) -> (o: AddressOutcome)
        requires
            old(self)@.regs.bcmatch != 0 ==> old(self).has_rx_client(),
        ensures
            final(self)@ == old(self)@.spec_address_event(o),
            old(self)@.address_outcome_valid(o, old(self).has_advertisement_client()),
            final(self).slots_kept(*old(self)),
            o == AddressOutcome::Aborted ==> *final(self) == old(self).with_core(final(self)@),
    {
        self.core.regs.event_address = 0;
        self.clear_interrupt(RADIO_INTENSET_DISABLED | RADIO_INTENSET_ADDRESS);
        if self.core.regs.bcmatch == 0 {
            self.disable_all_interrupts();
            self.core.regs.shorts = 0;
            return AddressOutcome::Aborted;
        }
        let len = self.core.rx_payload[1] as usize + 2;
        let mut client = self.rx_client.take().unwrap();
        let result = client.receive_start(&self.core.rx_payload, len);
        self.rx_client = Some(client);
        self.apply_read_action(result)
    }

    /// END of a kept frame: the receive client gets the RX buffer, the frame
    /// length and the CRC result, and its answer is applied.
    fn handle_rx_end_event(&mut self) -> (o: EndOutcome)
        requires
            old(self).has_rx_client(),
        ensures
            final(self)@ == old(self)@.spec_end_event(o),
            RadioCore::end_outcome_valid(o, old(self).has_advertisement_client()),
            final(self).slots_kept(*old(self)),
    {
        self.core.regs.event_end = 0;
        self.clear_interrupt(RADIO_INTENSET_END);
        self.disable_ppi(PPI_CHEN_CH21);
        let crc_ok = crc_code(self.core.regs.crcok);
        let len = self.core.rx_payload[1] as usize + 2;
        let mut client = self.rx_client.take().unwrap();
        let result = client.receive_end(&self.core.rx_payload, len, crc_ok);
        self.rx_client = Some(client);
        self.apply_phy_transition(result)
    }

    /// DISABLED after a transmission: follow the recorded transition. Only
    /// MoveToTX calls a client (the advertisement client).
    fn handle_tx_end_event(&mut self) -> (q: Option<TxImmediate>)
        requires
            old(self)@.state != RadioState::RX,
        ensures
            final(self)@ == old(self)@.spec_disabled_event(DisabledOutcome::TxEnd(q)),
            old(self)@.disabled_outcome_valid(
                DisabledOutcome::TxEnd(q),
                old(self).has_advertisement_client(),
            ),
            final(self).slots_kept(*old(self)),
            final(self).spec_rx_client() == old(self).spec_rx_client(),
            q is None ==> *final(self) == old(self).with_core(final(self)@),
    {
        self.core.regs.event_disabled = 0;
        self.clear_interrupt(RADIO_INTENSET_DISABLED);
        self.core.regs.event_end = 0;
        match self.core.transition {
            PhyTransition::MoveToRX => {
                self.setup_rx();
                self.schedule_rx_after_t_ifs();
                None
            },
            PhyTransition::MoveToTX => {
                self.wait_until_disabled();
                let should_tx = self.query_advertisement_client();
                self.start_tx_if_asked(should_tx);
                Some(should_tx)
            },
            PhyTransition::NoTransition => None,
        }
    }

    /// DISABLED: an RX window closed, or a transmission ended.
    fn handle_disabled_event(&mut self) -> (o: DisabledOutcome)
        requires
            old(self)@.state != RadioState::Uninitialized,
        ensures
            final(self)@ == old(self)@.spec_disabled_event(o),
            old(self)@.disabled_outcome_valid(o, old(self).has_advertisement_client()),
            final(self).slots_kept(*old(self)),
            final(self).spec_rx_client() == old(self).spec_rx_client(),
            o == DisabledOutcome::TxEnd(None) ==> *final(self) == old(self).with_core(
                final(self)@,
            ),
    {
        if let RadioState::RX = self.core.state {
            self.core.regs.event_disabled = 0;
            match self.advertisement_client.take() {
                Some(mut client) => {
                    client.timer_expired();
                    self.advertisement_client = Some(client);
                },
                None => {},
            }
            DisabledOutcome::WindowClosed
        } else {
            let q = self.handle_tx_end_event();
            DisabledOutcome::TxEnd(q)
        }
    }

    /// The radio interrupt. With the enable mask read on entry it runs, for
    /// each source that is enabled and raised: READY (masked), ADDRESS,
    /// DISABLED (skipped once ADDRESS kept a frame) and END, in that order.
    /// The report says which ran and what the clients answered. The receive
    /// client is handed the RX buffer with length `buf[1] + 2` (and, at END,
    /// the CRC result of `crc_code`); its answers are applied by
    /// `apply_read_action` and `apply_phy_transition`.
    pub fn handle_interrupt(&mut self) -> (r: InterruptReport)
        requires
            old(self)@.address_keeps_frame() ==> old(self).has_rx_client(),
            old(self)@.end_pending(old(self)@.regs.inten) ==> old(self).has_rx_client(),
            !(old(self)@.state == RadioState::Uninitialized && old(self)@.disabled_pending(
                old(self)@.regs.inten,
            ) && !old(self)@.address_keeps_frame()),
        ensures
            old(self)@.dispatch_valid(r, old(self).has_advertisement_client()),
            final(self)@ == old(self)@.spec_dispatch(r),
            final(self).slots_kept(*old(self)),
            r.calls_no_client() ==> *final(self) == old(self).with_core(final(self)@),
    {
        let ghost start = self@;
        let ghost has_adv = self.has_advertisement_client();
        let entry_mask = self.core.regs.inten;
        let mut enabled_interrupts = entry_mask;
        if (enabled_interrupts & RADIO_INTENSET_READY) != 0 && self.core.regs.event_ready == 1 {
            self.clear_interrupt(RADIO_INTENSET_READY);
        }
        let mut address: Option<AddressOutcome> = None;
        if (enabled_interrupts & RADIO_INTENSET_ADDRESS) != 0 && self.core.regs.event_address == 1 {
            let o = self.handle_address_event();
            if o != AddressOutcome::Aborted {
                enabled_interrupts = enabled_interrupts & !RADIO_INTENSET_DISABLED;
            }
            address = Some(o);
        }
        let mut disabled: Option<DisabledOutcome> = None;
        if (enabled_interrupts & RADIO_INTENSET_DISABLED) != 0 && self.core.regs.event_disabled
            == 1 {
            proof {
                assert((entry_mask & !0x10u32) & 0x10u32 == 0) by (bit_vector);
                assert(enabled_interrupts == entry_mask);
                assert(self@.state == start.state);
            }
            disabled = Some(self.handle_disabled_event());
        }
        let mut end: Option<EndOutcome> = None;
        if (entry_mask & RADIO_INTENSET_END) != 0 && self.core.regs.event_end == 1 {
            end = Some(self.handle_rx_end_event());
        }
        InterruptReport { address, disabled, end }
    }
}

/// How many bytes `replace_radio_buffer` copies: `len`, bounded by the
/// caller's buffer and the TX buffer.
pub open spec fn copy_len(buf_len: nat, len: usize) -> int {
    let n = if len > buf_len { buf_len as int } else { len as int };
    if n > 260 { 260 } else { n }
}

/// The two halves of an access address as written to PREFIX0 and BASE0.
pub proof fn lemma_access_address_split(prefix0: u32, aa: u32)
    ensures
        ((prefix0 & 0xffffff00) | (aa >> 24)) & 0xff == aa / 0x1000000,
        ((prefix0 & 0xffffff00) | (aa >> 24)) & 0xffffff00 == prefix0 & 0xffffff00,
        aa << 8 == (aa % 0x1000000) * 0x100,
{
    assert(((prefix0 & 0xffffff00) | (aa >> 24)) & 0xff == aa / 0x1000000) by (bit_vector);
    assert(((prefix0 & 0xffffff00) | (aa >> 24)) & 0xffffff00 == prefix0 & 0xffffff00)
        by (bit_vector);
    assert(aa << 8 == (aa % 0x1000000) * 0x100) by (bit_vector);
}


/// Initializing twice leaves every register, timer and PPI setting as one
/// initialization does, and a driver that was not busy ends up Initialized.
pub proof fn lemma_initialize_idempotent(c: RadioCore)
    ensures
        c.spec_ble_initialize().spec_ble_initialize() == c.spec_ble_initialize(),
        c.state == RadioState::Uninitialized || c.state == RadioState::Initialized
            ==> c.spec_ble_initialize().state == RadioState::Initialized,
{
}

/// The BLE configuration that initialization leaves in the registers: 1 Mbit
/// BLE mode; 3-byte CRC over the PDU only, polynomial 0x65B; LENGTH of 8 bits,
/// S0 of 1 byte, S1 of 0 bits; MAXLEN 255, whitening on, little endian,
/// 3-byte base address; T_IFS of 150 us; capture PPI channels 26 and 27 on.
pub proof fn lemma_ble_registers_after_initialize(c: RadioCore)
    requires
        c.state == RadioState::Uninitialized,
    ensures
        c.spec_ble_initialize().regs.mode == RADIO_MODE_BLE_1MBIT,
        c.spec_ble_initialize().regs.crccnf & 0x3 == 3,
        (c.spec_ble_initialize().regs.crccnf >> 8u32) & 0x1 == 1,
        c.spec_ble_initialize().regs.crcpoly == 0x65B,
        c.spec_ble_initialize().regs.crcinit == 0x555555,
        c.spec_ble_initialize().regs.pcnf0 & 0xf == 8,
        (c.spec_ble_initialize().regs.pcnf0 >> 8u32) & 0x1 == 1,
        (c.spec_ble_initialize().regs.pcnf0 >> 16u32) & 0xf == 0,
        c.spec_ble_initialize().regs.pcnf1 & 0xff == 255,
        (c.spec_ble_initialize().regs.pcnf1 >> 16u32) & 0x7 == 3,
        (c.spec_ble_initialize().regs.pcnf1 >> 24u32) & 0x1 == 0,
        (c.spec_ble_initialize().regs.pcnf1 >> 25u32) & 0x1 == 1,
        c.spec_ble_initialize().regs.tifs == 150,
        c.spec_ble_initialize().ppi_chen & PPI_CHEN_CH26 != 0,
        c.spec_ble_initialize().ppi_chen & PPI_CHEN_CH27 != 0,
        c.spec_ble_initialize().state == RadioState::Initialized,
{
    assert(ble_crccnf() == 0x103) by (bit_vector);
    assert(ble_pcnf0() == 0x108) by (bit_vector);
    assert(ble_pcnf1() == 0x20300ff) by (bit_vector);
    assert(0x103u32 & 0x3 == 3 && (0x103u32 >> 8u32) & 0x1 == 1) by (bit_vector);
    assert(0x108u32 & 0xf == 8 && (0x108u32 >> 8u32) & 0x1 == 1 && (0x108u32 >> 16u32) & 0xf
        == 0) by (bit_vector);
    assert(0x20300ffu32 & 0xff == 255 && (0x20300ffu32 >> 16u32) & 0x7 == 3 && (0x20300ffu32
        >> 24u32) & 0x1 == 0 && (0x20300ffu32 >> 25u32) & 0x1 == 1) by (bit_vector);
    let p = c.ppi_chen;
    assert((p | (0x4000000u32 | 0x8000000u32)) & 0x4000000u32 != 0 && (p | (0x4000000u32
        | 0x8000000u32)) & 0x8000000u32 != 0) by (bit_vector);
}

/// Turnaround timing, with END captured at `CC[2] = t`: a response after a
/// received frame is triggered (PPI channel 20, TXEN) at `t + 100`; the reply
/// window after a transmission opens (PPI channel 21, RXEN) at `t + 105`.
pub proof fn lemma_turnaround_timing(c: RadioCore)
    ensures
        c.spec_end_event(EndOutcome::MoveToTX).timer.cc0 == timer_add(c.timer.cc2, 100),
        c.spec_end_event(EndOutcome::MoveToTX).ppi_chen & PPI_CHEN_CH20 != 0,
        c.state != RadioState::RX && c.transition == PhyTransition::MoveToRX ==> c.spec_disabled_event(
            DisabledOutcome::TxEnd(None),
        ).timer.cc0 == timer_add(c.timer.cc2, 105),
        c.transition == PhyTransition::MoveToRX ==> c.spec_disabled_event(
            DisabledOutcome::TxEnd(None),
        ).ppi_chen & PPI_CHEN_CH21 != 0,
        c.timer.cc2 <= 0xffffffff - 105 ==> timer_add(c.timer.cc2, 100) == c.timer.cc2 + 100
            && timer_add(c.timer.cc2, 105) == c.timer.cc2 + 105,
{
    assert(forall|x: u32| #[trigger] (x | 0x100000u32) & 0x100000u32 != 0) by (bit_vector);
    assert(forall|x: u32| #[trigger] (x | 0x200000u32) & 0x200000u32 != 0) by (bit_vector);
}

} // verus!
