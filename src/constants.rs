use vstd::prelude::*;

verus! {

/// Size of each DMA packet buffer: S0, LENGTH, up to 255 PDU bytes, rounded up.
pub const RADIO_PAYLOAD_LENGTH: usize = 260;

// Hardware state register values.
pub const RADIO_STATE_DISABLE: u32 = 0;
pub const RADIO_STATE_RXRU: u32 = 1;
pub const RADIO_STATE_RXIDLE: u32 = 2;
pub const RADIO_STATE_RX: u32 = 3;
pub const RADIO_STATE_RXDISABLE: u32 = 4;
pub const RADIO_STATE_TXRU: u32 = 9;
pub const RADIO_STATE_TXIDLE: u32 = 10;
pub const RADIO_STATE_TX: u32 = 11;
pub const RADIO_STATE_TXDISABLE: u32 = 12;

// Shortcuts between the peripheral's own events and tasks.
pub const RADIO_SHORTS_READY_START: u32 = 0x1;
pub const RADIO_SHORTS_END_DISABLE: u32 = 0x2;
pub const RADIO_SHORTS_ADDRESS_BCSTART: u32 = 0x40;

// Interrupt enable bits.
pub const RADIO_INTENSET_READY: u32 = 0x1;
pub const RADIO_INTENSET_ADDRESS: u32 = 0x2;
pub const RADIO_INTENSET_PAYLOAD: u32 = 0x4;
pub const RADIO_INTENSET_END: u32 = 0x8;
pub const RADIO_INTENSET_DISABLED: u32 = 0x10;

// CRC configuration.
pub const RADIO_CRCCNF_LEN_3BYTES: u32 = 3;
pub const RADIO_CRCCNF_SKIPADDR: u32 = 1;
pub const RADIO_CRCCNF_SKIPADDR_POS: u32 = 8;
pub const RADIO_CRCINIT_BLE: u32 = 0x555555;
pub const RADIO_CRCPOLY_BLE: u32 = 0x65B;

/// Access address of the advertising channels.
pub const BLE_ADVERTISING_ACCESS_ADDRESS: u32 = 0x8E89BED6;

// Packet configuration 0.
pub const RADIO_PCNF0_LFLEN_POS: u32 = 0;
pub const RADIO_PCNF0_S0LEN_POS: u32 = 8;
pub const RADIO_PCNF0_S1LEN_POS: u32 = 16;
pub const RADIO_PCNF0_S1INCL_POS: u32 = 20;
pub const RADIO_PCNF0_PLEN_POS: u32 = 24;
pub const RADIO_PCNF0_LFLEN_1BYTE: u32 = 8;
pub const RADIO_PCNF0_S0_LEN_1BYTE: u32 = 1;
pub const RADIO_PCNF0_S1_ZERO: u32 = 0;
pub const RADIO_PCNF0_S1INCL_MSK: u32 = 0;
pub const RADIO_PCNF0_PLEN_8BITS: u32 = 0;

// Packet configuration 1.
pub const RADIO_PCNF1_MAXLEN_POS: u32 = 0;
pub const RADIO_PCNF1_STATLEN_POS: u32 = 8;
pub const RADIO_PCNF1_BALEN_POS: u32 = 16;
pub const RADIO_PCNF1_ENDIAN_POS: u32 = 24;
pub const RADIO_PCNF1_WHITEEN_POS: u32 = 25;
pub const RADIO_PCNF1_MAXLEN_255BYTES: u32 = 255;
pub const RADIO_PCNF1_STATLEN_DONT_EXTEND: u32 = 0;
pub const RADIO_PCNF1_BALEN_3BYTES: u32 = 3;
pub const RADIO_PCNF1_ENDIAN_LITTLE: u32 = 0;
pub const RADIO_PCNF1_WHITEEN_ENABLED: u32 = 1;

/// Mode register value for BLE at 1 Mbit/s.
pub const RADIO_MODE_BLE_1MBIT: u32 = 3;

/// Fast ramp-up in the mode configuration register.
pub const RADIO_MODECNF0_RU_FAST: u32 = 1;

/// Inter-frame space, in microseconds.
pub const BLE_T_IFS: u32 = 150;

// Turnaround delays of the peripheral, in microseconds of the 1 MHz timer.
pub const RADIO_FAST_RAMPUP_TIME_TX: u32 = 40;
pub const RADIO_TX_DELAY: u32 = 3;
pub const RADIO_TX_END_DELAY: u32 = 3;
pub const RADIO_RX_END_DELAY: u32 = 7;
pub const RADIO_EARLIER_LISTEN: u32 = 2;

// PPI channels.
/// Timer CC[0] to radio TXEN.
pub const PPI_CHEN_CH20: u32 = 0x100000;
/// Timer CC[0] to radio RXEN.
pub const PPI_CHEN_CH21: u32 = 0x200000;
pub const PPI_CHEN_CH23: u32 = 0x800000;
pub const PPI_CHEN_CH25: u32 = 0x2000000;
/// Radio ADDRESS to timer CAPTURE[1].
pub const PPI_CHEN_CH26: u32 = 0x4000000;
/// Radio END to timer CAPTURE[2].
pub const PPI_CHEN_CH27: u32 = 0x8000000;
pub const PPI_CHEN_CH31: u32 = 0x80000000;

/// Every PPI channel that stopping the radio releases.
pub const PPI_RADIO_SHUTDOWN_MASK: u32 = PPI_CHEN_CH20 | PPI_CHEN_CH21 | PPI_CHEN_CH23
    | PPI_CHEN_CH25 | PPI_CHEN_CH31;

/// Transmit power levels the peripheral supports.
#[derive(PartialEq, Eq, Structural, Clone, Copy, Debug)]
pub enum TxPower {
    Positive4dBM,
    Positive3dBM,
    ZerodBm,
    Negative4dBm,
    Negative8dBm,
    Negative12dBm,
    Negative16dBm,
    Negative20dBm,
    Negative40dBm,
}

impl TxPower {
    /// The register encoding of each level (two's complement dBm).
    pub open spec fn spec_value(self) -> u8 {
        match self {
            TxPower::Positive4dBM => 0x04,
            TxPower::Positive3dBM => 0x03,
            TxPower::ZerodBm => 0x00,
            TxPower::Negative4dBm => 0xFC,
            TxPower::Negative8dBm => 0xF8,
            TxPower::Negative12dBm => 0xF4,
            TxPower::Negative16dBm => 0xF0,
            TxPower::Negative20dBm => 0xEC,
            TxPower::Negative40dBm => 0xD8,
        }
    }

    /// Whether `v` encodes one of the supported levels.
    pub open spec fn is_supported(v: u8) -> bool {
        exists|p: TxPower| p.spec_value() == v
    }

    pub fn value(self) -> (r: u8)
        ensures
            r == self.spec_value(),
    {
        match self {
            TxPower::Positive4dBM => 0x04,
            TxPower::Positive3dBM => 0x03,
            TxPower::ZerodBm => 0x00,
            TxPower::Negative4dBm => 0xFC,
            TxPower::Negative8dBm => 0xF8,
            TxPower::Negative12dBm => 0xF4,
            TxPower::Negative16dBm => 0xF0,
            TxPower::Negative20dBm => 0xEC,
            TxPower::Negative40dBm => 0xD8,
        }
    }

    /// Decodes a power level; `None` for a value outside the supported set.
    pub fn from_u8(v: u8) -> (r: Option<TxPower>)
        ensures
            r matches Some(p) ==> p.spec_value() == v,
            r is None <==> !TxPower::is_supported(v),
    {
        let r = match v {
            0x04 => Some(TxPower::Positive4dBM),
            0x03 => Some(TxPower::Positive3dBM),
            0x00 => Some(TxPower::ZerodBm),
            0xFC => Some(TxPower::Negative4dBm),
            0xF8 => Some(TxPower::Negative8dBm),
            0xF4 => Some(TxPower::Negative12dBm),
            0xF0 => Some(TxPower::Negative16dBm),
            0xEC => Some(TxPower::Negative20dBm),
            0xD8 => Some(TxPower::Negative40dBm),
            _ => None,
        };
        proof {
            if let Some(p) = r {
                assert(p.spec_value() == v);
            } else {
                assert forall|p: TxPower| p.spec_value() != v by {
                    match p {
                        TxPower::Positive4dBM => {},
                        TxPower::Positive3dBM => {},
                        TxPower::ZerodBm => {},
                        TxPower::Negative4dBm => {},
                        TxPower::Negative8dBm => {},
                        TxPower::Negative12dBm => {},
                        TxPower::Negative16dBm => {},
                        TxPower::Negative20dBm => {},
                        TxPower::Negative40dBm => {},
                    }
                }
            }
        }
        r
    }
}

} // verus!
