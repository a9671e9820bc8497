//! Types shared between the radio, the hopping engine and the link layer above.
use vstd::prelude::*;

verus! {

/// Number of BLE RF channels: data channels 0 to 36, advertising 37 to 39.
pub const NUMBER_CHANNELS: u8 = 40;

/// A BLE RF channel, by its channel index.
#[derive(PartialEq, Eq, Structural, Clone, Copy, Debug)]
pub struct RadioChannel {
    index: u8,
}

impl RadioChannel {
    pub closed spec fn spec_index(self) -> u8 {
        self.index
    }

    pub open spec fn wf(self) -> bool {
        self.spec_index() < NUMBER_CHANNELS
    }

    /// The channel with index `idx`, or `None` when `idx` is not below 40.
    pub fn from_channel_index(idx: u8) -> (r: Option<RadioChannel>)
        ensures
            r is Some <==> idx < NUMBER_CHANNELS,
            r matches Some(c) ==> c.spec_index() == idx && c.wf(),
    {
        if idx < NUMBER_CHANNELS {
            Some(RadioChannel { index: idx })
        } else {
            None
        }
    }

    pub fn get_channel_index(&self) -> (r: u32)
        ensures
            r == self.spec_index() as u32,
    {
        self.index as u32
    }
}

/// What the radio does at the next packet boundary.
#[derive(PartialEq, Eq, Structural, Clone, Copy, Debug)]
pub enum PhyTransition {
    NoTransition,
    MoveToRX,
    MoveToTX,
}

/// The receive client's answer once the LENGTH byte of a frame is known.
#[derive(PartialEq, Eq, Structural, Clone, Copy, Debug)]
pub enum ReadAction {
    ReadFrameAndStayRX,
    ReadFrameAndMoveToTX,
    SkipFrame,
}

/// The advertisement client's answer once an exchange is over.
#[derive(PartialEq, Eq, Structural, Clone, Copy, Debug)]
pub enum TxImmediate {
    TX,
    RespondAfterTifs,
    GoToSleep,
}

/// Outcome codes handed to clients and callers.
#[derive(PartialEq, Eq, Structural, Clone, Copy, Debug)]
pub enum ReturnCode {
    SUCCESS,
    FAIL,
    ENOSUPPORT,
}

/// Connection parameters carried by a CONNECT_IND PDU.
#[derive(Clone, Copy, Debug)]
pub struct LLData {
    pub aa: [u8; 4],
    pub crc_init: [u8; 3],
    pub win_size: u8,
    pub win_offset: u16,
    pub interval: u16,
    pub latency: u16,
    pub timeout: u16,
    pub chm: [u8; 5],
    /// Hop increment in the low 5 bits, sleep-clock accuracy in the high 3.
    pub hop_and_sca: u8,
}

/// Receives the frames that the radio picks up.
pub trait RxClient {
    /// Called once the LENGTH byte is latched; `len` counts S0, LENGTH and the
    /// PDU. `buf` is the RX buffer, valid until the call returns.
    fn receive_start(&mut self, buf: &[u8; 260], len: usize) -> (r: ReadAction)
        requires
            len == buf@[1] + 2,
    ;

    /// Called at the end of a frame that was kept; `crc` is `SUCCESS` when the
    /// peripheral found the CRC correct, `FAIL` otherwise.
    fn receive_end(&mut self, buf: &[u8; 260], len: usize, crc: ReturnCode) -> (r: PhyTransition)
        requires
            len == buf@[1] + 2,
            crc == ReturnCode::SUCCESS || crc == ReturnCode::FAIL,
    ;
}

/// Registered for transmit notifications; the radio does not call it yet.
pub trait TxClient {
}

/// Decides what follows an advertising exchange.
pub trait AdvertisementClient {
    fn advertisement_done(&mut self) -> TxImmediate;

    /// An RX window closed with the radio disabled and no address match.
    fn timer_expired(&mut self);
}

} // verus!
