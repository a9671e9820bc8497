//! Data-channel selection for an established connection (BLE 4.x, algorithm #1).
use vstd::prelude::*;
use vstd::arithmetic::div_mod::{
    lemma_add_mod_noop,
    lemma_mod_multiples_vanish,
    lemma_mul_mod_noop_left,
    lemma_small_mod,
};
use vstd::arithmetic::mul::lemma_mul_is_distributive_add;
use crate::hil::{LLData, RadioChannel};

verus! {

/// Data channels 0 to 36.
pub const NUMBER_DATA_CHANNELS: u8 = 37;

/// Whether bit `i` of the 5-byte channel map is set (byte 0 bit 0 is channel 0).
pub open spec fn chm_bit(chm: [u8; 5], i: int) -> bool {
    (chm[i / 8] >> ((i % 8) as u8)) & 1u8 == 1u8
}

/// The indices below `n` that `channels` marks used, in increasing order.
pub open spec fn used_list(channels: Seq<bool>, n: int) -> Seq<u8>
    decreases n,
{
    if n <= 0 {
        seq![]
    } else if channels[n - 1] {
        used_list(channels, n - 1).push((n - 1) as u8)
    } else {
        used_list(channels, n - 1)
    }
}

/// The remapping table: every used data channel, in increasing order.
pub open spec fn remap_table(channels: Seq<bool>) -> Seq<u8> {
    used_list(channels, NUMBER_DATA_CHANNELS as int)
}

pub proof fn lemma_used_list_bounds(channels: Seq<bool>, n: int)
    requires
        0 <= n <= 255,
    ensures
        used_list(channels, n).len() <= n,
        forall|k: int|
            0 <= k < used_list(channels, n).len() ==> #[trigger] used_list(channels, n)[k] < n,
    decreases n,
{
    if n > 0 {
        lemma_used_list_bounds(channels, n - 1);
    }
}

/// A hop increment from 5 to 16 reaches every residue modulo 37 within 37
/// steps: it returns a step count `j` with `(base + j * h) mod 37 == c`.
proof fn lemma_hop_reaches(base: int, c: int, h: int) -> (j: int)
    requires
        5 <= h <= 16,
        0 <= c < 37,
    ensures
        0 <= j < 37,
        (base + j * h) % 37 == c,
{
    // The inverse of `h` modulo 37.
    let inv: int = if h == 5 {
        15
    } else if h == 6 {
        31
    } else if h == 7 {
        16
    } else if h == 8 {
        14
    } else if h == 9 {
        33
    } else if h == 10 {
        26
    } else if h == 11 {
        27
    } else if h == 12 {
        34
    } else if h == 13 {
        20
    } else if h == 14 {
        8
    } else if h == 15 {
        5
    } else {
        7
    };
    assert((inv * h) % 37 == 1);
    let d = c - base;
    let j = (d * inv) % 37;
    let q = (inv * h) / 37;
    assert(inv * h == 37 * q + 1);
    lemma_mul_mod_noop_left(d * inv, h, 37);
    assert((d * inv) * h == d + 37 * (q * d)) by (nonlinear_arith)
        requires
            inv * h == 37 * q + 1,
    ;
    lemma_mod_multiples_vanish(q * d, d, 37);
    lemma_add_mod_noop(base, j * h, 37);
    lemma_add_mod_noop(base, d, 37);
    lemma_small_mod(c as nat, 37);
    j
}

#[derive(Clone, Copy, Debug)]
pub struct ConnectionData {
    last_unmapped_channel: u8,
    channels: [bool; 37],
    conn_event_counter: u16,
    hop_increment: u8,
    number_used_channels: u8,
}

impl PartialEq for ConnectionData {
    fn eq(&self, other: &ConnectionData) -> (r: bool)
        ensures
            r == (self.spec_last_unmapped_channel() == other.spec_last_unmapped_channel()),
    {
        self.last_unmapped_channel == other.last_unmapped_channel
    }
}

impl vstd::std_specs::cmp::PartialEqSpecImpl for ConnectionData {
    open spec fn obeys_eq_spec() -> bool {
        false
    }

    open spec fn eq_spec(&self, other: &ConnectionData) -> bool {
        self.spec_last_unmapped_channel() == other.spec_last_unmapped_channel()
    }
}

impl ConnectionData {
    pub closed spec fn spec_last_unmapped_channel(self) -> u8 {
        self.last_unmapped_channel
    }

    pub closed spec fn spec_channels(self) -> Seq<bool> {
        self.channels@
    }

    pub closed spec fn spec_hop_increment(self) -> u8 {
        self.hop_increment
    }

    pub closed spec fn spec_number_used_channels(self) -> u8 {
        self.number_used_channels
    }

    pub closed spec fn spec_conn_event_counter(self) -> u16 {
        self.conn_event_counter
    }

    /// Counts agree with the map, and the state stays within the data channels.
    pub open spec fn wf(self) -> bool {
        &&& self.spec_channels().len() == NUMBER_DATA_CHANNELS
        &&& self.spec_number_used_channels() == remap_table(self.spec_channels()).len()
        &&& self.spec_last_unmapped_channel() < NUMBER_DATA_CHANNELS
        &&& self.spec_hop_increment() < 32
    }

    /// The preconditions of channel selection: at least two used channels and a
    /// hop increment from 5 to 16.
    pub open spec fn valid(self) -> bool {
        &&& self.wf()
        &&& self.spec_number_used_channels() >= 2
        &&& 5 <= self.spec_hop_increment() <= 16
    }

    /// The unmapped channel of the next connection event.
    pub open spec fn spec_next_unmapped(self) -> u8 {
        ((self.spec_last_unmapped_channel() + self.spec_hop_increment()) % (
        NUMBER_DATA_CHANNELS as int)) as u8
    }

    /// The channel index that the next call of `next_channel` selects.
    pub open spec fn spec_next_index(self) -> u8 {
        let u = self.spec_next_unmapped();
        if self.spec_channels()[u as int] {
            u
        } else {
            remap_table(self.spec_channels())[(u % self.spec_number_used_channels()) as int]
        }
    }

    /// The unmapped channel advanced by one connection event, all else kept.
    pub closed spec fn spec_advance(self) -> ConnectionData {
        ConnectionData { last_unmapped_channel: self.spec_next_unmapped(), ..self }
    }

    /// The state after `k` calls of `next_channel`.
    pub open spec fn after(self, k: nat) -> ConnectionData
        decreases k,
    {
        if k == 0 {
            self
        } else {
            self.after((k - 1) as nat).spec_advance()
        }
    }

    /// The channel index chosen by call number `k + 1` of `next_channel`.
    pub open spec fn channel_at(self, k: nat) -> u8 {
        self.after(k).spec_next_index()
    }

    pub proof fn lemma_advance(self)
        ensures
            self.spec_advance().spec_last_unmapped_channel() == self.spec_next_unmapped(),
            self.spec_advance().spec_channels() == self.spec_channels(),
            self.spec_advance().spec_hop_increment() == self.spec_hop_increment(),
            self.spec_advance().spec_number_used_channels() == self.spec_number_used_channels(),
            self.spec_advance().spec_conn_event_counter() == self.spec_conn_event_counter(),
            self.wf() ==> self.spec_advance().wf(),
    {
    }

    /// After `k` calls the unmapped channel is `(start + k * hop) mod 37`, and
    /// nothing else has changed.
    pub proof fn lemma_after(self, k: nat)
        requires
            self.wf(),
        ensures
            self.after(k).wf(),
            self.after(k).spec_last_unmapped_channel() == (self.spec_last_unmapped_channel() + k
                * self.spec_hop_increment()) % (NUMBER_DATA_CHANNELS as int),
            self.after(k).spec_channels() == self.spec_channels(),
            self.after(k).spec_hop_increment() == self.spec_hop_increment(),
            self.after(k).spec_number_used_channels() == self.spec_number_used_channels(),
            self.after(k).spec_conn_event_counter() == self.spec_conn_event_counter(),
        decreases k,
    {
        let l = self.spec_last_unmapped_channel() as int;
        let h = self.spec_hop_increment() as int;
        if k == 0 {
            lemma_small_mod(l as nat, 37);
        } else {
            let p = self.after((k - 1) as nat);
            self.lemma_after((k - 1) as nat);
            p.lemma_advance();
            lemma_small_mod(h as nat, 37);
            lemma_add_mod_noop(l + (k - 1) * h, h, 37);
            lemma_mul_is_distributive_add(h, (k - 1) as int, 1);
            assert(l + (k - 1) * h + h == l + k * h) by (nonlinear_arith);
        }
    }

    /// Channel selection repeats with period 37: call `k + 37` selects the
    /// same channel as call `k`, from the same unmapped channel.
    pub proof fn lemma_hopping_periodic(self, k: nat)
        requires
            self.valid(),
        ensures
            self.after(k + 37).spec_last_unmapped_channel() == self.after(
                k,
            ).spec_last_unmapped_channel(),
            self.channel_at(k + 37) == self.channel_at(k),
    {
        let l = self.spec_last_unmapped_channel() as int;
        let h = self.spec_hop_increment() as int;
        self.lemma_after(k);
        self.lemma_after(k + 37);
        assert(l + (k + 37) * h == 37 * h + (l + k * h)) by (nonlinear_arith);
        lemma_mod_multiples_vanish(h, l + k * h, 37);
    }

    /// Over any 37 consecutive calls of `next_channel`, every channel that the
    /// map marks used is selected at least once.
    pub proof fn lemma_hopping_covers(self, start: nat, c: u8)
        requires
            self.valid(),
            c < NUMBER_DATA_CHANNELS,
            self.spec_channels()[c as int],
        ensures
            exists|k: nat| start <= k < start + 37 && #[trigger] self.channel_at(k) == c,
    {
        let l = self.spec_last_unmapped_channel() as int;
        let h = self.spec_hop_increment() as int;
        let base = l + (start + 1) * h;
        let j = lemma_hop_reaches(base, c as int, h);
        let k = (start + j) as nat;
        self.lemma_after(k);
        self.lemma_after(k + 1);
        self.after(k).lemma_advance();
        assert(l + (k + 1) * h == base + j * h) by (nonlinear_arith)
            requires
                k == start + j,
                base == l + (start + 1) * h,
        ;
        assert(self.after(k + 1) == self.after(k).spec_advance());
        assert(self.after(k).spec_next_unmapped() == c);
        assert(self.channel_at(k) == c);
    }

    /// Expands the 5-byte map into one flag per data channel and counts the
    /// used ones.
    pub fn expand_channel_map(chm: [u8; 5]) -> (r: ([bool; 37], u8))
        ensures
            forall|i: int| 0 <= i < 37 ==> r.0@[i] == chm_bit(chm, i),
            r.1 == remap_table(r.0@).len(),
    {
        let mut channels: [bool; 37] = [false; 37];
        let mut i: usize = 0;
        while i < 37
            invariant
                i <= 37,
                forall|k: int| 0 <= k < i ==> channels@[k] == chm_bit(chm, k),
            decreases 37 - i,
        {
            let bit = (chm[i / 8] >> ((i % 8) as u8)) & 1u8;
            channels[i] = bit == 1u8;
            i = i + 1;
        }
        let mut number_used_channels: u8 = 0;
        let mut j: usize = 0;
        while j < 37
            invariant
                j <= 37,
                number_used_channels == used_list(channels@, j as int).len(),
            decreases 37 - j,
        {
            proof {
                lemma_used_list_bounds(channels@, j as int);
            }
            if channels[j] {
                number_used_channels = number_used_channels + 1;
            }
            j = j + 1;
        }
        (channels, number_used_channels)
    }

    /// A fresh hopping state for the connection described by `lldata`.
    pub fn new(lldata: &LLData) -> (r: ConnectionData)
        ensures
            r.wf(),
            r.spec_last_unmapped_channel() == 0,
            r.spec_conn_event_counter() == 0,
            r.spec_hop_increment() == lldata.hop_and_sca & 0x1f,
            forall|i: int| 0 <= i < 37 ==> r.spec_channels()[i] == chm_bit(lldata.chm, i),
    {
        let (channels, number_used_channels) = ConnectionData::expand_channel_map(lldata.chm);
        let hop_and_sca = lldata.hop_and_sca;
        let hop_increment = hop_and_sca & 0x1f;
        assert(hop_increment < 32) by (bit_vector)
            requires
                hop_increment == hop_and_sca & 0x1f,
        ;
        ConnectionData {
            last_unmapped_channel: 0,
            channels,
            number_used_channels,
            hop_increment,
            conn_event_counter: 0,
        }
    }

    /// Takes the channel map of new connection parameters; the hopping
    /// position and increment are kept.
    pub fn update_lldata(&mut self, lldata: LLData)
        requires
            old(self).wf(),
        ensures
            final(self).wf(),
            final(self).spec_last_unmapped_channel() == old(self).spec_last_unmapped_channel(),
            final(self).spec_hop_increment() == old(self).spec_hop_increment(),
            final(self).spec_conn_event_counter() == old(self).spec_conn_event_counter(),
            forall|i: int|
                0 <= i < 37 ==> final(self).spec_channels()[i] == chm_bit(lldata.chm, i),
    {
        let (channels, number_used_channels) = ConnectionData::expand_channel_map(lldata.chm);
        self.channels = channels;
        self.number_used_channels = number_used_channels;
    }

    pub fn last_unmapped_channel(&self) -> (r: u8)
        ensures
            r == self.spec_last_unmapped_channel(),
    {
        self.last_unmapped_channel
    }

    pub fn hop_increment(&self) -> (r: u8)
        ensures
            r == self.spec_hop_increment(),
    {
        self.hop_increment
    }

    pub fn number_used_channels(&self) -> (r: u8)
        ensures
            r == self.spec_number_used_channels(),
    {
        self.number_used_channels
    }

    pub fn conn_event_counter(&self) -> (r: u16)
        ensures
            r == self.spec_conn_event_counter(),
    {
        self.conn_event_counter
    }

    /// Moves to the next connection event and returns its data channel.
    pub fn next_channel(&mut self) -> (r: RadioChannel)
        requires
            old(self).valid(),
        ensures
            *final(self) == old(self).spec_advance(),
            final(self).valid(),
            r.wf(),
            r.spec_index() == old(self).spec_next_index(),
            r.spec_index() < NUMBER_DATA_CHANNELS,
    {
        let unmapped_channel: u8 = (self.last_unmapped_channel + self.hop_increment)
            % NUMBER_DATA_CHANNELS;
        let used = self.channels[unmapped_channel as usize];
        self.last_unmapped_channel = unmapped_channel;
        proof {
            lemma_used_list_bounds(self.channels@, 37);
        }
        if used {
            RadioChannel::from_channel_index(unmapped_channel).unwrap()
        } else {
            let mut table: [u8; 37] = [0u8; 37];
            let remapping_index: u8 = unmapped_channel % self.number_used_channels;
            let mut idx: usize = 0;
            let mut i: usize = 0;
            while i < 37
                invariant
                    i <= 37,
                    idx == used_list(self.channels@, i as int).len(),
                    idx <= i,
                    forall|k: int|
                        0 <= k < idx ==> table@[k] == #[trigger] used_list(self.channels@, i as int)[k],
                decreases 37 - i,
            {
                proof {
                    lemma_used_list_bounds(self.channels@, i as int);
                }
                if self.channels[i] {
                    table[idx] = i as u8;
                    idx = idx + 1;
                }
                i = i + 1;
            }
            assert(idx == self.number_used_channels);
            let c = table[remapping_index as usize];
            assert(c == used_list(self.channels@, 37)[remapping_index as int]);
            assert(c < 37);
            RadioChannel::from_channel_index(c).unwrap()
        }
    }
}

} // verus!
