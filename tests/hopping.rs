use nrf52::connection::ConnectionData;
use nrf52::hil::{LLData, RadioChannel};

fn lldata(chm: [u8; 5], hop_and_sca: u8) -> LLData {
    LLData {
        aa: [0xd6, 0xbe, 0x89, 0x8e],
        crc_init: [0x55, 0x55, 0x55],
        win_size: 2,
        win_offset: 0,
        interval: 40,
        latency: 0,
        timeout: 100,
        chm,
        hop_and_sca,
    }
}

fn hops(cd: &mut ConnectionData, n: usize) -> Vec<u32> {
    let mut out = Vec::new();
    for _ in 0..n {
        out.push(cd.next_channel().get_channel_index());
    }
    out
}

#[test]
fn all_channels_hop_by_five() {
    let mut cd = ConnectionData::new(&lldata([0xff, 0xff, 0xff, 0xff, 0x1f], 5));
    assert_eq!(cd.number_used_channels(), 37);
    assert_eq!(hops(&mut cd, 9), vec![5, 10, 15, 20, 25, 30, 35, 3, 8]);
}

#[test]
fn unused_channel_is_remapped() {
    let mut cd = ConnectionData::new(&lldata([0xff, 0xff, 0xff, 0xff, 0x00], 7));
    assert_eq!(cd.number_used_channels(), 32);
    assert_eq!(hops(&mut cd, 5), vec![7, 14, 21, 28, 3]);
    assert_eq!(cd.last_unmapped_channel(), 35);
}

#[test]
fn sparse_map_remaps_to_first_used() {
    let mut cd = ConnectionData::new(&lldata([0x11, 0x11, 0x00, 0x00, 0x00], 16));
    assert_eq!(cd.number_used_channels(), 4);
    assert_eq!(cd.next_channel().get_channel_index(), 0);
    assert_eq!(cd.last_unmapped_channel(), 16);
    // unmapped 32 is unused: 32 mod 4 = 0 -> channel 0; unmapped 11: 11 mod 4 = 3 -> 12
    assert_eq!(hops(&mut cd, 2), vec![0, 12]);
}

#[test]
fn hop_increment_ignores_sleep_clock_bits() {
    let cd = ConnectionData::new(&lldata([0xff, 0xff, 0xff, 0xff, 0x1f], 0b1110_0101));
    assert_eq!(cd.hop_increment(), 5);
    assert_eq!(cd.last_unmapped_channel(), 0);
    assert_eq!(cd.conn_event_counter(), 0);
}

#[test]
fn selection_repeats_every_37_events() {
    let mut cd = ConnectionData::new(&lldata([0xa5, 0x0f, 0x30, 0x81, 0x12], 11));
    let seq = hops(&mut cd, 37 * 3);
    for k in 0..37 * 2 {
        assert_eq!(seq[k], seq[k + 37]);
    }
}

#[test]
fn every_used_channel_within_37_events() {
    let chm = [0x03, 0x40, 0x00, 0x18, 0x10];
    let mut cd = ConnectionData::new(&lldata(chm, 13));
    hops(&mut cd, 5);
    let seq = hops(&mut cd, 37);
    for c in 0..37u32 {
        let used = (chm[(c / 8) as usize] >> (c % 8)) & 1 == 1;
        if used {
            assert!(seq.contains(&c), "channel {} missing", c);
        }
    }
    for c in &seq {
        let used = (chm[(*c / 8) as usize] >> (*c % 8)) & 1 == 1;
        assert!(used);
    }
}

#[test]
fn expand_counts_only_data_channels() {
    let (channels, used) = ConnectionData::expand_channel_map([0x01, 0x00, 0x00, 0x00, 0xf0]);
    // bits 37 to 39 of the last byte are not data channels
    assert_eq!(used, 2);
    assert!(channels[0]);
    assert!(channels[36]);
    assert!(!channels[1]);
    let (_, none) = ConnectionData::expand_channel_map([0; 5]);
    assert_eq!(none, 0);
}

#[test]
fn update_lldata_keeps_position() {
    let mut cd = ConnectionData::new(&lldata([0xff, 0xff, 0xff, 0xff, 0x1f], 5));
    hops(&mut cd, 2);
    cd.update_lldata(lldata([0x11, 0x11, 0x00, 0x00, 0x00], 9));
    assert_eq!(cd.last_unmapped_channel(), 10);
    assert_eq!(cd.hop_increment(), 5);
    assert_eq!(cd.number_used_channels(), 4);
    // unmapped 15 is unused: 15 mod 4 = 3 -> channel 12
    assert_eq!(cd.next_channel().get_channel_index(), 12);
}

#[test]
fn equality_follows_the_unmapped_channel() {
    let mut a = ConnectionData::new(&lldata([0xff, 0xff, 0xff, 0xff, 0x1f], 5));
    let b = ConnectionData::new(&lldata([0x11, 0x11, 0x00, 0x00, 0x00], 9));
    assert!(a == b);
    a.next_channel();
    assert!(a != b);
}

#[test]
fn channel_index_range() {
    assert!(RadioChannel::from_channel_index(40).is_none());
    assert_eq!(RadioChannel::from_channel_index(39).unwrap().get_channel_index(), 39);
}
