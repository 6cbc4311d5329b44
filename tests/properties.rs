use nl80211::{
    bitrate, decode_i32, decode_i8, decode_mac, decode_u16, decode_u32, decode_u64, decode_u8,
    frequency, humantime, mac_adress, parse_string, power, push_attr, signal, target_attrs,
    AttrHandle, Bss, BssSignal, ConnectedTime, Dump, DumpState, FeatureFlags, Frequency,
    Interface, Mac, Nl80211Attr, Nl80211Bss, Nl80211Cmd, Nl80211Error, Nl80211RateInfo,
    Nl80211StaInfo, NlPayloadDecode, Power, RegRuleFlags, ReplyKind, Request, RxBitRate, Signal,
    Station, NL_80211_GENL_NAME, NL_80211_GENL_VERSION,
};
use nl80211::consts::{FEATURE_SAE, RRF_DFS, RRF_NO_IR, RRF_NO_OFDM};

fn attr(tag: u16, payload: &[u8]) -> Vec<u8> {
    let mut out = Vec::new();
    push_attr(&mut out, tag, payload);
    out
}

fn mismatch(expected: usize, actual: usize) -> Nl80211Error {
    Nl80211Error::LengthMismatch { expected, actual }
}

#[test]
fn decode_accepts_exact_width_only() {
    assert_eq!(decode_u8(&[7]), Ok(7));
    assert_eq!(decode_u8(&[]), Err(mismatch(1, 0)));
    assert_eq!(decode_u8(&[7, 0]), Err(mismatch(1, 2)));
    assert_eq!(decode_i8(&[255]), Ok(-1));
    assert_eq!(decode_i8(&[128]), Ok(-128));
    assert_eq!(decode_i8(&[1, 2]), Err(mismatch(1, 2)));
    assert_eq!(decode_u16(&[1, 2]), Ok(0x0201));
    assert_eq!(decode_u16(&[1]), Err(mismatch(2, 1)));
    assert_eq!(decode_u32(&[108, 9, 0, 0]), Ok(2412));
    assert_eq!(decode_u32(&[108, 9, 0]), Err(mismatch(4, 3)));
    assert_eq!(decode_u32(&[108, 9, 0, 0, 0]), Err(mismatch(4, 5)));
    assert_eq!(decode_i32(&[76, 235, 255, 255]), Ok(-5300));
    assert_eq!(decode_i32(&[0, 0, 0, 128]), Ok(i32::MIN));
    assert_eq!(decode_i32(&[]), Err(mismatch(4, 0)));
    assert_eq!(decode_u64(&[1, 0, 0, 0, 0, 0, 0, 0]), Ok(1));
    assert_eq!(decode_u64(&[255; 8]), Ok(u64::MAX));
    assert_eq!(decode_u64(&[1, 0, 0, 0, 0, 0, 0]), Err(mismatch(8, 7)));
    assert_eq!(decode_mac(&[1, 2, 3, 4, 5, 6]), Ok([1, 2, 3, 4, 5, 6]));
    assert_eq!(decode_mac(&[1, 2, 3, 4, 5]), Err(mismatch(6, 5)));
}

#[test]
fn typed_scalars_refuse_wrong_length() {
    assert_eq!(Frequency::decode(&[108, 9, 0]), Err(mismatch(4, 3)));
    assert_eq!(Mac::decode(&[255; 7]), Err(mismatch(6, 7)));
    assert_eq!(RxBitRate::decode(&[4]), Ok(RxBitRate(4)));
}

#[test]
fn rendering_known_bytes() {
    let f = Frequency::decode(&[108, 9, 0, 0]).unwrap();
    assert_eq!(f.value_text(), "2.412");
    assert_eq!(f.to_string(), "frequency: 2.412 GHz");
    let m = Mac::decode(&[255, 255, 255, 255, 255, 255]).unwrap();
    assert_eq!(m.value_text(), "FF:FF:FF:FF:FF:FF");
    assert_eq!(m.to_string(), "mac: FF:FF:FF:FF:FF:FF");
}

#[test]
fn frequency_formula() {
    assert_eq!(frequency(2412), "2.412");
    assert_eq!(frequency(2400), "2.4");
    assert_eq!(frequency(5180), "5.18");
    assert_eq!(frequency(5000), "5");
    assert_eq!(frequency(5), "0.005");
    assert_eq!(frequency(0), "0");
}

#[test]
fn bss_signal_in_dbm() {
    let s = BssSignal::decode(&[76, 235, 255, 255]).unwrap();
    assert_eq!(s, BssSignal(-5300));
    assert_eq!(s.value_text(), "-53.0");
    assert_eq!(s.to_string(), "signal: -53.0 dBm");
    assert_eq!(signal(-5350), "-53.5");
    assert_eq!(signal(-5305), "-53.0");
    assert_eq!(signal(-5), "0.0");
    assert_eq!(signal(1234), "12.3");
    assert_eq!(signal(i32::MIN), "-21474836.4");
}

#[test]
fn other_formulas() {
    assert_eq!(power(1700), 17);
    assert_eq!(power(199), 1);
    assert_eq!(bitrate(12), 120);
    assert_eq!(bitrate(255), 2550);
    assert_eq!(Power(1750).to_string(), "power: 17 dBm");
    assert_eq!(Signal(-128).to_string(), "signal: -128 dBm");
    assert_eq!(mac_adress([0, 1, 171, 15, 16, 255]), "00:01:AB:0F:10:FF");
}

#[test]
fn connected_time_through_humantime() {
    assert_eq!(humantime(5494), "1h 31m 34s");
    assert_eq!(humantime(0), "0s");
    assert_eq!(ConnectedTime(90061).to_string(), "connected time: 1day 1h 1m 1s");
}

#[test]
fn lossy_text_replaces_invalid_bytes() {
    assert_eq!(parse_string(&vec![104, 105, 255]), "hi\u{FFFD}");
    assert_eq!(parse_string(&vec![]), "");
}

#[test]
fn unknown_tags_leave_records_empty() {
    let mut buf = attr(500, &[1, 2, 3, 4]);
    buf.extend(attr(16000, &[9]));
    buf.extend(attr(243, &[]));
    let i = Interface::try_from(&buf).unwrap();
    assert_eq!(i, Interface::new());
    let s = Station::try_from(&buf).unwrap();
    assert_eq!(s, Station::new());
    let b = Bss::try_from(&buf).unwrap();
    assert_eq!(b, Bss::new());
    assert_eq!(i.to_string(), "");
}

#[test]
fn nested_rate_decodes_after_two_descents() {
    let rate = attr(Nl80211RateInfo::RateInfoMcs.to_u16(), &[4]);
    let mut info = attr(Nl80211StaInfo::StaInfoRxBitrate.to_u16(), &rate);
    info.extend(attr(Nl80211StaInfo::StaInfoSignal.to_u16(), &[218]));
    let buf = attr(Nl80211Attr::AttrStaInfo.to_u16(), &info);
    let s = Station::try_from(&buf).unwrap();
    assert_eq!(s.rx_bitrate, Some(RxBitRate(4)));
    assert_eq!(s.rx_bitrate.unwrap().value_text(), "40");
    assert_eq!(s.signal, Some(Signal(-38)));
    assert_eq!(s.to_string(), "signal : -38 dBm\nrx bitrate : 40 Mb/s");
}

#[test]
fn bad_length_field_is_skipped() {
    let mut buf = attr(Nl80211Attr::AttrWiphyFreq.to_u16(), &[108, 9, 0, 0]);
    buf.extend(attr(Nl80211Attr::AttrWiphyFreq.to_u16(), &[1, 2]));
    buf.extend(attr(Nl80211Attr::AttrIfname.to_u16(), b"wlan0"));
    let i = Interface::try_from(&buf).unwrap();
    assert_eq!(i.frequency, Some(Frequency(2412)));
    assert_eq!(i.name.unwrap().0, "wlan0");
}

#[test]
fn later_field_wins() {
    let mut buf = attr(Nl80211Attr::AttrWiphyFreq.to_u16(), &[108, 9, 0, 0]);
    buf.extend(attr(Nl80211Attr::AttrWiphyFreq.to_u16(), &[60, 20, 0, 0]));
    let i = Interface::try_from(&buf).unwrap();
    assert_eq!(i.frequency, Some(Frequency(5180)));
}

#[test]
fn truncated_header_is_refused() {
    let whole = attr(Nl80211Attr::AttrIfindex.to_u16(), &[3, 0, 0, 0]);
    for cut in 1..4 {
        let mut buf = whole.clone();
        buf.extend(&whole[..cut]);
        assert!(matches!(AttrHandle::parse(&buf), Err(Nl80211Error::TruncatedFrame)));
        assert_eq!(Interface::try_from(&buf), Err(Nl80211Error::TruncatedFrame));
    }
    for cut in 1..whole.len() {
        let r = AttrHandle::parse(&whole[..cut]);
        assert!(matches!(r, Err(Nl80211Error::TruncatedFrame)));
    }
    assert!(matches!(AttrHandle::parse(&[3, 0, 1, 0]), Err(Nl80211Error::TruncatedFrame)));
}

#[test]
fn truncated_nested_level_is_refused() {
    let bad = attr(Nl80211Attr::AttrBss.to_u16(), &[8, 0, 2]);
    assert_eq!(Bss::try_from(&bad), Err(Nl80211Error::TruncatedFrame));
    let rate = [9, 0, 2, 0, 4];
    let info = attr(Nl80211StaInfo::StaInfoTxBitrate.to_u16(), &rate);
    let buf = attr(Nl80211Attr::AttrStaInfo.to_u16(), &info);
    assert_eq!(Station::try_from(&buf), Err(Nl80211Error::TruncatedFrame));
}

#[test]
fn attribute_buffer_round_trip() {
    let mut buf = Vec::new();
    push_attr(&mut buf, 7, &[1, 2, 3]);
    push_attr(&mut buf, 9, &[]);
    push_attr(&mut buf, 300, &[5, 6, 7, 8, 9]);
    assert_eq!(buf.len(), 8 + 4 + 12);
    assert_eq!(&buf[..8], &[7, 0, 7, 0, 1, 2, 3, 0]);
    let h = AttrHandle::parse(&buf).unwrap();
    assert_eq!(h.len(), 3);
    assert_eq!((h.get(0).nla_type, h.get(0).payload), (7, &[1u8, 2, 3][..]));
    assert_eq!((h.get(1).nla_type, h.get(1).payload), (9, &[][..]));
    assert_eq!((h.get(2).nla_type, h.get(2).payload), (300, &[5u8, 6, 7, 8, 9][..]));
    assert_eq!(AttrHandle::parse(&[]).unwrap().len(), 0);
    let unpadded = [5, 0, 1, 0, 42];
    let h = AttrHandle::parse(&unpadded).unwrap();
    assert_eq!(h.get(0).payload, &[42]);
}

#[test]
fn dump_collects_records_until_done() {
    let a = attr(Nl80211Attr::AttrIfname.to_u16(), b"wlan0");
    let b = attr(Nl80211Attr::AttrIfname.to_u16(), b"wlan1");
    let mut d: Dump<Interface> = Dump::new();
    d.receive(ReplyKind::Data, &a);
    d.receive(ReplyKind::Data, &b);
    d.receive(ReplyKind::Done, &[]);
    assert_eq!(d.state(), DumpState::Complete);
    let r = d.finish().unwrap();
    assert_eq!(r.len(), 2);
    assert_eq!(r[0].name.as_ref().unwrap().0, "wlan0");
    assert_eq!(r[1].name.as_ref().unwrap().0, "wlan1");
}

#[test]
fn dump_with_nothing_but_done_succeeds() {
    let mut d: Dump<Station> = Dump::new();
    d.receive(ReplyKind::Done, &[]);
    assert_eq!(d.finish().unwrap().len(), 0);
}

#[test]
fn dump_error_drops_partial_records() {
    let a = attr(Nl80211Attr::AttrIfname.to_u16(), b"wlan0");
    let mut d: Dump<Interface> = Dump::new();
    d.receive(ReplyKind::Data, &a);
    d.receive(ReplyKind::Error { code: -19 }, &[]);
    d.receive(ReplyKind::Data, &a);
    d.receive(ReplyKind::Done, &[]);
    assert_eq!(d.state(), DumpState::Failed(Nl80211Error::ProtocolError { code: -19 }));
    assert_eq!(d.finish(), Err(Nl80211Error::ProtocolError { code: -19 }));
}

#[test]
fn dump_fails_on_malformed_message() {
    let mut d: Dump<Bss> = Dump::new();
    d.receive(ReplyKind::Data, &[1, 2]);
    d.receive(ReplyKind::Done, &[]);
    assert_eq!(d.finish(), Err(Nl80211Error::TruncatedFrame));
}

#[test]
fn error_after_malformed_data_is_a_protocol_error() {
    let a = attr(Nl80211Attr::AttrIfname.to_u16(), b"wlan0");
    let mut d: Dump<Interface> = Dump::new();
    d.receive(ReplyKind::Data, &a);
    d.receive(ReplyKind::Data, &[1, 2]);
    assert_eq!(d.state(), DumpState::Draining);
    d.receive(ReplyKind::Error { code: -95 }, &[]);
    assert_eq!(d.finish(), Err(Nl80211Error::ProtocolError { code: -95 }));
}

#[test]
fn single_target_query_takes_first_record() {
    let a = attr(Nl80211Attr::AttrMac.to_u16(), &[1, 2, 3, 4, 5, 6]);
    let b = attr(Nl80211Attr::AttrMac.to_u16(), &[9, 9, 9, 9, 9, 9]);
    let mut d: Dump<Station> = Dump::new();
    d.receive(ReplyKind::Data, &a);
    d.receive(ReplyKind::Data, &b);
    d.receive(ReplyKind::Done, &[]);
    let s = d.finish_first(Station::new()).unwrap();
    assert_eq!(s.bssid, Some([1, 2, 3, 4, 5, 6].into()));

    let mut d: Dump<Bss> = Dump::new();
    d.receive(ReplyKind::Done, &[]);
    assert_eq!(d.finish_first(Bss::new()), Ok(Bss::new()));

    let mut d: Dump<Station> = Dump::new();
    d.receive(ReplyKind::Data, &a);
    d.receive(ReplyKind::Data, &[7]);
    d.receive(ReplyKind::Done, &[]);
    assert_eq!(d.finish_first(Station::new()), Err(Nl80211Error::TruncatedFrame));
}

#[test]
fn parse_refuses_wrong_length() {
    assert_eq!(nl80211::parse_u8(&vec![8, 0]), Err(mismatch(1, 2)));
    assert_eq!(nl80211::parse_u16(&vec![1]), Err(mismatch(2, 1)));
    assert_eq!(nl80211::parse_i32(&vec![1, 0, 0]), Err(mismatch(4, 3)));
    assert_eq!(nl80211::parse_u64(&vec![1, 0, 0, 0, 0, 0, 0, 0, 0]), Err(mismatch(8, 9)));
}

#[test]
fn targeted_requests_need_an_index() {
    assert_eq!(target_attrs(None), Err(Nl80211Error::InvalidTarget));
    assert_eq!(target_attrs(Some(&vec![3, 0])), Err(Nl80211Error::InvalidTarget));
    assert_eq!(target_attrs(Some(&vec![3, 0, 0, 0])), Ok(vec![8, 0, 3, 0, 3, 0, 0, 0]));
    let q = Request::get_station(Some(&vec![3, 0, 0, 0])).unwrap();
    assert_eq!(q.cmd, Nl80211Cmd::CmdGetStation);
    assert_eq!(q.attrs, vec![8, 0, 3, 0, 3, 0, 0, 0]);
    assert!(Request::get_scan(None).is_err());
    assert_eq!(Request::get_scan(Some(&vec![2, 0, 0, 0])).unwrap().cmd.to_u16(), 32);
    assert_eq!(Request::get_interfaces().cmd.to_u16(), 5);
    assert!(Request::get_interfaces().attrs.is_empty());
}

#[test]
fn catalogue_is_total() {
    assert_eq!(Nl80211Attr::from_u16(47), Nl80211Attr::AttrBss);
    assert_eq!(Nl80211Attr::from_u16(241), Nl80211Attr::AttrNanMatch);
    assert_eq!(Nl80211Attr::from_u16(242), Nl80211Attr::UnrecognizedVariant(242));
    assert_eq!(Nl80211Attr::from_u16(65535).to_u16(), 65535);
    assert_eq!(Nl80211Bss::from_u16(7), Nl80211Bss::BssSignalMbm);
    assert_eq!(Nl80211StaInfo::StaInfoRxBitrate.to_u16(), 14);
    assert_eq!(Nl80211Cmd::from_u16(17), Nl80211Cmd::CmdGetStation);
    for v in 0..=u16::MAX {
        assert_eq!(Nl80211Attr::from_u16(v).to_u16(), v);
    }
    assert_eq!(NL_80211_GENL_NAME, "nl80211");
    assert_eq!(NL_80211_GENL_VERSION, 1);
}

#[test]
fn flag_membership() {
    let f = RegRuleFlags::from_bits(RRF_NO_OFDM | RRF_DFS);
    assert!(f.contains(RRF_DFS));
    assert!(f.contains(RRF_NO_OFDM | RRF_DFS));
    assert!(!f.contains(RRF_NO_IR));
    assert_eq!(f.bits(), 17);
    assert!(FeatureFlags::from_bits(1 << 5).contains(FEATURE_SAE));
}
