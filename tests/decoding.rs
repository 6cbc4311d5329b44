use nl80211::{
    decimal_text, labeled, parse_hex, parse_i32, parse_i8, parse_string, parse_u16, parse_u32,
    parse_u64, parse_u8, push_attr, Bss, Device, Essid, Frequency, Interface, Name, Nl80211Attr,
    NlPayloadDecode, RxBitRate, Station,
};

/// Writes attributes given as (length, tag, payload) the way the kernel does,
/// checking each recorded length against its payload.
fn frame(attrs: &[(u16, Nl80211Attr, Vec<u8>)]) -> Vec<u8> {
    let mut out = Vec::new();
    for (len, tag, payload) in attrs {
        assert_eq!(*len as usize, payload.len() + 4);
        push_attr(&mut out, tag.to_u16(), payload);
    }
    out
}

#[test]
fn test_before() {
    assert_eq!(labeled("before: ", &decimal_text(10), ""), "before: 10");
}

#[test]
fn test_after() {
    assert_eq!(labeled("", &decimal_text(10), " after"), "10 after");
}

#[test]
fn test_before_and_after() {
    assert_eq!(labeled("before: ", &decimal_text(10), " after"), "before: 10 after");
}

#[test]
fn test_from_vec_for_u8() {
    let vec = vec![0];
    RxBitRate::decode(&vec[..]).unwrap();
}

#[test]
fn test_from_vec_for_u32() {
    let vec = vec![0, 0, 0, 0];
    Frequency::decode(&vec[..]).unwrap();
}

#[test]
fn test_from_vec_for_u64() {
    let vec = vec![0, 0, 0, 0, 0, 0, 0, 0];
    Device::decode(&vec[..]).unwrap();
}

#[test]
fn test_from_string() {
    Name::from("e".to_string());
    Essid::from(String::from("e"));
}

#[test]
fn test_cast() {
    fn double(i: u32) -> u32 {
        i * 2
    }

    assert_eq!(labeled("", &decimal_text(double(2) as u64), ""), "4")
}

#[test]
fn bss_test_pretty_format() {
    let bss = Bss {
        bssid: Some([255, 255, 255, 255, 255, 255].into()),
        frequency: Some(2412.into()),
        beacon_interval: Some(100.into()),
        seen_ms_ago: Some(100.into()),
        status: Some(1.into()),
        signal: Some((-5300).into()),
    };

    let expected_output = r#"bssid: FF:FF:FF:FF:FF:FF
        frequency: 2.412 GHz
        beacon interval: 100 TUs
        last seen: 100 ms ago
        status: 1
        signal: -53.0 dBm"#;

    assert_eq!(bss.to_string(), expected_output.replace("\n        ", "\n"))
}

#[test]
fn test_parse() {
    let handler = frame(&[
        (
            8,
            Nl80211Attr::AttrGeneration,
            vec![
                28, 4, 0, 0,
            ],
        ),
        (
            8,
            Nl80211Attr::AttrIfindex,
            vec![
                3, 0, 0, 0,
            ],
        ),
        (
            12,
            Nl80211Attr::AttrWdev,
            vec![
                1, 0, 0, 0, 0, 0, 0, 0,
            ],
        ),
        (
            728,
            Nl80211Attr::AttrBss,
            vec![
                10, 0, 1, 0, 255, 255, 255, 255, 255, 255, 0, 0, 4, 0, 14, 0, 12, 0, 3, 0, 132, 12,
                93, 163, 39, 0, 0, 0, 95, 1, 6, 0, 0, 8, 83, 70, 82, 45, 49, 99, 50, 56, 1, 8, 130,
                132, 139, 150, 36, 48, 72, 108, 3, 1, 1, 7, 6, 68, 69, 32, 1, 13, 20, 32, 1, 0, 35,
                2, 16, 0, 42, 1, 0, 50, 4, 12, 18, 24, 96, 48, 24, 1, 0, 0, 15, 172, 2, 2, 0, 0, 15,
                172, 4, 0, 15, 172, 2, 1, 0, 0, 15, 172, 2, 12, 0, 11, 5, 1, 0, 80, 0, 0, 70, 5, 114,
                8, 1, 0, 0, 45, 26, 188, 9, 27, 255, 255, 0, 0, 0, 0, 0, 0, 0, 0, 0, 0, 0, 0, 0, 0,
                0, 0, 0, 0, 0, 0, 0, 61, 22, 1, 8, 4, 0, 0, 0, 0, 0, 0, 0, 0, 0, 0, 0, 0, 0, 0, 0, 0,
                0, 0, 0, 127, 8, 4, 0, 8, 0, 0, 0, 0, 64, 221, 131, 0, 80, 242, 4, 16, 74, 0, 1, 16,
                16, 68, 0, 1, 2, 16, 59, 0, 1, 3, 16, 71, 0, 16, 65, 133, 194, 155, 156, 12, 135,
                126, 154, 135, 125, 82, 84, 30, 42, 138, 16, 33, 0, 8, 83, 97, 103, 101, 109, 99,
                111, 109, 16, 35, 0, 8, 83, 97, 103, 101, 109, 99, 111, 109, 16, 36, 0, 6, 49, 50,
                51, 52, 53, 54, 16, 66, 0, 7, 48, 48, 48, 48, 48, 48, 49, 16, 84, 0, 8, 0, 6, 0, 80,
                242, 4, 0, 1, 16, 17, 0, 10, 83, 97, 103, 101, 109, 99, 111, 109, 65, 80, 16, 8, 0,
                2, 32, 8, 16, 60, 0, 1, 3, 16, 73, 0, 6, 0, 55, 42, 0, 1, 32, 221, 9, 0, 16, 24, 2,
                1, 0, 12, 0, 0, 221, 26, 0, 80, 242, 1, 1, 0, 0, 80, 242, 2, 2, 0, 0, 80, 242, 4, 0,
                80, 242, 2, 1, 0, 0, 80, 242, 2, 221, 24, 0, 80, 242, 2, 1, 1, 132, 0, 3, 164, 0, 0,
                39, 164, 0, 0, 66, 67, 94, 0, 98, 50, 47, 0, 0, 12, 0, 13, 0, 187, 118, 116, 163, 39,
                0, 0, 0, 19, 1, 11, 0, 0, 8, 83, 70, 82, 45, 49, 99, 50, 56, 1, 8, 130, 132, 139,
                150, 36, 48, 72, 108, 3, 1, 1, 5, 4, 0, 1, 0, 0, 7, 6, 68, 69, 32, 1, 13, 20, 32, 1,
                0, 35, 2, 16, 0, 42, 1, 0, 50, 4, 12, 18, 24, 96, 48, 24, 1, 0, 0, 15, 172, 2, 2, 0,
                0, 15, 172, 4, 0, 15, 172, 2, 1, 0, 0, 15, 172, 2, 12, 0, 11, 5, 1, 0, 80, 0, 0, 70,
                5, 114, 8, 1, 0, 0, 45, 26, 188, 9, 27, 255, 255, 0, 0, 0, 0, 0, 0, 0, 0, 0, 0, 0, 0,
                0, 0, 0, 0, 0, 0, 0, 0, 0, 61, 22, 1, 8, 4, 0, 0, 0, 0, 0, 0, 0, 0, 0, 0, 0, 0, 0, 0,
                0, 0, 0, 0, 0, 127, 8, 4, 0, 8, 0, 0, 0, 0, 64, 221, 49, 0, 80, 242, 4, 16, 74, 0, 1,
                16, 16, 68, 0, 1, 2, 16, 71, 0, 16, 65, 133, 194, 155, 156, 12, 135, 126, 154, 135,
                125, 82, 84, 30, 42, 138, 16, 60, 0, 1, 3, 16, 73, 0, 6, 0, 55, 42, 0, 1, 32, 221, 9,
                0, 16, 24, 2, 1, 0, 12, 0, 0, 221, 26, 0, 80, 242, 1, 1, 0, 0, 80, 242, 2, 2, 0, 0,
                80, 242, 4, 0, 80, 242, 2, 1, 0, 0, 80, 242, 2, 221, 24, 0, 80, 242, 2, 1, 1, 132, 0,
                3, 164, 0, 0, 39, 164, 0, 0, 66, 67, 94, 0, 98, 50, 47, 0, 0, 6, 0, 4, 0, 100, 0, 0,
                0, 6, 0, 5, 0, 17, 21, 0, 0, 8, 0, 2, 0, 108, 9, 0, 0, 8, 0, 12, 0, 0, 0, 0, 0, 8, 0,
                10, 0, 100, 0, 0, 0, 8, 0, 7, 0, 76, 235, 255, 255, 8, 0, 9, 0, 1, 0, 0, 0,
            ],
        ),
    ]);

    let bss = Bss::try_from(&handler[..]).unwrap();
    assert_eq!(bss.bssid, Some([255, 255, 255, 255, 255, 255].into()));
    assert_eq!(bss.frequency, Some(2412.into()));
    assert_eq!(bss.beacon_interval, Some(100.into()));
    assert_eq!(bss.seen_ms_ago, Some(100.into()));
    assert_eq!(bss.status, Some(1.into()));
    assert_eq!(bss.signal, Some((-5300).into()));
}

#[test]
fn interface_test_pretty_format() {
    let interface = Interface {
        index: Some(vec![3, 0, 0, 0]),
        ssid: Some("eduroam".to_string().into()),
        mac: Some([255, 255, 255, 255, 255, 255].into()),
        name: Some("wlp5s0".to_string().into()),
        frequency: Some(2412.into()),
        channel: Some(1.into()),
        power: Some(1700.into()),
        phy: Some(0.into()),
        device: Some(1.into()),
    };

    let expected_output = r#"essid : eduroam
        mac : FF:FF:FF:FF:FF:FF
        interface : wlp5s0
        frequency : 2.412 Ghz
        channel : 1
        power : 17 dBm
        phy : 0
        device : 1"#;

    assert_eq!(interface.to_string(), expected_output.replace("\n        ", "\n"))
}

#[test]
fn test_parse_hex() {
    let bytes_input: Vec<u8> = vec![255, 255, 255, 255, 255, 255];
    assert_eq!(parse_hex(&bytes_input), "FF:FF:FF:FF:FF:FF".to_string());
}

#[test]
fn test_parse_string() {
    let input_string = "test".to_string();
    let bytes_string = input_string.as_bytes().to_vec();
    assert_eq!(parse_string(&bytes_string), input_string);
}

#[test]
fn test_parse_u8() {
    assert_eq!(parse_u8(&vec![8]), Ok(8 as u8));
}

#[test]
fn test_parse_i8() {
    assert_eq!(parse_i8(&vec![8]), Ok(8 as i8));
}

#[test]
fn test_parse_u16() {
    assert_eq!(parse_u16(&vec![1, 0]), Ok(1 as u16));
}

#[test]
fn test_parse_u32() {
    assert_eq!(parse_u32(&vec![1, 0, 0, 0]), Ok(1 as u32));
}

#[test]
fn test_parse_i32() {
    assert_eq!(parse_i32(&vec![1, 0, 0, 0]), Ok(1 as i32));
}

#[test]
fn test_parse_u64() {
    assert_eq!(parse_u64(&vec![1, 0, 0, 0, 0, 0, 0, 0]), Ok(1 as u64));
}

#[test]
fn station_test_pretty_format() {
    let station = Station {
        average_signal: Some((-59).into()),
        beacon_loss: Some(0.into()),
        bssid: Some([255, 255, 255, 255, 255, 255].into()),
        connected_time: Some(5494.into()),
        rx_bitrate: Some(12.into()),
        rx_packets: Some(425580.into()),
        signal: Some((-61).into()),
        tx_bitrate: Some(13.into()),
        tx_failed: Some(45.into()),
        tx_packets: Some(153870.into()),
        tx_retries: Some(28425.into()),
    };

    let expected_output = r#"bssid : FF:FF:FF:FF:FF:FF
        connected time : 91.566666 minutes
        beacon loss : 0
        signal : -61 dBm
        average signal : -59 dBm
        rx packets : 425580
        tx packets : 153870
        rx bitrate : 120 Mb/s
        tx bitrate : 130 Mb/s
        tx retries : 28425
        tx failed : 45"#;

    assert_eq!(station.to_string(), expected_output.replace("\n        ", "\n"))
}

#[test]
fn test_parser() {
    let handler = frame(&[
        (
            10,
            Nl80211Attr::AttrMac,
            vec![
                46, 46, 46, 46, 46, 46,
            ],
        ),
        (
            2404,
            Nl80211Attr::AttrStaInfo,
            vec![
                8, 0, 16, 0, 17, 27, 0, 0, 8, 0, 1, 0, 248, 2, 0, 0, 8, 0, 2, 0, 43, 98, 156, 29, 8,
                0, 3, 0, 99, 123, 109, 1, 12, 0, 23, 0, 43, 98, 156, 29, 0, 0, 0, 0, 12, 0, 24, 0,
                99, 123, 109, 1, 0, 0, 0, 0, 5, 0, 7, 0, 218, 0, 0, 0, 5, 0, 13, 0, 215, 0, 0, 0, 20,
                0, 25, 0, 5, 0, 0, 0, 216, 0, 0, 0, 5, 0, 1, 0, 213, 0, 0, 0, 20, 0, 26, 0, 5, 0, 0,
                0, 212, 0, 0, 0, 5, 0, 1, 0, 211, 0, 0, 0, 28, 0, 8, 0, 8, 0, 5, 0, 16, 4, 0, 0, 6,
                0, 1, 0, 16, 4, 0, 0, 5, 0, 2, 0, 13, 0, 0, 0, 28, 0, 14, 0, 8, 0, 5, 0, 134, 1, 0,
                0, 6, 0, 1, 0, 134, 1, 0, 0, 5, 0, 2, 0, 4, 0, 0, 0, 8, 0, 9, 0, 226, 128, 7, 0, 8,
                0, 10, 0, 9, 170, 2, 0, 8, 0, 11, 0, 27, 130, 0, 0, 8, 0, 12, 0, 47, 0, 0, 0, 8, 0,
                27, 0, 196, 160, 0, 0, 8, 0, 18, 0, 0, 0, 0, 0, 28, 0, 15, 0, 4, 0, 2, 0, 4, 0, 3, 0,
                5, 0, 4, 0, 1, 0, 0, 0, 6, 0, 5, 0, 100, 0, 0, 0, 12, 0, 17, 0, 254, 0, 0, 0, 170, 0,
                0, 0, 12, 0, 28, 0, 183, 3, 0, 0, 0, 0, 0, 0, 12, 0, 29, 0, 225, 254, 0, 0, 0, 0, 0,
                0, 5, 0, 30, 0, 216, 0, 0, 0, 5, 0, 34, 0, 46, 0, 0, 0, 56, 8, 31, 0, 128, 0, 1, 0,
                12, 0, 1, 0, 168, 103, 5, 0, 0, 0, 0, 0, 12, 0, 2, 0, 71, 169, 2, 0, 0, 0, 0, 0, 12,
                0, 3, 0, 0, 0, 0, 0, 0, 0, 0, 0, 12, 0, 4, 0, 0, 0, 0, 0, 0, 0, 0, 0, 76, 0, 6, 0, 8,
                0, 1, 0, 0, 0, 0, 0, 8, 0, 2, 0, 0, 0, 0, 0, 8, 0, 3, 0, 61, 39, 1, 0, 8, 0, 4, 0,
                23, 0, 0, 0, 8, 0, 5, 0, 0, 0, 0, 0, 8, 0, 6, 0, 0, 0, 0, 0, 8, 0, 8, 0, 0, 0, 0, 0,
                8, 0, 9, 0, 38, 56, 109, 1, 8, 0, 10, 0, 71, 169, 2, 0, 128, 0, 2, 0, 12, 0, 1, 0, 0,
                0, 0, 0, 0, 0, 0, 0, 12, 0, 2, 0, 0, 0, 0, 0, 0, 0, 0, 0, 12, 0, 3, 0, 0, 0, 0, 0, 0,
                0, 0, 0, 12, 0, 4, 0, 0, 0, 0, 0, 0, 0, 0, 0, 76, 0, 6, 0, 8, 0, 1, 0, 0, 0, 0, 0, 8,
                0, 2, 0, 0, 0, 0, 0, 8, 0, 3, 0, 0, 0, 0, 0, 8, 0, 4, 0, 0, 0, 0, 0, 8, 0, 5, 0, 0,
                0, 0, 0, 8, 0, 6, 0, 0, 0, 0, 0, 8, 0, 8, 0, 0, 0, 0, 0, 8, 0, 9, 0, 0, 0, 0, 0, 8,
                0, 10, 0, 0, 0, 0, 0, 128, 0, 3, 0, 12, 0, 1, 0, 0, 0, 0, 0, 0, 0, 0, 0, 12, 0, 2, 0,
                0, 0, 0, 0, 0, 0, 0, 0, 12, 0, 3, 0, 0, 0, 0, 0, 0, 0, 0, 0, 12, 0, 4, 0, 0, 0, 0, 0,
                0, 0, 0, 0, 76, 0, 6, 0, 8, 0, 1, 0, 0, 0, 0, 0, 8, 0, 2, 0, 0, 0, 0, 0, 8, 0, 3, 0,
                0, 0, 0, 0, 8, 0, 4, 0, 0, 0, 0, 0, 8, 0, 5, 0, 0, 0, 0, 0, 8, 0, 6, 0, 0, 0, 0, 0,
                8, 0, 8, 0, 0, 0, 0, 0, 8, 0, 9, 0, 0, 0, 0, 0, 8, 0, 10, 0, 0, 0, 0, 0, 128, 0, 4,
                0, 12, 0, 1, 0, 0, 0, 0, 0, 0, 0, 0, 0, 12, 0, 2, 0, 0, 0, 0, 0, 0, 0, 0, 0, 12, 0,
                3, 0, 0, 0, 0, 0, 0, 0, 0, 0, 12, 0, 4, 0, 0, 0, 0, 0, 0, 0, 0, 0, 76, 0, 6, 0, 8, 0,
                1, 0, 0, 0, 0, 0, 8, 0, 2, 0, 0, 0, 0, 0, 8, 0, 3, 0, 0, 0, 0, 0, 8, 0, 4, 0, 0, 0,
                0, 0, 8, 0, 5, 0, 0, 0, 0, 0, 8, 0, 6, 0, 0, 0, 0, 0, 8, 0, 8, 0, 0, 0, 0, 0, 8, 0,
                9, 0, 0, 0, 0, 0, 8, 0, 10, 0, 0, 0, 0, 0, 128, 0, 5, 0, 12, 0, 1, 0, 0, 0, 0, 0, 0,
                0, 0, 0, 12, 0, 2, 0, 0, 0, 0, 0, 0, 0, 0, 0, 12, 0, 3, 0, 0, 0, 0, 0, 0, 0, 0, 0,
                12, 0, 4, 0, 0, 0, 0, 0, 0, 0, 0, 0, 76, 0, 6, 0, 8, 0, 1, 0, 0, 0, 0, 0, 8, 0, 2, 0,
                0, 0, 0, 0, 8, 0, 3, 0, 0, 0, 0, 0, 8, 0, 4, 0, 0, 0, 0, 0, 8, 0, 5, 0, 0, 0, 0, 0,
                8, 0, 6, 0, 0, 0, 0, 0, 8, 0, 8, 0, 0, 0, 0, 0, 8, 0, 9, 0, 0, 0, 0, 0, 8, 0, 10, 0,
                0, 0, 0, 0, 128, 0, 6, 0, 12, 0, 1, 0, 0, 0, 0, 0, 0, 0, 0, 0, 12, 0, 2, 0, 0, 0, 0,
                0, 0, 0, 0, 0, 12, 0, 3, 0, 0, 0, 0, 0, 0, 0, 0, 0, 12, 0, 4, 0, 0, 0, 0, 0, 0, 0, 0,
                0, 76, 0, 6, 0, 8, 0, 1, 0, 0, 0, 0, 0, 8, 0, 2, 0, 0, 0, 0, 0, 8, 0, 3, 0, 0, 0, 0,
                0, 8, 0, 4, 0, 0, 0, 0, 0, 8, 0, 5, 0, 0, 0, 0, 0, 8, 0, 6, 0, 0, 0, 0, 0, 8, 0, 8,
                0, 0, 0, 0, 0, 8, 0, 9, 0, 0, 0, 0, 0, 8, 0, 10, 0, 0, 0, 0, 0, 128, 0, 7, 0, 12, 0,
                1, 0, 0, 0, 0, 0, 0, 0, 0, 0, 12, 0, 2, 0, 180, 0, 0, 0, 0, 0, 0, 0, 12, 0, 3, 0, 0,
                0, 0, 0, 0, 0, 0, 0, 12, 0, 4, 0, 0, 0, 0, 0, 0, 0, 0, 0, 76, 0, 6, 0, 8, 0, 1, 0, 0,
                0, 0, 0, 8, 0, 2, 0, 0, 0, 0, 0, 8, 0, 3, 0, 180, 0, 0, 0, 8, 0, 4, 0, 0, 0, 0, 0, 8,
                0, 5, 0, 0, 0, 0, 0, 8, 0, 6, 0, 0, 0, 0, 0, 8, 0, 8, 0, 0, 0, 0, 0, 8, 0, 9, 0, 115,
                64, 0, 0, 8, 0, 10, 0, 180, 0, 0, 0, 128, 0, 8, 0, 12, 0, 1, 0, 0, 0, 0, 0, 0, 0, 0,
                0, 12, 0, 2, 0, 2, 0, 0, 0, 0, 0, 0, 0, 12, 0, 3, 0, 0, 0, 0, 0, 0, 0, 0, 0, 12, 0,
                4, 0, 0, 0, 0, 0, 0, 0, 0, 0, 76, 0, 6, 0, 8, 0, 1, 0, 0, 0, 0, 0, 8, 0, 2, 0, 0, 0,
                0, 0, 8, 0, 3, 0, 2, 0, 0, 0, 8, 0, 4, 0, 0, 0, 0, 0, 8, 0, 5, 0, 0, 0, 0, 0, 8, 0,
                6, 0, 0, 0, 0, 0, 8, 0, 8, 0, 0, 0, 0, 0, 8, 0, 9, 0, 32, 1, 0, 0, 8, 0, 10, 0, 2, 0,
                0, 0, 128, 0, 9, 0, 12, 0, 1, 0, 0, 0, 0, 0, 0, 0, 0, 0, 12, 0, 2, 0, 0, 0, 0, 0, 0,
                0, 0, 0, 12, 0, 3, 0, 0, 0, 0, 0, 0, 0, 0, 0, 12, 0, 4, 0, 0, 0, 0, 0, 0, 0, 0, 0,
                76, 0, 6, 0, 8, 0, 1, 0, 0, 0, 0, 0, 8, 0, 2, 0, 0, 0, 0, 0, 8, 0, 3, 0, 0, 0, 0, 0,
                8, 0, 4, 0, 0, 0, 0, 0, 8, 0, 5, 0, 0, 0, 0, 0, 8, 0, 6, 0, 0, 0, 0, 0, 8, 0, 8, 0,
                0, 0, 0, 0, 8, 0, 9, 0, 0, 0, 0, 0, 8, 0, 10, 0, 0, 0, 0, 0, 128, 0, 10, 0, 12, 0, 1,
                0, 0, 0, 0, 0, 0, 0, 0, 0, 12, 0, 2, 0, 0, 0, 0, 0, 0, 0, 0, 0, 12, 0, 3, 0, 0, 0, 0,
                0, 0, 0, 0, 0, 12, 0, 4, 0, 0, 0, 0, 0, 0, 0, 0, 0, 76, 0, 6, 0, 8, 0, 1, 0, 0, 0, 0,
                0, 8, 0, 2, 0, 0, 0, 0, 0, 8, 0, 3, 0, 0, 0, 0, 0, 8, 0, 4, 0, 0, 0, 0, 0, 8, 0, 5,
                0, 0, 0, 0, 0, 8, 0, 6, 0, 0, 0, 0, 0, 8, 0, 8, 0, 0, 0, 0, 0, 8, 0, 9, 0, 0, 0, 0,
                0, 8, 0, 10, 0, 0, 0, 0, 0, 128, 0, 11, 0, 12, 0, 1, 0, 0, 0, 0, 0, 0, 0, 0, 0, 12,
                0, 2, 0, 0, 0, 0, 0, 0, 0, 0, 0, 12, 0, 3, 0, 0, 0, 0, 0, 0, 0, 0, 0, 12, 0, 4, 0, 0,
                0, 0, 0, 0, 0, 0, 0, 76, 0, 6, 0, 8, 0, 1, 0, 0, 0, 0, 0, 8, 0, 2, 0, 0, 0, 0, 0, 8,
                0, 3, 0, 0, 0, 0, 0, 8, 0, 4, 0, 0, 0, 0, 0, 8, 0, 5, 0, 0, 0, 0, 0, 8, 0, 6, 0, 0,
                0, 0, 0, 8, 0, 8, 0, 0, 0, 0, 0, 8, 0, 9, 0, 0, 0, 0, 0, 8, 0, 10, 0, 0, 0, 0, 0,
                128, 0, 12, 0, 12, 0, 1, 0, 0, 0, 0, 0, 0, 0, 0, 0, 12, 0, 2, 0, 0, 0, 0, 0, 0, 0, 0,
                0, 12, 0, 3, 0, 0, 0, 0, 0, 0, 0, 0, 0, 12, 0, 4, 0, 0, 0, 0, 0, 0, 0, 0, 0, 76, 0,
                6, 0, 8, 0, 1, 0, 0, 0, 0, 0, 8, 0, 2, 0, 0, 0, 0, 0, 8, 0, 3, 0, 0, 0, 0, 0, 8, 0,
                4, 0, 0, 0, 0, 0, 8, 0, 5, 0, 0, 0, 0, 0, 8, 0, 6, 0, 0, 0, 0, 0, 8, 0, 8, 0, 0, 0,
                0, 0, 8, 0, 9, 0, 0, 0, 0, 0, 8, 0, 10, 0, 0, 0, 0, 0, 128, 0, 13, 0, 12, 0, 1, 0, 0,
                0, 0, 0, 0, 0, 0, 0, 12, 0, 2, 0, 0, 0, 0, 0, 0, 0, 0, 0, 12, 0, 3, 0, 0, 0, 0, 0, 0,
                0, 0, 0, 12, 0, 4, 0, 0, 0, 0, 0, 0, 0, 0, 0, 76, 0, 6, 0, 8, 0, 1, 0, 0, 0, 0, 0, 8,
                0, 2, 0, 0, 0, 0, 0, 8, 0, 3, 0, 0, 0, 0, 0, 8, 0, 4, 0, 0, 0, 0, 0, 8, 0, 5, 0, 0,
                0, 0, 0, 8, 0, 6, 0, 0, 0, 0, 0, 8, 0, 8, 0, 0, 0, 0, 0, 8, 0, 9, 0, 0, 0, 0, 0, 8,
                0, 10, 0, 0, 0, 0, 0, 128, 0, 14, 0, 12, 0, 1, 0, 0, 0, 0, 0, 0, 0, 0, 0, 12, 0, 2,
                0, 0, 0, 0, 0, 0, 0, 0, 0, 12, 0, 3, 0, 0, 0, 0, 0, 0, 0, 0, 0, 12, 0, 4, 0, 0, 0, 0,
                0, 0, 0, 0, 0, 76, 0, 6, 0, 8, 0, 1, 0, 0, 0, 0, 0, 8, 0, 2, 0, 0, 0, 0, 0, 8, 0, 3,
                0, 0, 0, 0, 0, 8, 0, 4, 0, 0, 0, 0, 0, 8, 0, 5, 0, 0, 0, 0, 0, 8, 0, 6, 0, 0, 0, 0,
                0, 8, 0, 8, 0, 0, 0, 0, 0, 8, 0, 9, 0, 0, 0, 0, 0, 8, 0, 10, 0, 0, 0, 0, 0, 128, 0,
                15, 0, 12, 0, 1, 0, 0, 0, 0, 0, 0, 0, 0, 0, 12, 0, 2, 0, 0, 0, 0, 0, 0, 0, 0, 0, 12,
                0, 3, 0, 0, 0, 0, 0, 0, 0, 0, 0, 12, 0, 4, 0, 0, 0, 0, 0, 0, 0, 0, 0, 76, 0, 6, 0, 8,
                0, 1, 0, 0, 0, 0, 0, 8, 0, 2, 0, 0, 0, 0, 0, 8, 0, 3, 0, 0, 0, 0, 0, 8, 0, 4, 0, 0,
                0, 0, 0, 8, 0, 5, 0, 0, 0, 0, 0, 8, 0, 6, 0, 0, 0, 0, 0, 8, 0, 8, 0, 0, 0, 0, 0, 8,
                0, 9, 0, 0, 0, 0, 0, 8, 0, 10, 0, 0, 0, 0, 0, 128, 0, 16, 0, 12, 0, 1, 0, 0, 0, 0, 0,
                0, 0, 0, 0, 12, 0, 2, 0, 0, 0, 0, 0, 0, 0, 0, 0, 12, 0, 3, 0, 0, 0, 0, 0, 0, 0, 0, 0,
                12, 0, 4, 0, 0, 0, 0, 0, 0, 0, 0, 0, 76, 0, 6, 0, 8, 0, 1, 0, 0, 0, 0, 0, 8, 0, 2, 0,
                0, 0, 0, 0, 8, 0, 3, 0, 0, 0, 0, 0, 8, 0, 4, 0, 0, 0, 0, 0, 8, 0, 5, 0, 0, 0, 0, 0,
                8, 0, 6, 0, 0, 0, 0, 0, 8, 0, 8, 0, 0, 0, 0, 0, 8, 0, 9, 0, 0, 0, 0, 0, 8, 0, 10, 0,
                0, 0, 0, 0, 52, 0, 17, 0, 12, 0, 1, 0, 109, 25, 0, 0, 0, 0, 0, 0, 12, 0, 2, 0, 4, 0,
                0, 0, 0, 0, 0, 0, 12, 0, 3, 0, 0, 0, 0, 0, 0, 0, 0, 0, 12, 0, 4, 0, 0, 0, 0, 0, 0, 0,
                0, 0,
            ],
        ),
    ]);

    let station = Station::try_from(&handler[..]).unwrap();
    assert_eq!(station.average_signal, Some((-41).into()));
    assert_eq!(station.beacon_loss, Some(0.into()));
    assert_eq!(station.bssid, Some([46, 46, 46, 46, 46, 46].into()));
    assert_eq!(station.connected_time, Some(6929.into()));
    assert_eq!(station.rx_bitrate, Some(4.into()));
    assert_eq!(station.rx_packets, Some(491746.into()));
    assert_eq!(station.signal, Some((-38).into()));
    assert_eq!(station.tx_bitrate, Some(13.into()));
    assert_eq!(station.tx_failed, Some(47.into()));
    assert_eq!(station.tx_packets, Some(174601.into()));
    assert_eq!(station.tx_retries, Some(33307.into()));
}
