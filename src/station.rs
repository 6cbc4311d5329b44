use crate::attr::{tlv_attrs, AttrHandle, AttrModel};
use crate::consts::{Nl80211Attr, Nl80211RateInfo, Nl80211StaInfo};
use crate::error::Nl80211Error;
use crate::nl80211traits::{
    decoded_field, lemma_decoded_field_absent, lemma_decoded_field_step, lemma_nested_absent,
    lemma_nested_append, lemma_nested_prefix_fails,
    lemma_nested_split, lemma_nested_step, nested, opt_view, NlPayloadDecode,
};
use crate::text::{add_line, join_lines, line_of, minutes_string, minutes_text, LineJoiner};
use crate::types::{
    AverageSignal, BeaconLoss, Bssid, ConnectedTime, RxBitRate, RxPackets, Signal, TxBitRate,
    TxFailed, TxPackets, TxRetries,
};
use vstd::prelude::*;

verus! {

/// A remote station (the access point an interface is associated with).
#[derive(Debug, Clone, Copy, PartialEq, Eq)]
pub struct Station {
    pub average_signal: Option<AverageSignal>,
    pub beacon_loss: Option<BeaconLoss>,
    pub bssid: Option<Bssid>,
    pub connected_time: Option<ConnectedTime>,
    pub rx_bitrate: Option<RxBitRate>,
    pub rx_packets: Option<RxPackets>,
    pub signal: Option<Signal>,
    pub tx_bitrate: Option<TxBitRate>,
    pub tx_failed: Option<TxFailed>,
    pub tx_packets: Option<TxPackets>,
    pub tx_retries: Option<TxRetries>,
}

/// The wire tag of a station-info sub-attribute.
pub open spec fn sta_tag(a: Nl80211StaInfo) -> u16 {
    a.spec_to_u16()
}

/// The rate-info tag whose one-byte payload the bitrate fields are read from.
pub open spec fn rate_tag() -> u16 {
    Nl80211RateInfo::RateInfoMcs.spec_to_u16()
}

/// The levels a station reply nests: the station-info sub-attributes, and the
/// sub-attributes of the rx and of the tx bitrate attributes among them; `None`
/// when one of those payloads does not split into attributes.
pub open spec fn station_levels(attrs: Seq<AttrModel>) -> Option<
    (Seq<AttrModel>, Seq<AttrModel>, Seq<AttrModel>),
> {
    match nested(attrs, Nl80211Attr::AttrStaInfo.spec_to_u16()) {
        Some(info) => match (
            nested(info, sta_tag(Nl80211StaInfo::StaInfoRxBitrate)),
            nested(info, sta_tag(Nl80211StaInfo::StaInfoTxBitrate)),
        ) {
            (Some(rx), Some(tx)) => Some((info, rx, tx)),
            _ => None,
        },
        None => None,
    }
}

/// The fields read from the station-info level and from the bitrate levels.
pub open spec fn info_matches(
    r: Station,
    info: Seq<AttrModel>,
    rx: Seq<AttrModel>,
    tx: Seq<AttrModel>,
) -> bool {
    &&& opt_view(r.signal) == decoded_field::<Signal>(info, sta_tag(Nl80211StaInfo::StaInfoSignal))
    &&& opt_view(r.average_signal) == decoded_field::<AverageSignal>(
        info,
        sta_tag(Nl80211StaInfo::StaInfoSignalAvg),
    )
    &&& opt_view(r.beacon_loss) == decoded_field::<BeaconLoss>(
        info,
        sta_tag(Nl80211StaInfo::StaInfoBeaconLoss),
    )
    &&& opt_view(r.connected_time) == decoded_field::<ConnectedTime>(
        info,
        sta_tag(Nl80211StaInfo::StaInfoConnectedTime),
    )
    &&& opt_view(r.rx_packets) == decoded_field::<RxPackets>(
        info,
        sta_tag(Nl80211StaInfo::StaInfoRxPackets),
    )
    &&& opt_view(r.tx_packets) == decoded_field::<TxPackets>(
        info,
        sta_tag(Nl80211StaInfo::StaInfoTxPackets),
    )
    &&& opt_view(r.tx_retries) == decoded_field::<TxRetries>(
        info,
        sta_tag(Nl80211StaInfo::StaInfoTxRetries),
    )
    &&& opt_view(r.tx_failed) == decoded_field::<TxFailed>(
        info,
        sta_tag(Nl80211StaInfo::StaInfoTxFailed),
    )
    &&& opt_view(r.rx_bitrate) == decoded_field::<RxBitRate>(rx, rate_tag())
    &&& opt_view(r.tx_bitrate) == decoded_field::<TxBitRate>(tx, rate_tag())
}

/// `r` is what a station reply with top level `attrs` and the given nested
/// levels describes; the last well-formed value of each field wins.
pub open spec fn station_matches(
    r: Station,
    attrs: Seq<AttrModel>,
    info: Seq<AttrModel>,
    rx: Seq<AttrModel>,
    tx: Seq<AttrModel>,
) -> bool {
    &&& opt_view(r.bssid) == decoded_field::<Bssid>(attrs, Nl80211Attr::AttrMac.spec_to_u16())
    &&& info_matches(r, info, rx, tx)
}

/// Every field is absent.
pub open spec fn station_is_empty(r: Station) -> bool {
    &&& r.average_signal is None
    &&& r.beacon_loss is None
    &&& r.bssid is None
    &&& r.connected_time is None
    &&& r.rx_bitrate is None
    &&& r.rx_packets is None
    &&& r.signal is None
    &&& r.tx_bitrate is None
    &&& r.tx_failed is None
    &&& r.tx_packets is None
    &&& r.tx_retries is None
}

/// Reads the bitrate byte from one bitrate level, on top of `cur`.
fn apply_rate<T: NlPayloadDecode>(
    cur: Option<T>,
    sub: &AttrHandle,
    before: Ghost<Seq<AttrModel>>,
) -> (r: Option<T>)
    requires
        opt_view(cur) == decoded_field::<T>(before@, rate_tag()),
    ensures
        opt_view(r) == decoded_field::<T>(before@ + sub@, rate_tag()),
{
    let mut out = cur;
    let m = sub.len();
    let mut j: usize = 0;
    assert(before@ + sub@.subrange(0, 0) =~= before@);
    while j < m
        invariant
            j <= m,
            m == sub@.len(),
            opt_view(out) == decoded_field::<T>(before@ + sub@.subrange(0, j as int), rate_tag()),
        decreases m - j,
    {
        let a = sub.get(j);
        let ghost all = before@ + sub@;
        let ghost k = before@.len() + j;
        proof {
            assert(all.subrange(0, k) =~= before@ + sub@.subrange(0, j as int));
            assert(all.subrange(0, k + 1) =~= before@ + sub@.subrange(0, j + 1));
            assert(all[k] == sub@[j as int]);
            Nl80211RateInfo::lemma_round_trip(a.nla_type);
            lemma_decoded_field_step::<T>(all, k, rate_tag());
        }
        if let Nl80211RateInfo::RateInfoMcs = Nl80211RateInfo::from_u16(a.nla_type) {
            if let Ok(v) = T::decode(a.payload) {
                out = Some(v);
            }
        }
        j = j + 1;
    }
    assert(sub@.subrange(0, m as int) =~= sub@);
    out
}

/// The report lines of a station, one per present field; connected time is
/// given in minutes.
pub open spec fn station_lines(r: Station) -> Seq<Seq<char>> {
    let l = Seq::<Seq<char>>::empty();
    let l = add_line(
        l,
        match r.bssid {
            Some(x) => Some("bssid : "@ + x.spec_value_text() + ""@),
            None => None,
        },
    );
    let l = add_line(
        l,
        match r.connected_time {
            Some(x) => Some("connected time : "@ + minutes_text(x.0 as nat) + " minutes"@),
            None => None,
        },
    );
    let l = add_line(
        l,
        match r.beacon_loss {
            Some(x) => Some("beacon loss : "@ + x.spec_value_text() + ""@),
            None => None,
        },
    );
    let l = add_line(
        l,
        match r.signal {
            Some(x) => Some("signal : "@ + x.spec_value_text() + " dBm"@),
            None => None,
        },
    );
    let l = add_line(
        l,
        match r.average_signal {
            Some(x) => Some("average signal : "@ + x.spec_value_text() + " dBm"@),
            None => None,
        },
    );
    let l = add_line(
        l,
        match r.rx_packets {
            Some(x) => Some("rx packets : "@ + x.spec_value_text() + ""@),
            None => None,
        },
    );
    let l = add_line(
        l,
        match r.tx_packets {
            Some(x) => Some("tx packets : "@ + x.spec_value_text() + ""@),
            None => None,
        },
    );
    let l = add_line(
        l,
        match r.rx_bitrate {
            Some(x) => Some("rx bitrate : "@ + x.spec_value_text() + " Mb/s"@),
            None => None,
        },
    );
    let l = add_line(
        l,
        match r.tx_bitrate {
            Some(x) => Some("tx bitrate : "@ + x.spec_value_text() + " Mb/s"@),
            None => None,
        },
    );
    let l = add_line(
        l,
        match r.tx_retries {
            Some(x) => Some("tx retries : "@ + x.spec_value_text() + ""@),
            None => None,
        },
    );
    add_line(
        l,
        match r.tx_failed {
            Some(x) => Some("tx failed : "@ + x.spec_value_text() + ""@),
            None => None,
        },
    )
}

/// A station reply whose attributes all carry tags outside the catalogue
/// decodes, without error, to a station with every field absent.
pub proof fn lemma_unknown_tags_station(attrs: Seq<AttrModel>, r: Station)
    requires
        forall|i: int|
            0 <= i < attrs.len() ==> Nl80211Attr::spec_from_u16(
                #[trigger] attrs[i].0,
            ) is UnrecognizedVariant,
        station_matches(r, attrs, Seq::empty(), Seq::empty(), Seq::empty()),
    ensures
        station_levels(attrs) == Some(
            (Seq::<AttrModel>::empty(), Seq::<AttrModel>::empty(), Seq::<AttrModel>::empty()),
        ),
        station_is_empty(r),
{
    let e = Seq::<AttrModel>::empty();
    lemma_nested_absent(attrs, 21);
    lemma_nested_absent(e, 14);
    lemma_nested_absent(e, 8);
    lemma_decoded_field_absent::<Bssid>(attrs, 6);
    lemma_decoded_field_absent::<Signal>(e, 7);
    lemma_decoded_field_absent::<AverageSignal>(e, 13);
    lemma_decoded_field_absent::<BeaconLoss>(e, 18);
    lemma_decoded_field_absent::<ConnectedTime>(e, 16);
    lemma_decoded_field_absent::<RxPackets>(e, 9);
    lemma_decoded_field_absent::<TxPackets>(e, 10);
    lemma_decoded_field_absent::<TxRetries>(e, 11);
    lemma_decoded_field_absent::<TxFailed>(e, 12);
    lemma_decoded_field_absent::<RxBitRate>(e, 2);
    lemma_decoded_field_absent::<TxBitRate>(e, 2);
}

impl Station {
    /// The average signal, when the reply carried it.
    pub fn average_signal(&self) -> (r: &Option<AverageSignal>)
        ensures
            *r == self.average_signal,
    {
        &self.average_signal
    }

    /// The beacon loss, when the reply carried it.
    pub fn beacon_loss(&self) -> (r: &Option<BeaconLoss>)
        ensures
            *r == self.beacon_loss,
    {
        &self.beacon_loss
    }

    /// The bssid, when the reply carried it.
    pub fn bssid(&self) -> (r: &Option<Bssid>)
        ensures
            *r == self.bssid,
    {
        &self.bssid
    }

    /// The connected time, when the reply carried it.
    pub fn connected_time(&self) -> (r: &Option<ConnectedTime>)
        ensures
            *r == self.connected_time,
    {
        &self.connected_time
    }

    /// The rx bitrate, when the reply carried it.
    pub fn rx_bitrate(&self) -> (r: &Option<RxBitRate>)
        ensures
            *r == self.rx_bitrate,
    {
        &self.rx_bitrate
    }

    /// The rx packets, when the reply carried it.
    pub fn rx_packets(&self) -> (r: &Option<RxPackets>)
        ensures
            *r == self.rx_packets,
    {
        &self.rx_packets
    }

    /// The signal, when the reply carried it.
    pub fn signal(&self) -> (r: &Option<Signal>)
        ensures
            *r == self.signal,
    {
        &self.signal
    }

    /// The tx bitrate, when the reply carried it.
    pub fn tx_bitrate(&self) -> (r: &Option<TxBitRate>)
        ensures
            *r == self.tx_bitrate,
    {
        &self.tx_bitrate
    }

    /// The tx failed, when the reply carried it.
    pub fn tx_failed(&self) -> (r: &Option<TxFailed>)
        ensures
            *r == self.tx_failed,
    {
        &self.tx_failed
    }

    /// The tx packets, when the reply carried it.
    pub fn tx_packets(&self) -> (r: &Option<TxPackets>)
        ensures
            *r == self.tx_packets,
    {
        &self.tx_packets
    }

    /// The tx retries, when the reply carried it.
    pub fn tx_retries(&self) -> (r: &Option<TxRetries>)
        ensures
            *r == self.tx_retries,
    {
        &self.tx_retries
    }

    /// The report: one "field : value" line per present field, in the order
    /// bssid, connected time, beacon loss, signal, average signal, packets,
    /// bitrates, retries, failures.
    pub fn to_string(&self) -> (r: String)
        ensures
            r@ == join_lines(station_lines(*self)),
    {
        let mut j = LineJoiner::new();
        j.add(
            line_of(
                "bssid : ",
                match &self.bssid {
                    Some(x) => Some(x.value_text()),
                    None => None,
                },
                "",
            ),
        );
        j.add(
            line_of(
                "connected time : ",
                match &self.connected_time {
                    Some(x) => Some(minutes_string(x.0)),
                    None => None,
                },
                " minutes",
            ),
        );
        j.add(
            line_of(
                "beacon loss : ",
                match &self.beacon_loss {
                    Some(x) => Some(x.value_text()),
                    None => None,
                },
                "",
            ),
        );
        j.add(
            line_of(
                "signal : ",
                match &self.signal {
                    Some(x) => Some(x.value_text()),
                    None => None,
                },
                " dBm",
            ),
        );
        j.add(
            line_of(
                "average signal : ",
                match &self.average_signal {
                    Some(x) => Some(x.value_text()),
                    None => None,
                },
                " dBm",
            ),
        );
        j.add(
            line_of(
                "rx packets : ",
                match &self.rx_packets {
                    Some(x) => Some(x.value_text()),
                    None => None,
                },
                "",
            ),
        );
        j.add(
            line_of(
                "tx packets : ",
                match &self.tx_packets {
                    Some(x) => Some(x.value_text()),
                    None => None,
                },
                "",
            ),
        );
        j.add(
            line_of(
                "rx bitrate : ",
                match &self.rx_bitrate {
                    Some(x) => Some(x.value_text()),
                    None => None,
                },
                " Mb/s",
            ),
        );
        j.add(
            line_of(
                "tx bitrate : ",
                match &self.tx_bitrate {
                    Some(x) => Some(x.value_text()),
                    None => None,
                },
                " Mb/s",
            ),
        );
        j.add(
            line_of(
                "tx retries : ",
                match &self.tx_retries {
                    Some(x) => Some(x.value_text()),
                    None => None,
                },
                "",
            ),
        );
        j.add(
            line_of(
                "tx failed : ",
                match &self.tx_failed {
                    Some(x) => Some(x.value_text()),
                    None => None,
                },
                "",
            ),
        );
        j.finish()
    }

    /// A station with every field absent.
    pub fn new() -> (r: Station)
        ensures
            station_is_empty(r),
    {
        Station {
            average_signal: None,
            beacon_loss: None,
            bssid: None,
            connected_time: None,
            rx_bitrate: None,
            rx_packets: None,
            signal: None,
            tx_bitrate: None,
            tx_failed: None,
            tx_packets: None,
            tx_retries: None,
        }
    }

    /// Applies one station-info level on top of `self`, descending into its
    /// bitrate attributes.
    fn apply_info(
        &mut self,
        sub: &AttrHandle,
        info: Ghost<Seq<AttrModel>>,
        rx: Ghost<Seq<AttrModel>>,
        tx: Ghost<Seq<AttrModel>>,
    ) -> (r: Result<(), Nl80211Error>)
        requires
            nested(info@, 14) == Some(rx@),
            nested(info@, 8) == Some(tx@),
            info_matches(*old(self), info@, rx@, tx@),
        ensures
            final(self).bssid == old(self).bssid,
            match (nested(info@ + sub@, 14), nested(info@ + sub@, 8)) {
                (Some(rx2), Some(tx2)) => r is Ok && info_matches(
                    *final(self),
                    info@ + sub@,
                    rx2,
                    tx2,
                ),
                _ => r == Err::<(), Nl80211Error>(Nl80211Error::TruncatedFrame),
            },
    {
        let m = sub.len();
        let mut j: usize = 0;
        let ghost mut rx_now = rx@;
        let ghost mut tx_now = tx@;
        let ghost all = info@ + sub@;
        assert(all.subrange(0, info@.len() as int) =~= info@);
        while j < m
            invariant
                j <= m,
                m == sub@.len(),
                all == info@ + sub@,
                nested(all.subrange(0, info@.len() + j), 14) == Some(rx_now),
                nested(all.subrange(0, info@.len() + j), 8) == Some(tx_now),
                info_matches(*self, all.subrange(0, info@.len() + j), rx_now, tx_now),
                self.bssid == old(self).bssid,
            decreases m - j,
        {
            let a = sub.get(j);
            let t = a.nla_type;
            let ghost k = info@.len() + j;
            proof {
                assert(all[k] == sub@[j as int]);
                Nl80211StaInfo::lemma_round_trip(t);
                lemma_nested_step(all, k, 14);
                lemma_nested_step(all, k, 8);
                lemma_decoded_field_step::<Signal>(all, k, 7);
                lemma_decoded_field_step::<AverageSignal>(all, k, 13);
                lemma_decoded_field_step::<BeaconLoss>(all, k, 18);
                lemma_decoded_field_step::<ConnectedTime>(all, k, 16);
                lemma_decoded_field_step::<RxPackets>(all, k, 9);
                lemma_decoded_field_step::<TxPackets>(all, k, 10);
                lemma_decoded_field_step::<TxRetries>(all, k, 11);
                lemma_decoded_field_step::<TxFailed>(all, k, 12);
            }
            match Nl80211StaInfo::from_u16(t) {
                Nl80211StaInfo::StaInfoSignal => {
                    if let Ok(v) = Signal::decode(a.payload) {
                        self.signal = Some(v);
                    }
                },
                Nl80211StaInfo::StaInfoSignalAvg => {
                    if let Ok(v) = AverageSignal::decode(a.payload) {
                        self.average_signal = Some(v);
                    }
                },
                Nl80211StaInfo::StaInfoBeaconLoss => {
                    if let Ok(v) = BeaconLoss::decode(a.payload) {
                        self.beacon_loss = Some(v);
                    }
                },
                Nl80211StaInfo::StaInfoConnectedTime => {
                    if let Ok(v) = ConnectedTime::decode(a.payload) {
                        self.connected_time = Some(v);
                    }
                },
                Nl80211StaInfo::StaInfoRxPackets => {
                    if let Ok(v) = RxPackets::decode(a.payload) {
                        self.rx_packets = Some(v);
                    }
                },
                Nl80211StaInfo::StaInfoTxPackets => {
                    if let Ok(v) = TxPackets::decode(a.payload) {
                        self.tx_packets = Some(v);
                    }
                },
                Nl80211StaInfo::StaInfoTxRetries => {
                    if let Ok(v) = TxRetries::decode(a.payload) {
                        self.tx_retries = Some(v);
                    }
                },
                Nl80211StaInfo::StaInfoTxFailed => {
                    if let Ok(v) = TxFailed::decode(a.payload) {
                        self.tx_failed = Some(v);
                    }
                },
                Nl80211StaInfo::StaInfoRxBitrate => {
                    match a.get_nested_attributes() {
                        Ok(h) => {
                            self.rx_bitrate = apply_rate(self.rx_bitrate, &h, Ghost(rx_now));
                            proof {
                                rx_now = rx_now + h@;
                            }
                        },
                        Err(e) => {
                            proof {
                                lemma_nested_prefix_fails(all, k + 1, 14);
                            }
                            return Err(e);
                        },
                    }
                },
                Nl80211StaInfo::StaInfoTxBitrate => {
                    match a.get_nested_attributes() {
                        Ok(h) => {
                            self.tx_bitrate = apply_rate(self.tx_bitrate, &h, Ghost(tx_now));
                            proof {
                                tx_now = tx_now + h@;
                            }
                        },
                        Err(e) => {
                            proof {
                                lemma_nested_prefix_fails(all, k + 1, 8);
                            }
                            return Err(e);
                        },
                    }
                },
                _ => {},
            }
            j = j + 1;
        }
        assert(all.subrange(0, info@.len() + m) =~= all);
        Ok(())
    }

    /// Maps a station reply's top level to a station. The station-info
    /// attribute is descended into, and within it the rx and tx bitrate
    /// attributes, whose rate byte is read; unknown tags and payloads of the
    /// wrong length are skipped, and the last well-formed value of a field
    /// wins. Fails with `TruncatedFrame` exactly when one of the nested
    /// payloads does not split into attributes.
    pub fn from_handle(handle: &AttrHandle) -> (r: Result<Station, Nl80211Error>)
        ensures
            match station_levels(handle@) {
                Some((info, rx, tx)) => r matches Ok(s) && station_matches(
                    s,
                    handle@,
                    info,
                    rx,
                    tx,
                ),
                None => r == Err::<Station, Nl80211Error>(Nl80211Error::TruncatedFrame),
            },
    {
        let mut st = Station::new();
        let n = handle.len();
        let mut i: usize = 0;
        let ghost mut info: Seq<AttrModel> = Seq::empty();
        let ghost mut rx: Seq<AttrModel> = Seq::empty();
        let ghost mut tx: Seq<AttrModel> = Seq::empty();
        assert(handle@.subrange(0, 0) =~= Seq::<AttrModel>::empty());
        while i < n
            invariant
                i <= n,
                n == handle@.len(),
                nested(handle@.subrange(0, i as int), 21) == Some(info),
                nested(info, 14) == Some(rx),
                nested(info, 8) == Some(tx),
                station_matches(st, handle@.subrange(0, i as int), info, rx, tx),
            decreases n - i,
        {
            let attr = handle.get(i);
            let t = attr.nla_type;
            proof {
                lemma_nested_step(handle@, i as int, 21);
                lemma_decoded_field_step::<Bssid>(handle@, i as int, 6);
                Nl80211Attr::lemma_round_trip(t);
            }
            match Nl80211Attr::from_u16(t) {
                Nl80211Attr::AttrMac => {
                    if let Ok(v) = Bssid::decode(attr.payload) {
                        st.bssid = Some(v);
                    }
                },
                Nl80211Attr::AttrStaInfo => {
                    match attr.get_nested_attributes() {
                        Ok(h) => {
                            let applied = st.apply_info(&h, Ghost(info), Ghost(rx), Ghost(tx));
                            proof {
                                lemma_nested_split(handle@, i + 1, 21);
                                lemma_nested_append(
                                    info + h@,
                                    nested(
                                        handle@.subrange(i + 1, n as int),
                                        21,
                                    ).unwrap_or(Seq::empty()),
                                    14,
                                );
                                lemma_nested_append(
                                    info + h@,
                                    nested(
                                        handle@.subrange(i + 1, n as int),
                                        21,
                                    ).unwrap_or(Seq::empty()),
                                    8,
                                );
                            }
                            if applied.is_err() {
                                return Err(Nl80211Error::TruncatedFrame);
                            }
                            proof {
                                info = info + h@;
                                rx = nested(info, 14).unwrap();
                                tx = nested(info, 8).unwrap();
                            }
                        },
                        Err(e) => {
                            proof {
                                lemma_nested_prefix_fails(handle@, i + 1, 21);
                            }
                            return Err(e);
                        },
                    }
                },
                _ => {},
            }
            i = i + 1;
        }
        assert(handle@.subrange(0, n as int) =~= handle@);
        Ok(st)
    }

    /// Decodes the attribute buffer of a station reply; fails with
    /// `TruncatedFrame` when the buffer, or a nested level in it, does not
    /// split into attributes.
    pub fn try_from(buf: &[u8]) -> (r: Result<Station, Nl80211Error>)
        ensures
            match tlv_attrs(buf@) {
                Some(a) => match station_levels(a) {
                    Some((info, rx, tx)) => r matches Ok(s) && station_matches(s, a, info, rx, tx),
                    None => r == Err::<Station, Nl80211Error>(Nl80211Error::TruncatedFrame),
                },
                None => r == Err::<Station, Nl80211Error>(Nl80211Error::TruncatedFrame),
            },
    {
        match AttrHandle::parse(buf) {
            Ok(h) => Station::from_handle(&h),
            Err(e) => Err(e),
        }
    }
}

impl Default for Station {
    fn default() -> (r: Station)
        ensures
            station_is_empty(r),
    {
        Station::new()
    }
}

} // verus!
