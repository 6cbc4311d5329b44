use crate::error::Nl80211Error;
use crate::nl80211traits::NlPayloadDecode;
use crate::parse_attr::{
    colon_hex, colon_hex_text, decode_i32, decode_i8, decode_mac, decode_u16, decode_u32,
    decode_u64, decode_u8, le_signed, le_value, length_mismatch, parse_string_slice, utf8_lossy,
};
use crate::text::{
    labeled,
    decimal_text, dec, ghz_string, ghz_text, mbm_string, mbm_text, signed_dec, signed_text,
};
use vstd::prelude::*;

verus! {

/// Text of a duration of `secs` seconds, as the humantime crate writes it
/// ("1h 31m 34s").
pub uninterp spec fn duration_text(secs: nat) -> Seq<char>;

/// Relies on `humantime::format_duration` and its `Display`: the text depends
/// on the number of seconds alone.
#[verifier::external_body]
fn format_seconds(secs: u64) -> (r: String)
    ensures
        r@ == duration_text(secs as nat),
{
    humantime::format_duration(std::time::Duration::from_secs(secs)).to_string()
}

/// A signal in mBm, written in dBm with one decimal place ("-53.0").
pub fn signal(input: i32) -> (r: String)
    ensures
        r@ == mbm_text(input as int),
{
    mbm_string(input)
}

/// A power level in mBm, as whole dBm.
pub fn power(input: u32) -> (r: u64)
    ensures
        r == input / 100,
{
    (input / 100) as u64
}

/// A bitrate index, as Mb/s.
pub fn bitrate(input: u8) -> (r: u64)
    ensures
        r == input * 10,
{
    input as u64 * 10
}

/// A hardware address as colon-separated upper-case hexadecimal pairs.
pub fn mac_adress(input: [u8; 6]) -> (r: String)
    ensures
        r@ == colon_hex(input@),
{
    colon_hex_text(input.as_slice())
}

/// A frequency in MHz, written in GHz ("2.412").
pub fn frequency(input: u32) -> (r: String)
    ensures
        r@ == ghz_text(input as nat),
{
    ghz_string(input)
}

/// A duration in seconds, written as the humantime crate does ("1h 31m 34s").
pub fn humantime(input: u32) -> (r: String)
    ensures
        r@ == duration_text(input as nat),
{
    format_seconds(input as u64)
}

/// Average signal strength of the station, in dBm.
#[derive(Debug, Clone, Copy, PartialEq, Eq, Structural)]
pub struct AverageSignal(pub i8);

impl View for AverageSignal {
    type V = i8;

    open spec fn view(&self) -> i8 {
        self.0
    }
}

impl From<i8> for AverageSignal {
    fn from(v: i8) -> AverageSignal {
        AverageSignal(v)
    }
}

impl vstd::std_specs::convert::FromSpecImpl<i8> for AverageSignal {
    open spec fn obeys_from_spec() -> bool {
        true
    }

    open spec fn from_spec(v: i8) -> AverageSignal {
        AverageSignal(v)
    }
}

impl NlPayloadDecode for AverageSignal {
    open spec fn payload_width() -> Option<nat> {
        Some(1)
    }

    open spec fn spec_decode(payload: Seq<u8>) -> Result<i8, Nl80211Error> {
        if payload.len() == 1 {
            Ok(le_signed(payload) as i8)
        } else {
            Err(length_mismatch(1, payload.len()))
        }
    }

    fn decode(payload: &[u8]) -> (r: Result<AverageSignal, Nl80211Error>) {
        match decode_i8(payload) {
            Ok(v) => Ok(AverageSignal(v)),
            Err(e) => Err(e),
        }
    }
}

impl AverageSignal {
    /// The wrapped value.
    pub fn inner(&self) -> (r: i8)
        ensures
            r == self.0,
    {
        self.0
    }

    /// The value as it is displayed, without label or unit.
    pub open spec fn spec_value_text(self) -> Seq<char> {
        signed_dec(self.0 as int)
    }

    /// Writes the value as it is displayed, without label or unit.
    pub fn value_text(&self) -> (r: String)
        ensures
            r@ == self.spec_value_text(),
    {
        signed_text(self.0 as i64)
    }

    /// Writes the value with its label and unit ("average signal: ... dBm").
    pub fn to_string(&self) -> (r: String)
        ensures
            r@ == "average signal: "@ + self.spec_value_text() + " dBm"@,
    {
        let v = self.value_text();
        labeled("average signal: ", v.as_str(), " dBm")
    }
}

/// How many times a beacon loss was detected.
#[derive(Debug, Clone, Copy, PartialEq, Eq, Structural)]
pub struct BeaconLoss(pub u32);

impl View for BeaconLoss {
    type V = u32;

    open spec fn view(&self) -> u32 {
        self.0
    }
}

impl From<u32> for BeaconLoss {
    fn from(v: u32) -> BeaconLoss {
        BeaconLoss(v)
    }
}

impl vstd::std_specs::convert::FromSpecImpl<u32> for BeaconLoss {
    open spec fn obeys_from_spec() -> bool {
        true
    }

    open spec fn from_spec(v: u32) -> BeaconLoss {
        BeaconLoss(v)
    }
}

impl NlPayloadDecode for BeaconLoss {
    open spec fn payload_width() -> Option<nat> {
        Some(4)
    }

    open spec fn spec_decode(payload: Seq<u8>) -> Result<u32, Nl80211Error> {
        if payload.len() == 4 {
            Ok(le_value(payload) as u32)
        } else {
            Err(length_mismatch(4, payload.len()))
        }
    }

    fn decode(payload: &[u8]) -> (r: Result<BeaconLoss, Nl80211Error>) {
        match decode_u32(payload) {
            Ok(v) => Ok(BeaconLoss(v)),
            Err(e) => Err(e),
        }
    }
}

impl BeaconLoss {
    /// The wrapped value.
    pub fn inner(&self) -> (r: u32)
        ensures
            r == self.0,
    {
        self.0
    }

    /// The value as it is displayed, without label or unit.
    pub open spec fn spec_value_text(self) -> Seq<char> {
        dec(self.0 as nat)
    }

    /// Writes the value as it is displayed, without label or unit.
    pub fn value_text(&self) -> (r: String)
        ensures
            r@ == self.spec_value_text(),
    {
        decimal_text(self.0 as u64)
    }

    /// Writes the value with its label and unit ("beacon loss: ...").
    pub fn to_string(&self) -> (r: String)
        ensures
            r@ == "beacon loss: "@ + self.spec_value_text() + ""@,
    {
        let v = self.value_text();
        labeled("beacon loss: ", v.as_str(), "")
    }
}

/// Time since the station connected, in seconds.
#[derive(Debug, Clone, Copy, PartialEq, Eq, Structural)]
pub struct ConnectedTime(pub u32);

impl View for ConnectedTime {
    type V = u32;

    open spec fn view(&self) -> u32 {
        self.0
    }
}

impl From<u32> for ConnectedTime {
    fn from(v: u32) -> ConnectedTime {
        ConnectedTime(v)
    }
}

impl vstd::std_specs::convert::FromSpecImpl<u32> for ConnectedTime {
    open spec fn obeys_from_spec() -> bool {
        true
    }

    open spec fn from_spec(v: u32) -> ConnectedTime {
        ConnectedTime(v)
    }
}

impl NlPayloadDecode for ConnectedTime {
    open spec fn payload_width() -> Option<nat> {
        Some(4)
    }

    open spec fn spec_decode(payload: Seq<u8>) -> Result<u32, Nl80211Error> {
        if payload.len() == 4 {
            Ok(le_value(payload) as u32)
        } else {
            Err(length_mismatch(4, payload.len()))
        }
    }

    fn decode(payload: &[u8]) -> (r: Result<ConnectedTime, Nl80211Error>) {
        match decode_u32(payload) {
            Ok(v) => Ok(ConnectedTime(v)),
            Err(e) => Err(e),
        }
    }
}

impl ConnectedTime {
    /// The wrapped value.
    pub fn inner(&self) -> (r: u32)
        ensures
            r == self.0,
    {
        self.0
    }

    /// The value as it is displayed, without label or unit.
    pub open spec fn spec_value_text(self) -> Seq<char> {
        duration_text(self.0 as nat)
    }

    /// Writes the value as it is displayed, without label or unit.
    pub fn value_text(&self) -> (r: String)
        ensures
            r@ == self.spec_value_text(),
    {
        humantime(self.0)
    }

    /// Writes the value with its label and unit ("connected time: ...").
    pub fn to_string(&self) -> (r: String)
        ensures
            r@ == "connected time: "@ + self.spec_value_text() + ""@,
    {
        let v = self.value_text();
        labeled("connected time: ", v.as_str(), "")
    }
}

/// Reception bitrate index; shown multiplied by ten, in Mb/s.
#[derive(Debug, Clone, Copy, PartialEq, Eq, Structural)]
pub struct RxBitRate(pub u8);

impl View for RxBitRate {
    type V = u8;

    open spec fn view(&self) -> u8 {
        self.0
    }
}

impl From<u8> for RxBitRate {
    fn from(v: u8) -> RxBitRate {
        RxBitRate(v)
    }
}

impl vstd::std_specs::convert::FromSpecImpl<u8> for RxBitRate {
    open spec fn obeys_from_spec() -> bool {
        true
    }

    open spec fn from_spec(v: u8) -> RxBitRate {
        RxBitRate(v)
    }
}

impl NlPayloadDecode for RxBitRate {
    open spec fn payload_width() -> Option<nat> {
        Some(1)
    }

    open spec fn spec_decode(payload: Seq<u8>) -> Result<u8, Nl80211Error> {
        if payload.len() == 1 {
            Ok(le_value(payload) as u8)
        } else {
            Err(length_mismatch(1, payload.len()))
        }
    }

    fn decode(payload: &[u8]) -> (r: Result<RxBitRate, Nl80211Error>) {
        match decode_u8(payload) {
            Ok(v) => Ok(RxBitRate(v)),
            Err(e) => Err(e),
        }
    }
}

impl RxBitRate {
    /// The wrapped value.
    pub fn inner(&self) -> (r: u8)
        ensures
            r == self.0,
    {
        self.0
    }

    /// The value as it is displayed, without label or unit.
    pub open spec fn spec_value_text(self) -> Seq<char> {
        dec((self.0 as nat) * 10)
    }

    /// Writes the value as it is displayed, without label or unit.
    pub fn value_text(&self) -> (r: String)
        ensures
            r@ == self.spec_value_text(),
    {
        decimal_text(bitrate(self.0))
    }

    /// Writes the value with its label and unit ("rx bitrate: ... Mb/s").
    pub fn to_string(&self) -> (r: String)
        ensures
            r@ == "rx bitrate: "@ + self.spec_value_text() + " Mb/s"@,
    {
        let v = self.value_text();
        labeled("rx bitrate: ", v.as_str(), " Mb/s")
    }
}

/// Packets (MSDUs and MMPDUs) received from the station.
#[derive(Debug, Clone, Copy, PartialEq, Eq, Structural)]
pub struct RxPackets(pub u32);

impl View for RxPackets {
    type V = u32;

    open spec fn view(&self) -> u32 {
        self.0
    }
}

impl From<u32> for RxPackets {
    fn from(v: u32) -> RxPackets {
        RxPackets(v)
    }
}

impl vstd::std_specs::convert::FromSpecImpl<u32> for RxPackets {
    open spec fn obeys_from_spec() -> bool {
        true
    }

    open spec fn from_spec(v: u32) -> RxPackets {
        RxPackets(v)
    }
}

impl NlPayloadDecode for RxPackets {
    open spec fn payload_width() -> Option<nat> {
        Some(4)
    }

    open spec fn spec_decode(payload: Seq<u8>) -> Result<u32, Nl80211Error> {
        if payload.len() == 4 {
            Ok(le_value(payload) as u32)
        } else {
            Err(length_mismatch(4, payload.len()))
        }
    }

    fn decode(payload: &[u8]) -> (r: Result<RxPackets, Nl80211Error>) {
        match decode_u32(payload) {
            Ok(v) => Ok(RxPackets(v)),
            Err(e) => Err(e),
        }
    }
}

impl RxPackets {
    /// The wrapped value.
    pub fn inner(&self) -> (r: u32)
        ensures
            r == self.0,
    {
        self.0
    }

    /// The value as it is displayed, without label or unit.
    pub open spec fn spec_value_text(self) -> Seq<char> {
        dec(self.0 as nat)
    }

    /// Writes the value as it is displayed, without label or unit.
    pub fn value_text(&self) -> (r: String)
        ensures
            r@ == self.spec_value_text(),
    {
        decimal_text(self.0 as u64)
    }

    /// Writes the value with its label and unit ("rx packets: ...").
    pub fn to_string(&self) -> (r: String)
        ensures
            r@ == "rx packets: "@ + self.spec_value_text() + ""@,
    {
        let v = self.value_text();
        labeled("rx packets: ", v.as_str(), "")
    }
}

/// Signal strength of the last received PPDU, in dBm.
#[derive(Debug, Clone, Copy, PartialEq, Eq, Structural)]
pub struct Signal(pub i8);

impl View for Signal {
    type V = i8;

    open spec fn view(&self) -> i8 {
        self.0
    }
}

impl From<i8> for Signal {
    fn from(v: i8) -> Signal {
        Signal(v)
    }
}

impl vstd::std_specs::convert::FromSpecImpl<i8> for Signal {
    open spec fn obeys_from_spec() -> bool {
        true
    }

    open spec fn from_spec(v: i8) -> Signal {
        Signal(v)
    }
}

impl NlPayloadDecode for Signal {
    open spec fn payload_width() -> Option<nat> {
        Some(1)
    }

    open spec fn spec_decode(payload: Seq<u8>) -> Result<i8, Nl80211Error> {
        if payload.len() == 1 {
            Ok(le_signed(payload) as i8)
        } else {
            Err(length_mismatch(1, payload.len()))
        }
    }

    fn decode(payload: &[u8]) -> (r: Result<Signal, Nl80211Error>) {
        match decode_i8(payload) {
            Ok(v) => Ok(Signal(v)),
            Err(e) => Err(e),
        }
    }
}

impl Signal {
    /// The wrapped value.
    pub fn inner(&self) -> (r: i8)
        ensures
            r == self.0,
    {
        self.0
    }

    /// The value as it is displayed, without label or unit.
    pub open spec fn spec_value_text(self) -> Seq<char> {
        signed_dec(self.0 as int)
    }

    /// Writes the value as it is displayed, without label or unit.
    pub fn value_text(&self) -> (r: String)
        ensures
            r@ == self.spec_value_text(),
    {
        signed_text(self.0 as i64)
    }

    /// Writes the value with its label and unit ("signal: ... dBm").
    pub fn to_string(&self) -> (r: String)
        ensures
            r@ == "signal: "@ + self.spec_value_text() + " dBm"@,
    {
        let v = self.value_text();
        labeled("signal: ", v.as_str(), " dBm")
    }
}

/// Transmission bitrate index; shown multiplied by ten, in Mb/s.
#[derive(Debug, Clone, Copy, PartialEq, Eq, Structural)]
pub struct TxBitRate(pub u8);

impl View for TxBitRate {
    type V = u8;

    open spec fn view(&self) -> u8 {
        self.0
    }
}

impl From<u8> for TxBitRate {
    fn from(v: u8) -> TxBitRate {
        TxBitRate(v)
    }
}

impl vstd::std_specs::convert::FromSpecImpl<u8> for TxBitRate {
    open spec fn obeys_from_spec() -> bool {
        true
    }

    open spec fn from_spec(v: u8) -> TxBitRate {
        TxBitRate(v)
    }
}

impl NlPayloadDecode for TxBitRate {
    open spec fn payload_width() -> Option<nat> {
        Some(1)
    }

    open spec fn spec_decode(payload: Seq<u8>) -> Result<u8, Nl80211Error> {
        if payload.len() == 1 {
            Ok(le_value(payload) as u8)
        } else {
            Err(length_mismatch(1, payload.len()))
        }
    }

    fn decode(payload: &[u8]) -> (r: Result<TxBitRate, Nl80211Error>) {
        match decode_u8(payload) {
            Ok(v) => Ok(TxBitRate(v)),
            Err(e) => Err(e),
        }
    }
}

impl TxBitRate {
    /// The wrapped value.
    pub fn inner(&self) -> (r: u8)
        ensures
            r == self.0,
    {
        self.0
    }

    /// The value as it is displayed, without label or unit.
    pub open spec fn spec_value_text(self) -> Seq<char> {
        dec((self.0 as nat) * 10)
    }

    /// Writes the value as it is displayed, without label or unit.
    pub fn value_text(&self) -> (r: String)
        ensures
            r@ == self.spec_value_text(),
    {
        decimal_text(bitrate(self.0))
    }

    /// Writes the value with its label and unit ("tx bitrate: ... Mb/s").
    pub fn to_string(&self) -> (r: String)
        ensures
            r@ == "tx bitrate: "@ + self.spec_value_text() + " Mb/s"@,
    {
        let v = self.value_text();
        labeled("tx bitrate: ", v.as_str(), " Mb/s")
    }
}

/// Packets (MPDUs) that failed to reach the station.
#[derive(Debug, Clone, Copy, PartialEq, Eq, Structural)]
pub struct TxFailed(pub u32);

impl View for TxFailed {
    type V = u32;

    open spec fn view(&self) -> u32 {
        self.0
    }
}

impl From<u32> for TxFailed {
    fn from(v: u32) -> TxFailed {
        TxFailed(v)
    }
}

impl vstd::std_specs::convert::FromSpecImpl<u32> for TxFailed {
    open spec fn obeys_from_spec() -> bool {
        true
    }

    open spec fn from_spec(v: u32) -> TxFailed {
        TxFailed(v)
    }
}

impl NlPayloadDecode for TxFailed {
    open spec fn payload_width() -> Option<nat> {
        Some(4)
    }

    open spec fn spec_decode(payload: Seq<u8>) -> Result<u32, Nl80211Error> {
        if payload.len() == 4 {
            Ok(le_value(payload) as u32)
        } else {
            Err(length_mismatch(4, payload.len()))
        }
    }

    fn decode(payload: &[u8]) -> (r: Result<TxFailed, Nl80211Error>) {
        match decode_u32(payload) {
            Ok(v) => Ok(TxFailed(v)),
            Err(e) => Err(e),
        }
    }
}

impl TxFailed {
    /// The wrapped value.
    pub fn inner(&self) -> (r: u32)
        ensures
            r == self.0,
    {
        self.0
    }

    /// The value as it is displayed, without label or unit.
    pub open spec fn spec_value_text(self) -> Seq<char> {
        dec(self.0 as nat)
    }

    /// Writes the value as it is displayed, without label or unit.
    pub fn value_text(&self) -> (r: String)
        ensures
            r@ == self.spec_value_text(),
    {
        decimal_text(self.0 as u64)
    }

    /// Writes the value with its label and unit ("tx failed: ...").
    pub fn to_string(&self) -> (r: String)
        ensures
            r@ == "tx failed: "@ + self.spec_value_text() + ""@,
    {
        let v = self.value_text();
        labeled("tx failed: ", v.as_str(), "")
    }
}

/// Packets (MSDUs and MMPDUs) sent to the station.
#[derive(Debug, Clone, Copy, PartialEq, Eq, Structural)]
pub struct TxPackets(pub u32);

impl View for TxPackets {
    type V = u32;

    open spec fn view(&self) -> u32 {
        self.0
    }
}

impl From<u32> for TxPackets {
    fn from(v: u32) -> TxPackets {
        TxPackets(v)
    }
}

impl vstd::std_specs::convert::FromSpecImpl<u32> for TxPackets {
    open spec fn obeys_from_spec() -> bool {
        true
    }

    open spec fn from_spec(v: u32) -> TxPackets {
        TxPackets(v)
    }
}

impl NlPayloadDecode for TxPackets {
    open spec fn payload_width() -> Option<nat> {
        Some(4)
    }

    open spec fn spec_decode(payload: Seq<u8>) -> Result<u32, Nl80211Error> {
        if payload.len() == 4 {
            Ok(le_value(payload) as u32)
        } else {
            Err(length_mismatch(4, payload.len()))
        }
    }

    fn decode(payload: &[u8]) -> (r: Result<TxPackets, Nl80211Error>) {
        match decode_u32(payload) {
            Ok(v) => Ok(TxPackets(v)),
            Err(e) => Err(e),
        }
    }
}

impl TxPackets {
    /// The wrapped value.
    pub fn inner(&self) -> (r: u32)
        ensures
            r == self.0,
    {
        self.0
    }

    /// The value as it is displayed, without label or unit.
    pub open spec fn spec_value_text(self) -> Seq<char> {
        dec(self.0 as nat)
    }

    /// Writes the value as it is displayed, without label or unit.
    pub fn value_text(&self) -> (r: String)
        ensures
            r@ == self.spec_value_text(),
    {
        decimal_text(self.0 as u64)
    }

    /// Writes the value with its label and unit ("tx packets: ...").
    pub fn to_string(&self) -> (r: String)
        ensures
            r@ == "tx packets: "@ + self.spec_value_text() + ""@,
    {
        let v = self.value_text();
        labeled("tx packets: ", v.as_str(), "")
    }
}

/// Retries (MPDUs) towards the station.
#[derive(Debug, Clone, Copy, PartialEq, Eq, Structural)]
pub struct TxRetries(pub u32);

impl View for TxRetries {
    type V = u32;

    open spec fn view(&self) -> u32 {
        self.0
    }
}

impl From<u32> for TxRetries {
    fn from(v: u32) -> TxRetries {
        TxRetries(v)
    }
}

impl vstd::std_specs::convert::FromSpecImpl<u32> for TxRetries {
    open spec fn obeys_from_spec() -> bool {
        true
    }

    open spec fn from_spec(v: u32) -> TxRetries {
        TxRetries(v)
    }
}

impl NlPayloadDecode for TxRetries {
    open spec fn payload_width() -> Option<nat> {
        Some(4)
    }

    open spec fn spec_decode(payload: Seq<u8>) -> Result<u32, Nl80211Error> {
        if payload.len() == 4 {
            Ok(le_value(payload) as u32)
        } else {
            Err(length_mismatch(4, payload.len()))
        }
    }

    fn decode(payload: &[u8]) -> (r: Result<TxRetries, Nl80211Error>) {
        match decode_u32(payload) {
            Ok(v) => Ok(TxRetries(v)),
            Err(e) => Err(e),
        }
    }
}

impl TxRetries {
    /// The wrapped value.
    pub fn inner(&self) -> (r: u32)
        ensures
            r == self.0,
    {
        self.0
    }

    /// The value as it is displayed, without label or unit.
    pub open spec fn spec_value_text(self) -> Seq<char> {
        dec(self.0 as nat)
    }

    /// Writes the value as it is displayed, without label or unit.
    pub fn value_text(&self) -> (r: String)
        ensures
            r@ == self.spec_value_text(),
    {
        decimal_text(self.0 as u64)
    }

    /// Writes the value with its label and unit ("tx retries: ...").
    pub fn to_string(&self) -> (r: String)
        ensures
            r@ == "tx retries: "@ + self.spec_value_text() + ""@,
    {
        let v = self.value_text();
        labeled("tx retries: ", v.as_str(), "")
    }
}

/// Hardware address of a BSS.
#[derive(Debug, Clone, Copy, PartialEq, Eq)]
pub struct Bssid(pub [u8; 6]);

impl View for Bssid {
    type V = Seq<u8>;

    open spec fn view(&self) -> Seq<u8> {
        self.0@
    }
}

impl From<[u8; 6]> for Bssid {
    fn from(v: [u8; 6]) -> Bssid {
        Bssid(v)
    }
}

impl vstd::std_specs::convert::FromSpecImpl<[u8; 6]> for Bssid {
    open spec fn obeys_from_spec() -> bool {
        true
    }

    open spec fn from_spec(v: [u8; 6]) -> Bssid {
        Bssid(v)
    }
}

impl NlPayloadDecode for Bssid {
    open spec fn payload_width() -> Option<nat> {
        Some(6)
    }

    open spec fn spec_decode(payload: Seq<u8>) -> Result<Seq<u8>, Nl80211Error> {
        if payload.len() == 6 {
            Ok(payload)
        } else {
            Err(length_mismatch(6, payload.len()))
        }
    }

    fn decode(payload: &[u8]) -> (r: Result<Bssid, Nl80211Error>) {
        match decode_mac(payload) {
            Ok(v) => Ok(Bssid(v)),
            Err(e) => Err(e),
        }
    }
}

impl Bssid {
    /// The wrapped value.
    pub fn inner(&self) -> (r: [u8; 6])
        ensures
            r == self.0,
    {
        self.0
    }

    /// The value as it is displayed, without label or unit.
    pub open spec fn spec_value_text(self) -> Seq<char> {
        colon_hex(self.0@)
    }

    /// Writes the value as it is displayed, without label or unit.
    pub fn value_text(&self) -> (r: String)
        ensures
            r@ == self.spec_value_text(),
    {
        mac_adress(self.0)
    }

    /// Writes the value with its label and unit ("bssid: ...").
    pub fn to_string(&self) -> (r: String)
        ensures
            r@ == "bssid: "@ + self.spec_value_text() + ""@,
    {
        let v = self.value_text();
        labeled("bssid: ", v.as_str(), "")
    }
}

/// Channel frequency in MHz; shown in GHz.
#[derive(Debug, Clone, Copy, PartialEq, Eq, Structural)]
pub struct Frequency(pub u32);

impl View for Frequency {
    type V = u32;

    open spec fn view(&self) -> u32 {
        self.0
    }
}

impl From<u32> for Frequency {
    fn from(v: u32) -> Frequency {
        Frequency(v)
    }
}

impl vstd::std_specs::convert::FromSpecImpl<u32> for Frequency {
    open spec fn obeys_from_spec() -> bool {
        true
    }

    open spec fn from_spec(v: u32) -> Frequency {
        Frequency(v)
    }
}

impl NlPayloadDecode for Frequency {
    open spec fn payload_width() -> Option<nat> {
        Some(4)
    }

    open spec fn spec_decode(payload: Seq<u8>) -> Result<u32, Nl80211Error> {
        if payload.len() == 4 {
            Ok(le_value(payload) as u32)
        } else {
            Err(length_mismatch(4, payload.len()))
        }
    }

    fn decode(payload: &[u8]) -> (r: Result<Frequency, Nl80211Error>) {
        match decode_u32(payload) {
            Ok(v) => Ok(Frequency(v)),
            Err(e) => Err(e),
        }
    }
}

impl Frequency {
    /// The wrapped value.
    pub fn inner(&self) -> (r: u32)
        ensures
            r == self.0,
    {
        self.0
    }

    /// The value as it is displayed, without label or unit.
    pub open spec fn spec_value_text(self) -> Seq<char> {
        ghz_text(self.0 as nat)
    }

    /// Writes the value as it is displayed, without label or unit.
    pub fn value_text(&self) -> (r: String)
        ensures
            r@ == self.spec_value_text(),
    {
        frequency(self.0)
    }

    /// Writes the value with its label and unit ("frequency: ... GHz").
    pub fn to_string(&self) -> (r: String)
        ensures
            r@ == "frequency: "@ + self.spec_value_text() + " GHz"@,
    {
        let v = self.value_text();
        labeled("frequency: ", v.as_str(), " GHz")
    }
}

/// Beacon interval of the BSS, in time units.
#[derive(Debug, Clone, Copy, PartialEq, Eq, Structural)]
pub struct BeaconInterval(pub u16);

impl View for BeaconInterval {
    type V = u16;

    open spec fn view(&self) -> u16 {
        self.0
    }
}

impl From<u16> for BeaconInterval {
    fn from(v: u16) -> BeaconInterval {
        BeaconInterval(v)
    }
}

impl vstd::std_specs::convert::FromSpecImpl<u16> for BeaconInterval {
    open spec fn obeys_from_spec() -> bool {
        true
    }

    open spec fn from_spec(v: u16) -> BeaconInterval {
        BeaconInterval(v)
    }
}

impl NlPayloadDecode for BeaconInterval {
    open spec fn payload_width() -> Option<nat> {
        Some(2)
    }

    open spec fn spec_decode(payload: Seq<u8>) -> Result<u16, Nl80211Error> {
        if payload.len() == 2 {
            Ok(le_value(payload) as u16)
        } else {
            Err(length_mismatch(2, payload.len()))
        }
    }

    fn decode(payload: &[u8]) -> (r: Result<BeaconInterval, Nl80211Error>) {
        match decode_u16(payload) {
            Ok(v) => Ok(BeaconInterval(v)),
            Err(e) => Err(e),
        }
    }
}

impl BeaconInterval {
    /// The wrapped value.
    pub fn inner(&self) -> (r: u16)
        ensures
            r == self.0,
    {
        self.0
    }

    /// The value as it is displayed, without label or unit.
    pub open spec fn spec_value_text(self) -> Seq<char> {
        dec(self.0 as nat)
    }

    /// Writes the value as it is displayed, without label or unit.
    pub fn value_text(&self) -> (r: String)
        ensures
            r@ == self.spec_value_text(),
    {
        decimal_text(self.0 as u64)
    }

    /// Writes the value with its label and unit ("beacon interval: ... TUs").
    pub fn to_string(&self) -> (r: String)
        ensures
            r@ == "beacon interval: "@ + self.spec_value_text() + " TUs"@,
    {
        let v = self.value_text();
        labeled("beacon interval: ", v.as_str(), " TUs")
    }
}

/// Age of the BSS entry, in milliseconds.
#[derive(Debug, Clone, Copy, PartialEq, Eq, Structural)]
pub struct SeenMsAgo(pub u32);

impl View for SeenMsAgo {
    type V = u32;

    open spec fn view(&self) -> u32 {
        self.0
    }
}

impl From<u32> for SeenMsAgo {
    fn from(v: u32) -> SeenMsAgo {
        SeenMsAgo(v)
    }
}

impl vstd::std_specs::convert::FromSpecImpl<u32> for SeenMsAgo {
    open spec fn obeys_from_spec() -> bool {
        true
    }

    open spec fn from_spec(v: u32) -> SeenMsAgo {
        SeenMsAgo(v)
    }
}

impl NlPayloadDecode for SeenMsAgo {
    open spec fn payload_width() -> Option<nat> {
        Some(4)
    }

    open spec fn spec_decode(payload: Seq<u8>) -> Result<u32, Nl80211Error> {
        if payload.len() == 4 {
            Ok(le_value(payload) as u32)
        } else {
            Err(length_mismatch(4, payload.len()))
        }
    }

    fn decode(payload: &[u8]) -> (r: Result<SeenMsAgo, Nl80211Error>) {
        match decode_u32(payload) {
            Ok(v) => Ok(SeenMsAgo(v)),
            Err(e) => Err(e),
        }
    }
}

impl SeenMsAgo {
    /// The wrapped value.
    pub fn inner(&self) -> (r: u32)
        ensures
            r == self.0,
    {
        self.0
    }

    /// The value as it is displayed, without label or unit.
    pub open spec fn spec_value_text(self) -> Seq<char> {
        dec(self.0 as nat)
    }

    /// Writes the value as it is displayed, without label or unit.
    pub fn value_text(&self) -> (r: String)
        ensures
            r@ == self.spec_value_text(),
    {
        decimal_text(self.0 as u64)
    }

    /// Writes the value with its label and unit ("last seen: ... ms ago").
    pub fn to_string(&self) -> (r: String)
        ensures
            r@ == "last seen: "@ + self.spec_value_text() + " ms ago"@,
    {
        let v = self.value_text();
        labeled("last seen: ", v.as_str(), " ms ago")
    }
}

/// Status of the BSS (authenticated, associated, IBSS joined).
#[derive(Debug, Clone, Copy, PartialEq, Eq, Structural)]
pub struct Status(pub u32);

impl View for Status {
    type V = u32;

    open spec fn view(&self) -> u32 {
        self.0
    }
}

impl From<u32> for Status {
    fn from(v: u32) -> Status {
        Status(v)
    }
}

impl vstd::std_specs::convert::FromSpecImpl<u32> for Status {
    open spec fn obeys_from_spec() -> bool {
        true
    }

    open spec fn from_spec(v: u32) -> Status {
        Status(v)
    }
}

impl NlPayloadDecode for Status {
    open spec fn payload_width() -> Option<nat> {
        Some(4)
    }

    open spec fn spec_decode(payload: Seq<u8>) -> Result<u32, Nl80211Error> {
        if payload.len() == 4 {
            Ok(le_value(payload) as u32)
        } else {
            Err(length_mismatch(4, payload.len()))
        }
    }

    fn decode(payload: &[u8]) -> (r: Result<Status, Nl80211Error>) {
        match decode_u32(payload) {
            Ok(v) => Ok(Status(v)),
            Err(e) => Err(e),
        }
    }
}

impl Status {
    /// The wrapped value.
    pub fn inner(&self) -> (r: u32)
        ensures
            r == self.0,
    {
        self.0
    }

    /// The value as it is displayed, without label or unit.
    pub open spec fn spec_value_text(self) -> Seq<char> {
        dec(self.0 as nat)
    }

    /// Writes the value as it is displayed, without label or unit.
    pub fn value_text(&self) -> (r: String)
        ensures
            r@ == self.spec_value_text(),
    {
        decimal_text(self.0 as u64)
    }

    /// Writes the value with its label and unit ("status: ...").
    pub fn to_string(&self) -> (r: String)
        ensures
            r@ == "status: "@ + self.spec_value_text() + ""@,
    {
        let v = self.value_text();
        labeled("status: ", v.as_str(), "")
    }
}

/// Signal strength of a BSS in mBm (1/100 dBm); shown in dBm.
#[derive(Debug, Clone, Copy, PartialEq, Eq, Structural)]
pub struct BssSignal(pub i32);

impl View for BssSignal {
    type V = i32;

    open spec fn view(&self) -> i32 {
        self.0
    }
}

impl From<i32> for BssSignal {
    fn from(v: i32) -> BssSignal {
        BssSignal(v)
    }
}

impl vstd::std_specs::convert::FromSpecImpl<i32> for BssSignal {
    open spec fn obeys_from_spec() -> bool {
        true
    }

    open spec fn from_spec(v: i32) -> BssSignal {
        BssSignal(v)
    }
}

impl NlPayloadDecode for BssSignal {
    open spec fn payload_width() -> Option<nat> {
        Some(4)
    }

    open spec fn spec_decode(payload: Seq<u8>) -> Result<i32, Nl80211Error> {
        if payload.len() == 4 {
            Ok(le_signed(payload) as i32)
        } else {
            Err(length_mismatch(4, payload.len()))
        }
    }

    fn decode(payload: &[u8]) -> (r: Result<BssSignal, Nl80211Error>) {
        match decode_i32(payload) {
            Ok(v) => Ok(BssSignal(v)),
            Err(e) => Err(e),
        }
    }
}

impl BssSignal {
    /// The wrapped value.
    pub fn inner(&self) -> (r: i32)
        ensures
            r == self.0,
    {
        self.0
    }

    /// The value as it is displayed, without label or unit.
    pub open spec fn spec_value_text(self) -> Seq<char> {
        mbm_text(self.0 as int)
    }

    /// Writes the value as it is displayed, without label or unit.
    pub fn value_text(&self) -> (r: String)
        ensures
            r@ == self.spec_value_text(),
    {
        signal(self.0)
    }

    /// Writes the value with its label and unit ("signal: ... dBm").
    pub fn to_string(&self) -> (r: String)
        ensures
            r@ == "signal: "@ + self.spec_value_text() + " dBm"@,
    {
        let v = self.value_text();
        labeled("signal: ", v.as_str(), " dBm")
    }
}

/// Network name (SSID).
#[derive(Debug, Clone, PartialEq, Eq)]
pub struct Essid(pub String);

impl View for Essid {
    type V = Seq<char>;

    open spec fn view(&self) -> Seq<char> {
        self.0@
    }
}

impl From<String> for Essid {
    fn from(v: String) -> Essid {
        Essid(v)
    }
}

impl vstd::std_specs::convert::FromSpecImpl<String> for Essid {
    open spec fn obeys_from_spec() -> bool {
        true
    }

    open spec fn from_spec(v: String) -> Essid {
        Essid(v)
    }
}

impl NlPayloadDecode for Essid {
    open spec fn payload_width() -> Option<nat> {
        None
    }

    open spec fn spec_decode(payload: Seq<u8>) -> Result<Seq<char>, Nl80211Error> {
        Ok(utf8_lossy(payload))
    }

    fn decode(payload: &[u8]) -> (r: Result<Essid, Nl80211Error>) {
        Ok(Essid(parse_string_slice(payload)))
    }
}

impl Essid {
    /// The wrapped text.
    pub fn inner(&self) -> (r: &String)
        ensures
            r@ == self.0@,
    {
        &self.0
    }

    /// The value as it is displayed, without label or unit.
    pub open spec fn spec_value_text(self) -> Seq<char> {
        self.0@
    }

    /// Writes the value as it is displayed, without label or unit.
    pub fn value_text(&self) -> (r: String)
        ensures
            r@ == self.spec_value_text(),
    {
        self.0.clone()
    }

    /// Writes the value with its label and unit ("essid: ...").
    pub fn to_string(&self) -> (r: String)
        ensures
            r@ == "essid: "@ + self.spec_value_text() + ""@,
    {
        let v = self.value_text();
        labeled("essid: ", v.as_str(), "")
    }
}

/// Interface name.
#[derive(Debug, Clone, PartialEq, Eq)]
pub struct InterfaceName(pub String);

impl View for InterfaceName {
    type V = Seq<char>;

    open spec fn view(&self) -> Seq<char> {
        self.0@
    }
}

impl From<String> for InterfaceName {
    fn from(v: String) -> InterfaceName {
        InterfaceName(v)
    }
}

impl vstd::std_specs::convert::FromSpecImpl<String> for InterfaceName {
    open spec fn obeys_from_spec() -> bool {
        true
    }

    open spec fn from_spec(v: String) -> InterfaceName {
        InterfaceName(v)
    }
}

impl NlPayloadDecode for InterfaceName {
    open spec fn payload_width() -> Option<nat> {
        None
    }

    open spec fn spec_decode(payload: Seq<u8>) -> Result<Seq<char>, Nl80211Error> {
        Ok(utf8_lossy(payload))
    }

    fn decode(payload: &[u8]) -> (r: Result<InterfaceName, Nl80211Error>) {
        Ok(InterfaceName(parse_string_slice(payload)))
    }
}

impl InterfaceName {
    /// The wrapped text.
    pub fn inner(&self) -> (r: &String)
        ensures
            r@ == self.0@,
    {
        &self.0
    }

    /// The value as it is displayed, without label or unit.
    pub open spec fn spec_value_text(self) -> Seq<char> {
        self.0@
    }

    /// Writes the value as it is displayed, without label or unit.
    pub fn value_text(&self) -> (r: String)
        ensures
            r@ == self.spec_value_text(),
    {
        self.0.clone()
    }

    /// Writes the value with its label and unit ("name: ...").
    pub fn to_string(&self) -> (r: String)
        ensures
            r@ == "name: "@ + self.spec_value_text() + ""@,
    {
        let v = self.value_text();
        labeled("name: ", v.as_str(), "")
    }
}

/// Transmit power level in mBm; shown in whole dBm.
#[derive(Debug, Clone, Copy, PartialEq, Eq, Structural)]
pub struct Power(pub u32);

impl View for Power {
    type V = u32;

    open spec fn view(&self) -> u32 {
        self.0
    }
}

impl From<u32> for Power {
    fn from(v: u32) -> Power {
        Power(v)
    }
}

impl vstd::std_specs::convert::FromSpecImpl<u32> for Power {
    open spec fn obeys_from_spec() -> bool {
        true
    }

    open spec fn from_spec(v: u32) -> Power {
        Power(v)
    }
}

impl NlPayloadDecode for Power {
    open spec fn payload_width() -> Option<nat> {
        Some(4)
    }

    open spec fn spec_decode(payload: Seq<u8>) -> Result<u32, Nl80211Error> {
        if payload.len() == 4 {
            Ok(le_value(payload) as u32)
        } else {
            Err(length_mismatch(4, payload.len()))
        }
    }

    fn decode(payload: &[u8]) -> (r: Result<Power, Nl80211Error>) {
        match decode_u32(payload) {
            Ok(v) => Ok(Power(v)),
            Err(e) => Err(e),
        }
    }
}

impl Power {
    /// The wrapped value.
    pub fn inner(&self) -> (r: u32)
        ensures
            r == self.0,
    {
        self.0
    }

    /// The value as it is displayed, without label or unit.
    pub open spec fn spec_value_text(self) -> Seq<char> {
        dec((self.0 as nat) / 100)
    }

    /// Writes the value as it is displayed, without label or unit.
    pub fn value_text(&self) -> (r: String)
        ensures
            r@ == self.spec_value_text(),
    {
        decimal_text(power(self.0))
    }

    /// Writes the value with its label and unit ("power: ... dBm").
    pub fn to_string(&self) -> (r: String)
        ensures
            r@ == "power: "@ + self.spec_value_text() + " dBm"@,
    {
        let v = self.value_text();
        labeled("power: ", v.as_str(), " dBm")
    }
}

/// Hardware address of an interface.
#[derive(Debug, Clone, Copy, PartialEq, Eq)]
pub struct Mac(pub [u8; 6]);

impl View for Mac {
    type V = Seq<u8>;

    open spec fn view(&self) -> Seq<u8> {
        self.0@
    }
}

impl From<[u8; 6]> for Mac {
    fn from(v: [u8; 6]) -> Mac {
        Mac(v)
    }
}

impl vstd::std_specs::convert::FromSpecImpl<[u8; 6]> for Mac {
    open spec fn obeys_from_spec() -> bool {
        true
    }

    open spec fn from_spec(v: [u8; 6]) -> Mac {
        Mac(v)
    }
}

impl NlPayloadDecode for Mac {
    open spec fn payload_width() -> Option<nat> {
        Some(6)
    }

    open spec fn spec_decode(payload: Seq<u8>) -> Result<Seq<u8>, Nl80211Error> {
        if payload.len() == 6 {
            Ok(payload)
        } else {
            Err(length_mismatch(6, payload.len()))
        }
    }

    fn decode(payload: &[u8]) -> (r: Result<Mac, Nl80211Error>) {
        match decode_mac(payload) {
            Ok(v) => Ok(Mac(v)),
            Err(e) => Err(e),
        }
    }
}

impl Mac {
    /// The wrapped value.
    pub fn inner(&self) -> (r: [u8; 6])
        ensures
            r == self.0,
    {
        self.0
    }

    /// The value as it is displayed, without label or unit.
    pub open spec fn spec_value_text(self) -> Seq<char> {
        colon_hex(self.0@)
    }

    /// Writes the value as it is displayed, without label or unit.
    pub fn value_text(&self) -> (r: String)
        ensures
            r@ == self.spec_value_text(),
    {
        mac_adress(self.0)
    }

    /// Writes the value with its label and unit ("mac: ...").
    pub fn to_string(&self) -> (r: String)
        ensures
            r@ == "mac: "@ + self.spec_value_text() + ""@,
    {
        let v = self.value_text();
        labeled("mac: ", v.as_str(), "")
    }
}

/// Channel width of an interface.
#[derive(Debug, Clone, Copy, PartialEq, Eq, Structural)]
pub struct Channel(pub u32);

impl View for Channel {
    type V = u32;

    open spec fn view(&self) -> u32 {
        self.0
    }
}

impl From<u32> for Channel {
    fn from(v: u32) -> Channel {
        Channel(v)
    }
}

impl vstd::std_specs::convert::FromSpecImpl<u32> for Channel {
    open spec fn obeys_from_spec() -> bool {
        true
    }

    open spec fn from_spec(v: u32) -> Channel {
        Channel(v)
    }
}

impl NlPayloadDecode for Channel {
    open spec fn payload_width() -> Option<nat> {
        Some(4)
    }

    open spec fn spec_decode(payload: Seq<u8>) -> Result<u32, Nl80211Error> {
        if payload.len() == 4 {
            Ok(le_value(payload) as u32)
        } else {
            Err(length_mismatch(4, payload.len()))
        }
    }

    fn decode(payload: &[u8]) -> (r: Result<Channel, Nl80211Error>) {
        match decode_u32(payload) {
            Ok(v) => Ok(Channel(v)),
            Err(e) => Err(e),
        }
    }
}

impl Channel {
    /// The wrapped value.
    pub fn inner(&self) -> (r: u32)
        ensures
            r == self.0,
    {
        self.0
    }

    /// The value as it is displayed, without label or unit.
    pub open spec fn spec_value_text(self) -> Seq<char> {
        dec(self.0 as nat)
    }

    /// Writes the value as it is displayed, without label or unit.
    pub fn value_text(&self) -> (r: String)
        ensures
            r@ == self.spec_value_text(),
    {
        decimal_text(self.0 as u64)
    }

    /// Writes the value with its label and unit ("channel: ...").
    pub fn to_string(&self) -> (r: String)
        ensures
            r@ == "channel: "@ + self.spec_value_text() + ""@,
    {
        let v = self.value_text();
        labeled("channel: ", v.as_str(), "")
    }
}

/// Index of the wiphy the interface belongs to.
#[derive(Debug, Clone, Copy, PartialEq, Eq, Structural)]
pub struct Phy(pub u32);

impl View for Phy {
    type V = u32;

    open spec fn view(&self) -> u32 {
        self.0
    }
}

impl From<u32> for Phy {
    fn from(v: u32) -> Phy {
        Phy(v)
    }
}

impl vstd::std_specs::convert::FromSpecImpl<u32> for Phy {
    open spec fn obeys_from_spec() -> bool {
        true
    }

    open spec fn from_spec(v: u32) -> Phy {
        Phy(v)
    }
}

impl NlPayloadDecode for Phy {
    open spec fn payload_width() -> Option<nat> {
        Some(4)
    }

    open spec fn spec_decode(payload: Seq<u8>) -> Result<u32, Nl80211Error> {
        if payload.len() == 4 {
            Ok(le_value(payload) as u32)
        } else {
            Err(length_mismatch(4, payload.len()))
        }
    }

    fn decode(payload: &[u8]) -> (r: Result<Phy, Nl80211Error>) {
        match decode_u32(payload) {
            Ok(v) => Ok(Phy(v)),
            Err(e) => Err(e),
        }
    }
}

impl Phy {
    /// The wrapped value.
    pub fn inner(&self) -> (r: u32)
        ensures
            r == self.0,
    {
        self.0
    }

    /// The value as it is displayed, without label or unit.
    pub open spec fn spec_value_text(self) -> Seq<char> {
        dec(self.0 as nat)
    }

    /// Writes the value as it is displayed, without label or unit.
    pub fn value_text(&self) -> (r: String)
        ensures
            r@ == self.spec_value_text(),
    {
        decimal_text(self.0 as u64)
    }

    /// Writes the value with its label and unit ("phy: ...").
    pub fn to_string(&self) -> (r: String)
        ensures
            r@ == "phy: "@ + self.spec_value_text() + ""@,
    {
        let v = self.value_text();
        labeled("phy: ", v.as_str(), "")
    }
}

/// Wireless device identifier.
#[derive(Debug, Clone, Copy, PartialEq, Eq, Structural)]
pub struct Device(pub u64);

impl View for Device {
    type V = u64;

    open spec fn view(&self) -> u64 {
        self.0
    }
}

impl From<u64> for Device {
    fn from(v: u64) -> Device {
        Device(v)
    }
}

impl vstd::std_specs::convert::FromSpecImpl<u64> for Device {
    open spec fn obeys_from_spec() -> bool {
        true
    }

    open spec fn from_spec(v: u64) -> Device {
        Device(v)
    }
}

impl NlPayloadDecode for Device {
    open spec fn payload_width() -> Option<nat> {
        Some(8)
    }

    open spec fn spec_decode(payload: Seq<u8>) -> Result<u64, Nl80211Error> {
        if payload.len() == 8 {
            Ok(le_value(payload) as u64)
        } else {
            Err(length_mismatch(8, payload.len()))
        }
    }

    fn decode(payload: &[u8]) -> (r: Result<Device, Nl80211Error>) {
        match decode_u64(payload) {
            Ok(v) => Ok(Device(v)),
            Err(e) => Err(e),
        }
    }
}

impl Device {
    /// The wrapped value.
    pub fn inner(&self) -> (r: u64)
        ensures
            r == self.0,
    {
        self.0
    }

    /// The value as it is displayed, without label or unit.
    pub open spec fn spec_value_text(self) -> Seq<char> {
        dec(self.0 as nat)
    }

    /// Writes the value as it is displayed, without label or unit.
    pub fn value_text(&self) -> (r: String)
        ensures
            r@ == self.spec_value_text(),
    {
        decimal_text(self.0 as u64)
    }

    /// Writes the value with its label and unit ("device: ...").
    pub fn to_string(&self) -> (r: String)
        ensures
            r@ == "device: "@ + self.spec_value_text() + ""@,
    {
        let v = self.value_text();
        labeled("device: ", v.as_str(), "")
    }
}

/// Interface name.
#[derive(Debug, Clone, PartialEq, Eq)]
pub struct Name(pub String);

impl View for Name {
    type V = Seq<char>;

    open spec fn view(&self) -> Seq<char> {
        self.0@
    }
}

impl From<String> for Name {
    fn from(v: String) -> Name {
        Name(v)
    }
}

impl vstd::std_specs::convert::FromSpecImpl<String> for Name {
    open spec fn obeys_from_spec() -> bool {
        true
    }

    open spec fn from_spec(v: String) -> Name {
        Name(v)
    }
}

impl NlPayloadDecode for Name {
    open spec fn payload_width() -> Option<nat> {
        None
    }

    open spec fn spec_decode(payload: Seq<u8>) -> Result<Seq<char>, Nl80211Error> {
        Ok(utf8_lossy(payload))
    }

    fn decode(payload: &[u8]) -> (r: Result<Name, Nl80211Error>) {
        Ok(Name(parse_string_slice(payload)))
    }
}

impl Name {
    /// The wrapped text.
    pub fn inner(&self) -> (r: &String)
        ensures
            r@ == self.0@,
    {
        &self.0
    }

    /// The value as it is displayed, without label or unit.
    pub open spec fn spec_value_text(self) -> Seq<char> {
        self.0@
    }

    /// Writes the value as it is displayed, without label or unit.
    pub fn value_text(&self) -> (r: String)
        ensures
            r@ == self.spec_value_text(),
    {
        self.0.clone()
    }

    /// Writes the value with its label and unit ("name: ...").
    pub fn to_string(&self) -> (r: String)
        ensures
            r@ == "name: "@ + self.spec_value_text() + ""@,
    {
        let v = self.value_text();
        labeled("name: ", v.as_str(), "")
    }
}

} // verus!
