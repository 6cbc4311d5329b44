//! Decoding of nl80211 (Linux wireless) generic-netlink replies into typed
//! records: network interfaces, associated stations and scanned access points.
//!
//! The attribute stream of a reply is split into its TLV records
//! (`AttrHandle`), nested levels are descended into on demand, scalar payloads
//! are decoded with exact width checks (`NlPayloadDecode`), and the record
//! mappers (`Interface`, `Station`, `Bss`) keep the last well-formed value of
//! each field while skipping unknown tags. `Dump` gathers the records of a
//! multi-message exchange; the transport itself lives outside this crate.

mod attr;
mod bss;
pub mod consts;
mod error;
mod interface;
mod nl80211traits;
mod parse_attr;
mod session;
mod station;
mod text;
mod types;

pub use attr::{push_attr, AttrHandle, Nlattr};
pub use bss::Bss;
pub use consts::{
    FeatureFlags, Nl80211Attr, Nl80211Bss, Nl80211BssStatus, Nl80211Cmd, Nl80211RateInfo,
    Nl80211StaInfo, RegRuleFlags, NL_80211_GENL_NAME, NL_80211_GENL_VERSION,
};
pub use error::Nl80211Error;
pub use interface::Interface;
pub use nl80211traits::NlPayloadDecode;
pub use parse_attr::{
    decode_i32, decode_i8, decode_mac, decode_u16, decode_u32, decode_u64, decode_u8, parse_hex,
    parse_i32, parse_i8, parse_string, parse_u16, parse_u32, parse_u64, parse_u8,
};
pub use session::{
    classify_reply, target_attrs, Dump, DumpState, ParseNlAttr, ReplyKind, Request, GENL_HDRLEN,
    NLMSG_DONE, NLMSG_ERROR,
};
pub use station::Station;
pub use text::{decimal_text, labeled};
pub use types::{
    bitrate, frequency, humantime, mac_adress, power, signal, AverageSignal, BeaconInterval,
    BeaconLoss, BssSignal, Bssid, Channel, ConnectedTime, Device, Essid, Frequency, InterfaceName,
    Mac, Name, Phy, Power, RxBitRate, RxPackets, SeenMsAgo, Signal, Status, TxBitRate, TxFailed,
    TxPackets, TxRetries,
};
