use crate::attr::{tlv_attrs, AttrHandle, AttrModel};
use crate::consts::{Nl80211Attr, Nl80211Bss};
use crate::error::Nl80211Error;
use crate::nl80211traits::{
    decoded_field, lemma_decoded_field_absent, lemma_decoded_field_step, lemma_nested_absent,
    lemma_nested_prefix_fails, lemma_nested_step,
    nested, opt_view, NlPayloadDecode,
};
use crate::text::{add_line, join_lines, LineJoiner};
use crate::types::{BeaconInterval, BssSignal, Bssid, Frequency, SeenMsAgo, Status};
use vstd::prelude::*;

verus! {

/// A BSS (basic service set): an access point seen in a scan.
#[derive(Debug, Clone, Copy, PartialEq, Eq)]
pub struct Bss {
    pub bssid: Option<Bssid>,
    pub frequency: Option<Frequency>,
    pub beacon_interval: Option<BeaconInterval>,
    pub seen_ms_ago: Option<SeenMsAgo>,
    pub status: Option<Status>,
    pub signal: Option<BssSignal>,
}

/// The wire tag of a BSS sub-attribute.
pub open spec fn bss_tag(a: Nl80211Bss) -> u16 {
    a.spec_to_u16()
}

/// `r` holds, for each field, the value of the last BSS sub-attribute that
/// carries it with a payload of the right length.
pub open spec fn bss_matches(r: Bss, sub: Seq<AttrModel>) -> bool {
    &&& opt_view(r.bssid) == decoded_field::<Bssid>(sub, bss_tag(Nl80211Bss::BssBssid))
    &&& opt_view(r.frequency) == decoded_field::<Frequency>(
        sub,
        bss_tag(Nl80211Bss::BssFrequency),
    )
    &&& opt_view(r.beacon_interval) == decoded_field::<BeaconInterval>(
        sub,
        bss_tag(Nl80211Bss::BssBeaconInterval),
    )
    &&& opt_view(r.seen_ms_ago) == decoded_field::<SeenMsAgo>(
        sub,
        bss_tag(Nl80211Bss::BssSeenMsAgo),
    )
    &&& opt_view(r.status) == decoded_field::<Status>(sub, bss_tag(Nl80211Bss::BssStatus))
    &&& opt_view(r.signal) == decoded_field::<BssSignal>(sub, bss_tag(Nl80211Bss::BssSignalMbm))
}

/// The sub-attributes of every BSS attribute of a reply, in order.
pub open spec fn bss_sub_attrs(attrs: Seq<AttrModel>) -> Option<Seq<AttrModel>> {
    nested(attrs, Nl80211Attr::AttrBss.spec_to_u16())
}

/// Every field is absent.
pub open spec fn bss_is_empty(r: Bss) -> bool {
    &&& r.bssid is None
    &&& r.frequency is None
    &&& r.beacon_interval is None
    &&& r.seen_ms_ago is None
    &&& r.status is None
    &&& r.signal is None
}

/// The report lines of a BSS, one per present field, in field order.
pub open spec fn bss_lines(r: Bss) -> Seq<Seq<char>> {
    let l = Seq::<Seq<char>>::empty();
    let l = add_line(
        l,
        match r.bssid {
            Some(x) => Some("bssid: "@ + x.spec_value_text() + ""@),
            None => None,
        },
    );
    let l = add_line(
        l,
        match r.frequency {
            Some(x) => Some("frequency: "@ + x.spec_value_text() + " GHz"@),
            None => None,
        },
    );
    let l = add_line(
        l,
        match r.beacon_interval {
            Some(x) => Some("beacon interval: "@ + x.spec_value_text() + " TUs"@),
            None => None,
        },
    );
    let l = add_line(
        l,
        match r.seen_ms_ago {
            Some(x) => Some("last seen: "@ + x.spec_value_text() + " ms ago"@),
            None => None,
        },
    );
    let l = add_line(
        l,
        match r.status {
            Some(x) => Some("status: "@ + x.spec_value_text() + ""@),
            None => None,
        },
    );
    add_line(
        l,
        match r.signal {
            Some(x) => Some("signal: "@ + x.spec_value_text() + " dBm"@),
            None => None,
        },
    )
}

/// A scan reply whose attributes all carry tags outside the catalogue decodes,
/// without error, to a BSS with every field absent.
pub proof fn lemma_unknown_tags_bss(attrs: Seq<AttrModel>, r: Bss)
    requires
        forall|i: int|
            0 <= i < attrs.len() ==> Nl80211Attr::spec_from_u16(
                #[trigger] attrs[i].0,
            ) is UnrecognizedVariant,
        bss_matches(r, Seq::empty()),
    ensures
        bss_sub_attrs(attrs) == Some(Seq::<AttrModel>::empty()),
        bss_is_empty(r),
{
    lemma_nested_absent(attrs, 47);
    let e = Seq::<AttrModel>::empty();
    lemma_decoded_field_absent::<Bssid>(e, 1);
    lemma_decoded_field_absent::<Frequency>(e, 2);
    lemma_decoded_field_absent::<BeaconInterval>(e, 4);
    lemma_decoded_field_absent::<SeenMsAgo>(e, 10);
    lemma_decoded_field_absent::<Status>(e, 9);
    lemma_decoded_field_absent::<BssSignal>(e, 7);
}

impl Bss {
    /// The bssid, when the reply carried it.
    pub fn bssid(&self) -> (r: &Option<Bssid>)
        ensures
            *r == self.bssid,
    {
        &self.bssid
    }

    /// The frequency, when the reply carried it.
    pub fn frequency(&self) -> (r: &Option<Frequency>)
        ensures
            *r == self.frequency,
    {
        &self.frequency
    }

    /// The beacon interval, when the reply carried it.
    pub fn beacon_interval(&self) -> (r: &Option<BeaconInterval>)
        ensures
            *r == self.beacon_interval,
    {
        &self.beacon_interval
    }

    /// The seen ms ago, when the reply carried it.
    pub fn seen_ms_ago(&self) -> (r: &Option<SeenMsAgo>)
        ensures
            *r == self.seen_ms_ago,
    {
        &self.seen_ms_ago
    }

    /// The status, when the reply carried it.
    pub fn status(&self) -> (r: &Option<Status>)
        ensures
            *r == self.status,
    {
        &self.status
    }

    /// The signal, when the reply carried it.
    pub fn signal(&self) -> (r: &Option<BssSignal>)
        ensures
            *r == self.signal,
    {
        &self.signal
    }

    /// A BSS with every field absent.
    pub fn new() -> (r: Bss)
        ensures
            bss_is_empty(r),
    {
        Bss {
            bssid: None,
            frequency: None,
            beacon_interval: None,
            seen_ms_ago: None,
            status: None,
            signal: None,
        }
    }

    /// Applies one level of BSS sub-attributes on top of `self`.
    fn apply_sub(&mut self, sub: &AttrHandle, before: Ghost<Seq<AttrModel>>)
        requires
            bss_matches(*old(self), before@),
        ensures
            bss_matches(*final(self), before@ + sub@),
    {
        let m = sub.len();
        let mut j: usize = 0;
        assert(before@ + sub@.subrange(0, 0) =~= before@);
        while j < m
            invariant
                j <= m,
                m == sub@.len(),
                bss_matches(*self, before@ + sub@.subrange(0, j as int)),
            decreases m - j,
        {
            let a = sub.get(j);
            let t = a.nla_type;
            let ghost all = before@ + sub@;
            let ghost k = before@.len() + j;
            proof {
                assert(all.subrange(0, k) =~= before@ + sub@.subrange(0, j as int));
                assert(all.subrange(0, k + 1) =~= before@ + sub@.subrange(0, j + 1));
                assert(all[k] == sub@[j as int]);
                Nl80211Bss::lemma_round_trip(t);
                lemma_decoded_field_step::<Bssid>(all, k, 1);
                lemma_decoded_field_step::<Frequency>(all, k, 2);
                lemma_decoded_field_step::<BeaconInterval>(all, k, 4);
                lemma_decoded_field_step::<SeenMsAgo>(all, k, 10);
                lemma_decoded_field_step::<Status>(all, k, 9);
                lemma_decoded_field_step::<BssSignal>(all, k, 7);
            }
            match Nl80211Bss::from_u16(t) {
                Nl80211Bss::BssBssid => {
                    if let Ok(v) = Bssid::decode(a.payload) {
                        self.bssid = Some(v);
                    }
                },
                Nl80211Bss::BssFrequency => {
                    if let Ok(v) = Frequency::decode(a.payload) {
                        self.frequency = Some(v);
                    }
                },
                Nl80211Bss::BssBeaconInterval => {
                    if let Ok(v) = BeaconInterval::decode(a.payload) {
                        self.beacon_interval = Some(v);
                    }
                },
                Nl80211Bss::BssSeenMsAgo => {
                    if let Ok(v) = SeenMsAgo::decode(a.payload) {
                        self.seen_ms_ago = Some(v);
                    }
                },
                Nl80211Bss::BssStatus => {
                    if let Ok(v) = Status::decode(a.payload) {
                        self.status = Some(v);
                    }
                },
                Nl80211Bss::BssSignalMbm => {
                    if let Ok(v) = BssSignal::decode(a.payload) {
                        self.signal = Some(v);
                    }
                },
                _ => {},
            }
            j = j + 1;
        }
        assert(sub@.subrange(0, m as int) =~= sub@);
    }

    /// Maps a scan reply's top level to a BSS: every BSS attribute is
    /// descended into, and its known sub-attributes are read; unknown tags and
    /// payloads of the wrong length are skipped, and the last well-formed
    /// value of a field wins. Fails with `TruncatedFrame` exactly when a BSS
    /// attribute's payload does not split into attributes.
    pub fn from_handle(handle: &AttrHandle) -> (r: Result<Bss, Nl80211Error>)
        ensures
            match bss_sub_attrs(handle@) {
                Some(sub) => r matches Ok(b) && bss_matches(b, sub),
                None => r == Err::<Bss, Nl80211Error>(Nl80211Error::TruncatedFrame),
            },
    {
        let mut b = Bss::new();
        let n = handle.len();
        let mut i: usize = 0;
        let ghost mut sub: Seq<AttrModel> = Seq::empty();
        assert(handle@.subrange(0, 0) =~= Seq::<AttrModel>::empty());
        while i < n
            invariant
                i <= n,
                n == handle@.len(),
                nested(handle@.subrange(0, i as int), 47) == Some(sub),
                bss_matches(b, sub),
            decreases n - i,
        {
            let attr = handle.get(i);
            proof {
                lemma_nested_step(handle@, i as int, 47);
                Nl80211Attr::lemma_round_trip(attr.nla_type);
            }
            if let Nl80211Attr::AttrBss = Nl80211Attr::from_u16(attr.nla_type) {
                match attr.get_nested_attributes() {
                    Ok(h) => {
                        b.apply_sub(&h, Ghost(sub));
                        proof {
                            sub = sub + h@;
                        }
                    },
                    Err(e) => {
                        proof {
                            lemma_nested_prefix_fails(handle@, i + 1, 47);
                        }
                        return Err(e);
                    },
                }
            }
            i = i + 1;
        }
        assert(handle@.subrange(0, n as int) =~= handle@);
        Ok(b)
    }

    /// Decodes the attribute buffer of a scan reply; fails with
    /// `TruncatedFrame` when the buffer, or a BSS attribute in it, does not
    /// split into attributes.
    pub fn try_from(buf: &[u8]) -> (r: Result<Bss, Nl80211Error>)
        ensures
            match tlv_attrs(buf@) {
                Some(a) => match bss_sub_attrs(a) {
                    Some(sub) => r matches Ok(b) && bss_matches(b, sub),
                    None => r == Err::<Bss, Nl80211Error>(Nl80211Error::TruncatedFrame),
                },
                None => r == Err::<Bss, Nl80211Error>(Nl80211Error::TruncatedFrame),
            },
    {
        match AttrHandle::parse(buf) {
            Ok(h) => Bss::from_handle(&h),
            Err(e) => Err(e),
        }
    }

    /// The report: one "field: value unit" line per present field, in field
    /// order.
    pub fn to_string(&self) -> (r: String)
        ensures
            r@ == join_lines(bss_lines(*self)),
    {
        let mut j = LineJoiner::new();
        j.add(
            match &self.bssid {
                Some(x) => Some(x.to_string()),
                None => None,
            },
        );
        j.add(
            match &self.frequency {
                Some(x) => Some(x.to_string()),
                None => None,
            },
        );
        j.add(
            match &self.beacon_interval {
                Some(x) => Some(x.to_string()),
                None => None,
            },
        );
        j.add(
            match &self.seen_ms_ago {
                Some(x) => Some(x.to_string()),
                None => None,
            },
        );
        j.add(
            match &self.status {
                Some(x) => Some(x.to_string()),
                None => None,
            },
        );
        j.add(
            match &self.signal {
                Some(x) => Some(x.to_string()),
                None => None,
            },
        );
        j.finish()
    }
}

impl Default for Bss {
    fn default() -> (r: Bss)
        ensures
            bss_is_empty(r),
    {
        Bss::new()
    }
}

} // verus!
