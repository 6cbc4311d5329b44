use crate::attr::{tlv_attrs, AttrHandle, AttrModel};
use crate::consts::Nl80211Attr;
use crate::error::Nl80211Error;
use crate::nl80211traits::{
    decoded_field, lemma_decoded_field_absent, lemma_decoded_field_step, opt_view, NlPayloadDecode,
};
use crate::text::{add_line, join_lines, line_of, LineJoiner};
use crate::types::{Channel, Device, Essid, Frequency, Mac, Name, Phy, Power};
use vstd::prelude::*;

verus! {

/// A wireless interface, as a get-interface reply describes it.
#[derive(Debug, Clone, PartialEq, Eq)]
pub struct Interface {
    /// Raw interface index payload, used to target further queries.
    pub index: Option<Vec<u8>>,
    pub ssid: Option<Essid>,
    pub mac: Option<Mac>,
    pub name: Option<Name>,
    pub frequency: Option<Frequency>,
    pub channel: Option<Channel>,
    pub power: Option<Power>,
    pub phy: Option<Phy>,
    pub device: Option<Device>,
}

/// The wire tag of a top-level attribute.
pub open spec fn tag(a: Nl80211Attr) -> u16 {
    a.spec_to_u16()
}

/// `r` holds, for each field, the value of the last attribute of `attrs` that
/// carries it with a payload of the right length.
pub open spec fn interface_matches(r: Interface, attrs: Seq<AttrModel>) -> bool {
    &&& opt_view(r.index) == decoded_field::<Vec<u8>>(attrs, tag(Nl80211Attr::AttrIfindex))
    &&& opt_view(r.ssid) == decoded_field::<Essid>(attrs, tag(Nl80211Attr::AttrSsid))
    &&& opt_view(r.mac) == decoded_field::<Mac>(attrs, tag(Nl80211Attr::AttrMac))
    &&& opt_view(r.name) == decoded_field::<Name>(attrs, tag(Nl80211Attr::AttrIfname))
    &&& opt_view(r.frequency) == decoded_field::<Frequency>(
        attrs,
        tag(Nl80211Attr::AttrWiphyFreq),
    )
    &&& opt_view(r.channel) == decoded_field::<Channel>(attrs, tag(Nl80211Attr::AttrChannelWidth))
    &&& opt_view(r.power) == decoded_field::<Power>(
        attrs,
        tag(Nl80211Attr::AttrWiphyTxPowerLevel),
    )
    &&& opt_view(r.phy) == decoded_field::<Phy>(attrs, tag(Nl80211Attr::AttrWiphy))
    &&& opt_view(r.device) == decoded_field::<Device>(attrs, tag(Nl80211Attr::AttrWdev))
}

/// Every field is absent.
pub open spec fn interface_is_empty(r: Interface) -> bool {
    &&& r.index is None
    &&& r.ssid is None
    &&& r.mac is None
    &&& r.name is None
    &&& r.frequency is None
    &&& r.channel is None
    &&& r.power is None
    &&& r.phy is None
    &&& r.device is None
}

/// The report lines of an interface, one per present field, in field order.
pub open spec fn interface_lines(r: Interface) -> Seq<Seq<char>> {
    let l = Seq::<Seq<char>>::empty();
    let l = add_line(
        l,
        match r.ssid {
            Some(x) => Some("essid : "@ + x.spec_value_text() + ""@),
            None => None,
        },
    );
    let l = add_line(
        l,
        match r.mac {
            Some(x) => Some("mac : "@ + x.spec_value_text() + ""@),
            None => None,
        },
    );
    let l = add_line(
        l,
        match r.name {
            Some(x) => Some("interface : "@ + x.spec_value_text() + ""@),
            None => None,
        },
    );
    let l = add_line(
        l,
        match r.frequency {
            Some(x) => Some("frequency : "@ + x.spec_value_text() + " Ghz"@),
            None => None,
        },
    );
    let l = add_line(
        l,
        match r.channel {
            Some(x) => Some("channel : "@ + x.spec_value_text() + ""@),
            None => None,
        },
    );
    let l = add_line(
        l,
        match r.power {
            Some(x) => Some("power : "@ + x.spec_value_text() + " dBm"@),
            None => None,
        },
    );
    let l = add_line(
        l,
        match r.phy {
            Some(x) => Some("phy : "@ + x.spec_value_text() + ""@),
            None => None,
        },
    );
    add_line(
        l,
        match r.device {
            Some(x) => Some("device : "@ + x.spec_value_text() + ""@),
            None => None,
        },
    )
}

/// A reply whose attributes all carry tags outside the catalogue decodes to an
/// interface with every field absent.
pub proof fn lemma_unknown_tags_interface(attrs: Seq<AttrModel>, r: Interface)
    requires
        forall|i: int|
            0 <= i < attrs.len() ==> Nl80211Attr::spec_from_u16(
                #[trigger] attrs[i].0,
            ) is UnrecognizedVariant,
        interface_matches(r, attrs),
    ensures
        interface_is_empty(r),
{
    lemma_decoded_field_absent::<Vec<u8>>(attrs, 3);
    lemma_decoded_field_absent::<Essid>(attrs, 52);
    lemma_decoded_field_absent::<Mac>(attrs, 6);
    lemma_decoded_field_absent::<Name>(attrs, 4);
    lemma_decoded_field_absent::<Frequency>(attrs, 38);
    lemma_decoded_field_absent::<Channel>(attrs, 159);
    lemma_decoded_field_absent::<Power>(attrs, 98);
    lemma_decoded_field_absent::<Phy>(attrs, 1);
    lemma_decoded_field_absent::<Device>(attrs, 153);
}

impl Interface {
    /// The index, when the reply carried it.
    pub fn index(&self) -> (r: &Option<Vec<u8>>)
        ensures
            *r == self.index,
    {
        &self.index
    }

    /// The ssid, when the reply carried it.
    pub fn ssid(&self) -> (r: &Option<Essid>)
        ensures
            *r == self.ssid,
    {
        &self.ssid
    }

    /// The mac, when the reply carried it.
    pub fn mac(&self) -> (r: &Option<Mac>)
        ensures
            *r == self.mac,
    {
        &self.mac
    }

    /// The name, when the reply carried it.
    pub fn name(&self) -> (r: &Option<Name>)
        ensures
            *r == self.name,
    {
        &self.name
    }

    /// The frequency, when the reply carried it.
    pub fn frequency(&self) -> (r: &Option<Frequency>)
        ensures
            *r == self.frequency,
    {
        &self.frequency
    }

    /// The channel, when the reply carried it.
    pub fn channel(&self) -> (r: &Option<Channel>)
        ensures
            *r == self.channel,
    {
        &self.channel
    }

    /// The power, when the reply carried it.
    pub fn power(&self) -> (r: &Option<Power>)
        ensures
            *r == self.power,
    {
        &self.power
    }

    /// The phy, when the reply carried it.
    pub fn phy(&self) -> (r: &Option<Phy>)
        ensures
            *r == self.phy,
    {
        &self.phy
    }

    /// The device, when the reply carried it.
    pub fn device(&self) -> (r: &Option<Device>)
        ensures
            *r == self.device,
    {
        &self.device
    }

    /// An interface with every field absent.
    pub fn new() -> (r: Interface)
        ensures
            interface_is_empty(r),
    {
        Interface {
            index: None,
            ssid: None,
            mac: None,
            name: None,
            frequency: None,
            channel: None,
            power: None,
            phy: None,
            device: None,
        }
    }

    /// Maps one level of attributes to an interface. Unknown tags are skipped,
    /// and so is a field whose payload has the wrong length; when a field
    /// comes more than once, the last well-formed one wins.
    pub fn from_handle(handle: &AttrHandle) -> (r: Interface)
        ensures
            interface_matches(r, handle@),
    {
        let mut it = Interface::new();
        let n = handle.len();
        let mut i: usize = 0;
        while i < n
            invariant
                i <= n,
                n == handle@.len(),
                interface_matches(it, handle@.subrange(0, i as int)),
            decreases n - i,
        {
            let attr = handle.get(i);
            let t = attr.nla_type;
            proof {
                Nl80211Attr::lemma_round_trip(t);
                lemma_decoded_field_step::<Vec<u8>>(handle@, i as int, 3);
                lemma_decoded_field_step::<Essid>(handle@, i as int, 52);
                lemma_decoded_field_step::<Mac>(handle@, i as int, 6);
                lemma_decoded_field_step::<Name>(handle@, i as int, 4);
                lemma_decoded_field_step::<Frequency>(handle@, i as int, 38);
                lemma_decoded_field_step::<Channel>(handle@, i as int, 159);
                lemma_decoded_field_step::<Power>(handle@, i as int, 98);
                lemma_decoded_field_step::<Phy>(handle@, i as int, 1);
                lemma_decoded_field_step::<Device>(handle@, i as int, 153);
            }
            match Nl80211Attr::from_u16(t) {
                Nl80211Attr::AttrIfindex => {
                    if let Ok(v) = <Vec<u8> as NlPayloadDecode>::decode(attr.payload) {
                        it.index = Some(v);
                    }
                },
                Nl80211Attr::AttrSsid => {
                    if let Ok(v) = Essid::decode(attr.payload) {
                        it.ssid = Some(v);
                    }
                },
                Nl80211Attr::AttrMac => {
                    if let Ok(v) = Mac::decode(attr.payload) {
                        it.mac = Some(v);
                    }
                },
                Nl80211Attr::AttrIfname => {
                    if let Ok(v) = Name::decode(attr.payload) {
                        it.name = Some(v);
                    }
                },
                Nl80211Attr::AttrWiphyFreq => {
                    if let Ok(v) = Frequency::decode(attr.payload) {
                        it.frequency = Some(v);
                    }
                },
                Nl80211Attr::AttrChannelWidth => {
                    if let Ok(v) = Channel::decode(attr.payload) {
                        it.channel = Some(v);
                    }
                },
                Nl80211Attr::AttrWiphyTxPowerLevel => {
                    if let Ok(v) = Power::decode(attr.payload) {
                        it.power = Some(v);
                    }
                },
                Nl80211Attr::AttrWiphy => {
                    if let Ok(v) = Phy::decode(attr.payload) {
                        it.phy = Some(v);
                    }
                },
                Nl80211Attr::AttrWdev => {
                    if let Ok(v) = Device::decode(attr.payload) {
                        it.device = Some(v);
                    }
                },
                _ => {},
            }
            i = i + 1;
        }
        proof {
            assert(handle@.subrange(0, n as int) =~= handle@);
        }
        it
    }

    /// Decodes the attribute buffer of a get-interface reply. Fails with
    /// `TruncatedFrame` exactly when the buffer does not split into attributes.
    pub fn try_from(buf: &[u8]) -> (r: Result<Interface, Nl80211Error>)
        ensures
            match tlv_attrs(buf@) {
                Some(a) => r matches Ok(i) && interface_matches(i, a),
                None => r == Err::<Interface, Nl80211Error>(Nl80211Error::TruncatedFrame),
            },
    {
        match AttrHandle::parse(buf) {
            Ok(h) => Ok(Interface::from_handle(&h)),
            Err(e) => Err(e),
        }
    }

    /// The report: one "field : value" line per present field, in field order.
    pub fn to_string(&self) -> (r: String)
        ensures
            r@ == join_lines(interface_lines(*self)),
    {
        let mut j = LineJoiner::new();
        j.add(
            line_of(
                "essid : ",
                match &self.ssid {
                    Some(x) => Some(x.value_text()),
                    None => None,
                },
                "",
            ),
        );
        j.add(
            line_of(
                "mac : ",
                match &self.mac {
                    Some(x) => Some(x.value_text()),
                    None => None,
                },
                "",
            ),
        );
        j.add(
            line_of(
                "interface : ",
                match &self.name {
                    Some(x) => Some(x.value_text()),
                    None => None,
                },
                "",
            ),
        );
        j.add(
            line_of(
                "frequency : ",
                match &self.frequency {
                    Some(x) => Some(x.value_text()),
                    None => None,
                },
                " Ghz",
            ),
        );
        j.add(
            line_of(
                "channel : ",
                match &self.channel {
                    Some(x) => Some(x.value_text()),
                    None => None,
                },
                "",
            ),
        );
        j.add(
            line_of(
                "power : ",
                match &self.power {
                    Some(x) => Some(x.value_text()),
                    None => None,
                },
                " dBm",
            ),
        );
        j.add(
            line_of(
                "phy : ",
                match &self.phy {
                    Some(x) => Some(x.value_text()),
                    None => None,
                },
                "",
            ),
        );
        j.add(
            line_of(
                "device : ",
                match &self.device {
                    Some(x) => Some(x.value_text()),
                    None => None,
                },
                "",
            ),
        );
        j.finish()
    }
}

impl Default for Interface {
    fn default() -> (r: Interface)
        ensures
            interface_is_empty(r),
    {
        Interface::new()
    }
}

} // verus!
