use crate::error::Nl80211Error;
use vstd::prelude::*;
use vstd::slice::slice_subrange;

verus! {

/// One attribute as a value: its tag and its payload bytes.
pub type AttrModel = (u16, Seq<u8>);

/// Size of an attribute header: two bytes of length, two bytes of tag.
pub const NLA_HDRLEN: usize = 4;

/// Largest payload an attribute can carry (its length field is 16 bits).
pub const NLA_MAX_PAYLOAD: usize = 65531;

/// `n` rounded up to a multiple of four.
pub open spec fn align4(n: nat) -> nat {
    ((n + 3) / 4) * 4
}

/// The length field of the header at the front of `b`.
pub open spec fn header_len(b: Seq<u8>) -> nat {
    b[0] as nat + 256 * (b[1] as nat)
}

/// The tag field of the header at the front of `b`.
pub open spec fn header_tag(b: Seq<u8>) -> u16 {
    (b[2] as nat + 256 * (b[3] as nat)) as u16
}

/// Where the attribute at the front of `b` ends, padding included; a last
/// attribute may omit its padding.
pub open spec fn next_offset(b: Seq<u8>) -> nat {
    if align4(header_len(b)) < b.len() {
        align4(header_len(b))
    } else {
        b.len()
    }
}

/// The sibling attributes that a buffer holds, in order, or `None` when a
/// header is cut short or claims more bytes than remain.
pub open spec fn tlv_attrs(b: Seq<u8>) -> Option<Seq<AttrModel>>
    decreases b.len(),
{
    if b.len() == 0 {
        Some(seq![])
    } else if b.len() < 4 {
        None
    } else if header_len(b) < 4 || header_len(b) > b.len() {
        None
    } else {
        match tlv_attrs(b.subrange(next_offset(b) as int, b.len() as int)) {
            Some(rest) => Some(
                seq![(header_tag(b), b.subrange(4, header_len(b) as int))] + rest,
            ),
            None => None,
        }
    }
}

/// Two little-endian bytes of `n`.
pub open spec fn u16_le(n: nat) -> Seq<u8> {
    seq![(n % 256) as u8, ((n / 256) % 256) as u8]
}

/// `n` zero bytes.
pub open spec fn zeros(n: nat) -> Seq<u8> {
    Seq::new(n, |i: int| 0u8)
}

/// The wire form of one attribute, padded with zeros to a multiple of four.
pub open spec fn encode_attr(a: AttrModel) -> Seq<u8> {
    u16_le(a.1.len() + 4) + u16_le(a.0 as nat) + a.1 + zeros(
        (align4(a.1.len() + 4) - (a.1.len() + 4)) as nat,
    )
}

/// The wire form of a sequence of sibling attributes.
pub open spec fn encode_attrs(attrs: Seq<AttrModel>) -> Seq<u8>
    decreases attrs.len(),
{
    if attrs.len() == 0 {
        seq![]
    } else {
        encode_attr(attrs[0]) + encode_attrs(attrs.drop_first())
    }
}

/// Every payload fits the 16-bit length field.
pub open spec fn encodable(attrs: Seq<AttrModel>) -> bool {
    forall|i: int| 0 <= i < attrs.len() ==> attrs[i].1.len() <= NLA_MAX_PAYLOAD
}

proof fn lemma_encode_attr_header(a: AttrModel)
    requires
        a.1.len() <= NLA_MAX_PAYLOAD,
    ensures
        encode_attr(a).len() == align4(a.1.len() + 4),
        encode_attr(a).len() >= 4,
        header_len(encode_attr(a)) == a.1.len() + 4,
        header_tag(encode_attr(a)) == a.0,
        encode_attr(a).subrange(4, a.1.len() + 4 as int) == a.1,
{
    let e = encode_attr(a);
    let n = a.1.len() + 4;
    assert((n % 256) + 256 * ((n / 256) % 256) == n);
    assert((a.0 as nat % 256) + 256 * ((a.0 as nat / 256) % 256) == a.0 as nat);
    assert(e.subrange(4, n as int) =~= a.1);
}

proof fn lemma_front_attr(a: AttrModel, rest: Seq<u8>)
    requires
        a.1.len() <= NLA_MAX_PAYLOAD,
    ensures
        ({
            let b = encode_attr(a) + rest;
            &&& b.len() >= 4
            &&& header_len(b) == a.1.len() + 4
            &&& header_len(b) <= b.len()
            &&& header_tag(b) == a.0
            &&& b.subrange(4, header_len(b) as int) == a.1
            &&& b.subrange(next_offset(b) as int, b.len() as int) == rest
        }),
{
    let e = encode_attr(a);
    let b = e + rest;
    lemma_encode_attr_header(a);
    assert(b[0] == e[0] && b[1] == e[1] && b[2] == e[2] && b[3] == e[3]);
    assert(b.subrange(4, header_len(b) as int) =~= e.subrange(4, a.1.len() + 4 as int));
    assert(b.subrange(e.len() as int, b.len() as int) =~= rest);
}

/// Encoding a sequence of attributes and decoding it again gives the same
/// sequence back.
pub proof fn lemma_decode_encode(attrs: Seq<AttrModel>)
    requires
        encodable(attrs),
    ensures
        tlv_attrs(encode_attrs(attrs)) == Some(attrs),
    decreases attrs.len(),
{
    if attrs.len() > 0 {
        let rest = attrs.drop_first();
        assert(encodable(rest)) by {
            assert forall|i: int| 0 <= i < rest.len() implies rest[i].1.len()
                <= NLA_MAX_PAYLOAD by {
                assert(rest[i] == attrs[i + 1]);
            }
        }
        lemma_decode_encode(rest);
        lemma_front_attr(attrs[0], encode_attrs(rest));
        assert(seq![attrs[0]] + rest =~= attrs);
    }
}

/// A buffer of whole attributes followed by one to three bytes (a header cut
/// short) does not decode: the decoder reports a truncated frame for it.
pub proof fn lemma_truncated_header(attrs: Seq<AttrModel>, tail: Seq<u8>)
    requires
        encodable(attrs),
        0 < tail.len() < 4,
    ensures
        tlv_attrs(encode_attrs(attrs) + tail) is None,
    decreases attrs.len(),
{
    if attrs.len() == 0 {
        assert(encode_attrs(attrs) + tail =~= tail);
    } else {
        let rest = attrs.drop_first();
        assert(encodable(rest)) by {
            assert forall|i: int| 0 <= i < rest.len() implies rest[i].1.len()
                <= NLA_MAX_PAYLOAD by {
                assert(rest[i] == attrs[i + 1]);
            }
        }
        lemma_truncated_header(rest, tail);
        lemma_front_attr(attrs[0], encode_attrs(rest) + tail);
        assert(encode_attrs(attrs) + tail =~= encode_attr(attrs[0]) + (encode_attrs(rest) + tail));
    }
}

/// One attribute of a buffer: its tag, and its payload as a view into the
/// buffer.
pub struct Nlattr<'a> {
    pub nla_type: u16,
    pub payload: &'a [u8],
}

impl<'a> View for Nlattr<'a> {
    type V = AttrModel;

    open spec fn view(&self) -> AttrModel {
        (self.nla_type, self.payload@)
    }
}

/// The values of a sequence of attributes.
pub open spec fn attrs_view<'a>(v: Seq<Nlattr<'a>>) -> Seq<AttrModel> {
    v.map_values(|a: Nlattr<'a>| a@)
}

/// `prefix` put in front of a decoded sequence, if there is one.
pub open spec fn prepend(prefix: Seq<AttrModel>, o: Option<Seq<AttrModel>>) -> Option<
    Seq<AttrModel>,
> {
    match o {
        Some(t) => Some(prefix + t),
        None => None,
    }
}

/// The sibling attributes of one nesting level, in buffer order.
pub struct AttrHandle<'a> {
    attrs: Vec<Nlattr<'a>>,
}

impl<'a> View for AttrHandle<'a> {
    type V = Seq<AttrModel>;

    closed spec fn view(&self) -> Seq<AttrModel> {
        attrs_view(self.attrs@)
    }
}

impl<'a> AttrHandle<'a> {
    /// Splits a buffer into its sibling attributes, stepping over the padding
    /// between them. Fails with `TruncatedFrame` exactly when a header is cut
    /// short or claims more bytes than remain.
    pub fn parse(buf: &'a [u8]) -> (r: Result<AttrHandle<'a>, Nl80211Error>)
        ensures
            match r {
                Ok(h) => tlv_attrs(buf@) == Some(h@),
                Err(e) => tlv_attrs(buf@) is None && e == Nl80211Error::TruncatedFrame,
            },
    {
        let len = buf.len();
        let mut out: Vec<Nlattr<'a>> = Vec::new();
        let mut pos: usize = 0;
        assert(buf@.subrange(0, len as int) =~= buf@);
        assert(attrs_view(out@) =~= Seq::<AttrModel>::empty());
        assert(Seq::<AttrModel>::empty() + tlv_attrs(buf@).unwrap_or(seq![]) =~= tlv_attrs(
            buf@,
        ).unwrap_or(seq![]));
        while pos < len
            invariant
                pos <= len,
                len == buf@.len(),
                tlv_attrs(buf@) == prepend(
                    attrs_view(out@),
                    tlv_attrs(buf@.subrange(pos as int, len as int)),
                ),
            decreases len - pos,
        {
            let ghost rest = buf@.subrange(pos as int, len as int);
            if len - pos < NLA_HDRLEN {
                return Err(Nl80211Error::TruncatedFrame);
            }
            let nla_len = buf[pos] as usize + 256 * (buf[pos + 1] as usize);
            let nla_type = (buf[pos + 2] as u32 + 256 * (buf[pos + 3] as u32)) as u16;
            assert(nla_len == header_len(rest));
            assert(nla_type == header_tag(rest));
            if nla_len < NLA_HDRLEN || nla_len > len - pos {
                return Err(Nl80211Error::TruncatedFrame);
            }
            let payload = slice_subrange(buf, pos + NLA_HDRLEN, pos + nla_len);
            let aligned = (nla_len + 3) / 4 * 4;
            let step = if aligned < len - pos {
                aligned
            } else {
                len - pos
            };
            let ghost prev = out@;
            out.push(Nlattr { nla_type, payload });
            proof {
                assert(step == next_offset(rest));
                assert(payload@ =~= rest.subrange(4, header_len(rest) as int));
                assert(rest.subrange(step as int, rest.len() as int) =~= buf@.subrange(
                    (pos + step) as int,
                    len as int,
                ));
                assert(attrs_view(out@) =~= attrs_view(prev) + seq![(nla_type, payload@)]);
                let later = tlv_attrs(buf@.subrange((pos + step) as int, len as int));
                match later {
                    Some(t) => {
                        assert(attrs_view(prev) + (seq![(nla_type, payload@)] + t)
                            =~= attrs_view(out@) + t);
                    },
                    None => {},
                }
            }
            pos = pos + step;
        }
        proof {
            assert(buf@.subrange(len as int, len as int) =~= Seq::<u8>::empty());
            assert(attrs_view(out@) + Seq::<AttrModel>::empty() =~= attrs_view(out@));
        }
        Ok(AttrHandle { attrs: out })
    }

    /// How many attributes this level holds.
    pub fn len(&self) -> (r: usize)
        ensures
            r == self@.len(),
    {
        self.attrs.len()
    }

    /// The attribute at position `i`.
    pub fn get(&self, i: usize) -> (r: &Nlattr<'a>)
        requires
            i < self@.len(),
        ensures
            r@ == self@[i as int],
    {
        &self.attrs[i]
    }
}

impl<'a> Nlattr<'a> {
    /// Reads this attribute's payload as a nested level of attributes.
    pub fn get_nested_attributes(&self) -> (r: Result<AttrHandle<'a>, Nl80211Error>)
        ensures
            match r {
                Ok(h) => tlv_attrs(self.payload@) == Some(h@),
                Err(e) => tlv_attrs(self.payload@) is None && e == Nl80211Error::TruncatedFrame,
            },
    {
        AttrHandle::parse(self.payload)
    }
}

/// Appends the wire form of one attribute, padding included.
pub fn push_attr(out: &mut Vec<u8>, nla_type: u16, payload: &[u8])
    requires
        payload@.len() <= NLA_MAX_PAYLOAD,
    ensures
        final(out)@ == old(out)@ + encode_attr((nla_type, payload@)),
{
    let ghost start = out@;
    let total = payload.len() + NLA_HDRLEN;
    out.push((total % 256) as u8);
    out.push(((total / 256) % 256) as u8);
    out.push((nla_type % 256) as u8);
    out.push(((nla_type / 256) % 256) as u8);
    let ghost with_header = out@;
    let mut i: usize = 0;
    while i < payload.len()
        invariant
            i <= payload@.len(),
            out@ == with_header + payload@.subrange(0, i as int),
        decreases payload@.len() - i,
    {
        out.push(payload[i]);
        assert(out@ =~= with_header + payload@.subrange(0, i + 1));
        i = i + 1;
    }
    let ghost with_payload = out@;
    let pad = (total + 3) / 4 * 4 - total;
    let mut j: usize = 0;
    while j < pad
        invariant
            j <= pad,
            out@ == with_payload + zeros(j as nat),
        decreases pad - j,
    {
        out.push(0u8);
        assert(out@ =~= with_payload + zeros((j + 1) as nat));
        j = j + 1;
    }
    proof {
        assert(payload@.subrange(0, payload@.len() as int) =~= payload@);
        assert(out@ =~= start + encode_attr((nla_type, payload@)));
    }
}

} // verus!
