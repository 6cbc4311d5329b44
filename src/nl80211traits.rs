use crate::attr::{tlv_attrs, AttrModel};
use crate::error::Nl80211Error;
use crate::parse_attr::length_mismatch;
use vstd::prelude::*;
use vstd::slice::slice_to_vec;

verus! {

/// Decoding of one attribute payload into a typed scalar.
pub trait NlPayloadDecode: View + Sized {
    /// What a payload decodes to: the value, or the error that refuses it.
    spec fn spec_decode(payload: Seq<u8>) -> Result<Self::V, Nl80211Error>;

    /// The exact payload length the type takes, or `None` when it takes any.
    spec fn payload_width() -> Option<nat>;

    /// Decodes a payload; the result is exactly `spec_decode` of its bytes.
    /// For a fixed-width type, a payload of that width always decodes, and
    /// any other length fails with a length mismatch naming both lengths.
    fn decode(payload: &[u8]) -> (r: Result<Self, Nl80211Error>)
        ensures
            match Self::payload_width() {
                Some(w) => (r is Ok <==> payload@.len() == w) && (payload@.len() != w ==> r
                    == Err::<Self, Nl80211Error>(length_mismatch(w, payload@.len()))),
                None => r is Ok,
            },
            match r {
                Ok(v) => Self::spec_decode(payload@) == Ok::<Self::V, Nl80211Error>(v@),
                Err(e) => Self::spec_decode(payload@) == Err::<Self::V, Nl80211Error>(e),
            },
    ;
}

impl NlPayloadDecode for Vec<u8> {
    open spec fn payload_width() -> Option<nat> {
        None
    }

    open spec fn spec_decode(payload: Seq<u8>) -> Result<Seq<u8>, Nl80211Error> {
        Ok(payload)
    }

    fn decode(payload: &[u8]) -> (r: Result<Vec<u8>, Nl80211Error>) {
        Ok(slice_to_vec(payload))
    }
}

/// The value of the last attribute tagged `tag` whose payload decodes as `T`;
/// attributes with other tags, or whose payload `T` refuses, are passed over.
pub open spec fn decoded_field<T: NlPayloadDecode>(attrs: Seq<AttrModel>, tag: u16) -> Option<T::V>
    decreases attrs.len(),
{
    if attrs.len() == 0 {
        None
    } else {
        match T::spec_decode(attrs.last().1) {
            Ok(v) if attrs.last().0 == tag => Some(v),
            _ => decoded_field::<T>(attrs.drop_last(), tag),
        }
    }
}

/// The attributes nested in every attribute tagged `tag`, one level down and in
/// order; `None` when one of those payloads does not decode.
pub open spec fn nested(attrs: Seq<AttrModel>, tag: u16) -> Option<Seq<AttrModel>>
    decreases attrs.len(),
{
    if attrs.len() == 0 {
        Some(seq![])
    } else {
        match nested(attrs.drop_last(), tag) {
            Some(prev) => if attrs.last().0 == tag {
                match tlv_attrs(attrs.last().1) {
                    Some(c) => Some(prev + c),
                    None => None,
                }
            } else {
                Some(prev)
            },
            None => None,
        }
    }
}

/// The value of a field that may be absent.
pub open spec fn opt_view<T: View>(o: Option<T>) -> Option<T::V> {
    match o {
        Some(t) => Some(t@),
        None => None,
    }
}

/// A later attribute overrides an earlier one.
pub proof fn lemma_decoded_field_append<T: NlPayloadDecode>(
    x: Seq<AttrModel>,
    y: Seq<AttrModel>,
    tag: u16,
)
    ensures
        decoded_field::<T>(x + y, tag) == match decoded_field::<T>(y, tag) {
            Some(v) => Some(v),
            None => decoded_field::<T>(x, tag),
        },
    decreases y.len(),
{
    if y.len() == 0 {
        assert(x + y =~= x);
    } else {
        assert((x + y).drop_last() =~= x + y.drop_last());
        assert((x + y).last() == y.last());
        lemma_decoded_field_append::<T>(x, y.drop_last(), tag);
    }
}

/// Nested attributes of two runs of siblings are those of each run, in order.
pub proof fn lemma_nested_append(x: Seq<AttrModel>, y: Seq<AttrModel>, tag: u16)
    ensures
        nested(x + y, tag) == match (nested(x, tag), nested(y, tag)) {
            (Some(a), Some(b)) => Some(a + b),
            _ => None::<Seq<AttrModel>>,
        },
    decreases y.len(),
{
    if y.len() == 0 {
        assert(x + y =~= x);
        if let Some(a) = nested(x, tag) {
            assert(a + seq![] =~= a);
        }
    } else {
        assert((x + y).drop_last() =~= x + y.drop_last());
        assert((x + y).last() == y.last());
        lemma_nested_append(x, y.drop_last(), tag);
        match (nested(x, tag), nested(y.drop_last(), tag)) {
            (Some(a), Some(b)) => {
                if y.last().0 == tag {
                    if let Some(c) = tlv_attrs(y.last().1) {
                        assert(a + b + c =~= a + (b + c));
                    }
                }
            },
            _ => {},
        }
    }
}

/// The field as it stands after one more attribute.
pub proof fn lemma_decoded_field_step<T: NlPayloadDecode>(s: Seq<AttrModel>, i: int, tag: u16)
    requires
        0 <= i < s.len(),
    ensures
        decoded_field::<T>(s.subrange(0, i + 1), tag) == match T::spec_decode(s[i].1) {
            Ok(v) if s[i].0 == tag => Some(v),
            _ => decoded_field::<T>(s.subrange(0, i), tag),
        },
{
    assert(s.subrange(0, i + 1).drop_last() =~= s.subrange(0, i));
    assert(s.subrange(0, i + 1).last() == s[i]);
}

/// The nested attributes as they stand after one more sibling.
pub proof fn lemma_nested_step(s: Seq<AttrModel>, i: int, tag: u16)
    requires
        0 <= i < s.len(),
    ensures
        nested(s.subrange(0, i + 1), tag) == match nested(s.subrange(0, i), tag) {
            Some(prev) => if s[i].0 == tag {
                match tlv_attrs(s[i].1) {
                    Some(c) => Some(prev + c),
                    None => None,
                }
            } else {
                Some(prev)
            },
            None => None,
        },
{
    assert(s.subrange(0, i + 1).drop_last() =~= s.subrange(0, i));
    assert(s.subrange(0, i + 1).last() == s[i]);
}

/// Once a prefix of the siblings fails to nest, the whole run does.
pub proof fn lemma_nested_prefix_fails(s: Seq<AttrModel>, i: int, tag: u16)
    requires
        0 <= i <= s.len(),
        nested(s.subrange(0, i), tag) is None,
    ensures
        nested(s, tag) is None,
{
    lemma_nested_append(s.subrange(0, i), s.subrange(i, s.len() as int), tag);
    assert(s.subrange(0, i) + s.subrange(i, s.len() as int) =~= s);
}

/// Splitting the siblings splits their nested attributes.
pub proof fn lemma_nested_split(s: Seq<AttrModel>, i: int, tag: u16)
    requires
        0 <= i <= s.len(),
    ensures
        nested(s, tag) == match (
            nested(s.subrange(0, i), tag),
            nested(s.subrange(i, s.len() as int), tag),
        ) {
            (Some(a), Some(b)) => Some(a + b),
            _ => None::<Seq<AttrModel>>,
        },
{
    lemma_nested_append(s.subrange(0, i), s.subrange(i, s.len() as int), tag);
    assert(s.subrange(0, i) + s.subrange(i, s.len() as int) =~= s);
}

/// No attribute carries `tag`: the field is absent.
pub proof fn lemma_decoded_field_absent<T: NlPayloadDecode>(attrs: Seq<AttrModel>, tag: u16)
    requires
        forall|i: int| 0 <= i < attrs.len() ==> attrs[i].0 != tag,
    ensures
        decoded_field::<T>(attrs, tag) is None,
    decreases attrs.len(),
{
    if attrs.len() > 0 {
        assert(attrs.last() == attrs[attrs.len() - 1]);
        lemma_decoded_field_absent::<T>(attrs.drop_last(), tag);
    }
}

/// No attribute carries `tag`: nothing is nested under it.
pub proof fn lemma_nested_absent(attrs: Seq<AttrModel>, tag: u16)
    requires
        forall|i: int| 0 <= i < attrs.len() ==> attrs[i].0 != tag,
    ensures
        nested(attrs, tag) == Some(Seq::<AttrModel>::empty()),
    decreases attrs.len(),
{
    if attrs.len() > 0 {
        assert(attrs.last() == attrs[attrs.len() - 1]);
        lemma_nested_absent(attrs.drop_last(), tag);
    }
}

} // verus!
