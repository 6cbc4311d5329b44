use crate::attr::{encode_attr, push_attr, tlv_attrs};
use crate::bss::{bss_matches, bss_sub_attrs, Bss};
use crate::consts::{Nl80211Attr, Nl80211Cmd, NL_80211_GENL_VERSION};
use crate::error::Nl80211Error;
use crate::interface::{interface_matches, Interface};
use crate::parse_attr::{decode_i32, le_signed};
use crate::station::{station_levels, station_matches, Station};
use vstd::prelude::*;
use vstd::slice::slice_subrange;

verus! {

/// A record that one reply message's attribute buffer decodes into.
pub trait ParseNlAttr: Sized {
    /// Whether the buffer fails to decode (always with `TruncatedFrame`).
    spec fn parse_fails(buf: Seq<u8>) -> bool;

    /// Whether `r` is what the buffer describes.
    spec fn parsed(buf: Seq<u8>, r: Self) -> bool;

    fn parse(buf: &[u8]) -> (r: Result<Self, Nl80211Error>)
        ensures
            match r {
                Ok(v) => !Self::parse_fails(buf@) && Self::parsed(buf@, v),
                Err(e) => Self::parse_fails(buf@) && e == Nl80211Error::TruncatedFrame,
            },
    ;
}

impl ParseNlAttr for Interface {
    open spec fn parse_fails(buf: Seq<u8>) -> bool {
        tlv_attrs(buf) is None
    }

    open spec fn parsed(buf: Seq<u8>, r: Interface) -> bool {
        tlv_attrs(buf) matches Some(a) && interface_matches(r, a)
    }

    fn parse(buf: &[u8]) -> (r: Result<Interface, Nl80211Error>) {
        Interface::try_from(buf)
    }
}

impl ParseNlAttr for Station {
    open spec fn parse_fails(buf: Seq<u8>) -> bool {
        match tlv_attrs(buf) {
            Some(a) => station_levels(a) is None,
            None => true,
        }
    }

    open spec fn parsed(buf: Seq<u8>, r: Station) -> bool {
        match tlv_attrs(buf) {
            Some(a) => match station_levels(a) {
                Some((info, rx, tx)) => station_matches(r, a, info, rx, tx),
                None => false,
            },
            None => false,
        }
    }

    fn parse(buf: &[u8]) -> (r: Result<Station, Nl80211Error>) {
        Station::try_from(buf)
    }
}

impl ParseNlAttr for Bss {
    open spec fn parse_fails(buf: Seq<u8>) -> bool {
        match tlv_attrs(buf) {
            Some(a) => bss_sub_attrs(a) is None,
            None => true,
        }
    }

    open spec fn parsed(buf: Seq<u8>, r: Bss) -> bool {
        match tlv_attrs(buf) {
            Some(a) => match bss_sub_attrs(a) {
                Some(sub) => bss_matches(r, sub),
                None => false,
            },
            None => false,
        }
    }

    fn parse(buf: &[u8]) -> (r: Result<Bss, Nl80211Error>) {
        Bss::try_from(buf)
    }
}

/// What the transport says a received message is.
#[derive(Debug, Clone, Copy, PartialEq, Eq, Structural)]
pub enum ReplyKind {
    /// A message carrying one record's attributes.
    Data,
    /// The end of a dump.
    Done,
    /// A netlink error message with its error code.
    Error { code: i32 },
}

/// Where an exchange stands.
#[derive(Debug, Clone, Copy, PartialEq, Eq, Structural)]
pub enum DumpState {
    /// More messages are expected.
    Draining,
    /// The done marker came: the exchange succeeded.
    Complete,
    /// The exchange ended with this error.
    Failed(Nl80211Error),
}

/// A received message: its kind and its attribute buffer.
pub type ReplyModel = (ReplyKind, Seq<u8>);

/// The state after the messages `msgs`, in order. Draining goes on through
/// data messages, also those that fail to decode; the done marker completes
/// the exchange, or fails it with the first decoding error seen; an error
/// message fails it. Messages after the end change nothing.
pub open spec fn dump_state<T: ParseNlAttr>(msgs: Seq<ReplyModel>) -> DumpState
    decreases msgs.len(), 1nat,
{
    if msgs.len() == 0 {
        DumpState::Draining
    } else {
        match dump_state::<T>(msgs.drop_last()) {
            DumpState::Draining => match msgs.last().0 {
                ReplyKind::Done => match pending_error::<T>(msgs.drop_last()) {
                    Some(e) => DumpState::Failed(e),
                    None => DumpState::Complete,
                },
                ReplyKind::Error { code } => DumpState::Failed(
                    Nl80211Error::ProtocolError { code },
                ),
                ReplyKind::Data => DumpState::Draining,
            },
            s => s,
        }
    }
}

/// The error of the first data message that failed to decode while draining.
pub open spec fn pending_error<T: ParseNlAttr>(msgs: Seq<ReplyModel>) -> Option<Nl80211Error>
    decreases msgs.len(), 0nat,
{
    if msgs.len() == 0 {
        None
    } else {
        let prev = pending_error::<T>(msgs.drop_last());
        if dump_state::<T>(msgs.drop_last()) == DumpState::Draining && prev is None
            && msgs.last().0 == ReplyKind::Data && T::parse_fails(msgs.last().1) {
            Some(Nl80211Error::TruncatedFrame)
        } else {
            prev
        }
    }
}

/// The error the exchange ends with after `msgs`, if any: the one that failed
/// it, or, while still draining, the first decoding error seen.
pub open spec fn dump_error<T: ParseNlAttr>(msgs: Seq<ReplyModel>) -> Option<Nl80211Error> {
    match dump_state::<T>(msgs) {
        DumpState::Failed(e) => Some(e),
        DumpState::Complete => None,
        DumpState::Draining => pending_error::<T>(msgs),
    }
}

/// The attribute buffers of the data messages that decoded while draining.
pub open spec fn data_payloads<T: ParseNlAttr>(msgs: Seq<ReplyModel>) -> Seq<Seq<u8>>
    decreases msgs.len(),
{
    if msgs.len() == 0 {
        seq![]
    } else {
        let prev = data_payloads::<T>(msgs.drop_last());
        if dump_state::<T>(msgs.drop_last()) == DumpState::Draining && msgs.last().0
            == ReplyKind::Data && !T::parse_fails(msgs.last().1) {
            prev.push(msgs.last().1)
        } else {
            prev
        }
    }
}

/// Netlink message type of an error message.
pub const NLMSG_ERROR: u16 = 2;

/// Netlink message type of the end-of-dump marker.
pub const NLMSG_DONE: u16 = 3;

/// Size of the generic netlink header (command, version, two reserved bytes).
pub const GENL_HDRLEN: usize = 4;

/// The error code an error message carries in its first four bytes (zero when
/// it is shorter).
pub open spec fn error_code(payload: Seq<u8>) -> i32 {
    if payload.len() >= 4 {
        le_signed(payload.subrange(0, 4)) as i32
    } else {
        0
    }
}

/// Sorts a received netlink message by its type: the end-of-dump marker, an
/// error message with its code, or a data message whose attribute buffer
/// follows the generic netlink header. A data message too short for that
/// header hands on its bytes as they are.
pub fn classify_reply<'a>(nl_type: u16, payload: &'a [u8]) -> (r: (ReplyKind, &'a [u8]))
    ensures
        nl_type == NLMSG_DONE ==> r.0 == ReplyKind::Done && r.1@.len() == 0,
        nl_type == NLMSG_ERROR ==> r.0 == (ReplyKind::Error { code: error_code(payload@) })
            && r.1@.len() == 0,
        nl_type != NLMSG_DONE && nl_type != NLMSG_ERROR ==> r.0 == ReplyKind::Data && r.1@ == (
        if payload@.len() >= GENL_HDRLEN {
            payload@.subrange(GENL_HDRLEN as int, payload@.len() as int)
        } else {
            payload@
        }),
{
    let empty = slice_subrange(payload, 0, 0);
    if nl_type == NLMSG_DONE {
        (ReplyKind::Done, empty)
    } else if nl_type == NLMSG_ERROR {
        let code = if payload.len() >= 4 {
            match decode_i32(slice_subrange(payload, 0, 4)) {
                Ok(c) => c,
                Err(_) => 0,
            }
        } else {
            0
        };
        (ReplyKind::Error { code }, empty)
    } else if payload.len() >= GENL_HDRLEN {
        (ReplyKind::Data, slice_subrange(payload, GENL_HDRLEN, payload.len()))
    } else {
        (ReplyKind::Data, payload)
    }
}

/// The records of one dump exchange, gathered message by message in the order
/// the kernel sent them.
pub struct Dump<T> {
    records: Vec<T>,
    state: DumpState,
    pending: Option<Nl80211Error>,
    msgs: Ghost<Seq<ReplyModel>>,
}

impl<T: ParseNlAttr> Dump<T> {
    /// The state, the pending error and the records agree with the messages
    /// received.
    pub closed spec fn wf(&self) -> bool {
        &&& self.state == dump_state::<T>(self.msgs@)
        &&& self.pending == pending_error::<T>(self.msgs@)
        &&& self.records@.len() == data_payloads::<T>(self.msgs@).len()
        &&& forall|i: int|
            0 <= i < self.records@.len() ==> T::parsed(
                #[trigger] data_payloads::<T>(self.msgs@)[i],
                self.records@[i],
            )
    }

    /// The messages received so far.
    pub closed spec fn received(&self) -> Seq<ReplyModel> {
        self.msgs@
    }

    /// An exchange that has received nothing yet.
    pub fn new() -> (r: Dump<T>)
        ensures
            r.wf(),
            r.received() == Seq::<ReplyModel>::empty(),
    {
        Dump {
            records: Vec::new(),
            state: DumpState::Draining,
            pending: None,
            msgs: Ghost(Seq::empty()),
        }
    }

    /// Where the exchange stands.
    pub fn state(&self) -> (r: DumpState)
        requires
            self.wf(),
        ensures
            r == dump_state::<T>(self.received()),
    {
        self.state
    }

    /// Takes one received message: a data message is decoded and its record
    /// kept (a decoding failure is remembered and reported when the exchange
    /// ends), the done marker completes the exchange, an error message fails
    /// it. Once the exchange has ended, further messages change nothing.
    pub fn receive(&mut self, kind: ReplyKind, payload: &[u8])
        requires
            old(self).wf(),
        ensures
            final(self).wf(),
            final(self).received() == old(self).received().push((kind, payload@)),
    {
        let ghost before = self.msgs@;
        let ghost after = before.push((kind, payload@));
        proof {
            assert(after.drop_last() =~= before);
        }
        if let DumpState::Draining = self.state {
            match kind {
                ReplyKind::Done => {
                    self.state = match self.pending {
                        Some(e) => DumpState::Failed(e),
                        None => DumpState::Complete,
                    };
                },
                ReplyKind::Error { code } => {
                    self.state = DumpState::Failed(Nl80211Error::ProtocolError { code });
                },
                ReplyKind::Data => {
                    match T::parse(payload) {
                        Ok(r) => {
                            self.records.push(r);
                        },
                        Err(e) => {
                            if self.pending.is_none() {
                                self.pending = Some(e);
                            }
                        },
                    }
                },
            }
        }
        self.msgs = Ghost(after);
        proof {
            let d = data_payloads::<T>(after);
            assert forall|i: int| 0 <= i < self.records@.len() implies T::parsed(
                #[trigger] d[i],
                self.records@[i],
            ) by {
                if i < data_payloads::<T>(before).len() {
                    assert(d[i] == data_payloads::<T>(before)[i]);
                }
            }
        }
    }

    /// The outcome: the error the exchange ends with, or every record taken,
    /// in order. No partial records are returned with an error. When the
    /// messages stop before the done marker, the records taken so far are the
    /// outcome.
    pub fn finish(self) -> (r: Result<Vec<T>, Nl80211Error>)
        requires
            self.wf(),
        ensures
            match dump_error::<T>(self.received()) {
                Some(e) => r == Err::<Vec<T>, Nl80211Error>(e),
                None => r matches Ok(v) && v@.len() == data_payloads::<T>(self.received()).len()
                    && forall|i: int|
                    0 <= i < v@.len() ==> T::parsed(
                        #[trigger] data_payloads::<T>(self.received())[i],
                        v@[i],
                    ),
            },
    {
        match self.state {
            DumpState::Failed(e) => Err(e),
            DumpState::Complete => Ok(self.records),
            DumpState::Draining => match self.pending {
                Some(e) => Err(e),
                None => Ok(self.records),
            },
        }
    }

    /// The outcome of a query that targets one record: the error the exchange
    /// ends with, else the record of the first data message, else `empty`
    /// when no data message came. Every message is drained first, so a later
    /// data message that fails to decode fails the whole query.
    pub fn finish_first(self, empty: T) -> (r: Result<T, Nl80211Error>)
        requires
            self.wf(),
        ensures
            match dump_error::<T>(self.received()) {
                Some(e) => r == Err::<T, Nl80211Error>(e),
                None => if data_payloads::<T>(self.received()).len() > 0 {
                    r matches Ok(v) && T::parsed(data_payloads::<T>(self.received())[0], v)
                } else {
                    r == Ok::<T, Nl80211Error>(empty)
                },
            },
    {
        match self.finish() {
            Ok(mut v) => {
                if v.len() > 0 {
                    Ok(v.remove(0))
                } else {
                    Ok(empty)
                }
            },
            Err(e) => Err(e),
        }
    }
}

/// Two data messages that decode, then the done marker: the exchange completes
/// with exactly two records, those of the two messages in order.
pub proof fn lemma_dump_two_records<T: ParseNlAttr>(a: Seq<u8>, b: Seq<u8>, end: Seq<u8>)
    requires
        !T::parse_fails(a),
        !T::parse_fails(b),
    ensures
        ({
            let msgs = seq![(ReplyKind::Data, a), (ReplyKind::Data, b), (ReplyKind::Done, end)];
            &&& dump_state::<T>(msgs) == DumpState::Complete
            &&& dump_error::<T>(msgs) is None
            &&& data_payloads::<T>(msgs) == seq![a, b]
        }),
{
    let e = Seq::<ReplyModel>::empty();
    let m1 = seq![(ReplyKind::Data, a)];
    let m2 = seq![(ReplyKind::Data, a), (ReplyKind::Data, b)];
    let m3 = seq![(ReplyKind::Data, a), (ReplyKind::Data, b), (ReplyKind::Done, end)];
    assert(m1.drop_last() =~= e);
    assert(m2.drop_last() =~= m1);
    assert(m3.drop_last() =~= m2);
    assert(dump_state::<T>(e) == DumpState::Draining);
    assert(pending_error::<T>(e) is None);
    assert(data_payloads::<T>(e) == Seq::<Seq<u8>>::empty());
    assert(m1.last() == (ReplyKind::Data, a));
    assert(dump_state::<T>(m1) == DumpState::Draining);
    assert(pending_error::<T>(m1) is None);
    assert(data_payloads::<T>(m1) =~= seq![a]);
    assert(m2.last() == (ReplyKind::Data, b));
    assert(dump_state::<T>(m2) == DumpState::Draining);
    assert(pending_error::<T>(m2) is None);
    assert(data_payloads::<T>(m2) =~= seq![a, b]);
    assert(m3.last() == (ReplyKind::Done, end));
    assert(dump_state::<T>(m3) == DumpState::Complete);
    assert(data_payloads::<T>(m3) =~= seq![a, b]);
}

/// Data messages alone, whether they decode or not, leave the exchange
/// draining.
pub proof fn lemma_data_keeps_draining<T: ParseNlAttr>(msgs: Seq<ReplyModel>)
    requires
        forall|i: int| 0 <= i < msgs.len() ==> #[trigger] msgs[i].0 == ReplyKind::Data,
    ensures
        dump_state::<T>(msgs) == DumpState::Draining,
    decreases msgs.len(),
{
    if msgs.len() > 0 {
        let prev = msgs.drop_last();
        assert forall|i: int| 0 <= i < prev.len() implies #[trigger] prev[i].0
            == ReplyKind::Data by {
            assert(prev[i] == msgs[i]);
        }
        lemma_data_keeps_draining::<T>(prev);
        assert(msgs.last() == msgs[msgs.len() - 1]);
    }
}

/// An error message while draining ends the exchange with that protocol error,
/// whatever came before; nothing after it changes the outcome.
pub proof fn lemma_dump_error_ends<T: ParseNlAttr>(
    msgs: Seq<ReplyModel>,
    code: i32,
    payload: Seq<u8>,
    later: Seq<ReplyModel>,
)
    requires
        dump_state::<T>(msgs) == DumpState::Draining,
    ensures
        dump_state::<T>(msgs.push((ReplyKind::Error { code }, payload)) + later)
            == DumpState::Failed(Nl80211Error::ProtocolError { code }),
        dump_error::<T>(msgs.push((ReplyKind::Error { code }, payload)) + later) == Some(
            Nl80211Error::ProtocolError { code },
        ),
    decreases later.len(),
{
    let m = msgs.push((ReplyKind::Error { code }, payload));
    assert(m.drop_last() =~= msgs);
    if later.len() == 0 {
        assert(m + later =~= m);
    } else {
        lemma_dump_error_ends::<T>(msgs, code, payload, later.drop_last());
        assert((m + later).drop_last() =~= m + later.drop_last());
    }
}

/// Data messages, decoding or not, then an error message: the exchange fails
/// with that protocol error and returns no records, whatever follows.
pub proof fn lemma_dump_error_after_data<T: ParseNlAttr>(
    msgs: Seq<ReplyModel>,
    code: i32,
    payload: Seq<u8>,
    later: Seq<ReplyModel>,
)
    requires
        forall|i: int| 0 <= i < msgs.len() ==> #[trigger] msgs[i].0 == ReplyKind::Data,
    ensures
        dump_error::<T>(msgs.push((ReplyKind::Error { code }, payload)) + later) == Some(
            Nl80211Error::ProtocolError { code },
        ),
{
    lemma_data_keeps_draining::<T>(msgs);
    lemma_dump_error_ends::<T>(msgs, code, payload, later);
}

/// The request attributes that target one interface: its index as an
/// interface-index attribute. A missing index, or one that is not four bytes
/// long, is refused with `InvalidTarget`.
pub fn target_attrs(index: Option<&Vec<u8>>) -> (r: Result<Vec<u8>, Nl80211Error>)
    ensures
        match index {
            Some(i) if i@.len() == 4 => r matches Ok(v) && v@ == encode_attr(
                (Nl80211Attr::AttrIfindex.spec_to_u16(), i@),
            ),
            _ => r == Err::<Vec<u8>, Nl80211Error>(Nl80211Error::InvalidTarget),
        },
{
    match index {
        Some(i) => {
            if i.len() != 4 {
                return Err(Nl80211Error::InvalidTarget);
            }
            let mut out: Vec<u8> = Vec::new();
            push_attr(&mut out, Nl80211Attr::AttrIfindex.to_u16(), i.as_slice());
            assert(out@ =~= encode_attr((Nl80211Attr::AttrIfindex.spec_to_u16(), i@)));
            Ok(out)
        },
        None => Err(Nl80211Error::InvalidTarget),
    }
}

/// A request to send with dump semantics: a command and its attribute buffer.
pub struct Request {
    pub cmd: Nl80211Cmd,
    pub attrs: Vec<u8>,
}

impl Request {
    /// The generic netlink payload of the request: command, interface
    /// version, two reserved zero bytes, then the attributes.
    pub fn genl_payload(&self) -> (r: Vec<u8>)
        ensures
            r@ == seq![self.cmd.spec_to_u16() as u8, NL_80211_GENL_VERSION, 0u8, 0u8] + self.attrs@,
    {
        let mut out: Vec<u8> = Vec::new();
        out.push(self.cmd.to_u16() as u8);
        out.push(NL_80211_GENL_VERSION);
        out.push(0);
        out.push(0);
        let ghost head = out@;
        let mut i: usize = 0;
        while i < self.attrs.len()
            invariant
                i <= self.attrs@.len(),
                out@ == head + self.attrs@.subrange(0, i as int),
            decreases self.attrs@.len() - i,
        {
            out.push(self.attrs[i]);
            assert(out@ =~= head + self.attrs@.subrange(0, i + 1));
            i = i + 1;
        }
        assert(self.attrs@.subrange(0, self.attrs@.len() as int) =~= self.attrs@);
        assert(head =~= seq![self.cmd.spec_to_u16() as u8, NL_80211_GENL_VERSION, 0u8, 0u8]);
        out
    }

    /// Lists every wireless interface.
    pub fn get_interfaces() -> (r: Request)
        ensures
            r.cmd == Nl80211Cmd::CmdGetInterface,
            r.attrs@.len() == 0,
    {
        Request { cmd: Nl80211Cmd::CmdGetInterface, attrs: Vec::new() }
    }

    /// Asks for the station an interface is associated with.
    pub fn get_station(index: Option<&Vec<u8>>) -> (r: Result<Request, Nl80211Error>)
        ensures
            match index {
                Some(i) if i@.len() == 4 => r matches Ok(q) && q.cmd == Nl80211Cmd::CmdGetStation
                    && q.attrs@ == encode_attr((Nl80211Attr::AttrIfindex.spec_to_u16(), i@)),
                _ => r is Err && r == Err::<Request, Nl80211Error>(Nl80211Error::InvalidTarget),
            },
    {
        match target_attrs(index) {
            Ok(attrs) => Ok(Request { cmd: Nl80211Cmd::CmdGetStation, attrs }),
            Err(e) => Err(e),
        }
    }

    /// Asks for the scan results of an interface.
    pub fn get_scan(index: Option<&Vec<u8>>) -> (r: Result<Request, Nl80211Error>)
        ensures
            match index {
                Some(i) if i@.len() == 4 => r matches Ok(q) && q.cmd == Nl80211Cmd::CmdGetScan
                    && q.attrs@ == encode_attr((Nl80211Attr::AttrIfindex.spec_to_u16(), i@)),
                _ => r is Err && r == Err::<Request, Nl80211Error>(Nl80211Error::InvalidTarget),
            },
    {
        match target_attrs(index) {
            Ok(attrs) => Ok(Request { cmd: Nl80211Cmd::CmdGetScan, attrs }),
            Err(e) => Err(e),
        }
    }
}

} // verus!
