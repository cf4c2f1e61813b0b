//! CAN interfaces: the requests that configure or query one, and the
//! reading of what the kernel answers.

use vstd::prelude::*;
use vstd::utf8::{decode_utf8, valid_utf8};
use crate::bytes::{host_bytes, host_words, lemma_host_bytes_injective, u32_from_host_bytes, u32_to_host_bytes};
use crate::ctrlmode::{with_mode, no_modes, CanCtrlMode, CanCtrlModes};
use crate::link::{
    ack_only, LinkAttr, LinkError, LinkInfo, LinkMsg, LinkRequest, LinkState, MsgFlags, Reply,
    ReplyAttr,
};
use crate::rt::{can_bittiming, can_ctrlmode, IflaCan, InvalidData, EXT_FILTER_VF};

verus! {

/// Relies on `libc::IFNAMSIZ`, the length limit of an interface name, which
/// is 16 on Linux.
#[verifier::external_body]
fn interface_name_limit() -> (r: usize)
    ensures
        r == 16,
{
    libc::IFNAMSIZ
}

/// Relies on `String::from_utf8`: succeeds exactly on valid UTF-8 and then
/// holds the characters that the bytes encode.
#[verifier::external_body]
fn utf8_to_string(b: Vec<u8>) -> (r: Option<String>)
    ensures
        r is Some <==> valid_utf8(b@),
        r matches Some(s) ==> s@ == decode_utf8(b@),
{
    String::from_utf8(b).ok()
}

/// The MTU of an interface: the frame size it carries.
#[derive(Debug, Clone, Copy, PartialEq, Eq, Structural)]
pub enum Mtu {
    /// Standard CAN frame, 8-byte data (16-byte total)
    Standard,
    /// FD CAN frame, 64-byte data (72-byte total)
    Fd,
}

/// The MTU that the kernel's value `v` stands for.
pub open spec fn mtu_of(v: u32) -> Option<Mtu> {
    if v == 16 {
        Some(Mtu::Standard)
    } else if v == 72 {
        Some(Mtu::Fd)
    } else {
        None
    }
}

impl Mtu {
    /// The kernel's MTU value.
    pub open spec fn raw_spec(self) -> u32 {
        match self {
            Mtu::Standard => 16,
            Mtu::Fd => 72,
        }
    }

    /// The kernel's MTU value.
    pub fn raw(&self) -> (r: u32)
        ensures
            r == self.raw_spec(),
    {
        match self {
            Mtu::Standard => 16,
            Mtu::Fd => 72,
        }
    }

    /// Reads an MTU from the kernel's value; any value but 16 and 72 is
    /// invalid data.
    pub fn try_from(val: u32) -> (r: Result<Mtu, InvalidData>)
        ensures
            r is Ok <==> mtu_of(val) is Some,
            r matches Ok(m) ==> mtu_of(val) == Some(m),
            r matches Err(e) ==> e == InvalidData(val),
    {
        match val {
            16 => Ok(Mtu::Standard),
            72 => Ok(Mtu::Fd),
            _ => Err(InvalidData(val)),
        }
    }
}

/// Writing an MTU as the kernel's value and reading it back gives the same
/// MTU; every other value reads as invalid.
pub proof fn lemma_mtu_round_trip(m: Mtu, v: u32)
    ensures
        mtu_of(m.raw_spec()) == Some(m),
        mtu_of(v) is Some <==> (v == 16 || v == 72),
        mtu_of(v) matches Some(n) ==> n.raw_spec() == v,
{
}

/// The bytes that set an MTU read back as that MTU.
pub proof fn lemma_mtu_bytes_round_trip(m: Mtu, v: u32)
    requires
        host_bytes(v) == host_bytes(m.raw_spec()),
    ensures
        mtu_of(v) == Some(m),
{
    lemma_host_bytes_injective(v, m.raw_spec());
}

/// The details of an interface, as a query reports them.
#[derive(Debug, Default, Clone)]
pub struct InterfaceDetails {
    /// The name of the interface
    pub name: Option<String>,
    /// The index of the interface
    pub index: u32,
    /// Whether the interface is currently up
    pub is_up: bool,
    /// The MTU size of the interface (Standard or FD frames support)
    pub mtu: Option<Mtu>,
}

impl InterfaceDetails {
    /// Creates a new set of interface details with the specified `index`.
    pub fn new(index: u32) -> (r: Self)
        ensures
            r.name is None,
            r.index == index,
            !r.is_up,
            r.mtu is None,
    {
        InterfaceDetails { name: None, index, is_up: false, mtu: None }
    }
}

/// The text of a name attribute: bytes ending in their only NUL, the rest
/// valid UTF-8.
pub open spec fn name_text(b: Seq<u8>) -> Option<Seq<char>> {
    if b.len() > 0 && b.last() == 0 && (forall|i: int| 0 <= i < b.len() - 1 ==> b[i] != 0)
        && valid_utf8(b.drop_last()) {
        Some(decode_utf8(b.drop_last()))
    } else {
        None
    }
}

/// The name that a reply's attributes give: that of the last name attribute
/// whose text can be read.
pub open spec fn reply_name(attrs: Seq<ReplyAttr>) -> Option<Seq<char>>
    decreases attrs.len(),
{
    if attrs.len() == 0 {
        None
    } else {
        match attrs.last() {
            ReplyAttr::IfName(b) if name_text(b@) is Some => name_text(b@),
            _ => reply_name(attrs.drop_last()),
        }
    }
}

/// `mtu` is what a reply's attributes give: the MTU read from the last
/// four-byte MTU attribute, if any, the four bytes taken in the machine's
/// byte order.
pub open spec fn reply_mtu(attrs: Seq<ReplyAttr>, mtu: Option<Mtu>) -> bool
    decreases attrs.len(),
{
    if attrs.len() == 0 {
        mtu is None
    } else {
        match attrs.last() {
            ReplyAttr::Mtu(b) if b@.len() == 4 => exists|v: u32| host_bytes(v) == b@ && mtu == mtu_of(v),
            _ => reply_mtu(attrs.drop_last(), mtu),
        }
    }
}

/// The details that `info` gives of the interface `index`.
pub open spec fn details_of(index: u32, info: LinkInfo, d: InterfaceDetails) -> bool {
    &&& d.index == index
    &&& d.is_up == info.is_up
    &&& (match d.name {
        Some(s) => reply_name(info.attrs@) == Some(s@),
        None => reply_name(info.attrs@) is None,
    })
    &&& reply_mtu(info.attrs@, d.mtu)
}

/// Reads the text of a name attribute.
pub fn decode_name(b: &Vec<u8>) -> (r: Option<String>)
    ensures
        match r {
            Some(s) => name_text(b@) == Some(s@),
            None => name_text(b@) is None,
        },
{
    let n = b.len();
    if n == 0 || b[n - 1] != 0 {
        return None;
    }
    let mut body: Vec<u8> = Vec::new();
    let mut i: usize = 0;
    while i < n - 1
        invariant
            n == b@.len(),
            n > 0,
            0 <= i <= n - 1,
            body@ == b@.subrange(0, i as int),
            forall|k: int| 0 <= k < i ==> b@[k] != 0,
        decreases n - 1 - i,
    {
        if b[i] == 0 {
            return None;
        }
        body.push(b[i]);
        i = i + 1;
        assert(body@ =~= b@.subrange(0, i as int));
    }
    assert(body@ =~= b@.drop_last());
    utf8_to_string(body)
}

/// Reads an MTU attribute: four bytes in the machine's byte order holding
/// 16 or 72.
pub fn decode_mtu(b: &Vec<u8>) -> (r: Option<Mtu>)
    requires
        b@.len() == 4,
    ensures
        exists|v: u32| host_bytes(v) == b@ && r == mtu_of(v),
{
    let v = u32_from_host_bytes(b.as_slice());
    match Mtu::try_from(v) {
        Ok(m) => Some(m),
        Err(_) => None,
    }
}

/// Reads the details of interface `index` from a link-info payload. An
/// attribute that cannot be read leaves its field as it was.
pub fn decode_details(index: u32, info: &LinkInfo) -> (r: InterfaceDetails)
    ensures
        details_of(index, *info, r),
{
    let mut d = InterfaceDetails::new(index);
    d.is_up = info.is_up;
    let mut i: usize = 0;
    while i < info.attrs.len()
        invariant
            0 <= i <= info.attrs@.len(),
            d.index == index,
            d.is_up == info.is_up,
            match d.name {
                Some(s) => reply_name(info.attrs@.subrange(0, i as int)) == Some(s@),
                None => reply_name(info.attrs@.subrange(0, i as int)) is None,
            },
            reply_mtu(info.attrs@.subrange(0, i as int), d.mtu),
        decreases info.attrs@.len() - i,
    {
        let ghost pre = info.attrs@.subrange(0, i as int);
        let ghost cur = info.attrs@.subrange(0, i + 1);
        assert(cur.drop_last() =~= pre);
        match &info.attrs[i] {
            ReplyAttr::IfName(b) => {
                if let Some(s) = decode_name(b) {
                    d.name = Some(s);
                }
            },
            ReplyAttr::Mtu(b) => {
                if b.len() == 4 {
                    d.mtu = decode_mtu(b);
                }
            },
            ReplyAttr::Other => {},
        }
        i = i + 1;
    }
    assert(info.attrs@.subrange(0, info.attrs@.len() as int) =~= info.attrs@);
    d
}

/// The request of interface `index` that sets CAN attribute `param` to
/// `data`.
pub open spec fn can_param_msg(r: LinkMsg, index: u32, param: IflaCan, data: Seq<u8>) -> bool {
    &&& r.request == LinkRequest::NewLink
    &&& r.flags == ack_only()
    &&& r.if_index == index
    &&& r.state == LinkState::Unchanged
    &&& r.attrs@.len() == 1
    &&& r.attrs@[0] matches LinkAttr::CanData { kind, param: p, data: d }
    &&& kind@ == "can"@
    &&& p == param
    &&& d@ == data
}

/// A request of interface `index` with no attribute.
pub open spec fn bare_msg(r: LinkMsg, request: LinkRequest, index: u32, state: LinkState) -> bool {
    &&& r.request == request
    &&& r.flags == ack_only()
    &&& r.if_index == index
    &&& r.state == state
    &&& r.attrs@.len() == 0
}

/// A CAN network interface, known by its kernel index.
///
/// Nothing keeps the kernel from removing or renaming the interface while
/// a handle to it is held.
#[derive(Debug, Clone, Copy, PartialEq, Eq, Structural)]
pub struct CanInterface {
    if_index: u32,
}

impl CanInterface {
    /// The kernel index of the interface.
    pub closed spec fn index_spec(&self) -> u32 {
        self.if_index
    }

    /// A handle to the interface with index `if_index`. Nothing checks that
    /// it exists.
    pub fn open_iface(if_index: u32) -> (r: Self)
        ensures
            r.index_spec() == if_index,
    {
        CanInterface { if_index }
    }

    /// The kernel index of the interface.
    pub fn if_index(&self) -> (r: u32)
        ensures
            r == self.index_spec(),
    {
        self.if_index
    }

    fn can_param_request(&self, param: IflaCan, data: Vec<u8>) -> (r: LinkMsg)
        ensures
            can_param_msg(r, self.index_spec(), param, data@),
    {
        let kind = "can".to_owned();
        proof {
            reveal_strlit("can");
        }
        LinkMsg {
            request: LinkRequest::NewLink,
            flags: MsgFlags { ack: true, create: false, excl: false },
            if_index: self.if_index,
            state: LinkState::Unchanged,
            attrs: vec![LinkAttr::CanData { kind, param, data }],
        }
    }

    /// The request that brings the interface down.
    pub fn bring_down_request(&self) -> (r: LinkMsg)
        ensures
            bare_msg(r, LinkRequest::NewLink, self.index_spec(), LinkState::Down),
    {
        LinkMsg {
            request: LinkRequest::NewLink,
            flags: MsgFlags { ack: true, create: false, excl: false },
            if_index: self.if_index,
            state: LinkState::Down,
            attrs: Vec::new(),
        }
    }

    /// The request that brings the interface up.
    pub fn bring_up_request(&self) -> (r: LinkMsg)
        ensures
            bare_msg(r, LinkRequest::NewLink, self.index_spec(), LinkState::Up),
    {
        LinkMsg {
            request: LinkRequest::NewLink,
            flags: MsgFlags { ack: true, create: false, excl: false },
            if_index: self.if_index,
            state: LinkState::Up,
            attrs: Vec::new(),
        }
    }

    /// The request that deletes the interface.
    pub fn delete_request(&self) -> (r: LinkMsg)
        ensures
            bare_msg(r, LinkRequest::DelLink, self.index_spec(), LinkState::Unchanged),
    {
        LinkMsg {
            request: LinkRequest::DelLink,
            flags: MsgFlags { ack: true, create: false, excl: false },
            if_index: self.if_index,
            state: LinkState::Unchanged,
            attrs: Vec::new(),
        }
    }

    /// The outcome of a delete: on failure the handle comes back with the
    /// error, unchanged.
    pub fn delete_outcome<E>(self, sent: Result<(), E>) -> (r: Result<(), (Self, E)>)
        ensures
            sent is Ok <==> r is Ok,
            r matches Err((h, e)) ==> h == self && sent == Err::<(), E>(e),
    {
        match sent {
            Ok(()) => Ok(()),
            Err(e) => Err((self, e)),
        }
    }

    /// The request that creates an interface of driver `kind` named `name`,
    /// with the index given or, without one, an index that the kernel picks.
    /// A name longer than the platform's limit is refused.
    pub fn create_request(name: &str, index: Option<u32>, kind: &str) -> (r: Result<LinkMsg, LinkError>)
        ensures
            name.len() > 16 <==> r is Err,
            r matches Err(e) ==> e == LinkError::NameTooLong,
            r matches Ok(m) ==> {
                &&& m.request == LinkRequest::NewLink
                &&& m.flags == (MsgFlags { ack: true, create: true, excl: true })
                &&& m.if_index == index.unwrap_or(0)
                &&& m.state == LinkState::Unchanged
                &&& m.attrs@.len() == 2
                &&& m.attrs@[0] matches LinkAttr::IfName(n) && n@ == name@
                &&& m.attrs@[1] matches LinkAttr::LinkKind(k) && k@ == kind@
            },
    {
        if name.len() > interface_name_limit() {
            return Err(LinkError::NameTooLong);
        }
        let if_index = match index {
            Some(i) => i,
            None => 0,
        };
        Ok(LinkMsg {
            request: LinkRequest::NewLink,
            flags: MsgFlags { ack: true, create: true, excl: true },
            if_index,
            state: LinkState::Unchanged,
            attrs: vec![LinkAttr::IfName(name.to_owned()), LinkAttr::LinkKind(kind.to_owned())],
        })
    }

    /// The request that creates a virtual CAN interface.
    pub fn create_vcan_request(name: &str, index: Option<u32>) -> (r: Result<LinkMsg, LinkError>)
        ensures
            name.len() > 16 <==> r is Err,
            r matches Err(e) ==> e == LinkError::NameTooLong,
            r matches Ok(m) ==> {
                &&& m.request == LinkRequest::NewLink
                &&& m.flags == (MsgFlags { ack: true, create: true, excl: true })
                &&& m.if_index == index.unwrap_or(0)
                &&& m.state == LinkState::Unchanged
                &&& m.attrs@.len() == 2
                &&& m.attrs@[0] matches LinkAttr::IfName(n) && n@ == name@
                &&& m.attrs@[1] matches LinkAttr::LinkKind(k) && k@ == "vcan"@
            },
    {
        Self::create_request(name, index, "vcan")
    }

    /// The handle of a created interface: the index that was asked for, or
    /// else the one that a lookup by name found after the creation.
    pub fn created(index: Option<u32>, looked_up: Option<u32>) -> (r: Result<Self, LinkError>)
        ensures
            r is Err <==> index is None && looked_up is None,
            r matches Err(e) ==> e == LinkError::Vanished,
            r matches Ok(h) ==> h.index_spec() == match index {
                Some(i) => i,
                None => looked_up.unwrap(),
            },
    {
        match index {
            Some(if_index) => Ok(CanInterface { if_index }),
            None => match looked_up {
                Some(if_index) => Ok(CanInterface { if_index }),
                None => Err(LinkError::Vanished),
            },
        }
    }

    /// The query for the interface's details, asking for extended
    /// virtual-function information. The reply itself is the answer, so no
    /// acknowledgement is asked for.
    pub fn details_request(&self) -> (r: LinkMsg)
        ensures
            r.request == LinkRequest::GetLink,
            r.flags == (MsgFlags { ack: false, create: false, excl: false }),
            r.if_index == self.index_spec(),
            r.state == LinkState::Unchanged,
            r.attrs@.len() == 1,
            r.attrs@[0] matches LinkAttr::ExtMask(f) && f == EXT_FILTER_VF,
    {
        LinkMsg {
            request: LinkRequest::GetLink,
            flags: MsgFlags { ack: false, create: false, excl: false },
            if_index: self.if_index,
            state: LinkState::Unchanged,
            attrs: vec![LinkAttr::ExtMask(EXT_FILTER_VF)],
        }
    }

    /// The interface's details from the reply to `details_request`: a reply
    /// without a link-info payload is `NoAck`.
    pub fn details_from_reply(&self, reply: &Reply) -> (r: Result<InterfaceDetails, LinkError>)
        ensures
            r is Ok <==> reply is Info,
            r matches Err(e) ==> e == LinkError::NoAck,
            r matches Ok(d) ==> details_of(self.index_spec(), reply->Info_0, d),
    {
        match reply {
            Reply::Info(info) => Ok(decode_details(self.if_index, info)),
            _ => Err(LinkError::NoAck),
        }
    }

    /// A CAN parameter from the reply to `details_request`. Reading one is
    /// not supported yet: a link-info payload gives 0.
    pub fn can_param_from_reply(&self, reply: &Reply) -> (r: Result<u32, LinkError>)
        ensures
            r is Ok <==> reply is Info,
            r matches Ok(v) ==> v == 0,
            r matches Err(e) ==> e == LinkError::NoAck,
    {
        match reply {
            Reply::Info(_) => Ok(0),
            _ => Err(LinkError::NoAck),
        }
    }

    /// The request that sets the interface's MTU.
    pub fn set_mtu_request(&self, mtu: Mtu) -> (r: LinkMsg)
        ensures
            r.request == LinkRequest::NewLink,
            r.flags == ack_only(),
            r.if_index == self.index_spec(),
            r.state == LinkState::Unchanged,
            r.attrs@.len() == 1,
            r.attrs@[0] matches LinkAttr::Mtu(b) && b@ == host_bytes(mtu.raw_spec()),
    {
        let b = u32_to_host_bytes(mtu.raw());
        LinkMsg {
            request: LinkRequest::NewLink,
            flags: MsgFlags { ack: true, create: false, excl: false },
            if_index: self.if_index,
            state: LinkState::Unchanged,
            attrs: vec![LinkAttr::Mtu(b)],
        }
    }

    /// The request that sets the bitrate and, optionally, the sample point
    /// (in tenths of a percent; 0 when not given). The bitrate must lie in
    /// `1..=1_000_000` and the sample point below 1000.
    pub fn set_bitrate_request(&self, bitrate: u32, sample_point: Option<u32>) -> (r: Result<LinkMsg, LinkError>)
        ensures
            r matches Err(e) ==> e == (if !(1 <= bitrate <= 1_000_000) {
                LinkError::BitrateOutOfRange
            } else {
                LinkError::SamplePointOutOfRange
            }),
            r is Ok <==> 1 <= bitrate <= 1_000_000 && sample_point.unwrap_or(0) < 1000,
            r matches Ok(m) ==> exists|d: Seq<u8>| can_param_msg(m, self.index_spec(), IflaCan::BitTiming, d)
                && host_words(d, seq![bitrate, sample_point.unwrap_or(0), 0u32, 0u32, 0u32, 0u32, 0u32, 0u32]),
    {
        let sp = match sample_point {
            Some(p) => p,
            None => 0,
        };
        if bitrate == 0 || bitrate > 1_000_000 {
            return Err(LinkError::BitrateOutOfRange);
        }
        if sp >= 1000 {
            return Err(LinkError::SamplePointOutOfRange);
        }
        let timing = can_bittiming::with_rate(bitrate, sp);
        let data = timing.as_bytes();
        Ok(self.can_param_request(IflaCan::BitTiming, data))
    }

    /// The request that sets the data bitrate of an FD interface and,
    /// optionally, the data sample point (0 when not given).
    pub fn set_data_bitrate_request(&self, bitrate: u32, sample_point: Option<u32>) -> (r: LinkMsg)
        ensures
            exists|d: Seq<u8>| can_param_msg(r, self.index_spec(), IflaCan::DataBitTiming, d)
                && host_words(d, seq![bitrate, sample_point.unwrap_or(0), 0u32, 0u32, 0u32, 0u32, 0u32, 0u32]),
    {
        let sp = match sample_point {
            Some(p) => p,
            None => 0,
        };
        let timing = can_bittiming::with_rate(bitrate, sp);
        let data = timing.as_bytes();
        self.can_param_request(IflaCan::DataBitTiming, data)
    }

    /// The request that sends a raw control-mode mask and flags.
    pub fn set_full_ctrlmode_request(&self, ctrlmode: can_ctrlmode) -> (r: LinkMsg)
        ensures
            exists|d: Seq<u8>| can_param_msg(r, self.index_spec(), IflaCan::CtrlMode, d)
                && host_words(d, seq![ctrlmode.mask, ctrlmode.flags]),
    {
        let data = ctrlmode.as_bytes();
        self.can_param_request(IflaCan::CtrlMode, data)
    }

    /// The request that sets the control modes of a collection.
    pub fn set_ctrlmodes_request(&self, modes: CanCtrlModes) -> (r: LinkMsg)
        ensures
            exists|d: Seq<u8>| can_param_msg(r, self.index_spec(), IflaCan::CtrlMode, d)
                && host_words(d, seq![modes.0.mask, modes.0.flags]),
    {
        let m: can_ctrlmode = modes.0;
        self.set_full_ctrlmode_request(m)
    }

    /// The request that sets or clears one control mode.
    pub fn set_ctrlmode_request(&self, mode: CanCtrlMode, on: bool) -> (r: LinkMsg)
        ensures
            exists|d: Seq<u8>| can_param_msg(r, self.index_spec(), IflaCan::CtrlMode, d)
                && host_words(d, seq![with_mode(no_modes(), mode, on).mask, with_mode(no_modes(), mode, on).flags]),
    {
        self.set_ctrlmodes_request(CanCtrlModes::from_mode(mode, on))
    }

    /// The request that sets the automatic restart interval in milliseconds.
    pub fn set_restart_ms_request(&self, restart_ms: u32) -> (r: LinkMsg)
        ensures
            exists|d: Seq<u8>| can_param_msg(r, self.index_spec(), IflaCan::RestartMs, d)
                && d == host_bytes(restart_ms),
    {
        let data = u32_to_host_bytes(restart_ms);
        self.can_param_request(IflaCan::RestartMs, data)
    }

    /// The request that restarts the interface by hand, sending the value 1
    /// as the kernel's own tools do.
    pub fn restart_request(&self) -> (r: LinkMsg)
        ensures
            exists|d: Seq<u8>| can_param_msg(r, self.index_spec(), IflaCan::Restart, d)
                && d == host_bytes(1),
    {
        let data = u32_to_host_bytes(1);
        self.can_param_request(IflaCan::Restart, data)
    }
}

} // verus!
