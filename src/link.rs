//! The link requests that the library assembles, the replies it reads, and
//! the decisions it takes on them.
//!
//! A `LinkMsg` is the whole content of one routing-netlink link message:
//! the request type, the header flags, the interface-info header and the
//! attribute tree. Framing it with a netlink library, sending it and
//! reading the reply is the caller's part.

use vstd::prelude::*;
use crate::rt::IflaCan;

verus! {

/// The link request types of the routing family.
#[derive(Debug, Clone, Copy, PartialEq, Eq, Structural)]
pub enum LinkRequest {
    /// `RTM_NEWLINK`: create or change a link.
    NewLink,
    /// `RTM_DELLINK`: delete a link.
    DelLink,
    /// `RTM_GETLINK`: query a link.
    GetLink,
}

/// The header flags of a request, besides `NLM_F_REQUEST`, which every
/// request carries.
#[derive(Debug, Clone, Copy, PartialEq, Eq, Structural)]
pub struct MsgFlags {
    /// `NLM_F_ACK`: the kernel answers with an acknowledgement.
    pub ack: bool,
    /// `NLM_F_CREATE`: create the link if it does not exist.
    pub create: bool,
    /// `NLM_F_EXCL`: fail if the link already exists.
    pub excl: bool,
}

/// What the request does to the interface's up flag.
#[derive(Debug, Clone, Copy, PartialEq, Eq, Structural)]
pub enum LinkState {
    /// Interface flags and change mask both empty.
    Unchanged,
    /// Flags and change mask both `IFF_UP`.
    Up,
    /// Flags empty, change mask `IFF_UP`.
    Down,
}

/// A top-level attribute of a link request.
#[derive(Debug, Clone)]
pub enum LinkAttr {
    /// `IFLA_IFNAME` with the interface name.
    IfName(String),
    /// `IFLA_MTU` with the MTU's host-order bytes.
    Mtu(Vec<u8>),
    /// `IFLA_EXT_MASK` with the extended-info filter.
    ExtMask(u32),
    /// `IFLA_LINKINFO` nesting `IFLA_INFO_KIND` with the driver kind.
    LinkKind(String),
    /// `IFLA_LINKINFO` nesting `IFLA_INFO_KIND` with `kind` and then
    /// `IFLA_INFO_DATA`, which nests the one attribute `param` with the
    /// bytes `data`.
    CanData { kind: String, param: IflaCan, data: Vec<u8> },
}

/// One link request.
#[derive(Debug, Clone)]
pub struct LinkMsg {
    pub request: LinkRequest,
    pub flags: MsgFlags,
    /// The interface index of the info header; 0 lets the kernel pick one.
    pub if_index: u32,
    pub state: LinkState,
    pub attrs: Vec<LinkAttr>,
}

/// An attribute of a link reply, as far as the library reads it.
#[derive(Debug, Clone)]
pub enum ReplyAttr {
    /// `IFLA_IFNAME` with its raw payload.
    IfName(Vec<u8>),
    /// `IFLA_MTU` with its raw payload.
    Mtu(Vec<u8>),
    /// Any other attribute.
    Other,
}

/// The payload of a link reply.
#[derive(Debug, Clone)]
pub struct LinkInfo {
    /// The interface flags hold `IFF_UP`.
    pub is_up: bool,
    pub attrs: Vec<ReplyAttr>,
}

/// The one reply that the kernel sent to a request.
#[derive(Debug, Clone)]
pub enum Reply {
    /// An explicit acknowledgement.
    Ack,
    /// A link-info payload.
    Info(LinkInfo),
    /// Some other message.
    Other,
    /// No message: the socket closed.
    Nothing,
}

/// The library's errors.
#[derive(Debug, Clone, Copy, PartialEq, Eq, Structural)]
pub enum LinkError {
    /// An interface name longer than the platform's limit.
    NameTooLong,
    /// A bitrate outside `1..=1_000_000`.
    BitrateOutOfRange,
    /// A sample point outside `0..1000`.
    SamplePointOutOfRange,
    /// The reply was not the acknowledgement or payload that was expected.
    NoAck,
    /// The interface was gone before its index could be looked up.
    Vanished,
}

/// Flags of a request that is only acknowledged.
pub open spec fn ack_only() -> MsgFlags {
    MsgFlags { ack: true, create: false, excl: false }
}

/// Decides a mutating request by its reply: only an acknowledgement is
/// success, anything else is `NoAck`.
pub fn check_ack(reply: &Reply) -> (r: Result<(), LinkError>)
    ensures
        r is Ok <==> reply is Ack,
        r matches Err(e) ==> e == LinkError::NoAck,
{
    match reply {
        Reply::Ack => Ok(()),
        _ => Err(LinkError::NoAck),
    }
}

} // verus!
