//! Netlink management of SocketCAN interfaces.
//!
//! The library holds the verified part of CAN interface management over the
//! kernel's routing netlink family: the kernel's CAN descriptor layouts and
//! their byte encodings, the control-mode bitmask builder, the assembly of
//! link requests, acknowledgement checking and the decoding of link replies.
//! Sockets themselves are opened and driven by the caller.

pub mod bytes;
pub mod rt;
pub mod ctrlmode;
pub mod link;
pub mod iface;

pub use ctrlmode::{CanCtrlMode, CanCtrlModes};
pub use iface::{CanInterface, InterfaceDetails, Mtu};
pub use link::{LinkAttr, LinkError, LinkInfo, LinkMsg, LinkRequest, LinkState, MsgFlags, Reply, ReplyAttr};
pub use rt::{
    can_berr_counter, can_bittiming, can_bittiming_const, can_clock, can_ctrlmode,
    can_device_stats, CanState, IflaCan, InvalidData,
};
