//! The kernel's CAN netlink structures and constants, as laid out in
//! `linux/can/netlink.h`.
#![allow(non_camel_case_types)]

use vstd::prelude::*;
use crate::bytes::{host_words, words_to_host_bytes};

verus! {

/// Extended-info filter: ask for virtual-function information.
pub const EXT_FILTER_VF: u32 = 1;
pub const EXT_FILTER_BRVLAN: u32 = 2;
pub const EXT_FILTER_BRVLAN_COMPRESSED: u32 = 4;
pub const EXT_FILTER_SKIP_STATS: u32 = 8;
pub const EXT_FILTER_MRP: u32 = 16;
pub const EXT_FILTER_CFM_CONFIG: u32 = 32;
pub const EXT_FILTER_CFM_STATUS: u32 = 64;
pub const EXT_FILTER_MST: u32 = 128;

/// Loopback mode
pub const CAN_CTRLMODE_LOOPBACK: u32 = 0x01;
/// Listen-only mode
pub const CAN_CTRLMODE_LISTENONLY: u32 = 0x02;
/// Triple sampling mode
pub const CAN_CTRLMODE_3_SAMPLES: u32 = 0x04;
/// One-Shot mode
pub const CAN_CTRLMODE_ONE_SHOT: u32 = 0x08;
/// Bus-error reporting
pub const CAN_CTRLMODE_BERR_REPORTING: u32 = 0x10;
/// CAN FD mode
pub const CAN_CTRLMODE_FD: u32 = 0x20;
/// Ignore missing CAN ACKs
pub const CAN_CTRLMODE_PRESUME_ACK: u32 = 0x40;
/// CAN FD in non-ISO mode
pub const CAN_CTRLMODE_FD_NON_ISO: u32 = 0x80;
/// Classic CAN DLC option
pub const CAN_CTRLMODE_CC_LEN8_DLC: u32 = 0x100;

/// Termination disabled (a u16 termination is 1..65535 Ohms).
pub const CAN_TERMINATION_DISABLED: u32 = 0;

/// A raw value outside the domain of the type it was read as.
#[derive(Debug, Clone, Copy, PartialEq, Eq, Structural)]
pub struct InvalidData(pub u32);

/// CAN bit-timing parameters.
///
/// See chapter "8 BIT TIMING REQUIREMENTS" of the Bosch CAN Specification
/// version 2.0.
#[derive(Debug, Default, Clone, Copy, PartialEq, Eq, Structural)]
pub struct can_bittiming {
    /// Bit-rate in bits/second
    pub bitrate: u32,
    /// Sample point in one-tenth of a percent
    pub sample_point: u32,
    /// Time quanta (TQ) in nanoseconds
    pub tq: u32,
    /// Propagation segment in TQs
    pub prop_seg: u32,
    /// Phase buffer segment 1 in TQs
    pub phase_seg1: u32,
    /// Phase buffer segment 2 in TQs
    pub phase_seg2: u32,
    /// Synchronisation jump width in TQs
    pub sjw: u32,
    /// Bit-rate prescaler
    pub brp: u32,
}

impl can_bittiming {
    /// The fields in the order of the kernel's structure.
    pub open spec fn words(self) -> Seq<u32> {
        seq![
            self.bitrate,
            self.sample_point,
            self.tq,
            self.prop_seg,
            self.phase_seg1,
            self.phase_seg2,
            self.sjw,
            self.brp,
        ]
    }

    /// Bit timing with the given bitrate and sample point, all else zero.
    pub fn with_rate(bitrate: u32, sample_point: u32) -> (r: Self)
        ensures
            r.words() == seq![bitrate, sample_point, 0u32, 0u32, 0u32, 0u32, 0u32, 0u32],
    {
        let r = can_bittiming {
            bitrate,
            sample_point,
            tq: 0,
            prop_seg: 0,
            phase_seg1: 0,
            phase_seg2: 0,
            sjw: 0,
            brp: 0,
        };
        assert(r.words() =~= seq![bitrate, sample_point, 0u32, 0u32, 0u32, 0u32, 0u32, 0u32]);
        r
    }

    /// The structure's bytes as the kernel reads them: eight 32-bit words in
    /// declared order, host byte order, no padding.
    pub fn as_bytes(&self) -> (r: Vec<u8>)
        ensures
            r@.len() == 32,
            host_words(r@, self.words()),
    {
        let w: [u32; 8] = [
            self.bitrate,
            self.sample_point,
            self.tq,
            self.prop_seg,
            self.phase_seg1,
            self.phase_seg2,
            self.sjw,
            self.brp,
        ];
        assert(w@ =~= self.words());
        words_to_host_bytes(w.as_slice())
    }
}

/// CAN hardware-dependent bit-timing constants, used for calculating and
/// checking bit-timing parameters.
#[derive(Debug, Default, Clone, Copy)]
pub struct can_bittiming_const {
    /// Name of the CAN controller hardware
    pub name: [i8; 16],
    /// Time segment 1 = prop_seg + phase_seg1
    pub tseg1_min: u32,
    pub tseg1_max: u32,
    /// Time segment 2 = phase_seg2
    pub tseg2_min: u32,
    pub tseg2_max: u32,
    /// Synchronisation jump width
    pub sjw_max: u32,
    /// Bit-rate prescaler
    pub brp_min: u32,
    pub brp_max: u32,
    pub brp_inc: u32,
}

/// CAN clock parameters.
#[derive(Debug, Default, Clone, Copy, PartialEq, Eq, Structural)]
pub struct can_clock {
    /// CAN system clock frequency in Hz
    pub freq: u32,
}

/// CAN operational and error states.
#[derive(Debug, Clone, Copy, PartialEq, Eq, Structural, PartialOrd, Ord)]
pub enum CanState {
    /// RX/TX error count < 96
    ErrorActive,
    /// RX/TX error count < 128
    ErrorWarning,
    /// RX/TX error count < 256
    ErrorPassive,
    /// RX/TX error count >= 256
    BusOff,
    /// Device is stopped
    Stopped,
    /// Device is sleeping
    Sleeping,
}

impl CanState {
    /// The kernel's number for the state.
    pub open spec fn code_spec(self) -> u32 {
        match self {
            CanState::ErrorActive => 0,
            CanState::ErrorWarning => 1,
            CanState::ErrorPassive => 2,
            CanState::BusOff => 3,
            CanState::Stopped => 4,
            CanState::Sleeping => 5,
        }
    }

    /// The kernel's number for the state.
    pub fn code(&self) -> (r: u32)
        ensures
            r == self.code_spec(),
    {
        match self {
            CanState::ErrorActive => 0,
            CanState::ErrorWarning => 1,
            CanState::ErrorPassive => 2,
            CanState::BusOff => 3,
            CanState::Stopped => 4,
            CanState::Sleeping => 5,
        }
    }

    /// Reads a state from the kernel's number for it.
    pub fn try_from(val: u32) -> (r: Result<CanState, InvalidData>)
        ensures
            val <= 5 <==> r is Ok,
            r matches Ok(s) ==> s.code_spec() == val,
            r matches Err(e) ==> e == InvalidData(val),
    {
        match val {
            0 => Ok(CanState::ErrorActive),
            1 => Ok(CanState::ErrorWarning),
            2 => Ok(CanState::ErrorPassive),
            3 => Ok(CanState::BusOff),
            4 => Ok(CanState::Stopped),
            5 => Ok(CanState::Sleeping),
            _ => Err(InvalidData(val)),
        }
    }
}

/// CAN bus error counters.
#[derive(Debug, Default, Clone, Copy, PartialEq, Eq, Structural)]
pub struct can_berr_counter {
    pub txerr: u16,
    pub rxerr: u16,
}

/// CAN controller mode.
///
/// To set or clear a bit, set the `mask` for that bit, then set or clear
/// the bit in `flags`.
#[derive(Debug, Default, Clone, Copy, PartialEq, Eq, Structural)]
pub struct can_ctrlmode {
    pub mask: u32,
    pub flags: u32,
}

impl can_ctrlmode {
    /// The structure's bytes as the kernel reads them: `mask`, then `flags`,
    /// each in host byte order.
    pub fn as_bytes(&self) -> (r: Vec<u8>)
        ensures
            r@.len() == 8,
            host_words(r@, seq![self.mask, self.flags]),
    {
        let w: [u32; 2] = [self.mask, self.flags];
        assert(w@ =~= seq![self.mask, self.flags]);
        words_to_host_bytes(w.as_slice())
    }
}

/// CAN device statistics.
#[derive(Debug, Default, Clone, Copy, PartialEq, Eq, Structural)]
pub struct can_device_stats {
    /// Bus errors
    pub bus_error: u32,
    /// Changes to error warning state
    pub error_warning: u32,
    /// Changes to error passive state
    pub error_passive: u32,
    /// Changes to bus off state
    pub bus_off: u32,
    /// Arbitration lost errors
    pub arbitration_lost: u32,
    /// CAN controller re-starts
    pub restarts: u32,
}

/// The CAN attribute types nested in a link's info data.
///
/// `Unknown` keeps a type number that this list does not name.
#[derive(Debug, Clone, Copy, PartialEq, Eq, Structural, PartialOrd, Ord)]
pub enum IflaCan {
    Unspec,
    BitTiming,
    BitTimingConst,
    Clock,
    State,
    CtrlMode,
    RestartMs,
    Restart,
    BerrCounter,
    DataBitTiming,
    DataBitTimingConst,
    Termination,
    TerminationConst,
    BitRateConst,
    DataBitRateConst,
    BitRateMax,
    Tdc,
    CtrlModeExt,
    Unknown(u16),
}

/// The attribute type that the kernel numbers `v`.
pub open spec fn ifla_can_of(v: u16) -> IflaCan {
    match v {
        0 => IflaCan::Unspec,
        1 => IflaCan::BitTiming,
        2 => IflaCan::BitTimingConst,
        3 => IflaCan::Clock,
        4 => IflaCan::State,
        5 => IflaCan::CtrlMode,
        6 => IflaCan::RestartMs,
        7 => IflaCan::Restart,
        8 => IflaCan::BerrCounter,
        9 => IflaCan::DataBitTiming,
        10 => IflaCan::DataBitTimingConst,
        11 => IflaCan::Termination,
        12 => IflaCan::TerminationConst,
        13 => IflaCan::BitRateConst,
        14 => IflaCan::DataBitRateConst,
        15 => IflaCan::BitRateMax,
        16 => IflaCan::Tdc,
        17 => IflaCan::CtrlModeExt,
        _ => IflaCan::Unknown(v),
    }
}

impl IflaCan {
    /// The kernel's number for the attribute type.
    pub open spec fn code_spec(self) -> u16 {
        match self {
            IflaCan::Unspec => 0,
            IflaCan::BitTiming => 1,
            IflaCan::BitTimingConst => 2,
            IflaCan::Clock => 3,
            IflaCan::State => 4,
            IflaCan::CtrlMode => 5,
            IflaCan::RestartMs => 6,
            IflaCan::Restart => 7,
            IflaCan::BerrCounter => 8,
            IflaCan::DataBitTiming => 9,
            IflaCan::DataBitTimingConst => 10,
            IflaCan::Termination => 11,
            IflaCan::TerminationConst => 12,
            IflaCan::BitRateConst => 13,
            IflaCan::DataBitRateConst => 14,
            IflaCan::BitRateMax => 15,
            IflaCan::Tdc => 16,
            IflaCan::CtrlModeExt => 17,
            IflaCan::Unknown(v) => v,
        }
    }

    /// A value is canonical unless it is `Unknown` with a number that the
    /// list names.
    pub open spec fn is_canonical(self) -> bool {
        self matches IflaCan::Unknown(v) ==> v > 17
    }

    /// The kernel's number for the attribute type.
    pub fn code(&self) -> (r: u16)
        ensures
            r == self.code_spec(),
    {
        match self {
            IflaCan::Unspec => 0,
            IflaCan::BitTiming => 1,
            IflaCan::BitTimingConst => 2,
            IflaCan::Clock => 3,
            IflaCan::State => 4,
            IflaCan::CtrlMode => 5,
            IflaCan::RestartMs => 6,
            IflaCan::Restart => 7,
            IflaCan::BerrCounter => 8,
            IflaCan::DataBitTiming => 9,
            IflaCan::DataBitTimingConst => 10,
            IflaCan::Termination => 11,
            IflaCan::TerminationConst => 12,
            IflaCan::BitRateConst => 13,
            IflaCan::DataBitRateConst => 14,
            IflaCan::BitRateMax => 15,
            IflaCan::Tdc => 16,
            IflaCan::CtrlModeExt => 17,
            IflaCan::Unknown(v) => *v,
        }
    }
}

impl From<u16> for IflaCan {
    fn from(val: u16) -> (r: IflaCan) {
        match val {
            0 => IflaCan::Unspec,
            1 => IflaCan::BitTiming,
            2 => IflaCan::BitTimingConst,
            3 => IflaCan::Clock,
            4 => IflaCan::State,
            5 => IflaCan::CtrlMode,
            6 => IflaCan::RestartMs,
            7 => IflaCan::Restart,
            8 => IflaCan::BerrCounter,
            9 => IflaCan::DataBitTiming,
            10 => IflaCan::DataBitTimingConst,
            11 => IflaCan::Termination,
            12 => IflaCan::TerminationConst,
            13 => IflaCan::BitRateConst,
            14 => IflaCan::DataBitRateConst,
            15 => IflaCan::BitRateMax,
            16 => IflaCan::Tdc,
            17 => IflaCan::CtrlModeExt,
            _ => IflaCan::Unknown(val),
        }
    }
}

impl vstd::std_specs::convert::FromSpecImpl<u16> for IflaCan {
    open spec fn obeys_from_spec() -> bool {
        true
    }

    open spec fn from_spec(v: u16) -> IflaCan {
        ifla_can_of(v)
    }
}

/// Reading a type number and writing it back gives the number again, and
/// every canonical attribute type is read back from its own number.
pub proof fn lemma_ifla_can_round_trip(v: u16, t: IflaCan)
    ensures
        ifla_can_of(v).code_spec() == v,
        ifla_can_of(v).is_canonical(),
        t.is_canonical() ==> ifla_can_of(t.code_spec()) == t,
{
}

} // verus!
