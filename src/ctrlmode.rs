//! Control-mode bits: one bit per mode, set in pairs of a mask (which bits
//! are being set) and flags (the value of each masked bit).

use vstd::prelude::*;
use crate::rt::{
    can_ctrlmode, CAN_CTRLMODE_3_SAMPLES, CAN_CTRLMODE_BERR_REPORTING, CAN_CTRLMODE_CC_LEN8_DLC,
    CAN_CTRLMODE_FD, CAN_CTRLMODE_FD_NON_ISO, CAN_CTRLMODE_LISTENONLY, CAN_CTRLMODE_LOOPBACK,
    CAN_CTRLMODE_ONE_SHOT, CAN_CTRLMODE_PRESUME_ACK,
};

verus! {

/// CAN control modes, in the order of their bit numbers.
#[derive(Debug, Clone, Copy, PartialEq, Eq, Structural, PartialOrd, Ord)]
pub enum CanCtrlMode {
    /// Loopback mode
    Loopback,
    /// Listen-only mode
    ListenOnly,
    /// Triple sampling mode
    TripleSampling,
    /// One-Shot mode
    OneShot,
    /// Bus-error reporting
    BerrReporting,
    /// CAN FD mode
    Fd,
    /// Ignore missing CAN ACKs
    PresumeAck,
    /// CAN FD in non-ISO mode
    NonIso,
    /// Classic CAN DLC option
    CcLen8Dlc,
}

/// Bit `k` of `x` is set.
pub open spec fn bit_set(x: u32, k: u32) -> bool {
    (x >> k) & 1u32 == 1u32
}

impl CanCtrlMode {
    /// The mode's bit number.
    pub open spec fn bit(self) -> u32 {
        match self {
            CanCtrlMode::Loopback => 0,
            CanCtrlMode::ListenOnly => 1,
            CanCtrlMode::TripleSampling => 2,
            CanCtrlMode::OneShot => 3,
            CanCtrlMode::BerrReporting => 4,
            CanCtrlMode::Fd => 5,
            CanCtrlMode::PresumeAck => 6,
            CanCtrlMode::NonIso => 7,
            CanCtrlMode::CcLen8Dlc => 8,
        }
    }

    /// The kernel's mask constant for the mode.
    pub open spec fn mask_spec(self) -> u32 {
        match self {
            CanCtrlMode::Loopback => CAN_CTRLMODE_LOOPBACK,
            CanCtrlMode::ListenOnly => CAN_CTRLMODE_LISTENONLY,
            CanCtrlMode::TripleSampling => CAN_CTRLMODE_3_SAMPLES,
            CanCtrlMode::OneShot => CAN_CTRLMODE_ONE_SHOT,
            CanCtrlMode::BerrReporting => CAN_CTRLMODE_BERR_REPORTING,
            CanCtrlMode::Fd => CAN_CTRLMODE_FD,
            CanCtrlMode::PresumeAck => CAN_CTRLMODE_PRESUME_ACK,
            CanCtrlMode::NonIso => CAN_CTRLMODE_FD_NON_ISO,
            CanCtrlMode::CcLen8Dlc => CAN_CTRLMODE_CC_LEN8_DLC,
        }
    }

    fn bit_number(&self) -> (r: u32)
        ensures
            r == self.bit(),
    {
        match self {
            CanCtrlMode::Loopback => 0,
            CanCtrlMode::ListenOnly => 1,
            CanCtrlMode::TripleSampling => 2,
            CanCtrlMode::OneShot => 3,
            CanCtrlMode::BerrReporting => 4,
            CanCtrlMode::Fd => 5,
            CanCtrlMode::PresumeAck => 6,
            CanCtrlMode::NonIso => 7,
            CanCtrlMode::CcLen8Dlc => 8,
        }
    }

    /// The mask for the mode: its one bit, `1 << bit number`, which is the
    /// kernel's constant for it.
    pub fn mask(&self) -> (r: u32)
        ensures
            r == self.mask_spec(),
            r == 1u32 << self.bit(),
    {
        let b = self.bit_number();
        proof {
            lemma_mode_masks();
        }
        1u32 << b
    }
}

/// The single-bit masks of bit numbers 0 through 8.
pub proof fn lemma_mode_masks()
    ensures
        1u32 << 0u32 == 0x01u32,
        1u32 << 1u32 == 0x02u32,
        1u32 << 2u32 == 0x04u32,
        1u32 << 3u32 == 0x08u32,
        1u32 << 4u32 == 0x10u32,
        1u32 << 5u32 == 0x20u32,
        1u32 << 6u32 == 0x40u32,
        1u32 << 7u32 == 0x80u32,
        1u32 << 8u32 == 0x100u32,
{
    assert(1u32 << 0u32 == 0x01u32 && 1u32 << 1u32 == 0x02u32 && 1u32 << 2u32 == 0x04u32
        && 1u32 << 3u32 == 0x08u32 && 1u32 << 4u32 == 0x10u32 && 1u32 << 5u32 == 0x20u32
        && 1u32 << 6u32 == 0x40u32 && 1u32 << 7u32 == 0x80u32 && 1u32 << 8u32 == 0x100u32)
        by (bit_vector);
}

/// The pair with no bit masked.
pub open spec fn no_modes() -> can_ctrlmode {
    can_ctrlmode { mask: 0, flags: 0 }
}

/// `m` with `mode` added: its bit always joins the mask, and joins the flags
/// when `on`.
pub open spec fn with_mode(m: can_ctrlmode, mode: CanCtrlMode, on: bool) -> can_ctrlmode {
    can_ctrlmode {
        mask: m.mask | mode.mask_spec(),
        flags: if on {
            m.flags | mode.mask_spec()
        } else {
            m.flags
        },
    }
}

/// `m` with each `(mode, on)` of `s` added in turn.
pub open spec fn with_modes(m: can_ctrlmode, s: Seq<(CanCtrlMode, bool)>) -> can_ctrlmode
    decreases s.len(),
{
    if s.len() == 0 {
        m
    } else {
        with_mode(with_modes(m, s.drop_last()), s.last().0, s.last().1)
    }
}

/// The OR of the masks of all the modes in `s`.
pub open spec fn mask_union(s: Seq<(CanCtrlMode, bool)>) -> u32
    decreases s.len(),
{
    if s.len() == 0 {
        0
    } else {
        mask_union(s.drop_last()) | s.last().0.mask_spec()
    }
}

/// The OR of the masks of the modes in `s` that are turned on.
pub open spec fn on_union(s: Seq<(CanCtrlMode, bool)>) -> u32
    decreases s.len(),
{
    if s.len() == 0 {
        0
    } else if s.last().1 {
        on_union(s.drop_last()) | s.last().0.mask_spec()
    } else {
        on_union(s.drop_last())
    }
}

/// The collection of control modes.
#[derive(Debug, Default, Clone, Copy)]
pub struct CanCtrlModes(pub can_ctrlmode);

impl CanCtrlModes {
    /// Create a set of CAN control modes from a mask and set of flags.
    pub fn new(mask: u32, flags: u32) -> (r: Self)
        ensures
            r.0.mask == mask,
            r.0.flags == flags,
    {
        CanCtrlModes(can_ctrlmode { mask, flags })
    }

    /// Create the set of mode flags for a single mode.
    pub fn from_mode(mode: CanCtrlMode, on: bool) -> (r: Self)
        ensures
            r.0.mask == mode.mask_spec(),
            r.0.flags == (if on { mode.mask_spec() } else { 0u32 }),
            r.0 == with_mode(no_modes(), mode, on),
    {
        let mask = mode.mask();
        let flags = if on {
            mask
        } else {
            0
        };
        assert(0u32 | mask == mask) by (bit_vector);
        Self::new(mask, flags)
    }

    /// Adds a mode flag to the existing set of modes.
    pub fn add(&mut self, mode: CanCtrlMode, on: bool)
        ensures
            final(self).0 == with_mode(old(self).0, mode, on),
    {
        let mask = mode.mask();
        self.0.mask = self.0.mask | mask;
        if on {
            self.0.flags = self.0.flags | mask;
        }
    }

    /// Adds each `(mode, on)` of `modes` in turn, as `add` does.
    pub fn add_all(&mut self, modes: &[(CanCtrlMode, bool)])
        ensures
            final(self).0 == with_modes(old(self).0, modes@),
    {
        let ghost start = self.0;
        let mut i: usize = 0;
        while i < modes.len()
            invariant
                0 <= i <= modes@.len(),
                self.0 == with_modes(start, modes@.subrange(0, i as int)),
            decreases modes@.len() - i,
        {
            let (mode, on) = modes[i];
            self.add(mode, on);
            proof {
                let next = modes@.subrange(0, i + 1);
                assert(next.drop_last() =~= modes@.subrange(0, i as int));
                assert(next.last() == modes@[i as int]);
            }
            i = i + 1;
        }
        assert(modes@.subrange(0, modes@.len() as int) =~= modes@);
    }

    /// The pair that the modes of `modes`, added in turn to the empty pair,
    /// give: as mask the OR of all their masks, as flags the OR of the masks
    /// of those turned on.
    pub fn from_modes(modes: &[(CanCtrlMode, bool)]) -> (r: Self)
        ensures
            r.0 == with_modes(no_modes(), modes@),
            r.0.mask == mask_union(modes@),
            r.0.flags == on_union(modes@),
    {
        let mut r = CanCtrlModes(can_ctrlmode { mask: 0, flags: 0 });
        r.add_all(modes);
        proof {
            lemma_accumulation(modes@);
        }
        r
    }

    /// Clears all of the mode flags in the collection.
    pub fn clear(&mut self)
        ensures
            final(self).0 == no_modes(),
    {
        self.0 = can_ctrlmode { mask: 0, flags: 0 };
    }
}

impl From<can_ctrlmode> for CanCtrlModes {
    fn from(mode: can_ctrlmode) -> (r: CanCtrlModes) {
        CanCtrlModes(mode)
    }
}

impl vstd::std_specs::convert::FromSpecImpl<can_ctrlmode> for CanCtrlModes {
    open spec fn obeys_from_spec() -> bool {
        true
    }

    open spec fn from_spec(v: can_ctrlmode) -> CanCtrlModes {
        CanCtrlModes(v)
    }
}

impl From<CanCtrlModes> for can_ctrlmode {
    fn from(mode: CanCtrlModes) -> (r: can_ctrlmode) {
        mode.0
    }
}

impl vstd::std_specs::convert::FromSpecImpl<CanCtrlModes> for can_ctrlmode {
    open spec fn obeys_from_spec() -> bool {
        true
    }

    open spec fn from_spec(v: CanCtrlModes) -> can_ctrlmode {
        v.0
    }
}

/// Building a pair from one mode is adding that mode to the empty pair.
pub proof fn lemma_from_mode_is_add(mode: CanCtrlMode, on: bool)
    ensures
        with_mode(no_modes(), mode, on).mask == mode.mask_spec(),
        with_mode(no_modes(), mode, on).flags == (if on { mode.mask_spec() } else { 0u32 }),
        with_modes(no_modes(), seq![(mode, on)]) == with_mode(no_modes(), mode, on),
{
    let m = mode.mask_spec();
    assert(0u32 | m == m) by (bit_vector);
    let one = seq![(mode, on)];
    assert(one.drop_last() =~= Seq::<(CanCtrlMode, bool)>::empty());
    assert(with_modes(no_modes(), one.drop_last()) == no_modes());
    assert(one.last() == (mode, on));
}

/// Adding modes one by one to the empty pair gives as mask the OR of all
/// their masks, on or off, and as flags the OR of the masks of those turned
/// on.
pub proof fn lemma_accumulation(s: Seq<(CanCtrlMode, bool)>)
    ensures
        with_modes(no_modes(), s).mask == mask_union(s),
        with_modes(no_modes(), s).flags == on_union(s),
    decreases s.len(),
{
    if s.len() > 0 {
        lemma_accumulation(s.drop_last());
    }
}

proof fn lemma_or_bit(a: u32, b: u32, k: u32)
    by (bit_vector)
    requires
        b < 9,
        k < 9,
    ensures
        bit_set(a | (1u32 << b), k) == (bit_set(a, k) || b == k),
        a < 512 ==> (a | (1u32 << b)) < 512,
{
}

proof fn lemma_bits_equal(a: u32, b: u32)
    by (bit_vector)
    requires
        a < 512,
        b < 512,
        bit_set(a, 0) == bit_set(b, 0),
        bit_set(a, 1) == bit_set(b, 1),
        bit_set(a, 2) == bit_set(b, 2),
        bit_set(a, 3) == bit_set(b, 3),
        bit_set(a, 4) == bit_set(b, 4),
        bit_set(a, 5) == bit_set(b, 5),
        bit_set(a, 6) == bit_set(b, 6),
        bit_set(a, 7) == bit_set(b, 7),
        bit_set(a, 8) == bit_set(b, 8),
    ensures
        a == b,
{
}

proof fn lemma_union_bits(s: Seq<(CanCtrlMode, bool)>, k: u32)
    requires
        k < 9,
    ensures
        mask_union(s) < 512,
        on_union(s) < 512,
        bit_set(mask_union(s), k) <==> exists|j: int| 0 <= j < s.len() && (#[trigger] s[j]).0.bit() == k,
        bit_set(on_union(s), k) <==> exists|j: int|
            0 <= j < s.len() && (#[trigger] s[j]).0.bit() == k && s[j].1,
    decreases s.len(),
{
    if s.len() == 0 {
        assert(bit_set(0u32, k) == false) by (bit_vector);
        assert(0u32 < 512u32);
    } else {
        let p = s.drop_last();
        lemma_union_bits(p, k);
        let (mode, on) = s.last();
        lemma_mode_masks();
        assert(mode.mask_spec() == 1u32 << mode.bit());
        lemma_or_bit(mask_union(p), mode.bit(), k);
        lemma_or_bit(on_union(p), mode.bit(), k);
        if bit_set(mask_union(p), k) {
            let j = choose|j: int| 0 <= j < p.len() && (#[trigger] p[j]).0.bit() == k;
            assert(s[j] == p[j]);
        }
        if bit_set(on_union(p), k) {
            let j = choose|j: int| 0 <= j < p.len() && (#[trigger] p[j]).0.bit() == k && p[j].1;
            assert(s[j] == p[j]);
        }
        if exists|j: int| 0 <= j < s.len() && (#[trigger] s[j]).0.bit() == k {
            let j = choose|j: int| 0 <= j < s.len() && (#[trigger] s[j]).0.bit() == k;
            if j < s.len() - 1 {
                assert(p[j] == s[j]);
            }
        }
        if exists|j: int| 0 <= j < s.len() && (#[trigger] s[j]).0.bit() == k && s[j].1 {
            let j = choose|j: int| 0 <= j < s.len() && (#[trigger] s[j]).0.bit() == k && s[j].1;
            if j < s.len() - 1 {
                assert(p[j] == s[j]);
            }
        }
    }
}

/// The same (mode, on) pairs, added in any order and any number of times,
/// give the same mask and flags.
pub proof fn lemma_order_independent(s: Seq<(CanCtrlMode, bool)>, t: Seq<(CanCtrlMode, bool)>)
    requires
        s.to_set() == t.to_set(),
    ensures
        with_modes(no_modes(), s) == with_modes(no_modes(), t),
{
    lemma_accumulation(s);
    lemma_accumulation(t);
    assert forall|k: u32| k < 9 implies bit_set(mask_union(s), k) == bit_set(mask_union(t), k)
        && bit_set(on_union(s), k) == bit_set(on_union(t), k) by {
        lemma_union_bits(s, k);
        lemma_union_bits(t, k);
        if exists|j: int| 0 <= j < s.len() && (#[trigger] s[j]).0.bit() == k {
            let j = choose|j: int| 0 <= j < s.len() && (#[trigger] s[j]).0.bit() == k;
            assert(s.to_set().contains(s[j]));
            assert(t.contains(s[j]));
        }
        if exists|j: int| 0 <= j < t.len() && (#[trigger] t[j]).0.bit() == k {
            let j = choose|j: int| 0 <= j < t.len() && (#[trigger] t[j]).0.bit() == k;
            assert(t.to_set().contains(t[j]));
            assert(s.contains(t[j]));
        }
        if exists|j: int| 0 <= j < s.len() && (#[trigger] s[j]).0.bit() == k && s[j].1 {
            let j = choose|j: int| 0 <= j < s.len() && (#[trigger] s[j]).0.bit() == k && s[j].1;
            assert(s.to_set().contains(s[j]));
            assert(t.contains(s[j]));
        }
        if exists|j: int| 0 <= j < t.len() && (#[trigger] t[j]).0.bit() == k && t[j].1 {
            let j = choose|j: int| 0 <= j < t.len() && (#[trigger] t[j]).0.bit() == k && t[j].1;
            assert(t.to_set().contains(t[j]));
            assert(s.contains(t[j]));
        }
    }
    lemma_union_bits(s, 0);
    lemma_union_bits(t, 0);
    lemma_bits_equal(mask_union(s), mask_union(t));
    lemma_bits_equal(on_union(s), on_union(t));
}

} // verus!
