//! Bit-set types carried in packets: the header flags byte, capability
//! negotiation bits and server runtime-state bits.

use vstd::prelude::*;

verus! {

/// Flags byte of the common header; bit 0 is PTT.
#[derive(Debug, Clone, Copy, PartialEq, Eq, Structural)]
pub struct Flags(pub u8);

impl Flags {
    /// No flag set.
    pub fn none() -> (r: Flags)
        ensures
            r.0 == 0,
    {
        Flags(0)
    }

    /// Only the PTT bit set.
    pub fn ptt_flag() -> (r: Flags)
        ensures
            r.0 == 1,
    {
        Flags(1)
    }

    /// Whether the PTT bit is set.
    pub open spec fn spec_ptt(self) -> bool {
        self.0 & 1 != 0
    }

    /// The flags with the PTT bit set to `ptt` and every other bit kept.
    pub open spec fn spec_with_ptt(self, ptt: bool) -> Flags {
        if ptt {
            Flags(self.0 | 1)
        } else {
            Flags(self.0 & 0xFE)
        }
    }

    /// Whether the PTT bit is set.
    pub fn ptt(self) -> (r: bool)
        ensures
            r == self.spec_ptt(),
    {
        self.0 & 1 != 0
    }

    /// Returns the flags with the PTT bit set to `ptt`; the other bits are kept.
    pub fn with_ptt(self, ptt: bool) -> (r: Flags)
        ensures
            r == self.spec_with_ptt(ptt),
    {
        if ptt {
            Flags(self.0 | 1)
        } else {
            Flags(self.0 & 0xFE)
        }
    }

    /// Setting the PTT bit and reading it back gives the value set, and the
    /// seven other bits are never touched.
    pub proof fn lemma_with_ptt(self, ptt: bool)
        ensures
            self.spec_with_ptt(ptt).spec_ptt() == ptt,
            self.spec_with_ptt(ptt).0 & 0xFE == self.0 & 0xFE,
            self.spec_with_ptt(self.spec_ptt()) == self,
    {
        let b = self.0;
        assert((b | 1) & 1 != 0) by (bit_vector);
        assert((b & 0xFE) & 1 == 0) by (bit_vector);
        assert((b | 1) & 0xFE == b & 0xFE) by (bit_vector);
        assert((b & 0xFE) & 0xFE == b & 0xFE) by (bit_vector);
        assert(b & 1 != 0 ==> b | 1 == b) by (bit_vector);
        assert(b & 1 == 0 ==> b & 0xFE == b) by (bit_vector);
    }
}

/// Capability bits exchanged in heartbeats; the negotiated set is the
/// intersection of what client and server support.
#[derive(Debug, Clone, Copy, PartialEq, Eq, Structural)]
pub struct Capabilities(pub u32);

impl Capabilities {
    /// 16 kHz wideband Opus audio.
    pub const WIDEBAND_AUDIO: u32 = 0x1;

    /// Spectrum and waterfall data.
    pub const SPECTRUM: u32 = 0x2;

    /// Second receiver (RX2 / VFO-B).
    pub const RX2: u32 = 0x4;

    /// The server reports runtime state in the `state_flags` field of
    /// `HeartbeatAck`; without this bit that field is not authoritative.
    pub const REPORTS_STATE_FLAGS: u32 = 0x8;

    /// The empty capability set.
    pub fn none() -> (r: Capabilities)
        ensures
            r.0 == 0,
    {
        Capabilities(0)
    }

    /// Whether any bit of `flag` is in the set.
    pub open spec fn spec_has(self, flag: u32) -> bool {
        self.0 & flag != 0
    }

    /// Whether any bit of `flag` is in the set.
    pub fn has(self, flag: u32) -> (r: bool)
        ensures
            r == self.spec_has(flag),
    {
        self.0 & flag != 0
    }

    /// The set with the bits of `flag` added.
    pub fn with(self, flag: u32) -> (r: Capabilities)
        ensures
            r.0 == self.0 | flag,
    {
        Capabilities(self.0 | flag)
    }

    /// The features both sides support.
    pub fn intersection(self, other: Capabilities) -> (r: Capabilities)
        ensures
            r.0 == self.0 & other.0,
    {
        Capabilities(self.0 & other.0)
    }

    /// A flag that was added is present, flags already present stay present,
    /// and for a single-bit flag the intersection has it exactly when both
    /// sides have it. The intersection does not depend on the order of its
    /// arguments.
    pub proof fn lemma_set_laws(a: Capabilities, b: Capabilities, flag: u32, other: u32)
        ensures
            flag != 0 ==> Capabilities(a.0 | flag).spec_has(flag),
            a.spec_has(other) ==> Capabilities(a.0 | flag).spec_has(other),
            flag != 0 && flag & ((flag - 1) as u32) == 0 ==> (Capabilities(a.0 & b.0).spec_has(flag) <==> (
            a.spec_has(flag) && b.spec_has(flag))),
            Capabilities(a.0 & b.0) == Capabilities(b.0 & a.0),
    {
        let x = a.0;
        let y = b.0;
        assert(flag != 0 ==> (x | flag) & flag != 0) by (bit_vector);
        assert(x & other != 0 ==> (x | flag) & other != 0) by (bit_vector);
        assert(flag != 0 && flag & ((flag - 1) as u32) == 0 ==> (((x & y) & flag != 0) <==> (x & flag
            != 0 && y & flag != 0))) by (bit_vector);
        assert(x & y == y & x) by (bit_vector);
    }
}

/// Runtime-state bits a server broadcasts in `HeartbeatAck`.
#[derive(Debug, Clone, Copy, PartialEq, Eq, Structural)]
pub struct ServerStateFlags(pub u32);

impl ServerStateFlags {
    /// The TCI connection to the radio software is up.
    pub const TCI_CONNECTED: u32 = 0x1;

    /// The radio software process is running on the server machine.
    pub const THETIS_RUNNING: u32 = 0x2;

    /// The server is launching the radio software.
    pub const THETIS_STARTING: u32 = 0x4;

    /// No state bit set.
    pub fn none() -> (r: ServerStateFlags)
        ensures
            r.0 == 0,
    {
        ServerStateFlags(0)
    }

    /// Whether any bit of `flag` is set.
    pub open spec fn spec_has(self, flag: u32) -> bool {
        self.0 & flag != 0
    }

    /// Whether any bit of `flag` is set.
    pub fn has(self, flag: u32) -> (r: bool)
        ensures
            r == self.spec_has(flag),
    {
        self.0 & flag != 0
    }

    /// The flags with the bits of `flag` added.
    pub fn with(self, flag: u32) -> (r: ServerStateFlags)
        ensures
            r.0 == self.0 | flag,
    {
        ServerStateFlags(self.0 | flag)
    }

    /// A flag that was added is present and flags already present stay present.
    pub proof fn lemma_with_has(s: ServerStateFlags, flag: u32, other: u32)
        ensures
            flag != 0 ==> ServerStateFlags(s.0 | flag).spec_has(flag),
            s.spec_has(other) ==> ServerStateFlags(s.0 | flag).spec_has(other),
    {
        let x = s.0;
        assert(flag != 0 ==> (x | flag) & flag != 0) by (bit_vector);
        assert(x & other != 0 ==> (x | flag) & other != 0) by (bit_vector);
    }
}

} // verus!
