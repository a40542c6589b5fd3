//! Configuration byte model: four independent bit fields packed in one byte.
//!
//! Layout (unused high bits are reserved-zero):
//! bit 0 shutdown, bit 1 alert mode, bit 2 alert polarity,
//! bits 3-4 fault queue length (0=1, 1=2, 2=4, 3=8 consecutive faults).

use vstd::prelude::*;

verus! {

/// Number of consecutive faults the device must see before the alert
/// output asserts; the two-bit field admits exactly these four values.
#[derive(Clone, Copy, Debug, PartialEq, Eq, Structural)]
pub enum OsFailQueueSize {
    One,
    Two,
    Four,
    Eight,
}

impl OsFailQueueSize {
    /// The two-bit code this queue length is stored as.
    pub open spec fn spec_code(self) -> u8 {
        match self {
            OsFailQueueSize::One => 0,
            OsFailQueueSize::Two => 1,
            OsFailQueueSize::Four => 2,
            OsFailQueueSize::Eight => 3,
        }
    }

    /// The queue length stored under a two-bit code.
    pub open spec fn spec_from_code(code: u8) -> OsFailQueueSize {
        if code == 1 {
            OsFailQueueSize::Two
        } else if code == 2 {
            OsFailQueueSize::Four
        } else if code == 3 {
            OsFailQueueSize::Eight
        } else {
            OsFailQueueSize::One
        }
    }

    pub fn code(self) -> (r: u8)
        ensures
            r == self.spec_code(),
    {
        match self {
            OsFailQueueSize::One => 0,
            OsFailQueueSize::Two => 1,
            OsFailQueueSize::Four => 2,
            OsFailQueueSize::Eight => 3,
        }
    }
}

/// The shutdown field (bit 0) of a configuration byte.
pub open spec fn spec_shutdown(b: u8) -> bool {
    b & 0x01 != 0
}

/// The alert-mode field (bit 1): false = comparator, true = interrupt.
pub open spec fn spec_os_mode(b: u8) -> bool {
    b & 0x02 != 0
}

/// The alert-polarity field (bit 2): false = active-low, true = active-high.
pub open spec fn spec_os_polarity(b: u8) -> bool {
    b & 0x04 != 0
}

/// The two-bit fault-queue code (bits 3-4) of a configuration byte.
pub open spec fn spec_fail_queue_code(b: u8) -> u8 {
    (b >> 3) & 0x03
}

/// Builder and accessor over the device's configuration byte.
///
/// Each setter ORs its field's shifted, masked value into the byte and
/// leaves the other three fields untouched; a fresh builder is all zero
/// (normal mode, comparator, active-low, queue length 1).
pub struct Gx21m15Config {
    value: u8,
}

impl View for Gx21m15Config {
    type V = u8;

    closed spec fn view(&self) -> u8 {
        self.value
    }
}

impl Gx21m15Config {
    pub fn new() -> (r: Self)
        ensures
            r@ == 0,
    {
        Self { value: 0 }
    }

    /// Wraps a configuration byte as read back from the device.
    pub fn from_byte(value: u8) -> (r: Self)
        ensures
            r@ == value,
    {
        Self { value }
    }

    /// The built configuration byte, ready to be written to the device.
    pub fn build(&self) -> (r: u8)
        ensures
            r == self@,
    {
        self.value
    }

    pub fn set_shutdown(&mut self, shutdown: bool)
        ensures
            final(self)@ == (old(self)@ | ((if shutdown { 1u8 } else { 0u8 }) & 0x01)),
            spec_shutdown(final(self)@) == (spec_shutdown(old(self)@) || shutdown),
            spec_os_mode(final(self)@) == spec_os_mode(old(self)@),
            spec_os_polarity(final(self)@) == spec_os_polarity(old(self)@),
            spec_fail_queue_code(final(self)@) == spec_fail_queue_code(old(self)@),
    {
        let bit: u8 = if shutdown { 1 } else { 0 };
        proof {
            let b = self.value;
            assert((b | (bit & 0x01)) & 0x01 == (if bit == 1 { 1u8 } else { b & 0x01 })
                && (b | (bit & 0x01)) & 0x02 == b & 0x02
                && (b | (bit & 0x01)) & 0x04 == b & 0x04
                && ((b | (bit & 0x01)) >> 3) & 0x03 == (b >> 3) & 0x03) by (bit_vector)
                requires bit == 0 || bit == 1;
        }
        self.value |= bit & 0x01;
    }

    pub fn set_os_mode(&mut self, interrupt_mode: bool)
        ensures
            final(self)@ == (old(self)@ | (((if interrupt_mode { 1u8 } else { 0u8 }) << 1) & 0x02)),
            spec_os_mode(final(self)@) == (spec_os_mode(old(self)@) || interrupt_mode),
            spec_shutdown(final(self)@) == spec_shutdown(old(self)@),
            spec_os_polarity(final(self)@) == spec_os_polarity(old(self)@),
            spec_fail_queue_code(final(self)@) == spec_fail_queue_code(old(self)@),
    {
        let bit: u8 = if interrupt_mode { 1 } else { 0 };
        proof {
            let b = self.value;
            assert((b | ((bit << 1) & 0x02)) & 0x02 == (if bit == 1 { 2u8 } else { b & 0x02 })
                && (b | ((bit << 1) & 0x02)) & 0x01 == b & 0x01
                && (b | ((bit << 1) & 0x02)) & 0x04 == b & 0x04
                && ((b | ((bit << 1) & 0x02)) >> 3) & 0x03 == (b >> 3) & 0x03) by (bit_vector)
                requires bit == 0 || bit == 1;
        }
        self.value |= (bit << 1) & 0x02;
    }

    pub fn set_os_polarity(&mut self, positive: bool)
        ensures
            final(self)@ == (old(self)@ | (((if positive { 1u8 } else { 0u8 }) << 2) & 0x04)),
            spec_os_polarity(final(self)@) == (spec_os_polarity(old(self)@) || positive),
            spec_shutdown(final(self)@) == spec_shutdown(old(self)@),
            spec_os_mode(final(self)@) == spec_os_mode(old(self)@),
            spec_fail_queue_code(final(self)@) == spec_fail_queue_code(old(self)@),
    {
        let bit: u8 = if positive { 1 } else { 0 };
        proof {
            let b = self.value;
            assert((b | ((bit << 2) & 0x04)) & 0x04 == (if bit == 1 { 4u8 } else { b & 0x04 })
                && (b | ((bit << 2) & 0x04)) & 0x01 == b & 0x01
                && (b | ((bit << 2) & 0x04)) & 0x02 == b & 0x02
                && ((b | ((bit << 2) & 0x04)) >> 3) & 0x03 == (b >> 3) & 0x03) by (bit_vector)
                requires bit == 0 || bit == 1;
        }
        self.value |= (bit << 2) & 0x04;
    }

    pub fn set_os_fail_queue_size(&mut self, size: OsFailQueueSize)
        ensures
            final(self)@ == (old(self)@ | ((size.spec_code() << 3) & 0x18)),
            spec_fail_queue_code(final(self)@)
                == (spec_fail_queue_code(old(self)@) | size.spec_code()),
            spec_shutdown(final(self)@) == spec_shutdown(old(self)@),
            spec_os_mode(final(self)@) == spec_os_mode(old(self)@),
            spec_os_polarity(final(self)@) == spec_os_polarity(old(self)@),
    {
        let code = size.code();
        proof {
            let b = self.value;
            let c = size.spec_code();
            assert(((b | ((c << 3) & 0x18)) >> 3) & 0x03 == ((b >> 3) & 0x03) | c
                && (b | ((c << 3) & 0x18)) & 0x01 == b & 0x01
                && (b | ((c << 3) & 0x18)) & 0x02 == b & 0x02
                && (b | ((c << 3) & 0x18)) & 0x04 == b & 0x04) by (bit_vector)
                requires c <= 3;
        }
        self.value |= (code << 3) & 0x18;
    }

    pub fn get_shutdown(&self) -> (r: bool)
        ensures
            r == spec_shutdown(self@),
    {
        (self.value & 0x01) != 0
    }

    pub fn get_os_mode(&self) -> (r: bool)
        ensures
            r == spec_os_mode(self@),
    {
        (self.value & 0x02) != 0
    }

    pub fn get_os_polarity(&self) -> (r: bool)
        ensures
            r == spec_os_polarity(self@),
    {
        (self.value & 0x04) != 0
    }

    pub fn get_os_fail_queue_size(&self) -> (r: OsFailQueueSize)
        ensures
            r == OsFailQueueSize::spec_from_code(spec_fail_queue_code(self@)),
    {
        match (self.value >> 3) & 0x03 {
            1 => OsFailQueueSize::Two,
            2 => OsFailQueueSize::Four,
            3 => OsFailQueueSize::Eight,
            _ => OsFailQueueSize::One,
        }
    }
}

/// Every field set on a fresh builder reads back unchanged: the stored
/// configuration byte round-trips each legal field value through its
/// setter/getter pair.
pub proof fn lemma_config_set_get_round_trip(
    size: OsFailQueueSize,
    positive: bool,
    interrupt_mode: bool,
    shutdown: bool,
)
    ensures
        OsFailQueueSize::spec_from_code(spec_fail_queue_code(0u8 | ((size.spec_code() << 3) & 0x18)))
            == size,
        spec_os_polarity(0u8 | (((if positive { 1u8 } else { 0u8 }) << 2) & 0x04)) == positive,
        spec_os_mode(0u8 | (((if interrupt_mode { 1u8 } else { 0u8 }) << 1) & 0x02))
            == interrupt_mode,
        spec_shutdown(0u8 | ((if shutdown { 1u8 } else { 0u8 }) & 0x01)) == shutdown,
{
    let c = size.spec_code();
    assert(((0u8 | ((c << 3) & 0x18)) >> 3) & 0x03 == c) by (bit_vector)
        requires c <= 3;
    let p: u8 = if positive { 1 } else { 0 };
    assert((0u8 | ((p << 2) & 0x04)) & 0x04 == (if p == 1 { 4u8 } else { 0u8 })) by (bit_vector)
        requires p == 0 || p == 1;
    let m: u8 = if interrupt_mode { 1 } else { 0 };
    assert((0u8 | ((m << 1) & 0x02)) & 0x02 == (if m == 1 { 2u8 } else { 0u8 })) by (bit_vector)
        requires m == 0 || m == 1;
    let s: u8 = if shutdown { 1 } else { 0 };
    assert((0u8 | (s & 0x01)) & 0x01 == s) by (bit_vector)
        requires s == 0 || s == 1;
}

} // verus!
