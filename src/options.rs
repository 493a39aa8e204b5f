//! The open-options bitmask: independent capabilities that take effect when
//! a device is opened.
use vstd::prelude::*;

verus! {

/// No option set.
pub const OPEN_OPTIONS_NONE: u32 = 0x0;

/// Go online as part of opening.
pub const OPEN_OPTIONS_GO_ONLINE: u32 = 0x1;

/// Turn message polling on as part of opening.
pub const OPEN_OPTIONS_ENABLE_MESSAGE_POLLING: u32 = 0x2;

/// Set the device's real-time clock as part of opening.
pub const OPEN_OPTIONS_SYNC_RTC: u32 = 0x4;

/// Update the firmware automatically where needed.
pub const OPEN_OPTIONS_ENABLE_AUTO_UPDATE: u32 = 0x8;

/// Update the firmware even where it is current.
pub const OPEN_OPTIONS_FORCE_UPDATE: u32 = 0x10;

/// Every defined option.
pub const OPEN_OPTIONS_ALL: u32 = 0x1f;

/// Whether a mask holds defined options only.
pub open spec fn only_defined(bits: u32) -> bool {
    bits & !OPEN_OPTIONS_ALL == 0
}

/// Whether `flag` is one of the defined options.
pub open spec fn is_flag(flag: u32) -> bool {
    flag == OPEN_OPTIONS_GO_ONLINE || flag == OPEN_OPTIONS_ENABLE_MESSAGE_POLLING
        || flag == OPEN_OPTIONS_SYNC_RTC || flag == OPEN_OPTIONS_ENABLE_AUTO_UPDATE
        || flag == OPEN_OPTIONS_FORCE_UPDATE
}

/// A set of open options. Only defined bits are ever set.
#[derive(Debug, Clone, Copy, PartialEq, Eq, Structural)]
pub struct OpenOptions {
    bits: u32,
}

impl OpenOptions {
    pub closed spec fn wf(&self) -> bool {
        only_defined(self.bits)
    }

    pub closed spec fn view(&self) -> u32 {
        self.bits
    }

    /// No option set.
    pub fn none() -> (r: OpenOptions)
        ensures
            r.wf(),
            r@ == OPEN_OPTIONS_NONE,
    {
        proof {
            assert(0u32 & !0x1fu32 == 0) by (bit_vector);
        }
        OpenOptions { bits: OPEN_OPTIONS_NONE }
    }

    /// The options of a raw mask, or `None` where it has an undefined bit.
    pub closed spec fn spec_from_bits(bits: u32) -> Option<OpenOptions> {
        if only_defined(bits) {
            Some(OpenOptions { bits })
        } else {
            None
        }
    }

    /// The options of a raw mask; `None` where the mask has a bit that no
    /// option defines, so that no bit is ever dropped unnoticed.
    pub fn from_bits(bits: u32) -> (r: Option<OpenOptions>)
        ensures
            r == OpenOptions::spec_from_bits(bits),
            only_defined(bits) ==> (r matches Some(o) && o.wf() && o@ == bits),
            !only_defined(bits) ==> r is None,
    {
        if bits & !OPEN_OPTIONS_ALL == 0 {
            Some(OpenOptions { bits })
        } else {
            None
        }
    }

    /// The raw mask.
    pub fn bits(&self) -> (r: u32)
        ensures
            r == self@,
    {
        self.bits
    }

    /// Whether `flag` is set.
    pub fn contains(&self, flag: u32) -> (r: bool)
        requires
            is_flag(flag),
        ensures
            r == (self@ & flag == flag),
    {
        self.bits & flag == flag
    }

    /// These options with `flag` set or cleared; every other bit is kept.
    pub fn with(&self, flag: u32, enabled: bool) -> (r: OpenOptions)
        requires
            self.wf(),
            is_flag(flag),
        ensures
            r.wf(),
            enabled ==> r@ == self@ | flag,
            !enabled ==> r@ == self@ & !flag,
    {
        let b = self.bits;
        if enabled {
            proof {
                assert(b & !0x1fu32 == 0 && (flag == 1u32 || flag == 2u32 || flag == 4u32
                    || flag == 8u32 || flag == 16u32) ==> (b | flag) & !0x1fu32 == 0)
                    by (bit_vector);
            }
            OpenOptions { bits: b | flag }
        } else {
            proof {
                assert(b & !0x1fu32 == 0 ==> (b & !flag) & !0x1fu32 == 0) by (bit_vector);
            }
            OpenOptions { bits: b & !flag }
        }
    }
}

/// Writing a mask made of defined options and reading it back gives exactly
/// that mask: no bit is coerced on the way. A mask with an undefined bit is
/// refused rather than cut down.
pub proof fn lemma_open_options_round_trip(bits: u32)
    ensures
        only_defined(bits) ==> (OpenOptions::spec_from_bits(bits) matches Some(o) && o.wf()
            && o@ == bits),
        !only_defined(bits) ==> OpenOptions::spec_from_bits(bits) is None,
{
}

/// The options that can be read back are exactly those that can be written:
/// every value's mask converts back to that same value.
pub proof fn lemma_open_options_bits_round_trip(o: OpenOptions)
    requires
        o.wf(),
    ensures
        OpenOptions::spec_from_bits(o@) == Some(o),
{
}

/// Setting or clearing one option leaves every other option as it was.
pub proof fn lemma_options_independent(o: OpenOptions, flag: u32, other: u32, enabled: bool, r: OpenOptions)
    requires
        is_flag(flag),
        is_flag(other),
        flag != other,
        enabled ==> r@ == o@ | flag,
        !enabled ==> r@ == o@ & !flag,
    ensures
        (r@ & other == other) == (o@ & other == other),
        (r@ & flag == flag) == enabled,
{
    let a = o@;
    let b = r@;
    assert(
        (flag == 1u32 || flag == 2u32 || flag == 4u32 || flag == 8u32 || flag == 16u32)
        && (other == 1u32 || other == 2u32 || other == 4u32 || other == 8u32 || other == 16u32)
        && flag != other
        && (enabled ==> b == a | flag) && (!enabled ==> b == a & !flag)
        ==> ((b & other == other) == (a & other == other)) && ((b & flag == flag) == enabled)
    ) by (bit_vector);
}

} // verus!
