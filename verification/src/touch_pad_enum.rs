//! The enumeration catalog: one closed value set per hardware-configurable
//! dimension, each with the exact integer encoding of the native ABI.
//!
//! Every set is a bijection between its variants and its codes: `encode` is
//! total, `decode` is partial, and `decode` inverts `encode` on every
//! variant. An integer that decodes to `None` is a protocol violation of the
//! native driver's output, never silently coerced into a variant. Sets that
//! bound a hardware range carry a sentinel variant (`Max` and the like) that
//! marks the boundary; the type system does not special-case it, and its
//! rejection as a configuration value is the native driver's responsibility.

use vstd::prelude::*;

verus! {

/// Touch pad channel.
#[derive(Clone, Copy, Debug, PartialEq, Eq, Structural)]
pub enum TouchPadChannel {
    /// GPIO4(ESP32)
    Num0,
    /// GPIO0(ESP32) / GPIO1(ESP32-S2)
    Num1,
    /// GPIO2(ESP32) / GPIO2(ESP32-S2)
    Num2,
    /// GPIO15(ESP32) / GPIO3(ESP32-S2)
    Num3,
    /// GPIO13(ESP32) / GPIO4(ESP32-S2)
    Num4,
    /// GPIO12(ESP32) / GPIO5(ESP32-S2)
    Num5,
    /// GPIO14(ESP32) / GPIO6(ESP32-S2)
    Num6,
    /// GPIO27(ESP32) / GPIO7(ESP32-S2)
    Num7,
    /// GPIO33(ESP32) / GPIO8(ESP32-S2)
    Num8,
    /// GPIO32(ESP32) / GPIO9(ESP32-S2)
    Num9,
    /// Sentinel marking the boundary of the valid channel range
    Max,
}

impl TouchPadChannel {
    /// The native ABI code of each variant.
    pub open spec fn code_spec(self) -> u32 {
        match self {
            TouchPadChannel::Num0 => 0,
            TouchPadChannel::Num1 => 1,
            TouchPadChannel::Num2 => 2,
            TouchPadChannel::Num3 => 3,
            TouchPadChannel::Num4 => 4,
            TouchPadChannel::Num5 => 5,
            TouchPadChannel::Num6 => 6,
            TouchPadChannel::Num7 => 7,
            TouchPadChannel::Num8 => 8,
            TouchPadChannel::Num9 => 9,
            TouchPadChannel::Max => 10,
        }
    }

    /// The inverse of the encoding: `Some(v)` exactly on the code of a
    /// variant `v`, `None` on every other integer.
    pub open spec fn decode_spec(raw: u32) -> Option<TouchPadChannel> {
        if raw == 0 {
            Some(TouchPadChannel::Num0)
        } else if raw == 1 {
            Some(TouchPadChannel::Num1)
        } else if raw == 2 {
            Some(TouchPadChannel::Num2)
        } else if raw == 3 {
            Some(TouchPadChannel::Num3)
        } else if raw == 4 {
            Some(TouchPadChannel::Num4)
        } else if raw == 5 {
            Some(TouchPadChannel::Num5)
        } else if raw == 6 {
            Some(TouchPadChannel::Num6)
        } else if raw == 7 {
            Some(TouchPadChannel::Num7)
        } else if raw == 8 {
            Some(TouchPadChannel::Num8)
        } else if raw == 9 {
            Some(TouchPadChannel::Num9)
        } else if raw == 10 {
            Some(TouchPadChannel::Max)
        } else {
            None
        }
    }

    /// Encode a variant as its native ABI value. Total: every variant,
    /// the sentinel included, has exactly one code.
    pub fn encode(self) -> (r: u32)
        ensures
            r == self.code_spec(),
    {
        match self {
            TouchPadChannel::Num0 => 0,
            TouchPadChannel::Num1 => 1,
            TouchPadChannel::Num2 => 2,
            TouchPadChannel::Num3 => 3,
            TouchPadChannel::Num4 => 4,
            TouchPadChannel::Num5 => 5,
            TouchPadChannel::Num6 => 6,
            TouchPadChannel::Num7 => 7,
            TouchPadChannel::Num8 => 8,
            TouchPadChannel::Num9 => 9,
            TouchPadChannel::Max => 10,
        }
    }

    /// Decode a native ABI value. Partial: an integer outside the defined
    /// set yields `None`.
    pub fn decode(raw: u32) -> (r: Option<TouchPadChannel>)
        ensures
            r == Self::decode_spec(raw),
    {
        match raw {
            0 => Some(TouchPadChannel::Num0),
            1 => Some(TouchPadChannel::Num1),
            2 => Some(TouchPadChannel::Num2),
            3 => Some(TouchPadChannel::Num3),
            4 => Some(TouchPadChannel::Num4),
            5 => Some(TouchPadChannel::Num5),
            6 => Some(TouchPadChannel::Num6),
            7 => Some(TouchPadChannel::Num7),
            8 => Some(TouchPadChannel::Num8),
            9 => Some(TouchPadChannel::Num9),
            10 => Some(TouchPadChannel::Max),
            _ => None,
        }
    }

    /// The encoding is injective: no two variants share a numeric code.
    pub proof fn lemma_encode_injective(a: TouchPadChannel, b: TouchPadChannel)
        requires
            a.code_spec() == b.code_spec(),
        ensures
            a == b,
    {
    }

    /// Decoding inverts encoding: every valid variant round-trips.
    pub proof fn lemma_decode_encode(v: TouchPadChannel)
        ensures
            Self::decode_spec(v.code_spec()) == Some(v),
    {
    }
}

/// Touch sensor high reference voltage.
#[derive(Clone, Copy, Debug, PartialEq, Eq, Structural)]
pub enum TouchHighVoltage {
    /// No change
    Keep,
    /// 2.4V
    V2_4,
    /// 2.5V
    V2_5,
    /// 2.6V
    V2_6,
    /// 2.7V
    V2_7,
    /// Sentinel marking the boundary of the valid range
    Max,
}

impl TouchHighVoltage {
    /// The native ABI code of each variant.
    pub open spec fn code_spec(self) -> i32 {
        match self {
            TouchHighVoltage::Keep => -1i32,
            TouchHighVoltage::V2_4 => 0,
            TouchHighVoltage::V2_5 => 1,
            TouchHighVoltage::V2_6 => 2,
            TouchHighVoltage::V2_7 => 3,
            TouchHighVoltage::Max => 4,
        }
    }

    /// The inverse of the encoding: `Some(v)` exactly on the code of a
    /// variant `v`, `None` on every other integer.
    pub open spec fn decode_spec(raw: i32) -> Option<TouchHighVoltage> {
        if raw == -1 {
            Some(TouchHighVoltage::Keep)
        } else if raw == 0 {
            Some(TouchHighVoltage::V2_4)
        } else if raw == 1 {
            Some(TouchHighVoltage::V2_5)
        } else if raw == 2 {
            Some(TouchHighVoltage::V2_6)
        } else if raw == 3 {
            Some(TouchHighVoltage::V2_7)
        } else if raw == 4 {
            Some(TouchHighVoltage::Max)
        } else {
            None
        }
    }

    /// Encode a variant as its native ABI value. Total: every variant,
    /// the sentinel included, has exactly one code.
    pub fn encode(self) -> (r: i32)
        ensures
            r == self.code_spec(),
    {
        match self {
            TouchHighVoltage::Keep => -1i32,
            TouchHighVoltage::V2_4 => 0,
            TouchHighVoltage::V2_5 => 1,
            TouchHighVoltage::V2_6 => 2,
            TouchHighVoltage::V2_7 => 3,
            TouchHighVoltage::Max => 4,
        }
    }

    /// Decode a native ABI value. Partial: an integer outside the defined
    /// set yields `None`.
    pub fn decode(raw: i32) -> (r: Option<TouchHighVoltage>)
        ensures
            r == Self::decode_spec(raw),
    {
        match raw {
            -1 => Some(TouchHighVoltage::Keep),
            0 => Some(TouchHighVoltage::V2_4),
            1 => Some(TouchHighVoltage::V2_5),
            2 => Some(TouchHighVoltage::V2_6),
            3 => Some(TouchHighVoltage::V2_7),
            4 => Some(TouchHighVoltage::Max),
            _ => None,
        }
    }

    /// The encoding is injective: no two variants share a numeric code.
    pub proof fn lemma_encode_injective(a: TouchHighVoltage, b: TouchHighVoltage)
        requires
            a.code_spec() == b.code_spec(),
        ensures
            a == b,
    {
    }

    /// Decoding inverts encoding: every valid variant round-trips.
    pub proof fn lemma_decode_encode(v: TouchHighVoltage)
        ensures
            Self::decode_spec(v.code_spec()) == Some(v),
    {
    }
}

/// Touch sensor low reference voltage.
#[derive(Clone, Copy, Debug, PartialEq, Eq, Structural)]
pub enum TouchLowVoltage {
    /// No change
    Keep,
    /// 0.5V
    V0_5,
    /// 0.6V
    V0_6,
    /// 0.7V
    V0_7,
    /// 0.8V
    V0_8,
    /// Sentinel marking the boundary of the valid range
    Max,
}

impl TouchLowVoltage {
    /// The native ABI code of each variant.
    pub open spec fn code_spec(self) -> i32 {
        match self {
            TouchLowVoltage::Keep => -1i32,
            TouchLowVoltage::V0_5 => 0,
            TouchLowVoltage::V0_6 => 1,
            TouchLowVoltage::V0_7 => 2,
            TouchLowVoltage::V0_8 => 3,
            TouchLowVoltage::Max => 4,
        }
    }

    /// The inverse of the encoding: `Some(v)` exactly on the code of a
    /// variant `v`, `None` on every other integer.
    pub open spec fn decode_spec(raw: i32) -> Option<TouchLowVoltage> {
        if raw == -1 {
            Some(TouchLowVoltage::Keep)
        } else if raw == 0 {
            Some(TouchLowVoltage::V0_5)
        } else if raw == 1 {
            Some(TouchLowVoltage::V0_6)
        } else if raw == 2 {
            Some(TouchLowVoltage::V0_7)
        } else if raw == 3 {
            Some(TouchLowVoltage::V0_8)
        } else if raw == 4 {
            Some(TouchLowVoltage::Max)
        } else {
            None
        }
    }

    /// Encode a variant as its native ABI value. Total: every variant,
    /// the sentinel included, has exactly one code.
    pub fn encode(self) -> (r: i32)
        ensures
            r == self.code_spec(),
    {
        match self {
            TouchLowVoltage::Keep => -1i32,
            TouchLowVoltage::V0_5 => 0,
            TouchLowVoltage::V0_6 => 1,
            TouchLowVoltage::V0_7 => 2,
            TouchLowVoltage::V0_8 => 3,
            TouchLowVoltage::Max => 4,
        }
    }

    /// Decode a native ABI value. Partial: an integer outside the defined
    /// set yields `None`.
    pub fn decode(raw: i32) -> (r: Option<TouchLowVoltage>)
        ensures
            r == Self::decode_spec(raw),
    {
        match raw {
            -1 => Some(TouchLowVoltage::Keep),
            0 => Some(TouchLowVoltage::V0_5),
            1 => Some(TouchLowVoltage::V0_6),
            2 => Some(TouchLowVoltage::V0_7),
            3 => Some(TouchLowVoltage::V0_8),
            4 => Some(TouchLowVoltage::Max),
            _ => None,
        }
    }

    /// The encoding is injective: no two variants share a numeric code.
    pub proof fn lemma_encode_injective(a: TouchLowVoltage, b: TouchLowVoltage)
        requires
            a.code_spec() == b.code_spec(),
        ensures
            a == b,
    {
    }

    /// Decoding inverts encoding: every valid variant round-trips.
    pub proof fn lemma_decode_encode(v: TouchLowVoltage)
        ensures
            Self::decode_spec(v.code_spec()) == Some(v),
    {
    }
}

/// Touch sensor high reference voltage attenuation.
#[derive(Clone, Copy, Debug, PartialEq, Eq, Structural)]
pub enum TouchVoltageAttenuation {
    /// No change
    Keep,
    /// 1.5V attenuation
    V1_5,
    /// 1.0V attenuation
    V1_0,
    /// 0.5V attenuation
    V0_5,
    /// 0V attenuation
    V0_0,
    /// Sentinel marking the boundary of the valid range
    Max,
}

impl TouchVoltageAttenuation {
    /// The native ABI code of each variant.
    pub open spec fn code_spec(self) -> i32 {
        match self {
            TouchVoltageAttenuation::Keep => -1i32,
            TouchVoltageAttenuation::V1_5 => 0,
            TouchVoltageAttenuation::V1_0 => 1,
            TouchVoltageAttenuation::V0_5 => 2,
            TouchVoltageAttenuation::V0_0 => 3,
            TouchVoltageAttenuation::Max => 4,
        }
    }

    /// The inverse of the encoding: `Some(v)` exactly on the code of a
    /// variant `v`, `None` on every other integer.
    pub open spec fn decode_spec(raw: i32) -> Option<TouchVoltageAttenuation> {
        if raw == -1 {
            Some(TouchVoltageAttenuation::Keep)
        } else if raw == 0 {
            Some(TouchVoltageAttenuation::V1_5)
        } else if raw == 1 {
            Some(TouchVoltageAttenuation::V1_0)
        } else if raw == 2 {
            Some(TouchVoltageAttenuation::V0_5)
        } else if raw == 3 {
            Some(TouchVoltageAttenuation::V0_0)
        } else if raw == 4 {
            Some(TouchVoltageAttenuation::Max)
        } else {
            None
        }
    }

    /// Encode a variant as its native ABI value. Total: every variant,
    /// the sentinel included, has exactly one code.
    pub fn encode(self) -> (r: i32)
        ensures
            r == self.code_spec(),
    {
        match self {
            TouchVoltageAttenuation::Keep => -1i32,
            TouchVoltageAttenuation::V1_5 => 0,
            TouchVoltageAttenuation::V1_0 => 1,
            TouchVoltageAttenuation::V0_5 => 2,
            TouchVoltageAttenuation::V0_0 => 3,
            TouchVoltageAttenuation::Max => 4,
        }
    }

    /// Decode a native ABI value. Partial: an integer outside the defined
    /// set yields `None`.
    pub fn decode(raw: i32) -> (r: Option<TouchVoltageAttenuation>)
        ensures
            r == Self::decode_spec(raw),
    {
        match raw {
            -1 => Some(TouchVoltageAttenuation::Keep),
            0 => Some(TouchVoltageAttenuation::V1_5),
            1 => Some(TouchVoltageAttenuation::V1_0),
            2 => Some(TouchVoltageAttenuation::V0_5),
            3 => Some(TouchVoltageAttenuation::V0_0),
            4 => Some(TouchVoltageAttenuation::Max),
            _ => None,
        }
    }

    /// The encoding is injective: no two variants share a numeric code.
    pub proof fn lemma_encode_injective(a: TouchVoltageAttenuation, b: TouchVoltageAttenuation)
        requires
            a.code_spec() == b.code_spec(),
        ensures
            a == b,
    {
    }

    /// Decoding inverts encoding: every valid variant round-trips.
    pub proof fn lemma_decode_encode(v: TouchVoltageAttenuation)
        ensures
            Self::decode_spec(v.code_spec()) == Some(v),
    {
    }
}

/// Touch sensor charge/discharge speed.
#[derive(Clone, Copy, Debug, PartialEq, Eq, Structural)]
pub enum TouchCountSlope {
    /// Always zero
    Slope0,
    /// Slowest
    Slope1,
    /// Speed 2
    Slope2,
    /// Speed 3
    Slope3,
    /// Speed 4
    Slope4,
    /// Speed 5
    Slope5,
    /// Speed 6
    Slope6,
    /// Fast
    Slope7,
    /// Sentinel marking the boundary of the valid range
    Max,
}

impl TouchCountSlope {
    /// The native ABI code of each variant.
    pub open spec fn code_spec(self) -> u32 {
        match self {
            TouchCountSlope::Slope0 => 0,
            TouchCountSlope::Slope1 => 1,
            TouchCountSlope::Slope2 => 2,
            TouchCountSlope::Slope3 => 3,
            TouchCountSlope::Slope4 => 4,
            TouchCountSlope::Slope5 => 5,
            TouchCountSlope::Slope6 => 6,
            TouchCountSlope::Slope7 => 7,
            TouchCountSlope::Max => 8,
        }
    }

    /// The inverse of the encoding: `Some(v)` exactly on the code of a
    /// variant `v`, `None` on every other integer.
    pub open spec fn decode_spec(raw: u32) -> Option<TouchCountSlope> {
        if raw == 0 {
            Some(TouchCountSlope::Slope0)
        } else if raw == 1 {
            Some(TouchCountSlope::Slope1)
        } else if raw == 2 {
            Some(TouchCountSlope::Slope2)
        } else if raw == 3 {
            Some(TouchCountSlope::Slope3)
        } else if raw == 4 {
            Some(TouchCountSlope::Slope4)
        } else if raw == 5 {
            Some(TouchCountSlope::Slope5)
        } else if raw == 6 {
            Some(TouchCountSlope::Slope6)
        } else if raw == 7 {
            Some(TouchCountSlope::Slope7)
        } else if raw == 8 {
            Some(TouchCountSlope::Max)
        } else {
            None
        }
    }

    /// Encode a variant as its native ABI value. Total: every variant,
    /// the sentinel included, has exactly one code.
    pub fn encode(self) -> (r: u32)
        ensures
            r == self.code_spec(),
    {
        match self {
            TouchCountSlope::Slope0 => 0,
            TouchCountSlope::Slope1 => 1,
            TouchCountSlope::Slope2 => 2,
            TouchCountSlope::Slope3 => 3,
            TouchCountSlope::Slope4 => 4,
            TouchCountSlope::Slope5 => 5,
            TouchCountSlope::Slope6 => 6,
            TouchCountSlope::Slope7 => 7,
            TouchCountSlope::Max => 8,
        }
    }

    /// Decode a native ABI value. Partial: an integer outside the defined
    /// set yields `None`.
    pub fn decode(raw: u32) -> (r: Option<TouchCountSlope>)
        ensures
            r == Self::decode_spec(raw),
    {
        match raw {
            0 => Some(TouchCountSlope::Slope0),
            1 => Some(TouchCountSlope::Slope1),
            2 => Some(TouchCountSlope::Slope2),
            3 => Some(TouchCountSlope::Slope3),
            4 => Some(TouchCountSlope::Slope4),
            5 => Some(TouchCountSlope::Slope5),
            6 => Some(TouchCountSlope::Slope6),
            7 => Some(TouchCountSlope::Slope7),
            8 => Some(TouchCountSlope::Max),
            _ => None,
        }
    }

    /// The encoding is injective: no two variants share a numeric code.
    pub proof fn lemma_encode_injective(a: TouchCountSlope, b: TouchCountSlope)
        requires
            a.code_spec() == b.code_spec(),
        ensures
            a == b,
    {
    }

    /// Decoding inverts encoding: every valid variant round-trips.
    pub proof fn lemma_decode_encode(v: TouchCountSlope)
        ensures
            Self::decode_spec(v.code_spec()) == Some(v),
    {
    }
}

/// Touch sensor initial charge level.
#[derive(Clone, Copy, Debug, PartialEq, Eq, Structural)]
pub enum TouchTieOption {
    /// Low level
    Low,
    /// High level
    High,
    /// Sentinel marking the boundary of the valid range
    Max,
}

impl TouchTieOption {
    /// The native ABI code of each variant.
    pub open spec fn code_spec(self) -> u32 {
        match self {
            TouchTieOption::Low => 0,
            TouchTieOption::High => 1,
            TouchTieOption::Max => 2,
        }
    }

    /// The inverse of the encoding: `Some(v)` exactly on the code of a
    /// variant `v`, `None` on every other integer.
    pub open spec fn decode_spec(raw: u32) -> Option<TouchTieOption> {
        if raw == 0 {
            Some(TouchTieOption::Low)
        } else if raw == 1 {
            Some(TouchTieOption::High)
        } else if raw == 2 {
            Some(TouchTieOption::Max)
        } else {
            None
        }
    }

    /// Encode a variant as its native ABI value. Total: every variant,
    /// the sentinel included, has exactly one code.
    pub fn encode(self) -> (r: u32)
        ensures
            r == self.code_spec(),
    {
        match self {
            TouchTieOption::Low => 0,
            TouchTieOption::High => 1,
            TouchTieOption::Max => 2,
        }
    }

    /// Decode a native ABI value. Partial: an integer outside the defined
    /// set yields `None`.
    pub fn decode(raw: u32) -> (r: Option<TouchTieOption>)
        ensures
            r == Self::decode_spec(raw),
    {
        match raw {
            0 => Some(TouchTieOption::Low),
            1 => Some(TouchTieOption::High),
            2 => Some(TouchTieOption::Max),
            _ => None,
        }
    }

    /// The encoding is injective: no two variants share a numeric code.
    pub proof fn lemma_encode_injective(a: TouchTieOption, b: TouchTieOption)
        requires
            a.code_spec() == b.code_spec(),
        ensures
            a == b,
    {
    }

    /// Decoding inverts encoding: every valid variant round-trips.
    pub proof fn lemma_decode_encode(v: TouchTieOption)
        ensures
            Self::decode_spec(v.code_spec()) == Some(v),
    {
    }
}

/// Touch sensor FSM mode.
#[derive(Clone, Copy, Debug, PartialEq, Eq, Structural)]
pub enum TouchFSMMode {
    /// Start touch FSM by timer
    Timer,
    /// Start touch FSM by software trigger
    SW,
    /// Sentinel marking the boundary of the valid range
    Max,
}

impl TouchFSMMode {
    /// The native ABI code of each variant.
    pub open spec fn code_spec(self) -> u32 {
        match self {
            TouchFSMMode::Timer => 0,
            TouchFSMMode::SW => 1,
            TouchFSMMode::Max => 2,
        }
    }

    /// The inverse of the encoding: `Some(v)` exactly on the code of a
    /// variant `v`, `None` on every other integer.
    pub open spec fn decode_spec(raw: u32) -> Option<TouchFSMMode> {
        if raw == 0 {
            Some(TouchFSMMode::Timer)
        } else if raw == 1 {
            Some(TouchFSMMode::SW)
        } else if raw == 2 {
            Some(TouchFSMMode::Max)
        } else {
            None
        }
    }

    /// Encode a variant as its native ABI value. Total: every variant,
    /// the sentinel included, has exactly one code.
    pub fn encode(self) -> (r: u32)
        ensures
            r == self.code_spec(),
    {
        match self {
            TouchFSMMode::Timer => 0,
            TouchFSMMode::SW => 1,
            TouchFSMMode::Max => 2,
        }
    }

    /// Decode a native ABI value. Partial: an integer outside the defined
    /// set yields `None`.
    pub fn decode(raw: u32) -> (r: Option<TouchFSMMode>)
        ensures
            r == Self::decode_spec(raw),
    {
        match raw {
            0 => Some(TouchFSMMode::Timer),
            1 => Some(TouchFSMMode::SW),
            2 => Some(TouchFSMMode::Max),
            _ => None,
        }
    }

    /// The encoding is injective: no two variants share a numeric code.
    pub proof fn lemma_encode_injective(a: TouchFSMMode, b: TouchFSMMode)
        requires
            a.code_spec() == b.code_spec(),
        ensures
            a == b,
    {
    }

    /// Decoding inverts encoding: every valid variant round-trips.
    pub proof fn lemma_decode_encode(v: TouchFSMMode)
        ensures
            Self::decode_spec(v.code_spec()) == Some(v),
    {
    }
}

/// Touch trigger mode.
#[derive(Clone, Copy, Debug, PartialEq, Eq, Structural)]
pub enum TouchTriggerMode {
    /// Touch interrupt happens if the counter value is less than the threshold
    Below,
    /// Touch interrupt happens if the counter value is larger than the threshold
    Above,
    /// Sentinel marking the boundary of the valid range
    Max,
}

impl TouchTriggerMode {
    /// The native ABI code of each variant.
    pub open spec fn code_spec(self) -> u32 {
        match self {
            TouchTriggerMode::Below => 0,
            TouchTriggerMode::Above => 1,
            TouchTriggerMode::Max => 2,
        }
    }

    /// The inverse of the encoding: `Some(v)` exactly on the code of a
    /// variant `v`, `None` on every other integer.
    pub open spec fn decode_spec(raw: u32) -> Option<TouchTriggerMode> {
        if raw == 0 {
            Some(TouchTriggerMode::Below)
        } else if raw == 1 {
            Some(TouchTriggerMode::Above)
        } else if raw == 2 {
            Some(TouchTriggerMode::Max)
        } else {
            None
        }
    }

    /// Encode a variant as its native ABI value. Total: every variant,
    /// the sentinel included, has exactly one code.
    pub fn encode(self) -> (r: u32)
        ensures
            r == self.code_spec(),
    {
        match self {
            TouchTriggerMode::Below => 0,
            TouchTriggerMode::Above => 1,
            TouchTriggerMode::Max => 2,
        }
    }

    /// Decode a native ABI value. Partial: an integer outside the defined
    /// set yields `None`.
    pub fn decode(raw: u32) -> (r: Option<TouchTriggerMode>)
        ensures
            r == Self::decode_spec(raw),
    {
        match raw {
            0 => Some(TouchTriggerMode::Below),
            1 => Some(TouchTriggerMode::Above),
            2 => Some(TouchTriggerMode::Max),
            _ => None,
        }
    }

    /// The encoding is injective: no two variants share a numeric code.
    pub proof fn lemma_encode_injective(a: TouchTriggerMode, b: TouchTriggerMode)
        requires
            a.code_spec() == b.code_spec(),
        ensures
            a == b,
    {
    }

    /// Decoding inverts encoding: every valid variant round-trips.
    pub proof fn lemma_decode_encode(v: TouchTriggerMode)
        ensures
            Self::decode_spec(v.code_spec()) == Some(v),
    {
    }
}

/// Touch trigger source.
#[derive(Clone, Copy, Debug, PartialEq, Eq, Structural)]
pub enum TouchTriggerSource {
    /// Wakeup interrupt is generated if both SET1 and SET2 are touched
    Both,
    /// Wakeup interrupt is generated if SET1 is touched
    Set1,
    /// Sentinel marking the boundary of the valid range
    Max,
}

impl TouchTriggerSource {
    /// The native ABI code of each variant.
    pub open spec fn code_spec(self) -> u32 {
        match self {
            TouchTriggerSource::Both => 0,
            TouchTriggerSource::Set1 => 1,
            TouchTriggerSource::Max => 2,
        }
    }

    /// The inverse of the encoding: `Some(v)` exactly on the code of a
    /// variant `v`, `None` on every other integer.
    pub open spec fn decode_spec(raw: u32) -> Option<TouchTriggerSource> {
        if raw == 0 {
            Some(TouchTriggerSource::Both)
        } else if raw == 1 {
            Some(TouchTriggerSource::Set1)
        } else if raw == 2 {
            Some(TouchTriggerSource::Max)
        } else {
            None
        }
    }

    /// Encode a variant as its native ABI value. Total: every variant,
    /// the sentinel included, has exactly one code.
    pub fn encode(self) -> (r: u32)
        ensures
            r == self.code_spec(),
    {
        match self {
            TouchTriggerSource::Both => 0,
            TouchTriggerSource::Set1 => 1,
            TouchTriggerSource::Max => 2,
        }
    }

    /// Decode a native ABI value. Partial: an integer outside the defined
    /// set yields `None`.
    pub fn decode(raw: u32) -> (r: Option<TouchTriggerSource>)
        ensures
            r == Self::decode_spec(raw),
    {
        match raw {
            0 => Some(TouchTriggerSource::Both),
            1 => Some(TouchTriggerSource::Set1),
            2 => Some(TouchTriggerSource::Max),
            _ => None,
        }
    }

    /// The encoding is injective: no two variants share a numeric code.
    pub proof fn lemma_encode_injective(a: TouchTriggerSource, b: TouchTriggerSource)
        requires
            a.code_spec() == b.code_spec(),
        ensures
            a == b,
    {
    }

    /// Decoding inverts encoding: every valid variant round-trips.
    pub proof fn lemma_decode_encode(v: TouchTriggerSource)
        ensures
            Self::decode_spec(v.code_spec()) == Some(v),
    {
    }
}

/// GPIO port.
#[derive(Clone, Copy, Debug, PartialEq, Eq, Structural)]
pub enum GPIOPort {
    /// Port 0
    Port0,
    /// Sentinel marking the boundary of the valid range
    Max,
}

impl GPIOPort {
    /// The native ABI code of each variant.
    pub open spec fn code_spec(self) -> u32 {
        match self {
            GPIOPort::Port0 => 0,
            GPIOPort::Max => 1,
        }
    }

    /// The inverse of the encoding: `Some(v)` exactly on the code of a
    /// variant `v`, `None` on every other integer.
    pub open spec fn decode_spec(raw: u32) -> Option<GPIOPort> {
        if raw == 0 {
            Some(GPIOPort::Port0)
        } else if raw == 1 {
            Some(GPIOPort::Max)
        } else {
            None
        }
    }

    /// Encode a variant as its native ABI value. Total: every variant,
    /// the sentinel included, has exactly one code.
    pub fn encode(self) -> (r: u32)
        ensures
            r == self.code_spec(),
    {
        match self {
            GPIOPort::Port0 => 0,
            GPIOPort::Max => 1,
        }
    }

    /// Decode a native ABI value. Partial: an integer outside the defined
    /// set yields `None`.
    pub fn decode(raw: u32) -> (r: Option<GPIOPort>)
        ensures
            r == Self::decode_spec(raw),
    {
        match raw {
            0 => Some(GPIOPort::Port0),
            1 => Some(GPIOPort::Max),
            _ => None,
        }
    }

    /// The encoding is injective: no two variants share a numeric code.
    pub proof fn lemma_encode_injective(a: GPIOPort, b: GPIOPort)
        requires
            a.code_spec() == b.code_spec(),
        ensures
            a == b,
    {
    }

    /// Decoding inverts encoding: every valid variant round-trips.
    pub proof fn lemma_decode_encode(v: GPIOPort)
        ensures
            Self::decode_spec(v.code_spec()) == Some(v),
    {
    }
}

/// GPIO number type.
#[derive(Clone, Copy, Debug, PartialEq, Eq, Structural)]
pub enum GpioNum {
    /// Use to signal not connected to S/W
    GpioNumNc,
    /// GPIO0, input and output
    GpioNum0,
    /// GPIO1, input and output
    GpioNum1,
    /// GPIO2, input and output
    GpioNum2,
    /// GPIO3, input and output
    GpioNum3,
    /// GPIO4, input and output
    GpioNum4,
    /// GPIO5, input and output
    GpioNum5,
    /// GPIO6, input and output
    GpioNum6,
    /// GPIO7, input and output
    GpioNum7,
    /// GPIO8, input and output
    GpioNum8,
    /// GPIO9, input and output
    GpioNum9,
    /// GPIO10, input and output
    GpioNum10,
    /// GPIO11, input and output
    GpioNum11,
    /// GPIO12, input and output
    GpioNum12,
    /// GPIO13, input and output
    GpioNum13,
    /// GPIO14, input and output
    GpioNum14,
    /// GPIO15, input and output
    GpioNum15,
    /// GPIO16, input and output
    GpioNum16,
    /// GPIO17, input and output
    GpioNum17,
    /// GPIO18, input and output
    GpioNum18,
    /// GPIO19, input and output
    GpioNum19,
    /// GPIO20, input and output
    GpioNum20,
    /// GPIO21, input and output
    GpioNum21,
    /// GPIO22, input and output
    GpioNum22,
    /// GPIO23, input and output
    GpioNum23,
    /// GPIO25, input and output
    GpioNum25,
    /// GPIO26, input and output
    GpioNum26,
    /// GPIO27, input and output
    GpioNum27,
    /// GPIO28, input and output
    GpioNum28,
    /// GPIO29, input and output
    GpioNum29,
    /// GPIO30, input and output
    GpioNum30,
    /// GPIO31, input and output
    GpioNum31,
    /// GPIO32, input and output
    GpioNum32,
    /// GPIO33, input and output
    GpioNum33,
    /// GPIO34, input mode only
    GpioNum34,
    /// GPIO35, input mode only
    GpioNum35,
    /// GPIO36, input mode only
    GpioNum36,
    /// GPIO37, input mode only
    GpioNum37,
    /// GPIO38, input mode only
    GpioNum38,
    /// GPIO39, input mode only
    GpioNum39,
    /// Sentinel marking the boundary of the valid range
    GpioNumMax,
}

impl GpioNum {
    /// The native ABI code of each variant.
    pub open spec fn code_spec(self) -> i32 {
        match self {
            GpioNum::GpioNumNc => -1i32,
            GpioNum::GpioNum0 => 0,
            GpioNum::GpioNum1 => 1,
            GpioNum::GpioNum2 => 2,
            GpioNum::GpioNum3 => 3,
            GpioNum::GpioNum4 => 4,
            GpioNum::GpioNum5 => 5,
            GpioNum::GpioNum6 => 6,
            GpioNum::GpioNum7 => 7,
            GpioNum::GpioNum8 => 8,
            GpioNum::GpioNum9 => 9,
            GpioNum::GpioNum10 => 10,
            GpioNum::GpioNum11 => 11,
            GpioNum::GpioNum12 => 12,
            GpioNum::GpioNum13 => 13,
            GpioNum::GpioNum14 => 14,
            GpioNum::GpioNum15 => 15,
            GpioNum::GpioNum16 => 16,
            GpioNum::GpioNum17 => 17,
            GpioNum::GpioNum18 => 18,
            GpioNum::GpioNum19 => 19,
            GpioNum::GpioNum20 => 20,
            GpioNum::GpioNum21 => 21,
            GpioNum::GpioNum22 => 22,
            GpioNum::GpioNum23 => 23,
            GpioNum::GpioNum25 => 25,
            GpioNum::GpioNum26 => 26,
            GpioNum::GpioNum27 => 27,
            GpioNum::GpioNum28 => 28,
            GpioNum::GpioNum29 => 29,
            GpioNum::GpioNum30 => 30,
            GpioNum::GpioNum31 => 31,
            GpioNum::GpioNum32 => 32,
            GpioNum::GpioNum33 => 33,
            GpioNum::GpioNum34 => 34,
            GpioNum::GpioNum35 => 35,
            GpioNum::GpioNum36 => 36,
            GpioNum::GpioNum37 => 37,
            GpioNum::GpioNum38 => 38,
            GpioNum::GpioNum39 => 39,
            GpioNum::GpioNumMax => 40,
        }
    }

    /// The inverse of the encoding: `Some(v)` exactly on the code of a
    /// variant `v`, `None` on every other integer.
    pub open spec fn decode_spec(raw: i32) -> Option<GpioNum> {
        if raw == -1 {
            Some(GpioNum::GpioNumNc)
        } else if raw == 0 {
            Some(GpioNum::GpioNum0)
        } else if raw == 1 {
            Some(GpioNum::GpioNum1)
        } else if raw == 2 {
            Some(GpioNum::GpioNum2)
        } else if raw == 3 {
            Some(GpioNum::GpioNum3)
        } else if raw == 4 {
            Some(GpioNum::GpioNum4)
        } else if raw == 5 {
            Some(GpioNum::GpioNum5)
        } else if raw == 6 {
            Some(GpioNum::GpioNum6)
        } else if raw == 7 {
            Some(GpioNum::GpioNum7)
        } else if raw == 8 {
            Some(GpioNum::GpioNum8)
        } else if raw == 9 {
            Some(GpioNum::GpioNum9)
        } else if raw == 10 {
            Some(GpioNum::GpioNum10)
        } else if raw == 11 {
            Some(GpioNum::GpioNum11)
        } else if raw == 12 {
            Some(GpioNum::GpioNum12)
        } else if raw == 13 {
            Some(GpioNum::GpioNum13)
        } else if raw == 14 {
            Some(GpioNum::GpioNum14)
        } else if raw == 15 {
            Some(GpioNum::GpioNum15)
        } else if raw == 16 {
            Some(GpioNum::GpioNum16)
        } else if raw == 17 {
            Some(GpioNum::GpioNum17)
        } else if raw == 18 {
            Some(GpioNum::GpioNum18)
        } else if raw == 19 {
            Some(GpioNum::GpioNum19)
        } else if raw == 20 {
            Some(GpioNum::GpioNum20)
        } else if raw == 21 {
            Some(GpioNum::GpioNum21)
        } else if raw == 22 {
            Some(GpioNum::GpioNum22)
        } else if raw == 23 {
            Some(GpioNum::GpioNum23)
        } else if raw == 25 {
            Some(GpioNum::GpioNum25)
        } else if raw == 26 {
            Some(GpioNum::GpioNum26)
        } else if raw == 27 {
            Some(GpioNum::GpioNum27)
        } else if raw == 28 {
            Some(GpioNum::GpioNum28)
        } else if raw == 29 {
            Some(GpioNum::GpioNum29)
        } else if raw == 30 {
            Some(GpioNum::GpioNum30)
        } else if raw == 31 {
            Some(GpioNum::GpioNum31)
        } else if raw == 32 {
            Some(GpioNum::GpioNum32)
        } else if raw == 33 {
            Some(GpioNum::GpioNum33)
        } else if raw == 34 {
            Some(GpioNum::GpioNum34)
        } else if raw == 35 {
            Some(GpioNum::GpioNum35)
        } else if raw == 36 {
            Some(GpioNum::GpioNum36)
        } else if raw == 37 {
            Some(GpioNum::GpioNum37)
        } else if raw == 38 {
            Some(GpioNum::GpioNum38)
        } else if raw == 39 {
            Some(GpioNum::GpioNum39)
        } else if raw == 40 {
            Some(GpioNum::GpioNumMax)
        } else {
            None
        }
    }

    /// Encode a variant as its native ABI value. Total: every variant,
    /// the sentinel included, has exactly one code.
    pub fn encode(self) -> (r: i32)
        ensures
            r == self.code_spec(),
    {
        match self {
            GpioNum::GpioNumNc => -1i32,
            GpioNum::GpioNum0 => 0,
            GpioNum::GpioNum1 => 1,
            GpioNum::GpioNum2 => 2,
            GpioNum::GpioNum3 => 3,
            GpioNum::GpioNum4 => 4,
            GpioNum::GpioNum5 => 5,
            GpioNum::GpioNum6 => 6,
            GpioNum::GpioNum7 => 7,
            GpioNum::GpioNum8 => 8,
            GpioNum::GpioNum9 => 9,
            GpioNum::GpioNum10 => 10,
            GpioNum::GpioNum11 => 11,
            GpioNum::GpioNum12 => 12,
            GpioNum::GpioNum13 => 13,
            GpioNum::GpioNum14 => 14,
            GpioNum::GpioNum15 => 15,
            GpioNum::GpioNum16 => 16,
            GpioNum::GpioNum17 => 17,
            GpioNum::GpioNum18 => 18,
            GpioNum::GpioNum19 => 19,
            GpioNum::GpioNum20 => 20,
            GpioNum::GpioNum21 => 21,
            GpioNum::GpioNum22 => 22,
            GpioNum::GpioNum23 => 23,
            GpioNum::GpioNum25 => 25,
            GpioNum::GpioNum26 => 26,
            GpioNum::GpioNum27 => 27,
            GpioNum::GpioNum28 => 28,
            GpioNum::GpioNum29 => 29,
            GpioNum::GpioNum30 => 30,
            GpioNum::GpioNum31 => 31,
            GpioNum::GpioNum32 => 32,
            GpioNum::GpioNum33 => 33,
            GpioNum::GpioNum34 => 34,
            GpioNum::GpioNum35 => 35,
            GpioNum::GpioNum36 => 36,
            GpioNum::GpioNum37 => 37,
            GpioNum::GpioNum38 => 38,
            GpioNum::GpioNum39 => 39,
            GpioNum::GpioNumMax => 40,
        }
    }

    /// Decode a native ABI value. Partial: an integer outside the defined
    /// set yields `None`.
    pub fn decode(raw: i32) -> (r: Option<GpioNum>)
        ensures
            r == Self::decode_spec(raw),
    {
        match raw {
            -1 => Some(GpioNum::GpioNumNc),
            0 => Some(GpioNum::GpioNum0),
            1 => Some(GpioNum::GpioNum1),
            2 => Some(GpioNum::GpioNum2),
            3 => Some(GpioNum::GpioNum3),
            4 => Some(GpioNum::GpioNum4),
            5 => Some(GpioNum::GpioNum5),
            6 => Some(GpioNum::GpioNum6),
            7 => Some(GpioNum::GpioNum7),
            8 => Some(GpioNum::GpioNum8),
            9 => Some(GpioNum::GpioNum9),
            10 => Some(GpioNum::GpioNum10),
            11 => Some(GpioNum::GpioNum11),
            12 => Some(GpioNum::GpioNum12),
            13 => Some(GpioNum::GpioNum13),
            14 => Some(GpioNum::GpioNum14),
            15 => Some(GpioNum::GpioNum15),
            16 => Some(GpioNum::GpioNum16),
            17 => Some(GpioNum::GpioNum17),
            18 => Some(GpioNum::GpioNum18),
            19 => Some(GpioNum::GpioNum19),
            20 => Some(GpioNum::GpioNum20),
            21 => Some(GpioNum::GpioNum21),
            22 => Some(GpioNum::GpioNum22),
            23 => Some(GpioNum::GpioNum23),
            25 => Some(GpioNum::GpioNum25),
            26 => Some(GpioNum::GpioNum26),
            27 => Some(GpioNum::GpioNum27),
            28 => Some(GpioNum::GpioNum28),
            29 => Some(GpioNum::GpioNum29),
            30 => Some(GpioNum::GpioNum30),
            31 => Some(GpioNum::GpioNum31),
            32 => Some(GpioNum::GpioNum32),
            33 => Some(GpioNum::GpioNum33),
            34 => Some(GpioNum::GpioNum34),
            35 => Some(GpioNum::GpioNum35),
            36 => Some(GpioNum::GpioNum36),
            37 => Some(GpioNum::GpioNum37),
            38 => Some(GpioNum::GpioNum38),
            39 => Some(GpioNum::GpioNum39),
            40 => Some(GpioNum::GpioNumMax),
            _ => None,
        }
    }

    /// The encoding is injective: no two variants share a numeric code.
    pub proof fn lemma_encode_injective(a: GpioNum, b: GpioNum)
        requires
            a.code_spec() == b.code_spec(),
        ensures
            a == b,
    {
    }

    /// Decoding inverts encoding: every valid variant round-trips.
    pub proof fn lemma_decode_encode(v: GpioNum)
        ensures
            Self::decode_spec(v.code_spec()) == Some(v),
    {
    }
}

/// GPIO interrupt type.
#[derive(Clone, Copy, Debug, PartialEq, Eq, Structural)]
pub enum GpioIntType {
    /// Disable GPIO interrupt
    GpioIntrDisable,
    /// Rising edge
    GpioIntrPosedge,
    /// Falling edge
    GpioIntrNegedge,
    /// Both rising and falling edge
    GpioIntrAnyedge,
    /// Input low level trigger
    GpioIntrLowLevel,
    /// Input high level trigger
    GpioIntrHighLevel,
    /// Sentinel marking the boundary of the valid range
    GpioIntrMax,
}

impl GpioIntType {
    /// The native ABI code of each variant.
    pub open spec fn code_spec(self) -> u32 {
        match self {
            GpioIntType::GpioIntrDisable => 0,
            GpioIntType::GpioIntrPosedge => 1,
            GpioIntType::GpioIntrNegedge => 2,
            GpioIntType::GpioIntrAnyedge => 3,
            GpioIntType::GpioIntrLowLevel => 4,
            GpioIntType::GpioIntrHighLevel => 5,
            GpioIntType::GpioIntrMax => 6,
        }
    }

    /// The inverse of the encoding: `Some(v)` exactly on the code of a
    /// variant `v`, `None` on every other integer.
    pub open spec fn decode_spec(raw: u32) -> Option<GpioIntType> {
        if raw == 0 {
            Some(GpioIntType::GpioIntrDisable)
        } else if raw == 1 {
            Some(GpioIntType::GpioIntrPosedge)
        } else if raw == 2 {
            Some(GpioIntType::GpioIntrNegedge)
        } else if raw == 3 {
            Some(GpioIntType::GpioIntrAnyedge)
        } else if raw == 4 {
            Some(GpioIntType::GpioIntrLowLevel)
        } else if raw == 5 {
            Some(GpioIntType::GpioIntrHighLevel)
        } else if raw == 6 {
            Some(GpioIntType::GpioIntrMax)
        } else {
            None
        }
    }

    /// Encode a variant as its native ABI value. Total: every variant,
    /// the sentinel included, has exactly one code.
    pub fn encode(self) -> (r: u32)
        ensures
            r == self.code_spec(),
    {
        match self {
            GpioIntType::GpioIntrDisable => 0,
            GpioIntType::GpioIntrPosedge => 1,
            GpioIntType::GpioIntrNegedge => 2,
            GpioIntType::GpioIntrAnyedge => 3,
            GpioIntType::GpioIntrLowLevel => 4,
            GpioIntType::GpioIntrHighLevel => 5,
            GpioIntType::GpioIntrMax => 6,
        }
    }

    /// Decode a native ABI value. Partial: an integer outside the defined
    /// set yields `None`.
    pub fn decode(raw: u32) -> (r: Option<GpioIntType>)
        ensures
            r == Self::decode_spec(raw),
    {
        match raw {
            0 => Some(GpioIntType::GpioIntrDisable),
            1 => Some(GpioIntType::GpioIntrPosedge),
            2 => Some(GpioIntType::GpioIntrNegedge),
            3 => Some(GpioIntType::GpioIntrAnyedge),
            4 => Some(GpioIntType::GpioIntrLowLevel),
            5 => Some(GpioIntType::GpioIntrHighLevel),
            6 => Some(GpioIntType::GpioIntrMax),
            _ => None,
        }
    }

    /// The encoding is injective: no two variants share a numeric code.
    pub proof fn lemma_encode_injective(a: GpioIntType, b: GpioIntType)
        requires
            a.code_spec() == b.code_spec(),
        ensures
            a == b,
    {
    }

    /// Decoding inverts encoding: every valid variant round-trips.
    pub proof fn lemma_decode_encode(v: GpioIntType)
        ensures
            Self::decode_spec(v.code_spec()) == Some(v),
    {
    }
}

/// GPIO mode type.
#[derive(Clone, Copy, Debug, PartialEq, Eq, Structural)]
pub enum GpioMode {
    /// Disable GPIO input and output
    GpioModeDisable,
    /// Input only
    GpioModeInput,
    /// Output only
    GpioModeOutput,
    /// Output only with open-drain mode
    GpioModeOutputOd,
    /// Output and input with open-drain mode
    GpioModeInputOutputOd,
    /// Output and input mode
    GpioModeInputOutput,
}

impl GpioMode {
    /// The native ABI code of each variant.
    pub open spec fn code_spec(self) -> u32 {
        match self {
            GpioMode::GpioModeDisable => 0,
            GpioMode::GpioModeInput => 1,
            GpioMode::GpioModeOutput => 2,
            GpioMode::GpioModeOutputOd => 6,
            GpioMode::GpioModeInputOutputOd => 7,
            GpioMode::GpioModeInputOutput => 3,
        }
    }

    /// The inverse of the encoding: `Some(v)` exactly on the code of a
    /// variant `v`, `None` on every other integer.
    pub open spec fn decode_spec(raw: u32) -> Option<GpioMode> {
        if raw == 0 {
            Some(GpioMode::GpioModeDisable)
        } else if raw == 1 {
            Some(GpioMode::GpioModeInput)
        } else if raw == 2 {
            Some(GpioMode::GpioModeOutput)
        } else if raw == 6 {
            Some(GpioMode::GpioModeOutputOd)
        } else if raw == 7 {
            Some(GpioMode::GpioModeInputOutputOd)
        } else if raw == 3 {
            Some(GpioMode::GpioModeInputOutput)
        } else {
            None
        }
    }

    /// Encode a variant as its native ABI value. Total: every variant,
    /// the sentinel included, has exactly one code.
    pub fn encode(self) -> (r: u32)
        ensures
            r == self.code_spec(),
    {
        match self {
            GpioMode::GpioModeDisable => 0,
            GpioMode::GpioModeInput => 1,
            GpioMode::GpioModeOutput => 2,
            GpioMode::GpioModeOutputOd => 6,
            GpioMode::GpioModeInputOutputOd => 7,
            GpioMode::GpioModeInputOutput => 3,
        }
    }

    /// Decode a native ABI value. Partial: an integer outside the defined
    /// set yields `None`.
    pub fn decode(raw: u32) -> (r: Option<GpioMode>)
        ensures
            r == Self::decode_spec(raw),
    {
        match raw {
            0 => Some(GpioMode::GpioModeDisable),
            1 => Some(GpioMode::GpioModeInput),
            2 => Some(GpioMode::GpioModeOutput),
            6 => Some(GpioMode::GpioModeOutputOd),
            7 => Some(GpioMode::GpioModeInputOutputOd),
            3 => Some(GpioMode::GpioModeInputOutput),
            _ => None,
        }
    }

    /// The encoding is injective: no two variants share a numeric code.
    pub proof fn lemma_encode_injective(a: GpioMode, b: GpioMode)
        requires
            a.code_spec() == b.code_spec(),
        ensures
            a == b,
    {
    }

    /// Decoding inverts encoding: every valid variant round-trips.
    pub proof fn lemma_decode_encode(v: GpioMode)
        ensures
            Self::decode_spec(v.code_spec()) == Some(v),
    {
    }
}

/// GPIO pull-up resistor type.
#[derive(Clone, Copy, Debug, PartialEq, Eq, Structural)]
pub enum GpioPullup {
    /// Disable GPIO pull-up resistor
    GpioPullupDisable,
    /// Enable GPIO pull-up resistor
    GpioPullupEnable,
}

impl GpioPullup {
    /// The native ABI code of each variant.
    pub open spec fn code_spec(self) -> u32 {
        match self {
            GpioPullup::GpioPullupDisable => 0,
            GpioPullup::GpioPullupEnable => 1,
        }
    }

    /// The inverse of the encoding: `Some(v)` exactly on the code of a
    /// variant `v`, `None` on every other integer.
    pub open spec fn decode_spec(raw: u32) -> Option<GpioPullup> {
        if raw == 0 {
            Some(GpioPullup::GpioPullupDisable)
        } else if raw == 1 {
            Some(GpioPullup::GpioPullupEnable)
        } else {
            None
        }
    }

    /// Encode a variant as its native ABI value. Total: every variant,
    /// the sentinel included, has exactly one code.
    pub fn encode(self) -> (r: u32)
        ensures
            r == self.code_spec(),
    {
        match self {
            GpioPullup::GpioPullupDisable => 0,
            GpioPullup::GpioPullupEnable => 1,
        }
    }

    /// Decode a native ABI value. Partial: an integer outside the defined
    /// set yields `None`.
    pub fn decode(raw: u32) -> (r: Option<GpioPullup>)
        ensures
            r == Self::decode_spec(raw),
    {
        match raw {
            0 => Some(GpioPullup::GpioPullupDisable),
            1 => Some(GpioPullup::GpioPullupEnable),
            _ => None,
        }
    }

    /// The encoding is injective: no two variants share a numeric code.
    pub proof fn lemma_encode_injective(a: GpioPullup, b: GpioPullup)
        requires
            a.code_spec() == b.code_spec(),
        ensures
            a == b,
    {
    }

    /// Decoding inverts encoding: every valid variant round-trips.
    pub proof fn lemma_decode_encode(v: GpioPullup)
        ensures
            Self::decode_spec(v.code_spec()) == Some(v),
    {
    }
}

/// GPIO pull-down resistor type.
#[derive(Clone, Copy, Debug, PartialEq, Eq, Structural)]
pub enum GpioPulldown {
    /// Disable GPIO pull-down resistor
    GpioPulldownDisable,
    /// Enable GPIO pull-down resistor
    GpioPulldownEnable,
}

impl GpioPulldown {
    /// The native ABI code of each variant.
    pub open spec fn code_spec(self) -> u32 {
        match self {
            GpioPulldown::GpioPulldownDisable => 0,
            GpioPulldown::GpioPulldownEnable => 1,
        }
    }

    /// The inverse of the encoding: `Some(v)` exactly on the code of a
    /// variant `v`, `None` on every other integer.
    pub open spec fn decode_spec(raw: u32) -> Option<GpioPulldown> {
        if raw == 0 {
            Some(GpioPulldown::GpioPulldownDisable)
        } else if raw == 1 {
            Some(GpioPulldown::GpioPulldownEnable)
        } else {
            None
        }
    }

    /// Encode a variant as its native ABI value. Total: every variant,
    /// the sentinel included, has exactly one code.
    pub fn encode(self) -> (r: u32)
        ensures
            r == self.code_spec(),
    {
        match self {
            GpioPulldown::GpioPulldownDisable => 0,
            GpioPulldown::GpioPulldownEnable => 1,
        }
    }

    /// Decode a native ABI value. Partial: an integer outside the defined
    /// set yields `None`.
    pub fn decode(raw: u32) -> (r: Option<GpioPulldown>)
        ensures
            r == Self::decode_spec(raw),
    {
        match raw {
            0 => Some(GpioPulldown::GpioPulldownDisable),
            1 => Some(GpioPulldown::GpioPulldownEnable),
            _ => None,
        }
    }

    /// The encoding is injective: no two variants share a numeric code.
    pub proof fn lemma_encode_injective(a: GpioPulldown, b: GpioPulldown)
        requires
            a.code_spec() == b.code_spec(),
        ensures
            a == b,
    {
    }

    /// Decoding inverts encoding: every valid variant round-trips.
    pub proof fn lemma_decode_encode(v: GpioPulldown)
        ensures
            Self::decode_spec(v.code_spec()) == Some(v),
    {
    }
}

/// GPIO pull mode type.
#[derive(Clone, Copy, Debug, PartialEq, Eq, Structural)]
pub enum GpioPullMode {
    /// Pad pull up
    GpioPullupOnly,
    /// Pad pull down
    GpioPulldownOnly,
    /// Pad pull up and pull down
    GpioPullupPulldown,
    /// Pad floating
    GpioFloating,
}

impl GpioPullMode {
    /// The native ABI code of each variant.
    pub open spec fn code_spec(self) -> u32 {
        match self {
            GpioPullMode::GpioPullupOnly => 0,
            GpioPullMode::GpioPulldownOnly => 1,
            GpioPullMode::GpioPullupPulldown => 2,
            GpioPullMode::GpioFloating => 3,
        }
    }

    /// The inverse of the encoding: `Some(v)` exactly on the code of a
    /// variant `v`, `None` on every other integer.
    pub open spec fn decode_spec(raw: u32) -> Option<GpioPullMode> {
        if raw == 0 {
            Some(GpioPullMode::GpioPullupOnly)
        } else if raw == 1 {
            Some(GpioPullMode::GpioPulldownOnly)
        } else if raw == 2 {
            Some(GpioPullMode::GpioPullupPulldown)
        } else if raw == 3 {
            Some(GpioPullMode::GpioFloating)
        } else {
            None
        }
    }

    /// Encode a variant as its native ABI value. Total: every variant,
    /// the sentinel included, has exactly one code.
    pub fn encode(self) -> (r: u32)
        ensures
            r == self.code_spec(),
    {
        match self {
            GpioPullMode::GpioPullupOnly => 0,
            GpioPullMode::GpioPulldownOnly => 1,
            GpioPullMode::GpioPullupPulldown => 2,
            GpioPullMode::GpioFloating => 3,
        }
    }

    /// Decode a native ABI value. Partial: an integer outside the defined
    /// set yields `None`.
    pub fn decode(raw: u32) -> (r: Option<GpioPullMode>)
        ensures
            r == Self::decode_spec(raw),
    {
        match raw {
            0 => Some(GpioPullMode::GpioPullupOnly),
            1 => Some(GpioPullMode::GpioPulldownOnly),
            2 => Some(GpioPullMode::GpioPullupPulldown),
            3 => Some(GpioPullMode::GpioFloating),
            _ => None,
        }
    }

    /// The encoding is injective: no two variants share a numeric code.
    pub proof fn lemma_encode_injective(a: GpioPullMode, b: GpioPullMode)
        requires
            a.code_spec() == b.code_spec(),
        ensures
            a == b,
    {
    }

    /// Decoding inverts encoding: every valid variant round-trips.
    pub proof fn lemma_decode_encode(v: GpioPullMode)
        ensures
            Self::decode_spec(v.code_spec()) == Some(v),
    {
    }
}

/// GPIO drive capability type.
#[derive(Clone, Copy, Debug, PartialEq, Eq, Structural)]
pub enum GpioDriveCapability {
    /// Pad drive capability: weak
    GpioDriveCap0,
    /// Pad drive capability: stronger
    GpioDriveCap1,
    /// Pad drive capability: medium and default
    GpioDriveCap2,
    /// Pad drive capability: strongest
    GpioDriveCap3,
    /// Sentinel marking the boundary of the valid range
    GpioDriveCapMax,
}

impl GpioDriveCapability {
    /// The native ABI code of each variant.
    pub open spec fn code_spec(self) -> u32 {
        match self {
            GpioDriveCapability::GpioDriveCap0 => 0,
            GpioDriveCapability::GpioDriveCap1 => 1,
            GpioDriveCapability::GpioDriveCap2 => 2,
            GpioDriveCapability::GpioDriveCap3 => 3,
            GpioDriveCapability::GpioDriveCapMax => 4,
        }
    }

    /// The inverse of the encoding: `Some(v)` exactly on the code of a
    /// variant `v`, `None` on every other integer.
    pub open spec fn decode_spec(raw: u32) -> Option<GpioDriveCapability> {
        if raw == 0 {
            Some(GpioDriveCapability::GpioDriveCap0)
        } else if raw == 1 {
            Some(GpioDriveCapability::GpioDriveCap1)
        } else if raw == 2 {
            Some(GpioDriveCapability::GpioDriveCap2)
        } else if raw == 3 {
            Some(GpioDriveCapability::GpioDriveCap3)
        } else if raw == 4 {
            Some(GpioDriveCapability::GpioDriveCapMax)
        } else {
            None
        }
    }

    /// Encode a variant as its native ABI value. Total: every variant,
    /// the sentinel included, has exactly one code.
    pub fn encode(self) -> (r: u32)
        ensures
            r == self.code_spec(),
    {
        match self {
            GpioDriveCapability::GpioDriveCap0 => 0,
            GpioDriveCapability::GpioDriveCap1 => 1,
            GpioDriveCapability::GpioDriveCap2 => 2,
            GpioDriveCapability::GpioDriveCap3 => 3,
            GpioDriveCapability::GpioDriveCapMax => 4,
        }
    }

    /// Decode a native ABI value. Partial: an integer outside the defined
    /// set yields `None`.
    pub fn decode(raw: u32) -> (r: Option<GpioDriveCapability>)
        ensures
            r == Self::decode_spec(raw),
    {
        match raw {
            0 => Some(GpioDriveCapability::GpioDriveCap0),
            1 => Some(GpioDriveCapability::GpioDriveCap1),
            2 => Some(GpioDriveCapability::GpioDriveCap2),
            3 => Some(GpioDriveCapability::GpioDriveCap3),
            4 => Some(GpioDriveCapability::GpioDriveCapMax),
            _ => None,
        }
    }

    /// The encoding is injective: no two variants share a numeric code.
    pub proof fn lemma_encode_injective(a: GpioDriveCapability, b: GpioDriveCapability)
        requires
            a.code_spec() == b.code_spec(),
        ensures
            a == b,
    {
    }

    /// Decoding inverts encoding: every valid variant round-trips.
    pub proof fn lemma_decode_encode(v: GpioDriveCapability)
        ensures
            Self::decode_spec(v.code_spec()) == Some(v),
    {
    }
}

/// GPIO hysteresis control mode type.
#[derive(Clone, Copy, Debug, PartialEq, Eq, Structural)]
pub enum GpioHysteresisControlMode {
    /// Pad input hysteresis controlled by efuse
    GpioHysCtrlEfuse,
    /// Pad input hysteresis enabled by software
    GpioHysSoftEnable,
    /// Pad input hysteresis disabled by software
    GpioHysSoftDisable,
}

impl GpioHysteresisControlMode {
    /// The native ABI code of each variant.
    pub open spec fn code_spec(self) -> u32 {
        match self {
            GpioHysteresisControlMode::GpioHysCtrlEfuse => 0,
            GpioHysteresisControlMode::GpioHysSoftEnable => 1,
            GpioHysteresisControlMode::GpioHysSoftDisable => 2,
        }
    }

    /// The inverse of the encoding: `Some(v)` exactly on the code of a
    /// variant `v`, `None` on every other integer.
    pub open spec fn decode_spec(raw: u32) -> Option<GpioHysteresisControlMode> {
        if raw == 0 {
            Some(GpioHysteresisControlMode::GpioHysCtrlEfuse)
        } else if raw == 1 {
            Some(GpioHysteresisControlMode::GpioHysSoftEnable)
        } else if raw == 2 {
            Some(GpioHysteresisControlMode::GpioHysSoftDisable)
        } else {
            None
        }
    }

    /// Encode a variant as its native ABI value. Total: every variant,
    /// the sentinel included, has exactly one code.
    pub fn encode(self) -> (r: u32)
        ensures
            r == self.code_spec(),
    {
        match self {
            GpioHysteresisControlMode::GpioHysCtrlEfuse => 0,
            GpioHysteresisControlMode::GpioHysSoftEnable => 1,
            GpioHysteresisControlMode::GpioHysSoftDisable => 2,
        }
    }

    /// Decode a native ABI value. Partial: an integer outside the defined
    /// set yields `None`.
    pub fn decode(raw: u32) -> (r: Option<GpioHysteresisControlMode>)
        ensures
            r == Self::decode_spec(raw),
    {
        match raw {
            0 => Some(GpioHysteresisControlMode::GpioHysCtrlEfuse),
            1 => Some(GpioHysteresisControlMode::GpioHysSoftEnable),
            2 => Some(GpioHysteresisControlMode::GpioHysSoftDisable),
            _ => None,
        }
    }

    /// The encoding is injective: no two variants share a numeric code.
    pub proof fn lemma_encode_injective(a: GpioHysteresisControlMode, b: GpioHysteresisControlMode)
        requires
            a.code_spec() == b.code_spec(),
        ensures
            a == b,
    {
    }

    /// Decoding inverts encoding: every valid variant round-trips.
    pub proof fn lemma_decode_encode(v: GpioHysteresisControlMode)
        ensures
            Self::decode_spec(v.code_spec()) == Some(v),
    {
    }
}

/// EXT1 wakeup mode type.
#[derive(Clone, Copy, Debug, PartialEq, Eq, Structural)]
pub enum EspSleepExt1WakeupMode {
    /// Wake the chip when all selected GPIOs go low
    EspExt1WakeupAllLow,
    /// Wake the chip when any of the selected GPIOs go high
    EspExt1WakeupAnyHigh,
}

impl EspSleepExt1WakeupMode {
    /// The native ABI code of each variant.
    pub open spec fn code_spec(self) -> u32 {
        match self {
            EspSleepExt1WakeupMode::EspExt1WakeupAllLow => 0,
            EspSleepExt1WakeupMode::EspExt1WakeupAnyHigh => 1,
        }
    }

    /// The inverse of the encoding: `Some(v)` exactly on the code of a
    /// variant `v`, `None` on every other integer.
    pub open spec fn decode_spec(raw: u32) -> Option<EspSleepExt1WakeupMode> {
        if raw == 0 {
            Some(EspSleepExt1WakeupMode::EspExt1WakeupAllLow)
        } else if raw == 1 {
            Some(EspSleepExt1WakeupMode::EspExt1WakeupAnyHigh)
        } else {
            None
        }
    }

    /// Encode a variant as its native ABI value. Total: every variant,
    /// the sentinel included, has exactly one code.
    pub fn encode(self) -> (r: u32)
        ensures
            r == self.code_spec(),
    {
        match self {
            EspSleepExt1WakeupMode::EspExt1WakeupAllLow => 0,
            EspSleepExt1WakeupMode::EspExt1WakeupAnyHigh => 1,
        }
    }

    /// Decode a native ABI value. Partial: an integer outside the defined
    /// set yields `None`.
    pub fn decode(raw: u32) -> (r: Option<EspSleepExt1WakeupMode>)
        ensures
            r == Self::decode_spec(raw),
    {
        match raw {
            0 => Some(EspSleepExt1WakeupMode::EspExt1WakeupAllLow),
            1 => Some(EspSleepExt1WakeupMode::EspExt1WakeupAnyHigh),
            _ => None,
        }
    }

    /// The encoding is injective: no two variants share a numeric code.
    pub proof fn lemma_encode_injective(a: EspSleepExt1WakeupMode, b: EspSleepExt1WakeupMode)
        requires
            a.code_spec() == b.code_spec(),
        ensures
            a == b,
    {
    }

    /// Decoding inverts encoding: every valid variant round-trips.
    pub proof fn lemma_decode_encode(v: EspSleepExt1WakeupMode)
        ensures
            Self::decode_spec(v.code_spec()) == Some(v),
    {
    }
}

/// Power domains which can be powered down in sleep mode.
#[derive(Clone, Copy, Debug, PartialEq, Eq, Structural)]
pub enum EspSleepPdDomain {
    /// RTC peripherals power domain
    EspPdDomainRtcPeriph,
    /// RTC slow memory power domain
    EspPdDomainRtcSlowMem,
    /// RTC fast memory power domain
    EspPdDomainRtcFastMem,
    /// XTAL oscillator power domain
    EspPdDomainXtal,
    /// Internal fast oscillator power domain
    EspPdDomainRcFast,
    /// VDD_SDIO power domain
    EspPdDomainVddsdio,
    /// MODEM power domain (WiFi, Bluetooth, IEEE802.15.4)
    EspPdDomainModem,
    /// Sentinel marking the boundary of the valid range
    EspPdDomainMax,
}

impl EspSleepPdDomain {
    /// The native ABI code of each variant.
    pub open spec fn code_spec(self) -> u32 {
        match self {
            EspSleepPdDomain::EspPdDomainRtcPeriph => 0,
            EspSleepPdDomain::EspPdDomainRtcSlowMem => 1,
            EspSleepPdDomain::EspPdDomainRtcFastMem => 2,
            EspSleepPdDomain::EspPdDomainXtal => 3,
            EspSleepPdDomain::EspPdDomainRcFast => 4,
            EspSleepPdDomain::EspPdDomainVddsdio => 5,
            EspSleepPdDomain::EspPdDomainModem => 6,
            EspSleepPdDomain::EspPdDomainMax => 7,
        }
    }

    /// The inverse of the encoding: `Some(v)` exactly on the code of a
    /// variant `v`, `None` on every other integer.
    pub open spec fn decode_spec(raw: u32) -> Option<EspSleepPdDomain> {
        if raw == 0 {
            Some(EspSleepPdDomain::EspPdDomainRtcPeriph)
        } else if raw == 1 {
            Some(EspSleepPdDomain::EspPdDomainRtcSlowMem)
        } else if raw == 2 {
            Some(EspSleepPdDomain::EspPdDomainRtcFastMem)
        } else if raw == 3 {
            Some(EspSleepPdDomain::EspPdDomainXtal)
        } else if raw == 4 {
            Some(EspSleepPdDomain::EspPdDomainRcFast)
        } else if raw == 5 {
            Some(EspSleepPdDomain::EspPdDomainVddsdio)
        } else if raw == 6 {
            Some(EspSleepPdDomain::EspPdDomainModem)
        } else if raw == 7 {
            Some(EspSleepPdDomain::EspPdDomainMax)
        } else {
            None
        }
    }

    /// Encode a variant as its native ABI value. Total: every variant,
    /// the sentinel included, has exactly one code.
    pub fn encode(self) -> (r: u32)
        ensures
            r == self.code_spec(),
    {
        match self {
            EspSleepPdDomain::EspPdDomainRtcPeriph => 0,
            EspSleepPdDomain::EspPdDomainRtcSlowMem => 1,
            EspSleepPdDomain::EspPdDomainRtcFastMem => 2,
            EspSleepPdDomain::EspPdDomainXtal => 3,
            EspSleepPdDomain::EspPdDomainRcFast => 4,
            EspSleepPdDomain::EspPdDomainVddsdio => 5,
            EspSleepPdDomain::EspPdDomainModem => 6,
            EspSleepPdDomain::EspPdDomainMax => 7,
        }
    }

    /// Decode a native ABI value. Partial: an integer outside the defined
    /// set yields `None`.
    pub fn decode(raw: u32) -> (r: Option<EspSleepPdDomain>)
        ensures
            r == Self::decode_spec(raw),
    {
        match raw {
            0 => Some(EspSleepPdDomain::EspPdDomainRtcPeriph),
            1 => Some(EspSleepPdDomain::EspPdDomainRtcSlowMem),
            2 => Some(EspSleepPdDomain::EspPdDomainRtcFastMem),
            3 => Some(EspSleepPdDomain::EspPdDomainXtal),
            4 => Some(EspSleepPdDomain::EspPdDomainRcFast),
            5 => Some(EspSleepPdDomain::EspPdDomainVddsdio),
            6 => Some(EspSleepPdDomain::EspPdDomainModem),
            7 => Some(EspSleepPdDomain::EspPdDomainMax),
            _ => None,
        }
    }

    /// The encoding is injective: no two variants share a numeric code.
    pub proof fn lemma_encode_injective(a: EspSleepPdDomain, b: EspSleepPdDomain)
        requires
            a.code_spec() == b.code_spec(),
        ensures
            a == b,
    {
    }

    /// Decoding inverts encoding: every valid variant round-trips.
    pub proof fn lemma_decode_encode(v: EspSleepPdDomain)
        ensures
            Self::decode_spec(v.code_spec()) == Some(v),
    {
    }
}

/// Power down options.
#[derive(Clone, Copy, Debug, PartialEq, Eq, Structural)]
pub enum EspSleepPdOption {
    /// Power down the power domain in sleep mode
    EspPdOptionOff,
    /// Keep power domain enabled during sleep mode
    EspPdOptionOn,
    /// Keep power domain enabled in sleep mode if needed by wakeup options, otherwise power it down
    EspPdOptionAuto,
}

impl EspSleepPdOption {
    /// The native ABI code of each variant.
    pub open spec fn code_spec(self) -> u32 {
        match self {
            EspSleepPdOption::EspPdOptionOff => 0,
            EspSleepPdOption::EspPdOptionOn => 1,
            EspSleepPdOption::EspPdOptionAuto => 2,
        }
    }

    /// The inverse of the encoding: `Some(v)` exactly on the code of a
    /// variant `v`, `None` on every other integer.
    pub open spec fn decode_spec(raw: u32) -> Option<EspSleepPdOption> {
        if raw == 0 {
            Some(EspSleepPdOption::EspPdOptionOff)
        } else if raw == 1 {
            Some(EspSleepPdOption::EspPdOptionOn)
        } else if raw == 2 {
            Some(EspSleepPdOption::EspPdOptionAuto)
        } else {
            None
        }
    }

    /// Encode a variant as its native ABI value. Total: every variant,
    /// the sentinel included, has exactly one code.
    pub fn encode(self) -> (r: u32)
        ensures
            r == self.code_spec(),
    {
        match self {
            EspSleepPdOption::EspPdOptionOff => 0,
            EspSleepPdOption::EspPdOptionOn => 1,
            EspSleepPdOption::EspPdOptionAuto => 2,
        }
    }

    /// Decode a native ABI value. Partial: an integer outside the defined
    /// set yields `None`.
    pub fn decode(raw: u32) -> (r: Option<EspSleepPdOption>)
        ensures
            r == Self::decode_spec(raw),
    {
        match raw {
            0 => Some(EspSleepPdOption::EspPdOptionOff),
            1 => Some(EspSleepPdOption::EspPdOptionOn),
            2 => Some(EspSleepPdOption::EspPdOptionAuto),
            _ => None,
        }
    }

    /// The encoding is injective: no two variants share a numeric code.
    pub proof fn lemma_encode_injective(a: EspSleepPdOption, b: EspSleepPdOption)
        requires
            a.code_spec() == b.code_spec(),
        ensures
            a == b,
    {
    }

    /// Decoding inverts encoding: every valid variant round-trips.
    pub proof fn lemma_decode_encode(v: EspSleepPdOption)
        ensures
            Self::decode_spec(v.code_spec()) == Some(v),
    {
    }
}

/// Sleep wakeup cause.
#[derive(Clone, Copy, Debug, PartialEq, Eq, Structural)]
pub enum EspSleepWakeupCause {
    /// In case of deep sleep, reset was not caused by exit from deep sleep
    EspSleepWakeupUndefined,
    /// Not a wakeup cause; used to disable all wakeup sources
    EspSleepWakeupAll,
    /// Wakeup caused by external signal using RTC_IO
    EspSleepWakeupExt0,
    /// Wakeup caused by external signal using RTC_CNTL
    EspSleepWakeupExt1,
    /// Wakeup caused by timer
    EspSleepWakeupTimer,
    /// Wakeup caused by touchpad
    EspSleepWakeupTouchpad,
    /// Wakeup caused by ULP program
    EspSleepWakeupUlp,
    /// Wakeup caused by GPIO (light sleep only)
    EspSleepWakeupGpio,
    /// Wakeup caused by UART (light sleep only)
    EspSleepWakeupUart,
    /// Wakeup caused by WIFI (light sleep only)
    EspSleepWakeupWifi,
    /// Wakeup caused by COCPU interrupt
    EspSleepWakeupCocpu,
    /// Wakeup caused by COCPU crash
    EspSleepWakeupCocpuTrapTrig,
    /// Wakeup caused by BT (light sleep only)
    EspSleepWakeupBt,
}

impl EspSleepWakeupCause {
    /// The native ABI code of each variant.
    pub open spec fn code_spec(self) -> u32 {
        match self {
            EspSleepWakeupCause::EspSleepWakeupUndefined => 0,
            EspSleepWakeupCause::EspSleepWakeupAll => 1,
            EspSleepWakeupCause::EspSleepWakeupExt0 => 2,
            EspSleepWakeupCause::EspSleepWakeupExt1 => 3,
            EspSleepWakeupCause::EspSleepWakeupTimer => 4,
            EspSleepWakeupCause::EspSleepWakeupTouchpad => 5,
            EspSleepWakeupCause::EspSleepWakeupUlp => 6,
            EspSleepWakeupCause::EspSleepWakeupGpio => 7,
            EspSleepWakeupCause::EspSleepWakeupUart => 8,
            EspSleepWakeupCause::EspSleepWakeupWifi => 9,
            EspSleepWakeupCause::EspSleepWakeupCocpu => 10,
            EspSleepWakeupCause::EspSleepWakeupCocpuTrapTrig => 11,
            EspSleepWakeupCause::EspSleepWakeupBt => 12,
        }
    }

    /// The inverse of the encoding: `Some(v)` exactly on the code of a
    /// variant `v`, `None` on every other integer.
    pub open spec fn decode_spec(raw: u32) -> Option<EspSleepWakeupCause> {
        if raw == 0 {
            Some(EspSleepWakeupCause::EspSleepWakeupUndefined)
        } else if raw == 1 {
            Some(EspSleepWakeupCause::EspSleepWakeupAll)
        } else if raw == 2 {
            Some(EspSleepWakeupCause::EspSleepWakeupExt0)
        } else if raw == 3 {
            Some(EspSleepWakeupCause::EspSleepWakeupExt1)
        } else if raw == 4 {
            Some(EspSleepWakeupCause::EspSleepWakeupTimer)
        } else if raw == 5 {
            Some(EspSleepWakeupCause::EspSleepWakeupTouchpad)
        } else if raw == 6 {
            Some(EspSleepWakeupCause::EspSleepWakeupUlp)
        } else if raw == 7 {
            Some(EspSleepWakeupCause::EspSleepWakeupGpio)
        } else if raw == 8 {
            Some(EspSleepWakeupCause::EspSleepWakeupUart)
        } else if raw == 9 {
            Some(EspSleepWakeupCause::EspSleepWakeupWifi)
        } else if raw == 10 {
            Some(EspSleepWakeupCause::EspSleepWakeupCocpu)
        } else if raw == 11 {
            Some(EspSleepWakeupCause::EspSleepWakeupCocpuTrapTrig)
        } else if raw == 12 {
            Some(EspSleepWakeupCause::EspSleepWakeupBt)
        } else {
            None
        }
    }

    /// Encode a variant as its native ABI value. Total: every variant,
    /// the sentinel included, has exactly one code.
    pub fn encode(self) -> (r: u32)
        ensures
            r == self.code_spec(),
    {
        match self {
            EspSleepWakeupCause::EspSleepWakeupUndefined => 0,
            EspSleepWakeupCause::EspSleepWakeupAll => 1,
            EspSleepWakeupCause::EspSleepWakeupExt0 => 2,
            EspSleepWakeupCause::EspSleepWakeupExt1 => 3,
            EspSleepWakeupCause::EspSleepWakeupTimer => 4,
            EspSleepWakeupCause::EspSleepWakeupTouchpad => 5,
            EspSleepWakeupCause::EspSleepWakeupUlp => 6,
            EspSleepWakeupCause::EspSleepWakeupGpio => 7,
            EspSleepWakeupCause::EspSleepWakeupUart => 8,
            EspSleepWakeupCause::EspSleepWakeupWifi => 9,
            EspSleepWakeupCause::EspSleepWakeupCocpu => 10,
            EspSleepWakeupCause::EspSleepWakeupCocpuTrapTrig => 11,
            EspSleepWakeupCause::EspSleepWakeupBt => 12,
        }
    }

    /// Decode a native ABI value. Partial: an integer outside the defined
    /// set yields `None`.
    pub fn decode(raw: u32) -> (r: Option<EspSleepWakeupCause>)
        ensures
            r == Self::decode_spec(raw),
    {
        match raw {
            0 => Some(EspSleepWakeupCause::EspSleepWakeupUndefined),
            1 => Some(EspSleepWakeupCause::EspSleepWakeupAll),
            2 => Some(EspSleepWakeupCause::EspSleepWakeupExt0),
            3 => Some(EspSleepWakeupCause::EspSleepWakeupExt1),
            4 => Some(EspSleepWakeupCause::EspSleepWakeupTimer),
            5 => Some(EspSleepWakeupCause::EspSleepWakeupTouchpad),
            6 => Some(EspSleepWakeupCause::EspSleepWakeupUlp),
            7 => Some(EspSleepWakeupCause::EspSleepWakeupGpio),
            8 => Some(EspSleepWakeupCause::EspSleepWakeupUart),
            9 => Some(EspSleepWakeupCause::EspSleepWakeupWifi),
            10 => Some(EspSleepWakeupCause::EspSleepWakeupCocpu),
            11 => Some(EspSleepWakeupCause::EspSleepWakeupCocpuTrapTrig),
            12 => Some(EspSleepWakeupCause::EspSleepWakeupBt),
            _ => None,
        }
    }

    /// The encoding is injective: no two variants share a numeric code.
    pub proof fn lemma_encode_injective(a: EspSleepWakeupCause, b: EspSleepWakeupCause)
        requires
            a.code_spec() == b.code_spec(),
        ensures
            a == b,
    {
    }

    /// Decoding inverts encoding: every valid variant round-trips.
    pub proof fn lemma_decode_encode(v: EspSleepWakeupCause)
        ensures
            Self::decode_spec(v.code_spec()) == Some(v),
    {
    }
}

/// Sleep mode.
#[derive(Clone, Copy, Debug, PartialEq, Eq, Structural)]
pub enum EspSleepMode {
    /// Light sleep mode
    EspSleepModeLightSleep,
    /// Deep sleep mode
    EspSleepModeDeepSleep,
}

impl EspSleepMode {
    /// The native ABI code of each variant.
    pub open spec fn code_spec(self) -> u32 {
        match self {
            EspSleepMode::EspSleepModeLightSleep => 0,
            EspSleepMode::EspSleepModeDeepSleep => 1,
        }
    }

    /// The inverse of the encoding: `Some(v)` exactly on the code of a
    /// variant `v`, `None` on every other integer.
    pub open spec fn decode_spec(raw: u32) -> Option<EspSleepMode> {
        if raw == 0 {
            Some(EspSleepMode::EspSleepModeLightSleep)
        } else if raw == 1 {
            Some(EspSleepMode::EspSleepModeDeepSleep)
        } else {
            None
        }
    }

    /// Encode a variant as its native ABI value. Total: every variant,
    /// the sentinel included, has exactly one code.
    pub fn encode(self) -> (r: u32)
        ensures
            r == self.code_spec(),
    {
        match self {
            EspSleepMode::EspSleepModeLightSleep => 0,
            EspSleepMode::EspSleepModeDeepSleep => 1,
        }
    }

    /// Decode a native ABI value. Partial: an integer outside the defined
    /// set yields `None`.
    pub fn decode(raw: u32) -> (r: Option<EspSleepMode>)
        ensures
            r == Self::decode_spec(raw),
    {
        match raw {
            0 => Some(EspSleepMode::EspSleepModeLightSleep),
            1 => Some(EspSleepMode::EspSleepModeDeepSleep),
            _ => None,
        }
    }

    /// The encoding is injective: no two variants share a numeric code.
    pub proof fn lemma_encode_injective(a: EspSleepMode, b: EspSleepMode)
        requires
            a.code_spec() == b.code_spec(),
        ensures
            a == b,
    {
    }

    /// Decoding inverts encoding: every valid variant round-trips.
    pub proof fn lemma_decode_encode(v: EspSleepMode)
        ensures
            Self::decode_spec(v.code_spec()) == Some(v),
    {
    }
}


} // verus!
