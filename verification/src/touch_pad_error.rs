//! Translation of the native driver's numeric status codes into a closed,
//! typed error taxonomy with fixed display text.

use vstd::prelude::*;

verus! {

/// Closed set of status categories returned by the native driver.
///
/// The taxonomy is fixed by the native ABI: every documented status code maps
/// to exactly one variant, and every undocumented code maps to
/// `EspErrUnknown`. Five variants (`EspErrWifiBase` through
/// `EspErrMemprotBase`) stand for whole subsystem code ranges that the driver
/// reports only by their base value; they are kept opaque rather than decoded
/// further.
#[derive(Clone, Copy, Debug, PartialEq, Eq, Structural)]
pub enum EspErr {
    EspOk,
    EspFail,
    EspErrNoMem,
    EspErrInvalidArg,
    EspErrInvalidState,
    EspErrInvalidSize,
    EspErrNotFound,
    EspErrNotSupported,
    EspErrTimeout,
    EspErrInvalidResponse,
    EspErrInvalidCrc,
    EspErrInvalidVersion,
    EspErrInvalidMac,
    EspErrNotFinished,
    EspErrNotAllowed,
    EspErrWifiBase,
    EspErrMeshBase,
    EspErrFlashBase,
    EspErrHwCryptoBase,
    EspErrMemprotBase,
    EspErrUnknown,
}

impl EspErr {
    /// The documented translation table: status code 0 is success, each
    /// other documented code maps to its category, and anything outside the
    /// table maps to `EspErrUnknown`. Total over all of `i32`.
    pub open spec fn translate_spec(code: i32) -> Result<(), EspErr> {
        if code == 0 {
            Ok(())
        } else if code == -1 {
            Err(EspErr::EspFail)
        } else if code == 0x101 {
            Err(EspErr::EspErrNoMem)
        } else if code == 0x102 {
            Err(EspErr::EspErrInvalidArg)
        } else if code == 0x103 {
            Err(EspErr::EspErrInvalidState)
        } else if code == 0x104 {
            Err(EspErr::EspErrInvalidSize)
        } else if code == 0x105 {
            Err(EspErr::EspErrNotFound)
        } else if code == 0x106 {
            Err(EspErr::EspErrNotSupported)
        } else if code == 0x107 {
            Err(EspErr::EspErrTimeout)
        } else if code == 0x108 {
            Err(EspErr::EspErrInvalidResponse)
        } else if code == 0x109 {
            Err(EspErr::EspErrInvalidCrc)
        } else if code == 0x10A {
            Err(EspErr::EspErrInvalidVersion)
        } else if code == 0x10B {
            Err(EspErr::EspErrInvalidMac)
        } else if code == 0x10C {
            Err(EspErr::EspErrNotFinished)
        } else if code == 0x10D {
            Err(EspErr::EspErrNotAllowed)
        } else if code == 0x3000 {
            Err(EspErr::EspErrWifiBase)
        } else if code == 0x4000 {
            Err(EspErr::EspErrMeshBase)
        } else if code == 0x6000 {
            Err(EspErr::EspErrFlashBase)
        } else if code == 0xC000 {
            Err(EspErr::EspErrHwCryptoBase)
        } else if code == 0xD000 {
            Err(EspErr::EspErrMemprotBase)
        } else {
            Err(EspErr::EspErrUnknown)
        }
    }

    /// Translate a raw status code from the native driver. Total: every code
    /// gets an answer, an undocumented one gets `EspErrUnknown`, and the call
    /// never panics.
    pub fn return_message(valeur: i32) -> (r: Result<(), EspErr>)
        ensures
            r == Self::translate_spec(valeur),
    {
        match valeur {
            0 => Ok(()),
            -1 => Err(EspErr::EspFail),
            0x101 => Err(EspErr::EspErrNoMem),
            0x102 => Err(EspErr::EspErrInvalidArg),
            0x103 => Err(EspErr::EspErrInvalidState),
            0x104 => Err(EspErr::EspErrInvalidSize),
            0x105 => Err(EspErr::EspErrNotFound),
            0x106 => Err(EspErr::EspErrNotSupported),
            0x107 => Err(EspErr::EspErrTimeout),
            0x108 => Err(EspErr::EspErrInvalidResponse),
            0x109 => Err(EspErr::EspErrInvalidCrc),
            0x10A => Err(EspErr::EspErrInvalidVersion),
            0x10B => Err(EspErr::EspErrInvalidMac),
            0x10C => Err(EspErr::EspErrNotFinished),
            0x10D => Err(EspErr::EspErrNotAllowed),
            0x3000 => Err(EspErr::EspErrWifiBase),
            0x4000 => Err(EspErr::EspErrMeshBase),
            0x6000 => Err(EspErr::EspErrFlashBase),
            0xC000 => Err(EspErr::EspErrHwCryptoBase),
            0xD000 => Err(EspErr::EspErrMemprotBase),
            _ => Err(EspErr::EspErrUnknown),
        }
    }

    /// The fixed display text of each category.
    pub open spec fn message_spec(self) -> Seq<char> {
        match self {
            EspErr::EspOk => "Success"@,
            EspErr::EspFail => "Generic failure"@,
            EspErr::EspErrNoMem => "Out of memory"@,
            EspErr::EspErrInvalidArg => "Invalid argument"@,
            EspErr::EspErrInvalidState => "Invalid state"@,
            EspErr::EspErrInvalidSize => "Invalid size"@,
            EspErr::EspErrNotFound => "Requested resource not found"@,
            EspErr::EspErrNotSupported => "Operation or feature not supported"@,
            EspErr::EspErrTimeout => "Operation timed out"@,
            EspErr::EspErrInvalidResponse => "Received response was invalid"@,
            EspErr::EspErrInvalidCrc => "CRC or checksum was invalid"@,
            EspErr::EspErrInvalidVersion => "Version was invalid"@,
            EspErr::EspErrInvalidMac => "MAC address was invalid"@,
            EspErr::EspErrNotFinished => "Operation has not fully completed"@,
            EspErr::EspErrNotAllowed => "Operation is not allowed"@,
            EspErr::EspErrWifiBase => "WiFi error"@,
            EspErr::EspErrMeshBase => "MESH error"@,
            EspErr::EspErrFlashBase => "Flash error"@,
            EspErr::EspErrHwCryptoBase => "HW cryptography module error"@,
            EspErr::EspErrMemprotBase => "Memory Protection API error"@,
            EspErr::EspErrUnknown => "Unknown error"@,
        }
    }

    /// One fixed short sentence per category, allocation-free, with no
    /// formatting of dynamic data.
    pub fn return_message_as_text(&self) -> (r: &'static str)
        ensures
            r@ == self.message_spec(),
    {
        match self {
            EspErr::EspOk => "Success",
            EspErr::EspFail => "Generic failure",
            EspErr::EspErrNoMem => "Out of memory",
            EspErr::EspErrInvalidArg => "Invalid argument",
            EspErr::EspErrInvalidState => "Invalid state",
            EspErr::EspErrInvalidSize => "Invalid size",
            EspErr::EspErrNotFound => "Requested resource not found",
            EspErr::EspErrNotSupported => "Operation or feature not supported",
            EspErr::EspErrTimeout => "Operation timed out",
            EspErr::EspErrInvalidResponse => "Received response was invalid",
            EspErr::EspErrInvalidCrc => "CRC or checksum was invalid",
            EspErr::EspErrInvalidVersion => "Version was invalid",
            EspErr::EspErrInvalidMac => "MAC address was invalid",
            EspErr::EspErrNotFinished => "Operation has not fully completed",
            EspErr::EspErrNotAllowed => "Operation is not allowed",
            EspErr::EspErrWifiBase => "WiFi error",
            EspErr::EspErrMeshBase => "MESH error",
            EspErr::EspErrFlashBase => "Flash error",
            EspErr::EspErrHwCryptoBase => "HW cryptography module error",
            EspErr::EspErrMemprotBase => "Memory Protection API error",
            EspErr::EspErrUnknown => "Unknown error",
        }
    }
}

} // verus!
