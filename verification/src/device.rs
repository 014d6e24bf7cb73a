use vstd::prelude::*;

verus! {

/// A round-trip time in milliseconds, held as the IEEE-754 bit pattern of
/// the `f64` the scanner measured. The library only copies these values and
/// tells zero apart from the rest, which the bit pattern decides exactly.
#[derive(Clone, Copy, Debug, PartialEq, Eq, Structural)]
pub struct ResponseTime {
    pub bits: u64,
}

/// Bit pattern of `-0.0`.
pub const NEGATIVE_ZERO_BITS: u64 = 0x8000_0000_0000_0000;

impl ResponseTime {
    /// The value is `+0.0` or `-0.0` (both compare equal to `0.0`).
    pub open spec fn spec_is_zero(self) -> bool {
        self.bits == 0 || self.bits == NEGATIVE_ZERO_BITS
    }

    pub fn is_zero(&self) -> (res: bool)
        ensures
            res == self.spec_is_zero(),
    {
        self.bits == 0 || self.bits == NEGATIVE_ZERO_BITS
    }
}

/// A device seen on the local network.
#[derive(Debug, PartialEq)]
pub struct Device {
    /// IP address, as text.
    pub ip: String,
    /// MAC address, as reported (any case, any separators).
    pub mac: Option<String>,
    /// Last measured round-trip time; `None` marks the device offline.
    pub response_time_ms: Option<ResponseTime>,
    pub hostname: Option<String>,
    /// Vendor from the MAC OUI lookup.
    pub vendor: Option<String>,
    /// Device type inferred from the vendor.
    pub device_type: Option<String>,
}

pub(crate) fn clone_opt_string(o: &Option<String>) -> (res: Option<String>)
    ensures
        res == *o,
{
    match o {
        Some(s) => Some(s.clone()),
        None => None,
    }
}

impl Clone for Device {
    fn clone(&self) -> (res: Self)
        ensures
            res == *self,
    {
        Device {
            ip: self.ip.clone(),
            mac: clone_opt_string(&self.mac),
            response_time_ms: self.response_time_ms,
            hostname: clone_opt_string(&self.hostname),
            vendor: clone_opt_string(&self.vendor),
            device_type: clone_opt_string(&self.device_type),
        }
    }
}

} // verus!
