//! Entries of a registry of receivers, built by callers.
use vstd::prelude::*;

verus! {

/// A network address: four octets, or eight 16-bit segments.
#[derive(Debug, Clone, Copy, PartialEq, Eq)]
pub enum IpAddress {
    V4([u8; 4]),
    V6([u16; 8]),
}

/// A receiver known by its network address and a display name.
#[derive(Debug, Clone, PartialEq)]
pub struct YamahaDevice {
    pub ip: IpAddress,
    pub name: String,
}

} // verus!
