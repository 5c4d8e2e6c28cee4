//! What the library knows of a device: its context and protection domains.

use vstd::prelude::*;

verus! {

/// Global identifier of a port, in network byte order.
#[derive(Clone, Copy, Debug, PartialEq, Eq)]
pub struct Gid {
    pub raw: [u8; 16],
}

/// An opened device and the port in use.
#[derive(Clone, Copy, Debug, PartialEq, Eq)]
pub struct Context {
    /// Address of the device context.
    pub raw: usize,
    /// The largest number of entries of a completion queue, as the device
    /// reports it.
    pub max_cqe: i32,
    pub gid: Gid,
    pub gid_index: u8,
    pub port_num: u8,
    pub lid: u16,
    pub active_mtu: u32,
}

/// A protection domain.
#[derive(Clone, Copy, Debug, PartialEq, Eq)]
pub struct Pd {
    /// Address of the protection domain.
    pub raw: usize,
    pub ctx: Context,
}

} // verus!
