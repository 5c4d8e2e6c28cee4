//! Work completions.

use vstd::prelude::*;

use crate::sys::IBV_WC_SUCCESS;

verus! {

/// Outcome of a work request.
#[derive(Clone, Copy, Debug, PartialEq, Eq, Structural)]
pub enum WcStatus {
    Success,
    /// Any other status code.
    Failure(u32),
}

/// A work completion entry.
#[derive(Clone, Copy, Debug, PartialEq, Eq, Structural)]
pub struct Wc {
    pub wr_id: u64,
    pub status: u32,
    pub opcode: u32,
    pub vendor_err: u32,
    pub byte_len: u32,
    /// Immediate data, or the key that was invalidated.
    pub imm_data: u32,
    pub qp_num: u32,
    pub src_qp: u32,
    pub wc_flags: u32,
    pub pkey_index: u16,
    pub slid: u16,
    pub sl: u8,
    pub dlid_path_bits: u8,
}

impl Wc {
    pub open spec fn status_spec(self) -> WcStatus {
        if self.status == IBV_WC_SUCCESS {
            WcStatus::Success
        } else {
            WcStatus::Failure(self.status)
        }
    }

    /// The status of the completed work request.
    pub fn status(&self) -> (r: WcStatus)
        ensures
            r == self.status_spec(),
    {
        if self.status == IBV_WC_SUCCESS {
            WcStatus::Success
        } else {
            WcStatus::Failure(self.status)
        }
    }
}

/// A work request has succeeded if and only if its completion has the status
/// code zero. Any other status keeps its code, so that two completions have the
/// same status only if they have the same code.
pub proof fn law_status_tells_the_code(wc: Wc, other: Wc, r: WcStatus, s: WcStatus)
    requires
        call_ensures(Wc::status, (&wc,), r),
        call_ensures(Wc::status, (&other,), s),
    ensures
        r == WcStatus::Success <==> wc.status == 0,
        r matches WcStatus::Failure(code) ==> code == wc.status,
        r == s <==> wc.status == other.status,
{
}

} // verus!
