//! Constants of the verbs interface and its error codes.

use vstd::prelude::*;

verus! {

/// Reliable connection service.
pub const IBV_QPT_RC: u32 = 2;

/// Unreliable datagram service.
pub const IBV_QPT_UD: u32 = 4;

pub const IBV_QPS_RESET: u32 = 0;

pub const IBV_QPS_INIT: u32 = 1;

pub const IBV_QPS_RTR: u32 = 2;

pub const IBV_QPS_RTS: u32 = 3;

pub const IBV_QPS_ERR: u32 = 6;

pub const IBV_QP_STATE: u32 = 0x1;

pub const IBV_QP_ACCESS_FLAGS: u32 = 0x8;

pub const IBV_QP_PKEY_INDEX: u32 = 0x10;

pub const IBV_QP_PORT: u32 = 0x20;

pub const IBV_QP_QKEY: u32 = 0x40;

pub const IBV_QP_AV: u32 = 0x80;

pub const IBV_QP_PATH_MTU: u32 = 0x100;

pub const IBV_QP_TIMEOUT: u32 = 0x200;

pub const IBV_QP_RETRY_CNT: u32 = 0x400;

pub const IBV_QP_RNR_RETRY: u32 = 0x800;

pub const IBV_QP_RQ_PSN: u32 = 0x1000;

pub const IBV_QP_MAX_QP_RD_ATOMIC: u32 = 0x2000;

pub const IBV_QP_MIN_RNR_TIMER: u32 = 0x8000;

pub const IBV_QP_SQ_PSN: u32 = 0x1_0000;

pub const IBV_QP_MAX_DEST_RD_ATOMIC: u32 = 0x2_0000;

pub const IBV_QP_DEST_QPN: u32 = 0x10_0000;

pub const IBV_ACCESS_REMOTE_WRITE: u32 = 0x2;

pub const IBV_ACCESS_REMOTE_READ: u32 = 0x4;

pub const IBV_ACCESS_REMOTE_ATOMIC: u32 = 0x8;

pub const IBV_WR_RDMA_WRITE: u32 = 0;

pub const IBV_WR_RDMA_WRITE_WITH_IMM: u32 = 1;

pub const IBV_WR_SEND: u32 = 2;

pub const IBV_WR_RDMA_READ: u32 = 4;

pub const IBV_SEND_SIGNALED: u32 = 0x2;

pub const IBV_WC_SUCCESS: u32 = 0;

/// An error of the operating system, by its code.
#[derive(Clone, Copy, Debug, PartialEq, Eq, Structural)]
pub struct OsError {
    pub code: i32,
}

/// What a verbs call means that reports success as zero and leaves the reason
/// of a failure in `errno`.
pub open spec fn zero_or_errno(ret: i32, errno: i32) -> Result<(), OsError> {
    if ret == 0 {
        Ok(())
    } else {
        Err(OsError { code: errno })
    }
}

/// Reads the return value of a verbs call that reports success as zero;
/// `errno` is the code that the call left behind.
pub fn check_ret(ret: i32, errno: i32) -> (r: Result<(), OsError>)
    ensures
        r == zero_or_errno(ret, errno),
{
    if ret == 0 {
        Ok(())
    } else {
        Err(OsError { code: errno })
    }
}

/// A call that reports success as zero succeeds exactly then. A failure is
/// known by what the call left in `errno`, not by what it returned.
pub proof fn law_failure_carries_errno(ret: i32, errno: i32, r: Result<(), OsError>)
    requires
        call_ensures(check_ret, (ret, errno), r),
    ensures
        r == zero_or_errno(ret, errno),
        r is Ok <==> ret == 0,
        r matches Err(e) ==> e.code == errno,
{
}

} // verus!
