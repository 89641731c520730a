//! Work requests, scatter-gather entries and work completions.
//!
//! A work request names the memory it reads or writes through
//! scatter-gather entries; each entry carries the local key of the region
//! it points into, so an entry can only be built from a region that is
//! still registered (see [`crate::ibv::IbvMr::make_sge`]).  A work
//! completion reports the outcome of one finished request.

use vstd::prelude::*;

verus! {

/// Send-side work-request opcodes.
pub const IBV_WR_RDMA_WRITE: u32 = 0;
pub const IBV_WR_RDMA_WRITE_WITH_IMM: u32 = 1;
pub const IBV_WR_SEND: u32 = 2;
pub const IBV_WR_SEND_WITH_IMM: u32 = 3;
pub const IBV_WR_RDMA_READ: u32 = 4;
pub const IBV_WR_ATOMIC_CMP_AND_SWP: u32 = 5;
pub const IBV_WR_ATOMIC_FETCH_AND_ADD: u32 = 6;

/// Work-completion opcodes.
pub const IBV_WC_SEND: u32 = 0;
pub const IBV_WC_RDMA_WRITE: u32 = 1;
pub const IBV_WC_RDMA_READ: u32 = 2;
pub const IBV_WC_COMP_SWAP: u32 = 3;
pub const IBV_WC_FETCH_ADD: u32 = 4;
pub const IBV_WC_RECV: u32 = 128;

/// Work-completion status codes.
pub const IBV_WC_SUCCESS: u32 = 0;
pub const IBV_WC_WR_FLUSH_ERR: u32 = 5;

/// One scatter-gather entry: an address range and the local key that
/// grants the hardware access to it.
#[derive(Clone, Copy, Debug, PartialEq, Eq, Structural)]
pub struct IbvSge {
    pub addr: u64,
    pub length: u32,
    pub lkey: u32,
}

/// One send work request.  For RDMA opcodes, `remote_addr` and `rkey`
/// name the remote range the request reads or writes.
#[derive(Debug)]
pub struct IbvSendWr {
    pub wr_id: u64,
    pub sg_list: Vec<IbvSge>,
    pub opcode: u32,
    pub send_flags: u32,
    pub remote_addr: u64,
    pub rkey: u32,
}

/// One receive work request.
#[derive(Debug)]
pub struct IbvRecvWr {
    pub wr_id: u64,
    pub sg_list: Vec<IbvSge>,
}

/// The result of one completed work request, valid for the poll that
/// produced it.
#[derive(Clone, Copy, Debug, PartialEq, Eq, Structural)]
pub struct IbvWc {
    pub wr_id: u64,
    pub status: u32,
    pub opcode: u32,
    pub byte_len: u32,
    pub qp_num: u32,
}

/// The sum of the lengths of a scatter-gather list, as an unbounded
/// integer.
pub open spec fn spec_sge_total(sges: Seq<IbvSge>) -> int
    decreases sges.len(),
{
    if sges.len() == 0 {
        0
    } else {
        spec_sge_total(sges.drop_last()) + sges.last().length
    }
}

/// The completion opcode that reports a send-side request of the given
/// work-request opcode.
pub open spec fn spec_wc_opcode(wr_opcode: u32) -> u32 {
    if wr_opcode == IBV_WR_RDMA_WRITE || wr_opcode == IBV_WR_RDMA_WRITE_WITH_IMM {
        IBV_WC_RDMA_WRITE
    } else if wr_opcode == IBV_WR_RDMA_READ {
        IBV_WC_RDMA_READ
    } else if wr_opcode == IBV_WR_ATOMIC_CMP_AND_SWP {
        IBV_WC_COMP_SWAP
    } else if wr_opcode == IBV_WR_ATOMIC_FETCH_AND_ADD {
        IBV_WC_FETCH_ADD
    } else {
        IBV_WC_SEND
    }
}

/// Maps a send work-request opcode to the opcode of the completion that
/// reports it.
pub fn wc_opcode_for(wr_opcode: u32) -> (r: u32)
    ensures
        r == spec_wc_opcode(wr_opcode),
{
    if wr_opcode == IBV_WR_RDMA_WRITE || wr_opcode == IBV_WR_RDMA_WRITE_WITH_IMM {
        IBV_WC_RDMA_WRITE
    } else if wr_opcode == IBV_WR_RDMA_READ {
        IBV_WC_RDMA_READ
    } else if wr_opcode == IBV_WR_ATOMIC_CMP_AND_SWP {
        IBV_WC_COMP_SWAP
    } else if wr_opcode == IBV_WR_ATOMIC_FETCH_AND_ADD {
        IBV_WC_FETCH_ADD
    } else {
        IBV_WC_SEND
    }
}

/// Adds up the lengths of a scatter-gather list, reporting `None` when
/// the total does not fit the 32-bit byte count of a work completion.
pub fn sge_total(sges: &Vec<IbvSge>) -> (r: Option<u32>)
    ensures
        match r {
            Some(n) => n == spec_sge_total(sges@),
            None => spec_sge_total(sges@) > u32::MAX,
        },
{
    let mut total: u64 = 0;
    let mut i: usize = 0;
    while i < sges.len()
        invariant
            i <= sges.len(),
            total == spec_sge_total(sges@.take(i as int)),
            total <= u32::MAX,
        decreases sges.len() - i,
    {
        proof {
            assert(sges@.take(i + 1).drop_last() =~= sges@.take(i as int));
        }
        let next: u64 = total + sges[i].length as u64;
        if next > u32::MAX as u64 {
            proof {
                lemma_sge_total_monotone(sges@, i + 1);
            }
            return None;
        }
        total = next;
        i = i + 1;
    }
    proof {
        assert(sges@.take(sges@.len() as int) =~= sges@);
    }
    Some(total as u32)
}

/// A prefix of a scatter-gather list never adds up to more than the whole
/// list.
proof fn lemma_sge_total_monotone(sges: Seq<IbvSge>, i: int)
    requires
        0 <= i <= sges.len(),
    ensures
        spec_sge_total(sges.take(i)) <= spec_sge_total(sges),
    decreases sges.len() - i,
{
    if i == sges.len() {
        assert(sges.take(i) =~= sges);
    } else {
        lemma_sge_total_monotone(sges, i + 1);
        assert(sges.take(i + 1).drop_last() =~= sges.take(i));
    }
}

} // verus!
