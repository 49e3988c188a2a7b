//! Numeric encodings and record layouts fixed by the verbs interface.
#![allow(non_camel_case_types)]

use vstd::prelude::*;

verus! {

/// `ibv_wr_opcode`: RDMA write.
pub const IBV_WR_RDMA_WRITE: u32 = 0;
/// `ibv_wr_opcode`: RDMA write carrying an immediate.
pub const IBV_WR_RDMA_WRITE_WITH_IMM: u32 = 1;
/// `ibv_wr_opcode`: send.
pub const IBV_WR_SEND: u32 = 2;
/// `ibv_wr_opcode`: send carrying an immediate.
pub const IBV_WR_SEND_WITH_IMM: u32 = 3;
/// `ibv_wr_opcode`: RDMA read.
pub const IBV_WR_RDMA_READ: u32 = 4;

/// `ibv_send_flags`: ask for a completion.
pub const IBV_SEND_SIGNALED: u32 = 2;

/// `ibv_wc_flags`: the completion carries an immediate.
pub const IBV_WC_WITH_IMM: u32 = 2;

/// `ibv_wc_status`: success.
pub const IBV_WC_SUCCESS: u32 = 0;

/// `ibv_port_state`: the link is up.
pub const IBV_PORT_ACTIVE: u32 = 4;

/// `ibv_mtu` codes.
pub const IBV_MTU_256: u32 = 1;
pub const IBV_MTU_512: u32 = 2;
pub const IBV_MTU_1024: u32 = 3;
pub const IBV_MTU_2048: u32 = 4;
pub const IBV_MTU_4096: u32 = 5;

/// The global view of a 128-bit GID.
#[derive(Debug, Clone, Copy, PartialEq, Eq, Structural)]
pub struct ibv_gid_global_t {
    pub subnet_prefix: u64,
    pub interface_id: u64,
}

/// A completion record as the device writes it.
#[derive(Debug, Clone, Copy, PartialEq, Eq, Structural)]
pub struct ibv_wc {
    pub wr_id: u64,
    pub status: u32,
    pub opcode: u32,
    pub vendor_err: u32,
    pub byte_len: u32,
    pub imm_data: u32,
    pub qp_num: u32,
    pub src_qp: u32,
    pub wc_flags: u32,
    pub pkey_index: u16,
    pub slid: u16,
    pub sl: u8,
    pub dlid_path_bits: u8,
}

impl ibv_wc {
    /// The immediate data field, as the device wrote it.
    pub fn imm(&self) -> (r: u32)
        ensures
            r == self.imm_data,
    {
        self.imm_data
    }
}

} // verus!
