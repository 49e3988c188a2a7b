//! Work requests and their translation into device descriptors.

use core::marker::PhantomData;

use vstd::prelude::*;

use crate::bindings::{
    IBV_SEND_SIGNALED, IBV_WR_RDMA_READ, IBV_WR_RDMA_WRITE, IBV_WR_RDMA_WRITE_WITH_IMM,
    IBV_WR_SEND, IBV_WR_SEND_WITH_IMM,
};
use crate::mr::{build_sgl, sge_of, Mr, MrSlice, RdmaTarget, RemoteMrSlice, Sge};

verus! {

/// The addressing of a datagram peer: its address handle, queue pair number
/// and queue key.
#[derive(Debug, Clone, Copy, PartialEq, Eq, Structural)]
pub struct QpPeer {
    pub ah: u64,
    pub qpn: u32,
    pub qkey: u32,
}

/// The operation-specific part of a descriptor, selected by its opcode.
#[derive(Debug, Clone, Copy, PartialEq, Eq, Structural)]
pub enum WrTarget {
    Plain,
    Rdma(RdmaTarget),
    Ud(QpPeer),
}

/// Parameters every work request has: the scatter-gather list built from
/// its local views, its identifier, and whether it asks for a completion.
pub struct WrBase {
    pub local: Vec<Sge>,
    pub wr_id: u64,
    pub signal: bool,
}

/// What a send-queue work request does besides the basics. A read or a
/// write borrows the remote view it targets.
#[derive(Debug, Clone, Copy)]
pub enum SendWrDetails<'a> {
    /// A send, with an optional immediate.
    Send(Option<u32>),
    /// A send on a datagram queue pair to the given peer, with an optional
    /// immediate.
    SendTo(QpPeer, Option<u32>),
    /// A read from the given remote view.
    Read(&'a RemoteMrSlice),
    /// A write to the given remote view, with an optional immediate.
    Write(&'a RemoteMrSlice, Option<u32>),
}

/// A send-queue work request. It borrows the views it was built from, and
/// so the regions they describe, for as long as it lives: neither can be
/// dropped or moved while the request, or a descriptor made from it, may
/// still be in flight.
pub struct SendWr<'a>(pub WrBase, pub SendWrDetails<'a>, pub PhantomData<&'a Mr>);

/// A receive-queue work request, borrowing its views and their regions as
/// a send-queue request does.
pub struct RecvWr<'a>(pub WrBase, pub PhantomData<&'a Mr>);

/// A send-queue descriptor as the device consumes it. It borrows the
/// scatter-gather list of the work request it was made from.
pub struct SendDescriptor<'a> {
    pub wr_id: u64,
    pub sg_list: &'a [Sge],
    pub num_sge: i32,
    pub send_flags: u32,
    pub opcode: u32,
    pub imm_data: u32,
    pub wr: WrTarget,
}

/// A receive-queue descriptor, borrowing its work request's list.
pub struct RecvDescriptor<'a> {
    pub wr_id: u64,
    pub sg_list: &'a [Sge],
    pub num_sge: i32,
}

/// The scatter-gather list of `local`, entry for entry.
pub open spec fn sgl_of(local: Seq<MrSlice>) -> Seq<Sge> {
    Seq::new(local.len(), |i: int| sge_of(*local[i].mr, local[i].offset as int, local[i].len as int))
}

/// The views can make one work request.
pub open spec fn views_ok(local: Seq<MrSlice>) -> bool {
    &&& local.len() <= i32::MAX
    &&& forall|i: int| 0 <= i < local.len() ==> (#[trigger] local[i]).wf()
}

/// The immediate a request carries, if any; a read never carries one.
pub open spec fn imm_of(d: SendWrDetails) -> Option<u32> {
    match d {
        SendWrDetails::Send(imm) => imm,
        SendWrDetails::SendTo(_, imm) => imm,
        SendWrDetails::Read(_) => None,
        SendWrDetails::Write(_, imm) => imm,
    }
}

/// The opcode of a request's kind without an immediate.
pub open spec fn plain_opcode(d: SendWrDetails) -> u32 {
    match d {
        SendWrDetails::Send(_) => IBV_WR_SEND,
        SendWrDetails::SendTo(_, _) => IBV_WR_SEND,
        SendWrDetails::Read(_) => IBV_WR_RDMA_READ,
        SendWrDetails::Write(_, _) => IBV_WR_RDMA_WRITE,
    }
}

/// The "with immediate" counterpart of a plain opcode.
pub open spec fn with_imm(op: u32) -> u32 {
    if op == IBV_WR_SEND {
        IBV_WR_SEND_WITH_IMM
    } else if op == IBV_WR_RDMA_WRITE {
        IBV_WR_RDMA_WRITE_WITH_IMM
    } else {
        op
    }
}

/// The opcode a request is posted with.
pub open spec fn opcode_of(d: SendWrDetails) -> u32 {
    if imm_of(d) is Some {
        with_imm(plain_opcode(d))
    } else {
        plain_opcode(d)
    }
}

/// The operation-specific part a request is posted with.
pub open spec fn target_of(d: SendWrDetails) -> WrTarget {
    match d {
        SendWrDetails::Send(_) => WrTarget::Plain,
        SendWrDetails::SendTo(peer, _) => WrTarget::Ud(peer),
        SendWrDetails::Read(remote) => WrTarget::Rdma(remote.target_spec()),
        SendWrDetails::Write(remote, _) => WrTarget::Rdma(remote.target_spec()),
    }
}

/// The details refer to remote views that lie within their regions.
pub open spec fn details_ok(d: SendWrDetails) -> bool {
    match d {
        SendWrDetails::Read(remote) => remote.wf(),
        SendWrDetails::Write(remote, _) => remote.wf(),
        _ => true,
    }
}

/// The send flags for a request's signal flag.
pub open spec fn flags_of(signal: bool) -> u32 {
    if signal {
        IBV_SEND_SIGNALED
    } else {
        0
    }
}

/// An immediate switches a send or a write to its "with immediate" opcode,
/// and its absence keeps the plain one, alike for both kinds; a read keeps
/// its opcode.
pub proof fn lemma_imm_selects_opcode(d: SendWrDetails)
    ensures
        (d is Send || d is SendTo) ==> opcode_of(d) == (if imm_of(d) is Some {
            IBV_WR_SEND_WITH_IMM
        } else {
            IBV_WR_SEND
        }),
        d is Write ==> opcode_of(d) == (if imm_of(d) is Some {
            IBV_WR_RDMA_WRITE_WITH_IMM
        } else {
            IBV_WR_RDMA_WRITE
        }),
        d is Read ==> opcode_of(d) == IBV_WR_RDMA_READ,
{
}

impl WrBase {
    pub open spec fn wf(&self) -> bool {
        self.local@.len() <= i32::MAX
    }

    fn new(local: &[MrSlice<'_>], wr_id: u64, signal: bool) -> (r: WrBase)
        requires
            views_ok(local@),
        ensures
            r.local@ == sgl_of(local@),
            r.wr_id == wr_id,
            r.signal == signal,
            r.wf(),
    {
        let sgl = build_sgl(local);
        assert(sgl@ =~= sgl_of(local@));
        WrBase { local: sgl, wr_id, signal }
    }
}

impl<'a> SendWr<'a> {
    pub open spec fn wf(&self) -> bool {
        self.0.wf() && details_ok(self.1)
    }

    /// Builds a send-queue request from local views, an identifier, a signal
    /// flag and the operation details.
    pub fn new(
        local: &'a [MrSlice<'a>],
        wr_id: u64,
        signal: bool,
        additions: SendWrDetails<'a>,
    ) -> (r: SendWr<'a>)
        requires
            views_ok(local@),
            details_ok(additions),
        ensures
            r.0.local@ == sgl_of(local@),
            r.0.wr_id == wr_id,
            r.0.signal == signal,
            r.1 == additions,
            r.wf(),
    {
        SendWr(WrBase::new(local, wr_id, signal), additions, PhantomData)
    }

    /// The descriptor for this request. It borrows the request's
    /// scatter-gather list, so the request outlives it.
    pub fn to_wr(&self) -> (r: SendDescriptor<'_>)
        requires
            self.wf(),
        ensures
            r.wr_id == self.0.wr_id,
            r.sg_list@ == self.0.local@,
            r.num_sge == self.0.local@.len(),
            r.send_flags == flags_of(self.0.signal),
            r.opcode == opcode_of(self.1),
            r.imm_data == (match imm_of(self.1) {
                Some(v) => v,
                None => 0u32,
            }),
            imm_of(self.1) is Some <==> (r.opcode == IBV_WR_SEND_WITH_IMM || r.opcode
                == IBV_WR_RDMA_WRITE_WITH_IMM),
            r.wr == target_of(self.1),
    {
        let send_flags = if self.0.signal {
            IBV_SEND_SIGNALED
        } else {
            0
        };
        let (opcode, imm, wr) = match &self.1 {
            SendWrDetails::Send(imm) => fill_opcode_with_imm(
                imm,
                IBV_WR_SEND,
                IBV_WR_SEND_WITH_IMM,
                WrTarget::Plain,
            ),
            SendWrDetails::SendTo(peer, imm) => fill_opcode_with_imm(
                imm,
                IBV_WR_SEND,
                IBV_WR_SEND_WITH_IMM,
                WrTarget::Ud(*peer),
            ),
            SendWrDetails::Read(remote) => (IBV_WR_RDMA_READ, 0u32, WrTarget::Rdma(remote.target())),
            SendWrDetails::Write(remote, imm) => fill_opcode_with_imm(
                imm,
                IBV_WR_RDMA_WRITE,
                IBV_WR_RDMA_WRITE_WITH_IMM,
                WrTarget::Rdma(remote.target()),
            ),
        };
        SendDescriptor {
            wr_id: self.0.wr_id,
            sg_list: self.0.local.as_slice(),
            num_sge: self.0.local.len() as i32,
            send_flags,
            opcode,
            imm_data: imm,
            wr,
        }
    }
}

/// The opcode and immediate field for an optional immediate.
fn fill_opcode_with_imm(imm: &Option<u32>, op: u32, op_with_imm: u32, wr: WrTarget) -> (r: (
    u32,
    u32,
    WrTarget,
))
    ensures
        r.0 == (if imm is Some {
            op_with_imm
        } else {
            op
        }),
        r.1 == (match *imm {
            Some(v) => v,
            None => 0u32,
        }),
        r.2 == wr,
{
    match imm {
        Some(v) => (op_with_imm, *v, wr),
        None => (op, 0, wr),
    }
}

impl<'a> RecvWr<'a> {
    pub open spec fn wf(&self) -> bool {
        self.0.wf()
    }

    /// Builds a receive-queue request from local views, an identifier and a
    /// signal flag.
    pub fn new(local: &'a [MrSlice<'a>], wr_id: u64, signal: bool) -> (r: RecvWr<'a>)
        requires
            views_ok(local@),
        ensures
            r.0.local@ == sgl_of(local@),
            r.0.wr_id == wr_id,
            r.0.signal == signal,
            r.wf(),
    {
        RecvWr(WrBase::new(local, wr_id, signal), PhantomData)
    }

    /// The descriptor for this request, borrowing its scatter-gather list.
    pub fn to_wr(&self) -> (r: RecvDescriptor<'_>)
        requires
            self.wf(),
        ensures
            r.wr_id == self.0.wr_id,
            r.sg_list@ == self.0.local@,
            r.num_sge == self.0.local@.len(),
    {
        RecvDescriptor {
            wr_id: self.0.wr_id,
            sg_list: self.0.local.as_slice(),
            num_sge: self.0.local.len() as i32,
        }
    }
}

} // verus!
