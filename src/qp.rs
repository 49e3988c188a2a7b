//! Queue pairs: which requests a transport takes, and the descriptor chain
//! a batch of requests is posted as.

use vstd::prelude::*;

use crate::bindings::ibv_wc;
use crate::context::{Context, Cq};
use crate::cq::completions_of;
use crate::mr::{MrSlice, RemoteMrSlice};
use crate::wr::{
    flags_of, imm_of, opcode_of, target_of, views_ok, QpPeer, RecvDescriptor, RecvWr,
    SendDescriptor, SendWr, SendWrDetails,
};

verus! {

/// The transport of a queue pair.
#[derive(Debug, Clone, Copy, PartialEq, Eq, Structural)]
pub enum QpType {
    /// Reliable connected: the peer is fixed by the connection.
    RC,
    /// Unreliable datagram: every send names its peer.
    UD,
}

/// Why a batch was not posted.
#[derive(Debug, Clone, Copy, PartialEq, Eq, Structural)]
pub enum PostError {
    /// The request at this index does not suit the queue pair's transport.
    Transport(usize),
    /// The device refused the post with this code.
    Device(i32),
}

/// One side of a connection: its context, transport, number, and the
/// completion queues of its send and receive queues.
#[derive(Debug, Clone, Copy, PartialEq, Eq, Structural)]
pub struct Qp {
    pub ctx: Context,
    pub qp_type: QpType,
    pub qp_num: u32,
    pub scq: Cq,
    pub rcq: Cq,
}

/// A datagram queue pair takes only sends that name a peer; a connected one
/// takes every request but those.
pub open spec fn suits(t: QpType, d: SendWrDetails) -> bool {
    match t {
        QpType::UD => d is SendTo,
        QpType::RC => !(d is SendTo),
    }
}

/// `d` is the descriptor of `w`.
pub open spec fn describes(d: SendDescriptor, w: SendWr) -> bool {
    &&& d.wr_id == w.0.wr_id
    &&& d.sg_list@ == w.0.local@
    &&& d.num_sge == w.0.local@.len()
    &&& d.send_flags == flags_of(w.0.signal)
    &&& d.opcode == opcode_of(w.1)
    &&& d.imm_data == (match imm_of(w.1) {
        Some(v) => v,
        None => 0u32,
    })
    &&& d.wr == target_of(w.1)
}

/// `d` is the descriptor of `w`.
pub open spec fn describes_recv(d: RecvDescriptor, w: RecvWr) -> bool {
    &&& d.wr_id == w.0.wr_id
    &&& d.sg_list@ == w.0.local@
    &&& d.num_sge == w.0.local@.len()
}

/// The index of the first request of `wrs` that does not suit `t`.
pub open spec fn first_misfit(t: QpType, wrs: Seq<SendWr>, i: int) -> bool {
    &&& 0 <= i < wrs.len()
    &&& !suits(t, wrs[i].1)
    &&& forall|j: int| 0 <= j < i ==> suits(t, (#[trigger] wrs[j]).1)
}

impl Qp {
    /// The completion queue of the send queue.
    pub fn scq(&self) -> (r: Cq)
        ensures
            r == self.scq,
    {
        self.scq
    }

    /// The completion queue of the receive queue.
    pub fn rcq(&self) -> (r: Cq)
        ensures
            r == self.rcq,
    {
        self.rcq
    }

    /// The descriptors of a batch of send requests, in submission order;
    /// the batch is refused at its first request that does not suit the
    /// transport.
    pub fn post_send<'a>(&self, wrs: &'a [SendWr<'_>]) -> (r: Result<Vec<SendDescriptor<'a>>, PostError>)
        requires
            forall|i: int| 0 <= i < wrs@.len() ==> (#[trigger] wrs@[i]).wf(),
        ensures
            r is Err <==> exists|i: int| 0 <= i < wrs@.len() && !suits(self.qp_type, wrs@[i].1),
            r matches Err(e) ==> e matches PostError::Transport(i) && first_misfit(
                self.qp_type,
                wrs@,
                i as int,
            ),
            r matches Ok(v) ==> v@.len() == wrs@.len() && forall|i: int|
                0 <= i < wrs@.len() ==> describes(#[trigger] v@[i], wrs@[i]),
    {
        let mut v: Vec<SendDescriptor<'a>> = Vec::new();
        let mut i: usize = 0;
        while i < wrs.len()
            invariant
                i <= wrs@.len(),
                v@.len() == i,
                forall|j: int| 0 <= j < wrs@.len() ==> (#[trigger] wrs@[j]).wf(),
                forall|j: int| 0 <= j < i ==> suits(self.qp_type, (#[trigger] wrs@[j]).1),
                forall|j: int| 0 <= j < i ==> describes(#[trigger] v@[j], wrs@[j]),
            decreases wrs@.len() - i,
        {
            let fits = match self.qp_type {
                QpType::UD => matches!(wrs[i].1, SendWrDetails::SendTo(_, _)),
                QpType::RC => !matches!(wrs[i].1, SendWrDetails::SendTo(_, _)),
            };
            if !fits {
                return Err(PostError::Transport(i));
            }
            v.push(wrs[i].to_wr());
            i += 1;
        }
        Ok(v)
    }

    /// The descriptors of a batch of receive requests, in submission order.
    pub fn post_recv<'a>(&self, wrs: &'a [RecvWr<'_>]) -> (r: Vec<RecvDescriptor<'a>>)
        requires
            forall|i: int| 0 <= i < wrs@.len() ==> (#[trigger] wrs@[i]).wf(),
        ensures
            r@.len() == wrs@.len(),
            forall|i: int| 0 <= i < wrs@.len() ==> describes_recv(#[trigger] r@[i], wrs@[i]),
    {
        let mut v: Vec<RecvDescriptor<'a>> = Vec::new();
        let mut i: usize = 0;
        while i < wrs.len()
            invariant
                i <= wrs@.len(),
                v@.len() == i,
                forall|j: int| 0 <= j < wrs@.len() ==> (#[trigger] wrs@[j]).wf(),
                forall|j: int| 0 <= j < i ==> describes_recv(#[trigger] v@[j], wrs@[j]),
            decreases wrs@.len() - i,
        {
            v.push(wrs[i].to_wr());
            i += 1;
        }
        v
    }

    /// What the device's answer to a post means: zero is success, anything
    /// else its error code.
    pub fn post_result(&self, ret: i32) -> (r: Result<(), PostError>)
        ensures
            r is Ok <==> ret == 0,
            r matches Err(e) ==> e == PostError::Device(ret),
    {
        if ret == 0 {
            Ok(())
        } else {
            Err(PostError::Device(ret))
        }
    }

    /// A one-request write of `local` into `remote`.
    pub fn write<'a>(
        &self,
        local: &'a [MrSlice<'a>],
        remote: &'a RemoteMrSlice,
        wr_id: u64,
        imm: Option<u32>,
        signal: bool,
    ) -> (r: SendWr<'a>)
        requires
            views_ok(local@),
            remote.wf(),
        ensures
            r.wf(),
            r.0.wr_id == wr_id,
            r.0.signal == signal,
            r.1 == SendWrDetails::Write(remote, imm),
            r.0.local@ == crate::wr::sgl_of(local@),
    {
        SendWr::new(local, wr_id, signal, SendWrDetails::Write(remote, imm))
    }

    /// A one-request read of `remote` into `local`.
    pub fn read<'a>(
        &self,
        local: &'a [MrSlice<'a>],
        remote: &'a RemoteMrSlice,
        wr_id: u64,
        signal: bool,
    ) -> (r: SendWr<'a>)
        requires
            views_ok(local@),
            remote.wf(),
        ensures
            r.wf(),
            r.0.wr_id == wr_id,
            r.0.signal == signal,
            r.1 == SendWrDetails::Read(remote),
            r.0.local@ == crate::wr::sgl_of(local@),
    {
        SendWr::new(local, wr_id, signal, SendWrDetails::Read(remote))
    }

    /// A one-request send of `local` to the connected peer.
    pub fn send<'a>(&self, local: &'a [MrSlice<'a>], wr_id: u64, imm: Option<u32>, signal: bool) -> (r:
        SendWr<'a>)
        requires
            views_ok(local@),
        ensures
            r.wf(),
            r.0.wr_id == wr_id,
            r.0.signal == signal,
            r.1 == SendWrDetails::Send(imm),
            r.0.local@ == crate::wr::sgl_of(local@),
    {
        SendWr::new(local, wr_id, signal, SendWrDetails::Send(imm))
    }

    /// A one-request datagram send of `local` to `peer`.
    pub fn send_to<'a>(
        &self,
        local: &'a [MrSlice<'a>],
        peer: &QpPeer,
        wr_id: u64,
        imm: Option<u32>,
        signal: bool,
    ) -> (r: SendWr<'a>)
        requires
            views_ok(local@),
        ensures
            r.wf(),
            r.0.wr_id == wr_id,
            r.0.signal == signal,
            r.1 == SendWrDetails::SendTo(*peer, imm),
            r.0.local@ == crate::wr::sgl_of(local@),
    {
        SendWr::new(local, wr_id, signal, SendWrDetails::SendTo(*peer, imm))
    }
}

/// Completions come back in posting order with the matching identifiers:
/// where the device reports the descriptors of a posted batch in the order
/// they were chained, as a connected queue pair does, the completions of a
/// poll carry the identifiers of the batch's requests in the same order.
pub proof fn lemma_completions_follow_posting(
    wrs: Seq<SendWr>,
    descs: Seq<SendDescriptor>,
    raw: Seq<ibv_wc>,
)
    requires
        descs.len() == wrs.len(),
        forall|i: int| 0 <= i < wrs.len() ==> describes(#[trigger] descs[i], wrs[i]),
        raw.len() >= descs.len(),
        forall|i: int| 0 <= i < descs.len() ==> (#[trigger] raw[i]).wr_id == descs[i].wr_id,
    ensures
        completions_of(raw, wrs.len() as int).len() == wrs.len(),
        forall|i: int|
            0 <= i < wrs.len() ==> (#[trigger] completions_of(raw, wrs.len() as int)[i]).wr_id
                == wrs[i].0.wr_id,
{
    assert forall|i: int| 0 <= i < wrs.len() implies (#[trigger] completions_of(
        raw,
        wrs.len() as int,
    )[i]).wr_id == wrs[i].0.wr_id by {
        assert(describes(descs[i], wrs[i]));
        assert(raw[i].wr_id == descs[i].wr_id);
    }
}

} // verus!
