//! Completions: typed outcomes of completion records, and the decisions of
//! the blocking polls, which the caller drives by polling the device.

use vstd::prelude::*;

use crate::bindings::{ibv_wc, IBV_WC_SUCCESS, IBV_WC_WITH_IMM};
use crate::context::Cq;

verus! {

/// A completion: the outcome of one signaled work request.
#[derive(Debug, Clone, Copy, PartialEq, Eq, Structural)]
pub struct Wc {
    pub wr_id: u64,
    pub status: u32,
    pub opcode: u32,
    pub byte_len: u32,
    pub imm: Option<u32>,
    pub qp_num: u32,
    pub src_qp: u32,
    pub slid: u16,
}

/// Why a poll ended without the completions asked for.
#[derive(Debug, Clone, Copy, PartialEq, Eq, Structural)]
pub enum PollError {
    /// The device refused the poll with this code.
    Device(i32),
    /// A completion came back with a non-success status.
    Failed { wr_id: u64, status: u32 },
}

/// What the caller of a blocking poll does next.
#[derive(Debug, Clone, Copy, PartialEq, Eq, Structural)]
pub enum PollAction {
    /// Poll the device again, for at most this many completions.
    Poll(usize),
    /// All the completions asked for have come.
    Done,
    /// Stop with this error.
    Fail(PollError),
}

/// The typed completion of a record.
pub open spec fn wc_of(raw: ibv_wc) -> Wc {
    Wc {
        wr_id: raw.wr_id,
        status: raw.status,
        opcode: raw.opcode,
        byte_len: raw.byte_len,
        imm: if raw.wc_flags & IBV_WC_WITH_IMM != 0 {
            Some(raw.imm_data)
        } else {
            None
        },
        qp_num: raw.qp_num,
        src_qp: raw.src_qp,
        slid: raw.slid,
    }
}

/// The completions of the first `n` records, in the device's order.
pub open spec fn completions_of(raw: Seq<ibv_wc>, n: int) -> Seq<Wc> {
    Seq::new(n as nat, |i: int| wc_of(raw[i]))
}

/// The first completion of `s` with a non-success status, if any.
pub open spec fn first_failed(s: Seq<Wc>) -> Option<int> {
    if exists|i: int| 0 <= i < s.len() && s[i].status != IBV_WC_SUCCESS {
        Some(choose|i: int| 0 <= i < s.len() && s[i].status != IBV_WC_SUCCESS
            && forall|j: int| 0 <= j < i ==> s[j].status == IBV_WC_SUCCESS)
    } else {
        None
    }
}

impl Wc {
    /// The typed completion of a record: the immediate is there exactly
    /// when the record's flags say so.
    pub fn from_raw(raw: &ibv_wc) -> (r: Wc)
        ensures
            r == wc_of(*raw),
    {
        Wc {
            wr_id: raw.wr_id,
            status: raw.status,
            opcode: raw.opcode,
            byte_len: raw.byte_len,
            imm: if raw.wc_flags & IBV_WC_WITH_IMM != 0 {
                Some(raw.imm_data)
            } else {
                None
            },
            qp_num: raw.qp_num,
            src_qp: raw.src_qp,
            slid: raw.slid,
        }
    }

    /// The work request succeeded.
    pub fn ok(&self) -> (r: bool)
        ensures
            r == (self.status == IBV_WC_SUCCESS),
    {
        self.status == IBV_WC_SUCCESS
    }
}

impl Cq {
    /// The completions of one non-blocking poll. `ret` is what the device
    /// returned for a poll into `raw`: a negative error code, or how many
    /// records it wrote. No record is an empty result, not an error.
    pub fn poll_result(&self, raw: &[ibv_wc], ret: i32) -> (r: Result<Vec<Wc>, PollError>)
        requires
            ret <= raw@.len(),
        ensures
            r is Err <==> ret < 0,
            r matches Err(e) ==> e == PollError::Device(ret),
            r matches Ok(v) ==> v@ == completions_of(raw@, ret as int),
            ret == 0 ==> (r matches Ok(v) && v@.len() == 0),
    {
        if ret < 0 {
            return Err(PollError::Device(ret));
        }
        let n = ret as usize;
        let mut v: Vec<Wc> = Vec::new();
        let mut i: usize = 0;
        while i < n
            invariant
                n == ret,
                n <= raw@.len(),
                i <= n,
                v@ == completions_of(raw@, i as int),
            decreases n - i,
        {
            v.push(Wc::from_raw(&raw[i]));
            i += 1;
            assert(v@ =~= completions_of(raw@, i as int));
        }
        assert(v@ =~= completions_of(raw@, n as int));
        Ok(v)
    }

    /// A blocking poll that returns `count` completions, failed ones
    /// included.
    pub fn poll_blocking(&self, count: usize) -> (r: BlockingPoll)
        ensures
            r.want == count,
            r.got@.len() == 0,
    {
        BlockingPoll { want: count, got: Vec::new() }
    }

    /// A blocking poll that waits for `count` completions without handing
    /// them out, and fails on the first one that did not succeed.
    pub fn poll_nocqe_blocking(&self, count: usize) -> (r: NocqePoll)
        ensures
            r.want == count,
            r.seen == 0,
    {
        NocqePoll { want: count, seen: 0 }
    }
}

/// The state of a blocking poll that collects completions.
pub struct BlockingPoll {
    pub want: usize,
    pub got: Vec<Wc>,
}

impl BlockingPoll {
    /// The next thing to do before any poll.
    pub fn start(&self) -> (r: PollAction)
        ensures
            self.got@.len() >= self.want ==> r == PollAction::Done,
            self.got@.len() < self.want ==> r == PollAction::Poll((self.want - self.got@.len()) as usize),
    {
        if self.got.len() >= self.want {
            PollAction::Done
        } else {
            PollAction::Poll(self.want - self.got.len())
        }
    }

    /// Takes the result of one poll. An empty result asks for another poll;
    /// completions are appended in the order the device gave them.
    pub fn step(&mut self, polled: Result<Vec<Wc>, PollError>) -> (r: PollAction)
        requires
            old(self).got@.len() < old(self).want,
            polled matches Ok(b) ==> b@.len() <= old(self).want - old(self).got@.len(),
        ensures
            final(self).want == old(self).want,
            match polled {
                Err(e) => r == PollAction::Fail(e) && final(self).got@ == old(self).got@,
                Ok(b) => {
                    &&& final(self).got@ == old(self).got@ + b@
                    &&& final(self).got@.len() == final(self).want ==> r == PollAction::Done
                    &&& final(self).got@.len() < final(self).want ==> r == PollAction::Poll(
                        (final(self).want - final(self).got@.len()) as usize,
                    )
                },
            },
    {
        match polled {
            Err(e) => PollAction::Fail(e),
            Ok(b) => {
                let mut i: usize = 0;
                let ghost before = self.got@;
                while i < b.len()
                    invariant
                        i <= b@.len(),
                        self.want == old(self).want,
                        before == old(self).got@,
                        self.got@ == before + b@.subrange(0, i as int),
                    decreases b@.len() - i,
                {
                    self.got.push(b[i]);
                    i += 1;
                    assert(self.got@ =~= before + b@.subrange(0, i as int));
                }
                assert(b@.subrange(0, b@.len() as int) =~= b@);
                if self.got.len() >= self.want {
                    PollAction::Done
                } else {
                    PollAction::Poll(self.want - self.got.len())
                }
            },
        }
    }

    /// The completions collected, in order.
    pub fn into_completions(self) -> (r: Vec<Wc>)
        ensures
            r@ == self.got@,
    {
        self.got
    }
}

/// The state of a blocking poll that only counts completions.
pub struct NocqePoll {
    pub want: usize,
    pub seen: usize,
}

impl NocqePoll {
    /// The next thing to do before any poll.
    pub fn start(&self) -> (r: PollAction)
        ensures
            self.seen >= self.want ==> r == PollAction::Done,
            self.seen < self.want ==> r == PollAction::Poll((self.want - self.seen) as usize),
    {
        if self.seen >= self.want {
            PollAction::Done
        } else {
            PollAction::Poll(self.want - self.seen)
        }
    }

    /// Takes the result of one poll. An empty result asks for another poll;
    /// the first completion that failed ends the poll with its status.
    pub fn step(&mut self, polled: Result<Vec<Wc>, PollError>) -> (r: PollAction)
        requires
            old(self).seen < old(self).want,
            polled matches Ok(b) ==> b@.len() <= old(self).want - old(self).seen,
        ensures
            final(self).want == old(self).want,
            match polled {
                Err(e) => r == PollAction::Fail(e) && final(self).seen == old(self).seen,
                Ok(b) => match first_failed(b@) {
                    Some(i) => r == PollAction::Fail(
                        PollError::Failed { wr_id: b@[i].wr_id, status: b@[i].status },
                    ) && final(self).seen == old(self).seen,
                    None => {
                        &&& final(self).seen == old(self).seen + b@.len()
                        &&& final(self).seen == final(self).want ==> r == PollAction::Done
                        &&& final(self).seen < final(self).want ==> r == PollAction::Poll(
                            (final(self).want - final(self).seen) as usize,
                        )
                    },
                },
            },
    {
        match polled {
            Err(e) => PollAction::Fail(e),
            Ok(b) => {
                let mut i: usize = 0;
                while i < b.len()
                    invariant
                        i <= b@.len(),
                        polled == Ok::<Vec<Wc>, PollError>(b),
                        self.seen == old(self).seen,
                        self.want == old(self).want,
                        forall|j: int| 0 <= j < i ==> b@[j].status == IBV_WC_SUCCESS,
                    decreases b@.len() - i,
                {
                    if b[i].status != IBV_WC_SUCCESS {
                        proof {
                            let w = i as int;
                            assert(0 <= w < b@.len() && b@[w].status != IBV_WC_SUCCESS
                                && forall|j: int| 0 <= j < w ==> b@[j].status == IBV_WC_SUCCESS);
                            let k = choose|k: int| 0 <= k < b@.len() && b@[k].status != IBV_WC_SUCCESS
                                && forall|j: int| 0 <= j < k ==> b@[j].status == IBV_WC_SUCCESS;
                            assert(k == i as int) by {
                                if k < i {
                                    assert(b@[k].status == IBV_WC_SUCCESS);
                                } else if k > i {
                                    assert(b@[i as int].status == IBV_WC_SUCCESS);
                                }
                            }
                        }
                        return PollAction::Fail(
                            PollError::Failed { wr_id: b[i].wr_id, status: b[i].status },
                        );
                    }
                    i += 1;
                }
                self.seen = self.seen + b.len();
                if self.seen >= self.want {
                    PollAction::Done
                } else {
                    PollAction::Poll(self.want - self.seen)
                }
            },
        }
    }
}

} // verus!
