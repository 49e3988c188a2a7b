//! Registered memory regions and views into them.

use vstd::prelude::*;

verus! {

/// A registered local memory region: where it starts, how long it is, and
/// its access keys.
#[derive(Debug, Clone, Copy, PartialEq, Eq, Structural)]
pub struct Mr {
    pub addr: u64,
    pub len: usize,
    pub lkey: u32,
    pub rkey: u32,
}

/// A scatter-gather entry, the unit the device reads or writes.
#[derive(Debug, Clone, Copy, PartialEq, Eq, Structural)]
pub struct Sge {
    pub addr: u64,
    pub length: u32,
    pub lkey: u32,
}

/// A view `(offset, len)` into a registered local region. It borrows the
/// region, which therefore outlives every view of it.
#[derive(Debug, Clone, Copy)]
pub struct MrSlice<'a> {
    pub mr: &'a Mr,
    pub offset: usize,
    pub len: usize,
}

/// A memory region registered on a peer, known by its address, length and
/// remote key.
#[derive(Debug, Clone, Copy, PartialEq, Eq, Structural)]
pub struct RemoteMr {
    pub addr: u64,
    pub len: usize,
    pub rkey: u32,
}

/// A view `(offset, len)` into a remote region.
#[derive(Debug, Clone, Copy, PartialEq, Eq, Structural)]
pub struct RemoteMrSlice {
    pub remote: RemoteMr,
    pub offset: usize,
    pub len: usize,
}

/// The remote address and key of a one-sided operation.
#[derive(Debug, Clone, Copy, PartialEq, Eq, Structural)]
pub struct RdmaTarget {
    pub remote_addr: u64,
    pub rkey: u32,
}

/// A view of `len` bytes at `offset` fits in a region of `region_len` bytes
/// and in the 32-bit length of a scatter-gather entry.
pub open spec fn view_fits(region_len: int, offset: int, len: int) -> bool {
    0 <= offset && 0 <= len && offset + len <= region_len && len <= u32::MAX
}

/// The entry that exposes `len` bytes at `offset` of `mr`.
pub open spec fn sge_of(mr: Mr, offset: int, len: int) -> Sge {
    Sge { addr: (mr.addr + offset) as u64, length: len as u32, lkey: mr.lkey }
}

impl Mr {
    /// The region lies within the 64-bit address space.
    pub open spec fn wf(&self) -> bool {
        self.addr + self.len <= u64::MAX
    }

    /// Describes a region that registration returned.
    pub fn from_raw_parts(addr: u64, len: usize, lkey: u32, rkey: u32) -> (r: Mr)
        requires
            addr + len <= u64::MAX,
        ensures
            r == (Mr { addr, len, lkey, rkey }),
            r.wf(),
    {
        Mr { addr, len, lkey, rkey }
    }

    /// The view of `len` bytes at `offset`, if it fits.
    pub fn get<'a>(&'a self, offset: usize, len: usize) -> (r: Option<MrSlice<'a>>)
        requires
            self.wf(),
        ensures
            r is Some <==> view_fits(self.len as int, offset as int, len as int),
            r matches Some(s) ==> *s.mr == *self && s.offset == offset && s.len == len && s.wf(),
    {
        if offset <= self.len && len <= self.len - offset && len <= u32::MAX as usize {
            Some(MrSlice { mr: self, offset, len })
        } else {
            None
        }
    }

    /// The view of the whole region, where its length fits one entry.
    pub fn as_slice<'a>(&'a self) -> (r: Option<MrSlice<'a>>)
        requires
            self.wf(),
        ensures
            r is Some <==> self.len <= u32::MAX,
            r matches Some(s) ==> *s.mr == *self && s.offset == 0 && s.len == self.len && s.wf(),
    {
        self.get(0, self.len)
    }
}

impl<'a> MrSlice<'a> {
    pub open spec fn wf(&self) -> bool {
        &&& self.mr.wf()
        &&& view_fits(self.mr.len as int, self.offset as int, self.len as int)
    }

    /// The scatter-gather entry for this view: its address range and the
    /// region's local key.
    pub fn sge(&self) -> (r: Sge)
        requires
            self.wf(),
        ensures
            r == sge_of(*self.mr, self.offset as int, self.len as int),
            r.addr == self.mr.addr + self.offset,
            r.length == self.len,
    {
        Sge { addr: self.mr.addr + self.offset as u64, length: self.len as u32, lkey: self.mr.lkey }
    }
}

/// A view of a registered region, built with a fitting offset and length,
/// exposes exactly that address range and the region's local key.
pub proof fn lemma_slice_sge(mr: Mr, offset: usize, len: usize)
    requires
        mr.wf(),
        view_fits(mr.len as int, offset as int, len as int),
    ensures
        (MrSlice { mr: &mr, offset, len }).wf(),
        sge_of(mr, offset as int, len as int).addr == mr.addr + offset,
        sge_of(mr, offset as int, len as int).addr + sge_of(mr, offset as int, len as int).length
            == mr.addr + offset + len,
        sge_of(mr, offset as int, len as int).addr + sge_of(mr, offset as int, len as int).length
            <= mr.addr + mr.len,
        sge_of(mr, offset as int, len as int).lkey == mr.lkey,
{
}

/// The scatter-gather list of a list of views, entry for entry.
pub fn build_sgl(local: &[MrSlice<'_>]) -> (r: Vec<Sge>)
    requires
        forall|i: int| 0 <= i < local@.len() ==> (#[trigger] local@[i]).wf(),
    ensures
        r@.len() == local@.len(),
        forall|i: int|
            0 <= i < local@.len() ==> #[trigger] r@[i] == sge_of(
                *local@[i].mr,
                local@[i].offset as int,
                local@[i].len as int,
            ),
{
    let mut r: Vec<Sge> = Vec::new();
    let mut i: usize = 0;
    while i < local.len()
        invariant
            i <= local@.len(),
            r@.len() == i,
            forall|j: int| 0 <= j < local@.len() ==> (#[trigger] local@[j]).wf(),
            forall|j: int|
                0 <= j < i ==> #[trigger] r@[j] == sge_of(
                    *local@[j].mr,
                    local@[j].offset as int,
                    local@[j].len as int,
                ),
        decreases local@.len() - i,
    {
        r.push(local[i].sge());
        i += 1;
    }
    r
}

impl RemoteMr {
    pub open spec fn wf(&self) -> bool {
        self.addr + self.len <= u64::MAX
    }

    /// Describes a peer's region from the values its owner sent.
    pub fn from_raw_parts(addr: u64, len: usize, rkey: u32) -> (r: RemoteMr)
        requires
            addr + len <= u64::MAX,
        ensures
            r == (RemoteMr { addr, len, rkey }),
            r.wf(),
    {
        RemoteMr { addr, len, rkey }
    }

    /// The view of `len` bytes at `offset`, if it fits.
    pub fn get(&self, offset: usize, len: usize) -> (r: Option<RemoteMrSlice>)
        requires
            self.wf(),
        ensures
            r is Some <==> offset + len <= self.len,
            r matches Some(s) ==> s == (RemoteMrSlice { remote: *self, offset, len }) && s.wf(),
    {
        if offset <= self.len && len <= self.len - offset {
            Some(RemoteMrSlice { remote: *self, offset, len })
        } else {
            None
        }
    }

    /// The view of the whole region.
    pub fn as_slice(&self) -> (r: RemoteMrSlice)
        requires
            self.wf(),
        ensures
            r == (RemoteMrSlice { remote: *self, offset: 0, len: self.len }),
    {
        RemoteMrSlice { remote: *self, offset: 0, len: self.len }
    }
}

impl RemoteMrSlice {
    /// The view lies within its region.
    pub open spec fn wf(&self) -> bool {
        &&& self.remote.wf()
        &&& self.offset + self.len <= self.remote.len
    }

    pub open spec fn target_spec(&self) -> RdmaTarget {
        RdmaTarget { remote_addr: (self.remote.addr + self.offset) as u64, rkey: self.remote.rkey }
    }

    /// Where a one-sided operation on this view lands.
    pub fn target(&self) -> (r: RdmaTarget)
        requires
            self.wf(),
        ensures
            r == self.target_spec(),
            r.remote_addr == self.remote.addr + self.offset,
    {
        RdmaTarget { remote_addr: self.remote.addr + self.offset as u64, rkey: self.remote.rkey }
    }
}

} // verus!
