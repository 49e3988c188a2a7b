//! Device contexts: choosing a (device, port) pair from what the devices
//! report, and the attributes cached at that time.

use vstd::prelude::*;

use crate::bindings::{
    ibv_gid_global_t, IBV_MTU_1024, IBV_MTU_2048, IBV_MTU_256, IBV_MTU_4096, IBV_MTU_512,
    IBV_PORT_ACTIVE,
};

verus! {

/// A 128-bit global identifier, in its global (prefix, interface) view.
#[derive(Debug, Clone, Copy, PartialEq, Eq, Structural)]
pub struct Gid {
    pub subnet_prefix: u64,
    pub interface_id: u64,
}

impl Gid {
    pub fn from_global(g: ibv_gid_global_t) -> (r: Gid)
        ensures
            r.subnet_prefix == g.subnet_prefix,
            r.interface_id == g.interface_id,
    {
        Gid { subnet_prefix: g.subnet_prefix, interface_id: g.interface_id }
    }
}

/// The attributes of a port that a context keeps.
#[derive(Debug, Clone, Copy, PartialEq, Eq, Structural)]
pub struct PortAttr {
    pub state: u32,
    pub lid: u16,
    pub active_mtu: u32,
}

/// What a port reports when queried: its attributes and its GID table.
pub struct PortInfo {
    pub attr: PortAttr,
    pub gids: Vec<Gid>,
}

/// What a device reports when queried: its name and its ports, port `n`
/// standing at index `n - 1`.
pub struct DeviceInfo {
    pub name: String,
    pub ports: Vec<PortInfo>,
}

/// Why a context could not be opened.
#[derive(Debug, Clone, Copy, PartialEq, Eq, Structural)]
pub enum OpenError {
    /// Port numbers start from 1.
    ZeroPort,
    /// No device has the given name.
    DeviceNotFound,
    /// The named device has fewer ports than the number given.
    InvalidPort(u8),
    /// The chosen port's link is not up.
    PortNotActive(u8),
    /// Fewer active ports exist over all devices than the number given.
    NotEnoughActivePorts,
    /// The port reports a transfer-unit code outside the known set.
    UnknownMtu(u32),
    /// The port reports an empty GID table.
    NoGid,
}

/// An opened (device, port) pair with the attributes queried at open time.
#[derive(Debug, Clone, Copy, PartialEq, Eq, Structural)]
pub struct Context {
    /// Index of the device in the list the context was opened from.
    pub dev_index: usize,
    pub port_attr: PortAttr,
    pub port_num: u8,
    pub gid: Gid,
    pub gid_index: u8,
}

/// A protection domain on a context.
#[derive(Debug, Clone, Copy, PartialEq, Eq, Structural)]
pub struct Pd {
    pub ctx: Context,
}

/// A completion queue on a context, with its capacity.
#[derive(Debug, Clone, Copy, PartialEq, Eq, Structural)]
pub struct Cq {
    pub ctx: Context,
    pub capacity: u32,
}

pub open spec fn is_active(p: PortInfo) -> bool {
    p.attr.state == IBV_PORT_ACTIVE
}

/// The number of active ports among the first `n` of `ports`.
pub open spec fn active_in(ports: Seq<PortInfo>, n: int) -> nat
    decreases n,
{
    if n <= 0 {
        0
    } else {
        active_in(ports, n - 1) + if is_active(ports[n - 1]) {
            1nat
        } else {
            0nat
        }
    }
}

/// The number of active ports over the first `d` devices.
pub open spec fn active_before(devs: Seq<DeviceInfo>, d: int) -> nat
    decreases d,
{
    if d <= 0 {
        0
    } else {
        active_before(devs, d - 1) + active_in(devs[d - 1].ports@, devs[d - 1].ports@.len() as int)
    }
}

/// How many active ports come before port `p` of device `d`, going through
/// the devices in order and each device's ports in order.
pub open spec fn rank(devs: Seq<DeviceInfo>, d: int, p: int) -> nat {
    active_before(devs, d) + active_in(devs[d].ports@, p - 1)
}

/// Port `p` of device `d` exists.
pub open spec fn has_port(devs: Seq<DeviceInfo>, d: int, p: int) -> bool {
    0 <= d < devs.len() && 1 <= p <= devs[d].ports@.len()
}

/// The port that port `p` of device `d` names.
pub open spec fn port_at(devs: Seq<DeviceInfo>, d: int, p: int) -> PortInfo {
    devs[d].ports@[p - 1]
}

/// Port numbers fit in a byte, as the interface counts them.
pub open spec fn devices_ok(devs: Seq<DeviceInfo>) -> bool {
    forall|d: int| 0 <= d < devs.len() ==> (#[trigger] devs[d]).ports@.len() <= u8::MAX
}

/// The index of the first device named `name`.
pub open spec fn first_named(devs: Seq<DeviceInfo>, name: Seq<char>, d: int) -> bool {
    &&& 0 <= d < devs.len()
    &&& devs[d].name@ == name
    &&& forall|e: int| 0 <= e < d ==> (#[trigger] devs[e]).name@ != name
}

pub open spec fn valid_mtu_code(code: u32) -> bool {
    IBV_MTU_256 <= code <= IBV_MTU_4096
}

/// The byte count of a transfer-unit code.
pub open spec fn mtu_bytes(code: u32) -> nat {
    if code == IBV_MTU_256 {
        256
    } else if code == IBV_MTU_512 {
        512
    } else if code == IBV_MTU_1024 {
        1024
    } else if code == IBV_MTU_2048 {
        2048
    } else if code == IBV_MTU_4096 {
        4096
    } else {
        0
    }
}

/// Every known transfer-unit code maps to one of the five sizes, and
/// distinct codes to distinct sizes.
pub proof fn lemma_mtu_sizes(code: u32, other: u32)
    requires
        valid_mtu_code(code),
    ensures
        mtu_bytes(code) == 256 || mtu_bytes(code) == 512 || mtu_bytes(code) == 1024
            || mtu_bytes(code) == 2048 || mtu_bytes(code) == 4096,
        valid_mtu_code(other) && other != code ==> mtu_bytes(other) != mtu_bytes(code),
{
}

/// The byte count of a transfer-unit code, or `None` for an unknown code.
pub fn mtu_of_code(code: u32) -> (r: Option<usize>)
    ensures
        r is Some <==> valid_mtu_code(code),
        r matches Some(n) ==> n == mtu_bytes(code),
{
    if code == IBV_MTU_256 {
        Some(256)
    } else if code == IBV_MTU_512 {
        Some(512)
    } else if code == IBV_MTU_1024 {
        Some(1024)
    } else if code == IBV_MTU_2048 {
        Some(2048)
    } else if code == IBV_MTU_4096 {
        Some(4096)
    } else {
        None
    }
}

/// Port numbers start from 1: this is checked before any device is touched.
pub fn check_port_num(port_num: u8) -> (r: Result<(), OpenError>)
    ensures
        r is Err <==> port_num == 0,
        r matches Err(e) ==> e == OpenError::ZeroPort,
{
    if port_num == 0 {
        Err(OpenError::ZeroPort)
    } else {
        Ok(())
    }
}

/// The index of the first device named `name`, if any.
fn find_device(devs: &[DeviceInfo], name: &str) -> (r: Option<usize>)
    ensures
        r matches Some(d) ==> first_named(devs@, name@, d as int),
        r is None ==> forall|e: int| 0 <= e < devs@.len() ==> (#[trigger] devs@[e]).name@ != name@,
{
    let wanted = name.to_owned();
    let mut i: usize = 0;
    while i < devs.len()
        invariant
            i <= devs@.len(),
            wanted@ == name@,
            forall|e: int| 0 <= e < i ==> (#[trigger] devs@[e]).name@ != name@,
        decreases devs@.len() - i,
    {
        if devs[i].name == wanted {
            return Some(i);
        }
        i += 1;
    }
    None
}

/// The `n`-th active port over all devices (counting from 1), as
/// (device index, port number), if there are that many.
fn nth_active_port(devs: &[DeviceInfo], n: u8) -> (r: Option<(usize, u8)>)
    requires
        n >= 1,
        devices_ok(devs@),
    ensures
        r matches Some((d, p)) ==> {
            &&& has_port(devs@, d as int, p as int)
            &&& is_active(port_at(devs@, d as int, p as int))
            &&& rank(devs@, d as int, p as int) == n - 1
        },
        r is None <==> active_before(devs@, devs@.len() as int) < n,
{
    let mut seen: u8 = 0;
    let mut d: usize = 0;
    while d < devs.len()
        invariant
            d <= devs@.len(),
            n >= 1,
            devices_ok(devs@),
            seen == active_before(devs@, d as int),
            seen < n,
        decreases devs@.len() - d,
    {
        let ports = &devs[d].ports;
        let mut j: usize = 0;
        assert(ports@.len() <= u8::MAX);
        while j < ports.len()
            invariant
                d < devs@.len(),
                ports@ == devs@[d as int].ports@,
                ports@.len() <= u8::MAX,
                j <= ports@.len(),
                n >= 1,
                seen == active_before(devs@, d as int) + active_in(ports@, j as int),
                seen < n,
            decreases ports@.len() - j,
        {
            if ports[j].attr.state == IBV_PORT_ACTIVE {
                if seen == n - 1 {
                    proof {
                        assert(active_in(ports@, j + 1) == active_in(ports@, j as int) + 1);
                        lemma_rank_below_total(devs@, d as int, j + 1);
                    }
                    return Some((d, (j + 1) as u8));
                }
                seen += 1;
            }
            j += 1;
        }
        d += 1;
    }
    None
}

impl Context {
    /// Opens a context on a port of the given devices.
    ///
    /// With `dev_name`, the first device of that name is used and `port_num`
    /// is its port number; the port must exist and be active. Without it,
    /// the devices' ports are gone through in order and the `port_num`-th
    /// active one is used. The GID at `gid_index` modulo the size of the
    /// port's table is cached, as are the port's attributes.
    pub fn open(devs: &[DeviceInfo], dev_name: Option<&str>, port_num: u8, gid_index: u8) -> (r:
        Result<Context, OpenError>)
        requires
            devices_ok(devs@),
        ensures
            r matches Ok(c) ==> c.wf(),
            port_num == 0 ==> r == Err::<Context, OpenError>(OpenError::ZeroPort),
            port_num != 0 && dev_name is Some ==> {
                let name = dev_name->0@;
                &&& (forall|e: int| 0 <= e < devs@.len() ==> (#[trigger] devs@[e]).name@ != name)
                    <==> r == Err::<Context, OpenError>(OpenError::DeviceNotFound)
                &&& forall|d: int|
                    first_named(devs@, name, d) ==> {
                        if port_num > devs@[d].ports@.len() {
                            r == Err::<Context, OpenError>(OpenError::InvalidPort(port_num))
                        } else if !is_active(port_at(devs@, d, port_num as int)) {
                            r == Err::<Context, OpenError>(OpenError::PortNotActive(port_num))
                        } else {
                            r == opened(devs@, d, port_num, gid_index)
                        }
                    }
            },
            port_num != 0 && dev_name is None ==> {
                &&& active_before(devs@, devs@.len() as int) < port_num
                    <==> r == Err::<Context, OpenError>(OpenError::NotEnoughActivePorts)
                &&& forall|d: int, p: int|
                    #![trigger rank(devs@, d, p)]
                    has_port(devs@, d, p) && is_active(port_at(devs@, d, p)) && rank(devs@, d, p)
                        == port_num - 1 ==> r == opened(devs@, d, p as u8, gid_index)
            },
    {
        if port_num == 0 {
            return Err(OpenError::ZeroPort);
        }
        match dev_name {
            Some(name) => {
                let found = find_device(devs, name);
                match found {
                    None => Err(OpenError::DeviceNotFound),
                    Some(d) => {
                        let ghost g = d as int;
                        assert forall|e: int| first_named(devs@, name@, e) implies e == g by {
                            if e < g {
                                assert(devs@[e].name@ != name@);
                            } else if e > g {
                                assert(devs@[g].name@ != name@);
                            }
                        }
                        let ports = &devs[d].ports;
                        if port_num as usize > ports.len() {
                            return Err(OpenError::InvalidPort(port_num));
                        }
                        if ports[port_num as usize - 1].attr.state != IBV_PORT_ACTIVE {
                            return Err(OpenError::PortNotActive(port_num));
                        }
                        let r = Self::from_port(d, &ports[port_num as usize - 1], port_num, gid_index);
                        proof {
                            assert(r == opened(devs@, d as int, port_num, gid_index));
                            assert(r is Ok ==> r != Err::<Context, OpenError>(OpenError::DeviceNotFound));
                        }
                        r
                    },
                }
            },
            None => {
                let chosen = nth_active_port(devs, port_num);
                match chosen {
                    None => {
                        proof {
                            assert forall|d: int, p: int|
                                #![trigger rank(devs@, d, p)]
                                has_port(devs@, d, p) && is_active(port_at(devs@, d, p)) && rank(devs@, d, p)
                                    == port_num - 1 implies false by {
                                lemma_rank_below_total(devs@, d, p);
                            }
                        }
                        Err(OpenError::NotEnoughActivePorts)
                    },
                    Some((d, p)) => {
                        proof {
                            lemma_rank_below_total(devs@, d as int, p as int);
                            assert forall|d2: int, p2: int|
                                #![trigger rank(devs@, d2, p2)]
                                has_port(devs@, d2, p2) && is_active(port_at(devs@, d2, p2)) && rank(devs@, d2, p2)
                                    == port_num - 1 implies d2 == d && p2 == p by {
                                lemma_rank_injective(devs@, d as int, p as int, d2, p2);
                            }
                        }
                        let r = Self::from_port(d, &devs[d].ports[p as usize - 1], p, gid_index);
                        r
                    },
                }
            },
        }
    }

    /// The port reports a known transfer unit, as every opened context does.
    pub open spec fn wf(&self) -> bool {
        valid_mtu_code(self.port_attr.active_mtu)
    }

    /// Index of the opened device in the list it was opened from: the
    /// handle that stands for the device.
    pub fn as_raw(&self) -> (r: usize)
        ensures
            r == self.dev_index,
    {
        self.dev_index
    }

    /// The LID of the port.
    pub fn lid(&self) -> (r: u16)
        ensures
            r == self.port_attr.lid,
    {
        self.port_attr.lid
    }

    /// The port number of the opened port.
    pub fn port_num(&self) -> (r: u8)
        ensures
            r == self.port_num,
    {
        self.port_num
    }

    /// The GID cached at open time.
    pub fn gid(&self) -> (r: Gid)
        ensures
            r == self.gid,
    {
        self.gid
    }

    /// The GID index given when opening.
    pub fn gid_index(&self) -> (r: u8)
        ensures
            r == self.gid_index,
    {
        self.gid_index
    }

    /// The port's active path MTU in bytes.
    pub fn mtu(&self) -> (r: usize)
        requires
            self.wf(),
        ensures
            r == mtu_bytes(self.port_attr.active_mtu),
    {
        let code = self.port_attr.active_mtu;
        if code == IBV_MTU_256 {
            256
        } else if code == IBV_MTU_512 {
            512
        } else if code == IBV_MTU_1024 {
            1024
        } else if code == IBV_MTU_2048 {
            2048
        } else {
            4096
        }
    }

    /// The port's active path MTU as its interface code.
    pub fn mtu_raw(&self) -> (r: u32)
        ensures
            r == self.port_attr.active_mtu,
    {
        self.port_attr.active_mtu
    }

    /// A protection domain on this context; it keeps a copy of the context.
    pub fn alloc_pd(&self) -> (r: Pd)
        ensures
            r.ctx == *self,
    {
        Pd { ctx: *self }
    }

    /// A completion queue of the given capacity on this context; it keeps a
    /// copy of the context.
    pub fn create_cq(&self, capacity: u32) -> (r: Cq)
        ensures
            r.ctx == *self,
            r.capacity == capacity,
    {
        Cq { ctx: *self, capacity }
    }

    /// The context on port `port_num` of device `dev`, which `port` describes.
    fn from_port(dev: usize, port: &PortInfo, port_num: u8, gid_index: u8) -> (r: Result<Context, OpenError>)
        ensures
            r == opened_port(dev, *port, port_num, gid_index),
            r matches Ok(c) ==> c.wf(),
    {
        if mtu_of_code(port.attr.active_mtu).is_none() {
            return Err(OpenError::UnknownMtu(port.attr.active_mtu));
        }
        if port.gids.len() == 0 {
            return Err(OpenError::NoGid);
        }
        let slot = gid_index as usize % port.gids.len();
        Ok(Context {
            dev_index: dev,
            port_attr: port.attr,
            port_num,
            gid: port.gids[slot],
            gid_index,
        })
    }
}

/// The outcome of opening port `port_num` of device `dev`, described by `port`.
pub open spec fn opened_port(dev: usize, port: PortInfo, port_num: u8, gid_index: u8) -> Result<Context, OpenError> {
    if !valid_mtu_code(port.attr.active_mtu) {
        Err(OpenError::UnknownMtu(port.attr.active_mtu))
    } else if port.gids@.len() == 0 {
        Err(OpenError::NoGid)
    } else {
        Ok(Context {
            dev_index: dev,
            port_attr: port.attr,
            port_num,
            gid: port.gids@[gid_index as int % port.gids@.len() as int],
            gid_index,
        })
    }
}

pub open spec fn opened(devs: Seq<DeviceInfo>, d: int, port_num: u8, gid_index: u8) -> Result<Context, OpenError> {
    opened_port(d as usize, port_at(devs, d, port_num as int), port_num, gid_index)
}

/// Opening a named device on port 1 with GID index 0, where that port is
/// active, reports a known transfer unit and has a GID, gives a context on
/// that device's port 1 that keeps GID index 0 and whose MTU is one of the
/// five sizes.
pub proof fn lemma_open_named_port_one(devs: Seq<DeviceInfo>, name: Seq<char>, d: int)
    requires
        first_named(devs, name, d),
        has_port(devs, d, 1),
        is_active(port_at(devs, d, 1)),
        valid_mtu_code(port_at(devs, d, 1).attr.active_mtu),
        port_at(devs, d, 1).gids@.len() > 0,
    ensures
        opened(devs, d, 1, 0) is Ok,
        opened(devs, d, 1, 0) matches Ok(c) && {
            &&& c.dev_index == d as usize
            &&& c.port_num == 1
            &&& c.gid_index == 0
            &&& c.port_attr == port_at(devs, d, 1).attr
            &&& c.wf()
            &&& mtu_bytes(c.port_attr.active_mtu) == 256 || mtu_bytes(c.port_attr.active_mtu) == 512
                || mtu_bytes(c.port_attr.active_mtu) == 1024 || mtu_bytes(c.port_attr.active_mtu)
                == 2048 || mtu_bytes(c.port_attr.active_mtu) == 4096
        },
{
    lemma_mtu_sizes(port_at(devs, d, 1).attr.active_mtu, port_at(devs, d, 1).attr.active_mtu);
}

proof fn lemma_active_in_mono(ports: Seq<PortInfo>, a: int, b: int)
    requires
        0 <= a <= b,
    ensures
        active_in(ports, a) <= active_in(ports, b),
        a < b && is_active(ports[a]) ==> active_in(ports, a) < active_in(ports, b),
    decreases b - a,
{
    if a < b {
        lemma_active_in_mono(ports, a, b - 1);
        if a < b - 1 {
            lemma_active_in_mono(ports, a + 1, b);
        }
    }
}

proof fn lemma_active_before_mono(devs: Seq<DeviceInfo>, a: int, b: int)
    requires
        0 <= a <= b <= devs.len(),
    ensures
        active_before(devs, a) <= active_before(devs, b),
    decreases b - a,
{
    if a < b {
        lemma_active_before_mono(devs, a, b - 1);
    }
}

/// An active port's rank is below the total number of active ports.
proof fn lemma_rank_below_total(devs: Seq<DeviceInfo>, d: int, p: int)
    requires
        has_port(devs, d, p),
        is_active(port_at(devs, d, p)),
    ensures
        rank(devs, d, p) < active_before(devs, devs.len() as int),
{
    let ports = devs[d].ports@;
    lemma_active_in_mono(ports, p - 1, ports.len() as int);
    assert(active_in(ports, p) == active_in(ports, p - 1) + 1);
    lemma_active_in_mono(ports, p, ports.len() as int);
    assert(active_before(devs, d + 1) == active_before(devs, d) + active_in(ports, ports.len() as int));
    lemma_active_before_mono(devs, d + 1, devs.len() as int);
}

/// Distinct active ports have distinct ranks.
proof fn lemma_rank_injective(devs: Seq<DeviceInfo>, d: int, p: int, d2: int, p2: int)
    requires
        has_port(devs, d, p),
        is_active(port_at(devs, d, p)),
        has_port(devs, d2, p2),
        is_active(port_at(devs, d2, p2)),
        rank(devs, d, p) == rank(devs, d2, p2),
    ensures
        d == d2 && p == p2,
{
    if d == d2 {
        if p < p2 {
            lemma_active_in_mono(devs[d].ports@, p - 1, p2 - 1);
        } else if p2 < p {
            lemma_active_in_mono(devs[d].ports@, p2 - 1, p - 1);
        }
    } else if d < d2 {
        lemma_rank_below_within(devs, d, p);
        lemma_active_before_mono(devs, d + 1, d2);
    } else {
        lemma_rank_below_within(devs, d2, p2);
        lemma_active_before_mono(devs, d2 + 1, d);
    }
}

/// An active port's rank is below the count of active ports up to and
/// including its device.
proof fn lemma_rank_below_within(devs: Seq<DeviceInfo>, d: int, p: int)
    requires
        has_port(devs, d, p),
        is_active(port_at(devs, d, p)),
    ensures
        rank(devs, d, p) < active_before(devs, d + 1),
{
    let ports = devs[d].ports@;
    assert(active_in(ports, p) == active_in(ports, p - 1) + 1);
    lemma_active_in_mono(ports, p, ports.len() as int);
}

} // verus!
