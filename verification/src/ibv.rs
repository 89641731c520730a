//! Hardware-backed resource objects and the connection state machine.
//!
//! The objects form a dependency tree: a device context is opened first;
//! protection domains, completion channels and completion queues are
//! created under it; memory regions and queue pairs are created under a
//! protection domain, a queue pair also referencing a send and a receive
//! completion queue.  Each parent counts its live children, and an object
//! can only be destroyed once nothing depends on it any more, in the exact
//! reverse of creation order.
//!
//! A queue pair starts in RESET and must be driven through
//! RESET → INIT → RTR → RTS, each step carrying exactly the attribute mask
//! of that transition; a step attempted out of order or with the wrong
//! mask is rejected.  Receive requests may be posted from INIT onward,
//! send requests only at RTS.  Completed requests are reported through the
//! completion queues and drained by polling.

use vstd::prelude::*;

use crate::attr::{IbvDeviceAttr, IbvGid, IbvPortAttr};
use crate::error::{IbvContextError, IbvError};
use crate::wr::{
    sge_total,
    spec_sge_total,
    spec_wc_opcode,
    wc_opcode_for,
    IbvRecvWr,
    IbvSendWr,
    IbvSge,
    IbvWc,
    IBV_WC_RECV,
};

verus! {

/// One port of an enumerated adapter: its state record plus its address
/// and partition-key tables.
#[derive(Debug)]
pub struct IbvPort {
    pub attr: IbvPortAttr,
    pub gids: Vec<IbvGid>,
    pub pkeys: Vec<u16>,
}

/// One enumerated adapter, as the device-listing collaborator reports it:
/// its name, its capability record and its ports.
#[derive(Debug)]
pub struct IbvDevice {
    pub name: String,
    pub dev_attr: IbvDeviceAttr,
    pub ports: Vec<IbvPort>,
}

/// An open handle to one adapter.  All other objects are created under an
/// open context, and the context can only be closed after every one of
/// them has been destroyed.
#[derive(Debug)]
pub struct IbvContext {
    pub dev_name: String,
    pub dev_attr: IbvDeviceAttr,
    pub ports: Vec<IbvPort>,
    pub is_open: bool,
    pub next_handle: u32,
    pub pd_count: usize,
    pub cq_count: usize,
    pub chan_count: usize,
}

/// Holds when some enumerated device carries the given name.
pub open spec fn spec_has_device(devs: Seq<IbvDevice>, name: Seq<char>) -> bool {
    exists|i: int| 0 <= i < devs.len() && devs[i].name@ == name
}

/// Holds when `i` is the first position carrying the given name.
pub open spec fn spec_first_match(devs: Seq<IbvDevice>, name: Seq<char>, i: int) -> bool {
    &&& 0 <= i < devs.len()
    &&& devs[i].name@ == name
    &&& forall|j: int| 0 <= j < i ==> devs[j].name@ != name
}

/// Holds when `ctx` is a freshly opened handle to the device `dev`: no
/// children yet, and the device's records carried over unchanged.
pub open spec fn spec_fresh_ctx(ctx: IbvContext, dev: IbvDevice) -> bool {
    &&& ctx.dev_name@ == dev.name@
    &&& ctx.dev_attr == dev.dev_attr
    &&& ctx.ports@ == dev.ports@
    &&& ctx.is_open
    &&& ctx.next_handle == 1
    &&& ctx.pd_count == 0
    &&& ctx.cq_count == 0
    &&& ctx.chan_count == 0
}

/// Holds when the port number addresses a port of the context; ports are
/// numbered from 1, as the hardware numbers them.
pub open spec fn spec_valid_port(ctx: IbvContext, port_num: u8) -> bool {
    1 <= port_num <= ctx.ports@.len()
}

/// Holds when nothing depends on the context any more, so that closing it
/// is allowed.
pub open spec fn spec_ctx_close_ok(ctx: IbvContext) -> bool {
    &&& ctx.pd_count == 0
    &&& ctx.cq_count == 0
    &&& ctx.chan_count == 0
}

/// Finds the first enumerated device carrying the given name.
fn find_device(devices: &Vec<IbvDevice>, target: &String) -> (r: Option<usize>)
    ensures
        match r {
            Some(i) => spec_first_match(devices@, target@, i as int),
            None => !spec_has_device(devices@, target@),
        },
{
    let mut i: usize = 0;
    while i < devices.len()
        invariant
            i <= devices@.len(),
            forall|j: int| 0 <= j < i ==> devices@[j].name@ != target@,
        decreases devices@.len() - i,
    {
        if devices[i].name == *target {
            return Some(i);
        }
        i = i + 1;
    }
    None
}

impl IbvContext {
    /// Opens a device handle.  `devices` is the enumerated adapter list as
    /// the device-listing collaborator reports it; an empty list yields
    /// `NoDevice`.  Without a name the first device is opened; with one,
    /// the first device of that name — a name absent from a non-empty
    /// list fails the open itself and yields `OpenDeviceError`, exactly
    /// as a hardware open failure would.
    pub fn new(devices: Vec<IbvDevice>, dev_name: Option<&str>) -> (r: Result<
        IbvContext,
        IbvContextError,
    >)
        ensures
            r == Err::<IbvContext, _>(IbvContextError::NoDevice) <==> devices@.len() == 0,
            match dev_name {
                None => devices@.len() > 0 ==> (r matches Ok(ctx) && spec_fresh_ctx(
                    ctx,
                    devices@[0],
                )),
                Some(n) => {
                    &&& (devices@.len() > 0 && !spec_has_device(devices@, n@)) ==> r == Err::<
                        IbvContext,
                        _,
                    >(IbvContextError::OpenDeviceError)
                    &&& (devices@.len() > 0 && spec_has_device(devices@, n@)) ==> (r matches Ok(ctx)
                        && forall|i: int|
                        spec_first_match(devices@, n@, i) ==> spec_fresh_ctx(ctx, devices@[i]))
                },
            },
    {
        let mut devices = devices;
        if devices.len() == 0 {
            return Err(IbvContextError::NoDevice);
        }
        let idx: usize = match dev_name {
            None => 0,
            Some(name) => {
                let target = String::from_str(name);
                match find_device(&devices, &target) {
                    Some(i) => i,
                    None => {
                        return Err(IbvContextError::OpenDeviceError);
                    },
                }
            },
        };
        let dev = devices.remove(idx);
        Ok(IbvContext {
            dev_name: dev.name,
            dev_attr: dev.dev_attr,
            ports: dev.ports,
            is_open: true,
            next_handle: 1,
            pd_count: 0,
            cq_count: 0,
            chan_count: 0,
        })
    }

    /// Queries the capability record of the opened device.
    pub fn query_device(&self) -> (r: Result<IbvDeviceAttr, IbvError>)
        requires
            self.is_open,
        ensures
            r == Ok::<_, IbvError>(self.dev_attr),
    {
        Ok(self.dev_attr)
    }

    /// Queries the state record of one port; a port number outside the
    /// device's range is rejected by the driver.
    pub fn query_port(&self, port_num: u8) -> (r: Result<IbvPortAttr, IbvError>)
        requires
            self.is_open,
        ensures
            match r {
                Ok(a) => spec_valid_port(*self, port_num) && a == self.ports@[port_num - 1].attr,
                Err(e) => e == IbvError::QueryFailed && !spec_valid_port(*self, port_num),
            },
    {
        if port_num == 0 || port_num as usize > self.ports.len() {
            return Err(IbvError::QueryFailed);
        }
        Ok(self.ports[port_num as usize - 1].attr)
    }

    /// Queries one entry of a port's address table.
    pub fn query_gid(&self, port_num: u8, index: i32) -> (r: Result<IbvGid, IbvError>)
        requires
            self.is_open,
        ensures
            match r {
                Ok(g) => spec_valid_port(*self, port_num) && 0 <= index < self.ports@[port_num
                    - 1].gids@.len() && g == self.ports@[port_num - 1].gids@[index as int],
                Err(e) => e == IbvError::QueryFailed && !(spec_valid_port(*self, port_num) && 0
                    <= index < self.ports@[port_num - 1].gids@.len()),
            },
    {
        if port_num == 0 || port_num as usize > self.ports.len() {
            return Err(IbvError::QueryFailed);
        }
        let port = &self.ports[port_num as usize - 1];
        if index < 0 || index as usize >= port.gids.len() {
            return Err(IbvError::QueryFailed);
        }
        Ok(port.gids[index as usize])
    }

    /// Queries one entry of a port's partition-key table.
    pub fn query_pkey(&self, port_num: u8, index: i32) -> (r: Result<u16, IbvError>)
        requires
            self.is_open,
        ensures
            match r {
                Ok(k) => spec_valid_port(*self, port_num) && 0 <= index < self.ports@[port_num
                    - 1].pkeys@.len() && k == self.ports@[port_num - 1].pkeys@[index as int],
                Err(e) => e == IbvError::QueryFailed && !(spec_valid_port(*self, port_num) && 0
                    <= index < self.ports@[port_num - 1].pkeys@.len()),
            },
    {
        if port_num == 0 || port_num as usize > self.ports.len() {
            return Err(IbvError::QueryFailed);
        }
        let port = &self.ports[port_num as usize - 1];
        if index < 0 || index as usize >= port.pkeys.len() {
            return Err(IbvError::QueryFailed);
        }
        Ok(port.pkeys[index as usize])
    }

    /// Queries the local identifier of one port, for the out-of-band
    /// address exchange.
    pub fn get_lid(&self, port_num: u8) -> (r: Result<u16, IbvError>)
        requires
            self.is_open,
        ensures
            match r {
                Ok(lid) => spec_valid_port(*self, port_num) && lid == self.ports@[port_num
                    - 1].attr.lid,
                Err(e) => e == IbvError::QueryFailed && !spec_valid_port(*self, port_num),
            },
    {
        if port_num == 0 || port_num as usize > self.ports.len() {
            return Err(IbvError::QueryFailed);
        }
        Ok(self.ports[port_num as usize - 1].attr.lid)
    }

    /// Closes the device handle.  Rejected while any protection domain,
    /// completion queue or completion channel created under it is still
    /// live: there is no safe continuation once teardown is refused, so
    /// the caller must destroy the children first.
    pub fn close(&mut self) -> (r: Result<(), IbvError>)
        requires
            old(self).is_open,
        ensures
            match r {
                Ok(()) => spec_ctx_close_ok(*old(self)) && *final(self) == (IbvContext {
                    is_open: false,
                    ..*old(self)
                }),
                Err(e) => e == IbvError::DestroyFailed && !spec_ctx_close_ok(*old(self))
                    && *final(self) == *old(self),
            },
    {
        if self.pd_count != 0 || self.cq_count != 0 || self.chan_count != 0 {
            return Err(IbvError::DestroyFailed);
        }
        self.is_open = false;
        Ok(())
    }
}

/// An isolation scope.  Memory regions and queue pairs are allocated
/// within exactly one domain; the domain also hands out their keys and
/// queue-pair numbers, as the driver would.
#[derive(Debug)]
pub struct IbvPd {
    pub handle: u32,
    pub mr_count: usize,
    pub qp_count: usize,
    pub next_key: u32,
    pub next_qpn: u32,
    pub live: bool,
}

/// Holds when nothing depends on the domain any more, so that
/// deallocating it is allowed.
pub open spec fn spec_pd_dealloc_ok(pd: IbvPd) -> bool {
    &&& pd.mr_count == 0
    &&& pd.qp_count == 0
}

impl IbvPd {
    /// Allocates a protection domain under an open context.
    pub fn new(context: &mut IbvContext) -> (r: Result<IbvPd, IbvError>)
        requires
            old(context).is_open,
        ensures
            match r {
                Ok(pd) => {
                    &&& old(context).pd_count < usize::MAX
                    &&& old(context).next_handle < u32::MAX
                    &&& pd == (IbvPd {
                        handle: old(context).next_handle,
                        mr_count: 0,
                        qp_count: 0,
                        next_key: 1,
                        next_qpn: 0,
                        live: true,
                    })
                    &&& *final(context) == (IbvContext {
                        pd_count: (old(context).pd_count + 1) as usize,
                        next_handle: (old(context).next_handle + 1) as u32,
                        ..*old(context)
                    })
                },
                Err(e) => {
                    &&& e == IbvError::AllocFailed
                    &&& (old(context).pd_count == usize::MAX || old(context).next_handle
                        == u32::MAX)
                    &&& *final(context) == *old(context)
                },
            },
    {
        if context.pd_count == usize::MAX || context.next_handle == u32::MAX {
            return Err(IbvError::AllocFailed);
        }
        let handle = context.next_handle;
        context.next_handle = context.next_handle + 1;
        context.pd_count = context.pd_count + 1;
        Ok(IbvPd { handle, mr_count: 0, qp_count: 0, next_key: 1, next_qpn: 0, live: true })
    }

    /// Deallocates the domain.  Rejected while a memory region or queue
    /// pair allocated from it is still live — the caller must destroy the
    /// children first rather than corrupt the dependency order.
    pub fn dealloc(&mut self, context: &mut IbvContext) -> (r: Result<(), IbvError>)
        requires
            old(self).live,
            old(context).is_open,
            old(context).pd_count > 0,
        ensures
            match r {
                Ok(()) => {
                    &&& spec_pd_dealloc_ok(*old(self))
                    &&& *final(self) == (IbvPd { live: false, ..*old(self) })
                    &&& *final(context) == (IbvContext {
                        pd_count: (old(context).pd_count - 1) as usize,
                        ..*old(context)
                    })
                },
                Err(e) => {
                    &&& e == IbvError::DestroyFailed
                    &&& !spec_pd_dealloc_ok(*old(self))
                    &&& *final(self) == *old(self)
                    &&& *final(context) == *old(context)
                },
            },
    {
        if self.mr_count != 0 || self.qp_count != 0 {
            return Err(IbvError::DestroyFailed);
        }
        self.live = false;
        context.pd_count = context.pd_count - 1;
        Ok(())
    }
}

/// An event-notification handle for blocking-style completion delivery.
#[derive(Debug)]
pub struct IbvCompChannel {
    pub handle: u32,
    pub cq_count: usize,
    pub live: bool,
}

/// Holds when no completion queue references the channel any more, so
/// that destroying it is allowed.
pub open spec fn spec_chan_destroy_ok(chan: IbvCompChannel) -> bool {
    chan.cq_count == 0
}

impl IbvCompChannel {
    /// Creates a completion channel under an open context.
    pub fn new(context: &mut IbvContext) -> (r: Result<IbvCompChannel, IbvError>)
        requires
            old(context).is_open,
        ensures
            match r {
                Ok(chan) => {
                    &&& old(context).chan_count < usize::MAX
                    &&& old(context).next_handle < u32::MAX
                    &&& chan == (IbvCompChannel {
                        handle: old(context).next_handle,
                        cq_count: 0,
                        live: true,
                    })
                    &&& *final(context) == (IbvContext {
                        chan_count: (old(context).chan_count + 1) as usize,
                        next_handle: (old(context).next_handle + 1) as u32,
                        ..*old(context)
                    })
                },
                Err(e) => {
                    &&& e == IbvError::AllocFailed
                    &&& (old(context).chan_count == usize::MAX || old(context).next_handle
                        == u32::MAX)
                    &&& *final(context) == *old(context)
                },
            },
    {
        if context.chan_count == usize::MAX || context.next_handle == u32::MAX {
            return Err(IbvError::AllocFailed);
        }
        let handle = context.next_handle;
        context.next_handle = context.next_handle + 1;
        context.chan_count = context.chan_count + 1;
        Ok(IbvCompChannel { handle, cq_count: 0, live: true })
    }

    /// Destroys the channel.  Rejected while a completion queue still
    /// references it.
    pub fn destroy(&mut self, context: &mut IbvContext) -> (r: Result<(), IbvError>)
        requires
            old(self).live,
            old(context).is_open,
            old(context).chan_count > 0,
        ensures
            match r {
                Ok(()) => {
                    &&& spec_chan_destroy_ok(*old(self))
                    &&& *final(self) == (IbvCompChannel { live: false, ..*old(self) })
                    &&& *final(context) == (IbvContext {
                        chan_count: (old(context).chan_count - 1) as usize,
                        ..*old(context)
                    })
                },
                Err(e) => {
                    &&& e == IbvError::DestroyFailed
                    &&& !spec_chan_destroy_ok(*old(self))
                    &&& *final(self) == *old(self)
                    &&& *final(context) == *old(context)
                },
            },
    {
        if self.cq_count != 0 {
            return Err(IbvError::DestroyFailed);
        }
        self.live = false;
        context.chan_count = context.chan_count - 1;
        Ok(())
    }
}

/// A ring of completion records with a fixed capacity, drained by
/// polling.  Completions enter the ring as posted work requests finish
/// (see [`IbvQp::complete_send`] and [`IbvQp::complete_recv`]) and leave
/// it in order, oldest first.
#[derive(Debug)]
pub struct IbvCq {
    pub handle: u32,
    pub capacity: i32,
    pub pending: Vec<IbvWc>,
    pub qp_count: usize,
    pub has_channel: bool,
    pub comp_vector: i32,
    pub live: bool,
}

/// Holds when no queue pair references the completion queue any more, so
/// that destroying it is allowed.
pub open spec fn spec_cq_destroy_ok(cq: IbvCq) -> bool {
    cq.qp_count == 0
}

/// Holds when `cq` is a freshly created, empty queue with the given
/// handle, capacity and channel linkage.
pub open spec fn spec_fresh_cq(
    cq: IbvCq,
    handle: u32,
    cqe: i32,
    has_channel: bool,
    comp_vector: i32,
) -> bool {
    &&& cq.handle == handle
    &&& cq.capacity == cqe
    &&& cq.pending@ == Seq::<IbvWc>::empty()
    &&& cq.qp_count == 0
    &&& cq.has_channel == has_channel
    &&& cq.comp_vector == comp_vector
    &&& cq.live
}

/// Holds when the two queues agree on everything except their pending
/// entries.
pub open spec fn spec_cq_same_but_pending(a: IbvCq, b: IbvCq) -> bool {
    &&& b.handle == a.handle
    &&& b.capacity == a.capacity
    &&& b.qp_count == a.qp_count
    &&& b.has_channel == a.has_channel
    &&& b.comp_vector == a.comp_vector
    &&& b.live == a.live
}

/// The number of entries one poll returns: as many as are pending, but
/// never more than the caller's buffer holds.
pub open spec fn spec_poll_n(cq: IbvCq, buf: Seq<IbvWc>) -> int {
    if cq.pending@.len() <= buf.len() {
        cq.pending@.len() as int
    } else {
        buf.len() as int
    }
}

impl IbvCq {
    /// Creates a completion queue of the requested capacity under an open
    /// context; a capacity that is not positive is rejected by the
    /// driver.
    pub fn new(context: &mut IbvContext, cqe: i32, comp_vector: i32) -> (r: Result<
        IbvCq,
        IbvError,
    >)
        requires
            old(context).is_open,
        ensures
            match r {
                Ok(cq) => {
                    &&& cqe > 0
                    &&& old(context).cq_count < usize::MAX
                    &&& old(context).next_handle < u32::MAX
                    &&& spec_fresh_cq(cq, old(context).next_handle, cqe, false, comp_vector)
                    &&& *final(context) == (IbvContext {
                        cq_count: (old(context).cq_count + 1) as usize,
                        next_handle: (old(context).next_handle + 1) as u32,
                        ..*old(context)
                    })
                },
                Err(e) => {
                    &&& e == IbvError::AllocFailed
                    &&& (cqe <= 0 || old(context).cq_count == usize::MAX || old(
                        context,
                    ).next_handle == u32::MAX)
                    &&& *final(context) == *old(context)
                },
            },
    {
        if cqe <= 0 || context.cq_count == usize::MAX || context.next_handle == u32::MAX {
            return Err(IbvError::AllocFailed);
        }
        let handle = context.next_handle;
        context.next_handle = context.next_handle + 1;
        context.cq_count = context.cq_count + 1;
        Ok(
            IbvCq {
                handle,
                capacity: cqe,
                pending: Vec::new(),
                qp_count: 0,
                has_channel: false,
                comp_vector,
                live: true,
            },
        )
    }

    /// Creates a completion queue whose events are signalled through the
    /// given completion channel; the channel then cannot be destroyed
    /// before this queue.
    pub fn new_with_channel(
        context: &mut IbvContext,
        cqe: i32,
        channel: &mut IbvCompChannel,
        comp_vector: i32,
    ) -> (r: Result<IbvCq, IbvError>)
        requires
            old(context).is_open,
            old(channel).live,
        ensures
            match r {
                Ok(cq) => {
                    &&& cqe > 0
                    &&& old(context).cq_count < usize::MAX
                    &&& old(context).next_handle < u32::MAX
                    &&& old(channel).cq_count < usize::MAX
                    &&& spec_fresh_cq(cq, old(context).next_handle, cqe, true, comp_vector)
                    &&& *final(context) == (IbvContext {
                        cq_count: (old(context).cq_count + 1) as usize,
                        next_handle: (old(context).next_handle + 1) as u32,
                        ..*old(context)
                    })
                    &&& *final(channel) == (IbvCompChannel {
                        cq_count: (old(channel).cq_count + 1) as usize,
                        ..*old(channel)
                    })
                },
                Err(e) => {
                    &&& e == IbvError::AllocFailed
                    &&& (cqe <= 0 || old(context).cq_count == usize::MAX || old(
                        context,
                    ).next_handle == u32::MAX || old(channel).cq_count == usize::MAX)
                    &&& *final(context) == *old(context)
                    &&& *final(channel) == *old(channel)
                },
            },
    {
        if cqe <= 0 || context.cq_count == usize::MAX || context.next_handle == u32::MAX
            || channel.cq_count == usize::MAX {
            return Err(IbvError::AllocFailed);
        }
        let handle = context.next_handle;
        context.next_handle = context.next_handle + 1;
        context.cq_count = context.cq_count + 1;
        channel.cq_count = channel.cq_count + 1;
        Ok(
            IbvCq {
                handle,
                capacity: cqe,
                pending: Vec::new(),
                qp_count: 0,
                has_channel: true,
                comp_vector,
                live: true,
            },
        )
    }

    /// Drains ready completions into the caller's buffer, oldest first.
    /// Non-blocking: returns immediately with however many are ready, up
    /// to the buffer's length; entries past the returned count keep their
    /// previous contents.
    pub fn poll(&mut self, cqe_arr: &mut Vec<IbvWc>) -> (r: Result<usize, IbvError>)
        requires
            old(self).live,
        ensures
            match r {
                Ok(n) => {
                    &&& n == spec_poll_n(*old(self), old(cqe_arr)@)
                    &&& n <= old(cqe_arr)@.len()
                    &&& final(cqe_arr)@.len() == old(cqe_arr)@.len()
                    &&& (forall|i: int|
                        0 <= i < n ==> final(cqe_arr)@[i] == old(self).pending@[i])
                    &&& (forall|i: int|
                        n <= i < old(cqe_arr)@.len() ==> final(cqe_arr)@[i] == old(cqe_arr)@[i])
                    &&& final(self).pending@ == old(self).pending@.skip(n as int)
                    &&& spec_cq_same_but_pending(*old(self), *final(self))
                },
                Err(_) => false,
            },
    {
        let n: usize = if self.pending.len() <= cqe_arr.len() {
            self.pending.len()
        } else {
            cqe_arr.len()
        };
        let mut k: usize = 0;
        while k < n
            invariant
                k <= n,
                n <= old(self).pending@.len(),
                n <= old(cqe_arr)@.len(),
                n == spec_poll_n(*old(self), old(cqe_arr)@),
                *self == *old(self),
                cqe_arr@.len() == old(cqe_arr)@.len(),
                forall|i: int| 0 <= i < k ==> cqe_arr@[i] == old(self).pending@[i],
                forall|i: int| k <= i < old(cqe_arr)@.len() ==> cqe_arr@[i] == old(cqe_arr)@[i],
            decreases n - k,
        {
            let wc = self.pending[k];
            cqe_arr[k] = wc;
            k = k + 1;
        }
        let mut j: usize = 0;
        while j < n
            invariant
                j <= n,
                n <= old(self).pending@.len(),
                n <= old(cqe_arr)@.len(),
                n == spec_poll_n(*old(self), old(cqe_arr)@),
                self.pending@ == old(self).pending@.skip(j as int),
                spec_cq_same_but_pending(*old(self), *self),
                cqe_arr@.len() == old(cqe_arr)@.len(),
                forall|i: int| 0 <= i < n ==> cqe_arr@[i] == old(self).pending@[i],
                forall|i: int| n <= i < old(cqe_arr)@.len() ==> cqe_arr@[i] == old(cqe_arr)@[i],
            decreases n - j,
        {
            proof {
                assert(old(self).pending@.skip(j as int).remove(0) =~= old(
                    self,
                ).pending@.skip(j as int + 1));
            }
            self.pending.remove(0);
            j = j + 1;
        }
        Ok(n)
    }

    /// Records one completion produced by the device.  In a running
    /// system the driver writes these entries as work requests finish;
    /// the ring must have room for the entry.
    pub fn deliver(&mut self, wc: IbvWc)
        requires
            old(self).live,
            old(self).pending@.len() < old(self).capacity,
        ensures
            final(self).pending@ == old(self).pending@.push(wc),
            spec_cq_same_but_pending(*old(self), *final(self)),
    {
        self.pending.push(wc);
    }

    /// Changes the queue's capacity without destroying it; entries
    /// already enqueued are preserved, so a new capacity below their
    /// number is rejected.
    pub fn resize(&mut self, cqe: i32) -> (r: Result<(), IbvError>)
        requires
            old(self).live,
        ensures
            match r {
                Ok(()) => {
                    &&& cqe > 0
                    &&& old(self).pending@.len() <= cqe
                    &&& *final(self) == (IbvCq { capacity: cqe, ..*old(self) })
                },
                Err(e) => {
                    &&& e == IbvError::AllocFailed
                    &&& !(cqe > 0 && old(self).pending@.len() <= cqe)
                    &&& *final(self) == *old(self)
                },
            },
    {
        if cqe <= 0 || self.pending.len() > cqe as usize {
            return Err(IbvError::AllocFailed);
        }
        self.capacity = cqe;
        Ok(())
    }

    /// Destroys a channel-less completion queue.  Rejected while a queue
    /// pair still references it.
    pub fn destroy(&mut self, context: &mut IbvContext) -> (r: Result<(), IbvError>)
        requires
            old(self).live,
            !old(self).has_channel,
            old(context).is_open,
            old(context).cq_count > 0,
        ensures
            match r {
                Ok(()) => {
                    &&& spec_cq_destroy_ok(*old(self))
                    &&& *final(self) == (IbvCq { live: false, ..*old(self) })
                    &&& *final(context) == (IbvContext {
                        cq_count: (old(context).cq_count - 1) as usize,
                        ..*old(context)
                    })
                },
                Err(e) => {
                    &&& e == IbvError::DestroyFailed
                    &&& !spec_cq_destroy_ok(*old(self))
                    &&& *final(self) == *old(self)
                    &&& *final(context) == *old(context)
                },
            },
    {
        if self.qp_count != 0 {
            return Err(IbvError::DestroyFailed);
        }
        self.live = false;
        context.cq_count = context.cq_count - 1;
        Ok(())
    }

    /// Destroys a completion queue created over a channel, releasing its
    /// reference on the channel.  Rejected while a queue pair still
    /// references the queue.
    pub fn destroy_with_channel(
        &mut self,
        context: &mut IbvContext,
        channel: &mut IbvCompChannel,
    ) -> (r: Result<(), IbvError>)
        requires
            old(self).live,
            old(self).has_channel,
            old(context).is_open,
            old(context).cq_count > 0,
            old(channel).live,
            old(channel).cq_count > 0,
        ensures
            match r {
                Ok(()) => {
                    &&& spec_cq_destroy_ok(*old(self))
                    &&& *final(self) == (IbvCq { live: false, ..*old(self) })
                    &&& *final(context) == (IbvContext {
                        cq_count: (old(context).cq_count - 1) as usize,
                        ..*old(context)
                    })
                    &&& *final(channel) == (IbvCompChannel {
                        cq_count: (old(channel).cq_count - 1) as usize,
                        ..*old(channel)
                    })
                },
                Err(e) => {
                    &&& e == IbvError::DestroyFailed
                    &&& !spec_cq_destroy_ok(*old(self))
                    &&& *final(self) == *old(self)
                    &&& *final(context) == *old(context)
                    &&& *final(channel) == *old(channel)
                },
            },
    {
        if self.qp_count != 0 {
            return Err(IbvError::DestroyFailed);
        }
        self.live = false;
        context.cq_count = context.cq_count - 1;
        channel.cq_count = channel.cq_count - 1;
        Ok(())
    }
}

/// The access-flag set composed when registering a memory region.
pub const IBV_ACCESS_LOCAL_WRITE: u32 = 1;
pub const IBV_ACCESS_REMOTE_WRITE: u32 = 2;
pub const IBV_ACCESS_REMOTE_READ: u32 = 4;
pub const IBV_ACCESS_REMOTE_ATOMIC: u32 = 8;
pub const IBV_ACCESS_MW_BIND: u32 = 16;
pub const IBV_ACCESS_ZERO_BASED: u32 = 32;
pub const IBV_ACCESS_ON_DEMAND: u32 = 64;
pub const IBV_ACCESS_HUGETLB: u32 = 128;
pub const IBV_ACCESS_RELAXED_ORDERING: u32 = 1048576;

/// A byte range registered for hardware access, with the local and
/// remote keys that work requests use to reference it.  The keys are
/// valid exactly as long as the registration is live.
#[derive(Debug)]
pub struct IbvMr {
    pub handle: u32,
    pub addr: u64,
    pub length: u64,
    pub lkey: u32,
    pub rkey: u32,
    pub access: u32,
    pub live: bool,
}

/// Holds when a scatter-gather entry over `offset..offset + length` may
/// be built from the region: the registration is live and the range lies
/// inside it (construction-time validation of the local key).
pub open spec fn spec_make_sge_ok(mr: IbvMr, offset: u64, length: u32) -> bool {
    &&& mr.live
    &&& offset + length <= mr.length
    &&& mr.addr + offset <= u64::MAX
}

/// The region as deregistration leaves it: present as a value, but with
/// its keys no longer valid for building work requests.
pub open spec fn spec_mr_after_dereg(mr: IbvMr) -> IbvMr {
    IbvMr { live: false, ..mr }
}

impl IbvMr {
    /// Registers the given byte range within a domain.  A zero-length
    /// range has no valid hardware range and is rejected.  The domain
    /// hands out the region's keys: the local key, then the remote key.
    pub fn new(pd: &mut IbvPd, region: &[u8], access: u32) -> (r: Result<IbvMr, IbvError>)
        requires
            old(pd).live,
        ensures
            match r {
                Ok(mr) => {
                    &&& region@.len() > 0
                    &&& old(pd).next_key < u32::MAX - 1
                    &&& old(pd).mr_count < usize::MAX
                    &&& mr == (IbvMr {
                        handle: old(pd).next_key,
                        addr: 0,
                        length: region@.len() as u64,
                        lkey: old(pd).next_key,
                        rkey: (old(pd).next_key + 1) as u32,
                        access,
                        live: true,
                    })
                    &&& *final(pd) == (IbvPd {
                        mr_count: (old(pd).mr_count + 1) as usize,
                        next_key: (old(pd).next_key + 2) as u32,
                        ..*old(pd)
                    })
                },
                Err(e) => {
                    &&& e == IbvError::AllocFailed
                    &&& (region@.len() == 0 || old(pd).next_key >= u32::MAX - 1 || old(
                        pd,
                    ).mr_count == usize::MAX)
                    &&& *final(pd) == *old(pd)
                },
            },
    {
        if region.len() == 0 || pd.next_key >= u32::MAX - 1 || pd.mr_count == usize::MAX {
            return Err(IbvError::AllocFailed);
        }
        let lkey = pd.next_key;
        pd.next_key = pd.next_key + 2;
        pd.mr_count = pd.mr_count + 1;
        Ok(
            IbvMr {
                handle: lkey,
                addr: 0,
                length: region.len() as u64,
                lkey,
                rkey: lkey + 1,
                access,
                live: true,
            },
        )
    }

    /// Registers an arbitrary address/length pair without a higher-level
    /// buffer, for pre-allocated or externally managed memory.  A
    /// zero-length range is rejected just as for [`IbvMr::new`].
    pub fn new_raw(pd: &mut IbvPd, addr: u64, length: usize, access: i32) -> (r: Result<
        IbvMr,
        IbvError,
    >)
        requires
            old(pd).live,
        ensures
            match r {
                Ok(mr) => {
                    &&& length > 0
                    &&& old(pd).next_key < u32::MAX - 1
                    &&& old(pd).mr_count < usize::MAX
                    &&& mr == (IbvMr {
                        handle: old(pd).next_key,
                        addr,
                        length: length as u64,
                        lkey: old(pd).next_key,
                        rkey: (old(pd).next_key + 1) as u32,
                        access: access as u32,
                        live: true,
                    })
                    &&& *final(pd) == (IbvPd {
                        mr_count: (old(pd).mr_count + 1) as usize,
                        next_key: (old(pd).next_key + 2) as u32,
                        ..*old(pd)
                    })
                },
                Err(e) => {
                    &&& e == IbvError::AllocFailed
                    &&& (length == 0 || old(pd).next_key >= u32::MAX - 1 || old(pd).mr_count
                        == usize::MAX)
                    &&& *final(pd) == *old(pd)
                },
            },
    {
        if length == 0 || pd.next_key >= u32::MAX - 1 || pd.mr_count == usize::MAX {
            return Err(IbvError::AllocFailed);
        }
        let lkey = pd.next_key;
        pd.next_key = pd.next_key + 2;
        pd.mr_count = pd.mr_count + 1;
        Ok(
            IbvMr {
                handle: lkey,
                addr,
                length: length as u64,
                lkey,
                rkey: lkey + 1,
                #[verifier::truncate]
                access: access as u32,
                live: true,
            },
        )
    }

    /// The remote key, handed to the peer for RDMA operations on the
    /// region.
    #[inline(always)]
    pub fn rkey(&self) -> (r: u32)
        ensures
            r == self.rkey,
    {
        self.rkey
    }

    /// The local key, referenced by this side's scatter-gather entries.
    #[inline(always)]
    pub fn lkey(&self) -> (r: u32)
        ensures
            r == self.lkey,
    {
        self.lkey
    }

    /// The length of the registered range in bytes.
    #[inline(always)]
    pub fn length(&self) -> (r: u64)
        ensures
            r == self.length,
    {
        self.length
    }

    /// The driver's identifier for the registration.
    #[inline(always)]
    pub fn handle(&self) -> (r: u32)
        ensures
            r == self.handle,
    {
        self.handle
    }

    /// Builds a scatter-gather entry over `offset..offset + length` of
    /// the region.  Rejected once the region has been deregistered — its
    /// keys are no longer valid — and for any range that leaves the
    /// registered bounds.
    pub fn make_sge(&self, offset: u64, length: u32) -> (r: Result<IbvSge, IbvError>)
        ensures
            match r {
                Ok(s) => spec_make_sge_ok(*self, offset, length) && s == (IbvSge {
                    addr: (self.addr + offset) as u64,
                    length,
                    lkey: self.lkey,
                }),
                Err(e) => e == IbvError::PostFailed && !spec_make_sge_ok(*self, offset, length),
            },
    {
        if !self.live {
            return Err(IbvError::PostFailed);
        }
        if offset > self.length {
            return Err(IbvError::PostFailed);
        }
        if (length as u64) > self.length - offset {
            return Err(IbvError::PostFailed);
        }
        if offset > u64::MAX - self.addr {
            return Err(IbvError::PostFailed);
        }
        Ok(IbvSge { addr: self.addr + offset, length, lkey: self.lkey })
    }

    /// Deregisters the region, releasing it from its domain and
    /// invalidating its keys for any subsequent work-request
    /// construction.
    pub fn dereg(&mut self, pd: &mut IbvPd) -> (r: Result<(), IbvError>)
        requires
            old(self).live,
            old(pd).live,
            old(pd).mr_count > 0,
        ensures
            r == Ok::<(), IbvError>(()),
            *final(self) == spec_mr_after_dereg(*old(self)),
            *final(pd) == (IbvPd { mr_count: (old(pd).mr_count - 1) as usize, ..*old(pd) }),
    {
        self.live = false;
        pd.mr_count = pd.mr_count - 1;
        Ok(())
    }
}

/// Queue-pair state codes, as a state query reports them.
pub const IBV_QPS_RESET: u32 = 0;
pub const IBV_QPS_INIT: u32 = 1;
pub const IBV_QPS_RTR: u32 = 2;
pub const IBV_QPS_RTS: u32 = 3;
pub const IBV_QPS_SQD: u32 = 4;
pub const IBV_QPS_SQE: u32 = 5;
pub const IBV_QPS_ERR: u32 = 6;

/// Queue-pair transport types.
pub const IBV_QPT_RC: u32 = 2;
pub const IBV_QPT_UC: u32 = 3;
pub const IBV_QPT_UD: u32 = 4;

/// Path MTU codes.
pub const IBV_MTU_256: u32 = 1;
pub const IBV_MTU_512: u32 = 2;
pub const IBV_MTU_1024: u32 = 3;
pub const IBV_MTU_2048: u32 = 4;
pub const IBV_MTU_4096: u32 = 5;

/// Attribute-mask bits of a state-transition call, one bit per attribute
/// field supplied.
pub const IBV_QP_STATE: u32 = 1;
pub const IBV_QP_CUR_STATE: u32 = 2;
pub const IBV_QP_EN_SQD_ASYNC_NOTIFY: u32 = 4;
pub const IBV_QP_ACCESS_FLAGS: u32 = 8;
pub const IBV_QP_PKEY_INDEX: u32 = 16;
pub const IBV_QP_PORT: u32 = 32;
pub const IBV_QP_QKEY: u32 = 64;
pub const IBV_QP_AV: u32 = 128;
pub const IBV_QP_PATH_MTU: u32 = 256;
pub const IBV_QP_TIMEOUT: u32 = 512;
pub const IBV_QP_RETRY_CNT: u32 = 1024;
pub const IBV_QP_RNR_RETRY: u32 = 2048;
pub const IBV_QP_RQ_PSN: u32 = 4096;
pub const IBV_QP_MAX_QP_RD_ATOMIC: u32 = 8192;
pub const IBV_QP_ALT_PATH: u32 = 16384;
pub const IBV_QP_MIN_RNR_TIMER: u32 = 32768;
pub const IBV_QP_SQ_PSN: u32 = 65536;
pub const IBV_QP_MAX_DEST_RD_ATOMIC: u32 = 131072;
pub const IBV_QP_PATH_MIG_STATE: u32 = 262144;
pub const IBV_QP_CAP: u32 = 524288;
pub const IBV_QP_DEST_QPN: u32 = 1048576;

/// The exact attribute mask each connection transition must carry; any
/// other mask for that target state is rejected.
pub const RESET2INIT_MASK: u32 = IBV_QP_STATE | IBV_QP_PKEY_INDEX | IBV_QP_PORT
    | IBV_QP_ACCESS_FLAGS;

pub const INIT2RTR_MASK: u32 = IBV_QP_STATE | IBV_QP_AV | IBV_QP_PATH_MTU | IBV_QP_DEST_QPN
    | IBV_QP_RQ_PSN | IBV_QP_MAX_DEST_RD_ATOMIC | IBV_QP_MIN_RNR_TIMER;

pub const RTR2RTS_MASK: u32 = IBV_QP_STATE | IBV_QP_TIMEOUT | IBV_QP_RETRY_CNT | IBV_QP_RNR_RETRY
    | IBV_QP_SQ_PSN | IBV_QP_MAX_QP_RD_ATOMIC;

/// The fixed transition parameters: policy choices of this layer, kept as
/// named constants rather than scattered literals.
pub const DEFAULT_PKEY_INDEX: u16 = 0;
pub const INIT_ACCESS_FLAGS: u32 = IBV_ACCESS_LOCAL_WRITE | IBV_ACCESS_REMOTE_READ
    | IBV_ACCESS_REMOTE_WRITE;

pub const DEFAULT_PATH_MTU: u32 = IBV_MTU_1024;
pub const DEFAULT_MAX_DEST_RD_ATOMIC: u8 = 1;
pub const DEFAULT_MIN_RNR_TIMER: u8 = 12;
pub const DEFAULT_TIMEOUT: u8 = 14;
pub const DEFAULT_RETRY_CNT: u8 = 7;
pub const DEFAULT_RNR_RETRY: u8 = 7;
pub const DEFAULT_MAX_RD_ATOMIC: u8 = 1;

/// The connection states of a queue pair.  A pair is created in `Reset`
/// and must pass through `Init` and `Rtr` to reach `Rts`; the only other
/// moves are the error paths back to `Reset` or into `Error`.
#[derive(Clone, Copy, Debug, PartialEq, Eq, Structural)]
pub enum QpState {
    Reset,
    Init,
    Rtr,
    Rts,
    Error,
}

/// The capacity limits a queue pair is created with.
#[derive(Clone, Copy, Debug, PartialEq, Eq, Structural)]
pub struct IbvQpCap {
    pub max_send_wr: u32,
    pub max_recv_wr: u32,
    pub max_send_sge: u32,
    pub max_recv_sge: u32,
    pub max_inline_data: u32,
}

/// The address vector of the remote port, supplied on the INIT → RTR
/// transition from the out-of-band exchange.
#[derive(Clone, Copy, Debug, PartialEq, Eq, Structural)]
pub struct IbvAhAttr {
    pub dlid: u16,
    pub sl: u8,
    pub src_path_bits: u8,
    pub is_global: u8,
    pub port_num: u8,
}

/// One work request accepted into a queue, waiting for its completion:
/// what the completion record will report for it.
#[derive(Clone, Copy, Debug, PartialEq, Eq, Structural)]
pub struct PostedWr {
    pub wr_id: u64,
    pub opcode: u32,
    pub byte_len: u32,
}

/// The attribute record carried by a state-transition call; only the
/// fields named by the call's mask are read.
#[derive(Clone, Copy, Debug, PartialEq, Eq, Structural)]
pub struct IbvQpAttr {
    pub qp_state: u32,
    pub cur_qp_state: u32,
    pub path_mtu: u32,
    pub rq_psn: u32,
    pub sq_psn: u32,
    pub dest_qp_num: u32,
    pub qp_access_flags: u32,
    pub pkey_index: u16,
    pub port_num: u8,
    pub ah_attr: IbvAhAttr,
    pub max_dest_rd_atomic: u8,
    pub min_rnr_timer: u8,
    pub timeout: u8,
    pub retry_cnt: u8,
    pub rnr_retry: u8,
    pub max_rd_atomic: u8,
    pub cap: IbvQpCap,
}

impl IbvQpAttr {
    /// The all-zero record, the starting point of every transition call.
    pub open spec fn spec_zeroed() -> IbvQpAttr {
        IbvQpAttr {
            qp_state: 0,
            cur_qp_state: 0,
            path_mtu: 0,
            rq_psn: 0,
            sq_psn: 0,
            dest_qp_num: 0,
            qp_access_flags: 0,
            pkey_index: 0,
            port_num: 0,
            ah_attr: IbvAhAttr { dlid: 0, sl: 0, src_path_bits: 0, is_global: 0, port_num: 0 },
            max_dest_rd_atomic: 0,
            min_rnr_timer: 0,
            timeout: 0,
            retry_cnt: 0,
            rnr_retry: 0,
            max_rd_atomic: 0,
            cap: IbvQpCap {
                max_send_wr: 0,
                max_recv_wr: 0,
                max_send_sge: 0,
                max_recv_sge: 0,
                max_inline_data: 0,
            },
        }
    }
}

impl Default for IbvQpAttr {
    fn default() -> (r: Self)
        ensures
            r == IbvQpAttr::spec_zeroed(),
    {
        IbvQpAttr {
            qp_state: 0,
            cur_qp_state: 0,
            path_mtu: 0,
            rq_psn: 0,
            sq_psn: 0,
            dest_qp_num: 0,
            qp_access_flags: 0,
            pkey_index: 0,
            port_num: 0,
            ah_attr: IbvAhAttr { dlid: 0, sl: 0, src_path_bits: 0, is_global: 0, port_num: 0 },
            max_dest_rd_atomic: 0,
            min_rnr_timer: 0,
            timeout: 0,
            retry_cnt: 0,
            rnr_retry: 0,
            max_rd_atomic: 0,
            cap: IbvQpCap {
                max_send_wr: 0,
                max_recv_wr: 0,
                max_send_sge: 0,
                max_recv_sge: 0,
                max_inline_data: 0,
            },
        }
    }
}

/// The initialization record of the custom queue-pair constructor.  The
/// send and receive queues are named by the two flags and handed to the
/// constructor itself.
#[derive(Clone, Copy, Debug, PartialEq, Eq, Structural)]
pub struct IbvQpInitAttr {
    pub send_cq_set: bool,
    pub recv_cq_set: bool,
    pub cap: IbvQpCap,
    pub qp_type: u32,
    pub sq_sig_all: i32,
}

impl IbvQpInitAttr {
    /// The all-zero record, the starting point of the builder calls.
    pub open spec fn spec_zeroed() -> IbvQpInitAttr {
        IbvQpInitAttr {
            send_cq_set: false,
            recv_cq_set: false,
            cap: IbvQpCap {
                max_send_wr: 0,
                max_recv_wr: 0,
                max_send_sge: 0,
                max_recv_sge: 0,
                max_inline_data: 0,
            },
            qp_type: 0,
            sq_sig_all: 0,
        }
    }

    /// Names the given completion queue as the record's send queue.
    #[inline(always)]
    pub fn set_send_cq(&mut self, send_cq: &IbvCq)
        ensures
            *final(self) == (IbvQpInitAttr { send_cq_set: true, ..*old(self) }),
    {
        self.send_cq_set = true;
    }

    /// Names the given completion queue as the record's receive queue.
    #[inline(always)]
    pub fn set_recv_cq(&mut self, recv_cq: &IbvCq)
        ensures
            *final(self) == (IbvQpInitAttr { recv_cq_set: true, ..*old(self) }),
    {
        self.recv_cq_set = true;
    }

    #[inline(always)]
    pub fn set_max_send_wr(&mut self, max_send_wr: u32)
        ensures
            *final(self) == (IbvQpInitAttr {
                cap: IbvQpCap { max_send_wr, ..old(self).cap },
                ..*old(self)
            }),
    {
        self.cap.max_send_wr = max_send_wr;
    }

    #[inline(always)]
    pub fn set_max_recv_wr(&mut self, max_recv_wr: u32)
        ensures
            *final(self) == (IbvQpInitAttr {
                cap: IbvQpCap { max_recv_wr, ..old(self).cap },
                ..*old(self)
            }),
    {
        self.cap.max_recv_wr = max_recv_wr;
    }

    #[inline(always)]
    pub fn set_max_send_sge(&mut self, max_send_sge: u32)
        ensures
            *final(self) == (IbvQpInitAttr {
                cap: IbvQpCap { max_send_sge, ..old(self).cap },
                ..*old(self)
            }),
    {
        self.cap.max_send_sge = max_send_sge;
    }

    #[inline(always)]
    pub fn set_max_recv_sge(&mut self, max_recv_sge: u32)
        ensures
            *final(self) == (IbvQpInitAttr {
                cap: IbvQpCap { max_recv_sge, ..old(self).cap },
                ..*old(self)
            }),
    {
        self.cap.max_recv_sge = max_recv_sge;
    }

    #[inline(always)]
    pub fn set_max_inine_data(&mut self, max_inline_data: u32)
        ensures
            *final(self) == (IbvQpInitAttr {
                cap: IbvQpCap { max_inline_data, ..old(self).cap },
                ..*old(self)
            }),
    {
        self.cap.max_inline_data = max_inline_data;
    }

    #[inline(always)]
    pub fn set_qp_type(&mut self, qp_type: u32)
        ensures
            *final(self) == (IbvQpInitAttr { qp_type, ..*old(self) }),
    {
        self.qp_type = qp_type;
    }

    #[inline(always)]
    pub fn set_sq_sig_all(&mut self, sq_sig_all: i32)
        ensures
            *final(self) == (IbvQpInitAttr { sq_sig_all, ..*old(self) }),
    {
        self.sq_sig_all = sq_sig_all;
    }
}

impl Default for IbvQpInitAttr {
    fn default() -> (r: Self)
        ensures
            r == IbvQpInitAttr::spec_zeroed(),
    {
        IbvQpInitAttr {
            send_cq_set: false,
            recv_cq_set: false,
            cap: IbvQpCap {
                max_send_wr: 0,
                max_recv_wr: 0,
                max_send_sge: 0,
                max_recv_sge: 0,
                max_inline_data: 0,
            },
            qp_type: 0,
            sq_sig_all: 0,
        }
    }
}

/// One Reliable-Connected endpoint: created in `Reset` under a
/// protection domain against a send and a receive completion queue,
/// driven through the connection state machine, then fed work requests.
#[derive(Debug)]
pub struct IbvQp {
    pub qpn: u32,
    pub state: QpState,
    pub qp_type: u32,
    pub sq_sig_all: i32,
    pub cap: IbvQpCap,
    pub port_num: u8,
    pub pkey_index: u16,
    pub qp_access_flags: u32,
    pub path_mtu: u32,
    pub dest_qp_num: u32,
    pub rq_psn: u32,
    pub sq_psn: u32,
    pub max_dest_rd_atomic: u8,
    pub min_rnr_timer: u8,
    pub timeout: u8,
    pub retry_cnt: u8,
    pub rnr_retry: u8,
    pub max_rd_atomic: u8,
    pub ah: IbvAhAttr,
    pub send_queue: Vec<PostedWr>,
    pub recv_queue: Vec<u64>,
    pub live: bool,
}

/// The state code a query reports for each connection state.
pub open spec fn spec_state_code(s: QpState) -> u32 {
    match s {
        QpState::Reset => IBV_QPS_RESET,
        QpState::Init => IBV_QPS_INIT,
        QpState::Rtr => IBV_QPS_RTR,
        QpState::Rts => IBV_QPS_RTS,
        QpState::Error => IBV_QPS_ERR,
    }
}

/// Holds when `qp` is a freshly created pair: in `Reset`, empty queues,
/// no connection parameters negotiated yet.
pub open spec fn spec_fresh_qp(
    qp: IbvQp,
    qpn: u32,
    qp_type: u32,
    sq_sig_all: i32,
    cap: IbvQpCap,
) -> bool {
    &&& qp.qpn == qpn
    &&& qp.state == QpState::Reset
    &&& qp.qp_type == qp_type
    &&& qp.sq_sig_all == sq_sig_all
    &&& qp.cap == cap
    &&& qp.port_num == 0
    &&& qp.pkey_index == 0
    &&& qp.qp_access_flags == 0
    &&& qp.path_mtu == 0
    &&& qp.dest_qp_num == 0
    &&& qp.rq_psn == 0
    &&& qp.sq_psn == 0
    &&& qp.max_dest_rd_atomic == 0
    &&& qp.min_rnr_timer == 0
    &&& qp.timeout == 0
    &&& qp.retry_cnt == 0
    &&& qp.rnr_retry == 0
    &&& qp.max_rd_atomic == 0
    &&& qp.ah == (IbvAhAttr { dlid: 0, sl: 0, src_path_bits: 0, is_global: 0, port_num: 0 })
    &&& qp.send_queue@ == Seq::<PostedWr>::empty()
    &&& qp.recv_queue@ == Seq::<u64>::empty()
    &&& qp.live
}

/// Holds when the two pairs agree on everything except their posted
/// work queues.
pub open spec fn spec_qp_same_but_queues(a: IbvQp, b: IbvQp) -> bool {
    &&& b.qpn == a.qpn
    &&& b.state == a.state
    &&& b.qp_type == a.qp_type
    &&& b.sq_sig_all == a.sq_sig_all
    &&& b.cap == a.cap
    &&& b.port_num == a.port_num
    &&& b.pkey_index == a.pkey_index
    &&& b.qp_access_flags == a.qp_access_flags
    &&& b.path_mtu == a.path_mtu
    &&& b.dest_qp_num == a.dest_qp_num
    &&& b.rq_psn == a.rq_psn
    &&& b.sq_psn == a.sq_psn
    &&& b.max_dest_rd_atomic == a.max_dest_rd_atomic
    &&& b.min_rnr_timer == a.min_rnr_timer
    &&& b.timeout == a.timeout
    &&& b.retry_cnt == a.retry_cnt
    &&& b.rnr_retry == a.rnr_retry
    &&& b.max_rd_atomic == a.max_rd_atomic
    &&& b.ah == a.ah
    &&& b.live == a.live
}

/// Holds when the driver accepts a transition call: either a bare move
/// to RESET or ERR, or one of the three connection steps taken from its
/// exact source state with its exact attribute mask.
pub open spec fn spec_modify_ok(qp: IbvQp, attr: IbvQpAttr, mask: u32) -> bool {
    if mask == IBV_QP_STATE && attr.qp_state == IBV_QPS_RESET {
        true
    } else if mask == IBV_QP_STATE && attr.qp_state == IBV_QPS_ERR {
        true
    } else if mask == RESET2INIT_MASK && attr.qp_state == IBV_QPS_INIT {
        qp.state == QpState::Reset
    } else if mask == INIT2RTR_MASK && attr.qp_state == IBV_QPS_RTR {
        qp.state == QpState::Init
    } else if mask == RTR2RTS_MASK && attr.qp_state == IBV_QPS_RTS {
        qp.state == QpState::Rtr
    } else {
        false
    }
}

/// What an accepted transition call does: the target state is taken and
/// exactly the fields named by the mask are written; the move back to
/// RESET also flushes both work queues.
pub open spec fn spec_modify_post(pre: IbvQp, post: IbvQp, attr: IbvQpAttr, mask: u32) -> bool {
    if mask == IBV_QP_STATE && attr.qp_state == IBV_QPS_RESET {
        &&& post == (IbvQp {
            state: QpState::Reset,
            send_queue: post.send_queue,
            recv_queue: post.recv_queue,
            ..pre
        })
        &&& post.send_queue@ == Seq::<PostedWr>::empty()
        &&& post.recv_queue@ == Seq::<u64>::empty()
    } else if mask == IBV_QP_STATE && attr.qp_state == IBV_QPS_ERR {
        post == (IbvQp { state: QpState::Error, ..pre })
    } else if mask == RESET2INIT_MASK && attr.qp_state == IBV_QPS_INIT {
        post == (IbvQp {
            state: QpState::Init,
            pkey_index: attr.pkey_index,
            port_num: attr.port_num,
            qp_access_flags: attr.qp_access_flags,
            ..pre
        })
    } else if mask == INIT2RTR_MASK && attr.qp_state == IBV_QPS_RTR {
        post == (IbvQp {
            state: QpState::Rtr,
            path_mtu: attr.path_mtu,
            dest_qp_num: attr.dest_qp_num,
            rq_psn: attr.rq_psn,
            max_dest_rd_atomic: attr.max_dest_rd_atomic,
            min_rnr_timer: attr.min_rnr_timer,
            ah: attr.ah_attr,
            ..pre
        })
    } else if mask == RTR2RTS_MASK && attr.qp_state == IBV_QPS_RTS {
        post == (IbvQp {
            state: QpState::Rts,
            timeout: attr.timeout,
            retry_cnt: attr.retry_cnt,
            rnr_retry: attr.rnr_retry,
            sq_psn: attr.sq_psn,
            max_rd_atomic: attr.max_rd_atomic,
            ..pre
        })
    } else {
        false
    }
}

/// The pair after an accepted RESET → INIT step with this layer's fixed
/// parameters.
pub open spec fn spec_qp_after_reset2init(qp: IbvQp, port_num: u8) -> IbvQp {
    IbvQp {
        state: QpState::Init,
        pkey_index: DEFAULT_PKEY_INDEX,
        port_num,
        qp_access_flags: INIT_ACCESS_FLAGS,
        ..qp
    }
}

/// The pair after an accepted INIT → RTR step: the remote endpoint from
/// the out-of-band exchange plus this layer's fixed parameters.
pub open spec fn spec_qp_after_init2rtr(
    qp: IbvQp,
    sl: u8,
    port_num: u8,
    remote_qpn: u32,
    remote_psn: u32,
    remote_lid: u16,
) -> IbvQp {
    IbvQp {
        state: QpState::Rtr,
        path_mtu: DEFAULT_PATH_MTU,
        dest_qp_num: remote_qpn,
        rq_psn: remote_psn,
        max_dest_rd_atomic: DEFAULT_MAX_DEST_RD_ATOMIC,
        min_rnr_timer: DEFAULT_MIN_RNR_TIMER,
        ah: IbvAhAttr { dlid: remote_lid, sl, src_path_bits: 0, is_global: 0, port_num },
        ..qp
    }
}

/// The pair after an accepted RTR → RTS step with this layer's fixed
/// parameters.
pub open spec fn spec_qp_after_rtr2rts(qp: IbvQp, psn: u32) -> IbvQp {
    IbvQp {
        state: QpState::Rts,
        timeout: DEFAULT_TIMEOUT,
        retry_cnt: DEFAULT_RETRY_CNT,
        rnr_retry: DEFAULT_RNR_RETRY,
        sq_psn: psn,
        max_rd_atomic: DEFAULT_MAX_RD_ATOMIC,
        ..qp
    }
}

/// Holds when a send work request is accepted: the pair is at RTS and
/// the request fits the send queue's capacities.
pub open spec fn spec_post_send_ok(qp: IbvQp, wr: IbvSendWr) -> bool {
    &&& qp.state == QpState::Rts
    &&& qp.send_queue@.len() < qp.cap.max_send_wr
    &&& wr.sg_list@.len() <= qp.cap.max_send_sge
    &&& spec_sge_total(wr.sg_list@) <= u32::MAX
}

/// Holds when a receive work request is accepted: receives may be posted
/// from INIT onward, within the receive queue's capacities.
pub open spec fn spec_post_recv_ok(qp: IbvQp, wr: IbvRecvWr) -> bool {
    &&& (qp.state == QpState::Init || qp.state == QpState::Rtr || qp.state == QpState::Rts)
    &&& qp.recv_queue@.len() < qp.cap.max_recv_wr
    &&& wr.sg_list@.len() <= qp.cap.max_recv_sge
}

/// The state and configured capacities a query reports for the pair.
pub open spec fn spec_cur_attr(qp: IbvQp) -> IbvQpAttr {
    IbvQpAttr {
        qp_state: spec_state_code(qp.state),
        cur_qp_state: spec_state_code(qp.state),
        path_mtu: qp.path_mtu,
        rq_psn: qp.rq_psn,
        sq_psn: qp.sq_psn,
        dest_qp_num: qp.dest_qp_num,
        qp_access_flags: qp.qp_access_flags,
        pkey_index: qp.pkey_index,
        port_num: qp.port_num,
        ah_attr: qp.ah,
        max_dest_rd_atomic: qp.max_dest_rd_atomic,
        min_rnr_timer: qp.min_rnr_timer,
        timeout: qp.timeout,
        retry_cnt: qp.retry_cnt,
        rnr_retry: qp.rnr_retry,
        max_rd_atomic: qp.max_rd_atomic,
        cap: qp.cap,
    }
}

/// The initialization record a query reports for the pair.
pub open spec fn spec_cur_init_attr(qp: IbvQp) -> IbvQpInitAttr {
    IbvQpInitAttr {
        send_cq_set: true,
        recv_cq_set: true,
        cap: qp.cap,
        qp_type: qp.qp_type,
        sq_sig_all: qp.sq_sig_all,
    }
}

/// Maps a connection state to the code a query reports for it.
pub fn qp_state_code(s: QpState) -> (r: u32)
    ensures
        r == spec_state_code(s),
{
    match s {
        QpState::Reset => IBV_QPS_RESET,
        QpState::Init => IBV_QPS_INIT,
        QpState::Rtr => IBV_QPS_RTR,
        QpState::Rts => IBV_QPS_RTS,
        QpState::Error => IBV_QPS_ERR,
    }
}

impl IbvQp {
    /// Creates a Reliable-Connected queue pair in `Reset` under a domain,
    /// against a send and a receive completion queue; neither queue can
    /// be destroyed before the pair.
    pub fn new(
        pd: &mut IbvPd,
        send_cq: &mut IbvCq,
        recv_cq: &mut IbvCq,
        sq_sig_all: i32,
        max_send_wr: u32,
        max_recv_wr: u32,
        max_send_sge: u32,
        max_recv_sge: u32,
        max_inline_data: u32,
    ) -> (r: Result<IbvQp, IbvError>)
        requires
            old(pd).live,
            old(send_cq).live,
            old(recv_cq).live,
        ensures
            match r {
                Ok(qp) => {
                    &&& old(pd).next_qpn < u32::MAX
                    &&& old(pd).qp_count < usize::MAX
                    &&& old(send_cq).qp_count < usize::MAX
                    &&& old(recv_cq).qp_count < usize::MAX
                    &&& spec_fresh_qp(
                        qp,
                        old(pd).next_qpn,
                        IBV_QPT_RC,
                        sq_sig_all,
                        IbvQpCap {
                            max_send_wr,
                            max_recv_wr,
                            max_send_sge,
                            max_recv_sge,
                            max_inline_data,
                        },
                    )
                    &&& *final(pd) == (IbvPd {
                        qp_count: (old(pd).qp_count + 1) as usize,
                        next_qpn: (old(pd).next_qpn + 1) as u32,
                        ..*old(pd)
                    })
                    &&& *final(send_cq) == (IbvCq {
                        qp_count: (old(send_cq).qp_count + 1) as usize,
                        ..*old(send_cq)
                    })
                    &&& *final(recv_cq) == (IbvCq {
                        qp_count: (old(recv_cq).qp_count + 1) as usize,
                        ..*old(recv_cq)
                    })
                },
                Err(e) => {
                    &&& e == IbvError::AllocFailed
                    &&& (old(pd).next_qpn == u32::MAX || old(pd).qp_count == usize::MAX || old(
                        send_cq,
                    ).qp_count == usize::MAX || old(recv_cq).qp_count == usize::MAX)
                    &&& *final(pd) == *old(pd)
                    &&& *final(send_cq) == *old(send_cq)
                    &&& *final(recv_cq) == *old(recv_cq)
                },
            },
    {
        if pd.next_qpn == u32::MAX || pd.qp_count == usize::MAX || send_cq.qp_count == usize::MAX
            || recv_cq.qp_count == usize::MAX {
            return Err(IbvError::AllocFailed);
        }
        let qpn = pd.next_qpn;
        pd.next_qpn = pd.next_qpn + 1;
        pd.qp_count = pd.qp_count + 1;
        send_cq.qp_count = send_cq.qp_count + 1;
        recv_cq.qp_count = recv_cq.qp_count + 1;
        Ok(
            IbvQp {
                qpn,
                state: QpState::Reset,
                qp_type: IBV_QPT_RC,
                sq_sig_all,
                cap: IbvQpCap {
                    max_send_wr,
                    max_recv_wr,
                    max_send_sge,
                    max_recv_sge,
                    max_inline_data,
                },
                port_num: 0,
                pkey_index: 0,
                qp_access_flags: 0,
                path_mtu: 0,
                dest_qp_num: 0,
                rq_psn: 0,
                sq_psn: 0,
                max_dest_rd_atomic: 0,
                min_rnr_timer: 0,
                timeout: 0,
                retry_cnt: 0,
                rnr_retry: 0,
                max_rd_atomic: 0,
                ah: IbvAhAttr { dlid: 0, sl: 0, src_path_bits: 0, is_global: 0, port_num: 0 },
                send_queue: Vec::new(),
                recv_queue: Vec::new(),
                live: true,
            },
        )
    }

    /// Creates a queue pair from a fully custom initialization record,
    /// for cases needing transports or options beyond the fixed
    /// defaults.  The record must name both completion queues, which are
    /// the two handed in here.
    pub fn with_attr(
        pd: &mut IbvPd,
        send_cq: &mut IbvCq,
        recv_cq: &mut IbvCq,
        qp_init_attr: &IbvQpInitAttr,
    ) -> (r: Result<IbvQp, IbvError>)
        requires
            old(pd).live,
            old(send_cq).live,
            old(recv_cq).live,
        ensures
            match r {
                Ok(qp) => {
                    &&& qp_init_attr.send_cq_set
                    &&& qp_init_attr.recv_cq_set
                    &&& old(pd).next_qpn < u32::MAX
                    &&& old(pd).qp_count < usize::MAX
                    &&& old(send_cq).qp_count < usize::MAX
                    &&& old(recv_cq).qp_count < usize::MAX
                    &&& spec_fresh_qp(
                        qp,
                        old(pd).next_qpn,
                        qp_init_attr.qp_type,
                        qp_init_attr.sq_sig_all,
                        qp_init_attr.cap,
                    )
                    &&& *final(pd) == (IbvPd {
                        qp_count: (old(pd).qp_count + 1) as usize,
                        next_qpn: (old(pd).next_qpn + 1) as u32,
                        ..*old(pd)
                    })
                    &&& *final(send_cq) == (IbvCq {
                        qp_count: (old(send_cq).qp_count + 1) as usize,
                        ..*old(send_cq)
                    })
                    &&& *final(recv_cq) == (IbvCq {
                        qp_count: (old(recv_cq).qp_count + 1) as usize,
                        ..*old(recv_cq)
                    })
                },
                Err(e) => {
                    &&& e == IbvError::AllocFailed
                    &&& (!qp_init_attr.send_cq_set || !qp_init_attr.recv_cq_set || old(
                        pd,
                    ).next_qpn == u32::MAX || old(pd).qp_count == usize::MAX || old(
                        send_cq,
                    ).qp_count == usize::MAX || old(recv_cq).qp_count == usize::MAX)
                    &&& *final(pd) == *old(pd)
                    &&& *final(send_cq) == *old(send_cq)
                    &&& *final(recv_cq) == *old(recv_cq)
                },
            },
    {
        if !qp_init_attr.send_cq_set || !qp_init_attr.recv_cq_set {
            return Err(IbvError::AllocFailed);
        }
        if pd.next_qpn == u32::MAX || pd.qp_count == usize::MAX || send_cq.qp_count == usize::MAX
            || recv_cq.qp_count == usize::MAX {
            return Err(IbvError::AllocFailed);
        }
        let qpn = pd.next_qpn;
        pd.next_qpn = pd.next_qpn + 1;
        pd.qp_count = pd.qp_count + 1;
        send_cq.qp_count = send_cq.qp_count + 1;
        recv_cq.qp_count = recv_cq.qp_count + 1;
        Ok(
            IbvQp {
                qpn,
                state: QpState::Reset,
                qp_type: qp_init_attr.qp_type,
                sq_sig_all: qp_init_attr.sq_sig_all,
                cap: qp_init_attr.cap,
                port_num: 0,
                pkey_index: 0,
                qp_access_flags: 0,
                path_mtu: 0,
                dest_qp_num: 0,
                rq_psn: 0,
                sq_psn: 0,
                max_dest_rd_atomic: 0,
                min_rnr_timer: 0,
                timeout: 0,
                retry_cnt: 0,
                rnr_retry: 0,
                max_rd_atomic: 0,
                ah: IbvAhAttr { dlid: 0, sl: 0, src_path_bits: 0, is_global: 0, port_num: 0 },
                send_queue: Vec::new(),
                recv_queue: Vec::new(),
                live: true,
            },
        )
    }

    /// Issues one state-transition call: the driver checks the mask and
    /// the current state exactly as [`spec_modify_ok`] states, applies
    /// the fields named by the mask, and otherwise rejects the call
    /// unchanged.
    pub fn modify(&mut self, attr: &IbvQpAttr, attr_mask: u32) -> (r: Result<(), IbvError>)
        requires
            old(self).live,
        ensures
            match r {
                Ok(()) => spec_modify_ok(*old(self), *attr, attr_mask) && spec_modify_post(
                    *old(self),
                    *final(self),
                    *attr,
                    attr_mask,
                ),
                Err(e) => {
                    &&& e == IbvError::ModifyFailed
                    &&& !spec_modify_ok(*old(self), *attr, attr_mask)
                    &&& *final(self) == *old(self)
                },
            },
    {
        if attr_mask == IBV_QP_STATE && attr.qp_state == IBV_QPS_RESET {
            self.state = QpState::Reset;
            self.send_queue.clear();
            self.recv_queue.clear();
            Ok(())
        } else if attr_mask == IBV_QP_STATE && attr.qp_state == IBV_QPS_ERR {
            self.state = QpState::Error;
            Ok(())
        } else if attr_mask == RESET2INIT_MASK && attr.qp_state == IBV_QPS_INIT {
            if self.state != QpState::Reset {
                return Err(IbvError::ModifyFailed);
            }
            self.state = QpState::Init;
            self.pkey_index = attr.pkey_index;
            self.port_num = attr.port_num;
            self.qp_access_flags = attr.qp_access_flags;
            Ok(())
        } else if attr_mask == INIT2RTR_MASK && attr.qp_state == IBV_QPS_RTR {
            if self.state != QpState::Init {
                return Err(IbvError::ModifyFailed);
            }
            self.state = QpState::Rtr;
            self.path_mtu = attr.path_mtu;
            self.dest_qp_num = attr.dest_qp_num;
            self.rq_psn = attr.rq_psn;
            self.max_dest_rd_atomic = attr.max_dest_rd_atomic;
            self.min_rnr_timer = attr.min_rnr_timer;
            self.ah = attr.ah_attr;
            Ok(())
        } else if attr_mask == RTR2RTS_MASK && attr.qp_state == IBV_QPS_RTS {
            if self.state != QpState::Rtr {
                return Err(IbvError::ModifyFailed);
            }
            self.state = QpState::Rts;
            self.timeout = attr.timeout;
            self.retry_cnt = attr.retry_cnt;
            self.rnr_retry = attr.rnr_retry;
            self.sq_psn = attr.sq_psn;
            self.max_rd_atomic = attr.max_rd_atomic;
            Ok(())
        } else {
            Err(IbvError::ModifyFailed)
        }
    }

    /// The RESET → INIT step: binds the pair to a local port with pkey
    /// index 0 and local-write, remote-read and remote-write access.
    /// Rejected from any state but `Reset`.
    pub fn modify_reset2init(&mut self, port_num: u8) -> (r: Result<(), IbvError>)
        requires
            old(self).live,
        ensures
            match r {
                Ok(()) => old(self).state == QpState::Reset && *final(self)
                    == spec_qp_after_reset2init(*old(self), port_num),
                Err(e) => {
                    &&& e == IbvError::ModifyFailed
                    &&& old(self).state != QpState::Reset
                    &&& *final(self) == *old(self)
                },
            },
    {
        let mut attr = IbvQpAttr::default();
        attr.qp_state = IBV_QPS_INIT;
        attr.pkey_index = DEFAULT_PKEY_INDEX;
        attr.port_num = port_num;
        attr.qp_access_flags = INIT_ACCESS_FLAGS;
        self.modify(&attr, RESET2INIT_MASK)
    }

    /// The INIT → RTR step: takes the remote endpoint learned through the
    /// out-of-band exchange (service level, port, queue-pair number,
    /// initial packet sequence number, local identifier) with the fixed
    /// 1024-byte path MTU profile.  Rejected from any state but `Init`.
    pub fn modify_init2rtr(
        &mut self,
        sl: u8,
        port_num: u8,
        remote_qpn: u32,
        remote_psn: u32,
        remote_lid: u16,
    ) -> (r: Result<(), IbvError>)
        requires
            old(self).live,
        ensures
            match r {
                Ok(()) => old(self).state == QpState::Init && *final(self)
                    == spec_qp_after_init2rtr(
                    *old(self),
                    sl,
                    port_num,
                    remote_qpn,
                    remote_psn,
                    remote_lid,
                ),
                Err(e) => {
                    &&& e == IbvError::ModifyFailed
                    &&& old(self).state != QpState::Init
                    &&& *final(self) == *old(self)
                },
            },
    {
        let mut attr = IbvQpAttr::default();
        attr.qp_state = IBV_QPS_RTR;
        attr.path_mtu = DEFAULT_PATH_MTU;
        attr.dest_qp_num = remote_qpn;
        attr.rq_psn = remote_psn;
        attr.max_dest_rd_atomic = DEFAULT_MAX_DEST_RD_ATOMIC;
        attr.min_rnr_timer = DEFAULT_MIN_RNR_TIMER;
        attr.ah_attr = IbvAhAttr {
            dlid: remote_lid,
            sl,
            src_path_bits: 0,
            is_global: 0,
            port_num,
        };
        self.modify(&attr, INIT2RTR_MASK)
    }

    /// The RTR → RTS step: arms the send side with this layer's fixed
    /// timeout and retry profile and the local send packet sequence
    /// number.  Rejected from any state but `Rtr`.
    pub fn modify_rtr2rts(&mut self, psn: u32) -> (r: Result<(), IbvError>)
        requires
            old(self).live,
        ensures
            match r {
                Ok(()) => old(self).state == QpState::Rtr && *final(self) == spec_qp_after_rtr2rts(
                    *old(self),
                    psn,
                ),
                Err(e) => {
                    &&& e == IbvError::ModifyFailed
                    &&& old(self).state != QpState::Rtr
                    &&& *final(self) == *old(self)
                },
            },
    {
        let mut attr = IbvQpAttr::default();
        attr.qp_state = IBV_QPS_RTS;
        attr.timeout = DEFAULT_TIMEOUT;
        attr.retry_cnt = DEFAULT_RETRY_CNT;
        attr.rnr_retry = DEFAULT_RNR_RETRY;
        attr.sq_psn = psn;
        attr.max_rd_atomic = DEFAULT_MAX_RD_ATOMIC;
        self.modify(&attr, RTR2RTS_MASK)
    }

    /// The locally assigned queue-pair number, needed for the out-of-band
    /// address exchange.
    #[inline(always)]
    pub fn qpn(&self) -> (r: u32)
        ensures
            r == self.qpn,
    {
        self.qpn
    }

    /// Retrieves the pair's current state and configured capacities for
    /// diagnostics.  The model reports every attribute whatever the mask
    /// asks for.
    pub fn query(&self, attr_mask: u32) -> (r: Result<(IbvQpAttr, IbvQpInitAttr), IbvError>)
        requires
            self.live,
        ensures
            r == Ok::<_, IbvError>((spec_cur_attr(*self), spec_cur_init_attr(*self))),
    {
        let code = qp_state_code(self.state);
        let attr = IbvQpAttr {
            qp_state: code,
            cur_qp_state: code,
            path_mtu: self.path_mtu,
            rq_psn: self.rq_psn,
            sq_psn: self.sq_psn,
            dest_qp_num: self.dest_qp_num,
            qp_access_flags: self.qp_access_flags,
            pkey_index: self.pkey_index,
            port_num: self.port_num,
            ah_attr: self.ah,
            max_dest_rd_atomic: self.max_dest_rd_atomic,
            min_rnr_timer: self.min_rnr_timer,
            timeout: self.timeout,
            retry_cnt: self.retry_cnt,
            rnr_retry: self.rnr_retry,
            max_rd_atomic: self.max_rd_atomic,
            cap: self.cap,
        };
        let init_attr = IbvQpInitAttr {
            send_cq_set: true,
            recv_cq_set: true,
            cap: self.cap,
            qp_type: self.qp_type,
            sq_sig_all: self.sq_sig_all,
        };
        Ok((attr, init_attr))
    }

    /// Enqueues one send work request.  Accepted only at RTS, within the
    /// send queue's capacity and scatter-gather limit; what the eventual
    /// completion will report is recorded with the request.
    pub fn post_send(&mut self, wr: &IbvSendWr) -> (r: Result<(), IbvError>)
        requires
            old(self).live,
        ensures
            match r {
                Ok(()) => {
                    &&& spec_post_send_ok(*old(self), *wr)
                    &&& final(self).send_queue@ == old(self).send_queue@.push(
                        PostedWr {
                            wr_id: wr.wr_id,
                            opcode: spec_wc_opcode(wr.opcode),
                            byte_len: spec_sge_total(wr.sg_list@) as u32,
                        },
                    )
                    &&& final(self).recv_queue@ == old(self).recv_queue@
                    &&& spec_qp_same_but_queues(*old(self), *final(self))
                },
                Err(e) => {
                    &&& e == IbvError::PostFailed
                    &&& !spec_post_send_ok(*old(self), *wr)
                    &&& *final(self) == *old(self)
                },
            },
    {
        if self.state != QpState::Rts {
            return Err(IbvError::PostFailed);
        }
        if self.send_queue.len() >= self.cap.max_send_wr as usize {
            return Err(IbvError::PostFailed);
        }
        if wr.sg_list.len() > self.cap.max_send_sge as usize {
            return Err(IbvError::PostFailed);
        }
        let total = match sge_total(&wr.sg_list) {
            Some(t) => t,
            None => {
                return Err(IbvError::PostFailed);
            },
        };
        let opcode = wc_opcode_for(wr.opcode);
        self.send_queue.push(PostedWr { wr_id: wr.wr_id, opcode, byte_len: total });
        Ok(())
    }

    /// Enqueues one receive work request.  Accepted from INIT onward,
    /// within the receive queue's capacity and scatter-gather limit.
    pub fn post_recv(&mut self, wr: &IbvRecvWr) -> (r: Result<(), IbvError>)
        requires
            old(self).live,
        ensures
            match r {
                Ok(()) => {
                    &&& spec_post_recv_ok(*old(self), *wr)
                    &&& final(self).recv_queue@ == old(self).recv_queue@.push(wr.wr_id)
                    &&& final(self).send_queue@ == old(self).send_queue@
                    &&& spec_qp_same_but_queues(*old(self), *final(self))
                },
                Err(e) => {
                    &&& e == IbvError::PostFailed
                    &&& !spec_post_recv_ok(*old(self), *wr)
                    &&& *final(self) == *old(self)
                },
            },
    {
        if !(self.state == QpState::Init || self.state == QpState::Rtr || self.state
            == QpState::Rts) {
            return Err(IbvError::PostFailed);
        }
        if self.recv_queue.len() >= self.cap.max_recv_wr as usize {
            return Err(IbvError::PostFailed);
        }
        if wr.sg_list.len() > self.cap.max_recv_sge as usize {
            return Err(IbvError::PostFailed);
        }
        self.recv_queue.push(wr.wr_id);
        Ok(())
    }

    /// Records that the device finished the oldest outstanding send
    /// request, writing its completion into the pair's send completion
    /// queue, which must be the one handed in and have room.
    pub fn complete_send(&mut self, send_cq: &mut IbvCq, status: u32)
        requires
            old(self).live,
            old(self).send_queue@.len() > 0,
            old(send_cq).live,
            old(send_cq).pending@.len() < old(send_cq).capacity,
        ensures
            final(self).send_queue@ == old(self).send_queue@.skip(1),
            final(self).recv_queue@ == old(self).recv_queue@,
            spec_qp_same_but_queues(*old(self), *final(self)),
            final(send_cq).pending@ == old(send_cq).pending@.push(
                IbvWc {
                    wr_id: old(self).send_queue@[0].wr_id,
                    status,
                    opcode: old(self).send_queue@[0].opcode,
                    byte_len: old(self).send_queue@[0].byte_len,
                    qp_num: old(self).qpn,
                },
            ),
            spec_cq_same_but_pending(*old(send_cq), *final(send_cq)),
    {
        proof {
            assert(old(self).send_queue@.remove(0) =~= old(self).send_queue@.skip(1));
        }
        let posted = self.send_queue.remove(0);
        send_cq.deliver(
            IbvWc {
                wr_id: posted.wr_id,
                status,
                opcode: posted.opcode,
                byte_len: posted.byte_len,
                qp_num: self.qpn,
            },
        );
    }

    /// Records that the device finished the oldest outstanding receive
    /// request with the given byte count from the wire, writing its
    /// completion into the pair's receive completion queue, which must be
    /// the one handed in and have room.
    pub fn complete_recv(&mut self, recv_cq: &mut IbvCq, status: u32, byte_len: u32)
        requires
            old(self).live,
            old(self).recv_queue@.len() > 0,
            old(recv_cq).live,
            old(recv_cq).pending@.len() < old(recv_cq).capacity,
        ensures
            final(self).recv_queue@ == old(self).recv_queue@.skip(1),
            final(self).send_queue@ == old(self).send_queue@,
            spec_qp_same_but_queues(*old(self), *final(self)),
            final(recv_cq).pending@ == old(recv_cq).pending@.push(
                IbvWc {
                    wr_id: old(self).recv_queue@[0],
                    status,
                    opcode: IBV_WC_RECV,
                    byte_len,
                    qp_num: old(self).qpn,
                },
            ),
            spec_cq_same_but_pending(*old(recv_cq), *final(recv_cq)),
    {
        proof {
            assert(old(self).recv_queue@.remove(0) =~= old(self).recv_queue@.skip(1));
        }
        let wr_id = self.recv_queue.remove(0);
        recv_cq.deliver(
            IbvWc { wr_id, status, opcode: IBV_WC_RECV, byte_len, qp_num: self.qpn },
        );
    }

    /// Destroys the pair, releasing its references on its domain and
    /// completion queues.  The caller must have drained the pair or moved
    /// it back to RESET or into the error state first: destroying a pair
    /// with outstanding work requests is undefined at the hardware.
    pub fn destroy(
        &mut self,
        pd: &mut IbvPd,
        send_cq: &mut IbvCq,
        recv_cq: &mut IbvCq,
    ) -> (r: Result<(), IbvError>)
        requires
            old(self).live,
            old(self).state == QpState::Reset || old(self).state == QpState::Error || (old(
                self,
            ).send_queue@.len() == 0 && old(self).recv_queue@.len() == 0),
            old(pd).live,
            old(pd).qp_count > 0,
            old(send_cq).live,
            old(send_cq).qp_count > 0,
            old(recv_cq).live,
            old(recv_cq).qp_count > 0,
        ensures
            r == Ok::<(), IbvError>(()),
            *final(self) == (IbvQp { live: false, ..*old(self) }),
            *final(pd) == (IbvPd { qp_count: (old(pd).qp_count - 1) as usize, ..*old(pd) }),
            *final(send_cq) == (IbvCq {
                qp_count: (old(send_cq).qp_count - 1) as usize,
                ..*old(send_cq)
            }),
            *final(recv_cq) == (IbvCq {
                qp_count: (old(recv_cq).qp_count - 1) as usize,
                ..*old(recv_cq)
            }),
    {
        self.live = false;
        pd.qp_count = pd.qp_count - 1;
        send_cq.qp_count = send_cq.qp_count - 1;
        recv_cq.qp_count = recv_cq.qp_count - 1;
        Ok(())
    }
}

} // verus!
