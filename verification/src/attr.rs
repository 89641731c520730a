//! Plain-value records of device, port and address attributes.
//!
//! A capability query fills one of these records; the accessor surface
//! mirrors the field layout of the verbs attribute structures, with every
//! field held as an ordinary integer value.

use vstd::prelude::*;

verus! {

/// Capability record of one adapter, as returned by a device query.
#[derive(Clone, Copy, Debug, PartialEq, Eq, Structural)]
pub struct IbvDeviceAttr {
    pub node_guid: u64,
    pub sys_image_guid: u64,
    pub max_mr_size: u64,
    pub page_size_cap: u64,
    pub vendor_id: u32,
    pub vendor_part_id: u32,
    pub hw_ver: u32,
    pub max_qp: i32,
    pub max_qp_wr: i32,
    pub device_cap_flags: u32,
    pub max_sge: i32,
    pub max_sge_rd: i32,
    pub max_cq: i32,
    pub max_cqe: i32,
    pub max_mr: i32,
    pub max_pd: i32,
    pub max_qp_rd_atom: i32,
    pub max_ee_rd_atom: i32,
    pub max_res_rd_atom: i32,
    pub max_qp_init_rd_atom: i32,
    pub max_ee_init_rd_atom: i32,
    pub atomic_cap: u32,
    pub max_ee: i32,
    pub max_rdd: i32,
    pub max_mw: i32,
    pub max_raw_ipv6_qp: i32,
    pub max_raw_ethy_qp: i32,
    pub max_mcast_grp: i32,
    pub max_mcast_qp_attach: i32,
    pub max_total_mcast_qp_attach: i32,
    pub max_ah: i32,
    pub max_fmr: i32,
    pub max_map_per_fmr: i32,
    pub max_srq: i32,
    pub max_srq_wr: i32,
    pub max_srq_sge: i32,
    pub max_pkeys: u16,
    pub local_ca_ack_delay: u8,
    pub phys_port_cnt: u8,
}

impl IbvDeviceAttr {
    /// The all-zero record, the state of a freshly prepared query target.
    pub open spec fn spec_zeroed() -> IbvDeviceAttr {
        IbvDeviceAttr {
            node_guid: 0,
            sys_image_guid: 0,
            max_mr_size: 0,
            page_size_cap: 0,
            vendor_id: 0,
            vendor_part_id: 0,
            hw_ver: 0,
            max_qp: 0,
            max_qp_wr: 0,
            device_cap_flags: 0,
            max_sge: 0,
            max_sge_rd: 0,
            max_cq: 0,
            max_cqe: 0,
            max_mr: 0,
            max_pd: 0,
            max_qp_rd_atom: 0,
            max_ee_rd_atom: 0,
            max_res_rd_atom: 0,
            max_qp_init_rd_atom: 0,
            max_ee_init_rd_atom: 0,
            atomic_cap: 0,
            max_ee: 0,
            max_rdd: 0,
            max_mw: 0,
            max_raw_ipv6_qp: 0,
            max_raw_ethy_qp: 0,
            max_mcast_grp: 0,
            max_mcast_qp_attach: 0,
            max_total_mcast_qp_attach: 0,
            max_ah: 0,
            max_fmr: 0,
            max_map_per_fmr: 0,
            max_srq: 0,
            max_srq_wr: 0,
            max_srq_sge: 0,
            max_pkeys: 0,
            local_ca_ack_delay: 0,
            phys_port_cnt: 0,
        }
    }

    #[inline(always)]
    pub fn node_guid(&self) -> (r: u64)
        ensures
            r == self.node_guid,
    {
        self.node_guid
    }

    #[inline(always)]
    pub fn sys_image_guid(&self) -> (r: u64)
        ensures
            r == self.sys_image_guid,
    {
        self.sys_image_guid
    }

    #[inline(always)]
    pub fn max_mr_size(&self) -> (r: u64)
        ensures
            r == self.max_mr_size,
    {
        self.max_mr_size
    }

    #[inline(always)]
    pub fn page_size_cap(&self) -> (r: u64)
        ensures
            r == self.page_size_cap,
    {
        self.page_size_cap
    }

    #[inline(always)]
    pub fn vendor_id(&self) -> (r: u32)
        ensures
            r == self.vendor_id,
    {
        self.vendor_id
    }

    #[inline(always)]
    pub fn vendor_part_id(&self) -> (r: u32)
        ensures
            r == self.vendor_part_id,
    {
        self.vendor_part_id
    }

    #[inline(always)]
    pub fn hw_ver(&self) -> (r: u32)
        ensures
            r == self.hw_ver,
    {
        self.hw_ver
    }

    #[inline(always)]
    pub fn max_qp(&self) -> (r: i32)
        ensures
            r == self.max_qp,
    {
        self.max_qp
    }

    #[inline(always)]
    pub fn max_qp_wr(&self) -> (r: i32)
        ensures
            r == self.max_qp_wr,
    {
        self.max_qp_wr
    }

    #[inline(always)]
    pub fn device_cap_flags(&self) -> (r: u32)
        ensures
            r == self.device_cap_flags,
    {
        self.device_cap_flags
    }

    #[inline(always)]
    pub fn max_sge(&self) -> (r: i32)
        ensures
            r == self.max_sge,
    {
        self.max_sge
    }

    #[inline(always)]
    pub fn max_sge_rd(&self) -> (r: i32)
        ensures
            r == self.max_sge_rd,
    {
        self.max_sge_rd
    }

    #[inline(always)]
    pub fn max_cq(&self) -> (r: i32)
        ensures
            r == self.max_cq,
    {
        self.max_cq
    }

    #[inline(always)]
    pub fn max_cqe(&self) -> (r: i32)
        ensures
            r == self.max_cqe,
    {
        self.max_cqe
    }

    #[inline(always)]
    pub fn max_mr(&self) -> (r: i32)
        ensures
            r == self.max_mr,
    {
        self.max_mr
    }

    #[inline(always)]
    pub fn max_pd(&self) -> (r: i32)
        ensures
            r == self.max_pd,
    {
        self.max_pd
    }

    #[inline(always)]
    pub fn max_qp_rd_atom(&self) -> (r: i32)
        ensures
            r == self.max_qp_rd_atom,
    {
        self.max_qp_rd_atom
    }

    #[inline(always)]
    pub fn max_ee_rd_atom(&self) -> (r: i32)
        ensures
            r == self.max_ee_rd_atom,
    {
        self.max_ee_rd_atom
    }

    #[inline(always)]
    pub fn max_res_rd_atom(&self) -> (r: i32)
        ensures
            r == self.max_res_rd_atom,
    {
        self.max_res_rd_atom
    }

    #[inline(always)]
    pub fn max_qp_init_rd_atom(&self) -> (r: i32)
        ensures
            r == self.max_qp_init_rd_atom,
    {
        self.max_qp_init_rd_atom
    }

    #[inline(always)]
    pub fn max_ee_init_rd_atom(&self) -> (r: i32)
        ensures
            r == self.max_ee_init_rd_atom,
    {
        self.max_ee_init_rd_atom
    }

    #[inline(always)]
    pub fn atomic_cap(&self) -> (r: u32)
        ensures
            r == self.atomic_cap,
    {
        self.atomic_cap
    }

    #[inline(always)]
    pub fn max_ee(&self) -> (r: i32)
        ensures
            r == self.max_ee,
    {
        self.max_ee
    }

    #[inline(always)]
    pub fn max_rdd(&self) -> (r: i32)
        ensures
            r == self.max_rdd,
    {
        self.max_rdd
    }

    #[inline(always)]
    pub fn max_mw(&self) -> (r: i32)
        ensures
            r == self.max_mw,
    {
        self.max_mw
    }

    #[inline(always)]
    pub fn max_raw_ipv6_pq(&self) -> (r: i32)
        ensures
            r == self.max_raw_ipv6_qp,
    {
        self.max_raw_ipv6_qp
    }

    #[inline(always)]
    pub fn max_raw_ethy_qp(&self) -> (r: i32)
        ensures
            r == self.max_raw_ethy_qp,
    {
        self.max_raw_ethy_qp
    }

    #[inline(always)]
    pub fn max_mcast_grp(&self) -> (r: i32)
        ensures
            r == self.max_mcast_grp,
    {
        self.max_mcast_grp
    }

    #[inline(always)]
    pub fn max_mcast_qp_attach(&self) -> (r: i32)
        ensures
            r == self.max_mcast_qp_attach,
    {
        self.max_mcast_qp_attach
    }

    #[inline(always)]
    pub fn max_total_mcast_qp_attach(&self) -> (r: i32)
        ensures
            r == self.max_total_mcast_qp_attach,
    {
        self.max_total_mcast_qp_attach
    }

    #[inline(always)]
    pub fn max_ah(&self) -> (r: i32)
        ensures
            r == self.max_ah,
    {
        self.max_ah
    }

    #[inline(always)]
    pub fn max_fmr(&self) -> (r: i32)
        ensures
            r == self.max_fmr,
    {
        self.max_fmr
    }

    #[inline(always)]
    pub fn max_map_per_fmr(&self) -> (r: i32)
        ensures
            r == self.max_map_per_fmr,
    {
        self.max_map_per_fmr
    }

    #[inline(always)]
    pub fn max_srq(&self) -> (r: i32)
        ensures
            r == self.max_srq,
    {
        self.max_srq
    }

    #[inline(always)]
    pub fn max_srq_wr(&self) -> (r: i32)
        ensures
            r == self.max_srq_wr,
    {
        self.max_srq_wr
    }

    #[inline(always)]
    pub fn max_srq_sge(&self) -> (r: i32)
        ensures
            r == self.max_srq_sge,
    {
        self.max_srq_sge
    }

    #[inline(always)]
    pub fn max_pkeys(&self) -> (r: u16)
        ensures
            r == self.max_pkeys,
    {
        self.max_pkeys
    }

    #[inline(always)]
    pub fn local_ca_ack_delay(&self) -> (r: u8)
        ensures
            r == self.local_ca_ack_delay,
    {
        self.local_ca_ack_delay
    }

    #[inline(always)]
    pub fn phys_port_cnt(&self) -> (r: u8)
        ensures
            r == self.phys_port_cnt,
    {
        self.phys_port_cnt
    }

    #[inline(always)]
    pub fn get_max_qp(&self) -> (r: i32)
        ensures
            r == self.max_qp,
    {
        self.max_qp
    }

    #[inline(always)]
    pub fn get_max_qp_wr(&self) -> (r: i32)
        ensures
            r == self.max_qp_wr,
    {
        self.max_qp_wr
    }

    #[inline(always)]
    pub fn get_device_cap_flags(&self) -> (r: u32)
        ensures
            r == self.device_cap_flags,
    {
        self.device_cap_flags
    }

    #[inline(always)]
    pub fn get_max_sge(&self) -> (r: i32)
        ensures
            r == self.max_sge,
    {
        self.max_sge
    }

    #[inline(always)]
    pub fn get_max_sge_rd(&self) -> (r: i32)
        ensures
            r == self.max_sge_rd,
    {
        self.max_sge_rd
    }

    #[inline(always)]
    pub fn get_max_cq(&self) -> (r: i32)
        ensures
            r == self.max_cq,
    {
        self.max_cq
    }

    #[inline(always)]
    pub fn get_max_cqe(&self) -> (r: i32)
        ensures
            r == self.max_cqe,
    {
        self.max_cqe
    }

    #[inline(always)]
    pub fn get_max_mr(&self) -> (r: i32)
        ensures
            r == self.max_mr,
    {
        self.max_mr
    }

    #[inline(always)]
    pub fn get_max_pd(&self) -> (r: i32)
        ensures
            r == self.max_pd,
    {
        self.max_pd
    }

    #[inline(always)]
    pub fn get_max_qp_rd_atom(&self) -> (r: i32)
        ensures
            r == self.max_qp_rd_atom,
    {
        self.max_qp_rd_atom
    }

    #[inline(always)]
    pub fn get_max_ee_rd_atom(&self) -> (r: i32)
        ensures
            r == self.max_ee_rd_atom,
    {
        self.max_ee_rd_atom
    }

    #[inline(always)]
    pub fn get_max_res_rd_atom(&self) -> (r: i32)
        ensures
            r == self.max_res_rd_atom,
    {
        self.max_res_rd_atom
    }

    #[inline(always)]
    pub fn get_max_qp_init_rd_atom(&self) -> (r: i32)
        ensures
            r == self.max_qp_init_rd_atom,
    {
        self.max_qp_init_rd_atom
    }

    #[inline(always)]
    pub fn get_max_ee_init_rd_atom(&self) -> (r: i32)
        ensures
            r == self.max_ee_init_rd_atom,
    {
        self.max_ee_init_rd_atom
    }

    #[inline(always)]
    pub fn get_atomic_cap(&self) -> (r: u32)
        ensures
            r == self.atomic_cap,
    {
        self.atomic_cap
    }

    #[inline(always)]
    pub fn get_max_ee(&self) -> (r: i32)
        ensures
            r == self.max_ee,
    {
        self.max_ee
    }

    #[inline(always)]
    pub fn get_max_rdd(&self) -> (r: i32)
        ensures
            r == self.max_rdd,
    {
        self.max_rdd
    }

    #[inline(always)]
    pub fn get_max_mw(&self) -> (r: i32)
        ensures
            r == self.max_mw,
    {
        self.max_mw
    }

    #[inline(always)]
    pub fn get_max_raw_ipv6_pq(&self) -> (r: i32)
        ensures
            r == self.max_raw_ipv6_qp,
    {
        self.max_raw_ipv6_qp
    }

    #[inline(always)]
    pub fn get_max_raw_ethy_qp(&self) -> (r: i32)
        ensures
            r == self.max_raw_ethy_qp,
    {
        self.max_raw_ethy_qp
    }

    #[inline(always)]
    pub fn get_max_mcast_grp(&self) -> (r: i32)
        ensures
            r == self.max_mcast_grp,
    {
        self.max_mcast_grp
    }

    #[inline(always)]
    pub fn get_max_mcast_qp_attach(&self) -> (r: i32)
        ensures
            r == self.max_mcast_qp_attach,
    {
        self.max_mcast_qp_attach
    }

    #[inline(always)]
    pub fn get_max_total_mcast_qp_attach(&self) -> (r: i32)
        ensures
            r == self.max_total_mcast_qp_attach,
    {
        self.max_total_mcast_qp_attach
    }

    #[inline(always)]
    pub fn get_max_ah(&self) -> (r: i32)
        ensures
            r == self.max_ah,
    {
        self.max_ah
    }

    #[inline(always)]
    pub fn get_max_fmr(&self) -> (r: i32)
        ensures
            r == self.max_fmr,
    {
        self.max_fmr
    }

    #[inline(always)]
    pub fn get_max_map_per_fmr(&self) -> (r: i32)
        ensures
            r == self.max_map_per_fmr,
    {
        self.max_map_per_fmr
    }

    #[inline(always)]
    pub fn get_max_srq(&self) -> (r: i32)
        ensures
            r == self.max_srq,
    {
        self.max_srq
    }

    #[inline(always)]
    pub fn get_max_srq_wr(&self) -> (r: i32)
        ensures
            r == self.max_srq_wr,
    {
        self.max_srq_wr
    }

    #[inline(always)]
    pub fn get_max_srq_sge(&self) -> (r: i32)
        ensures
            r == self.max_srq_sge,
    {
        self.max_srq_sge
    }

    #[inline(always)]
    pub fn get_max_pkeys(&self) -> (r: u16)
        ensures
            r == self.max_pkeys,
    {
        self.max_pkeys
    }

    #[inline(always)]
    pub fn get_local_ca_ack_delay(&self) -> (r: u8)
        ensures
            r == self.local_ca_ack_delay,
    {
        self.local_ca_ack_delay
    }

    #[inline(always)]
    pub fn get_phys_port_cnt(&self) -> (r: u8)
        ensures
            r == self.phys_port_cnt,
    {
        self.phys_port_cnt
    }
}

impl Default for IbvDeviceAttr {
    fn default() -> (r: Self)
        ensures
            r == IbvDeviceAttr::spec_zeroed(),
    {
        IbvDeviceAttr {
            node_guid: 0,
            sys_image_guid: 0,
            max_mr_size: 0,
            page_size_cap: 0,
            vendor_id: 0,
            vendor_part_id: 0,
            hw_ver: 0,
            max_qp: 0,
            max_qp_wr: 0,
            device_cap_flags: 0,
            max_sge: 0,
            max_sge_rd: 0,
            max_cq: 0,
            max_cqe: 0,
            max_mr: 0,
            max_pd: 0,
            max_qp_rd_atom: 0,
            max_ee_rd_atom: 0,
            max_res_rd_atom: 0,
            max_qp_init_rd_atom: 0,
            max_ee_init_rd_atom: 0,
            atomic_cap: 0,
            max_ee: 0,
            max_rdd: 0,
            max_mw: 0,
            max_raw_ipv6_qp: 0,
            max_raw_ethy_qp: 0,
            max_mcast_grp: 0,
            max_mcast_qp_attach: 0,
            max_total_mcast_qp_attach: 0,
            max_ah: 0,
            max_fmr: 0,
            max_map_per_fmr: 0,
            max_srq: 0,
            max_srq_wr: 0,
            max_srq_sge: 0,
            max_pkeys: 0,
            local_ca_ack_delay: 0,
            phys_port_cnt: 0,
        }
    }
}

/// State record of one port of an adapter, as returned by a port query.
#[derive(Clone, Copy, Debug, PartialEq, Eq, Structural)]
pub struct IbvPortAttr {
    pub state: u32,
    pub max_mtu: u32,
    pub active_mtu: u32,
    pub gid_tbl_len: i32,
    pub port_cap_flags: u32,
    pub max_msg_sz: u32,
    pub bad_pkey_cntr: u32,
    pub qkey_viol_cntr: u32,
    pub pkey_tbl_len: u16,
    pub lid: u16,
    pub sm_lid: u16,
    pub lmc: u8,
    pub max_vl_num: u8,
    pub sm_sl: u8,
    pub subnet_timeout: u8,
    pub init_type_reply: u8,
    pub active_width: u8,
    pub active_speed: u8,
    pub phys_state: u8,
    pub link_layer: u8,
    pub flags: u8,
    pub port_cap_flags2: u16,
}

impl IbvPortAttr {
    /// The all-zero record, the state of a freshly prepared query target.
    pub open spec fn spec_zeroed() -> IbvPortAttr {
        IbvPortAttr {
            state: 0,
            max_mtu: 0,
            active_mtu: 0,
            gid_tbl_len: 0,
            port_cap_flags: 0,
            max_msg_sz: 0,
            bad_pkey_cntr: 0,
            qkey_viol_cntr: 0,
            pkey_tbl_len: 0,
            lid: 0,
            sm_lid: 0,
            lmc: 0,
            max_vl_num: 0,
            sm_sl: 0,
            subnet_timeout: 0,
            init_type_reply: 0,
            active_width: 0,
            active_speed: 0,
            phys_state: 0,
            link_layer: 0,
            flags: 0,
            port_cap_flags2: 0,
        }
    }

    #[inline(always)]
    pub fn state(&self) -> (r: u32)
        ensures
            r == self.state,
    {
        self.state
    }

    #[inline(always)]
    pub fn max_mtu(&self) -> (r: u32)
        ensures
            r == self.max_mtu,
    {
        self.max_mtu
    }

    #[inline(always)]
    pub fn active_mtu(&self) -> (r: u32)
        ensures
            r == self.active_mtu,
    {
        self.active_mtu
    }

    #[inline(always)]
    pub fn gid_tbl_len(&self) -> (r: i32)
        ensures
            r == self.gid_tbl_len,
    {
        self.gid_tbl_len
    }

    #[inline(always)]
    pub fn port_cap_flags(&self) -> (r: u32)
        ensures
            r == self.port_cap_flags,
    {
        self.port_cap_flags
    }

    #[inline(always)]
    pub fn max_msg_sz(&self) -> (r: u32)
        ensures
            r == self.max_msg_sz,
    {
        self.max_msg_sz
    }

    #[inline(always)]
    pub fn bad_pkey_cntr(&self) -> (r: u32)
        ensures
            r == self.bad_pkey_cntr,
    {
        self.bad_pkey_cntr
    }

    #[inline(always)]
    pub fn qkey_viol_cntr(&self) -> (r: u32)
        ensures
            r == self.qkey_viol_cntr,
    {
        self.qkey_viol_cntr
    }

    #[inline(always)]
    pub fn pkey_tbl_len(&self) -> (r: u16)
        ensures
            r == self.pkey_tbl_len,
    {
        self.pkey_tbl_len
    }

    #[inline(always)]
    pub fn lid(&self) -> (r: u16)
        ensures
            r == self.lid,
    {
        self.lid
    }

    #[inline(always)]
    pub fn sm_lid(&self) -> (r: u16)
        ensures
            r == self.sm_lid,
    {
        self.sm_lid
    }

    #[inline(always)]
    pub fn lmc(&self) -> (r: u8)
        ensures
            r == self.lmc,
    {
        self.lmc
    }

    #[inline(always)]
    pub fn max_vl_num(&self) -> (r: u8)
        ensures
            r == self.max_vl_num,
    {
        self.max_vl_num
    }

    #[inline(always)]
    pub fn sm_sl(&self) -> (r: u8)
        ensures
            r == self.sm_sl,
    {
        self.sm_sl
    }

    #[inline(always)]
    pub fn subnet_timeout(&self) -> (r: u8)
        ensures
            r == self.subnet_timeout,
    {
        self.subnet_timeout
    }

    #[inline(always)]
    pub fn init_type_reply(&self) -> (r: u8)
        ensures
            r == self.init_type_reply,
    {
        self.init_type_reply
    }

    #[inline(always)]
    pub fn active_width(&self) -> (r: u8)
        ensures
            r == self.active_width,
    {
        self.active_width
    }

    #[inline(always)]
    pub fn active_speed(&self) -> (r: u8)
        ensures
            r == self.active_speed,
    {
        self.active_speed
    }

    #[inline(always)]
    pub fn getphys_state(&self) -> (r: u8)
        ensures
            r == self.phys_state,
    {
        self.phys_state
    }

    #[inline(always)]
    pub fn link_layer(&self) -> (r: u8)
        ensures
            r == self.link_layer,
    {
        self.link_layer
    }

    #[inline(always)]
    pub fn flags(&self) -> (r: u8)
        ensures
            r == self.flags,
    {
        self.flags
    }

    #[inline(always)]
    pub fn port_cap_flags2(&self) -> (r: u16)
        ensures
            r == self.port_cap_flags2,
    {
        self.port_cap_flags2
    }
}

impl Default for IbvPortAttr {
    fn default() -> (r: Self)
        ensures
            r == IbvPortAttr::spec_zeroed(),
    {
        IbvPortAttr {
            state: 0,
            max_mtu: 0,
            active_mtu: 0,
            gid_tbl_len: 0,
            port_cap_flags: 0,
            max_msg_sz: 0,
            bad_pkey_cntr: 0,
            qkey_viol_cntr: 0,
            pkey_tbl_len: 0,
            lid: 0,
            sm_lid: 0,
            lmc: 0,
            max_vl_num: 0,
            sm_sl: 0,
            subnet_timeout: 0,
            init_type_reply: 0,
            active_width: 0,
            active_speed: 0,
            phys_state: 0,
            link_layer: 0,
            flags: 0,
            port_cap_flags2: 0,
        }
    }
}

/// A 128-bit global port address, split into its two 64-bit halves.
#[derive(Clone, Copy, Debug, PartialEq, Eq, Structural)]
pub struct IbvGid {
    pub subnet_prefix: u64,
    pub interface_id: u64,
}

impl IbvGid {
    #[inline(always)]
    pub fn subnet_prefix(&self) -> (r: u64)
        ensures
            r == self.subnet_prefix,
    {
        self.subnet_prefix
    }

    #[inline(always)]
    pub fn interface_id(&self) -> (r: u64)
        ensures
            r == self.interface_id,
    {
        self.interface_id
    }
}

impl Default for IbvGid {
    fn default() -> (r: Self)
        ensures
            r == (IbvGid { subnet_prefix: 0, interface_id: 0 }),
    {
        IbvGid { subnet_prefix: 0, interface_id: 0 }
    }
}

} // verus!
