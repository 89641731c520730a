use rdma_rs::attr::{IbvDeviceAttr, IbvGid, IbvPortAttr};
use rdma_rs::ibv::{IbvQpInitAttr, INIT2RTR_MASK, RESET2INIT_MASK, RTR2RTS_MASK};

#[test]
fn device_attr_getters_read_their_fields() {
    let attr = IbvDeviceAttr {
        node_guid: 0x1122334455667788,
        max_mr_size: 1 << 40,
        vendor_id: 0x02c9,
        max_qp: 131072,
        max_qp_wr: 32768,
        device_cap_flags: 0x10,
        max_sge: 30,
        max_cqe: 4194303,
        max_pkeys: 128,
        local_ca_ack_delay: 16,
        phys_port_cnt: 2,
        ..Default::default()
    };
    assert_eq!(attr.node_guid(), 0x1122334455667788);
    assert_eq!(attr.max_mr_size(), 1 << 40);
    assert_eq!(attr.vendor_id(), 0x02c9);
    assert_eq!(attr.max_qp(), 131072);
    assert_eq!(attr.max_qp_wr(), 32768);
    assert_eq!(attr.device_cap_flags(), 0x10);
    assert_eq!(attr.max_sge(), 30);
    assert_eq!(attr.max_cqe(), 4194303);
    assert_eq!(attr.max_pkeys(), 128);
    assert_eq!(attr.local_ca_ack_delay(), 16);
    assert_eq!(attr.phys_port_cnt(), 2);
    // the get_-prefixed accessor surface reads the same fields
    assert_eq!(attr.get_max_qp(), 131072);
    assert_eq!(attr.get_max_qp_wr(), 32768);
    assert_eq!(attr.get_device_cap_flags(), 0x10);
    assert_eq!(attr.get_max_sge(), 30);
    assert_eq!(attr.get_max_cqe(), 4194303);
    assert_eq!(attr.get_max_pkeys(), 128);
    assert_eq!(attr.get_local_ca_ack_delay(), 16);
    assert_eq!(attr.get_phys_port_cnt(), 2);
}

#[test]
fn raw_ipv6_accessors_read_the_raw_ipv6_qp_field() {
    let attr = IbvDeviceAttr { max_raw_ipv6_qp: 17, ..Default::default() };
    assert_eq!(attr.max_raw_ipv6_pq(), 17);
    assert_eq!(attr.get_max_raw_ipv6_pq(), 17);
}

#[test]
fn device_attr_default_is_zeroed() {
    let attr = IbvDeviceAttr::default();
    assert_eq!(attr.node_guid(), 0);
    assert_eq!(attr.max_qp(), 0);
    assert_eq!(attr.atomic_cap(), 0);
    assert_eq!(attr.get_atomic_cap(), 0);
    assert_eq!(attr.phys_port_cnt(), 0);
}

#[test]
fn port_attr_getters_read_their_fields() {
    let attr = IbvPortAttr {
        state: 4,
        max_mtu: 5,
        active_mtu: 3,
        gid_tbl_len: 8,
        port_cap_flags: 0x2251486a,
        max_msg_sz: 0x40000000,
        pkey_tbl_len: 128,
        lid: 11,
        sm_lid: 1,
        lmc: 0,
        max_vl_num: 4,
        sm_sl: 0,
        subnet_timeout: 18,
        active_width: 2,
        active_speed: 32,
        phys_state: 5,
        link_layer: 1,
        ..Default::default()
    };
    assert_eq!(attr.state(), 4);
    assert_eq!(attr.max_mtu(), 5);
    assert_eq!(attr.active_mtu(), 3);
    assert_eq!(attr.gid_tbl_len(), 8);
    assert_eq!(attr.port_cap_flags(), 0x2251486a);
    assert_eq!(attr.max_msg_sz(), 0x40000000);
    assert_eq!(attr.pkey_tbl_len(), 128);
    assert_eq!(attr.lid(), 11);
    assert_eq!(attr.sm_lid(), 1);
    assert_eq!(attr.lmc(), 0);
    assert_eq!(attr.max_vl_num(), 4);
    assert_eq!(attr.sm_sl(), 0);
    assert_eq!(attr.subnet_timeout(), 18);
    assert_eq!(attr.active_width(), 2);
    assert_eq!(attr.active_speed(), 32);
    assert_eq!(attr.getphys_state(), 5);
    assert_eq!(attr.link_layer(), 1);
}

#[test]
fn gid_halves() {
    let gid = IbvGid { subnet_prefix: 0xfe80000000000000, interface_id: 0x0002c90300317d31 };
    assert_eq!(gid.subnet_prefix(), 0xfe80000000000000);
    assert_eq!(gid.interface_id(), 0x0002c90300317d31);
}

#[test]
fn qp_init_attr_builders_set_their_fields() {
    let mut attr = IbvQpInitAttr::default();
    assert!(!attr.send_cq_set);
    assert!(!attr.recv_cq_set);
    attr.set_max_send_wr(64);
    attr.set_max_recv_wr(32);
    attr.set_max_send_sge(4);
    attr.set_max_recv_sge(2);
    attr.set_max_inine_data(256);
    attr.set_qp_type(rdma_rs::ibv::IBV_QPT_RC);
    attr.set_sq_sig_all(1);
    assert_eq!(attr.cap.max_send_wr, 64);
    assert_eq!(attr.cap.max_recv_wr, 32);
    assert_eq!(attr.cap.max_send_sge, 4);
    assert_eq!(attr.cap.max_recv_sge, 2);
    assert_eq!(attr.cap.max_inline_data, 256);
    assert_eq!(attr.qp_type, rdma_rs::ibv::IBV_QPT_RC);
    assert_eq!(attr.sq_sig_all, 1);
}

#[test]
fn transition_masks_compose_the_documented_bits() {
    assert_eq!(RESET2INIT_MASK, 1 | 16 | 32 | 8);
    assert_eq!(INIT2RTR_MASK, 1 | 128 | 256 | 1048576 | 4096 | 131072 | 32768);
    assert_eq!(RTR2RTS_MASK, 1 | 512 | 1024 | 2048 | 65536 | 8192);
}
