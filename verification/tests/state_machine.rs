use rdma_rs::attr::IbvDeviceAttr;
use rdma_rs::error::IbvError;
use rdma_rs::ibv::{
    IbvContext, IbvCq, IbvDevice, IbvPd, IbvQp, IbvQpAttr, IbvQpInitAttr, QpState, IBV_MTU_1024,
    IBV_QPS_RESET, IBV_QPS_RTS, IBV_QPT_RC, IBV_QP_STATE, RESET2INIT_MASK,
};

fn open_context() -> IbvContext {
    let dev = IbvDevice {
        name: String::from("mlx5_0"),
        dev_attr: IbvDeviceAttr::default(),
        ports: Vec::new(),
    };
    IbvContext::new(vec![dev], None).unwrap()
}

fn make_qp(ctx: &mut IbvContext) -> (IbvPd, IbvCq, IbvCq, IbvQp) {
    let mut pd = IbvPd::new(ctx).unwrap();
    let mut send_cq = IbvCq::new(ctx, 16, 0).unwrap();
    let mut recv_cq = IbvCq::new(ctx, 16, 0).unwrap();
    let qp = IbvQp::new(&mut pd, &mut send_cq, &mut recv_cq, 0, 8, 8, 2, 2, 0).unwrap();
    (pd, send_cq, recv_cq, qp)
}

#[test]
fn queue_pair_starts_in_reset() {
    let mut ctx = open_context();
    let (_pd, _scq, _rcq, qp) = make_qp(&mut ctx);
    assert_eq!(qp.state, QpState::Reset);
    assert_eq!(qp.qp_type, IBV_QPT_RC);
    assert_eq!(qp.qpn(), 0);
}

#[test]
fn qpn_increases_per_domain() {
    let mut ctx = open_context();
    let mut pd = IbvPd::new(&mut ctx).unwrap();
    let mut scq = IbvCq::new(&mut ctx, 16, 0).unwrap();
    let mut rcq = IbvCq::new(&mut ctx, 16, 0).unwrap();
    let qp0 = IbvQp::new(&mut pd, &mut scq, &mut rcq, 0, 1, 1, 1, 1, 0).unwrap();
    let qp1 = IbvQp::new(&mut pd, &mut scq, &mut rcq, 0, 1, 1, 1, 1, 0).unwrap();
    assert_eq!(qp0.qpn(), 0);
    assert_eq!(qp1.qpn(), 1);
}

#[test]
fn connect_sequence_reaches_rts() {
    let mut ctx = open_context();
    let (_pd, _scq, _rcq, mut qp) = make_qp(&mut ctx);
    qp.modify_reset2init(1).unwrap();
    assert_eq!(qp.state, QpState::Init);
    qp.modify_init2rtr(0, 1, 42, 1000, 9).unwrap();
    assert_eq!(qp.state, QpState::Rtr);
    qp.modify_rtr2rts(2000).unwrap();
    assert_eq!(qp.state, QpState::Rts);
}

#[test]
fn rtr_to_rts_before_init_is_modify_failed() {
    let mut ctx = open_context();
    let (_pd, _scq, _rcq, mut qp) = make_qp(&mut ctx);
    assert_eq!(qp.modify_rtr2rts(2000).unwrap_err(), IbvError::ModifyFailed);
    assert_eq!(qp.state, QpState::Reset);
}

#[test]
fn init_to_rtr_before_init_is_modify_failed() {
    let mut ctx = open_context();
    let (_pd, _scq, _rcq, mut qp) = make_qp(&mut ctx);
    assert_eq!(qp.modify_init2rtr(0, 1, 42, 1000, 9).unwrap_err(), IbvError::ModifyFailed);
}

#[test]
fn repeated_transition_is_rejected() {
    let mut ctx = open_context();
    let (_pd, _scq, _rcq, mut qp) = make_qp(&mut ctx);
    qp.modify_reset2init(1).unwrap();
    assert_eq!(qp.modify_reset2init(1).unwrap_err(), IbvError::ModifyFailed);
    qp.modify_init2rtr(0, 1, 42, 1000, 9).unwrap();
    assert_eq!(qp.modify_init2rtr(0, 1, 42, 1000, 9).unwrap_err(), IbvError::ModifyFailed);
}

#[test]
fn reset_to_init_applies_fixed_parameters() {
    let mut ctx = open_context();
    let (_pd, _scq, _rcq, mut qp) = make_qp(&mut ctx);
    qp.modify_reset2init(1).unwrap();
    assert_eq!(qp.pkey_index, 0);
    assert_eq!(qp.port_num, 1);
    // LOCAL_WRITE | REMOTE_READ | REMOTE_WRITE
    assert_eq!(qp.qp_access_flags, 7);
}

#[test]
fn init_to_rtr_applies_remote_endpoint_and_fixed_parameters() {
    let mut ctx = open_context();
    let (_pd, _scq, _rcq, mut qp) = make_qp(&mut ctx);
    qp.modify_reset2init(1).unwrap();
    qp.modify_init2rtr(3, 1, 42, 1000, 9).unwrap();
    assert_eq!(qp.path_mtu, IBV_MTU_1024);
    assert_eq!(qp.dest_qp_num, 42);
    assert_eq!(qp.rq_psn, 1000);
    assert_eq!(qp.max_dest_rd_atomic, 1);
    assert_eq!(qp.min_rnr_timer, 12);
    assert_eq!(qp.ah.dlid, 9);
    assert_eq!(qp.ah.sl, 3);
    assert_eq!(qp.ah.is_global, 0);
    assert_eq!(qp.ah.port_num, 1);
}

#[test]
fn rtr_to_rts_applies_fixed_parameters() {
    let mut ctx = open_context();
    let (_pd, _scq, _rcq, mut qp) = make_qp(&mut ctx);
    qp.modify_reset2init(1).unwrap();
    qp.modify_init2rtr(0, 1, 42, 1000, 9).unwrap();
    qp.modify_rtr2rts(2000).unwrap();
    assert_eq!(qp.timeout, 14);
    assert_eq!(qp.retry_cnt, 7);
    assert_eq!(qp.rnr_retry, 7);
    assert_eq!(qp.sq_psn, 2000);
    assert_eq!(qp.max_rd_atomic, 1);
}

#[test]
fn modify_with_wrong_mask_is_rejected() {
    let mut ctx = open_context();
    let (_pd, _scq, _rcq, mut qp) = make_qp(&mut ctx);
    let mut attr = IbvQpAttr::default();
    attr.qp_state = rdma_rs::ibv::IBV_QPS_INIT;
    // an incomplete mask: the access-flags bit is missing
    let incomplete = RESET2INIT_MASK & !rdma_rs::ibv::IBV_QP_ACCESS_FLAGS;
    assert_eq!(qp.modify(&attr, incomplete).unwrap_err(), IbvError::ModifyFailed);
    assert_eq!(qp.state, QpState::Reset);
}

#[test]
fn modify_back_to_reset_allows_reconnect() {
    let mut ctx = open_context();
    let (_pd, _scq, _rcq, mut qp) = make_qp(&mut ctx);
    qp.modify_reset2init(1).unwrap();
    qp.modify_init2rtr(0, 1, 42, 1000, 9).unwrap();
    let mut attr = IbvQpAttr::default();
    attr.qp_state = IBV_QPS_RESET;
    qp.modify(&attr, IBV_QP_STATE).unwrap();
    assert_eq!(qp.state, QpState::Reset);
    qp.modify_reset2init(1).unwrap();
    assert_eq!(qp.state, QpState::Init);
}

#[test]
fn query_reports_state_and_capacities() {
    let mut ctx = open_context();
    let (_pd, _scq, _rcq, mut qp) = make_qp(&mut ctx);
    qp.modify_reset2init(1).unwrap();
    qp.modify_init2rtr(0, 1, 42, 1000, 9).unwrap();
    qp.modify_rtr2rts(2000).unwrap();
    let (attr, init_attr) = qp.query(IBV_QP_STATE).unwrap();
    assert_eq!(attr.qp_state, IBV_QPS_RTS);
    assert_eq!(attr.dest_qp_num, 42);
    assert_eq!(attr.cap.max_send_wr, 8);
    assert_eq!(init_attr.qp_type, IBV_QPT_RC);
}

#[test]
fn query_reports_reset_on_a_fresh_pair() {
    let mut ctx = open_context();
    let (_pd, _scq, _rcq, qp) = make_qp(&mut ctx);
    let (attr, _init_attr) = qp.query(IBV_QP_STATE).unwrap();
    assert_eq!(attr.qp_state, IBV_QPS_RESET);
    assert_eq!(attr.cur_qp_state, IBV_QPS_RESET);
}

#[test]
fn with_attr_requires_both_completion_queues() {
    let mut ctx = open_context();
    let mut pd = IbvPd::new(&mut ctx).unwrap();
    let mut scq = IbvCq::new(&mut ctx, 16, 0).unwrap();
    let mut rcq = IbvCq::new(&mut ctx, 16, 0).unwrap();
    let mut attr = IbvQpInitAttr::default();
    attr.set_qp_type(IBV_QPT_RC);
    attr.set_max_send_wr(4);
    let r = IbvQp::with_attr(&mut pd, &mut scq, &mut rcq, &attr);
    assert_eq!(r.unwrap_err(), IbvError::AllocFailed);
    attr.set_send_cq(&scq);
    attr.set_recv_cq(&rcq);
    let qp = IbvQp::with_attr(&mut pd, &mut scq, &mut rcq, &attr).unwrap();
    assert_eq!(qp.state, QpState::Reset);
    assert_eq!(qp.qp_type, IBV_QPT_RC);
    assert_eq!(qp.cap.max_send_wr, 4);
}
