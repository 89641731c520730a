use rdma_rs::attr::IbvDeviceAttr;
use rdma_rs::error::IbvError;
use rdma_rs::ibv::{IbvContext, IbvCq, IbvDevice, IbvMr, IbvPd, IbvQp};
use rdma_rs::wr::{
    sge_total, wc_opcode_for, IbvSendWr, IbvSge, IbvWc, IBV_WC_RDMA_READ, IBV_WC_RDMA_WRITE, IBV_WC_RECV,
    IBV_WC_SEND, IBV_WC_SUCCESS, IBV_WR_RDMA_READ, IBV_WR_RDMA_WRITE, IBV_WR_SEND,
    IBV_WR_SEND_WITH_IMM,
};

fn open_context() -> IbvContext {
    let dev = IbvDevice {
        name: String::from("mlx5_0"),
        dev_attr: IbvDeviceAttr::default(),
        ports: Vec::new(),
    };
    IbvContext::new(vec![dev], None).unwrap()
}

fn zero_wc() -> IbvWc {
    IbvWc { wr_id: 0, status: 0, opcode: 0, byte_len: 0, qp_num: 0 }
}

/// Sends `n` one-byte requests through a connected pair and completes
/// them, leaving `n` entries pending on the send completion queue.
fn pump_completions(n: u64) -> (IbvContext, IbvPd, IbvCq, IbvCq, IbvQp) {
    let mut ctx = open_context();
    let mut pd = IbvPd::new(&mut ctx).unwrap();
    let mut send_cq = IbvCq::new(&mut ctx, 16, 0).unwrap();
    let mut recv_cq = IbvCq::new(&mut ctx, 16, 0).unwrap();
    let mut qp = IbvQp::new(&mut pd, &mut send_cq, &mut recv_cq, 0, 16, 16, 2, 2, 0).unwrap();
    qp.modify_reset2init(1).unwrap();
    qp.modify_init2rtr(0, 1, 42, 1000, 9).unwrap();
    qp.modify_rtr2rts(2000).unwrap();
    let region = vec![0u8; 64];
    let mut mr = IbvMr::new(&mut pd, &region, 7).unwrap();
    for i in 0..n {
        let sge = mr.make_sge(0, 1).unwrap();
        let wr = IbvSendWr {
            wr_id: i,
            sg_list: vec![sge],
            opcode: IBV_WR_SEND,
            send_flags: 0,
            remote_addr: 0,
            rkey: 0,
        };
        qp.post_send(&wr).unwrap();
        qp.complete_send(&mut send_cq, IBV_WC_SUCCESS);
    }
    mr.dereg(&mut pd).unwrap();
    (ctx, pd, send_cq, recv_cq, qp)
}

#[test]
fn poll_with_small_buffer_returns_buffer_len_and_keeps_rest() {
    let (_ctx, _pd, mut send_cq, _recv_cq, _qp) = pump_completions(10);
    let mut buf = vec![zero_wc(); 4];
    assert_eq!(send_cq.poll(&mut buf).unwrap(), 4);
    assert_eq!(buf[0].wr_id, 0);
    assert_eq!(buf[3].wr_id, 3);
    assert_eq!(send_cq.pending.len(), 6);
    assert_eq!(send_cq.poll(&mut buf).unwrap(), 4);
    assert_eq!(buf[0].wr_id, 4);
    let n = send_cq.poll(&mut buf).unwrap();
    assert_eq!(n, 2);
    assert_eq!(buf[0].wr_id, 8);
    assert_eq!(buf[1].wr_id, 9);
    // entries past the returned count keep their previous contents
    assert_eq!(buf[2].wr_id, 6);
    assert_eq!(send_cq.poll(&mut buf).unwrap(), 0);
}

#[test]
fn poll_never_exceeds_buffer_len() {
    let (_ctx, _pd, mut send_cq, _recv_cq, _qp) = pump_completions(10);
    for len in 0..5usize {
        let mut buf = vec![zero_wc(); len];
        let n = send_cq.poll(&mut buf).unwrap();
        assert!(n <= len);
    }
}

#[test]
fn poll_empty_queue_returns_zero() {
    let mut ctx = open_context();
    let mut cq = IbvCq::new(&mut ctx, 16, 0).unwrap();
    let mut buf = vec![zero_wc(); 8];
    assert_eq!(cq.poll(&mut buf).unwrap(), 0);
}

#[test]
fn completion_reports_request_and_queue_pair() {
    let (_ctx, _pd, mut send_cq, _recv_cq, qp) = pump_completions(1);
    let mut buf = vec![zero_wc(); 1];
    assert_eq!(send_cq.poll(&mut buf).unwrap(), 1);
    assert_eq!(buf[0].wr_id, 0);
    assert_eq!(buf[0].status, IBV_WC_SUCCESS);
    assert_eq!(buf[0].opcode, IBV_WC_SEND);
    assert_eq!(buf[0].byte_len, 1);
    assert_eq!(buf[0].qp_num, qp.qpn());
}

#[test]
fn recv_completion_reports_wire_byte_count() {
    let mut ctx = open_context();
    let mut pd = IbvPd::new(&mut ctx).unwrap();
    let mut send_cq = IbvCq::new(&mut ctx, 16, 0).unwrap();
    let mut recv_cq = IbvCq::new(&mut ctx, 16, 0).unwrap();
    let mut qp = IbvQp::new(&mut pd, &mut send_cq, &mut recv_cq, 0, 16, 16, 2, 2, 0).unwrap();
    qp.modify_reset2init(1).unwrap();
    let region = vec![0u8; 64];
    let mr = IbvMr::new(&mut pd, &region, 7).unwrap();
    let sge = mr.make_sge(0, 64).unwrap();
    let wr = rdma_rs::wr::IbvRecvWr { wr_id: 77, sg_list: vec![sge] };
    qp.post_recv(&wr).unwrap();
    qp.complete_recv(&mut recv_cq, IBV_WC_SUCCESS, 48);
    let mut buf = vec![zero_wc(); 1];
    assert_eq!(recv_cq.poll(&mut buf).unwrap(), 1);
    assert_eq!(buf[0].wr_id, 77);
    assert_eq!(buf[0].opcode, IBV_WC_RECV);
    assert_eq!(buf[0].byte_len, 48);
}

#[test]
fn resize_preserves_pending_entries() {
    let (_ctx, _pd, mut send_cq, _recv_cq, _qp) = pump_completions(10);
    send_cq.resize(32).unwrap();
    assert_eq!(send_cq.capacity, 32);
    assert_eq!(send_cq.pending.len(), 10);
    // shrinking below the pending count would drop entries
    assert_eq!(send_cq.resize(4).unwrap_err(), IbvError::AllocFailed);
    assert_eq!(send_cq.resize(10).unwrap(), ());
    assert_eq!(send_cq.resize(0).unwrap_err(), IbvError::AllocFailed);
    assert_eq!(send_cq.resize(-1).unwrap_err(), IbvError::AllocFailed);
}

#[test]
fn create_cq_with_bad_capacity_fails() {
    let mut ctx = open_context();
    assert_eq!(IbvCq::new(&mut ctx, 0, 0).unwrap_err(), IbvError::AllocFailed);
    assert_eq!(IbvCq::new(&mut ctx, -5, 0).unwrap_err(), IbvError::AllocFailed);
}

#[test]
fn wc_opcode_mapping() {
    assert_eq!(wc_opcode_for(IBV_WR_SEND), IBV_WC_SEND);
    assert_eq!(wc_opcode_for(IBV_WR_SEND_WITH_IMM), IBV_WC_SEND);
    assert_eq!(wc_opcode_for(IBV_WR_RDMA_WRITE), IBV_WC_RDMA_WRITE);
    assert_eq!(wc_opcode_for(IBV_WR_RDMA_READ), IBV_WC_RDMA_READ);
}

#[test]
fn sge_total_adds_lengths() {
    let sges = vec![
        IbvSge { addr: 0, length: 3, lkey: 1 },
        IbvSge { addr: 8, length: 5, lkey: 1 },
    ];
    assert_eq!(sge_total(&sges), Some(8));
    let big = vec![
        IbvSge { addr: 0, length: u32::MAX, lkey: 1 },
        IbvSge { addr: 0, length: 1, lkey: 1 },
    ];
    assert_eq!(sge_total(&big), None);
}
