//! The crate-level laws: what the resource model and the connection
//! state machine guarantee, stated once over the specification functions
//! that the operations' own contracts use.

use vstd::prelude::*;

use crate::ibv::{
    spec_chan_destroy_ok,
    spec_cq_destroy_ok,
    spec_ctx_close_ok,
    spec_make_sge_ok,
    spec_modify_ok,
    spec_mr_after_dereg,
    spec_pd_dealloc_ok,
    spec_qp_after_init2rtr,
    spec_qp_after_reset2init,
    spec_qp_after_rtr2rts,
    IbvCompChannel,
    IbvContext,
    IbvCq,
    IbvMr,
    IbvPd,
    IbvQp,
    IbvQpAttr,
    QpState,
    IBV_QPS_INIT,
    IBV_QPS_RTR,
    IBV_QPS_RTS,
    INIT2RTR_MASK,
    RESET2INIT_MASK,
    RTR2RTS_MASK,
};

verus! {

/// Driving a pair from RESET through INIT and RTR in order always ends
/// at RTS: each step is taken from exactly the state the previous step
/// established, so the whole sequence is accepted and the final state is
/// RTS.
pub proof fn lemma_connect_in_order_reaches_rts(
    qp: IbvQp,
    port_num: u8,
    sl: u8,
    remote_port: u8,
    remote_qpn: u32,
    remote_psn: u32,
    remote_lid: u16,
    psn: u32,
)
    requires
        qp.state == QpState::Reset,
    ensures
        spec_qp_after_reset2init(qp, port_num).state == QpState::Init,
        spec_qp_after_init2rtr(
            spec_qp_after_reset2init(qp, port_num),
            sl,
            remote_port,
            remote_qpn,
            remote_psn,
            remote_lid,
        ).state == QpState::Rtr,
        spec_qp_after_rtr2rts(
            spec_qp_after_init2rtr(
                spec_qp_after_reset2init(qp, port_num),
                sl,
                remote_port,
                remote_qpn,
                remote_psn,
                remote_lid,
            ),
            psn,
        ).state == QpState::Rts,
{
}

/// A connection step is accepted only from its exact source state: a
/// transition attempted out of order — skipped, repeated or reversed —
/// is rejected by the driver.
pub proof fn lemma_out_of_order_transition_rejected(qp: IbvQp, attr: IbvQpAttr, mask: u32)
    ensures
        mask == RESET2INIT_MASK && attr.qp_state == IBV_QPS_INIT && qp.state != QpState::Reset
            ==> !spec_modify_ok(qp, attr, mask),
        mask == INIT2RTR_MASK && attr.qp_state == IBV_QPS_RTR && qp.state != QpState::Init
            ==> !spec_modify_ok(qp, attr, mask),
        mask == RTR2RTS_MASK && attr.qp_state == IBV_QPS_RTS && qp.state != QpState::Rtr
            ==> !spec_modify_ok(qp, attr, mask),
        spec_modify_ok(qp, attr, mask) && mask == RESET2INIT_MASK && attr.qp_state == IBV_QPS_INIT
            ==> qp.state == QpState::Reset,
        spec_modify_ok(qp, attr, mask) && mask == INIT2RTR_MASK && attr.qp_state == IBV_QPS_RTR
            ==> qp.state == QpState::Init,
        spec_modify_ok(qp, attr, mask) && mask == RTR2RTS_MASK && attr.qp_state == IBV_QPS_RTS
            ==> qp.state == QpState::Rtr,
{
}

/// Once a region is deregistered its keys are invalid: no scatter-gather
/// entry, over any range, can be built from it any more.
pub proof fn lemma_dereg_invalidates_keys(mr: IbvMr, offset: u64, length: u32)
    ensures
        !spec_make_sge_ok(spec_mr_after_dereg(mr), offset, length),
{
}

/// Destroying a family of objects in reverse-dependency order always
/// succeeds: with the region and the pair gone the domain's destroy
/// check passes, with the pair gone the queues' checks pass, and with
/// domain and queues gone the context's close check passes.
pub proof fn lemma_reverse_order_destroy_succeeds(
    ctx: IbvContext,
    pd: IbvPd,
    send_cq: IbvCq,
    recv_cq: IbvCq,
)
    requires
        pd.mr_count == 1,
        pd.qp_count == 1,
        send_cq.qp_count == 1,
        recv_cq.qp_count == 1,
        ctx.pd_count == 1,
        ctx.cq_count == 2,
        ctx.chan_count == 0,
    ensures
        spec_pd_dealloc_ok(IbvPd { mr_count: 0, qp_count: 0, ..pd }),
        spec_cq_destroy_ok(IbvCq { qp_count: 0, ..send_cq }),
        spec_cq_destroy_ok(IbvCq { qp_count: 0, ..recv_cq }),
        spec_ctx_close_ok(IbvContext { pd_count: 0, cq_count: 0, ..ctx }),
{
}

/// Destroying an object while something still depends on it is
/// rejected: a domain with a live region or pair, a queue or channel
/// still referenced, a context with any live child.
pub proof fn lemma_destroy_with_live_dependents_rejected(
    ctx: IbvContext,
    pd: IbvPd,
    cq: IbvCq,
    chan: IbvCompChannel,
)
    ensures
        pd.mr_count > 0 ==> !spec_pd_dealloc_ok(pd),
        pd.qp_count > 0 ==> !spec_pd_dealloc_ok(pd),
        cq.qp_count > 0 ==> !spec_cq_destroy_ok(cq),
        chan.cq_count > 0 ==> !spec_chan_destroy_ok(chan),
        ctx.pd_count > 0 || ctx.cq_count > 0 || ctx.chan_count > 0 ==> !spec_ctx_close_ok(ctx),
{
}

} // verus!
