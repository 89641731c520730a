//! Device capability flags, as reported in the capability record's
//! `device_cap_flags` field.

use vstd::prelude::*;

verus! {

pub const IBV_DEVICE_RESIZE_MAX_WR: u32 = 1;
pub const IBV_DEVICE_BAD_PKEY_CNTR: u32 = 2;
pub const IBV_DEVICE_BAD_QKEY_CNTR: u32 = 4;
pub const IBV_DEVICE_RAW_MULTI: u32 = 8;
pub const IBV_DEVICE_AUTO_PATH_MIG: u32 = 16;
pub const IBV_DEVICE_CHANGE_PHY_PORT: u32 = 32;
pub const IBV_DEVICE_UD_AV_PORT_ENFORCE: u32 = 64;
pub const IBV_DEVICE_CURR_QP_STATE_MOD: u32 = 128;
pub const IBV_DEVICE_SHUTDOWN_PORT: u32 = 256;
pub const IBV_DEVICE_INIT_TYPE: u32 = 512;
pub const IBV_DEVICE_PORT_ACTIVE_EVENT: u32 = 1024;
pub const IBV_DEVICE_SYS_IMAGE_GUID: u32 = 2048;
pub const IBV_DEVICE_RC_RNR_NAK_GEN: u32 = 4096;
pub const IBV_DEVICE_SRQ_RESIZE: u32 = 8192;
pub const IBV_DEVICE_N_NOTIFY_CQ: u32 = 16384;
pub const IBV_DEVICE_MEM_WINDOW: u32 = 131072;
pub const IBV_DEVICE_UD_IP_CSUM: u32 = 262144;
pub const IBV_DEVICE_XRC: u32 = 1048576;
pub const IBV_DEVICE_MEM_MGT_EXTENSIONS: u32 = 2097152;
pub const IBV_DEVICE_MEM_WINDOW_TYPE_2A: u32 = 8388608;
pub const IBV_DEVICE_MEM_WINDOW_TYPE_2B: u32 = 16777216;
pub const IBV_DEVICE_RC_IP_CSUM: u32 = 33554432;
pub const IBV_DEVICE_RAW_IP_CSUM: u32 = 67108864;
pub const IBV_DEVICE_MANAGED_FLOW_STEERING: u32 = 536870912;

} // verus!
