use rdma_rs::attr::{IbvDeviceAttr, IbvGid, IbvPortAttr};
use rdma_rs::error::{IbvContextError, IbvError};
use rdma_rs::ibv::{IbvContext, IbvDevice, IbvPd, IbvPort};

fn sample_port(lid: u16) -> IbvPort {
    IbvPort {
        attr: IbvPortAttr { lid, ..Default::default() },
        gids: vec![IbvGid { subnet_prefix: 0xfe80, interface_id: 0x1234 }],
        pkeys: vec![0xffff, 0x8001],
    }
}

fn sample_device(name: &str, lid: u16) -> IbvDevice {
    IbvDevice {
        name: String::from(name),
        dev_attr: IbvDeviceAttr { max_qp: 256, phys_port_cnt: 1, ..Default::default() },
        ports: vec![sample_port(lid)],
    }
}

#[test]
fn open_with_no_devices_is_no_device() {
    let r = IbvContext::new(Vec::new(), None);
    assert!(matches!(r, Err(IbvContextError::NoDevice)));
    let r = IbvContext::new(Vec::new(), Some("mlx5_0"));
    assert!(matches!(r, Err(IbvContextError::NoDevice)));
}

#[test]
fn open_named_device_missing_is_open_error() {
    let devices = vec![sample_device("mlx5_0", 3), sample_device("mlx5_1", 4)];
    let r = IbvContext::new(devices, Some("mlx5_9"));
    assert!(matches!(r, Err(IbvContextError::OpenDeviceError)));
}

#[test]
fn open_named_device_found() {
    let devices = vec![sample_device("mlx5_0", 3), sample_device("mlx5_1", 4)];
    let ctx = IbvContext::new(devices, Some("mlx5_1")).unwrap();
    assert_eq!(ctx.dev_name, "mlx5_1");
    assert_eq!(ctx.get_lid(1).unwrap(), 4);
}

#[test]
fn open_default_takes_first_device() {
    let devices = vec![sample_device("mlx5_0", 3), sample_device("mlx5_1", 4)];
    let ctx = IbvContext::new(devices, None).unwrap();
    assert_eq!(ctx.dev_name, "mlx5_0");
    assert_eq!(ctx.get_lid(1).unwrap(), 3);
}

#[test]
fn open_duplicate_name_takes_first_match() {
    let devices = vec![
        sample_device("mlx5_0", 3),
        sample_device("mlx5_1", 4),
        sample_device("mlx5_1", 5),
    ];
    let ctx = IbvContext::new(devices, Some("mlx5_1")).unwrap();
    assert_eq!(ctx.get_lid(1).unwrap(), 4);
}

#[test]
fn query_device_returns_capability_record() {
    let ctx = IbvContext::new(vec![sample_device("mlx5_0", 3)], None).unwrap();
    let attr = ctx.query_device().unwrap();
    assert_eq!(attr.max_qp(), 256);
    assert_eq!(attr.phys_port_cnt(), 1);
}

#[test]
fn query_port_out_of_range_fails() {
    let ctx = IbvContext::new(vec![sample_device("mlx5_0", 3)], None).unwrap();
    assert_eq!(ctx.query_port(1).unwrap().lid(), 3);
    assert_eq!(ctx.query_port(0).unwrap_err(), IbvError::QueryFailed);
    assert_eq!(ctx.query_port(2).unwrap_err(), IbvError::QueryFailed);
}

#[test]
fn query_gid_and_pkey_by_index() {
    let ctx = IbvContext::new(vec![sample_device("mlx5_0", 3)], None).unwrap();
    let gid = ctx.query_gid(1, 0).unwrap();
    assert_eq!(gid.subnet_prefix(), 0xfe80);
    assert_eq!(gid.interface_id(), 0x1234);
    assert_eq!(ctx.query_gid(1, 1).unwrap_err(), IbvError::QueryFailed);
    assert_eq!(ctx.query_gid(1, -1).unwrap_err(), IbvError::QueryFailed);
    assert_eq!(ctx.query_pkey(1, 0).unwrap(), 0xffff);
    assert_eq!(ctx.query_pkey(1, 1).unwrap(), 0x8001);
    assert_eq!(ctx.query_pkey(1, 2).unwrap_err(), IbvError::QueryFailed);
}

#[test]
fn close_with_live_domain_fails_then_succeeds() {
    let mut ctx = IbvContext::new(vec![sample_device("mlx5_0", 3)], None).unwrap();
    let mut pd = IbvPd::new(&mut ctx).unwrap();
    assert_eq!(ctx.close().unwrap_err(), IbvError::DestroyFailed);
    pd.dealloc(&mut ctx).unwrap();
    ctx.close().unwrap();
    assert!(!ctx.is_open);
}
