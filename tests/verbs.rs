use rrddmma::bindings::{
    ibv_gid_global_t, ibv_wc, IBV_MTU_1024, IBV_MTU_2048, IBV_MTU_256, IBV_MTU_4096, IBV_MTU_512,
    IBV_PORT_ACTIVE, IBV_SEND_SIGNALED, IBV_WC_SUCCESS, IBV_WC_WITH_IMM, IBV_WR_RDMA_READ,
    IBV_WR_RDMA_WRITE, IBV_WR_RDMA_WRITE_WITH_IMM, IBV_WR_SEND, IBV_WR_SEND_WITH_IMM,
};
use rrddmma::context::{
    check_port_num, mtu_of_code, Context, DeviceInfo, Gid, OpenError, PortAttr, PortInfo,
};
use rrddmma::cq::{PollAction, PollError, Wc};
use rrddmma::mr::{build_sgl, Mr, RemoteMr, Sge};
use rrddmma::qp::{PostError, Qp, QpType};
use rrddmma::wr::{QpPeer, RecvWr, SendWr, SendWrDetails, WrTarget};

const PORT_DOWN: u32 = 1;

fn port(state: u32, lid: u16, mtu: u32, ngids: u64) -> PortInfo {
    let mut gids = Vec::new();
    for i in 0..ngids {
        gids.push(Gid { subnet_prefix: 0xfe80_0000_0000_0000, interface_id: 100 + i });
    }
    PortInfo { attr: PortAttr { state, lid, active_mtu: mtu }, gids }
}

fn device(name: &str, ports: Vec<PortInfo>) -> DeviceInfo {
    DeviceInfo { name: name.to_string(), ports }
}

fn two_devices() -> Vec<DeviceInfo> {
    vec![
        device(
            "mlx5_0",
            vec![port(IBV_PORT_ACTIVE, 1, IBV_MTU_4096, 4), port(PORT_DOWN, 2, IBV_MTU_1024, 4)],
        ),
        device(
            "mlx5_1",
            vec![port(IBV_PORT_ACTIVE, 3, IBV_MTU_2048, 2), port(IBV_PORT_ACTIVE, 4, IBV_MTU_512, 2)],
        ),
    ]
}

fn raw_wc(wr_id: u64, status: u32, flags: u32, imm: u32) -> ibv_wc {
    ibv_wc {
        wr_id,
        status,
        opcode: 1,
        vendor_err: 0,
        byte_len: 8,
        imm_data: imm,
        qp_num: 7,
        src_qp: 9,
        wc_flags: flags,
        pkey_index: 0,
        slid: 5,
        sl: 0,
        dlid_path_bits: 0,
    }
}

#[test]
fn slice_sge_exposes_range_and_key() {
    let mr = Mr::from_raw_parts(0x1000, 4096, 11, 22);
    let s = mr.get(100, 200).unwrap();
    assert_eq!(s.sge(), Sge { addr: 0x1000 + 100, length: 200, lkey: 11 });
    let whole = mr.as_slice().unwrap();
    assert_eq!(whole.sge(), Sge { addr: 0x1000, length: 4096, lkey: 11 });
    let last = mr.get(4095, 1).unwrap();
    assert_eq!(last.sge().addr, 0x1000 + 4095);
    let empty = mr.get(4096, 0).unwrap();
    assert_eq!(empty.sge().length, 0);
}

#[test]
fn slice_out_of_region_is_refused() {
    let mr = Mr::from_raw_parts(0x1000, 4096, 11, 22);
    assert!(mr.get(4000, 97).is_none());
    assert!(mr.get(4097, 0).is_none());
    assert!(mr.get(0, 4097).is_none());
    let remote = RemoteMr::from_raw_parts(0x8000, 64, 5);
    assert!(remote.get(60, 5).is_none());
    assert!(remote.get(60, 4).is_some());
    // A remote view is not a scatter-gather entry: only the region bounds it.
    let big = RemoteMr::from_raw_parts(0, 1usize << 33, 5);
    assert_eq!(big.get(0, 1usize << 33).map(|s| s.len), Some(1usize << 33));
    assert!(big.get(1, 1usize << 33).is_none());
}

#[test]
fn sgl_follows_slices_in_order() {
    let mr = Mr::from_raw_parts(0, 1024, 3, 4);
    let slices = vec![mr.get(0, 8).unwrap(), mr.get(512, 16).unwrap()];
    let sgl = build_sgl(&slices);
    assert_eq!(
        sgl,
        vec![Sge { addr: 0, length: 8, lkey: 3 }, Sge { addr: 512, length: 16, lkey: 3 }]
    );
}

#[test]
fn immediate_selects_opcode_for_send_and_write() {
    let mr = Mr::from_raw_parts(0x1000, 4096, 11, 22);
    let local = vec![mr.get(0, 8).unwrap()];
    let remote = RemoteMr::from_raw_parts(0x9000, 4096, 77).as_slice();

    let send = SendWr::new(&local, 1, true, SendWrDetails::Send(None));
    let d = send.to_wr();
    assert_eq!(d.opcode, IBV_WR_SEND);
    assert_eq!(d.imm_data, 0);
    assert_eq!(d.send_flags, IBV_SEND_SIGNALED);
    assert_eq!(d.wr, WrTarget::Plain);

    let send_imm = SendWr::new(&local, 2, false, SendWrDetails::Send(Some(0xabcd)));
    let d = send_imm.to_wr();
    assert_eq!(d.opcode, IBV_WR_SEND_WITH_IMM);
    assert_eq!(d.imm_data, 0xabcd);
    assert_eq!(d.send_flags, 0);

    let write = SendWr::new(&local, 3, true, SendWrDetails::Write(&remote, None));
    let d = write.to_wr();
    assert_eq!(d.opcode, IBV_WR_RDMA_WRITE);
    match d.wr {
        WrTarget::Rdma(t) => {
            assert_eq!(t.remote_addr, 0x9000);
            assert_eq!(t.rkey, 77);
        }
        _ => panic!("write must carry a remote target"),
    }

    let write_imm = SendWr::new(&local, 4, true, SendWrDetails::Write(&remote, Some(9)));
    let d = write_imm.to_wr();
    assert_eq!(d.opcode, IBV_WR_RDMA_WRITE_WITH_IMM);
    assert_eq!(d.imm_data, 9);
}

#[test]
fn read_and_datagram_descriptors() {
    let mr = Mr::from_raw_parts(0x1000, 4096, 11, 22);
    let local = vec![mr.get(0, 8).unwrap(), mr.get(8, 8).unwrap()];
    let remote = RemoteMr::from_raw_parts(0x9000, 4096, 77).get(16, 16).unwrap();
    let read = SendWr::new(&local, 5, true, SendWrDetails::Read(&remote));
    let d = read.to_wr();
    assert_eq!(d.opcode, IBV_WR_RDMA_READ);
    assert_eq!(d.num_sge, 2);
    assert_eq!(d.sg_list[1], Sge { addr: 0x1008, length: 8, lkey: 11 });
    assert_eq!(d.wr_id, 5);
    match d.wr {
        WrTarget::Rdma(t) => assert_eq!(t.remote_addr, 0x9010),
        _ => panic!("read must carry a remote target"),
    }

    let peer = QpPeer { ah: 1, qpn: 0x42, qkey: 0x1111 };
    let ud = SendWr::new(&local, 6, false, SendWrDetails::SendTo(peer, Some(3)));
    let d = ud.to_wr();
    assert_eq!(d.opcode, IBV_WR_SEND_WITH_IMM);
    assert_eq!(d.wr, WrTarget::Ud(peer));
}

#[test]
fn recv_descriptor_borrows_list() {
    let mr = Mr::from_raw_parts(0x2000, 128, 1, 2);
    let local = vec![mr.get(0, 64).unwrap()];
    let recv = RecvWr::new(&local, 99, true);
    let d = recv.to_wr();
    assert_eq!(d.wr_id, 99);
    assert_eq!(d.num_sge, 1);
    assert_eq!(d.sg_list[0], Sge { addr: 0x2000, length: 64, lkey: 1 });
    let none = RecvWr::new(&[], 100, false);
    assert_eq!(none.to_wr().num_sge, 0);
}

#[test]
fn completions_keep_posting_order() {
    let devs = two_devices();
    let ctx = Context::open(&devs, None, 1, 0).unwrap();
    let cq = ctx.create_cq(16);
    let raw: Vec<ibv_wc> = (0..5).map(|i| raw_wc(1000 + i, IBV_WC_SUCCESS, 0, 0)).collect();
    let got = cq.poll_result(&raw, 5).unwrap();
    let ids: Vec<u64> = got.iter().map(|w| w.wr_id).collect();
    assert_eq!(ids, vec![1000, 1001, 1002, 1003, 1004]);

    let mut poll = cq.poll_blocking(5);
    assert_eq!(poll.start(), PollAction::Poll(5));
    assert_eq!(poll.step(cq.poll_result(&raw[..2], 2)), PollAction::Poll(3));
    assert_eq!(poll.step(cq.poll_result(&raw[2..], 0)), PollAction::Poll(3));
    assert_eq!(poll.step(cq.poll_result(&raw[2..], 3)), PollAction::Done);
    let ids: Vec<u64> = poll.into_completions().iter().map(|w| w.wr_id).collect();
    assert_eq!(ids, vec![1000, 1001, 1002, 1003, 1004]);
}

#[test]
fn empty_poll_is_not_an_error() {
    let devs = two_devices();
    let ctx = Context::open(&devs, None, 1, 0).unwrap();
    let cq = ctx.create_cq(16);
    let raw = vec![raw_wc(0, IBV_WC_SUCCESS, 0, 0); 4];
    assert_eq!(cq.poll_result(&raw, 0), Ok(vec![]));
    assert_eq!(cq.poll_result(&raw, -22), Err(PollError::Device(-22)));
}

#[test]
fn completion_immediate_follows_flags() {
    let with = Wc::from_raw(&raw_wc(1, IBV_WC_SUCCESS, IBV_WC_WITH_IMM, 0x55));
    assert_eq!(with.imm, Some(0x55));
    assert!(with.ok());
    let without = Wc::from_raw(&raw_wc(1, 5, 0, 0x55));
    assert_eq!(without.imm, None);
    assert!(!without.ok());
    assert_eq!(raw_wc(1, 0, 0, 0x66).imm(), 0x66);
}

#[test]
fn nocqe_poll_fails_on_bad_status() {
    let devs = two_devices();
    let ctx = Context::open(&devs, None, 1, 0).unwrap();
    let cq = ctx.create_cq(4);
    let mut poll = cq.poll_nocqe_blocking(3);
    assert_eq!(poll.start(), PollAction::Poll(3));
    let ok = vec![raw_wc(1, IBV_WC_SUCCESS, 0, 0)];
    assert_eq!(poll.step(cq.poll_result(&ok, 1)), PollAction::Poll(2));
    assert_eq!(poll.step(cq.poll_result(&ok, 0)), PollAction::Poll(2));
    let bad = vec![raw_wc(2, IBV_WC_SUCCESS, 0, 0), raw_wc(3, 12, 0, 0)];
    assert_eq!(
        poll.step(cq.poll_result(&bad, 2)),
        PollAction::Fail(PollError::Failed { wr_id: 3, status: 12 })
    );
    assert_eq!(poll.seen, 1);
    let mut again = cq.poll_nocqe_blocking(1);
    assert_eq!(again.step(Err(PollError::Device(-5))), PollAction::Fail(PollError::Device(-5)));
}

#[test]
fn mtu_maps_all_five_codes() {
    let codes = [IBV_MTU_256, IBV_MTU_512, IBV_MTU_1024, IBV_MTU_2048, IBV_MTU_4096];
    let sizes = [256usize, 512, 1024, 2048, 4096];
    for (code, size) in codes.iter().zip(sizes.iter()) {
        let devs = vec![device("dev", vec![port(IBV_PORT_ACTIVE, 1, *code, 1)])];
        let ctx = Context::open(&devs, Some("dev"), 1, 0).unwrap();
        assert_eq!(ctx.mtu(), *size);
        assert_eq!(ctx.mtu_raw(), *code);
        assert_eq!(mtu_of_code(*code), Some(*size));
    }
    assert_eq!(mtu_of_code(0), None);
    assert_eq!(mtu_of_code(6), None);
    let devs = vec![device("dev", vec![port(IBV_PORT_ACTIVE, 1, 9, 1)])];
    assert_eq!(Context::open(&devs, Some("dev"), 1, 0), Err(OpenError::UnknownMtu(9)));
}

#[test]
fn port_zero_is_refused() {
    assert_eq!(check_port_num(0), Err(OpenError::ZeroPort));
    assert_eq!(check_port_num(1), Ok(()));
    let devs = two_devices();
    assert_eq!(Context::open(&devs, None, 0, 0), Err(OpenError::ZeroPort));
    assert_eq!(Context::open(&devs, Some("mlx5_0"), 0, 0), Err(OpenError::ZeroPort));
    assert_eq!(Context::open(&[], Some("none"), 0, 0), Err(OpenError::ZeroPort));
}

#[test]
fn missing_device_differs_from_inactive_port() {
    let devs = two_devices();
    assert_eq!(Context::open(&devs, Some("mlx4_0"), 1, 0), Err(OpenError::DeviceNotFound));
    assert_eq!(Context::open(&devs, Some("mlx5_0"), 2, 0), Err(OpenError::PortNotActive(2)));
    assert_eq!(Context::open(&devs, Some("mlx5_0"), 3, 0), Err(OpenError::InvalidPort(3)));
}

#[test]
fn named_device_opens_given_port() {
    let devs = two_devices();
    let ctx = Context::open(&devs, Some("mlx5_1"), 2, 5).unwrap();
    assert_eq!(ctx.as_raw(), 1);
    assert_eq!(ctx.port_num(), 2);
    assert_eq!(ctx.lid(), 4);
    assert_eq!(ctx.gid_index(), 5);
    // two GIDs in the table: index 5 wraps to slot 1
    assert_eq!(ctx.gid().interface_id, 101);
    assert_eq!(ctx.mtu(), 512);
}

#[test]
fn nth_active_port_over_all_devices() {
    let devs = two_devices();
    let first = Context::open(&devs, None, 1, 0).unwrap();
    assert_eq!((first.as_raw(), first.port_num(), first.lid()), (0, 1, 1));
    let second = Context::open(&devs, None, 2, 0).unwrap();
    assert_eq!((second.as_raw(), second.port_num(), second.lid()), (1, 1, 3));
    let third = Context::open(&devs, None, 3, 0).unwrap();
    assert_eq!((third.as_raw(), third.port_num(), third.lid()), (1, 2, 4));
    assert_eq!(Context::open(&devs, None, 4, 0), Err(OpenError::NotEnoughActivePorts));
    assert_eq!(Context::open(&[], None, 1, 0), Err(OpenError::NotEnoughActivePorts));
}

#[test]
fn empty_gid_table_is_refused() {
    let devs = vec![device("dev", vec![port(IBV_PORT_ACTIVE, 1, IBV_MTU_1024, 0)])];
    assert_eq!(Context::open(&devs, Some("dev"), 1, 0), Err(OpenError::NoGid));
}

#[test]
fn factories_keep_the_context() {
    let devs = two_devices();
    let ctx = Context::open(&devs, None, 2, 1).unwrap();
    assert_eq!(ctx.alloc_pd().ctx, ctx);
    let cq = ctx.create_cq(64);
    assert_eq!(cq.ctx, ctx);
    assert_eq!(cq.capacity, 64);
    let g = Gid::from_global(ibv_gid_global_t { subnet_prefix: 1, interface_id: 2 });
    assert_eq!(g, Gid { subnet_prefix: 1, interface_id: 2 });
}

#[test]
fn write_eight_bytes_then_poll_one_completion() {
    // Two nodes, each on port 1 with a 4096-byte registered buffer.
    let node_a = vec![device("mlx5_0", vec![port(IBV_PORT_ACTIVE, 1, IBV_MTU_4096, 1)])];
    let node_b = vec![device("mlx5_0", vec![port(IBV_PORT_ACTIVE, 2, IBV_MTU_4096, 1)])];
    let ctx_a = Context::open(&node_a, Some("mlx5_0"), 1, 0).unwrap();
    let ctx_b = Context::open(&node_b, Some("mlx5_0"), 1, 0).unwrap();
    assert_eq!(ctx_b.lid(), 2);
    let mr_a = Mr::from_raw_parts(0x10_000, 4096, 0xa1, 0xa2);
    let mr_b = Mr::from_raw_parts(0x20_000, 4096, 0xb1, 0xb2);
    // What B sends A out of band.
    let rem_b = RemoteMr::from_raw_parts(mr_b.addr, mr_b.len, mr_b.rkey);

    let local = vec![mr_a.get(0, 8).unwrap()];
    let target = rem_b.get(0, 8).unwrap();
    let scq = ctx_a.create_cq(64);
    let qp = Qp { ctx: ctx_a, qp_type: QpType::RC, qp_num: 0x10, scq, rcq: ctx_a.create_cq(64) };
    let wrs = vec![qp.write(&local, &target, 42, None, true)];
    let descs = qp.post_send(&wrs).unwrap();
    assert_eq!(descs.len(), 1);
    assert_eq!(qp.post_result(0), Ok(()));
    let d = &descs[0];
    assert_eq!(d.opcode, IBV_WR_RDMA_WRITE);
    assert_eq!(d.send_flags, IBV_SEND_SIGNALED);
    assert_eq!(d.sg_list[0], Sge { addr: 0x10_000, length: 8, lkey: 0xa1 });
    match d.wr {
        WrTarget::Rdma(t) => {
            assert_eq!(t.remote_addr, 0x20_000);
            assert_eq!(t.rkey, 0xb2);
        }
        _ => panic!("write must carry a remote target"),
    }

    // A's send queue reports the write's completion.
    let scq = qp.scq();
    let mut poll = scq.poll_blocking(1);
    assert_eq!(poll.start(), PollAction::Poll(1));
    let records = vec![raw_wc(42, IBV_WC_SUCCESS, 0, 0)];
    assert_eq!(poll.step(scq.poll_result(&records, 0)), PollAction::Poll(1));
    assert_eq!(poll.step(scq.poll_result(&records, 1)), PollAction::Done);
    let got = poll.into_completions();
    assert_eq!(got.len(), 1);
    assert!(got[0].ok());
    assert_eq!(got[0].wr_id, 42);
}

fn rc_and_ud(ctx: Context) -> (Qp, Qp) {
    let cq = ctx.create_cq(32);
    (
        Qp { ctx, qp_type: QpType::RC, qp_num: 1, scq: cq, rcq: cq },
        Qp { ctx, qp_type: QpType::UD, qp_num: 2, scq: cq, rcq: ctx.create_cq(8) },
    )
}

#[test]
fn batch_descriptors_keep_submission_order() {
    let devs = two_devices();
    let ctx = Context::open(&devs, None, 1, 0).unwrap();
    let (rc, _) = rc_and_ud(ctx);
    let mr = Mr::from_raw_parts(0x1000, 4096, 11, 22);
    let local = vec![mr.get(0, 8).unwrap()];
    let remote = RemoteMr::from_raw_parts(0x9000, 4096, 77).as_slice();
    let wrs = vec![
        rc.write(&local, &remote, 1, Some(5), false),
        rc.read(&local, &remote, 2, false),
        rc.send(&local, 3, None, true),
    ];
    let descs = rc.post_send(&wrs).unwrap();
    let ids: Vec<u64> = descs.iter().map(|d| d.wr_id).collect();
    assert_eq!(ids, vec![1, 2, 3]);
    let ops: Vec<u32> = descs.iter().map(|d| d.opcode).collect();
    assert_eq!(ops, vec![IBV_WR_RDMA_WRITE_WITH_IMM, IBV_WR_RDMA_READ, IBV_WR_SEND]);
    assert_eq!(descs[2].send_flags, IBV_SEND_SIGNALED);

    let recvs = vec![RecvWr::new(&local, 7, true), RecvWr::new(&local, 8, true)];
    let rdescs = rc.post_recv(&recvs);
    assert_eq!(rdescs.len(), 2);
    assert_eq!(rdescs[1].wr_id, 8);
}

#[test]
fn transport_decides_which_requests_fit() {
    let devs = two_devices();
    let ctx = Context::open(&devs, None, 1, 0).unwrap();
    let (rc, ud) = rc_and_ud(ctx);
    assert_eq!(rc.scq(), ctx.create_cq(32));
    assert_eq!(ud.rcq().capacity, 8);
    let mr = Mr::from_raw_parts(0x1000, 4096, 11, 22);
    let local = vec![mr.get(0, 8).unwrap()];
    let peer = QpPeer { ah: 3, qpn: 0x99, qkey: 0x11 };

    let to_peer = vec![ud.send_to(&local, &peer, 1, None, true)];
    let descs = ud.post_send(&to_peer).unwrap();
    assert_eq!(descs[0].wr, WrTarget::Ud(peer));
    assert_eq!(rc.post_send(&to_peer).err(), Some(PostError::Transport(0)));

    let mixed = vec![ud.send_to(&local, &peer, 1, None, true), ud.send(&local, 2, None, true)];
    assert_eq!(ud.post_send(&mixed).err(), Some(PostError::Transport(1)));
    assert_eq!(rc.post_result(-12), Err(PostError::Device(-12)));
}
