use can_netlink::{
    can_bittiming, can_ctrlmode, CanCtrlMode, CanCtrlModes, CanInterface, CanState, IflaCan,
    InvalidData, LinkAttr, LinkError, LinkInfo, LinkRequest, LinkState, MsgFlags, Mtu, Reply,
    ReplyAttr,
};

fn ne_words(words: &[u32]) -> Vec<u8> {
    let mut out = Vec::new();
    for w in words {
        out.extend_from_slice(&w.to_ne_bytes());
    }
    out
}

fn can_data(msg: &can_netlink::LinkMsg) -> (String, IflaCan, Vec<u8>) {
    assert_eq!(msg.attrs.len(), 1);
    match &msg.attrs[0] {
        LinkAttr::CanData { kind, param, data } => (kind.clone(), *param, data.clone()),
        other => panic!("unexpected attribute {:?}", other),
    }
}

#[test]
fn test_as_bytes() {
    let bitrate = 500000;
    let sample_point = 750;
    let timing = can_bittiming {
        bitrate,
        sample_point,
        ..can_bittiming::default()
    };

    let expected = ne_words(&[bitrate, sample_point, 0, 0, 0, 0, 0, 0]);
    assert_eq!(expected, timing.as_bytes());
}

#[test]
fn bittiming_layout_is_eight_words_in_order() {
    let timing = can_bittiming {
        bitrate: 1,
        sample_point: 2,
        tq: 3,
        prop_seg: 4,
        phase_seg1: 5,
        phase_seg2: 6,
        sjw: 7,
        brp: 8,
    };
    let b = timing.as_bytes();
    assert_eq!(b.len(), 32);
    assert_eq!(b, ne_words(&[1, 2, 3, 4, 5, 6, 7, 8]));
    assert_eq!(can_bittiming::with_rate(500000, 750), can_bittiming {
        bitrate: 500000,
        sample_point: 750,
        ..can_bittiming::default()
    });
}

#[test]
fn ctrlmode_bytes() {
    let m = can_ctrlmode { mask: 0x21, flags: 0x01 };
    assert_eq!(m.as_bytes(), ne_words(&[0x21, 0x01]));
}

#[test]
fn mode_masks_are_kernel_bits() {
    assert_eq!(CanCtrlMode::Loopback.mask(), 0x01);
    assert_eq!(CanCtrlMode::ListenOnly.mask(), 0x02);
    assert_eq!(CanCtrlMode::TripleSampling.mask(), 0x04);
    assert_eq!(CanCtrlMode::OneShot.mask(), 0x08);
    assert_eq!(CanCtrlMode::BerrReporting.mask(), 0x10);
    assert_eq!(CanCtrlMode::Fd.mask(), 0x20);
    assert_eq!(CanCtrlMode::PresumeAck.mask(), 0x40);
    assert_eq!(CanCtrlMode::NonIso.mask(), 0x80);
    assert_eq!(CanCtrlMode::CcLen8Dlc.mask(), 0x100);
}

#[test]
fn single_mode_equals_add_to_empty() {
    for on in [true, false] {
        let one = CanCtrlModes::from_mode(CanCtrlMode::Fd, on);
        let mut acc = CanCtrlModes::new(0, 0);
        acc.add(CanCtrlMode::Fd, on);
        assert_eq!(one.0, acc.0);
    }
    let off = CanCtrlModes::from_mode(CanCtrlMode::Loopback, false);
    assert_eq!((off.0.mask, off.0.flags), (0x01, 0));
    let on = CanCtrlModes::from_mode(CanCtrlMode::Loopback, true);
    assert_eq!((on.0.mask, on.0.flags), (0x01, 0x01));
}

#[test]
fn accumulation_ors_masks_and_flags() {
    let mut m = CanCtrlModes::default();
    m.add(CanCtrlMode::Loopback, true);
    m.add(CanCtrlMode::ListenOnly, false);
    m.add(CanCtrlMode::Fd, true);
    assert_eq!(m.0.mask, 0x01 | 0x02 | 0x20);
    assert_eq!(m.0.flags, 0x01 | 0x20);

    let mut r = CanCtrlModes::default();
    r.add(CanCtrlMode::Fd, true);
    r.add(CanCtrlMode::ListenOnly, false);
    r.add(CanCtrlMode::Loopback, true);
    r.add(CanCtrlMode::Fd, true);
    assert_eq!(m.0, r.0);

    m.clear();
    assert_eq!((m.0.mask, m.0.flags), (0, 0));
}

#[test]
fn ctrlmodes_from_and_into() {
    let raw = can_ctrlmode { mask: 3, flags: 1 };
    let modes: CanCtrlModes = raw.into();
    assert_eq!(modes.0, raw);
    let back: can_ctrlmode = modes.into();
    assert_eq!(back, raw);
}

#[test]
fn mtu_round_trip() {
    assert_eq!(Mtu::try_from(Mtu::Standard.raw()), Ok(Mtu::Standard));
    assert_eq!(Mtu::try_from(Mtu::Fd.raw()), Ok(Mtu::Fd));
    assert_eq!(Mtu::Standard.raw(), 16);
    assert_eq!(Mtu::Fd.raw(), 72);
    assert_eq!(Mtu::try_from(0), Err(InvalidData(0)));
    assert_eq!(Mtu::try_from(64), Err(InvalidData(64)));
}

#[test]
fn can_state_codes() {
    assert_eq!(CanState::try_from(0), Ok(CanState::ErrorActive));
    assert_eq!(CanState::try_from(3), Ok(CanState::BusOff));
    assert_eq!(CanState::try_from(5), Ok(CanState::Sleeping));
    assert_eq!(CanState::try_from(6), Err(InvalidData(6)));
    assert_eq!(CanState::Stopped.code(), 4);
}

#[test]
fn ifla_can_codes() {
    assert_eq!(IflaCan::from(1u16), IflaCan::BitTiming);
    assert_eq!(IflaCan::from(5u16), IflaCan::CtrlMode);
    assert_eq!(IflaCan::from(17u16), IflaCan::CtrlModeExt);
    assert_eq!(IflaCan::from(0u16), IflaCan::Unspec);
    assert_eq!(IflaCan::from(99u16), IflaCan::Unknown(99));
    for v in 0..40u16 {
        assert_eq!(IflaCan::from(v).code(), v);
    }
    assert_eq!(IflaCan::Restart.code(), 7);
}

#[test]
fn create_rejects_long_name() {
    let r = CanInterface::create_request("abcdefghijklmnopq", None, "vcan");
    assert_eq!(r.unwrap_err(), LinkError::NameTooLong);
    let r = CanInterface::create_vcan_request("a_very_long_name_indeed", Some(3));
    assert_eq!(r.unwrap_err(), LinkError::NameTooLong);
}

#[test]
fn create_request_layout() {
    let m = CanInterface::create_request("abcdefghijklmnop", None, "can").unwrap();
    assert_eq!(m.request, LinkRequest::NewLink);
    assert_eq!(m.flags, MsgFlags { ack: true, create: true, excl: true });
    assert_eq!(m.if_index, 0);
    assert_eq!(m.state, LinkState::Unchanged);
    assert!(matches!(&m.attrs[0], LinkAttr::IfName(n) if n == "abcdefghijklmnop"));
    assert!(matches!(&m.attrs[1], LinkAttr::LinkKind(k) if k == "can"));

    let v = CanInterface::create_vcan_request("vcan_test", Some(42)).unwrap();
    assert_eq!(v.if_index, 42);
    assert!(matches!(&v.attrs[1], LinkAttr::LinkKind(k) if k == "vcan"));
}

#[test]
fn created_handle() {
    assert_eq!(CanInterface::created(Some(4), None).unwrap().if_index(), 4);
    assert_eq!(CanInterface::created(None, Some(9)).unwrap().if_index(), 9);
    assert_eq!(CanInterface::created(None, None).unwrap_err(), LinkError::Vanished);
}

#[test]
fn ack_discrimination() {
    assert_eq!(can_netlink::link::check_ack(&Reply::Ack), Ok(()));
    assert_eq!(can_netlink::link::check_ack(&Reply::Nothing), Err(LinkError::NoAck));
    assert_eq!(can_netlink::link::check_ack(&Reply::Other), Err(LinkError::NoAck));
    let info = Reply::Info(LinkInfo { is_up: true, attrs: vec![] });
    assert_eq!(can_netlink::link::check_ack(&info), Err(LinkError::NoAck));
}

#[test]
fn state_change_requests() {
    let i = CanInterface::open_iface(7);
    let up = i.bring_up_request();
    assert_eq!((up.request, up.state, up.if_index), (LinkRequest::NewLink, LinkState::Up, 7));
    assert_eq!(up.flags, MsgFlags { ack: true, create: false, excl: false });
    assert!(up.attrs.is_empty());
    let down = i.bring_down_request();
    assert_eq!(down.state, LinkState::Down);
    let del = i.delete_request();
    assert_eq!((del.request, del.state), (LinkRequest::DelLink, LinkState::Unchanged));
    assert!(del.attrs.is_empty());
}

#[test]
fn delete_failure_returns_handle() {
    let i = CanInterface::open_iface(12);
    let r = i.delete_outcome(Err("rejected"));
    let (h, e) = r.unwrap_err();
    assert_eq!(h.if_index(), 12);
    assert_eq!(e, "rejected");
    assert_eq!(i.delete_outcome::<&str>(Ok(())), Ok(()));
}

#[test]
fn details_request_layout() {
    let m = CanInterface::open_iface(3).details_request();
    assert_eq!(m.request, LinkRequest::GetLink);
    assert_eq!(m.flags, MsgFlags { ack: false, create: false, excl: false });
    assert!(matches!(m.attrs[0], LinkAttr::ExtMask(1)));
}

#[test]
fn details_decoding() {
    let i = CanInterface::open_iface(5);
    let reply = Reply::Info(LinkInfo {
        is_up: false,
        attrs: vec![
            ReplyAttr::Other,
            ReplyAttr::IfName(b"vcan_test\0".to_vec()),
            ReplyAttr::Mtu(72u32.to_ne_bytes().to_vec()),
        ],
    });
    let d = i.details_from_reply(&reply).unwrap();
    assert_eq!(d.index, 5);
    assert!(!d.is_up);
    assert_eq!(d.name.as_deref(), Some("vcan_test"));
    assert_eq!(d.mtu, Some(Mtu::Fd));

    let up = Reply::Info(LinkInfo {
        is_up: true,
        attrs: vec![ReplyAttr::Mtu(16u32.to_ne_bytes().to_vec())],
    });
    let d = i.details_from_reply(&up).unwrap();
    assert!(d.is_up);
    assert_eq!(d.name, None);
    assert_eq!(d.mtu, Some(Mtu::Standard));
}

#[test]
fn details_bad_attributes_leave_fields_unset() {
    let i = CanInterface::open_iface(5);
    let reply = Reply::Info(LinkInfo {
        is_up: true,
        attrs: vec![
            ReplyAttr::IfName(b"no_nul".to_vec()),
            ReplyAttr::IfName(b"in\0side\0".to_vec()),
            ReplyAttr::IfName(vec![0xff, 0xfe, 0]),
            ReplyAttr::Mtu(vec![72, 0, 0]),
        ],
    });
    let d = i.details_from_reply(&reply).unwrap();
    assert_eq!(d.name, None);
    assert_eq!(d.mtu, None);

    let bad_mtu = Reply::Info(LinkInfo {
        is_up: false,
        attrs: vec![
            ReplyAttr::IfName("caf\u{e9}\0".as_bytes().to_vec()),
            ReplyAttr::Mtu(16u32.to_ne_bytes().to_vec()),
            ReplyAttr::Mtu(1500u32.to_ne_bytes().to_vec()),
        ],
    });
    let d = i.details_from_reply(&bad_mtu).unwrap();
    assert_eq!(d.name.as_deref(), Some("caf\u{e9}"));
    assert_eq!(d.mtu, None);
}

#[test]
fn details_without_payload_is_no_ack() {
    let i = CanInterface::open_iface(5);
    assert_eq!(i.details_from_reply(&Reply::Nothing).unwrap_err(), LinkError::NoAck);
    assert_eq!(i.details_from_reply(&Reply::Ack).unwrap_err(), LinkError::NoAck);
    assert_eq!(i.can_param_from_reply(&Reply::Other).unwrap_err(), LinkError::NoAck);
    let info = Reply::Info(LinkInfo { is_up: false, attrs: vec![] });
    assert_eq!(i.can_param_from_reply(&info), Ok(0));
}

#[test]
fn set_mtu_request_bytes() {
    let m = CanInterface::open_iface(2).set_mtu_request(Mtu::Fd);
    assert!(matches!(&m.attrs[0], LinkAttr::Mtu(b) if *b == 72u32.to_ne_bytes().to_vec()));
}

#[test]
fn bitrate_range_checks() {
    let i = CanInterface::open_iface(2);
    assert_eq!(i.set_bitrate_request(0, None).unwrap_err(), LinkError::BitrateOutOfRange);
    assert_eq!(i.set_bitrate_request(1_000_001, Some(10)).unwrap_err(), LinkError::BitrateOutOfRange);
    assert_eq!(i.set_bitrate_request(500000, Some(1000)).unwrap_err(), LinkError::SamplePointOutOfRange);
    let m = i.set_bitrate_request(1_000_000, Some(999)).unwrap();
    assert_eq!(m.flags, MsgFlags { ack: true, create: false, excl: false });
    let (kind, param, data) = can_data(&m);
    assert_eq!(kind, "can");
    assert_eq!(param, IflaCan::BitTiming);
    assert_eq!(data, ne_words(&[1_000_000, 999, 0, 0, 0, 0, 0, 0]));
    let (_, _, data) = can_data(&i.set_bitrate_request(250000, None).unwrap());
    assert_eq!(data, ne_words(&[250000, 0, 0, 0, 0, 0, 0, 0]));
}

#[test]
fn can_parameter_requests() {
    let i = CanInterface::open_iface(9);
    let (_, p, d) = can_data(&i.set_data_bitrate_request(2_000_000, Some(800)));
    assert_eq!(p, IflaCan::DataBitTiming);
    assert_eq!(d, ne_words(&[2_000_000, 800, 0, 0, 0, 0, 0, 0]));

    let (_, p, d) = can_data(&i.set_ctrlmode_request(CanCtrlMode::Fd, true));
    assert_eq!(p, IflaCan::CtrlMode);
    assert_eq!(d, ne_words(&[0x20, 0x20]));

    let (_, p, d) = can_data(&i.set_full_ctrlmode_request(can_ctrlmode { mask: 6, flags: 2 }));
    assert_eq!(p, IflaCan::CtrlMode);
    assert_eq!(d, ne_words(&[6, 2]));

    let (_, p, d) = can_data(&i.set_restart_ms_request(100));
    assert_eq!(p, IflaCan::RestartMs);
    assert_eq!(d, ne_words(&[100]));

    let m = i.restart_request();
    assert_eq!(m.if_index, 9);
    let (_, p, d) = can_data(&m);
    assert_eq!(p, IflaCan::Restart);
    assert_eq!(d, ne_words(&[1]));
}

#[test]
fn simulated_vcan_lifecycle() {
    let create = CanInterface::create_vcan_request("vcan_test", None).unwrap();
    assert_eq!(create.if_index, 0);
    assert_eq!(can_netlink::link::check_ack(&Reply::Ack), Ok(()));
    let iface = CanInterface::created(None, Some(31)).unwrap();

    let info = |up: bool, mtu: u32| {
        Reply::Info(LinkInfo {
            is_up: up,
            attrs: vec![
                ReplyAttr::IfName(b"vcan_test\0".to_vec()),
                ReplyAttr::Mtu(mtu.to_ne_bytes().to_vec()),
            ],
        })
    };
    let d = iface.details_from_reply(&info(false, 16)).unwrap();
    assert!(!d.is_up);
    assert_eq!(d.name.as_deref(), Some("vcan_test"));
    assert_eq!(iface.bring_up_request().state, LinkState::Up);
    assert!(iface.details_from_reply(&info(true, 16)).unwrap().is_up);
    let set = iface.set_mtu_request(Mtu::Fd);
    assert!(matches!(&set.attrs[0], LinkAttr::Mtu(b) if b.len() == 4));
    assert_eq!(iface.details_from_reply(&info(true, 72)).unwrap().mtu, Some(Mtu::Fd));
    assert_eq!(iface.bring_down_request().state, LinkState::Down);
    assert_eq!(iface.delete_request().request, LinkRequest::DelLink);
    assert_eq!(iface.delete_outcome::<LinkError>(Ok(())), Ok(()));
}

#[test]
fn from_modes_accumulates_in_any_order() {
    let a = CanCtrlModes::from_modes(&[
        (CanCtrlMode::Loopback, true),
        (CanCtrlMode::ListenOnly, false),
        (CanCtrlMode::CcLen8Dlc, true),
    ]);
    assert_eq!((a.0.mask, a.0.flags), (0x103, 0x101));
    let b = CanCtrlModes::from_modes(&[
        (CanCtrlMode::CcLen8Dlc, true),
        (CanCtrlMode::Loopback, true),
        (CanCtrlMode::ListenOnly, false),
        (CanCtrlMode::Loopback, true),
    ]);
    assert_eq!(a.0, b.0);
    let empty = CanCtrlModes::from_modes(&[]);
    assert_eq!((empty.0.mask, empty.0.flags), (0, 0));

    let mut c = CanCtrlModes::new(0x20, 0x20);
    c.add_all(&[(CanCtrlMode::OneShot, false)]);
    assert_eq!((c.0.mask, c.0.flags), (0x28, 0x20));
}
