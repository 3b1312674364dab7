use cantact::channel::{Channel, Feature};
use cantact::error::{DeviceError, Error, Outcome};
use cantact::frame::Frame;
use cantact::interface::Interface;
use cantact::receive::{accept, receive, Received};
use cantact::timing::effective_bitrate;
use cantact::wire::{
    BitTiming, BitTimingConsts, CanMode, Command, DeviceConfig, DeviceInfo, HostFrame, Mode,
    GSUSB_RX_ECHO_ID, GS_CAN_FEATURE_FD, GS_CAN_FEATURE_LISTEN_ONLY, GS_CAN_FEATURE_LOOP_BACK,
};
use std::time::{Duration, Instant};

const ALL: u32 = GS_CAN_FEATURE_FD | GS_CAN_FEATURE_LOOP_BACK | GS_CAN_FEATURE_LISTEN_ONLY;

fn device(icount: u8, feature: u32) -> Option<DeviceInfo> {
    Some(DeviceInfo {
        config: DeviceConfig { icount, sw_version: 2, hw_version: 1 },
        consts: BitTimingConsts { feature, fclk_can: 24_000_000 },
    })
}

fn open(icount: u8, feature: u32) -> Interface {
    Interface::new(device(icount, feature)).unwrap()
}

fn running(icount: u8, feature: u32) -> Interface {
    let mut i = open(icount, feature);
    i.start().unwrap();
    i
}

fn start_mode(flags: u32) -> Mode {
    Mode { mode: 1, flags }
}

#[test]
fn new_interface_has_untouched_channels() {
    let i = open(1, ALL);
    assert_eq!(i.channels(), 2);
    assert!(!i.is_running());
    assert!(i.supports_fd());
    let fresh = Channel {
        bitrate: 0,
        enabled: true,
        loopback: false,
        monitor: false,
        fd: false,
        data_bitrate: 0,
    };
    assert_eq!(Channel::new(), fresh);
    assert_eq!(i.channel(0), Ok(fresh));
    assert_eq!(i.channel(1), Ok(fresh));
    assert_eq!(i.channel(2), Err(Error::InvalidChannel));
    assert_eq!(open(255, 0).channels(), 256);
    assert!(!open(0, GS_CAN_FEATURE_LOOP_BACK | GS_CAN_FEATURE_LISTEN_ONLY).supports_fd());
}

#[test]
fn no_device_is_device_not_found() {
    assert!(matches!(Interface::new(None), Err(Error::DeviceNotFound)));
    assert!(matches!(Interface::with_channels(None, vec![Channel::new()]), Err(Error::DeviceNotFound)));
}

#[test]
fn with_channels_wants_one_configuration_per_channel() {
    let kept = Channel { bitrate: 250_000, monitor: true, ..Channel::new() };
    let i = Interface::with_channels(device(1, 0), vec![kept, Channel::new()]).unwrap();
    assert_eq!(i.channels(), 2);
    assert_eq!(i.channel(0), Ok(kept));
    assert_eq!(i.channel(1), Ok(Channel::new()));
    assert!(!i.is_running());
    assert!(matches!(
        Interface::with_channels(device(1, 0), vec![kept]),
        Err(Error::InvalidChannel)
    ));
    assert!(matches!(
        Interface::with_channels(device(0, 0), vec![kept, kept]),
        Err(Error::InvalidChannel)
    ));
    assert!(matches!(Interface::with_channels(device(0, 0), vec![]), Err(Error::InvalidChannel)));
}

#[test]
fn transport_answers_become_results() {
    assert_eq!(Outcome::Done.into_result(), Ok(()));
    assert_eq!(Outcome::TimedOut.into_result(), Err(Error::Timeout));
    assert_eq!(
        Outcome::Failed(DeviceError { code: -4 }).into_result(),
        Err(Error::DeviceError(DeviceError { code: -4 }))
    );
    assert_eq!(Error::from(DeviceError { code: 7 }), Error::DeviceError(DeviceError { code: 7 }));
}

#[test]
fn set_bitrate_returns_the_timing_and_records_the_request() {
    let mut i = open(0, ALL);
    assert_eq!(
        i.set_bitrate(0, 500_000),
        Ok(Command::SetBitTiming {
            channel: 0,
            timing: BitTiming { prop_seg: 0, phase_seg1: 15, phase_seg2: 8, sjw: 1, brp: 2 },
        })
    );
    assert_eq!(i.channel(0).unwrap().bitrate, 500_000);
    assert_eq!(i.channel(0).unwrap().data_bitrate, 0);

    // the request is on record, not the rate that the timing realises
    let cmd = i.set_bitrate(0, 33_333).unwrap();
    assert_eq!(
        cmd,
        Command::SetBitTiming {
            channel: 0,
            timing: BitTiming { prop_seg: 0, phase_seg1: 15, phase_seg2: 8, sjw: 1, brp: 30 },
        }
    );
    assert_eq!(i.channel(0).unwrap().bitrate, 33_333);
    let cmd = i.set_bitrate(0, 997_009).unwrap();
    match cmd {
        Command::SetBitTiming { timing, .. } => {
            assert_eq!(effective_bitrate(24_000_000, timing), 1_000_000)
        }
        _ => panic!("wrong command"),
    }
    assert_eq!(i.channel(0).unwrap().bitrate, 997_009);
}

#[test]
fn set_bitrate_refuses_a_rate_without_timing() {
    let mut i = open(0, ALL);
    i.set_bitrate(0, 500_000).unwrap();
    assert_eq!(i.set_bitrate(0, 991_736), Err(Error::InvalidBitrate(991_736)));
    assert_eq!(i.set_bitrate(0, 0), Err(Error::InvalidBitrate(0)));
    assert_eq!(i.channel(0).unwrap().bitrate, 500_000);
    assert_eq!(i.set_data_bitrate(0, 7), Err(Error::InvalidBitrate(7)));
    assert_eq!(i.channel(0).unwrap().data_bitrate, 0);
}

#[test]
fn set_data_bitrate_returns_the_timing_and_records_the_request() {
    let mut i = open(1, ALL);
    assert_eq!(
        i.set_data_bitrate(1, 2_000_000),
        Ok(Command::SetDataBitTiming {
            channel: 1,
            timing: BitTiming { prop_seg: 0, phase_seg1: 3, phase_seg2: 8, sjw: 1, brp: 1 },
        })
    );
    assert_eq!(i.channel(1).unwrap().data_bitrate, 2_000_000);
    assert_eq!(i.channel(1).unwrap().bitrate, 0);
    assert_eq!(i.channel(0).unwrap().data_bitrate, 0);
}

#[test]
fn set_bit_timing_passes_the_registers_on() {
    let mut i = open(1, 0);
    assert_eq!(
        i.set_bit_timing(1, 6, 13, 2, 1),
        Ok(Command::SetBitTiming {
            channel: 1,
            timing: BitTiming { prop_seg: 0, phase_seg1: 13, phase_seg2: 2, sjw: 1, brp: 6 },
        })
    );
    assert_eq!(i.channel(1), Ok(Channel::new()));
    assert_eq!(i.set_bit_timing(2, 6, 13, 2, 1), Err(Error::InvalidChannel));
    let mut i = running(1, 0);
    assert_eq!(i.set_bit_timing(1, 6, 13, 2, 1), Err(Error::Running));
    assert_eq!(i.set_bit_timing(2, 6, 13, 2, 1), Err(Error::InvalidChannel));
}

#[test]
fn flag_setters_change_one_field_of_one_channel() {
    let mut i = open(1, ALL);
    assert_eq!(i.set_monitor(1, true), Ok(()));
    assert_eq!(i.channel(1), Ok(Channel { monitor: true, ..Channel::new() }));
    assert_eq!(i.set_loopback(1, true), Ok(()));
    assert_eq!(i.channel(1), Ok(Channel { monitor: true, loopback: true, ..Channel::new() }));
    assert_eq!(i.set_fd(1, true), Ok(()));
    assert_eq!(
        i.channel(1),
        Ok(Channel { monitor: true, loopback: true, fd: true, ..Channel::new() })
    );
    assert_eq!(i.set_enabled(1, false), Ok(()));
    assert_eq!(
        i.channel(1),
        Ok(Channel { monitor: true, loopback: true, fd: true, enabled: false, ..Channel::new() })
    );
    assert_eq!(i.channel(0), Ok(Channel::new()));
    assert_eq!(i.set_monitor(1, false), Ok(()));
    assert_eq!(i.set_loopback(1, false), Ok(()));
    assert_eq!(i.set_fd(1, false), Ok(()));
    assert_eq!(i.set_enabled(1, true), Ok(()));
    assert_eq!(i.channel(1), Ok(Channel::new()));
}

#[test]
fn channel_beyond_the_last_is_invalid_whatever_the_state() {
    for count in [0u8, 1, 3] {
        let beyond = count as usize + 1;
        for features in [0, ALL] {
            let mut idle = open(count, features);
            let mut busy = running(count, features);
            for i in [&mut idle, &mut busy] {
                assert_eq!(i.set_bitrate(beyond, 500_000), Err(Error::InvalidChannel));
                assert_eq!(i.set_bitrate(beyond, 0), Err(Error::InvalidChannel));
                assert_eq!(i.set_bitrate(usize::MAX, 500_000), Err(Error::InvalidChannel));
                assert_eq!(i.set_data_bitrate(beyond, 2_000_000), Err(Error::InvalidChannel));
                assert_eq!(i.set_bit_timing(beyond, 1, 2, 3, 4), Err(Error::InvalidChannel));
                assert_eq!(i.set_monitor(beyond, true), Err(Error::InvalidChannel));
                assert_eq!(i.set_enabled(beyond, true), Err(Error::InvalidChannel));
                assert_eq!(i.set_loopback(beyond, true), Err(Error::InvalidChannel));
                assert_eq!(i.set_fd(beyond, true), Err(Error::InvalidChannel));
                assert_eq!(i.channel(beyond), Err(Error::InvalidChannel));
                assert_eq!(i.channel(count as usize).map(|c| c.bitrate), Ok(0));
            }
        }
    }
}

#[test]
fn setters_fail_without_the_feature() {
    for busy in [false, true] {
        let mut i = if busy { running(0, 0) } else { open(0, 0) };
        for enabled in [true, false] {
            assert_eq!(i.set_monitor(0, enabled), Err(Error::UnsupportedFeature("Monitor")));
            assert_eq!(i.set_loopback(0, enabled), Err(Error::UnsupportedFeature("Loopback")));
            assert_eq!(i.set_fd(0, enabled), Err(Error::UnsupportedFeature("FD")));
        }
        assert_eq!(i.set_data_bitrate(0, 2_000_000), Err(Error::UnsupportedFeature("FD")));
        assert_eq!(i.channel(0), Ok(Channel::new()));
    }
    // each setter looks at its own bit
    let mut i = open(0, GS_CAN_FEATURE_LISTEN_ONLY);
    assert_eq!(i.set_monitor(0, true), Ok(()));
    assert_eq!(i.set_loopback(0, true), Err(Error::UnsupportedFeature("Loopback")));
    assert_eq!(i.set_fd(0, true), Err(Error::UnsupportedFeature("FD")));
    let mut i = open(0, GS_CAN_FEATURE_LOOP_BACK);
    assert_eq!(i.set_monitor(0, true), Err(Error::UnsupportedFeature("Monitor")));
    assert_eq!(i.set_loopback(0, true), Ok(()));
    assert_eq!(i.set_fd(0, true), Err(Error::UnsupportedFeature("FD")));
    let mut i = open(0, GS_CAN_FEATURE_FD);
    assert_eq!(i.set_monitor(0, true), Err(Error::UnsupportedFeature("Monitor")));
    assert_eq!(i.set_loopback(0, true), Err(Error::UnsupportedFeature("Loopback")));
    assert_eq!(i.set_fd(0, true), Ok(()));
    assert!(i.set_data_bitrate(0, 2_000_000).is_ok());
}

#[test]
fn feature_names_and_bits() {
    assert_eq!(Feature::Monitor.name(), "Monitor");
    assert_eq!(Feature::Loopback.name(), "Loopback");
    assert_eq!(Feature::Fd.name(), "FD");
    assert_eq!(Feature::Monitor.bit(), 1);
    assert_eq!(Feature::Loopback.bit(), 2);
    assert_eq!(Feature::Fd.bit(), 0x100);
    assert!(Feature::Fd.supported_by(0x100));
    assert!(!Feature::Fd.supported_by(0x0FF));
    let ch = Channel { monitor: true, fd: true, ..Channel::new() };
    assert_eq!(ch.mode_flags(), 0x101);
    assert_eq!(ch.unsupported(0), Some(Feature::Monitor));
    assert_eq!(ch.unsupported(1), Some(Feature::Fd));
    assert_eq!(ch.unsupported(0x101), None);
    assert_eq!(Channel::new().mode_flags(), 0);
    assert_eq!(Channel { loopback: true, ..Channel::new() }.unsupported(0x101), Some(Feature::Loopback));
}

#[test]
fn start_fails_without_the_feature() {
    let modes = [
        (Channel { monitor: true, ..Channel::new() }, GS_CAN_FEATURE_LISTEN_ONLY, "Monitor"),
        (Channel { loopback: true, ..Channel::new() }, GS_CAN_FEATURE_LOOP_BACK, "Loopback"),
        (Channel { fd: true, ..Channel::new() }, GS_CAN_FEATURE_FD, "FD"),
    ];
    for (config, bit, name) in modes {
        for enabled in [true, false] {
            let config = Channel { enabled, ..config };
            let mut i =
                Interface::with_channels(device(1, ALL & !bit), vec![Channel::new(), config])
                    .unwrap();
            assert_eq!(i.start(), Err(Error::UnsupportedFeature(name)));
            assert!(!i.is_running());
            assert_eq!(i.channel(1), Ok(config));
            let mut i =
                Interface::with_channels(device(1, bit), vec![Channel::new(), config]).unwrap();
            assert!(i.start().is_ok());
            assert!(i.is_running());
        }
    }
}

#[test]
fn start_names_the_first_missing_feature() {
    let all_on = Channel { monitor: true, loopback: true, fd: true, ..Channel::new() };
    let mut i = Interface::with_channels(device(0, 0), vec![all_on]).unwrap();
    assert_eq!(i.start(), Err(Error::UnsupportedFeature("Monitor")));
    let mut i = Interface::with_channels(device(0, GS_CAN_FEATURE_LISTEN_ONLY), vec![all_on]).unwrap();
    assert_eq!(i.start(), Err(Error::UnsupportedFeature("Loopback")));
    let mut i = Interface::with_channels(
        device(0, GS_CAN_FEATURE_LISTEN_ONLY | GS_CAN_FEATURE_LOOP_BACK),
        vec![all_on],
    )
    .unwrap();
    assert_eq!(i.start(), Err(Error::UnsupportedFeature("FD")));
    // the earlier channel decides
    let fd = Channel { fd: true, ..Channel::new() };
    let monitor = Channel { monitor: true, ..Channel::new() };
    let mut i = Interface::with_channels(device(1, 0), vec![fd, monitor]).unwrap();
    assert_eq!(i.start(), Err(Error::UnsupportedFeature("FD")));
    let mut i = Interface::with_channels(device(1, 0), vec![monitor, fd]).unwrap();
    assert_eq!(i.start(), Err(Error::UnsupportedFeature("Monitor")));
}

#[test]
fn start_commands_every_enabled_channel() {
    let mut i = open(2, ALL);
    i.set_monitor(0, true).unwrap();
    i.set_fd(0, true).unwrap();
    i.set_enabled(1, false).unwrap();
    i.set_loopback(1, true).unwrap();
    i.set_loopback(2, true).unwrap();
    assert_eq!(
        i.start(),
        Ok(vec![
            Command::SetMode { channel: 0, mode: start_mode(0x101) },
            Command::SetMode { channel: 2, mode: start_mode(0x002) },
            Command::StartTransfers,
        ])
    );
    assert!(i.is_running());
    assert_eq!(
        i.stop(),
        Ok(vec![
            Command::SetMode { channel: 0, mode: Mode { mode: 0, flags: 0 } },
            Command::SetMode { channel: 2, mode: Mode { mode: 0, flags: 0 } },
            Command::StopTransfers,
        ])
    );
    assert!(!i.is_running());
    assert_eq!(CanMode::Start.code(), 1);
    assert_eq!(CanMode::Reset.code(), 0);
}

#[test]
fn start_with_no_enabled_channel_only_starts_transfers() {
    let mut i = open(0, 0);
    i.set_enabled(0, false).unwrap();
    assert_eq!(i.start(), Ok(vec![Command::StartTransfers]));
    assert!(i.is_running());
    assert_eq!(i.stop(), Ok(vec![Command::StopTransfers]));
}

#[test]
fn start_again_while_running_commands_again() {
    let mut i = running(0, 0);
    assert_eq!(
        i.start(),
        Ok(vec![Command::SetMode { channel: 0, mode: start_mode(0) }, Command::StartTransfers])
    );
    assert!(i.is_running());
}

#[test]
fn setters_fail_while_running() {
    let mut i = open(1, ALL);
    i.set_bitrate(1, 250_000).unwrap();
    i.start().unwrap();
    let before = i.channel(1).unwrap();
    assert_eq!(i.set_bitrate(1, 500_000), Err(Error::Running));
    assert_eq!(i.set_bitrate(1, 0), Err(Error::Running));
    assert_eq!(i.set_data_bitrate(1, 2_000_000), Err(Error::Running));
    assert_eq!(i.set_bit_timing(1, 1, 2, 3, 4), Err(Error::Running));
    assert_eq!(i.set_monitor(1, true), Err(Error::Running));
    assert_eq!(i.set_enabled(1, false), Err(Error::Running));
    assert_eq!(i.set_loopback(1, true), Err(Error::Running));
    assert_eq!(i.set_fd(1, true), Err(Error::Running));
    assert_eq!(i.channel(1), Ok(before));
    i.stop().unwrap();
    assert_eq!(i.set_bitrate(1, 500_000).map(|_| ()), Ok(()));
    assert_eq!(i.set_monitor(1, true), Ok(()));
}

#[test]
fn send_and_stop_fail_while_not_running() {
    let mut i = open(0, ALL);
    assert_eq!(i.send(Frame::default()), Err(Error::NotRunning));
    assert_eq!(i.stop(), Err(Error::NotRunning));
    assert!(!i.is_running());
    i.start().unwrap();
    i.stop().unwrap();
    assert_eq!(i.send(Frame::default()), Err(Error::NotRunning));
    assert_eq!(i.stop(), Err(Error::NotRunning));
}

#[test]
fn send_returns_the_encoded_frame() {
    let i = running(0, ALL);
    let f = Frame {
        can_id: 0x1ABC,
        can_dlc: 2,
        channel: 0,
        data: vec![0xDE, 0xAD],
        ext: true,
        fd: true,
        ..Frame::default()
    };
    let want = f.to_host_frame();
    assert_eq!(i.send(f), Ok(Command::Send(want)));
    assert_eq!(want.can_id, 0x8000_1ABC);
    assert_eq!(want.echo_id, 1);
    assert_eq!(want.flags, 2);
    assert_eq!(&want.data[..3], &[0xDE, 0xAD, 0]);
}

fn from_bus(can_id: u32, can_dlc: u8) -> HostFrame {
    let mut data = [0u8; 64];
    data[0] = 0x11;
    data[7] = 0x88;
    data[8] = 0x99;
    HostFrame { echo_id: GSUSB_RX_ECHO_ID, can_id, can_dlc, channel: 0, flags: 0, reserved: 0, data }
}

#[test]
fn accept_decodes_and_stamps() {
    let at = Duration::from_micros(1500);
    match accept(Some(from_bus(0x123, 8)), at) {
        Received::Frame(f) => {
            assert_eq!(f.timestamp, Some(at));
            assert_eq!(f, Frame { timestamp: Some(at), ..Frame::from_host_frame(from_bus(0x123, 8)) });
            assert_eq!(f.data, vec![0x11, 0, 0, 0, 0, 0, 0, 0x88]);
        }
        other => panic!("{:?}", other),
    }
    assert_eq!(accept(None, at), Received::Disconnected);
    assert_eq!(accept(Some(from_bus(1, 16)), at), Received::Invalid(from_bus(1, 16)));
    assert_eq!(accept(Some(from_bus(1, 255)), at), Received::Invalid(from_bus(1, 255)));
    assert!(matches!(accept(Some(from_bus(1, 15)), at), Received::Frame(_)));
}

#[test]
fn receive_takes_frames_in_order_until_the_sender_is_gone() {
    let (tx, rx) = crossbeam_channel::unbounded();
    let started = Instant::now();
    tx.send(from_bus(0x100, 1)).unwrap();
    tx.send(from_bus(0x200, 20)).unwrap();
    tx.send(from_bus(0x300, 0)).unwrap();
    drop(tx);
    match receive(&rx, &started) {
        Received::Frame(f) => {
            assert_eq!(f.can_id, 0x100);
            assert_eq!(f.data, vec![0x11]);
            assert!(f.timestamp.is_some());
        }
        other => panic!("{:?}", other),
    }
    assert_eq!(receive(&rx, &started), Received::Invalid(from_bus(0x200, 20)));
    match receive(&rx, &started) {
        Received::Frame(f) => {
            assert_eq!(f.can_id, 0x300);
            assert!(f.timestamp.unwrap() <= started.elapsed());
        }
        other => panic!("{:?}", other),
    }
    assert_eq!(receive(&rx, &started), Received::Disconnected);
    assert_eq!(receive(&rx, &started), Received::Disconnected);
}

/// Stands in for the adapter: keeps what it was commanded to do.
struct Simulated {
    log: Vec<Command>,
}

impl Simulated {
    fn carry_out(&mut self, cmds: Vec<Command>) -> Result<(), Error> {
        for cmd in cmds {
            self.log.push(cmd);
            Outcome::Done.into_result()?;
        }
        Ok(())
    }
}

#[test]
fn end_to_end_over_a_simulated_device() {
    let mut dev = Simulated { log: Vec::new() };
    let (tx, rx) = crossbeam_channel::unbounded();
    let mut i = Interface::new(device(0, ALL)).unwrap();
    assert_eq!(i.channels(), 1);

    let cmd = i.set_bitrate(0, 500_000).unwrap();
    match cmd {
        Command::SetBitTiming { channel, timing } => {
            assert_eq!(channel, 0);
            let eff = effective_bitrate(24_000_000, timing);
            let err = 100.0 * (1.0 - eff as f64 / 500_000.0).abs();
            assert!(err < 0.5);
        }
        other => panic!("{:?}", other),
    }
    dev.carry_out(vec![cmd]).unwrap();

    let cmds = i.start().unwrap();
    dev.carry_out(cmds).unwrap();
    let started = Instant::now();
    assert!(dev.log.contains(&Command::SetMode { channel: 0, mode: start_mode(0) }));
    assert_eq!(dev.log.last(), Some(&Command::StartTransfers));
    assert!(i.is_running());

    let mut data = [0u8; 64];
    data[..8].copy_from_slice(&[1, 2, 3, 4, 5, 6, 7, 8]);
    tx.send(HostFrame {
        echo_id: GSUSB_RX_ECHO_ID,
        can_id: 0x123,
        can_dlc: 8,
        channel: 0,
        flags: 0,
        reserved: 0,
        data,
    })
    .unwrap();
    let mut delivered = Vec::new();
    let mut callback = |f: Frame| delivered.push(f);
    match receive(&rx, &started) {
        Received::Frame(f) => callback(f),
        other => panic!("{:?}", other),
    }
    assert_eq!(delivered.len(), 1);
    let f = &delivered[0];
    assert_eq!(f.can_id, 0x123);
    assert_eq!(f.can_dlc, 8);
    assert!(!f.ext);
    assert!(!f.rtr);
    assert!(!f.loopback);
    assert!(f.timestamp.unwrap() >= Duration::from_secs(0));
    assert_eq!(f.data, vec![1, 2, 3, 4, 5, 6, 7, 8]);

    let sent = i.send(Frame { can_id: 0x321, can_dlc: 1, data: vec![9], ..Frame::default() }).unwrap();
    dev.carry_out(vec![sent]).unwrap();

    let cmds = i.stop().unwrap();
    dev.carry_out(cmds).unwrap();
    assert!(dev.log.contains(&Command::SetMode { channel: 0, mode: Mode { mode: 0, flags: 0 } }));
    assert_eq!(dev.log.last(), Some(&Command::StopTransfers));
    assert!(!i.is_running());
    assert_eq!(dev.log.len(), 6);

    drop(tx);
    assert_eq!(receive(&rx, &started), Received::Disconnected);
}
