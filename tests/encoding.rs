use ch34x::command::{ClockBuilder, Command};
use ch34x::frame::{data_frame, first_ch34x, is_ch34x_device};
use ch34x::speed::{config_command, pack_mode_from_reply, speed_accepted, PackMode};

#[test]
fn encode_tms_only() {
    let c = Command::Clock { tms: true, tdi: false, trst: false, srst: false };
    assert_eq!(c.encode(), 0x02);
    assert_eq!(u8::from(c), 0x02);
}

#[test]
fn encode_reset_matches_clock() {
    for x in [false, true] {
        let reset = Command::Reset(x);
        let clock = Command::Clock { tms: true, tdi: true, trst: x, srst: false };
        assert_eq!(u8::from(reset), u8::from(clock));
    }
    assert_eq!(u8::from(Command::Reset(true)), 0x32);
    assert_eq!(u8::from(Command::Reset(false)), 0x12);
}

#[test]
fn encode_each_line() {
    assert_eq!(u8::from(Command::Clock { tms: false, tdi: false, trst: false, srst: false }), 0x00);
    assert_eq!(u8::from(Command::Clock { tms: false, tdi: true, trst: false, srst: false }), 0x10);
    assert_eq!(u8::from(Command::Clock { tms: false, tdi: false, trst: true, srst: false }), 0x20);
    assert_eq!(u8::from(Command::Clock { tms: false, tdi: false, trst: false, srst: true }), 0x40);
    assert_eq!(u8::from(Command::Clock { tms: true, tdi: true, trst: true, srst: true }), 0x72);
}

#[test]
fn command_new_leaves_resets_low() {
    assert_eq!(Command::new(false, true), Command::Clock { tms: false, tdi: true, trst: false, srst: false });
    assert_eq!(u8::from(Command::new(true, true)), 0x12);
}

#[test]
fn builder_starts_empty() {
    assert!(ClockBuilder::new().bytes().is_empty());
}

#[test]
fn builder_two_bytes_per_command() {
    let cmds = [
        Command::new(true, false),
        Command::Reset(true),
        Command::new(false, true),
        Command::Clock { tms: false, tdi: false, trst: false, srst: true },
    ];
    let mut b = ClockBuilder::new();
    for c in cmds {
        b = b.add(c);
    }
    let bytes = b.into_bytes();
    assert_eq!(bytes, vec![0x02, 0x03, 0x32, 0x33, 0x10, 0x11, 0x40, 0x41]);
    assert_eq!(bytes.len(), 2 * cmds.len());
    for i in 0..cmds.len() {
        assert_eq!(bytes[2 * i], u8::from(cmds[i]));
        assert_eq!(bytes[2 * i + 1], bytes[2 * i] | 0x01);
    }
}

#[test]
fn data_frame_header() {
    let f = data_frame(&[0x10, 0x11, 0x10, 0x12, 0x13, 0x12]);
    assert_eq!(f, vec![0xD2, 6, 0, 0x10, 0x11, 0x10, 0x12, 0x13, 0x12]);
    assert_eq!(data_frame(&[]), vec![0xD2, 0, 0]);
}

#[test]
fn data_frame_length_wraps_at_255() {
    let f = data_frame(&[0xAA; 255]);
    assert_eq!(f.len(), 258);
    assert_eq!(&f[..3], &[0xD2, 0, 0]);
    let g = data_frame(&[0x55; 300]);
    assert_eq!(&g[..3], &[0xD2, 45, 0]);
    assert_eq!(&g[3..], &[0x55; 300][..]);
}

#[test]
fn allow_list() {
    assert!(is_ch34x_device(0x1A86, 0x55DE));
    assert!(is_ch34x_device(0x1A86, 0x55DD));
    assert!(is_ch34x_device(0x1A86, 0x55E8));
    assert!(!is_ch34x_device(0x1A86, 0x7523));
    assert!(!is_ch34x_device(0x1A87, 0x55DD));
}

#[test]
fn first_adapter_in_listed_order() {
    let ids = [(0x046D, 0xC52B), (0x1A86, 0x55E8), (0x1A86, 0x55DD)];
    assert_eq!(first_ch34x(&ids), Some(1));
    assert_eq!(first_ch34x(&ids[..1]), None);
    assert_eq!(first_ch34x(&[]), None);
}

#[test]
fn pack_mode_from_last_byte() {
    assert_eq!(pack_mode_from_reply(&[9, 9, 9, 0x00]), Some(PackMode::Standard));
    assert_eq!(pack_mode_from_reply(&[0, 0, 0, 0x01]), Some(PackMode::Larger));
    assert_eq!(pack_mode_from_reply(&[0, 0, 0, 0xFF]), Some(PackMode::Larger));
    assert_eq!(pack_mode_from_reply(&[]), None);
}

#[test]
fn speed_tables() {
    let standard = [(1875, 0), (3750, 1), (7500, 2), (15000, 3), (30000, 4), (60000, 5)];
    for (khz, i) in standard {
        assert_eq!(PackMode::Standard.speed_index(khz), Some(i));
    }
    let larger = [(468, 0), (937, 1), (1875, 2), (3750, 3), (7500, 4), (15000, 5), (30000, 6), (60000, 7)];
    for (khz, i) in larger {
        assert_eq!(PackMode::Larger.speed_index(khz), Some(i));
    }
    assert_eq!(PackMode::Standard.speed_index(468), None);
    assert_eq!(PackMode::Standard.speed_index(937), None);
    assert_eq!(PackMode::Larger.speed_index(1000), None);
    assert_eq!(PackMode::Larger.speed_index(0), None);
}

#[test]
fn config_command_bytes() {
    assert_eq!(config_command(9), vec![0xD0, 0x06, 0x00, 0x00, 0x09, 0x00, 0x00, 0x00, 0x00]);
    assert_eq!(config_command(3), vec![0xD0, 0x06, 0x00, 0x00, 0x03, 0x00, 0x00, 0x00, 0x00]);
}

#[test]
fn speed_reply_last_byte() {
    assert!(speed_accepted(&[1, 2, 3, 0]));
    assert!(!speed_accepted(&[0, 0, 0, 1]));
    assert!(!speed_accepted(&[]));
}
