use nut_hid_device::backend::{Action, Device, Event};
use nut_hid_device::device::DeviceConfig;
use nut_hid_device::dummy::{new_dummy_device, DummyDevice, UPS_REPORT_DESCRIPTOR};
use nut_hid_device::mini::{
    new_mini_device, HidMiniControlInfo, HidMiniInputReport, HidMiniOutputReport,
    HID_MINI_REPORT_DESCRIPTOR,
};
use nut_hid_device::status::{struct_to_vec, Packed};

fn read(device: &mut DummyDevice) -> Option<(u8, Vec<u8>)> {
    assert_eq!(device.read(), Action::Sleep);
    match device.read_step(Event::Slept) {
        Action::Deliver(report) => report,
        other => panic!("the read still waits for {:?}", other),
    }
}

#[test]
fn dummy_print_report() {
    println!("{:x?}", UPS_REPORT_DESCRIPTOR);
}

#[test]
fn dummy_device_at_the_start() {
    let device = new_dummy_device(DeviceConfig::default());
    let data = device.data();
    assert_eq!(data.reports.len(), 7);
    assert_eq!(data.get_report(0x01), Ok(vec![2, 1, 3]));
    assert_eq!(data.get_report(0x07), Ok(vec![0x0c, 0x00]));
    assert_eq!(data.get_report(0x16), Ok(vec![2]));
    assert_eq!(data.get_report(0x17), Ok(vec![100]));
    assert_eq!(data.get_report(0x0e), Ok(vec![100]));
    assert_eq!(data.get_report(0x0c), Ok(vec![90]));
    assert_eq!(data.get_report(0x0d), Ok(vec![121]));
    assert_eq!(data.report_descriptor, UPS_REPORT_DESCRIPTOR.to_vec());
    assert_eq!(device.pending_len(), 0);
}

#[test]
fn dummy_device_ignores_its_configuration() {
    let device = new_dummy_device(DeviceConfig {
        host: "elsewhere".to_string(),
        port: 1,
        backend: "nut".to_string(),
    });
    assert_eq!(device.data().get_report(0x0c), Ok(vec![90]));
    assert_eq!(device.data().product, "nut hid device");
}

#[test]
fn dummy_plays_its_script_again_and_again() {
    let mut device = new_dummy_device(DeviceConfig::default());
    for _ in 0..3 {
        for capacity in [80u8, 70, 60, 50, 60, 70] {
            assert_eq!(read(&mut device), Some((0x0c, vec![capacity])));
        }
        assert_eq!(device.pending_len(), 0);
    }
}

#[test]
fn dummy_delays_every_reading() {
    let mut device = new_dummy_device(DeviceConfig::default());
    for _ in 0..8 {
        assert_eq!(device.read(), Action::Sleep);
        assert!(matches!(device.read_step(Event::Slept), Action::Deliver(Some(_))));
    }
}

#[test]
fn dummy_waits_for_the_poll_interval_only() {
    let mut device = new_dummy_device(DeviceConfig::default());
    assert_eq!(device.read_step(Event::Slept), Action::Deliver(None));
    assert_eq!(device.pending_len(), 0);
    assert_eq!(device.read(), Action::Sleep);
    assert_eq!(device.read_step(Event::Closed), Action::Sleep);
    assert_eq!(device.read_step(Event::ConnectFailed), Action::Sleep);
    assert_eq!(device.read(), Action::Sleep);
    assert_eq!(device.read_step(Event::Slept), Action::Deliver(Some((0x0c, vec![80]))));
    assert_eq!(device.pending_len(), 5);
    assert_eq!(device.read_step(Event::Slept), Action::Deliver(None));
    assert_eq!(device.pending_len(), 5);
}

#[test]
fn mini_device_has_no_report() {
    let mut device = new_mini_device();
    assert!(device.data().reports.is_empty());
    assert!(device.data().strings.is_empty());
    assert_eq!(device.data().vendor_id, 0xDEED);
    assert_eq!(device.data().product_id, 0xFEED);
    assert_eq!(device.data().version, 0x0101);
    assert_eq!(device.data().report_descriptor, HID_MINI_REPORT_DESCRIPTOR.to_vec());
    assert_eq!(device.read(), Action::Deliver(None));
    assert_eq!(device.read_step(Event::Slept), Action::Deliver(None));
    assert_eq!(device.read(), Action::Deliver(None));
}

#[test]
fn mini_descriptor_bytes() {
    let expected: [u8; 42] = [
        0x06, 0x00, 0xff, 0x09, 0x01, 0xa1, 0x01, 0x85, 0x01, 0x09, 0x01, 0x15, 0x00, 0x26, 0xff,
        0x00, 0x75, 0x08, 0x96, 0x09, 0x00, 0xb1, 0x00, 0x09, 0x01, 0x75, 0x08, 0x96, 0x09, 0x00,
        0x81, 0x00, 0x09, 0x01, 0x75, 0x08, 0x96, 0x09, 0x00, 0x91, 0x00, 0xc0,
    ];
    assert_eq!(HID_MINI_REPORT_DESCRIPTOR, expected);
}

#[test]
fn mini_reports_are_packed() {
    let info = HidMiniControlInfo {
        report_id: 1,
        control_code: 2,
        dummy1: 0x0403_0201,
        dummy2: 0xa0b0_c0d0,
    };
    assert_eq!(
        struct_to_vec(info),
        [0x01, 0x02, 0x01, 0x02, 0x03, 0x04, 0xd0, 0xc0, 0xb0, 0xa0]
    );
    let input = HidMiniInputReport {
        report_id: 1,
        data: 0x7f,
    };
    assert_eq!(input.pack(), [0x01, 0x7f]);
    let output = HidMiniOutputReport {
        report_id: 1,
        data: 2,
        pad1: 0x1234,
        pad2: 0x89ab_cdef,
    };
    assert_eq!(output.pack(), [0x01, 0x02, 0x34, 0x12, 0xef, 0xcd, 0xab, 0x89]);
}
