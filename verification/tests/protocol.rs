use crossclicker::device::{
    construction_error, name_buffer, teardown_plan, ControlOp, DeviceConfig, DeviceError,
    DeviceIdentity, BUS_TYPE_USB, IOCTL_DEVICE_CREATE, IOCTL_DEVICE_DESTROY, IOCTL_DEVICE_SETUP,
    IOCTL_SET_EVENT_BIT, IOCTL_SET_KEY_BIT,
};
use crossclicker::events::{
    click_bytes, click_records, encode_event, Button, EventRecord, BUTTON_LEFT_CODE,
    BUTTON_MIDDLE_CODE, BUTTON_RIGHT_CODE, EVENT_CLASS_KEY, EVENT_CLASS_SYNC, SYNC_REPORT_CODE,
};

fn assert_click_order(code: u16) {
    let records = click_records(code);
    assert_eq!(records.len(), 4);

    // Press: key class, the button's code, value 1.
    assert_eq!(records[0].kind, EVENT_CLASS_KEY);
    assert_eq!(records[0].code, code);
    assert_eq!(records[0].value, 1);

    // Sync report after the press.
    assert_eq!(records[1].kind, EVENT_CLASS_SYNC);
    assert_eq!(records[1].code, SYNC_REPORT_CODE);
    assert_eq!(records[1].value, 0);

    // Release: key class, the same code, value 0.
    assert_eq!(records[2].kind, EVENT_CLASS_KEY);
    assert_eq!(records[2].code, code);
    assert_eq!(records[2].value, 0);

    // Sync report after the release.
    assert_eq!(records[3].kind, EVENT_CLASS_SYNC);
    assert_eq!(records[3].code, SYNC_REPORT_CODE);
    assert_eq!(records[3].value, 0);

    // Timestamps are zero throughout.
    for r in &records {
        assert_eq!(r.seconds, 0);
        assert_eq!(r.microseconds, 0);
    }
}

#[test]
fn click_is_press_sync_release_sync_for_every_button() {
    assert_click_order(Button::Left.code());
    assert_click_order(Button::Right.code());
    assert_click_order(Button::Middle.code());
}

#[test]
fn button_codes_are_the_kernel_ones() {
    assert_eq!(Button::Left.code(), 0x110);
    assert_eq!(Button::Right.code(), 0x111);
    assert_eq!(Button::Middle.code(), 0x112);
    assert_eq!(BUTTON_LEFT_CODE, 0x110);
    assert_eq!(BUTTON_RIGHT_CODE, 0x111);
    assert_eq!(BUTTON_MIDDLE_CODE, 0x112);
}

#[test]
fn press_record_encodes_to_exact_bytes() {
    let record = EventRecord {
        seconds: 0,
        microseconds: 0,
        kind: EVENT_CLASS_KEY,
        code: 0x110,
        value: 1,
    };
    let bytes = encode_event(&record);
    let mut expected = vec![0u8; 16]; // zero timestamp: 8 + 8 bytes
    expected.extend_from_slice(&[0x01, 0x00]); // class EV_KEY
    expected.extend_from_slice(&[0x10, 0x01]); // code BTN_LEFT, little-endian
    expected.extend_from_slice(&[0x01, 0x00, 0x00, 0x00]); // value 1
    assert_eq!(bytes, expected);
}

#[test]
fn negative_timestamp_encodes_as_twos_complement() {
    let record = EventRecord {
        seconds: -1,
        microseconds: -2,
        kind: EVENT_CLASS_SYNC,
        code: 0,
        value: 0,
    };
    let bytes = encode_event(&record);
    assert_eq!(&bytes[0..8], &[0xFF; 8]);
    assert_eq!(
        &bytes[8..16],
        &[0xFE, 0xFF, 0xFF, 0xFF, 0xFF, 0xFF, 0xFF, 0xFF]
    );
    assert_eq!(&bytes[16..24], &[0u8; 8]);
}

#[test]
fn click_bytes_are_the_encoded_click_records() {
    let images = click_bytes(0x111);
    let records = click_records(0x111);
    assert_eq!(images.len(), 4);
    for (image, record) in images.iter().zip(records.iter()) {
        assert_eq!(image, &encode_event(record));
        assert_eq!(image.len(), 24);
    }
}

#[test]
fn name_buffer_pads_short_names_with_nulls() {
    let name = b"VirtualMouse".to_vec();
    let buffer = name_buffer(&name);
    assert_eq!(buffer.len(), 80);
    assert_eq!(&buffer[0..12], b"VirtualMouse");
    assert!(buffer[12..].iter().all(|&b| b == 0));
}

#[test]
fn name_buffer_of_empty_name_is_all_nulls() {
    let buffer = name_buffer(&Vec::new());
    assert_eq!(buffer, vec![0u8; 80]);
}

#[test]
fn name_buffer_truncates_long_names() {
    let name = vec![0x41u8; 100]; // 100 times 'A'
    let buffer = name_buffer(&name);
    assert_eq!(buffer, vec![0x41u8; 80]);
}

#[test]
fn identity_encodes_to_exact_bytes() {
    let identity = DeviceIdentity::default_identity();
    let bytes = identity.encode();
    assert_eq!(bytes.len(), 92);
    // bus type BUS_USB, vendor 0x1337, product 0x7331, version 0.
    assert_eq!(&bytes[0..8], &[0x03, 0x00, 0x37, 0x13, 0x31, 0x73, 0x00, 0x00]);
    assert_eq!(&bytes[8..20], b"VirtualMouse");
    assert!(bytes[20..88].iter().all(|&b| b == 0));
    // effect count, unused, zero.
    assert_eq!(&bytes[88..92], &[0x00, 0x00, 0x00, 0x00]);
}

#[test]
fn setup_plan_declares_exactly_the_configured_buttons() {
    let config = DeviceConfig::pointer_with_left_and_right();
    let plan = config.setup_plan();
    assert_eq!(
        plan,
        vec![
            ControlOp::SetEventBit(EVENT_CLASS_KEY),
            ControlOp::SetKeyBit(0x110),
            ControlOp::SetKeyBit(0x111),
            ControlOp::DeviceSetup,
            ControlOp::DeviceCreate,
        ]
    );
}

#[test]
fn setup_plan_with_no_buttons_declares_none() {
    let config = DeviceConfig {
        identity: DeviceIdentity::default_identity(),
        buttons: Vec::new(),
    };
    let plan = config.setup_plan();
    assert_eq!(
        plan,
        vec![
            ControlOp::SetEventBit(EVENT_CLASS_KEY),
            ControlOp::DeviceSetup,
            ControlOp::DeviceCreate,
        ]
    );
}

#[test]
fn declares_reports_exactly_the_configured_buttons() {
    let config = DeviceConfig::pointer_with_left_and_right();
    assert!(config.declares(Button::Left));
    assert!(config.declares(Button::Right));
    assert!(!config.declares(Button::Middle));
}

#[test]
fn control_codes_and_arguments_are_exact() {
    assert_eq!(
        ControlOp::SetEventBit(EVENT_CLASS_KEY).request_code(),
        IOCTL_SET_EVENT_BIT
    );
    assert_eq!(IOCTL_SET_EVENT_BIT, 0x4004_5564);
    assert_eq!(ControlOp::SetKeyBit(0x110).request_code(), IOCTL_SET_KEY_BIT);
    assert_eq!(IOCTL_SET_KEY_BIT, 0x4004_5565);
    assert_eq!(ControlOp::DeviceSetup.request_code(), IOCTL_DEVICE_SETUP);
    assert_eq!(IOCTL_DEVICE_SETUP, 0x405C_5503);
    assert_eq!(ControlOp::DeviceCreate.request_code(), IOCTL_DEVICE_CREATE);
    assert_eq!(IOCTL_DEVICE_CREATE, 0x5501);
    assert_eq!(ControlOp::DeviceDestroy.request_code(), IOCTL_DEVICE_DESTROY);
    assert_eq!(IOCTL_DEVICE_DESTROY, 0x5502);

    assert_eq!(ControlOp::SetEventBit(EVENT_CLASS_KEY).int_arg(), Some(1));
    assert_eq!(ControlOp::SetKeyBit(0x110).int_arg(), Some(0x110));
    assert_eq!(ControlOp::DeviceSetup.int_arg(), None);
    assert_eq!(ControlOp::DeviceCreate.int_arg(), None);
    assert_eq!(ControlOp::DeviceDestroy.int_arg(), None);

    assert_eq!(BUS_TYPE_USB, 0x03);
}

#[test]
fn teardown_plan_is_exactly_one_destroy() {
    assert_eq!(teardown_plan(), vec![ControlOp::DeviceDestroy]);
}

#[test]
fn each_construction_step_maps_to_its_error() {
    assert_eq!(
        construction_error(&ControlOp::SetEventBit(EVENT_CLASS_KEY), 13),
        DeviceError::CapabilityDeclarationFailed(13)
    );
    assert_eq!(
        construction_error(&ControlOp::SetKeyBit(0x110), 19),
        DeviceError::CapabilityDeclarationFailed(19)
    );
    assert_eq!(
        construction_error(&ControlOp::DeviceSetup, 22),
        DeviceError::DeviceSetupFailed(22)
    );
    assert_eq!(
        construction_error(&ControlOp::DeviceCreate, 5),
        DeviceError::DeviceCreateFailed(5)
    );
}
