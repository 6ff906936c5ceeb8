use android_auto_link::usb::{
    accessory_start, aoa_protocol_request, get_aoa_protocol, identify_accessory,
    is_android_device, is_in_accessory_mode, reset_stale_accessories, send_aoa_string,
    wait_for_accessory, AoaStringIndex, IdentifyAction, ResetAction, ResetEvent, StaleReset,
    UsbDeviceInfo, UsbInterfaceInfo, UsbSpeed, VendorIn, VendorOut, WaitAction, WaitEvent,
    AOA_INTERFACE,
};

fn device(vendor_id: u16, product_id: u16, interfaces: &[(u8, u8, u8)]) -> UsbDeviceInfo {
    UsbDeviceInfo {
        vendor_id,
        product_id,
        speed: Some(UsbSpeed::High),
        interfaces: interfaces
            .iter()
            .map(|i| UsbInterfaceInfo { class: i.0, subclass: i.1, protocol: i.2 })
            .collect(),
    }
}

fn accessory() -> UsbDeviceInfo {
    device(0x18d1, 0x2d00, &[])
}

fn other() -> UsbDeviceInfo {
    device(0x046d, 0xc077, &[(3, 1, 2)])
}

#[test]
fn accessories_are_recognised() {
    assert!(is_in_accessory_mode(&device(0x18d1, 0x2d00, &[])));
    assert!(is_in_accessory_mode(&device(0x18d1, 0x2d01, &[])));
    assert!(!is_in_accessory_mode(&device(0x18d1, 0x2d02, &[])));
    assert!(!is_in_accessory_mode(&device(0x18d0, 0x2d00, &[])));
}

#[test]
fn android_devices_are_recognised() {
    assert!(is_android_device(&accessory()));
    assert!(is_android_device(&device(1, 2, &[(3, 1, 2), (0xff, 0x42, 0x01)])));
    assert!(is_android_device(&device(1, 2, &[(6, 1, 9)])));
    assert!(!is_android_device(&device(1, 2, &[(0xff, 0x42, 0x02), (6, 2, 1)])));
    assert!(!is_android_device(&other()));
    assert!(!is_android_device(&device(0x18d1, 0x4ee1, &[])));
}

#[test]
fn waiting_pauses_and_looks() {
    assert_eq!(wait_for_accessory(&WaitEvent::Begin), WaitAction::Sleep(500));
    assert_eq!(wait_for_accessory(&WaitEvent::Woke), WaitAction::List);
    assert_eq!(wait_for_accessory(&WaitEvent::Listed(None)), WaitAction::Sleep(500));
    assert_eq!(
        wait_for_accessory(&WaitEvent::Listed(Some(vec![other()]))),
        WaitAction::Sleep(500)
    );
}

#[test]
fn waiting_ends_with_the_first_accessory() {
    let devices = vec![other(), accessory(), accessory()];
    assert_eq!(
        wait_for_accessory(&WaitEvent::Listed(Some(devices))),
        WaitAction::Open { index: 1, super_speed: false }
    );
    for (speed, super_speed) in [
        (None, false),
        (Some(UsbSpeed::Low), false),
        (Some(UsbSpeed::Full), false),
        (Some(UsbSpeed::High), false),
        (Some(UsbSpeed::Super), true),
        (Some(UsbSpeed::SuperPlus), true),
    ] {
        let mut phone = accessory();
        phone.speed = speed;
        assert_eq!(
            wait_for_accessory(&WaitEvent::Listed(Some(vec![phone]))),
            WaitAction::Open { index: 0, super_speed }
        );
    }
}

#[test]
fn stale_accessories_are_reset_in_turn() {
    let mut state = StaleReset::new();
    let devices = vec![accessory(), other(), accessory(), accessory()];
    let mut step = |event| reset_stale_accessories(&mut state, event);
    assert_eq!(step(ResetEvent::Listed(Some(devices))), ResetAction::Open(0));
    assert_eq!(step(ResetEvent::Opened(false)), ResetAction::Open(2));
    assert_eq!(step(ResetEvent::Opened(true)), ResetAction::Reset(2));
    assert_eq!(step(ResetEvent::Reset(true)), ResetAction::Open(3));
    assert_eq!(step(ResetEvent::Opened(true)), ResetAction::Reset(3));
    assert_eq!(step(ResetEvent::Reset(false)), ResetAction::Finish(true));
}

#[test]
fn nothing_reset_is_said_so() {
    let mut state = StaleReset::new();
    let event = ResetEvent::Listed(None);
    assert_eq!(reset_stale_accessories(&mut state, event), ResetAction::Finish(false));
    let event = ResetEvent::Listed(Some(vec![other()]));
    assert_eq!(reset_stale_accessories(&mut state, event), ResetAction::Finish(false));
    let event = ResetEvent::Listed(Some(vec![accessory()]));
    assert_eq!(reset_stale_accessories(&mut state, event), ResetAction::Open(0));
    let event = ResetEvent::Opened(true);
    assert_eq!(reset_stale_accessories(&mut state, event), ResetAction::Reset(0));
    let event = ResetEvent::Reset(false);
    assert_eq!(reset_stale_accessories(&mut state, event), ResetAction::Finish(false));
}

#[test]
fn the_head_unit_identifies_itself() {
    let strings = ["Android", "Android Auto", "Android Auto", "2.0.1", "", "HU-AAAAAA"];
    for (i, string) in strings.iter().enumerate() {
        assert_eq!(
            identify_accessory(i, false),
            IdentifyAction::Send(VendorOut {
                request: 52,
                value: 0,
                index: i as u16,
                data: string.as_bytes().to_vec(),
                timeout_ms: 1000,
            })
        );
    }
    assert_eq!(identify_accessory(6, false), IdentifyAction::Done);
    assert_eq!(identify_accessory(3, true), IdentifyAction::Failed);
}

#[test]
fn strings_are_sent_as_utf8() {
    let out = send_aoa_string(7, "h\u{e9}");
    assert_eq!(out.index, 7);
    assert_eq!(out.data, vec![0x68, 0xc3, 0xa9]);
    assert_eq!(AoaStringIndex::SerialNumber.index(), 5);
    assert_eq!(AoaStringIndex::Version.value(), "2.0.1");
}

#[test]
fn accessory_mode_is_started() {
    assert_eq!(
        accessory_start(),
        VendorOut { request: 53, value: 0, index: 0, data: vec![], timeout_ms: 1000 }
    );
    assert_eq!(AOA_INTERFACE, 0);
}

#[test]
fn the_protocol_version_is_asked_for() {
    assert_eq!(
        aoa_protocol_request(),
        VendorIn { request: 51, value: 0, index: 0, length: 2, timeout_ms: 1000 }
    );
}

#[test]
fn the_protocol_version_is_read() {
    assert_eq!(get_aoa_protocol(None), None);
    assert_eq!(get_aoa_protocol(Some(&[])), None);
    assert_eq!(get_aoa_protocol(Some(&[2])), None);
    assert_eq!(get_aoa_protocol(Some(&[0, 0])), None);
    assert_eq!(get_aoa_protocol(Some(&[2, 0])), Some(2));
    assert_eq!(get_aoa_protocol(Some(&[0x34, 0x12, 9])), Some(0x1234));
    assert_eq!(get_aoa_protocol(Some(&[0xff, 0xff])), Some(0xffff));
}

#[test]
fn every_accessory_is_taken_once() {
    let devices = vec![accessory(), accessory(), other(), accessory(), other(), accessory()];
    let opens = [true, false, true, true, true, true];
    let resets = [false, true, true, true, true, true];
    let mut state = StaleReset::new();
    let mut event = ResetEvent::Listed(Some(devices));
    let mut opened = Vec::new();
    let mut were_reset = Vec::new();
    let any = loop {
        event = match reset_stale_accessories(&mut state, event) {
            ResetAction::Open(k) => {
                opened.push(k);
                ResetEvent::Opened(opens[k])
            }
            ResetAction::Reset(k) => {
                were_reset.push(k);
                ResetEvent::Reset(resets[k])
            }
            ResetAction::Finish(any) => break any,
        };
    };
    assert_eq!(opened, vec![0, 1, 3, 5]);
    assert_eq!(were_reset, vec![0, 3, 5]);
    assert!(any);
}
