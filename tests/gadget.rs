use gamepad_bridge::dualsense::USB_REPORT_LENGTH;
use gamepad_bridge::gadget::{
    decimal_ascii, dualsense_report_descriptor, UsbGadgetConfigs, UsbGadgetDescriptor,
    UsbGadgetFunctionsHid, UsbGadgetStrings,
};

#[test]
fn decimal_digits() {
    assert_eq!(decimal_ascii(0), b"0".to_vec());
    assert_eq!(decimal_ascii(7), b"7".to_vec());
    assert_eq!(decimal_ascii(256), b"256".to_vec());
    assert_eq!(decimal_ascii(1356), b"1356".to_vec());
    assert_eq!(decimal_ascii(u64::MAX), u64::MAX.to_string().into_bytes());
}

#[test]
fn dualsense_descriptor_is_bit_exact() {
    let d = dualsense_report_descriptor();
    assert_eq!(d.len(), 273);
    assert_eq!(&d[..8], &[0x05, 0x01, 0x09, 0x05, 0xA1, 0x01, 0x85, 0x01]);
    assert_eq!(d[272], 0xC0);
    let g = UsbGadgetDescriptor::dualsense();
    assert_eq!(g.functions_hid.report_length as usize, USB_REPORT_LENGTH);
    assert_eq!(g.functions_hid.report_descriptor, d);
}

#[test]
fn dualsense_provisioning_writes() {
    let writes = UsbGadgetDescriptor::dualsense().configuration_writes();
    let listed: Vec<(String, Vec<u8>)> =
        writes.into_iter().map(|w| (w.file, w.contents)).collect();
    let expect = |file: &str, contents: &[u8]| (file.to_string(), contents.to_vec());
    assert_eq!(listed.len(), 17);
    assert_eq!(listed[0], expect("bcdDevice", b"256"));
    assert_eq!(listed[1], expect("bcdUSB", b"512"));
    assert_eq!(listed[5], expect("bMaxPacketSize0", b"64"));
    assert_eq!(listed[6], expect("idVendor", b"1356"));
    assert_eq!(listed[7], expect("idProduct", b"3302"));
    assert_eq!(listed[8], expect("configs/c.1/bmAttributes", b"192"));
    assert_eq!(listed[9], expect("configs/c.1/MaxPower", b"500"));
    assert_eq!(listed[10], expect("configs/c.1/strings/0x409/configuration", b""));
    assert_eq!(listed[11], expect("strings/0x409/manufacturer", b"Sony Interactive Entertainment"));
    assert_eq!(listed[12], expect("strings/0x409/product", b"Wireless Controller"));
    assert_eq!(listed[13], expect("functions/hid.usb0/protocol", b"0"));
    assert_eq!(listed[14], expect("functions/hid.usb0/report_length", b"64"));
    assert_eq!(listed[15], expect("functions/hid.usb0/subclass", b"0"));
    assert_eq!(listed[16].0, "functions/hid.usb0/report_desc");
    assert_eq!(listed[16].1.len(), 273);
}

#[test]
fn every_string_is_written_when_set() {
    let g = UsbGadgetDescriptor {
        bcd_usb: 0x0200,
        b_device_class: 0,
        b_device_sub_class: 0,
        b_device_protocol: 0,
        b_max_packet_size0: 8,
        id_vendor: 0x1d6b,
        id_product: 0x0104,
        bcd_device: 0x0100,
        strings_0x409: UsbGadgetStrings {
            manufacturer: "Maker".to_string(),
            product: "Keyboard".to_string(),
            serialnumber: "fedcba9876543210".to_string(),
        },
        configs_c1: UsbGadgetConfigs {
            bm_attributes: 0x80,
            max_power: 250,
            configs_string: "Configuration 1".to_string(),
        },
        functions_hid: UsbGadgetFunctionsHid {
            hid_subclass: 1,
            protocol: 1,
            report_length: 8,
            report_descriptor: vec![0x05, 0x01, 0xc0],
        },
    };
    let writes = g.configuration_writes();
    assert_eq!(writes.len(), 18);
    assert_eq!(writes[6].contents, b"7531".to_vec());
    assert_eq!(writes[10].contents, b"Configuration 1".to_vec());
    assert_eq!(writes[13].file, "strings/0x409/serialnumber");
    assert_eq!(writes[13].contents, b"fedcba9876543210".to_vec());
    assert_eq!(writes[17].contents, vec![0x05, 0x01, 0xc0]);
}
