use gamepad_bridge::scan::{handle_bt_scan_output, is_device_controller};

#[test]
fn named_controller_is_recognised() {
    assert!(is_device_controller("[NEW] Device 54:C2:8B:53:A4:3C Wireless Controller"));
    assert!(is_device_controller("[NEW] Device 54:C2:8B:53:A4:3C Xbox Wireless controller"));
    assert!(handle_bt_scan_output("[NEW] Device 54:C2:8B:53:A4:3C Wireless Controller"));
}

#[test]
fn other_lines_are_not_controllers() {
    assert!(!is_device_controller("[NEW] Device 54:C2:8B:53:A4:3C 54-C2-8B-53-A4-3C"));
    assert!(!is_device_controller("[CHG] Controller 14:F6:D8:7D:51:94 Discovering: yes"));
    assert!(!is_device_controller("[NEW] Device 54:C2:8B:53:A4:3C"));
    assert!(!is_device_controller("[NEW]"));
    assert!(!is_device_controller("[NEW] Device 54:C2:8B:53:A4:3C Controller"));
}

#[test]
fn only_new_devices_are_handled() {
    assert!(!handle_bt_scan_output("[CHG] Device 54:C2:8B:53:A4:3C Wireless Controller"));
    assert!(!handle_bt_scan_output("[DEL] Device 54:C2:8B:53:A4:3C Wireless Controller"));
    assert!(!handle_bt_scan_output("Discovery started"));
    assert!(!handle_bt_scan_output("[NEW] Device Discovery started Wireless Controller"));
    assert!(!handle_bt_scan_output("no upper case here"));
    assert!(!handle_bt_scan_output("[NE"));
}

#[test]
fn coloured_tags_are_read() {
    let line = "[\u{1}\u{1b}[0;92m\u{2}NEW\u{1}\u{1b}[0m\u{2}] Device 54:C2:8B:53:A4:3C DualSense Wireless Controller";
    assert!(handle_bt_scan_output(line));
}
