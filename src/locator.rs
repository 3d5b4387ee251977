//! Choosing the physical controller among the HID devices that the host
//! lists, by transport and by vendor and product id.
use vstd::prelude::*;

verus! {

/// Why no controller could be used.
#[derive(Clone, Copy, Debug, PartialEq, Eq, Structural)]
pub enum HidApiGamepadError {
    /// No HID device is connected over Bluetooth.
    NoBTDevice,
    /// Bluetooth HID devices are connected, but none is a supported model.
    NoSupportedDevice,
    /// A supported controller was found but could not be opened.
    OpenFailed,
}

/// Controller models that can be recognised on the input side.
#[derive(Clone, Copy, Debug, PartialEq, Eq, Structural)]
pub enum SupportedInputGamepads {
    Ps5DualSense,
    PS4DualShock,
}

/// Controller families whose reports the USB-layout reader handles.
#[derive(Clone, Copy, Debug, PartialEq, Eq, Structural)]
pub enum GamepadModel {
    PS5,
    PS4,
}

/// What the host reports of one connected HID device.
#[derive(Clone, Copy, Debug, PartialEq, Eq, Structural)]
pub struct HidDeviceEntry {
    /// Connected over Bluetooth (rather than USB or another bus).
    pub bluetooth: bool,
    pub vendor_id: u16,
    pub product_id: u16,
}

/// Sony's vendor id.
pub const SONY_VENDOR_ID: u16 = 0x054c;

/// Product id of the DualSense.
pub const DUALSENSE_PRODUCT_ID: u16 = 0x0ce6;

/// The model that a vendor and product id pair identifies, if it is one the
/// bridge can decode.
pub open spec fn spec_supported(vendor_id: u16, product_id: u16) -> Option<SupportedInputGamepads> {
    if vendor_id == SONY_VENDOR_ID && product_id == DUALSENSE_PRODUCT_ID {
        Some(SupportedInputGamepads::Ps5DualSense)
    } else {
        None
    }
}

/// Device `d` is a Bluetooth device of a supported model.
pub open spec fn usable(d: HidDeviceEntry) -> bool {
    d.bluetooth && spec_supported(d.vendor_id, d.product_id).is_some()
}

/// Recognises a controller model by its vendor and product id.
pub fn supported_input_gamepad(vendor_id: u16, product_id: u16) -> (r: Option<SupportedInputGamepads>)
    ensures
        r == spec_supported(vendor_id, product_id),
{
    if vendor_id == SONY_VENDOR_ID && product_id == DUALSENSE_PRODUCT_ID {
        Some(SupportedInputGamepads::Ps5DualSense)
    } else {
        None
    }
}

/// Picks the first Bluetooth device of a supported model, with its index in
/// `devices` and its model. Fails with `NoBTDevice` when no device is on
/// Bluetooth, else with `NoSupportedDevice` when none of those is supported.
pub fn select_hid_gamepad(devices: &Vec<HidDeviceEntry>) -> (r: Result<
    (usize, SupportedInputGamepads),
    HidApiGamepadError,
>)
    ensures
        r matches Ok((i, m)) ==> {
            &&& i < devices@.len()
            &&& usable(devices@[i as int])
            &&& spec_supported(devices@[i as int].vendor_id, devices@[i as int].product_id) == Some(m)
            &&& forall|j: int| 0 <= j < i ==> !usable(#[trigger] devices@[j])
        },
        r == Err::<(usize, SupportedInputGamepads), _>(HidApiGamepadError::NoBTDevice) <==> forall|
            j: int,
        |
            0 <= j < devices@.len() ==> !(#[trigger] devices@[j]).bluetooth,
        r == Err::<(usize, SupportedInputGamepads), _>(HidApiGamepadError::NoSupportedDevice) <==> (
        exists|j: int| 0 <= j < devices@.len() && (#[trigger] devices@[j]).bluetooth) && forall|
            j: int,
        |
            0 <= j < devices@.len() ==> !usable(#[trigger] devices@[j]),
        r != Err::<(usize, SupportedInputGamepads), _>(HidApiGamepadError::OpenFailed),
{
    let mut any_bluetooth = false;
    let mut i: usize = 0;
    while i < devices.len()
        invariant
            i <= devices@.len(),
            forall|j: int| 0 <= j < i ==> !usable(#[trigger] devices@[j]),
            any_bluetooth <==> exists|j: int| 0 <= j < i && (#[trigger] devices@[j]).bluetooth,
        decreases devices@.len() - i,
    {
        let d = devices[i];
        if d.bluetooth {
            match supported_input_gamepad(d.vendor_id, d.product_id) {
                Some(m) => {
                    return Ok((i, m));
                },
                None => {},
            }
            any_bluetooth = true;
        }
        i = i + 1;
    }
    if any_bluetooth {
        Err(HidApiGamepadError::NoSupportedDevice)
    } else {
        Err(HidApiGamepadError::NoBTDevice)
    }
}

/// Bus number of Bluetooth in the kernel's HID ids.
pub const BUS_BLUETOOTH: u16 = 0x0005;

/// Value of a hexadecimal digit.
pub open spec fn hex_digit(c: char) -> Option<nat> {
    if '0' <= c && c <= '9' {
        Some((c as nat - 48) as nat)
    } else if 'a' <= c && c <= 'f' {
        Some((c as nat - 87) as nat)
    } else if 'A' <= c && c <= 'F' {
        Some((c as nat - 55) as nat)
    } else {
        None
    }
}

/// Value of the four hexadecimal digits of `s` from index `at`.
pub open spec fn hex4(s: Seq<char>, at: int) -> Option<nat> {
    match (hex_digit(s[at]), hex_digit(s[at + 1]), hex_digit(s[at + 2]), hex_digit(s[at + 3])) {
        (Some(a), Some(b), Some(c), Some(d)) => Some(a * 4096 + b * 256 + c * 16 + d),
        _ => None,
    }
}

pub open spec fn hid_id_prefix() -> Seq<char> {
    seq!['H', 'I', 'D', '_', 'I', 'D', '=']
}

pub open spec fn four_zeros() -> Seq<char> {
    seq!['0', '0', '0', '0']
}

/// The device that a kernel line `HID_ID=BBBB:VVVVVVVV:PPPPPPPP` (bus,
/// vendor and product in hexadecimal) describes. Vendor and product ids are
/// 16 bits wide, so their upper four digits must be zero.
pub open spec fn spec_parse_hid_id(s: Seq<char>) -> Option<HidDeviceEntry> {
    if s.len() == 29 && s.subrange(0, 7) == hid_id_prefix() && s[11] == ':' && s[20] == ':'
        && s.subrange(12, 16) == four_zeros() && s.subrange(21, 25) == four_zeros() {
        match (hex4(s, 7), hex4(s, 16), hex4(s, 25)) {
            (Some(bus), Some(vendor), Some(product)) => Some(
                HidDeviceEntry {
                    bluetooth: bus == BUS_BLUETOOTH,
                    vendor_id: vendor as u16,
                    product_id: product as u16,
                },
            ),
            _ => None,
        }
    } else {
        None
    }
}

fn hex_digit_value(c: char) -> (r: Option<u16>)
    ensures
        r matches Some(v) ==> hex_digit(c) == Some(v as nat),
        r is None ==> hex_digit(c) is None,
{
    if '0' <= c && c <= '9' {
        Some((c as u32 - 48) as u16)
    } else if 'a' <= c && c <= 'f' {
        Some((c as u32 - 87) as u16)
    } else if 'A' <= c && c <= 'F' {
        Some((c as u32 - 55) as u16)
    } else {
        None
    }
}

fn hex4_value(s: &Vec<char>, at: usize) -> (r: Option<u16>)
    requires
        at + 4 <= s@.len(),
    ensures
        r matches Some(v) ==> hex4(s@, at as int) == Some(v as nat),
        r is None ==> hex4(s@, at as int) is None,
{
    let n = s.len();
    assert(at + 3 < n);
    let a = match hex_digit_value(s[at]) {
        Some(v) => v,
        None => return None,
    };
    let b = match hex_digit_value(s[at + 1]) {
        Some(v) => v,
        None => return None,
    };
    let c = match hex_digit_value(s[at + 2]) {
        Some(v) => v,
        None => return None,
    };
    let d = match hex_digit_value(s[at + 3]) {
        Some(v) => v,
        None => return None,
    };
    Some(a * 4096 + b * 256 + c * 16 + d)
}

fn chars_match(s: &Vec<char>, at: usize, pat: &Vec<char>) -> (r: bool)
    requires
        at + pat@.len() <= s@.len(),
    ensures
        r == (s@.subrange(at as int, at + pat@.len()) == pat@),
{
    let n = s.len();
    let mut k: usize = 0;
    while k < pat.len()
        invariant
            k <= pat@.len(),
            n == s@.len(),
            at + pat@.len() <= n,
            forall|m: int| 0 <= m < k ==> s@[at + m] == pat@[m],
        decreases pat@.len() - k,
    {
        if s[at + k] != pat[k] {
            assert(s@.subrange(at as int, at + pat@.len())[k as int] != pat@[k as int]);
            return false;
        }
        k = k + 1;
    }
    assert(s@.subrange(at as int, at + pat@.len()) =~= pat@);
    true
}

/// Reads the device that a kernel `HID_ID=` line describes; `None` for any
/// other line.
pub fn parse_hid_id(line: &str) -> (r: Option<HidDeviceEntry>)
    ensures
        r == spec_parse_hid_id(line@),
{
    let n = line.unicode_len();
    if n != 29 {
        return None;
    }
    let mut s: Vec<char> = Vec::new();
    let mut i: usize = 0;
    while i < n
        invariant
            n == line@.len(),
            i <= n,
            s@ == line@.subrange(0, i as int),
        decreases n - i,
    {
        s.push(line.get_char(i));
        i = i + 1;
    }
    assert(s@ =~= line@);
    let prefix: Vec<char> = vec!['H', 'I', 'D', '_', 'I', 'D', '='];
    let zeros: Vec<char> = vec!['0', '0', '0', '0'];
    assert(prefix@ =~= hid_id_prefix());
    assert(zeros@ =~= four_zeros());
    if !chars_match(&s, 0, &prefix) || s[11] != ':' || s[20] != ':' || !chars_match(&s, 12, &zeros)
        || !chars_match(&s, 21, &zeros) {
        return None;
    }
    match (hex4_value(&s, 7), hex4_value(&s, 16), hex4_value(&s, 25)) {
        (Some(bus), Some(vendor_id), Some(product_id)) => Some(
            HidDeviceEntry { bluetooth: bus == BUS_BLUETOOTH, vendor_id, product_id },
        ),
        _ => None,
    }
}

} // verus!
