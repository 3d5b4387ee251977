//! Description of the emulated USB peripheral: the values that provisioning
//! hands to the host-side gadget driver.
use vstd::prelude::*;
use vstd::utf8::encode_utf8;

verus! {

/// Length in bytes of the DualSense report descriptor.
pub const DUALSENSE_REPORT_DESCRIPTOR_LEN: usize = 273;

/// Device-level values of the emulated peripheral.
pub struct UsbGadgetDescriptor {
    /// USB release in BCD (`0x200` is 2.00).
    pub bcd_usb: u16,
    pub b_device_class: u8,
    pub b_device_sub_class: u8,
    pub b_device_protocol: u8,
    /// Maximum packet size of endpoint zero: 8, 16, 32 or 64.
    pub b_max_packet_size0: u8,
    pub id_vendor: u16,
    pub id_product: u16,
    /// Device release in BCD.
    pub bcd_device: u16,
    /// English (0x409) strings.
    pub strings_0x409: UsbGadgetStrings,
    pub configs_c1: UsbGadgetConfigs,
    pub functions_hid: UsbGadgetFunctionsHid,
}

/// Strings of the device; an empty one is left unset.
pub struct UsbGadgetStrings {
    pub serialnumber: String,
    pub product: String,
    pub manufacturer: String,
}

/// The single configuration of the device.
pub struct UsbGadgetConfigs {
    /// Bus powered (`0x80`), self powered (`0x40`), remote wakeup (`0x20`);
    /// the top bit must be set.
    pub bm_attributes: u8,
    /// Maximum current in mA, at most 500.
    pub max_power: u16,
    pub configs_string: String,
}

/// The HID function of the device.
pub struct UsbGadgetFunctionsHid {
    /// HID protocol: 0 none, 1 keyboard, 2 mouse.
    pub protocol: u8,
    /// Describes the device's reports to the host; sent as it is.
    pub report_descriptor: Vec<u8>,
    /// Length of each input report (not of the report descriptor).
    pub report_length: u16,
    /// HID subclass: 1 is a boot interface.
    pub hid_subclass: u8,
}

/// The report descriptor that a genuine DualSense advertises: one input
/// report (id 1) of 63 bytes after the id, with six axes, a hat switch and 15
/// buttons, then vendor-defined output and feature reports.
pub open spec fn spec_dualsense_report_descriptor() -> Seq<u8> {
    seq![
        0x05u8, 0x01, 0x09, 0x05, 0xA1, 0x01, 0x85, 0x01, 0x09, 0x30, 0x09, 0x31, 0x09, 0x32, 0x09, 0x35,
        0x09, 0x33, 0x09, 0x34, 0x15, 0x00, 0x26, 0xFF, 0x00, 0x75, 0x08, 0x95, 0x06, 0x81, 0x02, 0x06,
        0x00, 0xFF, 0x09, 0x20, 0x95, 0x01, 0x81, 0x02, 0x05, 0x01, 0x09, 0x39, 0x15, 0x00, 0x25, 0x07,
        0x35, 0x00, 0x46, 0x3B, 0x01, 0x65, 0x14, 0x75, 0x04, 0x95, 0x01, 0x81, 0x42, 0x65, 0x00, 0x05,
        0x09, 0x19, 0x01, 0x29, 0x0F, 0x15, 0x00, 0x25, 0x01, 0x75, 0x01, 0x95, 0x0F, 0x81, 0x02, 0x06,
        0x00, 0xFF, 0x09, 0x21, 0x95, 0x0D, 0x81, 0x02, 0x06, 0x00, 0xFF, 0x09, 0x22, 0x15, 0x00, 0x26,
        0xFF, 0x00, 0x75, 0x08, 0x95, 0x34, 0x81, 0x02, 0x85, 0x02, 0x09, 0x23, 0x95, 0x2F, 0x91, 0x02,
        0x85, 0x05, 0x09, 0x33, 0x95, 0x28, 0xB1, 0x02, 0x85, 0x08, 0x09, 0x34, 0x95, 0x2F, 0xB1, 0x02,
        0x85, 0x09, 0x09, 0x24, 0x95, 0x13, 0xB1, 0x02, 0x85, 0x0A, 0x09, 0x25, 0x95, 0x1A, 0xB1, 0x02,
        0x85, 0x20, 0x09, 0x26, 0x95, 0x3F, 0xB1, 0x02, 0x85, 0x21, 0x09, 0x27, 0x95, 0x04, 0xB1, 0x02,
        0x85, 0x22, 0x09, 0x40, 0x95, 0x3F, 0xB1, 0x02, 0x85, 0x80, 0x09, 0x28, 0x95, 0x3F, 0xB1, 0x02,
        0x85, 0x81, 0x09, 0x29, 0x95, 0x3F, 0xB1, 0x02, 0x85, 0x82, 0x09, 0x2A, 0x95, 0x09, 0xB1, 0x02,
        0x85, 0x83, 0x09, 0x2B, 0x95, 0x3F, 0xB1, 0x02, 0x85, 0x84, 0x09, 0x2C, 0x95, 0x3F, 0xB1, 0x02,
        0x85, 0x85, 0x09, 0x2D, 0x95, 0x02, 0xB1, 0x02, 0x85, 0xA0, 0x09, 0x2E, 0x95, 0x01, 0xB1, 0x02,
        0x85, 0xE0, 0x09, 0x2F, 0x95, 0x3F, 0xB1, 0x02, 0x85, 0xF0, 0x09, 0x30, 0x95, 0x3F, 0xB1, 0x02,
        0x85, 0xF1, 0x09, 0x31, 0x95, 0x3F, 0xB1, 0x02, 0x85, 0xF2, 0x09, 0x32, 0x95, 0x0F, 0xB1, 0x02,
        0x85, 0xF4, 0x09, 0x35, 0x95, 0x3F, 0xB1, 0x02, 0x85, 0xF5, 0x09, 0x36, 0x95, 0x03, 0xB1, 0x02,
        0xC0,
    ]
}

/// The DualSense report descriptor, byte for byte.
pub fn dualsense_report_descriptor() -> (r: Vec<u8>)
    ensures
        r@ == spec_dualsense_report_descriptor(),
        r@.len() == DUALSENSE_REPORT_DESCRIPTOR_LEN,
{
    let r: Vec<u8> = vec![
        0x05, 0x01, 0x09, 0x05, 0xA1, 0x01, 0x85, 0x01, 0x09, 0x30, 0x09, 0x31, 0x09, 0x32, 0x09, 0x35,
        0x09, 0x33, 0x09, 0x34, 0x15, 0x00, 0x26, 0xFF, 0x00, 0x75, 0x08, 0x95, 0x06, 0x81, 0x02, 0x06,
        0x00, 0xFF, 0x09, 0x20, 0x95, 0x01, 0x81, 0x02, 0x05, 0x01, 0x09, 0x39, 0x15, 0x00, 0x25, 0x07,
        0x35, 0x00, 0x46, 0x3B, 0x01, 0x65, 0x14, 0x75, 0x04, 0x95, 0x01, 0x81, 0x42, 0x65, 0x00, 0x05,
        0x09, 0x19, 0x01, 0x29, 0x0F, 0x15, 0x00, 0x25, 0x01, 0x75, 0x01, 0x95, 0x0F, 0x81, 0x02, 0x06,
        0x00, 0xFF, 0x09, 0x21, 0x95, 0x0D, 0x81, 0x02, 0x06, 0x00, 0xFF, 0x09, 0x22, 0x15, 0x00, 0x26,
        0xFF, 0x00, 0x75, 0x08, 0x95, 0x34, 0x81, 0x02, 0x85, 0x02, 0x09, 0x23, 0x95, 0x2F, 0x91, 0x02,
        0x85, 0x05, 0x09, 0x33, 0x95, 0x28, 0xB1, 0x02, 0x85, 0x08, 0x09, 0x34, 0x95, 0x2F, 0xB1, 0x02,
        0x85, 0x09, 0x09, 0x24, 0x95, 0x13, 0xB1, 0x02, 0x85, 0x0A, 0x09, 0x25, 0x95, 0x1A, 0xB1, 0x02,
        0x85, 0x20, 0x09, 0x26, 0x95, 0x3F, 0xB1, 0x02, 0x85, 0x21, 0x09, 0x27, 0x95, 0x04, 0xB1, 0x02,
        0x85, 0x22, 0x09, 0x40, 0x95, 0x3F, 0xB1, 0x02, 0x85, 0x80, 0x09, 0x28, 0x95, 0x3F, 0xB1, 0x02,
        0x85, 0x81, 0x09, 0x29, 0x95, 0x3F, 0xB1, 0x02, 0x85, 0x82, 0x09, 0x2A, 0x95, 0x09, 0xB1, 0x02,
        0x85, 0x83, 0x09, 0x2B, 0x95, 0x3F, 0xB1, 0x02, 0x85, 0x84, 0x09, 0x2C, 0x95, 0x3F, 0xB1, 0x02,
        0x85, 0x85, 0x09, 0x2D, 0x95, 0x02, 0xB1, 0x02, 0x85, 0xA0, 0x09, 0x2E, 0x95, 0x01, 0xB1, 0x02,
        0x85, 0xE0, 0x09, 0x2F, 0x95, 0x3F, 0xB1, 0x02, 0x85, 0xF0, 0x09, 0x30, 0x95, 0x3F, 0xB1, 0x02,
        0x85, 0xF1, 0x09, 0x31, 0x95, 0x3F, 0xB1, 0x02, 0x85, 0xF2, 0x09, 0x32, 0x95, 0x0F, 0xB1, 0x02,
        0x85, 0xF4, 0x09, 0x35, 0x95, 0x3F, 0xB1, 0x02, 0x85, 0xF5, 0x09, 0x36, 0x95, 0x03, 0xB1, 0x02,
        0xC0,
    ];
    assert(r@ =~= spec_dualsense_report_descriptor());
    r
}

impl UsbGadgetDescriptor {
    /// The emulated peripheral of a DualSense: Sony's vendor and product ids,
    /// its strings, and its HID function with 64-byte reports.
    pub fn dualsense() -> (r: Self)
        ensures
            r.id_vendor == 0x054c,
            r.id_product == 0x0ce6,
            r.bcd_usb == 0x200,
            r.bcd_device == 0x100,
            r.b_max_packet_size0 == 64,
            r.b_device_class == 0 && r.b_device_sub_class == 0 && r.b_device_protocol == 0,
            r.strings_0x409.manufacturer@ == "Sony Interactive Entertainment"@,
            r.strings_0x409.product@ == "Wireless Controller"@,
            r.strings_0x409.serialnumber@ == ""@,
            r.configs_c1.bm_attributes == 0xc0,
            r.configs_c1.max_power == 500,
            r.configs_c1.configs_string@ == ""@,
            r.functions_hid.protocol == 0,
            r.functions_hid.hid_subclass == 0,
            r.functions_hid.report_length == 64,
            r.functions_hid.report_descriptor@ == spec_dualsense_report_descriptor(),
    {
        UsbGadgetDescriptor {
            bcd_usb: 0x200,
            b_device_class: 0,
            b_device_sub_class: 0,
            b_device_protocol: 0,
            b_max_packet_size0: 64,
            id_vendor: 0x054c,
            id_product: 0x0ce6,
            bcd_device: 0x100,
            strings_0x409: UsbGadgetStrings {
                manufacturer: String::from_str("Sony Interactive Entertainment"),
                product: String::from_str("Wireless Controller"),
                serialnumber: String::from_str(""),
            },
            configs_c1: UsbGadgetConfigs {
                bm_attributes: 0xc0,
                max_power: 500,
                configs_string: String::from_str(""),
            },
            functions_hid: UsbGadgetFunctionsHid {
                hid_subclass: 0,
                protocol: 0,
                report_length: 64,
                report_descriptor: dualsense_report_descriptor(),
            },
        }
    }
}

/// One attribute file of the gadget to write: its path relative to the
/// gadget's configfs directory, and the bytes it receives.
pub struct AttributeWrite {
    pub file: String,
    pub contents: Vec<u8>,
}

/// Decimal digits of `n`, in ASCII, most significant first.
pub open spec fn spec_decimal(n: nat) -> Seq<u8>
    decreases n,
{
    if n < 10 {
        seq![(48 + n) as u8]
    } else {
        spec_decimal(n / 10) + seq![(48 + n % 10) as u8]
    }
}

/// Writes `v` as `plan` lists them.
pub open spec fn follows_plan(v: Seq<AttributeWrite>, plan: Seq<(Seq<char>, Seq<u8>)>) -> bool {
    &&& v.len() == plan.len()
    &&& forall|i: int| 0 <= i < v.len() ==> (#[trigger] v[i]).file@ == plan[i].0 && v[i].contents@ == plan[i].1
}

/// A string attribute is written, as UTF-8, only when the string is not
/// empty.
pub open spec fn string_plan(file: Seq<char>, s: Seq<char>) -> Seq<(Seq<char>, Seq<u8>)> {
    if s.len() == 0 {
        Seq::empty()
    } else {
        seq![(file, encode_utf8(s))]
    }
}

/// The attribute writes that provision `d`, in order: device values,
/// configuration, the non-empty strings, then the HID function. Numbers are
/// written in decimal.
pub open spec fn spec_configuration_writes(d: UsbGadgetDescriptor) -> Seq<(Seq<char>, Seq<u8>)> {
    seq![
        ("bcdDevice"@, spec_decimal(d.bcd_device as nat)),
        ("bcdUSB"@, spec_decimal(d.bcd_usb as nat)),
        ("bDeviceClass"@, spec_decimal(d.b_device_class as nat)),
        ("bDeviceSubClass"@, spec_decimal(d.b_device_sub_class as nat)),
        ("bDeviceProtocol"@, spec_decimal(d.b_device_protocol as nat)),
        ("bMaxPacketSize0"@, spec_decimal(d.b_max_packet_size0 as nat)),
        ("idVendor"@, spec_decimal(d.id_vendor as nat)),
        ("idProduct"@, spec_decimal(d.id_product as nat)),
        ("configs/c.1/bmAttributes"@, spec_decimal(d.configs_c1.bm_attributes as nat)),
        ("configs/c.1/MaxPower"@, spec_decimal(d.configs_c1.max_power as nat)),
        ("configs/c.1/strings/0x409/configuration"@, encode_utf8(d.configs_c1.configs_string@)),
    ] + string_plan("strings/0x409/manufacturer"@, d.strings_0x409.manufacturer@)
        + string_plan("strings/0x409/product"@, d.strings_0x409.product@) + string_plan(
        "strings/0x409/serialnumber"@,
        d.strings_0x409.serialnumber@,
    ) + seq![
        ("functions/hid.usb0/protocol"@, spec_decimal(d.functions_hid.protocol as nat)),
        ("functions/hid.usb0/report_length"@, spec_decimal(d.functions_hid.report_length as nat)),
        ("functions/hid.usb0/subclass"@, spec_decimal(d.functions_hid.hid_subclass as nat)),
        ("functions/hid.usb0/report_desc"@, d.functions_hid.report_descriptor@),
    ]
}

/// Decimal digits of `n` in ASCII.
pub fn decimal_ascii(n: u64) -> (r: Vec<u8>)
    ensures
        r@ == spec_decimal(n as nat),
    decreases n,
{
    if n < 10 {
        let mut v: Vec<u8> = Vec::new();
        v.push((48 + n) as u8);
        v
    } else {
        let mut v = decimal_ascii(n / 10);
        v.push((48 + n % 10) as u8);
        v
    }
}

fn push_write(v: &mut Vec<AttributeWrite>, file: &str, contents: Vec<u8>, Ghost(plan): Ghost<
    Seq<(Seq<char>, Seq<u8>)>,
>)
    requires
        follows_plan(old(v)@, plan),
    ensures
        follows_plan(final(v)@, plan.push((file@, contents@))),
{
    v.push(AttributeWrite { file: String::from_str(file), contents });
}

fn push_string(v: &mut Vec<AttributeWrite>, file: &str, s: &String, Ghost(plan): Ghost<
    Seq<(Seq<char>, Seq<u8>)>,
>)
    requires
        follows_plan(old(v)@, plan),
    ensures
        follows_plan(final(v)@, plan + string_plan(file@, s@)),
{
    let text = s.as_str();
    if text.unicode_len() == 0 {
        assert(plan + string_plan(file@, s@) =~= plan);
    } else {
        push_write(v, file, text.as_bytes_vec(), Ghost(plan));
        assert(plan.push((file@, encode_utf8(s@))) =~= plan + string_plan(file@, s@));
    }
}

impl UsbGadgetDescriptor {
    /// The attribute writes that provision this peripheral, in the order in
    /// which they are made.
    pub fn configuration_writes(&self) -> (r: Vec<AttributeWrite>)
        ensures
            follows_plan(r@, spec_configuration_writes(*self)),
    {
        let mut v: Vec<AttributeWrite> = Vec::new();
        let ghost p0 = Seq::<(Seq<char>, Seq<u8>)>::empty();
        push_write(&mut v, "bcdDevice", decimal_ascii(self.bcd_device as u64), Ghost(p0));
        let ghost p1 = p0.push(("bcdDevice"@, spec_decimal(self.bcd_device as nat)));
        push_write(&mut v, "bcdUSB", decimal_ascii(self.bcd_usb as u64), Ghost(p1));
        let ghost p2 = p1.push(("bcdUSB"@, spec_decimal(self.bcd_usb as nat)));
        push_write(&mut v, "bDeviceClass", decimal_ascii(self.b_device_class as u64), Ghost(p2));
        let ghost p3 = p2.push(("bDeviceClass"@, spec_decimal(self.b_device_class as nat)));
        push_write(
            &mut v,
            "bDeviceSubClass",
            decimal_ascii(self.b_device_sub_class as u64),
            Ghost(p3),
        );
        let ghost p4 = p3.push(("bDeviceSubClass"@, spec_decimal(self.b_device_sub_class as nat)));
        push_write(
            &mut v,
            "bDeviceProtocol",
            decimal_ascii(self.b_device_protocol as u64),
            Ghost(p4),
        );
        let ghost p5 = p4.push(("bDeviceProtocol"@, spec_decimal(self.b_device_protocol as nat)));
        push_write(
            &mut v,
            "bMaxPacketSize0",
            decimal_ascii(self.b_max_packet_size0 as u64),
            Ghost(p5),
        );
        let ghost p6 = p5.push(("bMaxPacketSize0"@, spec_decimal(self.b_max_packet_size0 as nat)));
        push_write(&mut v, "idVendor", decimal_ascii(self.id_vendor as u64), Ghost(p6));
        let ghost p7 = p6.push(("idVendor"@, spec_decimal(self.id_vendor as nat)));
        push_write(&mut v, "idProduct", decimal_ascii(self.id_product as u64), Ghost(p7));
        let ghost p8 = p7.push(("idProduct"@, spec_decimal(self.id_product as nat)));
        push_write(
            &mut v,
            "configs/c.1/bmAttributes",
            decimal_ascii(self.configs_c1.bm_attributes as u64),
            Ghost(p8),
        );
        let ghost p9 = p8.push(
            ("configs/c.1/bmAttributes"@, spec_decimal(self.configs_c1.bm_attributes as nat)),
        );
        push_write(
            &mut v,
            "configs/c.1/MaxPower",
            decimal_ascii(self.configs_c1.max_power as u64),
            Ghost(p9),
        );
        let ghost p10 = p9.push(
            ("configs/c.1/MaxPower"@, spec_decimal(self.configs_c1.max_power as nat)),
        );
        push_write(
            &mut v,
            "configs/c.1/strings/0x409/configuration",
            self.configs_c1.configs_string.as_str().as_bytes_vec(),
            Ghost(p10),
        );
        let ghost p11 = p10.push(
            (
                "configs/c.1/strings/0x409/configuration"@,
                encode_utf8(self.configs_c1.configs_string@),
            ),
        );
        push_string(
            &mut v,
            "strings/0x409/manufacturer",
            &self.strings_0x409.manufacturer,
            Ghost(p11),
        );
        let ghost p12 = p11 + string_plan(
            "strings/0x409/manufacturer"@,
            self.strings_0x409.manufacturer@,
        );
        push_string(&mut v, "strings/0x409/product", &self.strings_0x409.product, Ghost(p12));
        let ghost p13 = p12 + string_plan("strings/0x409/product"@, self.strings_0x409.product@);
        push_string(
            &mut v,
            "strings/0x409/serialnumber",
            &self.strings_0x409.serialnumber,
            Ghost(p13),
        );
        let ghost p14 = p13 + string_plan(
            "strings/0x409/serialnumber"@,
            self.strings_0x409.serialnumber@,
        );
        push_write(
            &mut v,
            "functions/hid.usb0/protocol",
            decimal_ascii(self.functions_hid.protocol as u64),
            Ghost(p14),
        );
        let ghost p15 = p14.push(
            ("functions/hid.usb0/protocol"@, spec_decimal(self.functions_hid.protocol as nat)),
        );
        push_write(
            &mut v,
            "functions/hid.usb0/report_length",
            decimal_ascii(self.functions_hid.report_length as u64),
            Ghost(p15),
        );
        let ghost p16 = p15.push(
            (
                "functions/hid.usb0/report_length"@,
                spec_decimal(self.functions_hid.report_length as nat),
            ),
        );
        push_write(
            &mut v,
            "functions/hid.usb0/subclass",
            decimal_ascii(self.functions_hid.hid_subclass as u64),
            Ghost(p16),
        );
        let ghost p17 = p16.push(
            ("functions/hid.usb0/subclass"@, spec_decimal(self.functions_hid.hid_subclass as nat)),
        );
        push_write(
            &mut v,
            "functions/hid.usb0/report_desc",
            self.functions_hid.report_descriptor.clone(),
            Ghost(p17),
        );
        let ghost p18 = p17.push(
            ("functions/hid.usb0/report_desc"@, self.functions_hid.report_descriptor@),
        );
        assert(p18 =~= spec_configuration_writes(*self));
        v
    }
}

} // verus!
