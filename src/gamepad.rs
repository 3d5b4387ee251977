//! A supported controller model as one capability set: its minimum input
//! report size, its decoder, its emulated peripheral and that peripheral's
//! encoder.
use vstd::prelude::*;
use crate::dualsense::{
    bt_input_to_universal_gamepad, process_input_ps5, spec_decode_bt, spec_decode_usb,
    spec_encode_usb, universal_gamepad_to_usb_output, BT_MIN_REPORT_SIZE, USB_MIN_REPORT_SIZE,
    USB_REPORT_LENGTH,
};
use crate::gadget::UsbGadgetDescriptor;
use crate::locator::{GamepadModel, SupportedInputGamepads};
use crate::model::UniversalGamepad;

verus! {

pub struct Gamepad {
    pub display_name: String,
    /// Whether the model's codec is complete.
    pub is_supported: bool,
    /// The emulated peripheral that this model appears as.
    pub gadget: UsbGadgetDescriptor,
    /// Shorter input reports are discarded undecoded.
    pub min_bt_report_size: usize,
}

impl Gamepad {
    /// The decoder can read any report of at least `min_bt_report_size`
    /// bytes, and the peripheral declares the length that the encoder writes.
    pub open spec fn wf(&self) -> bool {
        &&& self.min_bt_report_size >= BT_MIN_REPORT_SIZE
        &&& self.gadget.functions_hid.report_length as int == USB_REPORT_LENGTH as int
    }

    /// Tells whether `wf` holds, for callers that built or changed the value.
    pub fn is_well_formed(&self) -> (r: bool)
        ensures
            r == self.wf(),
    {
        self.min_bt_report_size >= BT_MIN_REPORT_SIZE && self.gadget.functions_hid.report_length
            as usize == USB_REPORT_LENGTH
    }

    /// The DualSense, bridged from Bluetooth to an emulated DualSense.
    pub fn dualsense() -> (r: Gamepad)
        ensures
            r.wf(),
            r.is_supported,
            r.min_bt_report_size == BT_MIN_REPORT_SIZE,
            r.display_name@ == "DualSense"@,
            r.gadget.id_vendor == 0x054c && r.gadget.id_product == 0x0ce6,
    {
        Gamepad {
            display_name: String::from_str("DualSense"),
            is_supported: true,
            gadget: UsbGadgetDescriptor::dualsense(),
            min_bt_report_size: BT_MIN_REPORT_SIZE,
        }
    }

    /// The capability set of a detected model; `None` for a model that has no
    /// codec here.
    pub fn for_model(model: SupportedInputGamepads) -> (r: Option<Gamepad>)
        ensures
            model == SupportedInputGamepads::Ps5DualSense ==> (r matches Some(g) && g.wf()
                && g.min_bt_report_size == BT_MIN_REPORT_SIZE),
            model == SupportedInputGamepads::PS4DualShock ==> r is None,
    {
        match model {
            SupportedInputGamepads::Ps5DualSense => Some(Gamepad::dualsense()),
            SupportedInputGamepads::PS4DualShock => None,
        }
    }

    /// Decodes an input report of this model.
    pub fn bt_input_to_universal_gamepad(&self, bt_input: &Vec<u8>) -> (r: UniversalGamepad)
        requires
            self.wf(),
            bt_input@.len() >= self.min_bt_report_size,
        ensures
            r == spec_decode_bt(bt_input@),
    {
        bt_input_to_universal_gamepad(bt_input.as_slice())
    }

    /// Encodes `gamepad` as a report of this model's emulated peripheral, of
    /// exactly the length that the peripheral declares.
    pub fn universal_gamepad_to_usb_output(&self, gamepad: &UniversalGamepad) -> (r: Vec<u8>)
        requires
            self.wf(),
        ensures
            r@ == spec_encode_usb(*gamepad),
            r@.len() == self.gadget.functions_hid.report_length as int,
    {
        universal_gamepad_to_usb_output(gamepad)
    }
}

/// The emulated models, each with its capability set.
pub fn output_gamepads() -> (r: Vec<Gamepad>)
    ensures
        r@.len() == 1,
        forall|i: int| 0 <= i < r@.len() ==> (#[trigger] r@[i]).wf(),
{
    let mut v: Vec<Gamepad> = Vec::new();
    v.push(Gamepad::dualsense());
    v
}

/// State after a USB input report of `model`: a PS5 report replaces it,
/// and a PS4 report, which has no decoder, leaves it as it was.
pub open spec fn spec_process_input(
    input: Seq<u8>,
    model: GamepadModel,
    before: UniversalGamepad,
) -> UniversalGamepad {
    match model {
        GamepadModel::PS5 => spec_decode_usb(input),
        GamepadModel::PS4 => before,
    }
}

/// Applies a USB input report of `model` to `output`.
pub fn process_input(input: &[u8], model: &GamepadModel, output: &mut UniversalGamepad)
    requires
        input@.len() >= USB_MIN_REPORT_SIZE,
    ensures
        *final(output) == spec_process_input(input@, *model, *old(output)),
{
    match model {
        GamepadModel::PS5 => process_input_ps5(output, input),
        GamepadModel::PS4 => {},
    }
}

} // verus!
