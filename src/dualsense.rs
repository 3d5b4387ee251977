//! Report layouts of the DualSense controller: its input report over
//! Bluetooth and over USB, decoded into the canonical state, and the USB input
//! report that the emulated peripheral sends to the host, encoded from it.
use vstd::prelude::*;
use crate::hat::{is_hat_position, lemma_hat_round_trip, spec_dpad_hat, spec_hat_dpad};
use crate::model::{
    all_digital_released, baseline, released_dpad, Bumpers, Buttons, DPad, MainButtons, Other, SpecialButtons, Stick, Sticks, Touchpad, Triggers,
    UniversalGamepad,
};

verus! {

/// Bytes that a Bluetooth input report must hold before it can be decoded.
pub const BT_MIN_REPORT_SIZE: usize = 12;

/// Bytes that a USB input report must hold before it can be decoded.
pub const USB_MIN_REPORT_SIZE: usize = 12;

/// Length of every report that the emulated peripheral sends to the host.
pub const USB_REPORT_LENGTH: usize = 64;

/// The face buttons as four independent bits of the high nibble.
pub open spec fn spec_main_buttons(b: u8) -> MainButtons {
    MainButtons {
        upper: b & 0x80u8 != 0,
        right: b & 0x40u8 != 0,
        lower: b & 0x20u8 != 0,
        left: b & 0x10u8 != 0,
    }
}

/// The stick presses and bumpers share one byte as exclusive codes: a byte
/// that holds two of them sets neither.
pub open spec fn spec_bumpers(b: u8) -> Bumpers {
    Bumpers { left: b == 1, right: b == 2 }
}

/// Canonical state of a Bluetooth input report `r` (at least
/// `BT_MIN_REPORT_SIZE` bytes).
pub open spec fn spec_decode_bt(r: Seq<u8>) -> UniversalGamepad {
    UniversalGamepad {
        sticks: Sticks {
            left: Stick { x: r[2], y: r[3], pressed: r[10] == 64 },
            right: Stick { x: r[4], y: r[5], pressed: r[10] == 128 },
        },
        triggers: Triggers { left: r[6], right: r[7] },
        buttons: Buttons {
            bumpers: spec_bumpers(r[10]),
            dpad: spec_hat_dpad(r[9] & 0x0fu8),
            main: spec_main_buttons(r[9]),
            specials: SpecialButtons { right: r[10] == 32, left: r[10] == 16, logo: r[11] == 1 },
        },
        other: Other {
            touchpad: Some(Touchpad { x_coord: None, y_coord: None, touched: None, pressed: r[11] == 2 }),
            gyroscope: None,
        },
    }
}

/// Canonical state of a USB input report `r` (at least
/// `USB_MIN_REPORT_SIZE` bytes): the Bluetooth fields one byte earlier, with
/// the share button alone in byte 10 and menu, logo and touchpad in byte 11.
pub open spec fn spec_decode_usb(r: Seq<u8>) -> UniversalGamepad {
    UniversalGamepad {
        sticks: Sticks {
            left: Stick { x: r[1], y: r[2], pressed: r[9] == 64 },
            right: Stick { x: r[3], y: r[4], pressed: r[9] == 128 },
        },
        triggers: Triggers { left: r[5], right: r[6] },
        buttons: Buttons {
            bumpers: spec_bumpers(r[9]),
            dpad: spec_hat_dpad(r[8] & 0x0fu8),
            main: spec_main_buttons(r[8]),
            specials: SpecialButtons { right: r[11] == 32, left: r[10] == 16, logo: r[11] == 1 },
        },
        other: Other {
            touchpad: Some(Touchpad { x_coord: None, y_coord: None, touched: None, pressed: r[11] == 2 }),
            gyroscope: None,
        },
    }
}

/// `bit` when `b` holds, else zero.
pub open spec fn flag(b: bool, bit: u8) -> u8 {
    if b {
        bit
    } else {
        0
    }
}

/// Byte 8 of the emulated report: the face buttons in the high nibble
/// (upper 0x80, right 0x40, lower 0x20, left 0x10) and the hat value of the
/// directional pad in the low nibble, 8 when no direction is held.
pub open spec fn spec_buttons_byte(g: UniversalGamepad) -> u8 {
    flag(g.buttons.main.upper, 0x80) | flag(g.buttons.main.right, 0x40) | flag(
        g.buttons.main.lower,
        0x20,
    ) | flag(g.buttons.main.left, 0x10) | spec_dpad_hat(g.buttons.dpad)
}

/// Byte 9: one bit per button, as the report descriptor numbers them: left
/// and right bumper (0x01, 0x02), share and menu (0x10, 0x20), left and right
/// stick press (0x40, 0x80). Bits 0x04 and 0x08 (digital triggers) stay
/// clear: the canonical state has no such flags.
pub open spec fn spec_flags_byte(g: UniversalGamepad) -> u8 {
    flag(g.buttons.bumpers.left, 0x01) | flag(g.buttons.bumpers.right, 0x02) | flag(
        g.buttons.specials.left,
        0x10,
    ) | flag(g.buttons.specials.right, 0x20) | flag(g.sticks.left.pressed, 0x40) | flag(
        g.sticks.right.pressed,
        0x80,
    )
}

/// The state holds a touchpad that is clicked down.
pub open spec fn touch_pressed(g: UniversalGamepad) -> bool {
    g.other.touchpad matches Some(t) && t.pressed
}

/// Byte 10: logo button (0x01) and touchpad click (0x02).
pub open spec fn spec_extra_byte(g: UniversalGamepad) -> u8 {
    flag(g.buttons.specials.logo, 0x01) | flag(touch_pressed(g), 0x02)
}

/// Bytes 11 to 63 of the emulated report: counters held at zero, then
/// vendor bytes that the host expects but that no canonical field feeds.
pub open spec fn spec_report_tail() -> Seq<u8> {
    seq![
        0x00u8, 0x00, 0x00, 0xee, 0xad, 0x00, 0x00, 0xff, 0xff, 0x02,
        0x00, 0x06, 0x00, 0x81, 0x1f, 0x07, 0x06, 0x46, 0x66, 0x00, 0x00, 0x14, 0x80, 0x00,
        0x00, 0x00, 0x80, 0x00, 0x00, 0x00, 0x00, 0x09, 0x09, 0x00, 0x00, 0x00, 0x00, 0x00,
        0xe3, 0x79, 0xab, 0x00, 0x17, 0x08, 0x00, 0x5b, 0x7f, 0xef, 0x9c, 0xac, 0x03, 0x92,
        0x30,
    ]
}

/// The emulated USB report of `g`: report id 1, the four stick axes and the
/// two triggers, a counter byte, the three button bytes, then the fixed tail.
pub open spec fn spec_encode_usb(g: UniversalGamepad) -> Seq<u8> {
    seq![
        0x01u8,
        g.sticks.left.x,
        g.sticks.left.y,
        g.sticks.right.x,
        g.sticks.right.y,
        g.triggers.left,
        g.triggers.right,
        0x00,
        spec_buttons_byte(g),
        spec_flags_byte(g),
        spec_extra_byte(g),
    ] + spec_report_tail()
}

/// Decodes a Bluetooth input report. Total: a byte value with no meaning
/// leaves its field released.
pub fn bt_input_to_universal_gamepad(bt_input: &[u8]) -> (r: UniversalGamepad)
    requires
        bt_input@.len() >= BT_MIN_REPORT_SIZE,
    ensures
        r == spec_decode_bt(bt_input@),
{
    let mut output = UniversalGamepad::nothing_pressed();
    let buttons_byte = bt_input[9];
    let flags_byte = bt_input[10];
    let extra_byte = bt_input[11];
    output.sticks = Sticks {
        left: Stick { x: bt_input[2], y: bt_input[3], pressed: flags_byte == 64 },
        right: Stick { x: bt_input[4], y: bt_input[5], pressed: flags_byte == 128 },
    };
    output.triggers = Triggers { left: bt_input[6], right: bt_input[7] };
    output.buttons.bumpers = Bumpers { left: flags_byte == 1, right: flags_byte == 2 };
    output.buttons.main = main_buttons_from_byte(buttons_byte);
    output.buttons.dpad = DPad::from_hat(buttons_byte & 0x0f);
    output.buttons.specials = SpecialButtons {
        right: flags_byte == 32,
        left: flags_byte == 16,
        logo: extra_byte == 1,
    };
    output.other.touchpad = Some(
        Touchpad { x_coord: None, y_coord: None, touched: None, pressed: extra_byte == 2 },
    );
    output
}

/// The face buttons of a buttons byte.
pub fn main_buttons_from_byte(b: u8) -> (r: MainButtons)
    ensures
        r == spec_main_buttons(b),
{
    MainButtons {
        upper: b & 0x80 != 0,
        right: b & 0x40 != 0,
        lower: b & 0x20 != 0,
        left: b & 0x10 != 0,
    }
}

/// Decodes a USB input report.
pub fn interpret_input(input_buf: &[u8]) -> (r: UniversalGamepad)
    requires
        input_buf@.len() >= USB_MIN_REPORT_SIZE,
    ensures
        r == spec_decode_usb(input_buf@),
{
    let flags_byte = input_buf[9];
    let extra_byte = input_buf[11];
    let mut gamepad = UniversalGamepad::nothing_pressed();
    gamepad.sticks = Sticks {
        left: Stick { x: input_buf[1], y: input_buf[2], pressed: flags_byte == 64 },
        right: Stick { x: input_buf[3], y: input_buf[4], pressed: flags_byte == 128 },
    };
    gamepad.triggers = Triggers { left: input_buf[5], right: input_buf[6] };
    gamepad.buttons.bumpers = Bumpers { left: flags_byte == 1, right: flags_byte == 2 };
    gamepad.buttons.specials = SpecialButtons {
        right: extra_byte == 32,
        left: input_buf[10] == 16,
        logo: extra_byte == 1,
    };
    gamepad.other.touchpad = Some(
        Touchpad { x_coord: None, y_coord: None, touched: None, pressed: extra_byte == 2 },
    );
    eval_byte_8(&mut gamepad, input_buf[8]);
    gamepad
}

/// Flags of `a` joined with those of `b`.
pub open spec fn main_union(a: MainButtons, b: MainButtons) -> MainButtons {
    MainButtons {
        upper: a.upper || b.upper,
        lower: a.lower || b.lower,
        left: a.left || b.left,
        right: a.right || b.right,
    }
}

/// Directions of `a` joined with those of `b`.
pub open spec fn dpad_union(a: DPad, b: DPad) -> DPad {
    DPad { up: a.up || b.up, down: a.down || b.down, left: a.left || b.left, right: a.right || b.right }
}

/// Sets the face buttons and directions that the buttons byte `byte8` holds;
/// flags already set stay set and every other field is kept.
pub fn eval_byte_8(gamepad: &mut UniversalGamepad, byte8: u8)
    ensures
        final(gamepad).buttons.main == main_union(old(gamepad).buttons.main, spec_main_buttons(byte8)),
        final(gamepad).buttons.dpad == dpad_union(old(gamepad).buttons.dpad, spec_hat_dpad(byte8 & 0x0fu8)),
        final(gamepad).sticks == old(gamepad).sticks,
        final(gamepad).triggers == old(gamepad).triggers,
        final(gamepad).buttons.bumpers == old(gamepad).buttons.bumpers,
        final(gamepad).buttons.specials == old(gamepad).buttons.specials,
        final(gamepad).other == old(gamepad).other,
{
    let pressed = main_buttons_from_byte(byte8);
    let directions = DPad::from_hat(byte8 & 0x0f);
    let main = gamepad.buttons.main;
    let dpad = gamepad.buttons.dpad;
    gamepad.buttons.main = MainButtons {
        upper: main.upper || pressed.upper,
        lower: main.lower || pressed.lower,
        left: main.left || pressed.left,
        right: main.right || pressed.right,
    };
    gamepad.buttons.dpad = DPad {
        up: dpad.up || directions.up,
        down: dpad.down || directions.down,
        left: dpad.left || directions.left,
        right: dpad.right || directions.right,
    };
}

/// Replaces `output` by the state of the USB input report `input`.
pub fn process_input_ps5(output: &mut UniversalGamepad, input: &[u8])
    requires
        input@.len() >= USB_MIN_REPORT_SIZE,
    ensures
        *final(output) == spec_decode_usb(input@),
{
    *output = interpret_input(input);
}

fn flag_bit(b: bool, bit: u8) -> (r: u8)
    ensures
        r == flag(b, bit),
{
    if b {
        bit
    } else {
        0
    }
}

/// Encodes `gamepad` as the emulated peripheral's USB report.
pub fn universal_gamepad_to_usb_output(gamepad: &UniversalGamepad) -> (r: Vec<u8>)
    ensures
        r@ == spec_encode_usb(*gamepad),
        r@.len() == USB_REPORT_LENGTH,
{
    let main = gamepad.buttons.main;
    let buttons = flag_bit(main.upper, 0x80) | flag_bit(main.right, 0x40) | flag_bit(
        main.lower,
        0x20,
    ) | flag_bit(main.left, 0x10) | gamepad.buttons.dpad.to_hat();
    let flags = flag_bit(gamepad.buttons.bumpers.left, 0x01) | flag_bit(
        gamepad.buttons.bumpers.right,
        0x02,
    ) | flag_bit(gamepad.buttons.specials.left, 0x10) | flag_bit(
        gamepad.buttons.specials.right,
        0x20,
    ) | flag_bit(gamepad.sticks.left.pressed, 0x40) | flag_bit(gamepad.sticks.right.pressed, 0x80);
    let touch = match gamepad.other.touchpad {
        Some(t) => t.pressed,
        None => false,
    };
    let extra = flag_bit(gamepad.buttons.specials.logo, 0x01) | flag_bit(touch, 0x02);
    let out: Vec<u8> = vec![
        0x01,
        gamepad.sticks.left.x,
        gamepad.sticks.left.y,
        gamepad.sticks.right.x,
        gamepad.sticks.right.y,
        gamepad.triggers.left,
        gamepad.triggers.right,
        0x00,
        buttons,
        flags,
        extra,
        0x00, 0x00, 0x00, 0xee, 0xad, 0x00, 0x00, 0xff, 0xff, 0x02,
        0x00, 0x06, 0x00, 0x81, 0x1f, 0x07, 0x06, 0x46, 0x66, 0x00, 0x00, 0x14, 0x80, 0x00,
        0x00, 0x00, 0x80, 0x00, 0x00, 0x00, 0x00, 0x09, 0x09, 0x00, 0x00, 0x00, 0x00, 0x00,
        0xe3, 0x79, 0xab, 0x00, 0x17, 0x08, 0x00, 0x5b, 0x7f, 0xef, 0x9c, 0xac, 0x03, 0x92,
        0x30,
    ];
    assert(out@ =~= spec_encode_usb(*gamepad));
    out
}

/// Stick and trigger bytes pass through unchanged: decoding copies each axis
/// byte of the input report into its canonical field, and encoding copies
/// each canonical axis into its byte of the emulated report.
pub proof fn lemma_axes_pass_through(r: Seq<u8>, g: UniversalGamepad)
    requires
        r.len() >= BT_MIN_REPORT_SIZE,
    ensures
        spec_decode_bt(r).sticks.left.x == r[2] && spec_decode_bt(r).sticks.left.y == r[3],
        spec_decode_bt(r).sticks.right.x == r[4] && spec_decode_bt(r).sticks.right.y == r[5],
        spec_decode_bt(r).triggers.left == r[6] && spec_decode_bt(r).triggers.right == r[7],
        spec_encode_usb(g)[1] == g.sticks.left.x && spec_encode_usb(g)[2] == g.sticks.left.y,
        spec_encode_usb(g)[3] == g.sticks.right.x && spec_encode_usb(g)[4] == g.sticks.right.y,
        spec_encode_usb(g)[5] == g.triggers.left && spec_encode_usb(g)[6] == g.triggers.right,
{
}

proof fn lemma_nibbles(a: u8, b: u8, c: u8, d: u8, h: u8)
    requires
        a == 0 || a == 0x80,
        b == 0 || b == 0x40,
        c == 0 || c == 0x20,
        d == 0 || d == 0x10,
        h < 16,
    ensures
        ((a | b | c | d | h) & 0x80 != 0) == (a == 0x80),
        ((a | b | c | d | h) & 0x40 != 0) == (b == 0x40),
        ((a | b | c | d | h) & 0x20 != 0) == (c == 0x20),
        ((a | b | c | d | h) & 0x10 != 0) == (d == 0x10),
        (a | b | c | d | h) & 0x0f == h,
{
    assert(((a | b | c | d | h) & 0x80 != 0) == (a == 0x80) && ((a | b | c | d | h) & 0x40 != 0) == (
    b == 0x40) && ((a | b | c | d | h) & 0x20 != 0) == (c == 0x20) && ((a | b | c | d | h) & 0x10
        != 0) == (d == 0x10) && (a | b | c | d | h) & 0x0f == h) by (bit_vector)
        requires
            a == 0 || a == 0x80,
            b == 0 || b == 0x40,
            c == 0 || c == 0x20,
            d == 0 || d == 0x10,
            h < 16,
    ;
}

/// The emulated report carries the face buttons and the directional pad:
/// read back with the USB-layout decoder, the encoded report of any state
/// whose directional pad is a hat position gives that state's face buttons,
/// directions, stick axes and triggers.
pub proof fn lemma_encode_reads_back(g: UniversalGamepad)
    requires
        is_hat_position(g.buttons.dpad),
    ensures
        spec_decode_usb(spec_encode_usb(g)).buttons.main == g.buttons.main,
        spec_decode_usb(spec_encode_usb(g)).buttons.dpad == g.buttons.dpad,
        spec_decode_usb(spec_encode_usb(g)).sticks.left.x == g.sticks.left.x,
        spec_decode_usb(spec_encode_usb(g)).sticks.left.y == g.sticks.left.y,
        spec_decode_usb(spec_encode_usb(g)).sticks.right.x == g.sticks.right.x,
        spec_decode_usb(spec_encode_usb(g)).sticks.right.y == g.sticks.right.y,
        spec_decode_usb(spec_encode_usb(g)).triggers == g.triggers,
{
    let m = g.buttons.main;
    let h = spec_dpad_hat(g.buttons.dpad);
    lemma_hat_round_trip(0, g.buttons.dpad);
    lemma_nibbles(flag(m.upper, 0x80), flag(m.right, 0x40), flag(m.lower, 0x20), flag(m.left, 0x10), h);
    let r = spec_encode_usb(g);
    assert(r[8] == spec_buttons_byte(g));
    assert(spec_main_buttons(r[8]) == m);
}

/// The all-released baseline encodes to a report of exactly the declared
/// length in which every digital field reads released: no face button, the
/// null hat value (8), and no bumper, special button, stick press or
/// touchpad click. The same holds for every state whose digital inputs are
/// all released, and reading the report back gives a released state.
pub proof fn lemma_baseline_report(g: UniversalGamepad)
    ensures
        all_digital_released(baseline()),
        spec_encode_usb(baseline()).len() == USB_REPORT_LENGTH,
        spec_encode_usb(baseline())[8] == 0x08,
        spec_encode_usb(baseline())[9] == 0,
        spec_encode_usb(baseline())[10] == 0,
        spec_encode_usb(baseline())[0] == 1,
        forall|i: int| 1 <= i < 7 ==> #[trigger] spec_encode_usb(baseline())[i] == 0,
        all_digital_released(spec_decode_usb(spec_encode_usb(baseline()))),
        all_digital_released(g) ==> spec_encode_usb(g)[8] == 0x08 && spec_encode_usb(g)[9] == 0
            && spec_encode_usb(g)[10] == 0,
{
    assert(0u8 | 0u8 | 0u8 | 0u8 | 8u8 == 8u8) by (bit_vector);
    assert(0u8 | 0u8 | 0u8 | 0u8 | 0u8 | 0u8 == 0u8) by (bit_vector);
    assert(0u8 | 0u8 == 0u8) by (bit_vector);
    assert(8u8 & 0x80u8 == 0 && 8u8 & 0x40u8 == 0 && 8u8 & 0x20u8 == 0 && 8u8 & 0x10u8 == 0
        && 8u8 & 0x0fu8 == 8) by (bit_vector);
    lemma_hat_round_trip(8, released_dpad());
}

/// The round trip loses information both ways: decoding an encoded state
/// does not give the state back (the Bluetooth decoder reads other offsets,
/// and it marks a touchpad present where the state had none), and encoding a
/// decoded report does not give the report back (it takes the emulated
/// length and report id).
pub proof fn lemma_round_trip_is_lossy()
    ensures
        exists|g: UniversalGamepad| spec_decode_bt(spec_encode_usb(g)) != g,
        exists|r: Seq<u8>| r.len() >= BT_MIN_REPORT_SIZE && spec_encode_usb(spec_decode_bt(r)) != r,
        forall|g: UniversalGamepad| g.other.touchpad is None ==> #[trigger] spec_decode_bt(spec_encode_usb(g)) != g,
        forall|r: Seq<u8>| r.len() >= BT_MIN_REPORT_SIZE ==> #[trigger] spec_encode_usb(spec_decode_bt(r)).len() == USB_REPORT_LENGTH,
{
    let g = baseline();
    assert(spec_decode_bt(spec_encode_usb(g)).other.touchpad is Some);
    let r = Seq::new(BT_MIN_REPORT_SIZE as nat, |i: int| 0u8);
    assert(spec_encode_usb(spec_decode_bt(r)).len() != r.len());
    assert forall|g: UniversalGamepad| g.other.touchpad is None implies #[trigger] spec_decode_bt(spec_encode_usb(g)) != g by {
        assert(spec_decode_bt(spec_encode_usb(g)).other.touchpad is Some);
    }
}

} // verus!
