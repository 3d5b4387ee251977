use gamepad_bridge::dualsense::{
    bt_input_to_universal_gamepad, eval_byte_8, interpret_input, main_buttons_from_byte,
    process_input_ps5, universal_gamepad_to_usb_output,
};
use gamepad_bridge::gamepad::{process_input, Gamepad};
use gamepad_bridge::locator::GamepadModel;
use gamepad_bridge::model::{
    Bumpers, DPad, MainButtons, SpecialButtons, Sticks, Touchpad, UniversalGamepad,
};

fn report_with(pairs: &[(usize, u8)]) -> Vec<u8> {
    let mut r = vec![0u8; 12];
    for &(i, b) in pairs {
        r[i] = b;
    }
    r
}

fn dpad(up: bool, down: bool, left: bool, right: bool) -> DPad {
    DPad { up, down, left, right }
}

#[test]
fn hat_values_decode_to_compass_directions() {
    let expected = [
        dpad(true, false, false, false),
        dpad(true, false, false, true),
        dpad(false, false, false, true),
        dpad(false, true, false, true),
        dpad(false, true, false, false),
        dpad(false, true, true, false),
        dpad(false, false, true, false),
        dpad(true, false, true, false),
    ];
    for hat in 0u8..8 {
        let g = bt_input_to_universal_gamepad(&report_with(&[(9, hat)]));
        assert_eq!(g.buttons.dpad, expected[hat as usize]);
        assert_eq!(DPad::from_hat(hat), expected[hat as usize]);
    }
    for hat in 8u8..16 {
        let g = bt_input_to_universal_gamepad(&report_with(&[(9, hat)]));
        assert_eq!(g.buttons.dpad, DPad::allfalse());
    }
}

#[test]
fn hat_three_is_down_right() {
    let g = bt_input_to_universal_gamepad(&report_with(&[(9, 3)]));
    assert_eq!(g.buttons.dpad, dpad(false, true, false, true));
}

#[test]
fn hat_never_sets_opposite_directions() {
    for b in 0u8..=255 {
        let d = DPad::from_hat(b);
        assert!(!(d.up && d.down));
        assert!(!(d.left && d.right));
    }
}

#[test]
fn sticks_pass_through_for_every_byte_pair() {
    for x in 0u8..=255 {
        for y in 0u8..=255 {
            let r = report_with(&[(2, x), (3, y), (4, y), (5, x)]);
            let g = bt_input_to_universal_gamepad(&r);
            assert_eq!((g.sticks.left.x, g.sticks.left.y), (x, y));
            assert_eq!((g.sticks.right.x, g.sticks.right.y), (y, x));
        }
    }
}

#[test]
fn main_buttons_byte_10100000() {
    let g = bt_input_to_universal_gamepad(&report_with(&[(9, 0b1010_0000)]));
    assert_eq!(
        g.buttons.main,
        MainButtons { upper: true, lower: true, left: false, right: false }
    );
    assert_eq!(
        main_buttons_from_byte(0b1010_0000),
        MainButtons { upper: true, lower: true, left: false, right: false }
    );
}

#[test]
fn full_bluetooth_report_decodes_every_field() {
    let r: Vec<u8> = vec![0x31, 0x07, 10, 20, 30, 40, 50, 60, 0xff, 0x52, 64, 2, 0xaa, 0xbb];
    let g = bt_input_to_universal_gamepad(&r);
    assert_eq!((g.sticks.left.x, g.sticks.left.y, g.sticks.left.pressed), (10, 20, true));
    assert_eq!((g.sticks.right.x, g.sticks.right.y, g.sticks.right.pressed), (30, 40, false));
    assert_eq!((g.triggers.left, g.triggers.right), (50, 60));
    assert_eq!(g.buttons.main, MainButtons { upper: false, right: true, lower: false, left: true });
    assert_eq!(g.buttons.dpad, dpad(false, false, false, true));
    assert_eq!(g.buttons.bumpers, Bumpers::allfalse());
    assert_eq!(g.buttons.specials, SpecialButtons::allfalse());
    assert_eq!(
        g.other.touchpad,
        Some(Touchpad { x_coord: None, y_coord: None, touched: None, pressed: true })
    );
    assert_eq!(g.other.gyroscope, None);
}

#[test]
fn bumper_and_special_codes_are_exclusive() {
    let left = bt_input_to_universal_gamepad(&report_with(&[(10, 1)]));
    assert!(left.buttons.bumpers.left && !left.buttons.bumpers.right);
    let right = bt_input_to_universal_gamepad(&report_with(&[(10, 2)]));
    assert!(!right.buttons.bumpers.left && right.buttons.bumpers.right);
    // Both bumpers held gives a code that matches neither.
    let both = bt_input_to_universal_gamepad(&report_with(&[(10, 3)]));
    assert_eq!(both.buttons.bumpers, Bumpers::allfalse());
    let share = bt_input_to_universal_gamepad(&report_with(&[(10, 16)]));
    assert!(share.buttons.specials.left && !share.buttons.specials.right);
    let menu = bt_input_to_universal_gamepad(&report_with(&[(10, 32)]));
    assert!(menu.buttons.specials.right && !menu.buttons.specials.left);
    let r3 = bt_input_to_universal_gamepad(&report_with(&[(10, 128)]));
    assert!(r3.sticks.right.pressed && !r3.sticks.left.pressed);
    let logo = bt_input_to_universal_gamepad(&report_with(&[(11, 1)]));
    assert!(logo.buttons.specials.logo);
    assert_eq!(logo.other.touchpad.map(|t| t.pressed), Some(false));
    let unknown = bt_input_to_universal_gamepad(&report_with(&[(10, 77), (11, 9)]));
    assert_eq!(unknown.buttons.bumpers, Bumpers::allfalse());
    assert_eq!(unknown.buttons.specials, SpecialButtons::allfalse());
}

#[test]
fn baseline_encodes_to_declared_length_with_released_buttons() {
    let gamepad = Gamepad::dualsense();
    let out = gamepad.universal_gamepad_to_usb_output(&UniversalGamepad::nothing_pressed());
    assert_eq!(out.len(), gamepad.gadget.functions_hid.report_length as usize);
    assert_eq!(out.len(), 64);
    assert_eq!(out[0], 0x01);
    assert_eq!(&out[1..7], &[0, 0, 0, 0, 0, 0]);
    // No face button, null hat (8), no other button.
    assert_eq!(&out[7..11], &[0, 0x08, 0, 0]);
    assert_eq!(&out[14..16], &[0xee, 0xad]);
    assert_eq!(out[63], 0x30);
}

#[test]
fn encode_places_axes_after_report_id() {
    let mut g = UniversalGamepad::nothing_pressed();
    g.sticks.left.x = 1;
    g.sticks.left.y = 2;
    g.sticks.right.x = 3;
    g.sticks.right.y = 4;
    g.triggers.left = 5;
    g.triggers.right = 6;
    g.buttons.main.upper = true;
    let out = universal_gamepad_to_usb_output(&g);
    assert_eq!(&out[0..8], &[0x01, 1, 2, 3, 4, 5, 6, 0]);
    assert_eq!(out[8], 0x88);
}

#[test]
fn encode_carries_every_button() {
    let mut g = UniversalGamepad::nothing_pressed();
    g.buttons.main = MainButtons { upper: false, lower: true, left: true, right: false };
    g.buttons.dpad = dpad(false, true, true, false);
    g.buttons.bumpers = Bumpers { left: true, right: true };
    g.buttons.specials = SpecialButtons { right: true, left: false, logo: true };
    g.sticks.right.pressed = true;
    g.other.touchpad = Some(Touchpad { x_coord: None, y_coord: None, touched: None, pressed: true });
    let out = universal_gamepad_to_usb_output(&g);
    assert_eq!(out[8], 0x30 | 5);
    assert_eq!(out[9], 0x01 | 0x02 | 0x20 | 0x80);
    assert_eq!(out[10], 0x01 | 0x02);
    assert_eq!(out.len(), 64);
}

#[test]
fn encoded_buttons_read_back() {
    for hat in 0u8..=8 {
        for face in 0u8..16 {
            let mut g = UniversalGamepad::nothing_pressed();
            g.buttons.main = main_buttons_from_byte(face << 4);
            g.buttons.dpad = DPad::from_hat(hat);
            g.sticks.left.x = hat;
            g.triggers.right = face;
            let back = interpret_input(&universal_gamepad_to_usb_output(&g));
            assert_eq!(back.buttons.main, g.buttons.main);
            assert_eq!(back.buttons.dpad, g.buttons.dpad);
            assert_eq!(back.sticks.left.x, hat);
            assert_eq!(back.triggers.right, face);
        }
    }
}

#[test]
fn dpad_to_hat() {
    for hat in 0u8..8 {
        assert_eq!(DPad::from_hat(hat).to_hat(), hat);
    }
    assert_eq!(DPad::allfalse().to_hat(), 8);
    assert_eq!(dpad(true, true, false, false).to_hat(), 8);
    assert_eq!(dpad(false, false, true, true).to_hat(), 8);
}

#[test]
fn round_trip_is_lossy_both_ways() {
    let mut g = UniversalGamepad::nothing_pressed();
    g.buttons.main.lower = true;
    let back = bt_input_to_universal_gamepad(&universal_gamepad_to_usb_output(&g));
    assert_ne!(back, g);
    assert!(!back.buttons.main.lower);

    let raw: Vec<u8> = vec![0; 12];
    let again = universal_gamepad_to_usb_output(&bt_input_to_universal_gamepad(&raw));
    assert_ne!(again, raw);
    assert_eq!(again.len(), 64);
}

#[test]
fn nothing_pressed_is_all_released() {
    let g = UniversalGamepad::nothing_pressed();
    assert_eq!(g.sticks, Sticks::allfalse());
    assert_eq!(g.buttons.bumpers, Bumpers::allfalse());
    assert_eq!(g.buttons.dpad, DPad::allfalse());
    assert_eq!(g.buttons.main, MainButtons::allfalse());
    assert_eq!(g.buttons.specials, SpecialButtons::allfalse());
    assert_eq!((g.triggers.left, g.triggers.right), (0, 0));
    assert_eq!(g.other.touchpad, None);
    assert_eq!(g.other.gyroscope, None);
}

#[test]
fn usb_layout_decodes_one_byte_earlier() {
    let r: [u8; 14] = [1, 11, 12, 13, 14, 15, 16, 0, 0b0100_0110, 2, 16, 32, 0, 0];
    let g = interpret_input(&r);
    assert_eq!((g.sticks.left.x, g.sticks.left.y), (11, 12));
    assert_eq!((g.sticks.right.x, g.sticks.right.y), (13, 14));
    assert_eq!((g.triggers.left, g.triggers.right), (15, 16));
    assert_eq!(g.buttons.main, MainButtons { upper: false, right: true, lower: false, left: false });
    assert_eq!(g.buttons.dpad, dpad(false, false, true, false));
    assert!(g.buttons.bumpers.right && !g.buttons.bumpers.left);
    assert!(g.buttons.specials.left && g.buttons.specials.right && !g.buttons.specials.logo);
    assert_eq!(g.other.touchpad.map(|t| t.pressed), Some(false));

    let mut out = UniversalGamepad::nothing_pressed();
    process_input_ps5(&mut out, &r);
    assert_eq!(out, g);
}

#[test]
fn eval_byte_8_only_adds_flags() {
    let mut g = UniversalGamepad::nothing_pressed();
    g.buttons.dpad.down = true;
    g.triggers.left = 9;
    eval_byte_8(&mut g, 0b1000_0000);
    assert_eq!(g.buttons.dpad, dpad(true, true, false, false));
    assert!(g.buttons.main.upper && !g.buttons.main.lower);
    assert_eq!(g.triggers.left, 9);
    eval_byte_8(&mut g, 0x08);
    assert_eq!(g.buttons.dpad, dpad(true, true, false, false));
}

#[test]
fn process_input_keeps_state_for_model_without_decoder() {
    let r = vec![0u8, 50, 60, 70, 80, 90, 100, 0, 0x08, 0, 0, 0];
    let mut g = UniversalGamepad::nothing_pressed();
    process_input(&r, &GamepadModel::PS4, &mut g);
    assert_eq!(g, UniversalGamepad::nothing_pressed());
    process_input(&r, &GamepadModel::PS5, &mut g);
    assert_eq!((g.sticks.left.x, g.triggers.right), (50, 100));
}

#[test]
fn gamepad_checks_its_own_configuration() {
    let mut gamepad = Gamepad::dualsense();
    assert!(gamepad.is_well_formed());
    assert_eq!(gamepad.min_bt_report_size, 12);
    gamepad.gadget.functions_hid.report_length = 63;
    assert!(!gamepad.is_well_formed());
}
