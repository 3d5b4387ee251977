use gamepad_bridge::gamepad::output_gamepads;
use gamepad_bridge::model::UniversalGamepad;
use std::time::{Duration, Instant};

const RUNS: u32 = 50000;

#[test]
fn bench1_all_gamepads_bt_input_to_gamepad() {
    println!("");
    println!("Benchmark BT input -> UniversalGamepad output");
    println!("{} runs per gamepad", RUNS);

    for gamepad in output_gamepads() {
        if gamepad.is_supported == false {
            println!("{} skipped, not supported", gamepad.display_name);
            continue;
        }

        let bt_input: Vec<u8> = vec![0; gamepad.min_bt_report_size];

        let mut counter: u32 = 0;
        let mut times: Duration = Duration::from_secs(0);

        while counter < RUNS {
            let before = Instant::now();
            let _universal_gamepad = gamepad.bt_input_to_universal_gamepad(&bt_input);
            let diff = Instant::now() - before;
            times += diff;
            counter += 1;
        }
        let avg = times / RUNS;
        println!("{} took: {:4.2?}", gamepad.display_name, avg);
    }
}

#[test]
fn bench2_all_gamepads_gamepad_to_usb() {
    println!("");
    println!("Benchmark UniversalGamepad input -> Usb gadget output");
    println!("{} runs per gamepad", RUNS);

    for gamepad in output_gamepads() {
        if gamepad.is_supported == false {
            println!("{} skipped, not supported", gamepad.display_name);
            continue;
        }

        let universal_gamepad = UniversalGamepad::nothing_pressed();

        let mut counter: u32 = 0;
        let mut times: Duration = Duration::from_secs(0);

        while counter < RUNS {
            let before = Instant::now();
            let _usb_output = gamepad.universal_gamepad_to_usb_output(&universal_gamepad);
            let diff = Instant::now() - before;
            times += diff;
            counter += 1;
        }
        let avg = times / RUNS;
        println!("{} took: {:4.2?}", gamepad.display_name, avg);
    }
}
