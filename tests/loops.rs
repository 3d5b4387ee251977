use gamepad_bridge::dualsense::bt_input_to_universal_gamepad;
use gamepad_bridge::gamepad::Gamepad;
use gamepad_bridge::model::UniversalGamepad;
use gamepad_bridge::pattern::{oscillate_step, test_pattern};
use gamepad_bridge::reader::{reader_start, reader_step, ReaderAction, ReaderEvent, ReaderState};
use gamepad_bridge::writer::{latest_state, OutputWriter, WriterAction, WriterEvent};

#[test]
fn short_report_is_discarded_and_loop_continues() {
    let gamepad = Gamepad::dualsense();
    let (state, action) = reader_start();
    assert_eq!(action, ReaderAction::PollShutdown);
    let (state, action) = reader_step(&gamepad, state, ReaderEvent::ShutdownPolled(false));
    assert_eq!((state, action), (ReaderState::Reading, ReaderAction::Read));
    let (state, action) = reader_step(&gamepad, state, ReaderEvent::ReadCompleted(vec![0xff; 11]));
    assert_eq!((state, action), (ReaderState::Polling, ReaderAction::PollShutdown));
    // The cycle goes on: the next poll leads to another read.
    let (state, action) = reader_step(&gamepad, state, ReaderEvent::ShutdownPolled(false));
    assert_eq!((state, action), (ReaderState::Reading, ReaderAction::Read));
}

#[test]
fn report_of_minimum_length_is_published() {
    let gamepad = Gamepad::dualsense();
    let report = vec![0, 0, 7, 8, 9, 10, 11, 12, 0, 0x20, 0, 0];
    let (state, action) =
        reader_step(&gamepad, ReaderState::Reading, ReaderEvent::ReadCompleted(report.clone()));
    assert_eq!(state, ReaderState::Polling);
    assert_eq!(action, ReaderAction::Publish(bt_input_to_universal_gamepad(&report)));
    match action {
        ReaderAction::Publish(g) => assert!(g.buttons.main.lower && g.sticks.left.x == 7),
        _ => panic!("expected a publish"),
    }
}

#[test]
fn failed_read_is_skipped() {
    let gamepad = Gamepad::dualsense();
    let (state, action) = reader_step(&gamepad, ReaderState::Reading, ReaderEvent::ReadFailed);
    assert_eq!((state, action), (ReaderState::Polling, ReaderAction::PollShutdown));
}

#[test]
fn shutdown_stops_both_workers() {
    let gamepad = Gamepad::dualsense();
    let (state, action) =
        reader_step(&gamepad, ReaderState::Polling, ReaderEvent::ShutdownPolled(true));
    assert_eq!((state, action), (ReaderState::Stopped, ReaderAction::Stop));
    let (state, action) =
        reader_step(&gamepad, state, ReaderEvent::ReadCompleted(vec![0; 20]));
    assert_eq!((state, action), (ReaderState::Stopped, ReaderAction::Stop));

    for mut writer in [OutputWriter::continuous(), OutputWriter::intervalic(1_000_000, 10_000)] {
        assert_eq!(writer.step(WriterEvent::Clock(3_000_000)), WriterAction::Write);
        assert_eq!(writer.step(WriterEvent::ShutdownObserved), WriterAction::Stop);
        for t in 4u64..100 {
            assert_eq!(writer.step(WriterEvent::Clock(t * 1_000_000)), WriterAction::Stop);
        }
    }
}

#[test]
fn interval_writer_one_ms_one_percent() {
    let mut writer = OutputWriter::intervalic(1_000_000, 10_000);
    let mut writes: u64 = 0;
    let mut t: u64 = 0;
    // The loop reads the clock every 3.7 µs for one second.
    while t <= 1_000_000_000 {
        if writer.step(WriterEvent::Clock(t)) == WriterAction::Write {
            assert!(t % 1_000_000 <= 10_000, "wrote {} ns after a tick", t % 1_000_000);
            writes += 1;
        }
        t += 3_700;
    }
    assert!((995..=1000).contains(&writes), "{} writes", writes);
}

#[test]
fn interval_writer_skips_late_readings() {
    let mut writer = OutputWriter::intervalic(1_000_000, 10_000);
    assert_eq!(writer.step(WriterEvent::Clock(500_000)), WriterAction::Wait);
    assert_eq!(writer.step(WriterEvent::Clock(1_010_000)), WriterAction::Write);
    assert_eq!(writer.ticks_before, 1);
    assert_eq!(writer.step(WriterEvent::Clock(1_005_000)), WriterAction::Wait);
    // 2 ms plus 1.1 %: the tick has begun but the reading is too late.
    assert_eq!(writer.step(WriterEvent::Clock(2_011_000)), WriterAction::Wait);
    assert_eq!(writer.step(WriterEvent::Clock(3_000_000)), WriterAction::Write);
    assert_eq!(writer.ticks_before, 3);
}

#[test]
fn continuous_writer_writes_every_time() {
    let mut writer = OutputWriter::continuous();
    for t in [0u64, 1, 1, 500_000] {
        assert_eq!(writer.step(WriterEvent::Clock(t)), WriterAction::Write);
    }
}

#[test]
fn last_published_state_wins() {
    let first = UniversalGamepad::nothing_pressed();
    let mut second = first;
    second.triggers.left = 1;
    let mut third = first;
    third.triggers.left = 2;
    assert_eq!(latest_state(first, &vec![]), first);
    assert_eq!(latest_state(first, &vec![second, third]), third);
}

#[test]
fn test_pattern_sweeps_between_bounds() {
    assert_eq!(oscillate_step(64, false), (65, true));
    assert_eq!(oscillate_step(100, true), (101, true));
    assert_eq!(oscillate_step(192, true), (191, false));
    assert_eq!(oscillate_step(100, false), (99, false));
    let (mut v, mut up) = (64u8, true);
    for _ in 0..1000 {
        let next = oscillate_step(v, up);
        v = next.0;
        up = next.1;
        assert!((64..=192).contains(&v));
    }
    let g = test_pattern(77);
    assert_eq!((g.sticks.left.x, g.sticks.right.y, g.triggers.right), (77, 77, 77));
    assert!(!g.buttons.main.upper);
}
