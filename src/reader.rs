//! Decisions of the input reader. The loop that owns the controller handle
//! performs each action and feeds back what came of it; this module says what
//! to do next.
use vstd::prelude::*;
use crate::dualsense::spec_decode_bt;
use crate::gamepad::Gamepad;
use crate::model::UniversalGamepad;

verus! {

/// Where the reader stands in its cycle.
#[derive(Clone, Copy, Debug, PartialEq, Eq, Structural)]
pub enum ReaderState {
    /// About to check the shutdown signal.
    Polling,
    /// Waiting for a read of the controller handle.
    Reading,
    /// Finished; publishing resources are released.
    Stopped,
}

/// What the loop observed after the last action.
pub enum ReaderEvent {
    /// Result of a non-blocking check of the shutdown signal: `true` when a
    /// stop was requested or the signal's sender is gone.
    ShutdownPolled(bool),
    /// A read returned these bytes.
    ReadCompleted(Vec<u8>),
    /// A read failed (disconnect, re-enumeration).
    ReadFailed,
}

/// What the loop does next.
#[derive(Clone, Copy, Debug, PartialEq, Eq, Structural)]
pub enum ReaderAction {
    /// Check the shutdown signal without blocking.
    PollShutdown,
    /// Read one report from the controller handle.
    Read,
    /// Publish this state (last write wins), then check the signal again.
    Publish(UniversalGamepad),
    /// Release the publishing channel and return.
    Stop,
}

/// Next state and action of a reader whose model discards reports shorter
/// than `min_size`.
pub open spec fn spec_reader_step(min_size: nat, state: ReaderState, event: ReaderEvent) -> (
    ReaderState,
    ReaderAction,
) {
    match state {
        ReaderState::Stopped => (ReaderState::Stopped, ReaderAction::Stop),
        ReaderState::Polling => match event {
            ReaderEvent::ShutdownPolled(true) => (ReaderState::Stopped, ReaderAction::Stop),
            ReaderEvent::ShutdownPolled(false) => (ReaderState::Reading, ReaderAction::Read),
            _ => (ReaderState::Polling, ReaderAction::PollShutdown),
        },
        ReaderState::Reading => match event {
            ReaderEvent::ReadCompleted(bytes) => if bytes@.len() >= min_size {
                (ReaderState::Polling, ReaderAction::Publish(spec_decode_bt(bytes@)))
            } else {
                (ReaderState::Polling, ReaderAction::PollShutdown)
            },
            ReaderEvent::ReadFailed => (ReaderState::Polling, ReaderAction::PollShutdown),
            ReaderEvent::ShutdownPolled(_) => (ReaderState::Reading, ReaderAction::Read),
        },
    }
}

/// The first action of a reader, which starts in `Polling`.
pub fn reader_start() -> (r: (ReaderState, ReaderAction))
    ensures
        r == (ReaderState::Polling, ReaderAction::PollShutdown),
{
    (ReaderState::Polling, ReaderAction::PollShutdown)
}

/// One transition of the reader of `gamepad`.
///
/// A requested shutdown stops the reader at the next poll, and a stopped
/// reader stays stopped. A report shorter than the model's minimum, or a
/// failed read, is dropped without decoding and the cycle goes on; a long
/// enough report is decoded and published. An event that does not answer the
/// last action repeats that action.
pub fn reader_step(gamepad: &Gamepad, state: ReaderState, event: ReaderEvent) -> (r: (
    ReaderState,
    ReaderAction,
))
    requires
        gamepad.wf(),
    ensures
        r == spec_reader_step(gamepad.min_bt_report_size as nat, state, event),
{
    match state {
        ReaderState::Stopped => (ReaderState::Stopped, ReaderAction::Stop),
        ReaderState::Polling => match event {
            ReaderEvent::ShutdownPolled(stop) => {
                if stop {
                    (ReaderState::Stopped, ReaderAction::Stop)
                } else {
                    (ReaderState::Reading, ReaderAction::Read)
                }
            },
            _ => (ReaderState::Polling, ReaderAction::PollShutdown),
        },
        ReaderState::Reading => match event {
            ReaderEvent::ReadCompleted(bytes) => {
                if bytes.len() >= gamepad.min_bt_report_size {
                    let g = gamepad.bt_input_to_universal_gamepad(&bytes);
                    (ReaderState::Polling, ReaderAction::Publish(g))
                } else {
                    (ReaderState::Polling, ReaderAction::PollShutdown)
                }
            },
            ReaderEvent::ReadFailed => (ReaderState::Polling, ReaderAction::PollShutdown),
            ReaderEvent::ShutdownPolled(_) => (ReaderState::Reading, ReaderAction::Read),
        },
    }
}

/// The actions of a reader that starts in `state` and observes `events` in
/// order.
pub open spec fn reader_run(min_size: nat, state: ReaderState, events: Seq<ReaderEvent>) -> Seq<
    ReaderAction,
>
    decreases events.len(),
{
    if events.len() == 0 {
        Seq::empty()
    } else {
        let (next, action) = spec_reader_step(min_size, state, events[0]);
        seq![action] + reader_run(min_size, next, events.drop_first())
    }
}

/// Once the reader has observed a shutdown request it publishes nothing more
/// and answers every later event with `Stop`.
pub proof fn lemma_reader_stops_for_good(min_size: nat, events: Seq<ReaderEvent>)
    ensures
        spec_reader_step(min_size, ReaderState::Polling, ReaderEvent::ShutdownPolled(true)).0
            == ReaderState::Stopped,
        forall|i: int|
            0 <= i < events.len() ==> #[trigger] reader_run(min_size, ReaderState::Stopped, events)[i]
                == ReaderAction::Stop,
        reader_run(min_size, ReaderState::Stopped, events).len() == events.len(),
    decreases events.len(),
{
    if events.len() > 0 {
        lemma_reader_stops_for_good(min_size, events.drop_first());
        let rest = reader_run(min_size, ReaderState::Stopped, events.drop_first());
        assert(reader_run(min_size, ReaderState::Stopped, events) == seq![ReaderAction::Stop]
            + rest);
    }
}

/// A short report is never decoded: from `Reading` it leads back to
/// `Polling`, the loop goes on, and nothing is published.
pub proof fn lemma_short_report_discarded(min_size: nat, bytes: Vec<u8>)
    requires
        bytes@.len() < min_size,
    ensures
        spec_reader_step(min_size, ReaderState::Reading, ReaderEvent::ReadCompleted(bytes)) == (
        ReaderState::Polling, ReaderAction::PollShutdown),
{
}

} // verus!
