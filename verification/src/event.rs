//! Command translation: the pure mapping from an inbound native media event
//! to at most one outbound application command, and the handler that forwards
//! the translated command to the dispatch transport.

use vstd::prelude::*;

use crate::span::chrono_accepts;
use crate::span::TimeSpan;

verus! {

/// An inbound event from the native media session. The volume level arrives
/// already scaled by the platform layer to hundredths of full volume
/// (truncated, so the session's 0.0–1.0 range becomes 0–100); positions
/// arrive as plain spans. Events the bridge does not react to are `Other`.
#[derive(Clone, Copy, Debug, PartialEq, Eq, Structural)]
pub enum NativeEvent {
    Play,
    Pause,
    Toggle,
    SetPosition(TimeSpan),
    Next,
    Previous,
    SetVolume(u8),
    Other,
}

/// An outbound command for the application's playback pipeline. The volume
/// of `SetVolume` is an integer between 0 and 100.
#[derive(Clone, Copy, Debug, PartialEq, Eq, Structural)]
pub enum MediaCommand {
    Resume,
    Pause,
    TogglePlayPause,
    SeekTo(TimeSpan),
    Next,
    Previous,
    SetVolume(u8),
}

impl NativeEvent {
    /// Positions carried by an event are well-formed spans.
    pub open spec fn wf(self) -> bool {
        self matches NativeEvent::SetPosition(d) ==> d.wf()
    }
}

/// What `translate` returns for each event: the exact event-to-command
/// mapping of the bridge. A position outside the seekable domain is
/// dropped silently; a volume above full scale is clamped to 100; events
/// the bridge does not react to yield nothing.
pub open spec fn translation(event: NativeEvent) -> Option<MediaCommand> {
    match event {
        NativeEvent::Play => Some(MediaCommand::Resume),
        NativeEvent::Pause => Some(MediaCommand::Pause),
        NativeEvent::Toggle => Some(MediaCommand::TogglePlayPause),
        NativeEvent::SetPosition(d) => if d.seekable() {
            Some(MediaCommand::SeekTo(d))
        } else {
            None
        },
        NativeEvent::Next => Some(MediaCommand::Next),
        NativeEvent::Previous => Some(MediaCommand::Previous),
        NativeEvent::SetVolume(v) => Some(
            MediaCommand::SetVolume(if v <= 100 { v } else { 100 }),
        ),
        NativeEvent::Other => None,
    }
}

/// Translate one native event into at most one application command.
/// Pure and deterministic; no side effects.
pub fn translate(event: NativeEvent) -> (r: Option<MediaCommand>)
    requires
        event.wf(),
    ensures
        r == translation(event),
{
    match event {
        NativeEvent::Play => Some(MediaCommand::Resume),
        NativeEvent::Pause => Some(MediaCommand::Pause),
        NativeEvent::Toggle => Some(MediaCommand::TogglePlayPause),
        NativeEvent::SetPosition(d) => {
            if chrono_accepts(&d) {
                Some(MediaCommand::SeekTo(d))
            } else {
                None
            }
        },
        NativeEvent::Next => Some(MediaCommand::Next),
        NativeEvent::Previous => Some(MediaCommand::Previous),
        NativeEvent::SetVolume(v) => {
            let level: u8 = if v <= 100 {
                v
            } else {
                100
            };
            Some(MediaCommand::SetVolume(level))
        },
        NativeEvent::Other => None,
    }
}

#[verifier::external_type_specification]
#[verifier::external_body]
#[verifier::reject_recursive_types(T)]
pub struct ExSender<T>(flume::Sender<T>);

/// Relies on `flume::Sender::send`: one delivery attempt on an unbounded
/// channel, which fails only when every receiver is gone; the command is
/// then dropped. Returns whether the command was enqueued.
#[verifier::external_body]
fn send_command(tx: &flume::Sender<MediaCommand>, cmd: MediaCommand) -> (r: bool) {
    tx.send(cmd).is_ok()
}

/// Handle one native event: translate it and forward the resulting command,
/// if any, to the dispatch transport. Forwarding is fire-and-forget: a
/// command that cannot be enqueued is dropped without retry or report.
/// Returns the command whose delivery was attempted.
pub fn handle_event(tx: &flume::Sender<MediaCommand>, event: NativeEvent) -> (r: Option<
    MediaCommand,
>)
    requires
        event.wf(),
    ensures
        r == translation(event),
{
    let command = translate(event);
    match command {
        Some(c) => {
            let _ = send_command(tx, c);
        },
        None => {},
    }
    command
}

} // verus!
