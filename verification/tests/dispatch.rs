use media_control::event::{handle_event, MediaCommand, NativeEvent};
use media_control::span::TimeSpan;

#[test]
fn handled_command_arrives_on_the_channel() {
    let (tx, rx) = flume::unbounded::<MediaCommand>();
    let r = handle_event(&tx, NativeEvent::Play);
    assert_eq!(r, Some(MediaCommand::Resume));
    assert_eq!(rx.try_recv(), Ok(MediaCommand::Resume));
    assert!(rx.try_recv().is_err());
}

#[test]
fn seek_command_carries_the_position() {
    let (tx, rx) = flume::unbounded::<MediaCommand>();
    let d = TimeSpan { secs: 42, nanos: 0 };
    let r = handle_event(&tx, NativeEvent::SetPosition(d));
    assert_eq!(r, Some(MediaCommand::SeekTo(d)));
    assert_eq!(rx.try_recv(), Ok(MediaCommand::SeekTo(d)));
}

#[test]
fn dropped_event_sends_nothing() {
    let (tx, rx) = flume::unbounded::<MediaCommand>();
    let d = TimeSpan {
        secs: 9_223_372_036_854_776,
        nanos: 0,
    };
    assert_eq!(handle_event(&tx, NativeEvent::SetPosition(d)), None);
    assert_eq!(handle_event(&tx, NativeEvent::Other), None);
    assert!(rx.try_recv().is_err());
}

#[test]
fn forwarding_failure_is_swallowed() {
    let (tx, rx) = flume::unbounded::<MediaCommand>();
    drop(rx);
    // Every receiver is gone: the send fails, the command is dropped, and
    // the handler still reports what it translated.
    let r = handle_event(&tx, NativeEvent::Toggle);
    assert_eq!(r, Some(MediaCommand::TogglePlayPause));
}
